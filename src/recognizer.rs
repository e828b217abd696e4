use vstd::prelude::*;

verus! {

#[verifier::external_type_specification]
#[verifier::external_body]
pub struct ExRegex(regex::Regex);

/// Whether the regex engine, with its default settings, compiles `pattern`.
pub uninterp spec fn regex_accepts(pattern: Seq<char>) -> bool;

/// Whether the regular expression `pattern` matches somewhere in `text`.
pub uninterp spec fn regex_finds(pattern: Seq<char>, text: Seq<char>) -> bool;

/// The text of capture group `group` in the leftmost match of `pattern` in
/// `text`, if there is a match and the group took part in it.
pub uninterp spec fn regex_group(pattern: Seq<char>, text: Seq<char>, group: nat) -> Option<
    Seq<char>,
>;

/// A compiled textual pattern. Its view is the pattern's source text; the
/// fields are private, so every value was compiled from that text.
pub struct Recognizer {
    source: String,
    compiled: regex::Regex,
}

impl View for Recognizer {
    type V = Seq<char>;

    closed spec fn view(&self) -> Seq<char> {
        self.source@
    }
}

impl Recognizer {
    /// Relies on regex::Regex::new: compiles `source`, or fails on a pattern it
    /// rejects; which of the two depends on the pattern text alone.
    #[verifier::external_body]
    pub(crate) fn compile(source: &str) -> (r: Option<Recognizer>)
        ensures
            r is Some <==> regex_accepts(source@),
            r matches Some(rec) ==> rec@ == source@,
    {
        match regex::Regex::new(source) {
            Ok(compiled) => Some(Recognizer { source: source.to_string(), compiled }),
            Err(_) => None,
        }
    }

    /// Relies on regex::Regex::is_match: true iff the pattern matches anywhere in `text`.
    #[verifier::external_body]
    pub(crate) fn finds(&self, text: &str) -> (r: bool)
        ensures
            r == regex_finds(self@, text@),
    {
        self.compiled.is_match(text)
    }

    /// Relies on regex::Regex::captures and Captures::get: the text of one
    /// group of the leftmost match.
    #[verifier::external_body]
    pub(crate) fn group(&self, text: &str, group: usize) -> (r: Option<String>)
        ensures
            match r {
                Some(g) => regex_group(self@, text@, group as nat) == Some(g@),
                None => regex_group(self@, text@, group as nat) is None,
            },
    {
        self.compiled.captures(text).and_then(|c| c.get(group)).map(|m| m.as_str().to_string())
    }
}

} // verus!
