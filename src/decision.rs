use vstd::prelude::*;
use vstd::string::StringExecFns;

verus! {

/// How strongly a decision objects to an action: `Allow < Warn < Block`.
#[derive(Clone, Copy, Debug, PartialEq, Eq, Structural)]
pub enum Severity {
    Allow,
    Warn,
    Block,
}

impl Severity {
    /// Position of the severity in the total order.
    pub open spec fn rank(self) -> nat {
        match self {
            Severity::Allow => 0,
            Severity::Warn => 1,
            Severity::Block => 2,
        }
    }

    /// The stronger of two severities.
    pub open spec fn spec_max(self, other: Severity) -> Severity {
        if self.rank() >= other.rank() {
            self
        } else {
            other
        }
    }

    pub fn stronger(self, other: Severity) -> (r: Severity)
        ensures
            r == self.spec_max(other),
    {
        match (self, other) {
            (Severity::Block, _) => Severity::Block,
            (_, Severity::Block) => Severity::Block,
            (Severity::Warn, _) => Severity::Warn,
            (_, Severity::Warn) => Severity::Warn,
            _ => Severity::Allow,
        }
    }
}

/// Mathematical model of a decision.
pub ghost struct Verdict {
    pub severity: Severity,
    pub messages: Seq<Seq<char>>,
    pub context: Option<Seq<char>>,
}

/// Text placed between two contexts that are joined.
pub open spec fn context_separator() -> Seq<char> {
    seq!['\n', '\n']
}

/// How the contexts of two decisions are merged.
pub open spec fn join_contexts(a: Option<Seq<char>>, b: Option<Seq<char>>) -> Option<Seq<char>> {
    match (a, b) {
        (Some(x), Some(y)) => Some(x + context_separator() + y),
        (Some(x), None) => Some(x),
        (None, Some(y)) => Some(y),
        (None, None) => None,
    }
}

/// The combinator: strongest severity, messages in order, contexts joined.
pub open spec fn combine(a: Verdict, b: Verdict) -> Verdict {
    Verdict {
        severity: a.severity.spec_max(b.severity),
        messages: a.messages + b.messages,
        context: join_contexts(a.context, b.context),
    }
}

/// The neutral decision: allow, with no message and no context.
pub open spec fn neutral() -> Verdict {
    Verdict { severity: Severity::Allow, messages: Seq::empty(), context: None }
}

/// A decision of the given severity carrying one message.
pub open spec fn single(severity: Severity, msg: Seq<char>) -> Verdict {
    Verdict { severity, messages: seq![msg], context: None }
}

/// An allowing decision carrying only a context.
pub open spec fn context_only(text: Seq<char>) -> Verdict {
    Verdict { severity: Severity::Allow, messages: Seq::empty(), context: Some(text) }
}

/// The outcome of evaluating one or more guard rules.
#[derive(Clone, Debug, PartialEq, Eq)]
pub struct HookResult {
    pub severity: Severity,
    pub messages: Vec<String>,
    pub context: Option<String>,
}

pub open spec fn context_view(c: Option<String>) -> Option<Seq<char>> {
    match c {
        Some(s) => Some(s@),
        None => None,
    }
}

impl View for HookResult {
    type V = Verdict;

    open spec fn view(&self) -> Verdict {
        Verdict {
            severity: self.severity,
            messages: self.messages@.map_values(|s: String| s@),
            context: context_view(self.context),
        }
    }
}

impl HookResult {
    /// Allow, with nothing to say.
    pub fn ok() -> (r: HookResult)
        ensures
            r@ == neutral(),
    {
        let r = HookResult { severity: Severity::Allow, messages: Vec::new(), context: None };
        assert(r@.messages =~= Seq::<Seq<char>>::empty());
        r
    }

    /// Let the action go on, with one message.
    pub fn warn(msg: String) -> (r: HookResult)
        ensures
            r@ == single(Severity::Warn, msg@),
    {
        let ghost m = msg@;
        let r = HookResult { severity: Severity::Warn, messages: vec![msg], context: None };
        assert(r@.messages =~= seq![m]);
        r
    }

    /// Stop the action, with one message.
    pub fn block(msg: String) -> (r: HookResult)
        ensures
            r@ == single(Severity::Block, msg@),
    {
        let ghost m = msg@;
        let r = HookResult { severity: Severity::Block, messages: vec![msg], context: None };
        assert(r@.messages =~= seq![m]);
        r
    }

    /// Allow, handing the agent some context.
    pub fn with_context(text: String) -> (r: HookResult)
        ensures
            r@ == context_only(text@),
    {
        let r = HookResult { severity: Severity::Allow, messages: Vec::new(), context: Some(text) };
        assert(r@.messages =~= Seq::<Seq<char>>::empty());
        r
    }

    /// Combine this decision with a later one.
    pub fn merge(self, other: HookResult) -> (r: HookResult)
        ensures
            r@ == combine(self@, other@),
    {
        let mut messages = self.messages;
        let mut more = other.messages;
        let ghost m1 = messages@;
        let ghost m2 = more@;
        messages.append(&mut more);
        assert(messages@.map_values(|s: String| s@) =~= m1.map_values(|s: String| s@)
            + m2.map_values(|s: String| s@));
        let context = match (self.context, other.context) {
            (Some(a), Some(b)) => {
                let joined = a.concat("\n\n");
                proof {
                    reveal_strlit("\n\n");
                    assert("\n\n"@ =~= context_separator());
                }
                Some(joined.concat(b.as_str()))
            },
            (Some(a), None) => Some(a),
            (None, Some(b)) => Some(b),
            (None, None) => None,
        };
        let severity = self.severity.stronger(other.severity);
        HookResult { severity, messages, context }
    }

    /// True when the decision stops the action.
    pub fn is_block(&self) -> (r: bool)
        ensures
            r == (self@.severity == Severity::Block),
    {
        matches!(self.severity, Severity::Block)
    }

    /// The process exit status that renders this decision: 2 to block, else 0.
    pub fn exit_code(&self) -> (r: u8)
        ensures
            r == (if self@.severity == Severity::Block { 2u8 } else { 0u8 }),
    {
        if self.is_block() {
            2
        } else {
            0
        }
    }
}

/// Combining is associative, in severity, messages and context alike.
pub proof fn lemma_combine_associative(a: Verdict, b: Verdict, c: Verdict)
    ensures
        combine(combine(a, b), c) == combine(a, combine(b, c)),
{
    assert(combine(combine(a, b), c).messages =~= combine(a, combine(b, c)).messages);
    match (a.context, b.context, c.context) {
        (Some(x), Some(y), Some(z)) => {
            assert((x + context_separator() + y) + context_separator() + z =~= x
                + context_separator() + (y + context_separator() + z));
        },
        _ => {},
    }
}

/// The neutral decision is an identity on both sides.
pub proof fn lemma_combine_identity(a: Verdict)
    ensures
        combine(a, neutral()) == a,
        combine(neutral(), a) == a,
{
    assert(combine(a, neutral()).messages =~= a.messages);
    assert(combine(neutral(), a).messages =~= a.messages);
}

/// The combined severity is exactly the stronger of the two.
pub proof fn lemma_combine_severity(a: Verdict, b: Verdict)
    ensures
        combine(a, b).severity.rank() >= a.severity.rank(),
        combine(a, b).severity.rank() >= b.severity.rank(),
        combine(a, b).severity.rank() == if a.severity.rank() >= b.severity.rank() {
            a.severity.rank()
        } else {
            b.severity.rank()
        },
{
}

} // verus!
