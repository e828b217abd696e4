use vstd::prelude::*;
use crate::text::chars_of;

verus! {

/// The tool-specific fields of an action; only those relevant to the tool are present.
#[derive(Clone, Debug, PartialEq, Eq)]
pub struct ToolInput {
    pub file_path: Option<String>,
    pub content: Option<String>,
    pub new_string: Option<String>,
    pub old_string: Option<String>,
    pub command: Option<String>,
    pub pattern: Option<String>,
}

/// One decoded host event: the action to be judged and its metadata.
#[derive(Clone, Debug, PartialEq, Eq)]
pub struct HookInput {
    pub tool_name: Option<String>,
    pub tool_input: Option<ToolInput>,
    pub cwd: Option<String>,
    pub session_id: Option<String>,
    pub prompt: Option<String>,
    pub hook_event_name: Option<String>,
    pub stop_hook_reason: Option<String>,
}

/// The text of an optional string.
pub open spec fn opt_view(o: Option<String>) -> Option<Seq<char>> {
    match o {
        Some(s) => Some(s@),
        None => None,
    }
}

/// The text of an optional string slice.
pub open spec fn opt_str_view(o: Option<&str>) -> Option<Seq<char>> {
    match o {
        Some(s) => Some(s@),
        None => None,
    }
}

/// Whether two strings hold the same characters.
pub fn same_text(a: &str, b: &str) -> (r: bool)
    ensures
        r == (a@ == b@),
{
    let x = chars_of(a);
    let y = chars_of(b);
    if x.len() != y.len() {
        assert(x@.len() != y@.len());
        return false;
    }
    let mut i: usize = 0;
    while i < x.len()
        invariant
            x@ == a@,
            y@ == b@,
            x@.len() == y@.len(),
            i <= x@.len(),
            forall|j: int| 0 <= j < i ==> x@[j] == y@[j],
        decreases x@.len() - i,
    {
        if x[i] != y[i] {
            assert(x@[i as int] != y@[i as int]);
            return false;
        }
        i += 1;
    }
    assert(x@ =~= y@);
    true
}

fn opt_as_str(o: &Option<String>) -> (r: Option<&str>)
    ensures
        opt_str_view(r) == opt_view(*o),
{
    match o {
        Some(s) => Some(s.as_str()),
        None => None,
    }
}

impl HookInput {
    pub open spec fn tool_v(&self) -> Option<Seq<char>> {
        opt_view(self.tool_name)
    }

    /// The action's tool is exactly `name`.
    pub open spec fn tool_is(&self, name: Seq<char>) -> bool {
        self.tool_v() == Some(name)
    }

    pub open spec fn path_v(&self) -> Option<Seq<char>> {
        match self.tool_input {
            Some(t) => opt_view(t.file_path),
            None => None,
        }
    }

    pub open spec fn content_v(&self) -> Option<Seq<char>> {
        match self.tool_input {
            Some(t) => opt_view(t.content),
            None => None,
        }
    }

    pub open spec fn new_string_v(&self) -> Option<Seq<char>> {
        match self.tool_input {
            Some(t) => opt_view(t.new_string),
            None => None,
        }
    }

    pub open spec fn command_v(&self) -> Option<Seq<char>> {
        match self.tool_input {
            Some(t) => opt_view(t.command),
            None => None,
        }
    }

    pub open spec fn pattern_v(&self) -> Option<Seq<char>> {
        match self.tool_input {
            Some(t) => opt_view(t.pattern),
            None => None,
        }
    }

    pub fn tool(&self) -> (r: Option<&str>)
        ensures
            opt_str_view(r) == self.tool_v(),
    {
        opt_as_str(&self.tool_name)
    }

    /// Whether the action's tool is exactly `name`.
    pub fn tool_named(&self, name: &str) -> (r: bool)
        ensures
            r == self.tool_is(name@),
    {
        match self.tool() {
            Some(t) => same_text(t, name),
            None => false,
        }
    }

    pub fn file_path(&self) -> (r: Option<&str>)
        ensures
            opt_str_view(r) == self.path_v(),
    {
        match &self.tool_input {
            Some(t) => opt_as_str(&t.file_path),
            None => None,
        }
    }

    pub fn content(&self) -> (r: Option<&str>)
        ensures
            opt_str_view(r) == self.content_v(),
    {
        match &self.tool_input {
            Some(t) => opt_as_str(&t.content),
            None => None,
        }
    }

    pub fn new_string(&self) -> (r: Option<&str>)
        ensures
            opt_str_view(r) == self.new_string_v(),
    {
        match &self.tool_input {
            Some(t) => opt_as_str(&t.new_string),
            None => None,
        }
    }

    pub fn command(&self) -> (r: Option<&str>)
        ensures
            opt_str_view(r) == self.command_v(),
    {
        match &self.tool_input {
            Some(t) => opt_as_str(&t.command),
            None => None,
        }
    }

    pub fn search_pattern(&self) -> (r: Option<&str>)
        ensures
            opt_str_view(r) == self.pattern_v(),
    {
        match &self.tool_input {
            Some(t) => opt_as_str(&t.pattern),
            None => None,
        }
    }
}

} // verus!
