use vstd::prelude::*;
use vstd::string::StringExecFns;
use crate::decision::{neutral, single, HookResult, Severity, Verdict};
use crate::edit_rules::edits_file;
use crate::event::{same_text, HookInput};
use crate::registry::texts_of;
use crate::text::{chars_of, count_lines, decimal, decimal_string, line_count, string_of, trim_text, trimmed};

verus! {

/// Branches on which direct edits draw a warning.
pub open spec fn protected_branches() -> Seq<Seq<char>> {
    seq!["main"@, "master"@, "production"@, "prod"@, "release"@, "develop"@]
}

fn protected_branch_texts() -> (r: Vec<&'static str>)
    ensures
        texts_of(r@) == protected_branches(),
{
    let r = vec!["main", "master", "production", "prod", "release", "develop"];
    assert(texts_of(r@) =~= protected_branches());
    r
}

pub open spec fn branch_warning_msg(branch: Seq<char>) -> Seq<char> {
    "WARNING: You are on '"@ + branch
        + "' branch.\nConsider creating a feature branch: git checkout -b feature/your-feature"@
}

/// Protected-branch guard, given what `git branch --show-current` printed
/// (`None` when it failed).
pub open spec fn branch_protection_spec(input: HookInput, current: Option<Seq<char>>) -> Verdict {
    if edits_file(input) && current is Some && protected_branches().contains(trimmed(current->0)) {
        single(Severity::Warn, branch_warning_msg(trimmed(current->0)))
    } else {
        neutral()
    }
}

pub fn branch_protection(input: &HookInput, current: Option<&str>) -> (r: HookResult)
    ensures
        r@ == branch_protection_spec(*input, crate::event::opt_str_view(current)),
{
    if !input.tool_named("Edit") && !input.tool_named("Write") {
        return HookResult::ok();
    }
    let out = match current {
        Some(o) => o,
        None => return HookResult::ok(),
    };
    let branch = trim_text(out);
    let names = protected_branch_texts();
    let ghost all = texts_of(names@);
    let mut i: usize = 0;
    while i < names.len()
        invariant
            i <= names@.len(),
            all == texts_of(names@),
            all == protected_branches(),
            branch@ == trimmed(out@),
            edits_file(*input),
            crate::event::opt_str_view(current) == Some(out@),
            forall|j: int| 0 <= j < i ==> all[j] != branch@,
        decreases names@.len() - i,
    {
        if same_text(names[i], branch.as_str()) {
            assert(all[i as int] == branch@);
            assert(protected_branches()[i as int] == trimmed(out@));
            assert(protected_branches().contains(trimmed(out@)));
            let msg = String::from_str("WARNING: You are on '").concat(branch.as_str()).concat(
                "' branch.\nConsider creating a feature branch: git checkout -b feature/your-feature",
            );
            return HookResult::warn(msg);
        }
        i += 1;
    }
    assert(!protected_branches().contains(trimmed(out@)));
    HookResult::ok()
}

/// Whether the repository probes of the pre-edit phase apply to this event.
pub open spec fn wants_repo_probe(input: HookInput) -> bool {
    edits_file(input) && input.path_v() is Some
}

pub fn needs_repo_probe(input: &HookInput) -> (r: bool)
    ensures
        r == wants_repo_probe(*input),
{
    (input.tool_named("Edit") || input.tool_named("Write")) && input.file_path().is_some()
}

/// Whether the current-branch query of the pre-edit phase applies to this event.
pub fn needs_branch_probe(input: &HookInput) -> (r: bool)
    ensures
        r == edits_file(*input),
{
    input.tool_named("Edit") || input.tool_named("Write")
}

pub open spec fn modified_msg(path: Seq<char>) -> Seq<char> {
    "WARNING: File has uncommitted modifications\nFile: "@ + path
        + "\nConsider committing or stashing changes first."@
}

pub open spec fn changed_msg(code: Seq<char>, path: Seq<char>) -> Seq<char> {
    "WARNING: File has uncommitted changes (status: "@ + trimmed(code) + ")\nFile: "@ + path
}

pub open spec fn many_changes_msg(n: nat) -> Seq<char> {
    "NOTE: Repository has "@ + decimal(n)
        + " uncommitted changes\nConsider committing or stashing before making more changes."@
}

/// More uncommitted entries than this draw a warning.
pub open spec fn change_threshold() -> nat {
    20
}

/// The two-character status code that starts a porcelain status line.
pub open spec fn status_code(status: Seq<char>) -> Seq<char> {
    status.take(2)
}

/// Working-tree hygiene guard, given the porcelain status of the file and of
/// the whole tree (`None` where the query could not run).
pub open spec fn git_status_spec(
    input: HookInput,
    file_status: Option<Seq<char>>,
    tree_status: Option<Seq<char>>,
) -> Verdict {
    if !wants_repo_probe(input) {
        neutral()
    } else {
        let path = input.path_v()->0;
        let code = status_code(file_status->0);
        if file_status is Some && file_status->0.len() >= 2 && (code == " M"@ || code == "MM"@
            || code == "AM"@) {
            single(Severity::Warn, modified_msg(path))
        } else if file_status is Some && file_status->0.len() >= 2 && code != "??"@ {
            single(Severity::Warn, changed_msg(code, path))
        } else if tree_status is Some && line_count(tree_status->0) > change_threshold() {
            single(Severity::Warn, many_changes_msg(line_count(tree_status->0)))
        } else {
            neutral()
        }
    }
}

pub fn git_status_check(
    input: &HookInput,
    file_status: Option<&str>,
    tree_status: Option<&str>,
) -> (r: HookResult)
    ensures
        r@ == git_status_spec(
            *input,
            crate::event::opt_str_view(file_status),
            crate::event::opt_str_view(tree_status),
        ),
{
    if !needs_repo_probe(input) {
        return HookResult::ok();
    }
    let file_path = match input.file_path() {
        Some(p) => p,
        None => return HookResult::ok(),
    };
    if let Some(status) = file_status {
        let cs = chars_of(status);
        if cs.len() >= 2 {
            let pair = vec![cs[0], cs[1]];
            assert(pair@ =~= status_code(status@));
            let code = string_of(&pair);
            let c = code.as_str();
            if same_text(c, " M") || same_text(c, "MM") || same_text(c, "AM") {
                let msg = String::from_str("WARNING: File has uncommitted modifications\nFile: ")
                    .concat(file_path).concat("\nConsider committing or stashing changes first.");
                return HookResult::warn(msg);
            }
            if !same_text(c, "??") {
                let msg = String::from_str("WARNING: File has uncommitted changes (status: ")
                    .concat(trim_text(c).as_str()).concat(")\nFile: ").concat(file_path);
                return HookResult::warn(msg);
            }
        }
    }
    if let Some(tree) = tree_status {
        let n = count_lines(tree);
        if n > 20 {
            let msg = String::from_str("NOTE: Repository has ").concat(
                decimal_string(n as u64).as_str(),
            ).concat(
                " uncommitted changes\nConsider committing or stashing before making more changes.",
            );
            return HookResult::warn(msg);
        }
    }
    HookResult::ok()
}

} // verus!
