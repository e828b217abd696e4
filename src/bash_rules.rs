use vstd::prelude::*;
use vstd::string::StringExecFns;
use crate::decision::{neutral, single, HookResult, Severity, Verdict};
use crate::event::HookInput;
use crate::recognizer::{regex_finds, regex_group, Recognizer};
use crate::registry::{
    branch_create_source, branch_naming_source, branch_protected_source, commit_msg_source,
    conventional_source, dangerous_sources, rm_var_source, sources_of, Registry,
};
use crate::text::{byte_len, chars_of, contains, contains_seq, decimal, decimal_string, starts_with, starts_with_seq, string_of};

verus! {

/// Some source in `sources` matches somewhere in `text`.
pub open spec fn any_finds(sources: Seq<Seq<char>>, text: Seq<char>) -> bool {
    exists|k: int| 0 <= k < sources.len() && regex_finds(sources[k], text)
}

/// Whether any recognizer of `recs` matches somewhere in `text`.
pub fn any_recognizer_finds(recs: &Vec<Recognizer>, text: &str) -> (r: bool)
    ensures
        r == any_finds(sources_of(recs@), text@),
{
    let mut k: usize = 0;
    while k < recs.len()
        invariant
            k <= recs@.len(),
            forall|j: int| 0 <= j < k ==> !regex_finds(#[trigger] sources_of(recs@)[j], text@),
        decreases recs@.len() - k,
    {
        if recs[k].finds(text) {
            assert(regex_finds(sources_of(recs@)[k as int], text@));
            return true;
        }
        k += 1;
    }
    false
}

pub open spec fn dangerous_msg(cmd: Seq<char>) -> Seq<char> {
    "BLOCKED: Potentially dangerous command detected\nCommand: "@ + cmd
        + "\n\nIf you really need to run this command, please do so manually."@
}

pub open spec fn rm_var_msg(cmd: Seq<char>) -> Seq<char> {
    "WARNING: rm -rf with variable expansion detected\nCommand: "@ + cmd
        + "\nEnsure the variable is set correctly before proceeding."@
}

pub open spec fn sudo_msg() -> Seq<char> {
    "WARNING: sudo command detected - will require manual approval"@
}

/// Dangerous-command guard: block a destructive shape, warn on a
/// variable-expanded delete or on a superuser prefix.
pub open spec fn dangerous_command_spec(input: HookInput) -> Verdict {
    if !input.tool_is("Bash"@) {
        neutral()
    } else {
        match input.command_v() {
            None => neutral(),
            Some(c) => if any_finds(dangerous_sources(), c) {
                single(Severity::Block, dangerous_msg(c))
            } else if regex_finds(rm_var_source(), c) {
                single(Severity::Warn, rm_var_msg(c))
            } else if starts_with_seq(c, "sudo "@) {
                single(Severity::Warn, sudo_msg())
            } else {
                neutral()
            },
        }
    }
}

pub fn dangerous_command(input: &HookInput, reg: &Registry) -> (r: HookResult)
    requires
        reg.wf(),
    ensures
        r@ == dangerous_command_spec(*input),
{
    if !input.tool_named("Bash") {
        return HookResult::ok();
    }
    let command = match input.command() {
        Some(c) => c,
        None => return HookResult::ok(),
    };
    if any_recognizer_finds(&reg.dangerous, command) {
        let msg = String::from_str("BLOCKED: Potentially dangerous command detected\nCommand: ")
            .concat(command).concat("\n\nIf you really need to run this command, please do so manually.");
        return HookResult::block(msg);
    }
    if reg.rm_var.finds(command) {
        let msg = String::from_str("WARNING: rm -rf with variable expansion detected\nCommand: ")
            .concat(command).concat("\nEnsure the variable is set correctly before proceeding.");
        return HookResult::warn(msg);
    }
    if starts_with(command, "sudo ") {
        return HookResult::warn(
            String::from_str("WARNING: sudo command detected - will require manual approval"),
        );
    }
    HookResult::ok()
}

/// The first line of `s`, as `str::lines` yields it: up to the first
/// newline, without a carriage return right before that newline.
pub open spec fn first_line(s: Seq<char>) -> Seq<char> {
    if s.contains('\n') {
        let line = s.take(
            choose|i: int| 0 <= i < s.len() && s[i] == '\n' && !s.take(i).contains('\n'),
        );
        if line.len() > 0 && line.last() == '\r' {
            line.drop_last()
        } else {
            line
        }
    } else {
        s
    }
}

/// The first line of `s`.
pub fn first_line_of(s: &str) -> (r: String)
    ensures
        r@ == first_line(s@),
{
    let cs = chars_of(s);
    let mut i: usize = 0;
    while i < cs.len() && cs[i] != '\n'
        invariant
            cs@ == s@,
            i <= cs@.len(),
            !cs@.take(i as int).contains('\n'),
        decreases cs@.len() - i,
    {
        assert(cs@.take(i + 1) =~= cs@.take(i as int).push(cs@[i as int]));
        i += 1;
    }
    proof {
        if i < cs@.len() {
            let j = choose|j: int| 0 <= j < s@.len() && s@[j] == '\n' && !s@.take(j).contains('\n');
            if j < i {
                assert(cs@.take(i as int)[j] == '\n');
            }
            if i < j {
                assert(s@.take(j)[i as int] == '\n');
            }
        } else {
            assert(cs@.take(i as int) =~= s@);
        }
    }
    let mut end = i;
    if end < cs.len() && end > 0 && cs[end - 1] == '\r' {
        end = end - 1;
    }
    let mut line: Vec<char> = Vec::new();
    let mut k: usize = 0;
    while k < end
        invariant
            end <= cs@.len(),
            k <= end,
            line@ == cs@.take(k as int),
        decreases end - k,
    {
        line.push(cs[k]);
        assert(cs@.take(k + 1) =~= cs@.take(k as int).push(cs@[k as int]));
        k += 1;
    }
    assert(line@ =~= first_line(s@));
    string_of(&line)
}

pub open spec fn commit_format_msg(msg: Seq<char>) -> Seq<char> {
    "BLOCKED: Commit message does not follow conventional commits format\n\nExpected format: type(scope): description\n\nValid types: feat, fix, docs, style, refactor, perf, test, chore, ci, build, revert\n\nExample: feat(auth): add OAuth2 login flow\nYour message: "@
        + msg
}

pub open spec fn subject_length_msg(n: nat) -> Seq<char> {
    "WARNING: Commit subject line is "@ + decimal(n) + " chars (recommended <= 50, max 72)"@
}

pub open spec fn branch_name_msg(branch: Seq<char>) -> Seq<char> {
    "BLOCKED: Branch name does not follow naming convention\n\nExpected format: type/short-description\nExample: feat/add-oauth-login\nYour branch: "@
        + branch
}

/// Longest accepted subject line, in bytes.
pub open spec fn subject_limit() -> nat {
    72
}

/// Commit/branch-convention guard.
pub open spec fn validate_commit_spec(input: HookInput) -> Verdict {
    if !input.tool_is("Bash"@) {
        neutral()
    } else {
        match input.command_v() {
            None => neutral(),
            Some(c) => {
                let msg = regex_group(commit_msg_source(), c, 1);
                let subject_len = byte_len(first_line(msg->0));
                let branch = regex_group(branch_create_source(), c, 2);
                if contains_seq(c, "git commit"@) && msg is Some && !regex_finds(
                    conventional_source(),
                    msg->0,
                ) {
                    single(Severity::Block, commit_format_msg(msg->0))
                } else if contains_seq(c, "git commit"@) && msg is Some && subject_len
                    > subject_limit() {
                    single(Severity::Warn, subject_length_msg(subject_len))
                } else if branch is Some && !regex_finds(branch_protected_source(), branch->0)
                    && !regex_finds(branch_naming_source(), branch->0) {
                    single(Severity::Block, branch_name_msg(branch->0))
                } else {
                    neutral()
                }
            },
        }
    }
}

pub fn validate_commit(input: &HookInput, reg: &Registry) -> (r: HookResult)
    requires
        reg.wf(),
    ensures
        r@ == validate_commit_spec(*input),
{
    if !input.tool_named("Bash") {
        return HookResult::ok();
    }
    let command = match input.command() {
        Some(c) => c,
        None => return HookResult::ok(),
    };
    if contains(command, "git commit") {
        if let Some(msg) = reg.commit_msg.group(command, 1) {
            if !reg.conventional.finds(msg.as_str()) {
                let text = String::from_str(
                    "BLOCKED: Commit message does not follow conventional commits format\n\nExpected format: type(scope): description\n\nValid types: feat, fix, docs, style, refactor, perf, test, chore, ci, build, revert\n\nExample: feat(auth): add OAuth2 login flow\nYour message: ",
                ).concat(msg.as_str());
                return HookResult::block(text);
            }
            let subject = first_line_of(msg.as_str());
            let n = subject.as_str().len();
            if n > 72 {
                let text = String::from_str("WARNING: Commit subject line is ").concat(
                    decimal_string(n as u64).as_str(),
                ).concat(" chars (recommended <= 50, max 72)");
                return HookResult::warn(text);
            }
        }
    }
    if let Some(branch) = reg.branch_create.group(command, 2) {
        if !reg.branch_protected.finds(branch.as_str()) && !reg.branch_naming.finds(
            branch.as_str(),
        ) {
            let text = String::from_str(
                "BLOCKED: Branch name does not follow naming convention\n\nExpected format: type/short-description\nExample: feat/add-oauth-login\nYour branch: ",
            ).concat(branch.as_str());
            return HookResult::block(text);
        }
    }
    HookResult::ok()
}

} // verus!
