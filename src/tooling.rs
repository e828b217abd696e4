use vstd::prelude::*;
use vstd::string::StringExecFns;
use crate::decision::{neutral, single, HookResult, Severity, Verdict};
use crate::event::{same_text, HookInput};
use crate::lines::{
    join_lines, lines_of, lines_with_prefix, lines_with_prefix_holding, matching_lines,
    matching_lines_holding, views_of,
};
use crate::text::{contains, contains_seq, ends_with, ends_with_seq};

verus! {

/// The external type checker that suits a source file.
#[derive(Clone, Copy, Debug, PartialEq, Eq, Structural)]
pub enum TypeChecker {
    Python,
    TypeScript,
    Rust,
}

/// The checker for `path`, by its extension.
pub open spec fn checker_for(path: Seq<char>) -> Option<TypeChecker> {
    if ends_with_seq(path, ".py"@) {
        Some(TypeChecker::Python)
    } else if ends_with_seq(path, ".ts"@) || ends_with_seq(path, ".tsx"@) {
        Some(TypeChecker::TypeScript)
    } else if ends_with_seq(path, ".rs"@) {
        Some(TypeChecker::Rust)
    } else {
        None
    }
}

/// Which type checker to run on the file that the event touched, if any.
pub fn typecheck(input: &HookInput) -> (r: Option<TypeChecker>)
    ensures
        r == match input.path_v() {
            Some(p) => checker_for(p),
            None => None,
        },
{
    let p = match input.file_path() {
        Some(p) => p,
        None => return None,
    };
    if ends_with(p, ".py") {
        Some(TypeChecker::Python)
    } else if ends_with(p, ".ts") || ends_with(p, ".tsx") {
        Some(TypeChecker::TypeScript)
    } else if ends_with(p, ".rs") {
        Some(TypeChecker::Rust)
    } else {
        None
    }
}

/// Most lines of checker output that a decision quotes, where it caps them.
pub open spec fn clippy_line_cap() -> nat {
    10
}

pub open spec fn cycle_line_cap() -> nat {
    20
}

/// The mypy configuration is present: a `mypy.ini`, a `.mypy.ini`, or a
/// `pyproject.toml` with a `[tool.mypy]` table.
pub fn mypy_configured(has_mypy_ini: bool, has_dot_mypy_ini: bool, pyproject: Option<&str>) -> (r:
    bool)
    ensures
        r == (has_mypy_ini || has_dot_mypy_ini || (pyproject is Some && contains_seq(
            pyproject->0@,
            "[tool.mypy]"@,
        ))),
{
    has_mypy_ini || has_dot_mypy_ini || match pyproject {
        Some(text) => contains(text, "[tool.mypy]"),
        None => false,
    }
}

/// Python type-check verdict from mypy's exit status and output: block with
/// the lines about the file (those starting with its project-relative path).
pub open spec fn typecheck_python_spec(
    file_path: Seq<char>,
    rel_path: Seq<char>,
    succeeded: bool,
    stdout: Seq<char>,
) -> Verdict {
    let errors = lines_with_prefix(lines_of(stdout), rel_path, usize::MAX as nat);
    if !succeeded && errors.len() > 0 {
        single(
            Severity::Block,
            "mypy errors in "@ + file_path + ":\n"@ + join_lines(errors),
        )
    } else {
        neutral()
    }
}

pub fn typecheck_python(file_path: &str, rel_path: &str, succeeded: bool, stdout: &str) -> (r:
    HookResult)
    ensures
        r@ == typecheck_python_spec(file_path@, rel_path@, succeeded, stdout@),
{
    if succeeded {
        return HookResult::ok();
    }
    let (errors, n) = matching_lines(stdout, rel_path, usize::MAX);
    if n == 0 {
        return HookResult::ok();
    }
    let msg = String::from_str("mypy errors in ").concat(file_path).concat(":\n").concat(
        errors.as_str(),
    );
    HookResult::block(msg)
}

/// TypeScript verdict from the compiler's output: block with the lines that
/// start with the file's path.
pub open spec fn typecheck_typescript_spec(file_path: Seq<char>, stdout: Seq<char>) -> Verdict {
    let errors = lines_with_prefix(lines_of(stdout), file_path, usize::MAX as nat);
    if errors.len() > 0 {
        single(
            Severity::Block,
            "TypeScript errors in "@ + file_path + ":\n"@ + join_lines(errors),
        )
    } else {
        neutral()
    }
}

pub fn typecheck_typescript(file_path: &str, stdout: &str) -> (r: HookResult)
    ensures
        r@ == typecheck_typescript_spec(file_path@, stdout@),
{
    let (errors, n) = matching_lines(stdout, file_path, usize::MAX);
    if n == 0 {
        return HookResult::ok();
    }
    let msg = String::from_str("TypeScript errors in ").concat(file_path).concat(":\n").concat(
        errors.as_str(),
    );
    HookResult::block(msg)
}

/// Rust verdict from the linter's short-format diagnostics: block with the
/// first ten error lines about the file, those that start with its path
/// (relative to the package directory) and a `:`, and hold `: error`.
pub open spec fn typecheck_rust_spec(rel_path: Seq<char>, stderr: Seq<char>) -> Verdict {
    let errors = lines_with_prefix_holding(
        lines_of(stderr),
        rel_path + ":"@,
        ": error"@,
        clippy_line_cap(),
    );
    if errors.len() > 0 {
        single(Severity::Block, "Clippy errors:\n"@ + join_lines(errors))
    } else {
        neutral()
    }
}

pub fn typecheck_rust(rel_path: &str, stderr: &str) -> (r: HookResult)
    ensures
        r@ == typecheck_rust_spec(rel_path@, stderr@),
{
    let prefix = String::from_str(rel_path).concat(":");
    let (errors, n) = matching_lines_holding(stderr, prefix.as_str(), ": error", 10);
    if n == 0 {
        return HookResult::ok();
    }
    HookResult::block(String::from_str("Clippy errors:\n").concat(errors.as_str()))
}

/// Import-cycle verdict from the linter's exit status and diagnostics: on
/// failure, warn with its first twenty lines.
pub open spec fn import_cycle_spec(succeeded: bool, stderr: Seq<char>) -> Verdict {
    if succeeded {
        neutral()
    } else {
        single(
            Severity::Warn,
            "WARNING: Import cycle detected:\n"@ + join_lines(
                lines_with_prefix(lines_of(stderr), Seq::empty(), cycle_line_cap()),
            ),
        )
    }
}

pub fn import_cycle_check(succeeded: bool, stderr: &str) -> (r: HookResult)
    ensures
        r@ == import_cycle_spec(succeeded, stderr@),
{
    if succeeded {
        return HookResult::ok();
    }
    proof {
        reveal_strlit("");
    }
    assert(""@ =~= Seq::<char>::empty());
    let (first, _n) = matching_lines(stderr, "", 20);
    HookResult::warn(String::from_str("WARNING: Import cycle detected:\n").concat(first.as_str()))
}

/// The text of the completion notification for a stop reason.
pub open spec fn notification_text(reason: Option<Seq<char>>) -> Seq<char> {
    let r = match reason {
        Some(x) => x,
        None => "completed"@,
    };
    if r == "user_stop"@ {
        "Session stopped by user"@
    } else if r == "end_turn"@ {
        "Task completed"@
    } else {
        r
    }
}

/// The completion notification to show at the end of a session turn.
pub fn notify_done(input: &HookInput) -> (r: String)
    ensures
        r@ == notification_text(crate::event::opt_view(input.stop_hook_reason)),
{
    let reason: &str = match &input.stop_hook_reason {
        Some(x) => x.as_str(),
        None => "completed",
    };
    if same_text(reason, "user_stop") {
        String::from_str("Session stopped by user")
    } else if same_text(reason, "end_turn") {
        String::from_str("Task completed")
    } else {
        String::from_str(reason)
    }
}

/// The single formatter invocation (program, then arguments) that rewrites
/// `p` in place, by extension; none for other files.
pub open spec fn formatter_command(p: Seq<char>) -> Option<Seq<Seq<char>>> {
    if ends_with_seq(p, ".py"@) {
        Some(seq!["ruff"@, "format"@, p, "--quiet"@])
    } else if ends_with_seq(p, ".rs"@) {
        Some(seq!["rustfmt"@, p])
    } else if ends_with_seq(p, ".ts"@) || ends_with_seq(p, ".tsx"@) || ends_with_seq(p, ".js"@)
        || ends_with_seq(p, ".jsx"@) || ends_with_seq(p, ".json"@) {
        Some(seq!["npx"@, "prettier"@, "--write"@, p])
    } else if ends_with_seq(p, ".md"@) {
        Some(seq!["npx"@, "prettier"@, "--write"@, p, "--prose-wrap=always"@])
    } else {
        None
    }
}

pub open spec fn command_view(c: Option<Vec<String>>) -> Option<Seq<Seq<char>>> {
    match c {
        Some(v) => Some(views_of(v@)),
        None => None,
    }
}

fn s(text: &str) -> (r: String)
    ensures
        r@ == text@,
{
    String::from_str(text)
}

/// The one formatter to run, in place, on the file that the event touched:
/// at most one subprocess.
pub fn format_on_save(input: &HookInput) -> (r: Option<Vec<String>>)
    ensures
        command_view(r) == match input.path_v() {
            Some(p) => formatter_command(p),
            None => None,
        },
{
    let p = match input.file_path() {
        Some(p) => p,
        None => return None,
    };
    let cmd = if ends_with(p, ".py") {
        vec![s("ruff"), s("format"), s(p), s("--quiet")]
    } else if ends_with(p, ".rs") {
        vec![s("rustfmt"), s(p)]
    } else if ends_with(p, ".ts") || ends_with(p, ".tsx") || ends_with(p, ".js") || ends_with(
        p,
        ".jsx",
    ) || ends_with(p, ".json") {
        vec![s("npx"), s("prettier"), s("--write"), s(p)]
    } else if ends_with(p, ".md") {
        vec![s("npx"), s("prettier"), s("--write"), s(p), s("--prose-wrap=always")]
    } else {
        return None;
    };
    assert(views_of(cmd@) =~= formatter_command(p@)->0);
    Some(cmd)
}

} // verus!
