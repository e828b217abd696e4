use hook_guard::calendar::{format_date, format_datetime};
use hook_guard::decision::{HookResult, Severity};
use hook_guard::event::{HookInput, ToolInput};
use hook_guard::lines::{matching_lines, split_lines};
use hook_guard::pipeline::post_edit_combined;
use hook_guard::prompt_rules::{
    context7_code_advice, context7_docs, context7_prompt_advice, inject_context,
    inject_context_lowered, user_prompt_combined,
};
use hook_guard::registry::Registry;
use hook_guard::roots::{find_git_root, find_project_root};
use hook_guard::session::session_logger;
use hook_guard::shape_check::jax_shape_check;
use hook_guard::text::{contains_any, decimal_string};
use hook_guard::tooling::{
    format_on_save, import_cycle_check, mypy_configured, notify_done, typecheck, typecheck_python,
    typecheck_rust, typecheck_typescript, TypeChecker,
};

fn blank() -> HookInput {
    HookInput {
        tool_name: None,
        tool_input: None,
        cwd: None,
        session_id: None,
        prompt: None,
        hook_event_name: None,
        stop_hook_reason: None,
    }
}

fn with_path(tool: &str, path: &str) -> HookInput {
    let mut e = blank();
    e.tool_name = Some(tool.to_string());
    e.tool_input = Some(ToolInput {
        file_path: Some(path.to_string()),
        content: None,
        new_string: None,
        old_string: None,
        command: None,
        pattern: None,
    });
    e
}

fn decision(sev: Severity, msgs: &[&str], ctx: Option<&str>) -> HookResult {
    HookResult {
        severity: sev,
        messages: msgs.iter().map(|m| m.to_string()).collect(),
        context: ctx.map(|c| c.to_string()),
    }
}

#[test]
fn combine_is_associative_on_values() {
    let a = decision(Severity::Warn, &["a"], Some("x"));
    let b = decision(Severity::Allow, &["b"], None);
    let c = decision(Severity::Block, &["c"], Some("z"));
    let left = a.clone().merge(b.clone()).merge(c.clone());
    let right = a.merge(b.merge(c));
    assert_eq!(left, right);
    assert_eq!(left, decision(Severity::Block, &["a", "b", "c"], Some("x\n\nz")));
}

#[test]
fn allow_with_nothing_is_identity() {
    let a = decision(Severity::Warn, &["m1", "m2"], Some("ctx"));
    assert_eq!(a.clone().merge(HookResult::ok()), a);
    assert_eq!(HookResult::ok().merge(a.clone()), a);
}

#[test]
fn combined_severity_is_the_max() {
    let sevs = [Severity::Allow, Severity::Warn, Severity::Block];
    for (i, x) in sevs.iter().enumerate() {
        for (j, y) in sevs.iter().enumerate() {
            let r = decision(*x, &[], None).merge(decision(*y, &[], None));
            assert_eq!(r.severity, sevs[i.max(j)]);
        }
    }
}

#[test]
fn constructors_and_exit_codes() {
    assert_eq!(HookResult::block("no".to_string()).exit_code(), 2);
    assert_eq!(HookResult::warn("hm".to_string()).exit_code(), 0);
    assert_eq!(HookResult::ok().exit_code(), 0);
    let c = HookResult::with_context("note".to_string());
    assert_eq!(c, decision(Severity::Allow, &[], Some("note")));
}

#[test]
fn decimal_text() {
    assert_eq!(decimal_string(0), "0");
    assert_eq!(decimal_string(1048576), "1048576");
    assert_eq!(decimal_string(u64::MAX), "18446744073709551615");
}

#[test]
fn contains_any_finds_a_needle() {
    assert!(contains_any("please deploy now", &vec!["release", "deploy"]));
    assert!(!contains_any("nothing here", &vec!["release", "deploy"]));
    assert!(!contains_any("", &vec![]));
}

#[test]
fn dates_from_epoch_seconds() {
    assert_eq!(format_date(0), "1970-01-01");
    assert_eq!(format_date(951782400), "2000-02-29");
    assert_eq!(format_date(1709164800), "2024-02-29");
    assert_eq!(format_datetime(1700000000), "2023-11-14 22:13:20");
    assert_eq!(format_datetime(86399), "1970-01-01 23:59:59");
}

#[test]
fn prompt_context_is_injected() {
    let mut e = blank();
    e.prompt = Some("Please DEPLOY and add a Test".to_string());
    let r = inject_context(&e);
    assert_eq!(r.severity, Severity::Allow);
    assert!(r.messages.is_empty());
    let ctx = r.context.expect("context");
    assert!(ctx.starts_with("DEPLOYMENT CHECKLIST:"));
    assert!(ctx.contains("\n\nTESTING GUIDELINES:"));
    assert_eq!(inject_context(&blank()), HookResult::ok());
}

#[test]
fn injected_context_on_lowered_prompt() {
    let r = inject_context_lowered("make it fast");
    assert!(r.context.unwrap().starts_with("PERFORMANCE CHECKLIST:"));
    assert_eq!(inject_context_lowered("hello there"), HookResult::ok());
}

#[test]
fn doc_lookup_advice() {
    let r = context7_prompt_advice("how do i use pandas groupby");
    assert_eq!(
        r.context,
        Some("Use Context7 MCP for up-to-date pandas docs: resolve-library-id('pandas') then get-library-docs()".to_string())
    );
    let r = context7_prompt_advice("is numpy slow?");
    assert_eq!(
        r.context,
        Some("Consider using Context7 MCP for current numpy documentation if needed.".to_string())
    );
    assert_eq!(context7_prompt_advice("use context7 for numpy docs"), HookResult::ok());
    assert_eq!(context7_prompt_advice("numpy is nice"), HookResult::ok());
}

#[test]
fn doc_lookup_on_prompt_event_lowercases() {
    let mut e = blank();
    e.hook_event_name = Some("UserPromptSubmit".to_string());
    e.prompt = Some("How do I use FastAPI".to_string());
    let r = context7_docs(&e);
    assert!(r.context.unwrap().contains("fastapi"));
    let both = user_prompt_combined(&e);
    assert_eq!(both.severity, Severity::Allow);
}

#[test]
fn code_advice_notes_library_use() {
    let r = context7_code_advice("import torch\nx = torch.zeros(3)");
    assert_eq!(
        r.messages,
        vec!["NOTE: Code uses torch APIs. If unsure about function signatures, verify with Context7 MCP.".to_string()]
    );
    assert_eq!(context7_code_advice("import torch"), HookResult::ok());
}

#[test]
fn lines_follow_std() {
    assert_eq!(split_lines("a\r\nb\n\nc"), vec!["a", "b", "", "c"]);
    assert_eq!(split_lines("a\n"), vec!["a"]);
    assert!(split_lines("").is_empty());
    let (text, n) = matching_lines("error: x\nwarning: y\nerror: z\n", "error", 10);
    assert_eq!(text, "error: x\nerror: z");
    assert_eq!(n, 2);
}

#[test]
fn checker_outputs() {
    let r = typecheck_python("/p/src/m.py", "src/m.py", false, "src/m.py:1: error: bad\nother.py:2: error\n");
    assert_eq!(r.messages, vec!["mypy errors in /p/src/m.py:\nsrc/m.py:1: error: bad".to_string()]);
    assert_eq!(typecheck_python("/p/src/m.py", "src/m.py", true, "src/m.py:1: error"), HookResult::ok());
    let r = typecheck_typescript("a.ts", "a.ts(1,2): error TS1\nb.ts(1,1): error\n");
    assert_eq!(r.messages, vec!["TypeScript errors in a.ts:\na.ts(1,2): error TS1".to_string()]);
    let many: String = (0..12).map(|i| format!("src/lib.rs:{}:1: error[E0425]: x\n", i)).collect();
    let r = typecheck_rust("src/lib.rs", &many);
    assert_eq!(r.severity, Severity::Block);
    assert_eq!(r.messages[0].lines().count(), 11);
    assert_eq!(typecheck_rust("src/lib.rs", "src/lib.rs:1:1: warning: unused\n"), HookResult::ok());
    assert_eq!(typecheck_rust("src/lib.rs", "error"), HookResult::ok());
    assert_eq!(
        typecheck_rust("src/lib.rs", "src/main.rs:2:3: error: bad\nerror: could not compile\n"),
        HookResult::ok()
    );
    let r = typecheck_rust("src/lib.rs", "src/main.rs:2:3: error: bad\nsrc/lib.rs:9:1: error[E0308]: mismatched\n");
    assert_eq!(r.messages, vec!["Clippy errors:\nsrc/lib.rs:9:1: error[E0308]: mismatched".to_string()]);
    let r = import_cycle_check(false, "cycle a -> b\n");
    assert_eq!(r.messages, vec!["WARNING: Import cycle detected:\ncycle a -> b".to_string()]);
    assert_eq!(import_cycle_check(true, "x"), HookResult::ok());
    assert!(mypy_configured(false, false, Some("[tool.mypy]\nstrict = true")));
    assert!(!mypy_configured(false, false, Some("[tool.ruff]")));
}

#[test]
fn checker_and_formatter_choice() {
    assert_eq!(typecheck(&with_path("Edit", "a.py")), Some(TypeChecker::Python));
    assert_eq!(typecheck(&with_path("Edit", "a.tsx")), Some(TypeChecker::TypeScript));
    assert_eq!(typecheck(&with_path("Edit", "a.rs")), Some(TypeChecker::Rust));
    assert_eq!(typecheck(&with_path("Edit", "a.go")), None);
    assert_eq!(format_on_save(&with_path("Write", "lib.rs")), Some(vec!["rustfmt".to_string(), "lib.rs".to_string()]));
    assert_eq!(
        format_on_save(&with_path("Write", "m.py")),
        Some(vec!["ruff".to_string(), "format".to_string(), "m.py".to_string(), "--quiet".to_string()])
    );
    assert_eq!(format_on_save(&with_path("Write", "notes.txt")), None);
    assert_eq!(format_on_save(&blank()), None);
}

#[test]
fn notification_texts() {
    let mut e = blank();
    assert_eq!(notify_done(&e), "completed");
    e.stop_hook_reason = Some("end_turn".to_string());
    assert_eq!(notify_done(&e), "Task completed");
    e.stop_hook_reason = Some("user_stop".to_string());
    assert_eq!(notify_done(&e), "Session stopped by user");
}

#[test]
fn session_log_record() {
    let mut e = with_path("Bash", "x");
    e.session_id = Some("s1".to_string());
    e.tool_input.as_mut().unwrap().command = Some("y".repeat(150));
    let rec = session_logger(&e, 1700000000);
    assert_eq!(rec.file_name, "session-2023-11-14.log");
    assert_eq!(rec.line, format!("[2023-11-14 22:13:20] session=s1 tool=Bash cmd={}\n", "y".repeat(100)));
    let rec = session_logger(&with_path("Read", "f.txt"), 0);
    assert_eq!(rec.line, "[1970-01-01 00:00:00] session=unknown tool=Read file=f.txt\n");
}

#[test]
fn shape_heuristics() {
    let reg = Registry::new().unwrap();
    let code = "import jax\ny = jnp.einsum('ij,jk->iz', a, b)\nf = jax.vmap(g)\n";
    let r = jax_shape_check(code, &reg);
    assert_eq!(
        r.messages,
        vec!["JAX shape/type warnings:\n  Line 2: einsum output has indices ['z'] not present in input\n  Line 3: vmap/pmap without explicit in_axes/out_axes (defaults to 0, verify this is intended)".to_string()]
    );
    assert_eq!(jax_shape_check("y = jnp.einsum('ij->iz', a)\n", &reg), HookResult::ok());
    assert_eq!(jax_shape_check("import jax\nf = jax.vmap(g, in_axes=1)\n", &reg), HookResult::ok());
}

#[test]
fn post_edit_folds_everything() {
    let r = post_edit_combined(vec![
        HookResult::block("a".to_string()),
        HookResult::warn("b".to_string()),
        HookResult::ok(),
    ]);
    assert_eq!(r, decision(Severity::Block, &["a", "b"], None));
    assert_eq!(post_edit_combined(vec![]), HookResult::ok());
}

#[test]
fn nearest_roots() {
    assert_eq!(find_git_root(&vec![false, true, true]), Some(1));
    assert_eq!(find_git_root(&vec![false, false]), None);
    assert_eq!(find_project_root(&vec![(false, false, false), (false, false, true)]), Some(1));
    assert_eq!(find_project_root(&vec![]), None);
}
