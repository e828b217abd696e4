use vstd::prelude::*;
use vstd::string::StringExecFns;
use crate::bash_rules::{any_finds, any_recognizer_finds};
use crate::decision::{neutral, single, HookResult, Severity, Verdict};
use crate::event::HookInput;
use crate::glob::{glob_match, glob_matches};
use crate::registry::{secret_sources, texts_of, Registry};
use crate::text::{byte_len, contains, contains_seq, decimal, decimal_string, ends_with, ends_with_seq};

verus! {

/// Glob patterns of files that must not be edited: credentials, key
/// material, lockfiles, version-control internals, IDE settings.
pub open spec fn protected_patterns() -> Seq<Seq<char>> {
    seq![
        "*.env"@, "*.env.*"@, "*/.env"@, "*/.env.*"@, "*credentials*"@, "*secrets*"@,
        "*.pem"@, "*.key"@, "*.crt"@, "*id_rsa*"@, "*id_ed25519*"@, ".git/*"@,
        "*/.git/*"@, "package-lock.json"@, "yarn.lock"@, "Cargo.lock"@, "uv.lock"@,
        "poetry.lock"@, ".vscode/settings.json"@, ".idea/*"@,
    ]
}

fn protected_pattern_texts() -> (r: Vec<&'static str>)
    ensures
        texts_of(r@) == protected_patterns(),
{
    let r = vec![
        "*.env", "*.env.*", "*/.env", "*/.env.*", "*credentials*", "*secrets*",
        "*.pem", "*.key", "*.crt", "*id_rsa*", "*id_ed25519*", ".git/*",
        "*/.git/*", "package-lock.json", "yarn.lock", "Cargo.lock", "uv.lock",
        "poetry.lock", ".vscode/settings.json", ".idea/*",
    ];
    assert(texts_of(r@) =~= protected_patterns());
    r
}

/// The first pattern of `patterns` that matches `path`.
pub open spec fn first_glob_hit(patterns: Seq<Seq<char>>, path: Seq<char>) -> Option<Seq<char>>
    decreases patterns.len(),
{
    if patterns.len() == 0 {
        None
    } else if glob_matches(patterns[0], path) {
        Some(patterns[0])
    } else {
        first_glob_hit(patterns.skip(1), path)
    }
}

fn first_protected_hit(path: &str) -> (r: Option<&'static str>)
    ensures
        match r {
            Some(p) => first_glob_hit(protected_patterns(), path@) == Some(p@),
            None => first_glob_hit(protected_patterns(), path@) is None,
        },
{
    let pats = protected_pattern_texts();
    let ghost all = texts_of(pats@);
    assert(all.skip(0) =~= all);
    let mut i: usize = 0;
    while i < pats.len()
        invariant
            i <= pats@.len(),
            all == texts_of(pats@),
            all == protected_patterns(),
            first_glob_hit(all, path@) == first_glob_hit(all.skip(i as int), path@),
        decreases pats@.len() - i,
    {
        assert(all.skip(i as int)[0] == pats@[i as int]@);
        assert(all.skip(i as int).skip(1) =~= all.skip(i + 1));
        if glob_match(pats[i], path) {
            return Some(pats[i]);
        }
        i += 1;
    }
    assert(all.skip(i as int).len() == 0);
    None
}

pub open spec fn protected_file_msg(path: Seq<char>, pattern: Seq<char>) -> Seq<char> {
    "BLOCKED: Cannot modify protected file: "@ + path + "\nPattern matched: "@ + pattern
        + "\nIf you need to modify this file, please do so manually."@
}

pub open spec fn secret_msg() -> Seq<char> {
    "BLOCKED: Potential secret/API key detected in file content\nPlease use environment variables or a secrets manager instead."@
}

/// The action edits or writes a file.
pub open spec fn edits_file(input: HookInput) -> bool {
    input.tool_is("Edit"@) || input.tool_is("Write"@)
}

/// Protected-file guard: block a protected path, naming the pattern; for a
/// Write, also block content holding a secret-shaped token.
pub open spec fn protect_files_spec(input: HookInput) -> Verdict {
    if !edits_file(input) {
        neutral()
    } else {
        match input.path_v() {
            None => neutral(),
            Some(p) => match first_glob_hit(protected_patterns(), p) {
                Some(pat) => single(Severity::Block, protected_file_msg(p, pat)),
                None => if input.tool_is("Write"@) && input.content_v() is Some && any_finds(
                    secret_sources(),
                    input.content_v()->0,
                ) {
                    single(Severity::Block, secret_msg())
                } else {
                    neutral()
                },
            },
        }
    }
}

pub fn protect_files(input: &HookInput, reg: &Registry) -> (r: HookResult)
    requires
        reg.wf(),
    ensures
        r@ == protect_files_spec(*input),
{
    let is_write = input.tool_named("Write");
    if !input.tool_named("Edit") && !is_write {
        return HookResult::ok();
    }
    let file_path = match input.file_path() {
        Some(p) => p,
        None => return HookResult::ok(),
    };
    if let Some(pattern) = first_protected_hit(file_path) {
        let msg = String::from_str("BLOCKED: Cannot modify protected file: ").concat(file_path)
            .concat("\nPattern matched: ").concat(pattern).concat(
            "\nIf you need to modify this file, please do so manually.",
        );
        return HookResult::block(msg);
    }
    if is_write {
        if let Some(content) = input.content() {
            if any_recognizer_finds(&reg.secrets, content) {
                return HookResult::block(
                    String::from_str(
                        "BLOCKED: Potential secret/API key detected in file content\nPlease use environment variables or a secrets manager instead.",
                    ),
                );
            }
        }
    }
    HookResult::ok()
}

/// A control byte other than tab, newline and carriage return.
pub open spec fn non_printable(b: u8) -> bool {
    b < 32 && b != 9 && b != 10 && b != 13
}

/// How many bytes of `bs` are non-printable.
pub open spec fn non_printable_count(bs: Seq<u8>) -> nat
    decreases bs.len(),
{
    if bs.len() == 0 {
        0
    } else {
        non_printable_count(bs.drop_last()) + if non_printable(bs.last()) {
            1nat
        } else {
            0nat
        }
    }
}

/// Above this many bytes a Write is blocked.
pub open spec fn hard_cap() -> nat {
    1048576
}

/// Above this many bytes a Write draws a warning.
pub open spec fn soft_cap() -> nat {
    102400
}

/// Above this many bytes an Edit's replacement draws a warning.
pub open spec fn edit_cap() -> nat {
    51200
}

pub open spec fn too_large_msg(mb: nat) -> Seq<char> {
    "BLOCKED: File content too large ("@ + decimal(mb)
        + "MB)\nThis is likely a mistake. If intentional, write manually."@
}

pub open spec fn large_write_msg(path: Seq<char>, kb: nat) -> Seq<char> {
    "WARNING: Large file write detected\nFile: "@ + path + "\nSize: "@ + decimal(kb)
        + "KB\n\nConsider:\n  - Breaking into smaller files\n  - Using external data storage\n  - Generating programmatically instead of hardcoding"@
}

pub open spec fn binary_msg(ratio: nat, path: Seq<char>) -> Seq<char> {
    "WARNING: Content appears to contain binary data ("@ + decimal(ratio)
        + "% non-printable)\nFile: "@ + path
}

pub open spec fn large_edit_msg(kb: nat) -> Seq<char> {
    "WARNING: Large edit detected ("@ + decimal(kb)
        + "KB replacement)\nConsider breaking into smaller edits."@
}

/// Percentage of non-printable bytes among the first (at most 4096) bytes.
pub open spec fn binary_ratio(bytes: Seq<u8>) -> nat {
    let sample = if bytes.len() < 4096 { bytes.len() } else { 4096 };
    non_printable_count(bytes.take(sample as int)) * 100 / sample
}

/// Large-content guard.
pub open spec fn large_file_spec(input: HookInput) -> Verdict {
    if input.tool_is("Write"@) {
        match input.content_v() {
            None => neutral(),
            Some(c) => {
                let size = byte_len(c);
                let path = match input.path_v() {
                    Some(p) => p,
                    None => "unknown"@,
                };
                if size > hard_cap() {
                    single(Severity::Block, too_large_msg(size / hard_cap()))
                } else if size > soft_cap() {
                    single(Severity::Warn, large_write_msg(path, size / 1024))
                } else if size > 1000 && binary_ratio(vstd::utf8::encode_utf8(c)) > 20 {
                    single(
                        Severity::Warn,
                        binary_msg(binary_ratio(vstd::utf8::encode_utf8(c)), path),
                    )
                } else {
                    neutral()
                }
            },
        }
    } else if input.tool_is("Edit"@) {
        match input.new_string_v() {
            Some(n) => if byte_len(n) > edit_cap() {
                single(Severity::Warn, large_edit_msg(byte_len(n) / 1024))
            } else {
                neutral()
            },
            None => neutral(),
        }
    } else {
        neutral()
    }
}

/// Percentage of non-printable bytes in the leading sample of `bytes`.
fn binary_ratio_exec(bytes: &[u8]) -> (r: u64)
    requires
        bytes@.len() > 0,
    ensures
        r as nat == binary_ratio(bytes@),
{
    let sample: usize = if bytes.len() < 4096 { bytes.len() } else { 4096 };
    let mut count: u64 = 0;
    let mut i: usize = 0;
    while i < sample
        invariant
            sample <= bytes@.len(),
            sample <= 4096,
            i <= sample,
            count <= i,
            count as nat == non_printable_count(bytes@.take(i as int)),
        decreases sample - i,
    {
        let b = bytes[i];
        assert(bytes@.take(i + 1).drop_last() =~= bytes@.take(i as int));
        if b < 32 && b != 9 && b != 10 && b != 13 {
            count = count + 1;
        }
        i += 1;
    }
    count * 100 / (sample as u64)
}

pub fn large_file_check(input: &HookInput) -> (r: HookResult)
    ensures
        r@ == large_file_spec(*input),
{
    if input.tool_named("Write") {
        let content = match input.content() {
            Some(c) => c,
            None => return HookResult::ok(),
        };
        let file_path = match input.file_path() {
            Some(p) => p,
            None => "unknown",
        };
        let size = content.len();
        if size > 1048576 {
            let msg = String::from_str("BLOCKED: File content too large (").concat(
                decimal_string((size / 1048576) as u64).as_str(),
            ).concat("MB)\nThis is likely a mistake. If intentional, write manually.");
            return HookResult::block(msg);
        }
        if size > 102400 {
            let msg = String::from_str("WARNING: Large file write detected\nFile: ").concat(
                file_path,
            ).concat("\nSize: ").concat(decimal_string((size / 1024) as u64).as_str()).concat(
                "KB\n\nConsider:\n  - Breaking into smaller files\n  - Using external data storage\n  - Generating programmatically instead of hardcoding",
            );
            return HookResult::warn(msg);
        }
        if size > 1000 {
            let bytes = content.as_bytes();
            let ratio = binary_ratio_exec(bytes);
            if ratio > 20 {
                let msg = String::from_str("WARNING: Content appears to contain binary data (")
                    .concat(decimal_string(ratio).as_str()).concat("% non-printable)\nFile: ")
                    .concat(file_path);
                return HookResult::warn(msg);
            }
        }
    } else if input.tool_named("Edit") {
        if let Some(new_string) = input.new_string() {
            let n = new_string.len();
            if n > 51200 {
                let msg = String::from_str("WARNING: Large edit detected (").concat(
                    decimal_string((n / 1024) as u64).as_str(),
                ).concat("KB replacement)\nConsider breaking into smaller edits.");
                return HookResult::warn(msg);
            }
        }
    }
    HookResult::ok()
}

} // verus!

verus! {

/// Test-file naming conventions across several language ecosystems.
pub open spec fn looks_like_test(p: Seq<char>) -> bool {
    contains_seq(p, "test_"@) || contains_seq(p, "_test."@) || contains_seq(p, "/tests/"@)
        || ends_with_seq(p, "Test.java"@) || ends_with_seq(p, "Test.ts"@) || ends_with_seq(
        p,
        "Test.tsx"@,
    ) || ends_with_seq(p, ".test.ts"@) || ends_with_seq(p, ".test.tsx"@) || ends_with_seq(
        p,
        ".test.js"@,
    ) || ends_with_seq(p, ".spec.ts"@) || ends_with_seq(p, ".spec.js"@)
}

pub open spec fn test_file_msg() -> Seq<char> {
    "NOTE: Editing test file. Remember to run tests before committing."@
}

/// Test-file guard: a reminder, never a block.
pub open spec fn test_file_spec(input: HookInput) -> Verdict {
    if edits_file(input) && input.path_v() is Some && looks_like_test(input.path_v()->0) {
        single(Severity::Warn, test_file_msg())
    } else {
        neutral()
    }
}

pub fn test_file_guard(input: &HookInput) -> (r: HookResult)
    ensures
        r@ == test_file_spec(*input),
{
    if !input.tool_named("Edit") && !input.tool_named("Write") {
        return HookResult::ok();
    }
    let p = match input.file_path() {
        Some(p) => p,
        None => return HookResult::ok(),
    };
    let is_test = contains(p, "test_") || contains(p, "_test.") || contains(p, "/tests/")
        || ends_with(p, "Test.java") || ends_with(p, "Test.ts") || ends_with(p, "Test.tsx")
        || ends_with(p, ".test.ts") || ends_with(p, ".test.tsx") || ends_with(p, ".test.js")
        || ends_with(p, ".spec.ts") || ends_with(p, ".spec.js");
    if is_test {
        return HookResult::warn(
            String::from_str("NOTE: Editing test file. Remember to run tests before committing."),
        );
    }
    HookResult::ok()
}

/// Libraries whose fast-moving APIs deserve a signature check.
pub open spec fn api_libraries() -> Seq<Seq<char>> {
    seq![
        "jax"@, "jax.numpy"@, "jax.lax"@, "jax.random"@, "jax.nn"@, "flax.nnx"@,
        "flax.linen"@, "optax"@, "orbax"@, "orbax.checkpoint"@, "jaxtyping"@, "grain"@,
        "chex"@, "equinox"@, "fiddle"@, "langchain"@, "transformers"@, "anthropic"@,
        "openai"@,
    ]
}

fn api_library_texts() -> (r: Vec<&'static str>)
    ensures
        texts_of(r@) == api_libraries(),
{
    let r = vec![
        "jax", "jax.numpy", "jax.lax", "jax.random", "jax.nn", "flax.nnx",
        "flax.linen", "optax", "orbax", "orbax.checkpoint", "jaxtyping", "grain",
        "chex", "equinox", "fiddle", "langchain", "transformers", "anthropic",
        "openai",
    ];
    assert(texts_of(r@) =~= api_libraries());
    r
}

/// `code` imports `lib`, by a `from` or an `import` statement.
pub open spec fn imports(code: Seq<char>, lib: Seq<char>) -> bool {
    contains_seq(code, "from "@ + lib) || contains_seq(code, "import "@ + lib)
}

/// The libraries of `libs` that `code` imports, in list order.
pub open spec fn imported_libraries(libs: Seq<Seq<char>>, code: Seq<char>) -> Seq<Seq<char>>
    decreases libs.len(),
{
    if libs.len() == 0 {
        Seq::empty()
    } else {
        let rest = imported_libraries(libs.drop_last(), code);
        if imports(code, libs.last()) {
            rest.push(libs.last())
        } else {
            rest
        }
    }
}

/// `parts` joined with `sep` between neighbours.
pub open spec fn join(parts: Seq<Seq<char>>, sep: Seq<char>) -> Seq<char>
    decreases parts.len(),
{
    if parts.len() == 0 {
        Seq::empty()
    } else if parts.len() == 1 {
        parts[0]
    } else {
        join(parts.drop_last(), sep) + sep + parts.last()
    }
}

pub open spec fn api_usage_msg(libs: Seq<Seq<char>>) -> Seq<char> {
    "NOTE: Code uses APIs from: "@ + join(libs, ", "@)
        + "\nThese libraries have complex/evolving APIs. Consider verifying function signatures with Context7 MCP if unsure."@
}

/// The code an edit carries: the written content, else the replacement text.
pub open spec fn edit_code(input: HookInput) -> Seq<char> {
    match input.content_v() {
        Some(c) => c,
        None => match input.new_string_v() {
            Some(n) => n,
            None => Seq::empty(),
        },
    }
}

/// API-usage advisory for Python sources.
pub open spec fn verify_api_spec(input: HookInput) -> Verdict {
    if edits_file(input) && input.path_v() is Some && ends_with_seq(input.path_v()->0, ".py"@)
        && imported_libraries(api_libraries(), edit_code(input)).len() > 0 {
        single(
            Severity::Warn,
            api_usage_msg(imported_libraries(api_libraries(), edit_code(input))),
        )
    } else {
        neutral()
    }
}

pub fn verify_api_calls(input: &HookInput) -> (r: HookResult)
    ensures
        r@ == verify_api_spec(*input),
{
    if !input.tool_named("Edit") && !input.tool_named("Write") {
        return HookResult::ok();
    }
    match input.file_path() {
        Some(p) => {
            if !ends_with(p, ".py") {
                return HookResult::ok();
            }
        },
        None => return HookResult::ok(),
    }
    let code: &str = match input.content() {
        Some(c) => c,
        None => match input.new_string() {
            Some(n) => n,
            None => "",
        },
    };
    proof {
        reveal_strlit("");
    }
    assert(code@ == edit_code(*input));
    let libs = api_library_texts();
    let ghost all = texts_of(libs@);
    let mut listing = String::from_str("");
    let mut found: usize = 0;
    let mut i: usize = 0;
    while i < libs.len()
        invariant
            i <= libs@.len(),
            all == texts_of(libs@),
            found as nat == imported_libraries(all.take(i as int), code@).len(),
            found <= i,
            listing@ == join(imported_libraries(all.take(i as int), code@), ", "@),
        decreases libs@.len() - i,
    {
        let lib = libs[i];
        assert(all.take(i + 1).drop_last() =~= all.take(i as int));
        assert(all.take(i + 1).last() == lib@);
        let from = String::from_str("from ").concat(lib);
        let import = String::from_str("import ").concat(lib);
        if contains(code, from.as_str()) || contains(code, import.as_str()) {
            let ghost prev = imported_libraries(all.take(i as int), code@);
            assert(imported_libraries(all.take(i + 1), code@) == prev.push(lib@));
            assert(prev.push(lib@).drop_last() =~= prev);
            if found > 0 {
                listing = listing.concat(", ");
            } else {
                proof {
                    reveal_strlit("");
                }
                assert(listing@ =~= Seq::<char>::empty());
            }
            listing = listing.concat(lib);
            found = found + 1;
            assert(listing@ =~= join(imported_libraries(all.take(i + 1), code@), ", "@));
        }
        i += 1;
    }
    assert(all.take(i as int) =~= all);
    if found > 0 {
        let msg = String::from_str("NOTE: Code uses APIs from: ").concat(listing.as_str()).concat(
            "\nThese libraries have complex/evolving APIs. Consider verifying function signatures with Context7 MCP if unsure.",
        );
        return HookResult::warn(msg);
    }
    HookResult::ok()
}

} // verus!
