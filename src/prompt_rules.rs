use vstd::prelude::*;
use vstd::string::StringExecFns;
use crate::decision::{combine, context_only, neutral, single, HookResult, Severity, Verdict};
use crate::edit_rules::{edits_file, join};
use crate::event::{same_text, HookInput};
use crate::registry::texts_of;
use crate::text::{contains, contains_any, contains_seq, ends_with, ends_with_seq};

verus! {

/// What `str::to_lowercase` makes of a string.
pub uninterp spec fn lower_of(s: Seq<char>) -> Seq<char>;

/// Relies on str::to_lowercase: the result depends on the characters alone.
#[verifier::external_body]
fn lowercase(s: &str) -> (r: String)
    ensures
        r@ == lower_of(s@),
{
    s.to_lowercase()
}

/// Some phrase of `phrases` occurs in `text`.
pub open spec fn mentions_any(text: Seq<char>, phrases: Seq<Seq<char>>) -> bool {
    exists|k: int| 0 <= k < phrases.len() && contains_seq(text, phrases[k])
}

/// Topic keywords, one list per piece of advice.
pub open spec fn advice_keywords() -> Seq<Seq<Seq<char>>> {
    seq![
        seq!["deploy"@, "release"@, "publish"@],
        seq!["migration"@, "database"@, "schema"@],
        seq!["optim"@, "performance"@, "slow"@, "fast"@],
        seq!["auth"@, "security"@, "password"@, "token"@],
        seq!["test"@, "coverage"@, "pytest"@],
        seq!["train"@, "model"@, "jax"@, "flax"@],
        seq!["refactor"@, "clean"@, "restructure"@],
    ]
}

/// The advice given for each keyword list.
pub open spec fn advice_texts() -> Seq<Seq<char>> {
    seq![
        "DEPLOYMENT CHECKLIST:\n- Run full test suite before deploying\n- Check for uncommitted changes (git status)\n- Verify version bump in package.json/pyproject.toml/Cargo.toml\n- Update CHANGELOG.md\n- Create git tag after successful deploy"@,
        "DATABASE SAFETY:\n- Always backup before migrations\n- Test migrations on staging first\n- Ensure migrations are reversible when possible\n- Check for long-running locks on production tables"@,
        "PERFORMANCE CHECKLIST:\n- Profile before optimizing (measure, don't guess)\n- Check algorithmic complexity first\n- Consider caching strategies\n- For JAX: ensure JIT compilation, check for recompilation triggers"@,
        "SECURITY REMINDER:\n- Never hardcode secrets - use environment variables\n- Validate and sanitize all user inputs\n- Use parameterized queries for database operations"@,
        "TESTING GUIDELINES:\n- Test behavior, not implementation\n- Include edge cases: empty inputs, null values, boundaries\n- For ML: test with fixed random seeds for reproducibility"@,
        "ML TRAINING CHECKLIST:\n- Set random seeds for reproducibility\n- Use gradient clipping (optax.clip_by_global_norm)\n- Monitor for NaN/Inf in gradients\n- Checkpoint frequently with Orbax"@,
        "REFACTORING GUIDELINES:\n- Ensure tests pass before and after\n- Make small, incremental changes\n- Avoid mixing refactoring with feature changes\n- Use git commits to checkpoint progress"@,
    ]
}

fn advice_tables() -> (r: (Vec<Vec<&'static str>>, Vec<&'static str>))
    ensures
        r.0@.len() == advice_keywords().len(),
        forall|k: int| 0 <= k < r.0@.len() ==> texts_of(#[trigger] r.0@[k]@) == advice_keywords()[k],
        texts_of(r.1@) == advice_texts(),
        r.1@.len() == advice_texts().len(),
{
    let keywords = vec![
        vec!["deploy", "release", "publish"],
        vec!["migration", "database", "schema"],
        vec!["optim", "performance", "slow", "fast"],
        vec!["auth", "security", "password", "token"],
        vec!["test", "coverage", "pytest"],
        vec!["train", "model", "jax", "flax"],
        vec!["refactor", "clean", "restructure"],
    ];
    let texts = vec![
        "DEPLOYMENT CHECKLIST:\n- Run full test suite before deploying\n- Check for uncommitted changes (git status)\n- Verify version bump in package.json/pyproject.toml/Cargo.toml\n- Update CHANGELOG.md\n- Create git tag after successful deploy",
        "DATABASE SAFETY:\n- Always backup before migrations\n- Test migrations on staging first\n- Ensure migrations are reversible when possible\n- Check for long-running locks on production tables",
        "PERFORMANCE CHECKLIST:\n- Profile before optimizing (measure, don't guess)\n- Check algorithmic complexity first\n- Consider caching strategies\n- For JAX: ensure JIT compilation, check for recompilation triggers",
        "SECURITY REMINDER:\n- Never hardcode secrets - use environment variables\n- Validate and sanitize all user inputs\n- Use parameterized queries for database operations",
        "TESTING GUIDELINES:\n- Test behavior, not implementation\n- Include edge cases: empty inputs, null values, boundaries\n- For ML: test with fixed random seeds for reproducibility",
        "ML TRAINING CHECKLIST:\n- Set random seeds for reproducibility\n- Use gradient clipping (optax.clip_by_global_norm)\n- Monitor for NaN/Inf in gradients\n- Checkpoint frequently with Orbax",
        "REFACTORING GUIDELINES:\n- Ensure tests pass before and after\n- Make small, incremental changes\n- Avoid mixing refactoring with feature changes\n- Use git commits to checkpoint progress",
    ];
    assert forall|k: int| 0 <= k < keywords@.len() implies texts_of(
        #[trigger] keywords@[k]@,
    ) == advice_keywords()[k] by {
        assert(texts_of(keywords@[k]@) =~= advice_keywords()[k]);
    }
    assert(texts_of(texts@) =~= advice_texts());
    (keywords, texts)
}

/// The advice whose keywords the (lowercased) prompt mentions, among the
/// first `n` lists, in list order.
pub open spec fn advice_for(text: Seq<char>, n: nat) -> Seq<Seq<char>>
    decreases n,
{
    if n == 0 {
        Seq::empty()
    } else {
        let rest = advice_for(text, (n - 1) as nat);
        if mentions_any(text, advice_keywords()[n - 1]) {
            rest.push(advice_texts()[n - 1])
        } else {
            rest
        }
    }
}

/// Context injection on an already lowercased prompt.
pub open spec fn inject_context_lowered_spec(lowered: Seq<char>) -> Verdict {
    let parts = advice_for(lowered, advice_keywords().len());
    if parts.len() > 0 {
        context_only(join(parts, "\n\n"@))
    } else {
        neutral()
    }
}

/// Context injection for a prompt already passed through `str::to_lowercase`.
pub fn inject_context_lowered(lowered: &str) -> (r: HookResult)
    ensures
        r@ == inject_context_lowered_spec(lowered@),
{
    let (keywords, texts) = advice_tables();
    let mut joined = String::from_str("");
    let mut found: usize = 0;
    let mut k: usize = 0;
    proof {
        reveal_strlit("");
    }
    while k < keywords.len()
        invariant
            keywords@.len() == advice_keywords().len(),
            forall|j: int| 0 <= j < keywords@.len() ==> texts_of(#[trigger] keywords@[j]@) == advice_keywords()[j],
            texts_of(texts@) == advice_texts(),
            texts@.len() == advice_texts().len(),
            advice_texts().len() == advice_keywords().len(),
            k <= keywords@.len(),
            found <= k,
            found as nat == advice_for(lowered@, k as nat).len(),
            joined@ == join(advice_for(lowered@, k as nat), "\n\n"@),
        decreases keywords@.len() - k,
    {
        let hit = contains_any(lowered, &keywords[k]);
        assert(hit == mentions_any(lowered@, advice_keywords()[k as int])) by {
            assert(texts_of(keywords@[k as int]@) == advice_keywords()[k as int]);
            if hit {
                let j = choose|j: int| 0 <= j < keywords@[k as int]@.len() && contains_seq(lowered@, keywords@[k as int]@[j]@);
                assert(advice_keywords()[k as int][j] == keywords@[k as int]@[j]@);
            } else {
                assert forall|j: int| 0 <= j < advice_keywords()[k as int].len() implies !contains_seq(lowered@, advice_keywords()[k as int][j]) by {
                    assert(advice_keywords()[k as int][j] == keywords@[k as int]@[j]@);
                }
            }
        }
        if hit {
            let ghost prev = advice_for(lowered@, k as nat);
            let ghost t = advice_texts()[k as int];
            assert(texts[k as int]@ == t);
            assert(advice_for(lowered@, (k + 1) as nat) == prev.push(t));
            assert(prev.push(t).drop_last() =~= prev);
            if found > 0 {
                joined = joined.concat("\n\n");
            } else {
                assert(joined@ =~= Seq::<char>::empty());
            }
            joined = joined.concat(texts[k]);
            found = found + 1;
            assert(joined@ =~= join(advice_for(lowered@, (k + 1) as nat), "\n\n"@));
        }
        k += 1;
    }
    if found > 0 {
        return HookResult::with_context(joined);
    }
    HookResult::ok()
}

/// Context injection: advice for the topics that the prompt mentions.
pub open spec fn inject_context_spec(input: HookInput) -> Verdict {
    match input.prompt {
        Some(p) => inject_context_lowered_spec(lower_of(p@)),
        None => neutral(),
    }
}

pub fn inject_context(input: &HookInput) -> (r: HookResult)
    ensures
        r@ == inject_context_spec(*input),
{
    match &input.prompt {
        Some(p) => {
            let lowered = lowercase(p.as_str());
            inject_context_lowered(lowered.as_str())
        },
        None => HookResult::ok(),
    }
}

} // verus!

verus! {

/// Libraries for which up-to-date documentation can be looked up.
pub open spec fn known_libraries() -> Seq<Seq<char>> {
    seq![
        "jax"@, "flax"@, "optax"@, "orbax"@, "grain"@, "jaxtyping"@, "chex"@, "equinox"@,
        "pydantic"@, "fastapi"@, "pytest"@, "numpy"@, "pandas"@, "transformers"@, "torch"@,
        "pytorch"@, "tensorflow"@, "langchain"@, "openai"@, "anthropic"@, "httpx"@,
        "sqlalchemy"@, "redis"@, "celery"@, "aiohttp"@, "requests"@, "django"@, "flask"@,
    ]
}

fn known_library_texts() -> (r: Vec<&'static str>)
    ensures
        texts_of(r@) == known_libraries(),
{
    let r = vec![
        "jax", "flax", "optax", "orbax", "grain", "jaxtyping", "chex", "equinox",
        "pydantic", "fastapi", "pytest", "numpy", "pandas", "transformers", "torch",
        "pytorch", "tensorflow", "langchain", "openai", "anthropic", "httpx",
        "sqlalchemy", "redis", "celery", "aiohttp", "requests", "django", "flask",
    ];
    assert(texts_of(r@) =~= known_libraries());
    r
}

/// Phrases that mark a prompt as a documentation question.
pub open spec fn doc_phrases() -> Seq<Seq<char>> {
    seq![
        "how do i"@, "how to"@, "how can i"@, "documentation"@, "docs"@, "api"@,
        "examples"@, "tutorial"@, "guide"@, "getting started"@, "learn"@, "show me how"@,
    ]
}

fn doc_phrase_texts() -> (r: Vec<&'static str>)
    ensures
        texts_of(r@) == doc_phrases(),
{
    let r = vec![
        "how do i", "how to", "how can i", "documentation", "docs", "api",
        "examples", "tutorial", "guide", "getting started", "learn", "show me how",
    ];
    assert(texts_of(r@) =~= doc_phrases());
    r
}

/// The first library of `libs` named in `text`.
pub open spec fn first_mentioned(libs: Seq<Seq<char>>, text: Seq<char>) -> Option<Seq<char>>
    decreases libs.len(),
{
    if libs.len() == 0 {
        None
    } else if contains_seq(text, libs[0]) {
        Some(libs[0])
    } else {
        first_mentioned(libs.skip(1), text)
    }
}

/// The first library of `libs` whose members `code` reaches (`lib.`).
pub open spec fn first_used(libs: Seq<Seq<char>>, code: Seq<char>) -> Option<Seq<char>>
    decreases libs.len(),
{
    if libs.len() == 0 {
        None
    } else if contains_seq(code, libs[0]) && contains_seq(code, libs[0] + "."@) {
        Some(libs[0])
    } else {
        first_used(libs.skip(1), code)
    }
}

pub open spec fn doc_lookup_msg(lib: Seq<char>) -> Seq<char> {
    "Use Context7 MCP for up-to-date "@ + lib + " docs: resolve-library-id('"@ + lib
        + "') then get-library-docs()"@
}

pub open spec fn doc_hint_msg(lib: Seq<char>) -> Seq<char> {
    "Consider using Context7 MCP for current "@ + lib + " documentation if needed."@
}

pub open spec fn code_note_msg(lib: Seq<char>) -> Seq<char> {
    "NOTE: Code uses "@ + lib
        + " APIs. If unsure about function signatures, verify with Context7 MCP."@
}

/// Doc-lookup advice on an already lowercased prompt.
pub open spec fn prompt_advice_spec(lowered: Seq<char>) -> Verdict {
    if contains_seq(lowered, "context7"@) {
        neutral()
    } else {
        match first_mentioned(known_libraries(), lowered) {
            None => neutral(),
            Some(lib) => if mentions_any(lowered, doc_phrases()) {
                context_only(doc_lookup_msg(lib))
            } else if contains_seq(lowered, "?"@) {
                context_only(doc_hint_msg(lib))
            } else {
                neutral()
            },
        }
    }
}

/// Doc-lookup advice on already lowercased code.
pub open spec fn code_advice_spec(lowered: Seq<char>) -> Verdict {
    match first_used(known_libraries(), lowered) {
        Some(lib) => single(Severity::Warn, code_note_msg(lib)),
        None => neutral(),
    }
}

fn first_mentioned_exec(libs: &Vec<&'static str>, text: &str) -> (r: Option<&'static str>)
    ensures
        match r {
            Some(l) => first_mentioned(texts_of(libs@), text@) == Some(l@),
            None => first_mentioned(texts_of(libs@), text@) is None,
        },
{
    let ghost all = texts_of(libs@);
    assert(all.skip(0) =~= all);
    let mut i: usize = 0;
    while i < libs.len()
        invariant
            i <= libs@.len(),
            all == texts_of(libs@),
            first_mentioned(all, text@) == first_mentioned(all.skip(i as int), text@),
        decreases libs@.len() - i,
    {
        assert(all.skip(i as int)[0] == libs@[i as int]@);
        assert(all.skip(i as int).skip(1) =~= all.skip(i + 1));
        if contains(text, libs[i]) {
            return Some(libs[i]);
        }
        i += 1;
    }
    assert(all.skip(i as int).len() == 0);
    None
}

fn first_used_exec(libs: &Vec<&'static str>, code: &str) -> (r: Option<&'static str>)
    ensures
        match r {
            Some(l) => first_used(texts_of(libs@), code@) == Some(l@),
            None => first_used(texts_of(libs@), code@) is None,
        },
{
    let ghost all = texts_of(libs@);
    assert(all.skip(0) =~= all);
    let mut i: usize = 0;
    while i < libs.len()
        invariant
            i <= libs@.len(),
            all == texts_of(libs@),
            first_used(all, code@) == first_used(all.skip(i as int), code@),
        decreases libs@.len() - i,
    {
        assert(all.skip(i as int)[0] == libs@[i as int]@);
        assert(all.skip(i as int).skip(1) =~= all.skip(i + 1));
        let dotted = String::from_str(libs[i]).concat(".");
        if contains(code, libs[i]) && contains(code, dotted.as_str()) {
            return Some(libs[i]);
        }
        i += 1;
    }
    assert(all.skip(i as int).len() == 0);
    None
}

/// Doc-lookup advice for a prompt already passed through `str::to_lowercase`.
pub fn context7_prompt_advice(lowered: &str) -> (r: HookResult)
    ensures
        r@ == prompt_advice_spec(lowered@),
{
    if contains(lowered, "context7") {
        return HookResult::ok();
    }
    let libs = known_library_texts();
    let lib = match first_mentioned_exec(&libs, lowered) {
        Some(l) => l,
        None => return HookResult::ok(),
    };
    let phrases = doc_phrase_texts();
    let is_doc_question = contains_any(lowered, &phrases);
    assert(is_doc_question == mentions_any(lowered@, doc_phrases())) by {
        if is_doc_question {
            let j = choose|j: int| 0 <= j < phrases@.len() && contains_seq(lowered@, phrases@[j]@);
            assert(doc_phrases()[j] == phrases@[j]@);
        } else {
            assert forall|j: int| 0 <= j < doc_phrases().len() implies !contains_seq(lowered@, doc_phrases()[j]) by {
                assert(doc_phrases()[j] == phrases@[j]@);
            }
        }
    }
    if is_doc_question {
        let msg = String::from_str("Use Context7 MCP for up-to-date ").concat(lib).concat(
            " docs: resolve-library-id('",
        ).concat(lib).concat("') then get-library-docs()");
        return HookResult::with_context(msg);
    }
    if contains(lowered, "?") {
        let msg = String::from_str("Consider using Context7 MCP for current ").concat(lib).concat(
            " documentation if needed.",
        );
        return HookResult::with_context(msg);
    }
    HookResult::ok()
}

/// Doc-lookup advice for code already passed through `str::to_lowercase`.
pub fn context7_code_advice(lowered: &str) -> (r: HookResult)
    ensures
        r@ == code_advice_spec(lowered@),
{
    let libs = known_library_texts();
    match first_used_exec(&libs, lowered) {
        Some(lib) => {
            let msg = String::from_str("NOTE: Code uses ").concat(lib).concat(
                " APIs. If unsure about function signatures, verify with Context7 MCP.",
            );
            HookResult::warn(msg)
        },
        None => HookResult::ok(),
    }
}

/// The event name, or empty when absent.
pub open spec fn event_name(input: HookInput) -> Seq<char> {
    match input.hook_event_name {
        Some(e) => e@,
        None => Seq::empty(),
    }
}

/// Doc-lookup advisory: on a submitted prompt, suggest looking up the docs
/// of a library it names; before a Python edit, note the libraries it uses.
pub open spec fn context7_spec(input: HookInput) -> Verdict {
    if event_name(input) == "UserPromptSubmit"@ {
        match input.prompt {
            Some(p) => prompt_advice_spec(lower_of(p@)),
            None => neutral(),
        }
    } else if event_name(input) == "PreToolUse"@ && edits_file(input) && input.path_v() is Some
        && ends_with_seq(input.path_v()->0, ".py"@) {
        match input.content_v() {
            Some(c) => code_advice_spec(lower_of(c)),
            None => match input.new_string_v() {
                Some(n) => code_advice_spec(lower_of(n)),
                None => code_advice_spec(Seq::empty()),
            },
        }
    } else {
        neutral()
    }
}

pub fn context7_docs(input: &HookInput) -> (r: HookResult)
    ensures
        r@ == context7_spec(*input),
{
    let event: &str = match &input.hook_event_name {
        Some(e) => e.as_str(),
        None => "",
    };
    proof {
        reveal_strlit("");
    }
    assert(event@ == event_name(*input));
    if same_text(event, "UserPromptSubmit") {
        return match &input.prompt {
            Some(p) => {
                let lowered = lowercase(p.as_str());
                context7_prompt_advice(lowered.as_str())
            },
            None => HookResult::ok(),
        };
    }
    if !same_text(event, "PreToolUse") {
        return HookResult::ok();
    }
    if !input.tool_named("Edit") && !input.tool_named("Write") {
        return HookResult::ok();
    }
    match input.file_path() {
        Some(p) => {
            if !ends_with(p, ".py") {
                return HookResult::ok();
            }
        },
        None => return HookResult::ok(),
    }
    match input.content() {
        Some(c) => {
            let lowered = lowercase(c);
            context7_code_advice(lowered.as_str())
        },
        None => match input.new_string() {
            Some(n) => {
                let lowered = lowercase(n);
                context7_code_advice(lowered.as_str())
            },
            None => {
                proof {
                    reveal_strlit("");
                }
                assert(""@ =~= Seq::<char>::empty());
                context7_code_advice("")
            },
        },
    }
}

/// UserPromptSubmit phase: context injection, then doc-lookup advice; both
/// always run.
pub open spec fn user_prompt_spec(input: HookInput) -> Verdict {
    combine(combine(neutral(), inject_context_spec(input)), context7_spec(input))
}

pub fn user_prompt_combined(input: &HookInput) -> (r: HookResult)
    ensures
        r@ == user_prompt_spec(*input),
{
    let mut result = HookResult::ok();
    result = result.merge(inject_context(input));
    result = result.merge(context7_docs(input));
    result
}

} // verus!
