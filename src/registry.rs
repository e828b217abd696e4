use vstd::prelude::*;
use crate::recognizer::{regex_accepts, Recognizer};

verus! {

/// Shapes of credential tokens.
pub open spec fn secret_sources() -> Seq<Seq<char>> {
    seq![
        r"AKIA[0-9A-Z]{16}"@,
        r"sk-[a-zA-Z0-9]{48}"@,
        r"sk-proj-[a-zA-Z0-9\-]{80,}"@,
        r"ghp_[a-zA-Z0-9]{36}"@,
        r"gho_[a-zA-Z0-9]{36}"@,
        r"github_pat_[a-zA-Z0-9]{22}_[a-zA-Z0-9]{59}"@,
        r"xox[baprs]-[a-zA-Z0-9\-]+"@,
        r"sk_live_[a-zA-Z0-9]+"@,
        r"rk_live_[a-zA-Z0-9]+"@,
    ]
}

/// Shapes of destructive shell commands.
pub open spec fn dangerous_sources() -> Seq<Seq<char>> {
    seq![
        r"rm -rf /($|[^a-zA-Z])"@,
        r"rm -rf /\*"@,
        r"rm -rf ~"@,
        r"rm -rf ~/\*"@,
        r"rm -rf \$HOME"@,
        r"rm -rf \.$"@,
        r"rm -rf \.\."@,
        r"rm -rf \./\*"@,
        r"mkfs"@,
        r"dd if=.* of=/dev/"@,
        r"> /dev/sd"@,
        r"chmod -R 777 /"@,
        r"chown -R .* /"@,
        r":\(\)\{ :\|:& \};:"@,
        r"fork while fork"@,
        r"history -c"@,
        r"shred.*history"@,
        r"shred.*bash_history"@,
        r"git push.*--force.*main"@,
        r"git push.*--force.*master"@,
        r"git push.*-f.*main"@,
        r"git push.*-f.*master"@,
        r"git reset --hard.*origin/main"@,
        r"git reset --hard.*origin/master"@,
    ]
}

/// A recursive delete whose target goes through a shell variable.
pub open spec fn rm_var_source() -> Seq<char> {
    r"rm\s+-rf?\s+.*\$"@
}

/// The quoted message of a `-m` option; group 1 is the message.
pub open spec fn commit_msg_source() -> Seq<char> {
    r#"-m\s*["']([^"']+)["']"#@
}

/// Conventional-commit subject grammar: `type(scope): description`.
pub open spec fn conventional_source() -> Seq<char> {
    r"^(feat|fix|docs|style|refactor|perf|test|chore|ci|build|revert)(\([a-zA-Z0-9_-]+\))?: .+"@
}

/// A branch-creating git invocation; group 2 is the new branch name.
pub open spec fn branch_create_source() -> Seq<char> {
    r"(checkout\s+-b|switch\s+-c)\s+(\S+)"@
}

/// Names of long-lived branches.
pub open spec fn branch_protected_source() -> Seq<char> {
    r"^(main|master|develop|release/.+|hotfix/.+)$"@
}

/// Feature-branch grammar: `type/kebab-case-description`.
pub open spec fn branch_naming_source() -> Seq<char> {
    r"^(feat|fix|refactor|docs|test|chore|ci|build|perf|revert)/[a-z0-9-]+$"@
}

/// An index-notation contraction call; group 1 is the subscript string.
pub open spec fn einsum_source() -> Seq<char> {
    r#"jnp\.einsum\s*\(\s*["']([^"']+)["']"#@
}

/// A batched-map call with a single bare argument.
pub open spec fn vmap_source() -> Seq<char> {
    r"jax\.(vmap|pmap)\s*\(\s*\w+\s*\)"@
}

pub open spec fn sources_of(v: Seq<Recognizer>) -> Seq<Seq<char>> {
    v.map_values(|r: Recognizer| r@)
}

pub open spec fn texts_of(v: Seq<&str>) -> Seq<Seq<char>> {
    v.map_values(|s: &str| s@)
}

/// The process-wide set of compiled recognizers, grouped by purpose.
pub struct Registry {
    pub secrets: Vec<Recognizer>,
    pub dangerous: Vec<Recognizer>,
    pub rm_var: Recognizer,
    pub commit_msg: Recognizer,
    pub conventional: Recognizer,
    pub branch_create: Recognizer,
    pub branch_protected: Recognizer,
    pub branch_naming: Recognizer,
    pub einsum: Recognizer,
    pub vmap: Recognizer,
}

fn secret_texts() -> (r: Vec<&'static str>)
    ensures
        texts_of(r@) == secret_sources(),
{
    let r = vec![
        r"AKIA[0-9A-Z]{16}",
        r"sk-[a-zA-Z0-9]{48}",
        r"sk-proj-[a-zA-Z0-9\-]{80,}",
        r"ghp_[a-zA-Z0-9]{36}",
        r"gho_[a-zA-Z0-9]{36}",
        r"github_pat_[a-zA-Z0-9]{22}_[a-zA-Z0-9]{59}",
        r"xox[baprs]-[a-zA-Z0-9\-]+",
        r"sk_live_[a-zA-Z0-9]+",
        r"rk_live_[a-zA-Z0-9]+",
    ];
    assert(texts_of(r@) =~= secret_sources());
    r
}

fn dangerous_texts() -> (r: Vec<&'static str>)
    ensures
        texts_of(r@) == dangerous_sources(),
{
    let r = vec![
        r"rm -rf /($|[^a-zA-Z])",
        r"rm -rf /\*",
        r"rm -rf ~",
        r"rm -rf ~/\*",
        r"rm -rf \$HOME",
        r"rm -rf \.$",
        r"rm -rf \.\.",
        r"rm -rf \./\*",
        r"mkfs",
        r"dd if=.* of=/dev/",
        r"> /dev/sd",
        r"chmod -R 777 /",
        r"chown -R .* /",
        r":\(\)\{ :\|:& \};:",
        r"fork while fork",
        r"history -c",
        r"shred.*history",
        r"shred.*bash_history",
        r"git push.*--force.*main",
        r"git push.*--force.*master",
        r"git push.*-f.*main",
        r"git push.*-f.*master",
        r"git reset --hard.*origin/main",
        r"git reset --hard.*origin/master",
    ];
    assert(texts_of(r@) =~= dangerous_sources());
    r
}

/// Every source of `sources` is one that the regex engine compiles.
pub open spec fn all_accepted(sources: Seq<Seq<char>>) -> bool {
    forall|k: int| 0 <= k < sources.len() ==> regex_accepts(#[trigger] sources[k])
}

/// Every pattern of the registry is one that the regex engine compiles.
pub open spec fn registry_accepted() -> bool {
    &&& all_accepted(secret_sources())
    &&& all_accepted(dangerous_sources())
    &&& regex_accepts(rm_var_source())
    &&& regex_accepts(commit_msg_source())
    &&& regex_accepts(conventional_source())
    &&& regex_accepts(branch_create_source())
    &&& regex_accepts(branch_protected_source())
    &&& regex_accepts(branch_naming_source())
    &&& regex_accepts(einsum_source())
    &&& regex_accepts(vmap_source())
}

/// Compiles every source in order; `None` exactly when one is rejected.
fn compile_all(texts: &Vec<&str>) -> (r: Option<Vec<Recognizer>>)
    ensures
        r matches Some(v) ==> sources_of(v@) == texts_of(texts@),
        r is Some <==> all_accepted(texts_of(texts@)),
{
    let mut out: Vec<Recognizer> = Vec::new();
    let mut i: usize = 0;
    while i < texts.len()
        invariant
            i <= texts@.len(),
            sources_of(out@) == texts_of(texts@.take(i as int)),
            forall|k: int| 0 <= k < i ==> regex_accepts(#[trigger] texts_of(texts@)[k]),
        decreases texts@.len() - i,
    {
        match Recognizer::compile(texts[i]) {
            Some(rec) => {
                let ghost before = out@;
                let ghost rv = rec@;
                out.push(rec);
                assert(sources_of(out@) =~= sources_of(before).push(rv));
                assert(texts@.take(i + 1) =~= texts@.take(i as int).push(texts@[i as int]));
                assert(sources_of(out@) =~= texts_of(texts@.take(i + 1)));
            },
            None => {
                assert(!regex_accepts(texts_of(texts@)[i as int]));
                return None;
            },
        }
        i += 1;
    }
    assert(texts@.take(i as int) =~= texts@);
    Some(out)
}

impl Registry {
    /// Every recognizer holds the pattern that its purpose names.
    pub open spec fn wf(&self) -> bool {
        &&& sources_of(self.secrets@) == secret_sources()
        &&& sources_of(self.dangerous@) == dangerous_sources()
        &&& self.rm_var@ == rm_var_source()
        &&& self.commit_msg@ == commit_msg_source()
        &&& self.conventional@ == conventional_source()
        &&& self.branch_create@ == branch_create_source()
        &&& self.branch_protected@ == branch_protected_source()
        &&& self.branch_naming@ == branch_naming_source()
        &&& self.einsum@ == einsum_source()
        &&& self.vmap@ == vmap_source()
    }

    /// Builds the registry; `None` exactly when the regex engine rejects one
    /// of its patterns.
    pub fn new() -> (r: Option<Registry>)
        ensures
            r matches Some(reg) ==> reg.wf(),
            r is Some <==> registry_accepted(),
    {
        let secrets = compile_all(&secret_texts())?;
        let dangerous = compile_all(&dangerous_texts())?;
        let rm_var = Recognizer::compile(r"rm\s+-rf?\s+.*\$")?;
        let commit_msg = Recognizer::compile(r#"-m\s*["']([^"']+)["']"#)?;
        let conventional = Recognizer::compile(
            r"^(feat|fix|docs|style|refactor|perf|test|chore|ci|build|revert)(\([a-zA-Z0-9_-]+\))?: .+",
        )?;
        let branch_create = Recognizer::compile(r"(checkout\s+-b|switch\s+-c)\s+(\S+)")?;
        let branch_protected = Recognizer::compile(r"^(main|master|develop|release/.+|hotfix/.+)$")?;
        let branch_naming = Recognizer::compile(
            r"^(feat|fix|refactor|docs|test|chore|ci|build|perf|revert)/[a-z0-9-]+$",
        )?;
        let einsum = Recognizer::compile(r#"jnp\.einsum\s*\(\s*["']([^"']+)["']"#)?;
        let vmap = Recognizer::compile(r"jax\.(vmap|pmap)\s*\(\s*\w+\s*\)")?;
        Some(
            Registry {
                secrets,
                dangerous,
                rm_var,
                commit_msg,
                conventional,
                branch_create,
                branch_protected,
                branch_naming,
                einsum,
                vmap,
            },
        )
    }
}

} // verus!
