use vstd::prelude::*;
use crate::bash_rules::{dangerous_command, dangerous_command_spec, validate_commit, validate_commit_spec};
use crate::decision::{combine, lemma_combine_identity, neutral, HookResult, Severity, Verdict};
use crate::edit_rules::{
    large_file_check, large_file_spec, protect_files, protect_files_spec, test_file_guard,
    test_file_spec, verify_api_calls, verify_api_spec,
};
use crate::event::{opt_view, HookInput};
use crate::registry::Registry;
use crate::repo_rules::{branch_protection, branch_protection_spec, git_status_check, git_status_spec};

verus! {

/// PreBash phase: the dangerous-command guard, then, unless it blocked, the
/// commit/branch-convention guard.
pub open spec fn pre_bash_spec(input: HookInput) -> Verdict {
    let first = combine(neutral(), dangerous_command_spec(input));
    if first.severity == Severity::Block {
        first
    } else {
        combine(first, validate_commit_spec(input))
    }
}

pub fn pre_bash_combined(input: &HookInput, reg: &Registry) -> (r: HookResult)
    requires
        reg.wf(),
    ensures
        r@ == pre_bash_spec(*input),
{
    let mut result = HookResult::ok();
    result = result.merge(dangerous_command(input, reg));
    if result.is_block() {
        return result;
    }
    result = result.merge(validate_commit(input, reg));
    result
}

/// Once the first PreBash guard blocks, the verdict is that guard's decision
/// alone: no later guard contributes to it.
pub proof fn lemma_pre_bash_short_circuit(input: HookInput)
    requires
        dangerous_command_spec(input).severity == Severity::Block,
    ensures
        pre_bash_spec(input) == dangerous_command_spec(input),
{
    lemma_combine_identity(dangerous_command_spec(input));
}

/// What the version-control queries of the pre-edit phase reported; `None`
/// where a query could not run.
#[derive(Clone, Debug, PartialEq, Eq)]
pub struct RepoProbe {
    /// Porcelain status of the target file.
    pub file_status: Option<String>,
    /// Porcelain status of the whole working tree.
    pub tree_status: Option<String>,
    /// Output of the current-branch query, when it succeeded.
    pub current_branch: Option<String>,
}

/// The part of the PreEdit phase that needs no outside query: the
/// protected-file guard, then, unless it blocked, the large-content guard.
pub open spec fn pre_edit_local_spec(input: HookInput) -> Verdict {
    let first = combine(neutral(), protect_files_spec(input));
    if first.severity == Severity::Block {
        first
    } else {
        combine(first, large_file_spec(input))
    }
}

/// PreEdit phase: the local guards; unless they blocked, the working-tree,
/// branch, test-file and API-usage guards in that order.
pub open spec fn pre_edit_spec(input: HookInput, probe: RepoProbe) -> Verdict {
    let local = pre_edit_local_spec(input);
    if local.severity == Severity::Block {
        local
    } else {
        let a = combine(
            local,
            git_status_spec(input, opt_view(probe.file_status), opt_view(probe.tree_status)),
        );
        let b = combine(a, branch_protection_spec(input, opt_view(probe.current_branch)));
        let c = combine(b, test_file_spec(input));
        combine(c, verify_api_spec(input))
    }
}

/// Runs the guards of the PreEdit phase that need no outside query. When
/// this blocks, the phase is over and no query need be made.
pub fn pre_edit_local(input: &HookInput, reg: &Registry) -> (r: HookResult)
    requires
        reg.wf(),
    ensures
        r@ == pre_edit_local_spec(*input),
{
    let mut result = HookResult::ok();
    result = result.merge(protect_files(input, reg));
    if result.is_block() {
        return result;
    }
    result = result.merge(large_file_check(input));
    result
}

fn opt_str(o: &Option<String>) -> (r: Option<&str>)
    ensures
        crate::event::opt_str_view(r) == opt_view(*o),
{
    match o {
        Some(s) => Some(s.as_str()),
        None => None,
    }
}

/// Runs the whole PreEdit phase, with what the queries reported.
pub fn pre_edit_combined(input: &HookInput, reg: &Registry, probe: &RepoProbe) -> (r: HookResult)
    requires
        reg.wf(),
    ensures
        r@ == pre_edit_spec(*input, *probe),
{
    let mut result = pre_edit_local(input, reg);
    if result.is_block() {
        return result;
    }
    result = result.merge(
        git_status_check(input, opt_str(&probe.file_status), opt_str(&probe.tree_status)),
    );
    result = result.merge(branch_protection(input, opt_str(&probe.current_branch)));
    result = result.merge(test_file_guard(input));
    result = result.merge(verify_api_calls(input));
    result
}

/// Once the local PreEdit guards block, the verdict is theirs whatever the
/// queries would report: the later guards are never consulted.
pub proof fn lemma_pre_edit_short_circuit(input: HookInput, p: RepoProbe, q: RepoProbe)
    requires
        pre_edit_local_spec(input).severity == Severity::Block,
    ensures
        pre_edit_spec(input, p) == pre_edit_local_spec(input),
        pre_edit_spec(input, p) == pre_edit_spec(input, q),
{
}

/// The decisions of a sequence of guards folded left to right.
pub open spec fn fold_all(ds: Seq<Verdict>) -> Verdict
    decreases ds.len(),
{
    if ds.len() == 0 {
        neutral()
    } else {
        combine(fold_all(ds.drop_last()), ds.last())
    }
}

pub open spec fn verdicts(v: Seq<HookResult>) -> Seq<Verdict> {
    v.map_values(|h: HookResult| h@)
}

/// PostEdit phase: every guard has run, whatever the others decided; their
/// decisions, in pipeline order, are combined into one.
pub fn post_edit_combined(outcomes: Vec<HookResult>) -> (r: HookResult)
    ensures
        r@ == fold_all(verdicts(outcomes@)),
{
    let ghost all = verdicts(outcomes@);
    let total = outcomes.len();
    let mut rest = outcomes;
    let mut result = HookResult::ok();
    let mut i: usize = 0;
    assert(all.take(0) =~= Seq::<Verdict>::empty());
    while rest.len() > 0
        invariant
            i + rest@.len() == all.len(),
            all.len() == total,
            verdicts(rest@) == all.skip(i as int),
            result@ == fold_all(all.take(i as int)),
        decreases rest@.len(),
    {
        let ghost before = rest@;
        let next = rest.remove(0);
        assert(next == before[0]);
        assert(verdicts(before)[0] == next@);
        assert(all.skip(i as int)[0] == all[i as int]);
        assert(next@ == all[i as int]);
        assert(rest@ =~= before.subrange(1, before.len() as int));
        assert(all.take(i + 1).drop_last() =~= all.take(i as int));
        result = result.merge(next);
        assert forall|k: int| 0 <= k < rest@.len() implies #[trigger] verdicts(rest@)[k] == all.skip(
            i + 1,
        )[k] by {
            assert(verdicts(before)[k + 1] == all.skip(i as int)[k + 1]);
        }
        assert(verdicts(rest@) =~= all.skip(i + 1));
        i += 1;
    }
    assert(all.take(i as int) =~= all);
    result
}

} // verus!
