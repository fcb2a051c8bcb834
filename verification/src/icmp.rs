//! The failover state machine that follows the results of ICMP probes.

use vstd::prelude::*;

use crate::config::IcmpConfig;

verus! {

/// What an [`IcmpState`] holds: the settings it was made with, whether the
/// target is considered failed, and the current runs of failed and of
/// successful probes.
pub struct FailoverState {
    pub enabled: bool,
    pub retries: u32,
    pub restore: u32,
    pub failed: bool,
    pub failures: u32,
    pub successes: u32,
}

/// Tracks consecutive ICMP probe results and decides when the target enters
/// and leaves the failure state.
#[derive(Debug, PartialEq, Eq)]
pub struct IcmpState {
    enabled: bool,
    retries: u32,
    restore: u32,
    failed: bool,
    consecutive_failures: u32,
    consecutive_successes: u32,
}

/// A count that stops growing at `u32::MAX`.
pub open spec fn saturating_inc(n: u32) -> u32 {
    if n == u32::MAX {
        n
    } else {
        (n + 1) as u32
    }
}

/// While the target is considered failed there is no run of failures, and
/// while it is not there is no run of successes.
pub open spec fn is_consistent(s: FailoverState) -> bool {
    &&& s.failed ==> s.failures == 0
    &&& !s.failed ==> s.successes == 0
}

/// One probe result applied to the state: the next state, and `Some(failed)`
/// when the failure state was entered (`true`) or left (`false`).
pub open spec fn probe_step(s: FailoverState, success: bool) -> (FailoverState, Option<bool>) {
    if !s.enabled {
        (s, None)
    } else if s.failed {
        if success {
            let successes = saturating_inc(s.successes);
            if successes >= s.restore {
                (FailoverState { failed: false, failures: 0, successes: 0, ..s }, Some(false))
            } else {
                (FailoverState { failures: 0, successes, ..s }, None)
            }
        } else {
            (FailoverState { successes: 0, ..s }, None)
        }
    } else if success {
        (FailoverState { failures: 0, ..s }, None)
    } else {
        let failures = saturating_inc(s.failures);
        if failures >= s.retries {
            (FailoverState { failed: true, failures: 0, successes: 0, ..s }, Some(true))
        } else {
            (FailoverState { failures, successes: 0, ..s }, None)
        }
    }
}

/// The state after a series of probe results, first result first.
pub open spec fn run_probes(s: FailoverState, results: Seq<bool>) -> FailoverState
    decreases results.len(),
{
    if results.len() == 0 {
        s
    } else {
        run_probes(probe_step(s, results[0]).0, results.drop_first())
    }
}

/// `n` results that are all equal to `result`.
pub open spec fn repeated(result: bool, n: nat) -> Seq<bool> {
    Seq::new(n, |_i: int| result)
}

/// The least number of probes that can change the state when the threshold
/// is `threshold`: the threshold itself, and at least one.
pub open spec fn effective_threshold(threshold: u32) -> nat {
    if threshold == 0 {
        1
    } else {
        threshold as nat
    }
}

impl Clone for IcmpState {
    /// A copy of the state.
    fn clone(&self) -> (r: Self)
        ensures
            r@ == self@,
    {
        proof {
            use_type_invariant(self);
        }
        IcmpState {
            enabled: self.enabled,
            retries: self.retries,
            restore: self.restore,
            failed: self.failed,
            consecutive_failures: self.consecutive_failures,
            consecutive_successes: self.consecutive_successes,
        }
    }
}

impl View for IcmpState {
    type V = FailoverState;

    closed spec fn view(&self) -> FailoverState {
        FailoverState {
            enabled: self.enabled,
            retries: self.retries,
            restore: self.restore,
            failed: self.failed,
            failures: self.consecutive_failures,
            successes: self.consecutive_successes,
        }
    }
}

impl IcmpState {
    #[verifier::type_invariant]
    spec fn consistent(self) -> bool {
        is_consistent(self@)
    }

    /// The state for a configuration: not failed, with no runs of results.
    pub fn new(config: &IcmpConfig) -> (s: Self)
        ensures
            s@ == (FailoverState {
                enabled: config.enabled,
                retries: config.retries,
                restore: config.restore,
                failed: false,
                failures: 0,
                successes: 0,
            }),
    {
        IcmpState {
            enabled: config.enabled,
            retries: config.retries,
            restore: config.restore,
            failed: false,
            consecutive_failures: 0,
            consecutive_successes: 0,
        }
    }

    /// Whether the target is considered failed.
    pub fn is_failed(&self) -> (r: bool)
        ensures
            r == self@.failed,
            is_consistent(self@),
    {
        proof {
            use_type_invariant(self);
        }
        self.failed
    }

    /// Applies one probe result; returns `Some(true)` when the target enters
    /// the failure state, `Some(false)` when it leaves it, and `None`
    /// otherwise (always `None` when probing is disabled).
    pub fn observe(&mut self, success: bool) -> (r: Option<bool>)
        ensures
            is_consistent(old(self)@),
            (final(self)@, r) == probe_step(old(self)@, success),
    {
        proof {
            use_type_invariant(&*self);
        }
        if !self.enabled {
            return None;
        }
        if self.failed {
            if success {
                let successes = self.consecutive_successes.saturating_add(1);
                if successes >= self.restore {
                    *self = IcmpState {
                        failed: false,
                        consecutive_failures: 0,
                        consecutive_successes: 0,
                        ..*self
                    };
                    return Some(false);
                }
                *self = IcmpState {
                    consecutive_failures: 0,
                    consecutive_successes: successes,
                    ..*self
                };
            } else {
                *self = IcmpState { consecutive_successes: 0, ..*self };
            }
        } else if success {
            *self = IcmpState { consecutive_failures: 0, ..*self };
        } else {
            let failures = self.consecutive_failures.saturating_add(1);
            if failures >= self.retries {
                *self = IcmpState {
                    failed: true,
                    consecutive_failures: 0,
                    consecutive_successes: 0,
                    ..*self
                };
                return Some(true);
            }
            *self = IcmpState {
                consecutive_failures: failures,
                consecutive_successes: 0,
                ..*self
            };
        }
        None
    }
}

} // verus!

verus! {

/// With probing disabled, a result changes nothing and is never reported.
pub proof fn lemma_disabled_ignores_results(s: FailoverState, success: bool)
    requires
        !s.enabled,
    ensures
        probe_step(s, success) == (s, None::<bool>),
{
}

/// A probe result reports a change exactly when the failure state flips, and
/// the report is the new failure state; every step keeps the state consistent
/// and keeps the settings.
pub proof fn lemma_step_reports_flips(s: FailoverState, success: bool)
    requires
        is_consistent(s),
    ensures
        ({
            let (t, r) = probe_step(s, success);
            &&& is_consistent(t)
            &&& r == (if t.failed != s.failed {
                Some(t.failed)
            } else {
                None
            })
            &&& t.enabled == s.enabled && t.retries == s.retries && t.restore == s.restore
        }),
{
}

proof fn lemma_run_unfold(s: FailoverState, result: bool, n: nat)
    ensures
        run_probes(s, repeated(result, n + 1)) == run_probes(
            probe_step(s, result).0,
            repeated(result, n),
        ),
{
    assert(repeated(result, n + 1).drop_first() =~= repeated(result, n));
}

/// Once failed, further failures keep the target failed.
proof fn lemma_failures_keep_failed(s: FailoverState, n: nat)
    requires
        s.enabled,
        s.failed,
    ensures
        run_probes(s, repeated(false, n)).failed,
    decreases n,
{
    if n > 0 {
        lemma_run_unfold(s, false, (n - 1) as nat);
        lemma_failures_keep_failed(probe_step(s, false).0, (n - 1) as nat);
    }
}

/// Once recovered, further successes keep the target healthy.
proof fn lemma_successes_keep_healthy(s: FailoverState, n: nat)
    requires
        s.enabled,
        !s.failed,
    ensures
        !run_probes(s, repeated(true, n)).failed,
    decreases n,
{
    if n > 0 {
        lemma_run_unfold(s, true, (n - 1) as nat);
        lemma_successes_keep_healthy(probe_step(s, true).0, (n - 1) as nat);
    }
}

proof fn lemma_failure_run(s: FailoverState, n: nat)
    requires
        s.enabled,
        !s.failed,
        s.failures < effective_threshold(s.retries),
    ensures
        run_probes(s, repeated(false, n)).failed <==> s.failures + n >= effective_threshold(
            s.retries,
        ),
    decreases n,
{
    if n > 0 {
        lemma_run_unfold(s, false, (n - 1) as nat);
        let t = probe_step(s, false).0;
        if t.failed {
            lemma_failures_keep_failed(t, (n - 1) as nat);
        } else {
            lemma_failure_run(t, (n - 1) as nat);
        }
    }
}

proof fn lemma_success_run(s: FailoverState, n: nat)
    requires
        s.enabled,
        s.failed,
        s.successes < effective_threshold(s.restore),
    ensures
        !run_probes(s, repeated(true, n)).failed <==> s.successes + n >= effective_threshold(
            s.restore,
        ),
    decreases n,
{
    if n > 0 {
        lemma_run_unfold(s, true, (n - 1) as nat);
        let t = probe_step(s, true).0;
        if !t.failed {
            lemma_successes_keep_healthy(t, (n - 1) as nat);
        } else {
            lemma_success_run(t, (n - 1) as nat);
        }
    }
}

/// From a healthy state with no failed probes pending, the target is failed
/// after `n` consecutive failed probes exactly when `n` reaches the retry
/// threshold (at least one probe).
pub proof fn lemma_failure_threshold(s: FailoverState, n: nat)
    requires
        s.enabled,
        !s.failed,
        s.failures == 0,
    ensures
        run_probes(s, repeated(false, n)).failed <==> n >= effective_threshold(s.retries),
{
    lemma_failure_run(s, n);
}

/// From a failed state with no successful probes pending, the target has
/// recovered after `n` consecutive successful probes exactly when `n` reaches
/// the restore threshold (at least one probe).
pub proof fn lemma_recovery_threshold(s: FailoverState, n: nat)
    requires
        s.enabled,
        s.failed,
        s.successes == 0,
    ensures
        !run_probes(s, repeated(true, n)).failed <==> n >= effective_threshold(s.restore),
{
    lemma_success_run(s, n);
}

/// A successful probe breaks a run of failures: whatever failures came
/// before, the target then needs the full retry threshold of new failures.
pub proof fn lemma_success_resets_failures(s: FailoverState, n: nat)
    requires
        s.enabled,
        !s.failed,
    ensures
        run_probes(s, seq![true] + repeated(false, n)).failed <==> n >= effective_threshold(
            s.retries,
        ),
{
    let t = probe_step(s, true).0;
    assert((seq![true] + repeated(false, n)).drop_first() =~= repeated(false, n));
    lemma_failure_threshold(t, n);
}

/// A failed probe breaks a run of successes: whatever successes came before,
/// the failed target then needs the full restore threshold of new successes.
pub proof fn lemma_failure_resets_successes(s: FailoverState, n: nat)
    requires
        s.enabled,
        s.failed,
    ensures
        !run_probes(s, seq![false] + repeated(true, n)).failed <==> n >= effective_threshold(
            s.restore,
        ),
{
    let t = probe_step(s, false).0;
    assert((seq![false] + repeated(true, n)).drop_first() =~= repeated(true, n));
    lemma_recovery_threshold(t, n);
}

} // verus!

verus! {

/// What each call of `observe` returns for a series of probe results, first
/// result first.
pub open spec fn run_reports(s: FailoverState, results: Seq<bool>) -> Seq<Option<bool>>
    decreases results.len(),
{
    if results.len() == 0 {
        Seq::<Option<bool>>::empty()
    } else {
        let (next, report) = probe_step(s, results[0]);
        seq![report] + run_reports(next, results.drop_first())
    }
}

/// `n` calls that report nothing, then one that reports `report`.
pub open spec fn quiet_then(n: nat, report: bool) -> Seq<Option<bool>> {
    Seq::new(n, |_i: int| None::<bool>).push(Some(report))
}

proof fn lemma_reports_unfold(s: FailoverState, result: bool, n: nat)
    ensures
        run_reports(s, repeated(result, n + 1)) == seq![probe_step(s, result).1] + run_reports(
            probe_step(s, result).0,
            repeated(result, n),
        ),
{
    assert(repeated(result, n + 1).drop_first() =~= repeated(result, n));
}

proof fn lemma_failure_reports_from(s: FailoverState, n: nat)
    requires
        s.enabled,
        !s.failed,
        s.retries >= 1,
        n >= 1,
        s.failures + n == s.retries,
    ensures
        run_reports(s, repeated(false, n)) == quiet_then((n - 1) as nat, true),
    decreases n,
{
    lemma_reports_unfold(s, false, (n - 1) as nat);
    let t = probe_step(s, false).0;
    if n == 1 {
        assert(run_reports(t, repeated(false, 0)) =~= Seq::<Option<bool>>::empty());
        assert(run_reports(s, repeated(false, 1)) =~= quiet_then(0, true));
    } else {
        lemma_failure_reports_from(t, (n - 1) as nat);
        assert(run_reports(s, repeated(false, n)) =~= quiet_then((n - 1) as nat, true));
    }
}

proof fn lemma_recovery_reports_from(s: FailoverState, n: nat)
    requires
        s.enabled,
        s.failed,
        s.restore >= 1,
        n >= 1,
        s.successes + n == s.restore,
    ensures
        run_reports(s, repeated(true, n)) == quiet_then((n - 1) as nat, false),
    decreases n,
{
    lemma_reports_unfold(s, true, (n - 1) as nat);
    let t = probe_step(s, true).0;
    if n == 1 {
        assert(run_reports(t, repeated(true, 0)) =~= Seq::<Option<bool>>::empty());
        assert(run_reports(s, repeated(true, 1)) =~= quiet_then(0, false));
    } else {
        lemma_recovery_reports_from(t, (n - 1) as nat);
        assert(run_reports(s, repeated(true, n)) =~= quiet_then((n - 1) as nat, false));
    }
}

/// From a healthy state with no failed probes pending, `retries` failed
/// probes in a row make `observe` return `None` `retries - 1` times and then
/// `Some(true)`.
pub proof fn lemma_failure_reports(s: FailoverState)
    requires
        s.enabled,
        !s.failed,
        s.failures == 0,
        s.retries >= 1,
    ensures
        run_reports(s, repeated(false, s.retries as nat)) == quiet_then(
            (s.retries - 1) as nat,
            true,
        ),
{
    lemma_failure_reports_from(s, s.retries as nat);
}

/// From a failed state with no successful probes pending, `restore`
/// successful probes in a row make `observe` return `None` `restore - 1`
/// times and then `Some(false)`.
pub proof fn lemma_recovery_reports(s: FailoverState)
    requires
        s.enabled,
        s.failed,
        s.successes == 0,
        s.restore >= 1,
    ensures
        run_reports(s, repeated(true, s.restore as nat)) == quiet_then(
            (s.restore - 1) as nat,
            false,
        ),
{
    lemma_recovery_reports_from(s, s.restore as nat);
}

/// The states those laws start from are the usual ones: a consistent state
/// that is healthy after a successful probe has no failed probes pending,
/// and one that is failed after a failed probe has no successful probes
/// pending (a fresh state from `IcmpState::new` has neither).
pub proof fn lemma_runs_start_empty(s: FailoverState)
    requires
        s.enabled,
        is_consistent(s),
    ensures
        !probe_step(s, true).0.failed ==> probe_step(s, true).0.failures == 0,
        probe_step(s, false).0.failed ==> probe_step(s, false).0.successes == 0,
{
}

} // verus!
