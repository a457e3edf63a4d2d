//! Authorization gate: a shared policy object consulted before any
//! side-effecting action a session performs on the caller's behalf.
//!
//! Two checks gate every action: an autonomy check (a read-only policy
//! refuses outright) and a rate check against a rolling counter. A refused
//! action never advances the counter. The counting window itself is the
//! host's notion of time: the host opens a fresh window with
//! [`SecurityPolicy::reset_window`].

use vstd::prelude::*;

verus! {

/// How much initiative the policy grants the agent.
#[derive(Clone, Copy, Debug, PartialEq, Eq, Structural)]
pub enum AutonomyLevel {
    /// The agent may observe but never act.
    ReadOnly,
    /// The agent may act, subject to the rate limit.
    Full,
}

/// The policy consulted before every gated action.
pub struct SecurityPolicy {
    pub autonomy: AutonomyLevel,
    pub max_actions_per_hour: u32,
    /// The rolling counter. Verified code advances it only through
    /// [`SecurityPolicy::record_action`].
    pub action_count: u32,
}

/// Outcome of passing one action through both gate checks.
#[derive(Clone, Copy, Debug, PartialEq, Eq, Structural)]
pub enum GateOutcome {
    /// Both checks passed; the action was counted and may execute.
    Allowed,
    /// The autonomy check refused: the policy is read-only.
    BlockedReadOnly,
    /// The rate check refused: the window's budget is spent.
    BlockedRateLimit,
}

/// What one rate-check attempt does: allowed exactly when the counter is
/// under the limit, and only then does the counter advance.
pub open spec fn spec_gate_step(limit: u32, count: nat) -> (bool, nat) {
    if count < limit {
        (true, count + 1)
    } else {
        (false, count)
    }
}

/// The counter after `k` rate-check attempts in one window, starting from
/// an empty window.
pub open spec fn spec_count_after(limit: u32, k: nat) -> nat
    decreases k,
{
    if k == 0 {
        0
    } else {
        spec_gate_step(limit, spec_count_after(limit, (k - 1) as nat)).1
    }
}

/// Whether the attempt numbered `k` (counting from zero) in one window is
/// allowed by the rate check.
pub open spec fn spec_attempt_allowed(limit: u32, k: nat) -> bool {
    spec_count_after(limit, k) < limit
}

impl SecurityPolicy {
    /// A fresh policy with an empty window.
    pub fn new(autonomy: AutonomyLevel, max_actions_per_hour: u32) -> (p: SecurityPolicy)
        ensures
            p.autonomy == autonomy,
            p.max_actions_per_hour == max_actions_per_hour,
            p.action_count == 0,
    {
        SecurityPolicy { autonomy, max_actions_per_hour, action_count: 0 }
    }

    /// Autonomy check: whether the policy lets the agent act at all.
    /// Touches nothing.
    pub fn can_act(&self) -> (r: bool)
        ensures
            r == (self.autonomy != AutonomyLevel::ReadOnly),
    {
        match self.autonomy {
            AutonomyLevel::ReadOnly => false,
            AutonomyLevel::Full => true,
        }
    }

    /// Rate check: records the action and reports true when the window still
    /// has budget; otherwise reports false and leaves the counter alone.
    pub fn record_action(&mut self) -> (r: bool)
        ensures
            (r, final(self).action_count as nat) == spec_gate_step(
                old(self).max_actions_per_hour,
                old(self).action_count as nat,
            ),
            r == ((old(self).action_count as nat) < (old(self).max_actions_per_hour as nat)),
            r ==> final(self).action_count as nat == old(self).action_count as nat + 1,
            !r ==> *final(self) == *old(self),
            final(self).autonomy == old(self).autonomy,
            final(self).max_actions_per_hour == old(self).max_actions_per_hour,
    {
        if self.action_count < self.max_actions_per_hour {
            self.action_count = self.action_count + 1;
            true
        } else {
            false
        }
    }

    /// Both checks in their required order: autonomy strictly first, so a
    /// read-only refusal never touches the counter; then the rate check.
    pub fn check_action(&mut self) -> (r: GateOutcome)
        ensures
            old(self).autonomy == AutonomyLevel::ReadOnly ==> r == GateOutcome::BlockedReadOnly
                && *final(self) == *old(self),
            old(self).autonomy != AutonomyLevel::ReadOnly
                && (old(self).action_count as nat) >= (old(self).max_actions_per_hour as nat)
                ==> r == GateOutcome::BlockedRateLimit && *final(self) == *old(self),
            old(self).autonomy != AutonomyLevel::ReadOnly
                && (old(self).action_count as nat) < (old(self).max_actions_per_hour as nat)
                ==> r == GateOutcome::Allowed && final(self).action_count as nat
                == old(self).action_count as nat + 1,
            r != GateOutcome::Allowed ==> *final(self) == *old(self),
            final(self).autonomy == old(self).autonomy,
            final(self).max_actions_per_hour == old(self).max_actions_per_hour,
    {
        if !self.can_act() {
            GateOutcome::BlockedReadOnly
        } else if !self.record_action() {
            GateOutcome::BlockedRateLimit
        } else {
            GateOutcome::Allowed
        }
    }

    /// Opens a fresh counting window. The host calls this when its clock
    /// says the previous window has rolled over.
    pub fn reset_window(&mut self)
        ensures
            final(self).autonomy == old(self).autonomy,
            final(self).max_actions_per_hour == old(self).max_actions_per_hour,
            final(self).action_count as nat == 0,
    {
        self.action_count = 0;
    }
}

/// Law: within one window, the rate check admits exactly the configured
/// limit. Starting from an empty window, the attempt numbered `k` (counting
/// from zero) is allowed if and only if `k` is below the limit, and after
/// `k` attempts the counter reads `min(k, limit)`; in particular the
/// attempt right past the limit is the first one refused, all prior
/// attempts having been allowed in order.
pub proof fn lemma_window_admits_exactly_max(limit: u32, k: nat)
    ensures
        spec_count_after(limit, k) == if k < limit {
            k
        } else {
            limit as nat
        },
        spec_attempt_allowed(limit, k) == (k < limit),
    decreases k,
{
    if k > 0 {
        lemma_window_admits_exactly_max(limit, (k - 1) as nat);
    }
}

} // verus!
