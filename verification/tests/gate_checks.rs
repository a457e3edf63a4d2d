use zeroclaw::gate::{AutonomyLevel, GateOutcome, SecurityPolicy};

#[test]
fn readonly_policy_blocks_with_readonly_reason() {
    let mut policy = SecurityPolicy::new(AutonomyLevel::ReadOnly, 100);
    assert!(!policy.can_act());
    assert_eq!(policy.check_action(), GateOutcome::BlockedReadOnly);
    assert_eq!(policy.action_count, 0);
}

#[test]
fn zero_budget_blocks_first_action_with_rate_reason() {
    let mut policy = SecurityPolicy::new(AutonomyLevel::Full, 0);
    assert_eq!(policy.check_action(), GateOutcome::BlockedRateLimit);
    assert_eq!(policy.action_count, 0);
}

#[test]
fn gate_admits_exactly_the_budget() {
    let mut policy = SecurityPolicy::new(AutonomyLevel::Full, 3);
    for expected in 1..=3u32 {
        assert_eq!(policy.check_action(), GateOutcome::Allowed);
        assert_eq!(policy.action_count, expected);
    }
    assert_eq!(policy.check_action(), GateOutcome::BlockedRateLimit);
    assert_eq!(policy.action_count, 3);
}

#[test]
fn refused_attempts_never_advance_the_counter() {
    let mut policy = SecurityPolicy::new(AutonomyLevel::Full, 1);
    assert!(policy.record_action());
    for _ in 0..5 {
        assert!(!policy.record_action());
    }
    assert_eq!(policy.action_count, 1);
    policy.reset_window();
    assert_eq!(policy.action_count, 0);
    assert!(policy.record_action());
}
