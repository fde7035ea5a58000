use spendguard::auth::key_accepted;
use spendguard::agent::{agent_columns, agent_from_row, status_from_str, status_to_str};
use spendguard::{Agent, AgentStatus, BudgetDecision};

#[test]
fn allows_charge_within_budget() {
    let agent = Agent::new("kyc-bot".into(), 10_000);
    assert_eq!(agent.evaluate_charge(1_000), BudgetDecision::Allow);
}

#[test]
fn warns_at_threshold() {
    let mut agent = Agent::new("kyc-bot".into(), 10_000);
    agent.record_charge(7_500);
    assert_eq!(agent.evaluate_charge(500), BudgetDecision::AllowWithWarning);
}

#[test]
fn blocks_over_budget() {
    let mut agent = Agent::new("kyc-bot".into(), 10_000);
    agent.record_charge(9_500);
    assert_eq!(agent.evaluate_charge(1_000), BudgetDecision::Block);
}

#[test]
fn killed_agent_always_blocked() {
    let mut agent = Agent::new("kyc-bot".into(), 10_000);
    agent.kill();
    assert_eq!(agent.evaluate_charge(1), BudgetDecision::Block);
}

#[test]
fn new_agent_starts_active_and_unspent() {
    let agent = Agent::new("kyc-bot".into(), 10_000);
    assert_eq!(agent.name, "kyc-bot");
    assert_eq!(agent.monthly_budget_cents, 10_000);
    assert_eq!(agent.current_spend_cents, 0);
    assert_eq!(agent.status, AgentStatus::Active);
}

#[test]
fn warning_starts_exactly_at_eighty_percent() {
    let agent = Agent::new("a".into(), 10_000);
    assert_eq!(agent.evaluate_charge(7_999), BudgetDecision::Allow);
    assert_eq!(agent.evaluate_charge(8_000), BudgetDecision::AllowWithWarning);
    assert_eq!(agent.evaluate_charge(10_000), BudgetDecision::AllowWithWarning);
    assert_eq!(agent.evaluate_charge(10_001), BudgetDecision::Block);
}

#[test]
fn zero_budget_allows_only_non_positive_spend_without_warning() {
    let agent = Agent::new("a".into(), 0);
    assert_eq!(agent.evaluate_charge(0), BudgetDecision::Allow);
    assert_eq!(agent.evaluate_charge(1), BudgetDecision::Block);
}

#[test]
fn record_charge_throttles_at_budget() {
    let mut agent = Agent::new("a".into(), 1_000);
    agent.record_charge(999);
    assert_eq!(agent.current_spend_cents, 999);
    assert_eq!(agent.status, AgentStatus::Active);
    agent.record_charge(1);
    assert_eq!(agent.current_spend_cents, 1_000);
    assert_eq!(agent.status, AgentStatus::Throttled);
}

#[test]
fn record_charge_never_throttles_without_budget() {
    let mut agent = Agent::new("a".into(), 0);
    agent.record_charge(5_000);
    assert_eq!(agent.status, AgentStatus::Active);
}

#[test]
fn killed_agent_stays_blocked_after_charges() {
    let mut agent = Agent::new("a".into(), 100);
    agent.kill();
    agent.record_charge(50);
    assert_eq!(agent.status, AgentStatus::Killed);
    assert_eq!(agent.evaluate_charge(1), BudgetDecision::Block);
    agent.record_charge(50);
    assert_eq!(agent.status, AgentStatus::Killed);
    assert_eq!(agent.evaluate_charge(0), BudgetDecision::Block);
    assert_eq!(agent.evaluate_charge(-50), BudgetDecision::Block);
}

#[test]
fn larger_charges_never_loosen_the_decision() {
    let agent = Agent::new("a".into(), 1_000);
    let rank = |d: BudgetDecision| match d {
        BudgetDecision::Allow => 0,
        BudgetDecision::AllowWithWarning => 1,
        BudgetDecision::Block => 2,
    };
    let mut last = 0;
    for c in -200..1_200 {
        let r = rank(agent.evaluate_charge(c));
        assert!(r >= last);
        last = r;
    }
}

#[test]
fn status_names_round_trip() {
    for s in [AgentStatus::Active, AgentStatus::Throttled, AgentStatus::Killed] {
        assert_eq!(status_from_str(status_to_str(s)), s);
    }
    assert_eq!(status_to_str(AgentStatus::Throttled), "throttled");
    assert_eq!(status_from_str("bogus"), AgentStatus::Active);
}

#[test]
fn agent_row_reads_id_and_status() {
    let a = agent_from_row("67e55044-10b1-426f-9247-bb680e5fe0c8", "bot".to_string(), 500, 20, "killed");
    assert_eq!(a.id.to_string(), "67e55044-10b1-426f-9247-bb680e5fe0c8");
    assert_eq!(a.name, "bot");
    assert_eq!(a.monthly_budget_cents, 500);
    assert_eq!(a.current_spend_cents, 20);
    assert_eq!(a.status, AgentStatus::Killed);
    let b = agent_from_row("not-a-uuid", "bot".to_string(), 500, 20, "throttled");
    assert!(b.id.is_nil());
    assert_eq!(b.status, AgentStatus::Throttled);
}

#[test]
fn stored_agent_reads_back() {
    let mut agent = Agent::new("kyc-bot".into(), 10_000);
    agent.record_charge(10_000);
    let c = agent_columns(&agent);
    assert_eq!(c.id, agent.id.to_string());
    assert_eq!(c.status, "throttled");
    let back = agent_from_row(&c.id, c.name, c.monthly_budget_cents, c.current_spend_cents, c.status);
    assert_eq!(back.id, agent.id);
    assert_eq!(back.name, agent.name);
    assert_eq!(back.monthly_budget_cents, 10_000);
    assert_eq!(back.current_spend_cents, 10_000);
    assert_eq!(back.status, AgentStatus::Throttled);
}

#[test]
fn only_the_expected_key_passes() {
    assert!(key_accepted(Some("secret"), "secret"));
    assert!(!key_accepted(Some("Secret"), "secret"));
    assert!(!key_accepted(Some("secret "), "secret"));
    assert!(!key_accepted(None, "secret"));
    assert!(!key_accepted(None, ""));
    assert!(key_accepted(Some(""), ""));
}

#[test]
fn agent_with_given_id() {
    let id = uuid::Uuid::new_v4();
    let a = Agent::with_id(id, "bot".into(), 300);
    assert_eq!(a.id, id);
    assert_eq!(a.name, "bot");
    assert_eq!(a.monthly_budget_cents, 300);
    assert_eq!(a.current_spend_cents, 0);
    assert_eq!(a.status, AgentStatus::Active);
}
