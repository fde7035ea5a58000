use spendguard::proxy::PREFLIGHT_ESTIMATE_CENTS;
use spendguard::request_log::{cache_tier_from_str, cache_tier_to_str, log_columns, request_log_from_row};
use spendguard::{
    preflight, settle, summarize, Agent, AgentStatus, BtlTelemetry, BudgetDecision, CacheTier, RequestLog,
    Timestamp, VerdictReason,
};
use uuid::Uuid;

const NOW: Timestamp = Timestamp { secs: 1_700_000_000, nanos: 0 };

fn log(tier: CacheTier, charge: i64, saved: i64) -> RequestLog {
    RequestLog::new(Uuid::new_v4(), None, "gpt".to_string(), tier, charge + saved, charge, saved, 10, NOW)
}

#[test]
fn header_values_map_to_tiers() {
    assert_eq!(CacheTier::from_header("exact_response_cache"), CacheTier::ExactResponseCache);
    assert_eq!(CacheTier::from_header("semantic_cache"), CacheTier::SemanticCache);
    assert_eq!(CacheTier::from_header("no_cache"), CacheTier::NoCache);
    assert_eq!(CacheTier::from_header("EXACT_RESPONSE_CACHE"), CacheTier::NoCache);
    assert_eq!(CacheTier::from_header(""), CacheTier::NoCache);
}

#[test]
fn only_no_cache_is_a_miss() {
    assert!(CacheTier::ExactResponseCache.is_cache_hit());
    assert!(CacheTier::SemanticCache.is_cache_hit());
    assert!(!CacheTier::NoCache.is_cache_hit());
}

#[test]
fn tier_names_round_trip() {
    for t in [CacheTier::ExactResponseCache, CacheTier::SemanticCache, CacheTier::NoCache] {
        assert_eq!(cache_tier_from_str(cache_tier_to_str(t)), t);
        assert_eq!(CacheTier::from_header(cache_tier_to_str(t)), t);
    }
    assert_eq!(cache_tier_to_str(CacheTier::NoCache), "no_cache");
}

#[test]
fn summarize_counts_and_sums() {
    let logs = vec![
        log(CacheTier::ExactResponseCache, 3, 7),
        log(CacheTier::NoCache, 10, 0),
        log(CacheTier::SemanticCache, 4, 6),
    ];
    let s = summarize(&logs);
    assert_eq!(s.total_requests, 3);
    assert_eq!(s.cache_hits, 2);
    assert_eq!(s.total_saved_cents, 13);
    assert_eq!(s.total_charged_cents, 17);
}

#[test]
fn summarize_empty_ledger() {
    let s = summarize(&[]);
    assert_eq!(s.total_requests, 0);
    assert_eq!(s.cache_hits, 0);
    assert_eq!(s.total_saved_cents, 0);
    assert_eq!(s.total_charged_cents, 0);
}

#[test]
fn summaries_of_parts_add_up() {
    let first = vec![log(CacheTier::ExactResponseCache, 3, 7), log(CacheTier::NoCache, 10, 0)];
    let second = vec![log(CacheTier::SemanticCache, 4, 6)];
    let mut all = Vec::new();
    for l in first.iter().chain(second.iter()) {
        all.push(log(l.btl_cache_tier, l.customer_charge_cents, l.saved_cents));
    }
    let (a, b, c) = (summarize(&first), summarize(&second), summarize(&all));
    assert_eq!(c.total_requests, a.total_requests + b.total_requests);
    assert_eq!(c.cache_hits, a.cache_hits + b.cache_hits);
    assert_eq!(c.total_saved_cents, a.total_saved_cents + b.total_saved_cents);
    assert_eq!(c.total_charged_cents, a.total_charged_cents + b.total_charged_cents);
}

#[test]
fn request_log_row_parses_ids_and_time() {
    let l = request_log_from_row(
        "67e55044-10b1-426f-9247-bb680e5fe0c8",
        "not-an-id",
        Some("936da01f-9abd-4d9d-80c7-02af85c822a8"),
        "gpt".to_string(),
        "semantic_cache",
        12,
        5,
        7,
        (1i64 << 32) + 42,
        "2024-01-02T03:04:05.5+01:00",
        NOW,
    );
    assert_eq!(l.id.to_string(), "67e55044-10b1-426f-9247-bb680e5fe0c8");
    assert!(l.agent_id.is_nil());
    assert_eq!(l.workflow_id.unwrap().to_string(), "936da01f-9abd-4d9d-80c7-02af85c822a8");
    assert_eq!(l.btl_cache_tier, CacheTier::SemanticCache);
    assert_eq!(l.latency_ms, 42);
    assert_eq!(l.ts.secs, 1_704_161_045);
    assert_eq!(l.ts.nanos, 500_000_000);
    let m = request_log_from_row("a", "b", Some("c"), "m".to_string(), "?", 0, 0, 0, 0, "yesterday", NOW);
    assert_eq!(m.workflow_id, None);
    assert_eq!(m.btl_cache_tier, CacheTier::NoCache);
    assert_eq!(m.ts, NOW);
}

#[test]
fn preflight_uses_the_estimate() {
    let mut agent = Agent::new("a".into(), 100);
    agent.record_charge(95);
    let v = preflight(&agent, None);
    assert_eq!(PREFLIGHT_ESTIMATE_CENTS, 5);
    assert_eq!(v.projected_spend_cents, 100);
    assert_eq!(v.decision, BudgetDecision::AllowWithWarning);
    agent.record_charge(1);
    let v = preflight(&agent, None);
    assert_eq!(v.decision, BudgetDecision::Block);
    assert_eq!(v.reason, VerdictReason::OverBudget);
}

#[test]
fn settle_logs_and_charges() {
    let agent = Agent::new("a".into(), 100);
    let id = agent.id;
    let wf = Some(Uuid::new_v4());
    let t = BtlTelemetry {
        cache_tier: CacheTier::SemanticCache,
        benchmark_cost_cents: 150,
        customer_charge_cents: 120,
        saved_cents: 30,
        latency_ms: 80,
    };
    let s = settle(agent, wf, Some("gpt".to_string()), &t, NOW);
    assert_eq!(s.log.agent_id, id);
    assert_eq!(s.log.ts, NOW);
    assert_eq!(s.log.workflow_id, wf);
    assert_eq!(s.log.model, "gpt");
    assert_eq!(s.log.customer_charge_cents, 120);
    assert_eq!(s.log.saved_cents, 30);
    assert_eq!(s.agent.current_spend_cents, 120);
    assert_eq!(s.agent.status, AgentStatus::Throttled);
    assert!(s.throttled);
}

#[test]
fn settle_logs_unknown_model_when_none_is_named() {
    let agent = Agent::new("a".into(), 0);
    let t = BtlTelemetry {
        cache_tier: CacheTier::NoCache,
        benchmark_cost_cents: 0,
        customer_charge_cents: 3,
        saved_cents: 0,
        latency_ms: 1,
    };
    let s = settle(agent, None, None, &t, NOW);
    assert_eq!(s.log.model, "unknown");
    assert_eq!(s.agent.status, AgentStatus::Active);
    assert!(!s.throttled);
}

#[test]
fn log_with_given_id_and_time() {
    let id = Uuid::new_v4();
    let agent_id = Uuid::new_v4();
    let l = RequestLog::with_id_and_time(id, NOW, agent_id, None, "m".to_string(), CacheTier::NoCache, 9, 8, 1, 77);
    assert_eq!(l.id, id);
    assert_eq!(l.ts, NOW);
    assert_eq!(l.agent_id, agent_id);
    assert_eq!(l.benchmark_cost_cents, 9);
    assert_eq!(l.customer_charge_cents, 8);
    assert_eq!(l.saved_cents, 1);
    assert_eq!(l.latency_ms, 77);
}

#[test]
fn stored_log_reads_back() {
    let wf = Uuid::new_v4();
    let l = RequestLog::new(Uuid::new_v4(), Some(wf), "gpt".to_string(), CacheTier::ExactResponseCache, 10, 4, 6, 99, NOW);
    let c = log_columns(&l);
    assert_eq!(c.id, l.id.to_string());
    assert_eq!(c.btl_cache_tier, "exact_response_cache");
    assert_eq!(c.latency_ms, 99);
    assert_eq!(c.ts.as_deref(), Some("2023-11-14T22:13:20+00:00"));
    let back = request_log_from_row(
        &c.id,
        &c.agent_id,
        c.workflow_id.as_deref(),
        c.model,
        c.btl_cache_tier,
        c.benchmark_cost_cents,
        c.customer_charge_cents,
        c.saved_cents,
        c.latency_ms,
        c.ts.as_deref().unwrap(),
        Timestamp { secs: 0, nanos: 0 },
    );
    assert_eq!(back.id, l.id);
    assert_eq!(back.agent_id, l.agent_id);
    assert_eq!(back.workflow_id, Some(wf));
    assert_eq!(back.model, "gpt");
    assert_eq!(back.btl_cache_tier, CacheTier::ExactResponseCache);
    assert_eq!(back.latency_ms, 99);
    assert_eq!(back.ts, NOW);
}

#[test]
fn log_columns_without_representable_time() {
    let l = RequestLog::new(Uuid::new_v4(), None, "m".to_string(), CacheTier::NoCache, 0, 0, 0, 0, Timestamp { secs: i64::MAX, nanos: 0 });
    let c = log_columns(&l);
    assert_eq!(c.ts, None);
    assert_eq!(c.workflow_id, None);
}

#[test]
fn summaries_ignore_order() {
    let a = vec![log(CacheTier::ExactResponseCache, 3, 7), log(CacheTier::NoCache, 10, 0), log(CacheTier::SemanticCache, 4, 6)];
    let b = vec![log(CacheTier::SemanticCache, 4, 6), log(CacheTier::ExactResponseCache, 3, 7), log(CacheTier::NoCache, 10, 0)];
    let (x, y) = (summarize(&a), summarize(&b));
    assert_eq!(x.total_requests, y.total_requests);
    assert_eq!(x.cache_hits, y.cache_hits);
    assert_eq!(x.total_saved_cents, y.total_saved_cents);
    assert_eq!(x.total_charged_cents, y.total_charged_cents);
}
