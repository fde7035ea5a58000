use vstd::prelude::*;
use uuid::Uuid;
use crate::agent::{fits_i64, Agent, AgentStatus};
use crate::budget::{charge_can_be_judged, evaluate, spend_bps, verdict_of, BudgetVerdict};
use crate::clock::Timestamp;
use crate::request_log::{CacheTier, RequestLog};
use crate::workflow::Workflow;

verus! {

/// What the upstream runtime reports of a completed request: which cache
/// answered, what the request would have cost, what the customer is charged,
/// what the cache saved, and how long it took.
#[derive(Debug, Clone, Copy)]
pub struct BtlTelemetry {
    pub cache_tier: CacheTier,
    pub benchmark_cost_cents: i64,
    pub customer_charge_cents: i64,
    pub saved_cents: i64,
    pub latency_ms: u32,
}

/// A request to register an agent with a monthly budget in cents.
#[derive(Debug, Clone)]
pub struct CreateAgentRequest {
    pub name: String,
    pub monthly_budget_cents: i64,
}

/// The charge assumed for a request before the runtime has priced it.
pub const PREFLIGHT_ESTIMATE_CENTS: i64 = 5;

/// The verdict on a request before it is forwarded: the agent and the
/// workflow, if any, are judged on the preflight estimate.
pub fn preflight(agent: &Agent, workflow: Option<&Workflow>) -> (v: BudgetVerdict)
    requires
        charge_can_be_judged(
            *agent,
            match workflow {
                Some(w) => Some(*w),
                None => None,
            },
            PREFLIGHT_ESTIMATE_CENTS as int,
        ),
    ensures
        v.projected_spend_cents == agent.current_spend_cents + PREFLIGHT_ESTIMATE_CENTS,
        v.agent_spend_bps == spend_bps(
            agent.current_spend_cents + PREFLIGHT_ESTIMATE_CENTS,
            agent.monthly_budget_cents as int,
        ),
        (v.decision, v.reason) == verdict_of(
            *agent,
            match workflow {
                Some(w) => Some(*w),
                None => None,
            },
            PREFLIGHT_ESTIMATE_CENTS as int,
        ),
{
    evaluate(agent, workflow, PREFLIGHT_ESTIMATE_CENTS)
}

/// What is left to do once the runtime has answered: the ledger entry, the
/// agent with the charge recorded, and whether the agent now stands
/// throttled.
#[derive(Debug)]
pub struct Settlement {
    pub log: RequestLog,
    pub agent: Agent,
    pub throttled: bool,
}

/// The model name that a response without one is logged under.
pub open spec fn model_or_unknown(model: Option<Seq<char>>) -> Seq<char> {
    match model {
        Some(m) => m,
        None => "unknown"@,
    }
}

/// Settles a forwarded request: logs it for the agent and workflow, under the
/// model that the response names and stamped with `now`, the current time as
/// the caller read it, and charges the agent what the runtime reports.
pub fn settle(
    agent: Agent,
    workflow_id: Option<Uuid>,
    model: Option<String>,
    telemetry: &BtlTelemetry,
    now: Timestamp,
) -> (s: Settlement)
    requires
        fits_i64(agent.current_spend_cents + telemetry.customer_charge_cents),
    ensures
        s.log.agent_id == agent.id,
        s.log.ts == now,
        s.log.workflow_id == workflow_id,
        s.log.model@ == model_or_unknown(
            match model {
                Some(m) => Some(m@),
                None => None,
            },
        ),
        s.log.btl_cache_tier == telemetry.cache_tier,
        s.log.benchmark_cost_cents == telemetry.benchmark_cost_cents,
        s.log.customer_charge_cents == telemetry.customer_charge_cents,
        s.log.saved_cents == telemetry.saved_cents,
        s.log.latency_ms == telemetry.latency_ms,
        s.agent == agent.after_charge(telemetry.customer_charge_cents as int),
        s.throttled == (s.agent.status == AgentStatus::Throttled),
{
    let model = match model {
        Some(m) => m,
        None => "unknown".to_owned(),
    };
    let log = RequestLog::new(
        agent.id,
        workflow_id,
        model,
        telemetry.cache_tier,
        telemetry.benchmark_cost_cents,
        telemetry.customer_charge_cents,
        telemetry.saved_cents,
        telemetry.latency_ms,
        now,
    );
    let mut agent = agent;
    agent.record_charge(telemetry.customer_charge_cents);
    let throttled = agent.status == AgentStatus::Throttled;
    Settlement { log, agent, throttled }
}

} // verus!
