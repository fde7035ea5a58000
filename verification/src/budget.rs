use vstd::prelude::*;
use crate::agent::{fits_i64, Agent, AgentStatus, BudgetDecision};
use crate::workflow::Workflow;

verus! {

/// Why a verdict came out as it did.
#[derive(Debug, Clone, Copy, PartialEq, Eq, Structural)]
pub enum VerdictReason {
    /// The workflow's kill switch tripped.
    WorkflowTripped,
    /// The charge stays below the warning share of the budget.
    WithinBudget,
    /// The charge is allowed but reaches the warning share of the budget.
    NearBudget,
    /// The agent is killed.
    AgentKilled,
    /// The charge would take the agent past its monthly budget.
    OverBudget,
}

/// The verdict on a prospective charge.
#[derive(Debug, Clone, Copy)]
pub struct BudgetVerdict {
    pub decision: BudgetDecision,
    pub reason: VerdictReason,
    /// The agent's spend with the charge added, in cents.
    pub projected_spend_cents: i128,
    /// That spend as a share of the monthly budget, in basis points rounded
    /// down; zero where the budget is zero or less.
    pub agent_spend_bps: i128,
}

/// The share, in basis points rounded down, that `spend` makes of `budget`;
/// zero for a budget of zero or less.
pub open spec fn spend_bps(spend: int, budget: int) -> int {
    if budget > 0 {
        (spend * 10000) / budget
    } else {
        0
    }
}

/// The decision and its reason for a charge on an agent, with an optional
/// workflow: a tripped kill switch blocks first; otherwise the agent's own
/// decision stands.
pub open spec fn verdict_of(agent: Agent, workflow: Option<Workflow>, charge: int) -> (BudgetDecision, VerdictReason) {
    let bps: int = spend_bps(agent.current_spend_cents + charge, agent.monthly_budget_cents as int);
    if workflow is Some && workflow->0.trips_at(bps) {
        (BudgetDecision::Block, VerdictReason::WorkflowTripped)
    } else {
        let d = agent.decision_for(charge);
        (d, match d {
            BudgetDecision::Allow => VerdictReason::WithinBudget,
            BudgetDecision::AllowWithWarning => VerdictReason::NearBudget,
            BudgetDecision::Block => if agent.status == AgentStatus::Killed {
                VerdictReason::AgentKilled
            } else {
                VerdictReason::OverBudget
            },
        })
    }
}

/// The floor of `-m / d` is the negated ceiling of `m / d`.
proof fn lemma_floor_div_negative(m: int, d: int)
    requires
        m > 0,
        d > 0,
    ensures
        (-m) / d == -((m + d - 1) / d),
{
    let q: int = (m + d - 1) / d;
    let r: int = (m + d - 1) % d;
    vstd::arithmetic::div_mod::lemma_fundamental_div_mod(m + d - 1, d);
    vstd::arithmetic::div_mod::lemma_mod_bound(m + d - 1, d);
    // -m == d * (-q) + (d - 1 - r), with 0 <= d - 1 - r < d
    assert(-m == d * (-q) + (d - 1 - r)) by (nonlinear_arith)
        requires
            m + d - 1 == d * q + r,
    ;
    vstd::arithmetic::div_mod::lemma_fundamental_div_mod_converse(-m, d, -q, d - 1 - r);
}

/// The share, in basis points rounded down, that `spend` makes of `budget`.
pub fn spend_share_bps(spend: i128, budget: i64) -> (r: i128)
    requires
        -0x1_0000_0000_0000_0000 <= spend <= 0x1_0000_0000_0000_0000,
    ensures
        r == spend_bps(spend as int, budget as int),
{
    if budget <= 0 {
        return 0;
    }
    let n: i128 = spend * 10000;
    let d: i128 = budget as i128;
    if n >= 0 {
        n / d
    } else {
        let m: i128 = -n;
        let q: i128 = (m + d - 1) / d;
        proof {
            lemma_floor_div_negative(m as int, d as int);
        }
        -q
    }
}

/// Whether judging a charge never needs the agent's spend plus the charge
/// as an `i64`: it fits, or the budget is zero or less (so no share is
/// computed) and the agent is blocked before the two are added, being
/// killed or stopped by a kill switch that trips at a share of zero.
pub open spec fn charge_can_be_judged(agent: Agent, workflow: Option<Workflow>, charge: int) -> bool {
    ||| fits_i64(agent.current_spend_cents + charge)
    ||| agent.monthly_budget_cents <= 0 && (agent.status == AgentStatus::Killed || (workflow is Some
        && workflow->0.trips_at(0)))
}

/// Decides on a prospective charge for an agent, honouring the kill switch
/// of the workflow, if any, that the charge is made for.
pub fn evaluate(agent: &Agent, workflow: Option<&Workflow>, prospective_charge_cents: i64) -> (v: BudgetVerdict)
    requires
        charge_can_be_judged(
            *agent,
            match workflow {
                Some(w) => Some(*w),
                None => None,
            },
            prospective_charge_cents as int,
        ),
    ensures
        v.projected_spend_cents == agent.current_spend_cents + prospective_charge_cents,
        v.agent_spend_bps == spend_bps(
            agent.current_spend_cents + prospective_charge_cents,
            agent.monthly_budget_cents as int,
        ),
        (v.decision, v.reason) == verdict_of(
            *agent,
            match workflow {
                Some(w) => Some(*w),
                None => None,
            },
            prospective_charge_cents as int,
        ),
{
    let projected: i128 = agent.current_spend_cents as i128 + prospective_charge_cents as i128;
    let bps: i128 = spend_share_bps(projected, agent.monthly_budget_cents);
    if let Some(wf) = workflow {
        if wf.should_trip(bps) {
            return BudgetVerdict {
                decision: BudgetDecision::Block,
                reason: VerdictReason::WorkflowTripped,
                projected_spend_cents: projected,
                agent_spend_bps: bps,
            };
        }
    }
    let decision = agent.evaluate_charge(prospective_charge_cents);
    let reason = match decision {
        BudgetDecision::Allow => VerdictReason::WithinBudget,
        BudgetDecision::AllowWithWarning => VerdictReason::NearBudget,
        BudgetDecision::Block => match agent.status {
            AgentStatus::Killed => VerdictReason::AgentKilled,
            _ => VerdictReason::OverBudget,
        },
    };
    BudgetVerdict { decision, reason, projected_spend_cents: projected, agent_spend_bps: bps }
}

} // verus!
