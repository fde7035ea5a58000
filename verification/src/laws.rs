//! What holds of the library as a whole, over the spec functions that the
//! operations' own contracts use.
use vstd::prelude::*;
use crate::agent::{
    budget_reached, id_of_text, AgentColumns, decision_rank, fits_i64, status_name, status_of_name, Agent, AgentStatus,
    BudgetDecision,
};
use crate::budget::{spend_bps, verdict_of, VerdictReason};
use crate::request_log::{
    charged_sum, hit_count, opt_id_of_text, saved_sum, tier_name, tier_of_name, CacheTier, LogColumns,
    RequestLog,
};
use crate::ident::uuid_parse;
use crate::proxy::model_or_unknown;
use crate::workflow::Workflow;

verus! {

/// A killed agent is blocked, whatever it is charged.
pub proof fn killed_agent_always_blocked(agent: Agent, charge: int)
    requires
        agent.status == AgentStatus::Killed,
    ensures
        agent.decision_for(charge) == BudgetDecision::Block,
{
}

/// Once killed, an agent is blocked on every charge.
pub proof fn kill_blocks_every_charge(agent: Agent, charge: int)
    ensures
        agent.killed().decision_for(charge) == BudgetDecision::Block,
{
}

/// A charge that is allowed, with or without a warning, is made for an agent
/// that is not killed and keeps its spend within the monthly budget.
pub proof fn allowed_charge_stays_within_budget(agent: Agent, charge: int)
    requires
        agent.decision_for(charge) != BudgetDecision::Block,
    ensures
        agent.status != AgentStatus::Killed,
        agent.current_spend_cents + charge <= agent.monthly_budget_cents,
{
}

/// A larger charge never gets a looser decision than a smaller one.
pub proof fn decision_monotone_in_charge(agent: Agent, smaller: int, larger: int)
    requires
        smaller <= larger,
    ensures
        decision_rank(agent.decision_for(smaller)) <= decision_rank(agent.decision_for(larger)),
{
}

/// A killed agent stays killed whatever charge is recorded, and so stays
/// blocked on every charge after it.
pub proof fn killed_agent_stays_blocked(agent: Agent, recorded: int, charge: int)
    requires
        agent.status == AgentStatus::Killed,
        fits_i64(agent.current_spend_cents + recorded),
    ensures
        agent.after_charge(recorded).status == AgentStatus::Killed,
        agent.after_charge(recorded).decision_for(charge) == BudgetDecision::Block,
{
}

/// Recording a charge throttles an agent that is not killed exactly when its
/// spend reaches a positive budget, and otherwise leaves its status alone.
pub proof fn record_throttles_at_budget(agent: Agent, charge: int)
    requires
        fits_i64(agent.current_spend_cents + charge),
    ensures
        agent.after_charge(charge).current_spend_cents == agent.current_spend_cents + charge,
        agent.status != AgentStatus::Killed && budget_reached(
            agent.current_spend_cents + charge,
            agent.monthly_budget_cents as int,
        ) ==> agent.after_charge(charge).status == AgentStatus::Throttled,
        !(agent.status != AgentStatus::Killed && budget_reached(
            agent.current_spend_cents + charge,
            agent.monthly_budget_cents as int,
        )) ==> agent.after_charge(charge).status == agent.status,
{
}

/// A disabled workflow never trips.
pub proof fn disabled_workflow_never_trips(workflow: Workflow, agent_spend_bps: int)
    requires
        !workflow.enabled,
    ensures
        !workflow.trips_at(agent_spend_bps),
{
}

/// Rounding the spend share down to whole basis points loses nothing: an
/// enabled workflow trips exactly when the spend, as a share of a positive
/// budget, reaches the threshold.
pub proof fn trips_exactly_at_threshold(workflow: Workflow, spend: int, budget: int)
    requires
        budget > 0,
    ensures
        workflow.trips_at(spend_bps(spend, budget)) <==> (workflow.enabled && spend * 10000
            >= workflow.kill_switch_threshold_bps * budget),
{
    let n: int = spend * 10000;
    let t: int = workflow.kill_switch_threshold_bps as int;
    let q: int = n / budget;
    let r: int = n % budget;
    vstd::arithmetic::div_mod::lemma_fundamental_div_mod(n, budget);
    vstd::arithmetic::div_mod::lemma_mod_bound(n, budget);
    assert(q >= t <==> n >= t * budget) by (nonlinear_arith)
        requires
            n == budget * q + r,
            0 <= r < budget,
            budget > 0,
    {
        if q >= t {
            assert(budget * q >= budget * t);
        } else {
            assert(q <= t - 1);
            assert(budget * q <= budget * (t - 1));
        }
    }
}

/// Without a workflow, the verdict is the agent's own decision.
pub proof fn verdict_without_workflow(agent: Agent, charge: int)
    ensures
        verdict_of(agent, None, charge).0 == agent.decision_for(charge),
{
}

/// A workflow only ever tightens the agent's own decision.
pub proof fn workflow_only_tightens(agent: Agent, workflow: Option<Workflow>, charge: int)
    ensures
        decision_rank(verdict_of(agent, workflow, charge).0) >= decision_rank(
            agent.decision_for(charge),
        ),
{
}

/// A verdict blocks exactly when its reason is a tripped kill switch, a
/// killed agent or an exceeded budget.
pub proof fn block_reasons(agent: Agent, workflow: Option<Workflow>, charge: int)
    ensures
        (verdict_of(agent, workflow, charge).0 == BudgetDecision::Block) <==> (
        verdict_of(agent, workflow, charge).1 == VerdictReason::WorkflowTripped || verdict_of(
            agent,
            workflow,
            charge,
        ).1 == VerdictReason::AgentKilled || verdict_of(agent, workflow, charge).1
            == VerdictReason::OverBudget),
{
}

/// A stored status reads back as the status that was stored.
pub proof fn status_round_trip(s: AgentStatus)
    ensures
        status_of_name(status_name(s)) == s,
{
    reveal_strlit("active");
    reveal_strlit("throttled");
    reveal_strlit("killed");
    assert("active"@[0] != "throttled"@[0]);
    assert("active"@[0] != "killed"@[0]);
    assert("throttled"@[0] != "killed"@[0]);
}

/// A stored cache tier reads back as the tier that was stored, and reads the
/// same way as the runtime's header.
pub proof fn tier_round_trip(t: CacheTier)
    ensures
        tier_of_name(tier_name(t)) == t,
{
    reveal_strlit("exact_response_cache");
    reveal_strlit("semantic_cache");
    reveal_strlit("no_cache");
    assert("exact_response_cache"@[0] != "semantic_cache"@[0]);
    assert("exact_response_cache"@[0] != "no_cache"@[0]);
    assert("semantic_cache"@[0] != "no_cache"@[0]);
}

/// An agent stored under its columns reads back as the same agent: the id
/// and status columns read as the agent's id and status, and the other
/// columns are the agent's fields as they are.
pub proof fn stored_agent_reads_back(agent: Agent, columns: AgentColumns)
    requires
        uuid_parse(columns.id@) == Some(agent.id),
        columns.name@ == agent.name@,
        columns.monthly_budget_cents == agent.monthly_budget_cents,
        columns.current_spend_cents == agent.current_spend_cents,
        columns.status@ == status_name(agent.status),
    ensures
        id_of_text(columns.id@) == agent.id,
        status_of_name(columns.status@) == agent.status,
{
    status_round_trip(agent.status);
}

/// A log entry stored under its columns reads back with the same ids,
/// workflow id, cache tier and latency.
pub proof fn stored_log_reads_back(log: RequestLog, columns: LogColumns)
    requires
        uuid_parse(columns.id@) == Some(log.id),
        uuid_parse(columns.agent_id@) == Some(log.agent_id),
        columns.workflow_id is Some == log.workflow_id is Some,
        log.workflow_id is Some ==> uuid_parse(columns.workflow_id->0@) == log.workflow_id,
        columns.btl_cache_tier@ == tier_name(log.btl_cache_tier),
        columns.latency_ms == log.latency_ms as i64,
    ensures
        id_of_text(columns.id@) == log.id,
        id_of_text(columns.agent_id@) == log.agent_id,
        opt_id_of_text(
            match columns.workflow_id {
                Some(w) => Some(w@),
                None => None,
            },
        ) == log.workflow_id,
        tier_of_name(columns.btl_cache_tier@) == log.btl_cache_tier,
        columns.latency_ms as u32 == log.latency_ms,
{
    tier_round_trip(log.btl_cache_tier);
}

/// A ledger never has more cache hits than requests.
pub proof fn hits_at_most_requests(logs: Seq<RequestLog>)
    ensures
        hit_count(logs) <= logs.len(),
    decreases logs.len(),
{
    if logs.len() > 0 {
        hits_at_most_requests(logs.drop_last());
    }
}

/// The totals of two ledgers put end to end are the sums of their totals.
pub proof fn totals_add_up(first: Seq<RequestLog>, second: Seq<RequestLog>)
    ensures
        hit_count(first + second) == hit_count(first) + hit_count(second),
        saved_sum(first + second) == saved_sum(first) + saved_sum(second),
        charged_sum(first + second) == charged_sum(first) + charged_sum(second),
    decreases second.len(),
{
    if second.len() > 0 {
        totals_add_up(first, second.drop_last());
        assert((first + second).drop_last() =~= first + second.drop_last());
        assert((first + second).last() == second.last());
    } else {
        assert(first + second =~= first);
    }
}

/// Taking one request out of a ledger takes exactly its share out of the
/// totals.
proof fn totals_without(logs: Seq<RequestLog>, i: int)
    requires
        0 <= i < logs.len(),
    ensures
        hit_count(logs) == hit_count(logs.remove(i)) + hit_count(seq![logs[i]]),
        saved_sum(logs) == saved_sum(logs.remove(i)) + logs[i].saved_cents,
        charged_sum(logs) == charged_sum(logs.remove(i)) + logs[i].customer_charge_cents,
{
    let before = logs.take(i);
    let one = seq![logs[i]];
    let after = logs.skip(i + 1);
    assert(logs =~= before + one + after);
    assert(logs.remove(i) =~= before + after);
    totals_add_up(before + one, after);
    totals_add_up(before, one);
    totals_add_up(before, after);
    assert(one.drop_last() =~= Seq::<RequestLog>::empty());
    assert(one.last() == logs[i]);
    assert(saved_sum(one) == saved_sum(one.drop_last()) + logs[i].saved_cents);
    assert(charged_sum(one) == charged_sum(one.drop_last()) + logs[i].customer_charge_cents);
}

/// A ledger's totals do not depend on the order of its requests: two ledgers
/// that hold the same requests, each as often, have the same totals.
pub proof fn totals_ignore_order(first: Seq<RequestLog>, second: Seq<RequestLog>)
    requires
        first.to_multiset() == second.to_multiset(),
    ensures
        first.len() == second.len(),
        hit_count(first) == hit_count(second),
        saved_sum(first) == saved_sum(second),
        charged_sum(first) == charged_sum(second),
    decreases first.len(),
{
    broadcast use vstd::seq_lib::group_to_multiset_ensures;

    if first.len() == 0 {
        assert(second.to_multiset().len() == 0);
        assert(second =~= Seq::<RequestLog>::empty());
    } else {
        let x = first.last();
        let rest = first.drop_last();
        assert(first =~= rest.push(x));
        assert(first.to_multiset() =~= rest.to_multiset().insert(x));
        assert(second.to_multiset().count(x) > 0);
        assert(second.contains(x));
        let j = second.index_of(x);
        assert(second.remove(j).to_multiset() =~= second.to_multiset().remove(x));
        assert(rest.to_multiset() =~= second.remove(j).to_multiset());
        totals_ignore_order(rest, second.remove(j));
        totals_without(second, j);
        totals_without(first, first.len() - 1);
        assert(first.remove(first.len() - 1) =~= rest);
    }
}

/// The decision on a charge, in plain arithmetic on the agent's fields: a
/// killed agent is blocked; otherwise a charge that takes the spend past the
/// budget is blocked; otherwise the charge warns exactly when the projected
/// spend is at least 80% of a positive budget, and is allowed outright when
/// it is below that share or the budget is zero or less.
pub proof fn charge_decision_in_full(agent: Agent, charge: int)
    ensures
        agent.status == AgentStatus::Killed ==> agent.decision_for(charge) == BudgetDecision::Block,
        agent.status != AgentStatus::Killed && agent.current_spend_cents + charge
            > agent.monthly_budget_cents ==> agent.decision_for(charge) == BudgetDecision::Block,
        agent.status != AgentStatus::Killed && agent.current_spend_cents + charge
            <= agent.monthly_budget_cents && agent.monthly_budget_cents > 0 ==> (agent.decision_for(
            charge,
        ) == BudgetDecision::AllowWithWarning <==> (agent.current_spend_cents + charge) * 100 >= 80
            * agent.monthly_budget_cents),
        agent.status != AgentStatus::Killed && agent.current_spend_cents + charge
            <= agent.monthly_budget_cents && agent.monthly_budget_cents > 0 && (
        agent.current_spend_cents + charge) * 100 < 80 * agent.monthly_budget_cents
            ==> agent.decision_for(charge) == BudgetDecision::Allow,
        agent.status != AgentStatus::Killed && agent.current_spend_cents + charge
            <= agent.monthly_budget_cents && agent.monthly_budget_cents <= 0 ==> agent.decision_for(
            charge,
        ) == BudgetDecision::Allow,
{
}

/// Recording a charge, in plain arithmetic: the spend grows by exactly the
/// charge; an agent that is not killed, with a positive budget, is throttled
/// whenever its new spend is at or past the budget, however far past; in
/// every other case the status does not change.
pub proof fn record_charge_in_full(agent: Agent, charge: int)
    requires
        fits_i64(agent.current_spend_cents + charge),
    ensures
        agent.after_charge(charge).current_spend_cents == agent.current_spend_cents + charge,
        agent.after_charge(charge).id == agent.id,
        agent.after_charge(charge).name == agent.name,
        agent.after_charge(charge).monthly_budget_cents == agent.monthly_budget_cents,
        agent.status != AgentStatus::Killed && agent.monthly_budget_cents > 0
            && agent.current_spend_cents + charge >= agent.monthly_budget_cents
            ==> agent.after_charge(charge).status == AgentStatus::Throttled,
        !(agent.status != AgentStatus::Killed && agent.monthly_budget_cents > 0
            && agent.current_spend_cents + charge >= agent.monthly_budget_cents)
            ==> agent.after_charge(charge).status == agent.status,
{
}

/// The reported spend share is the projected spend as a share of a positive
/// budget, in basis points rounded down: `bps * budget <= spend * 10000 <
/// (bps + 1) * budget`; it is zero for a budget of zero or less.
pub proof fn spend_share_rounds_down(spend: int, budget: int)
    ensures
        budget > 0 ==> spend_bps(spend, budget) * budget <= spend * 10000 < (spend_bps(spend, budget)
            + 1) * budget,
        budget <= 0 ==> spend_bps(spend, budget) == 0,
{
    if budget > 0 {
        let n: int = spend * 10000;
        let q: int = n / budget;
        let r: int = n % budget;
        vstd::arithmetic::div_mod::lemma_fundamental_div_mod(n, budget);
        vstd::arithmetic::div_mod::lemma_mod_bound(n, budget);
        assert(q * budget <= n < (q + 1) * budget) by (nonlinear_arith)
            requires
                n == budget * q + r,
                0 <= r < budget,
        ;
    }
}

/// A kill switch is judged on the agent's projected spend, its current spend
/// plus the charge: with an enabled workflow and a positive budget, the
/// verdict is a block for the tripped switch whenever that projected spend is
/// at least the threshold share of the budget, and otherwise it is the
/// agent's own decision.
pub proof fn kill_switch_judges_projected_spend(agent: Agent, workflow: Workflow, charge: int)
    requires
        workflow.enabled,
        agent.monthly_budget_cents > 0,
    ensures
        (agent.current_spend_cents + charge) * 10000 >= workflow.kill_switch_threshold_bps
            * agent.monthly_budget_cents ==> verdict_of(agent, Some(workflow), charge) == (
        BudgetDecision::Block,
        VerdictReason::WorkflowTripped,
        ),
        (agent.current_spend_cents + charge) * 10000 < workflow.kill_switch_threshold_bps
            * agent.monthly_budget_cents ==> verdict_of(agent, Some(workflow), charge).0
            == agent.decision_for(charge),
{
    trips_exactly_at_threshold(
        workflow,
        agent.current_spend_cents + charge,
        agent.monthly_budget_cents as int,
    );
}

/// The reason that goes with a verdict that no kill switch decided matches
/// the decision: allowed is within budget, a warning is near budget, and a
/// block is for a killed agent or an exceeded budget.
pub proof fn reason_matches_decision(agent: Agent, charge: int)
    ensures
        verdict_of(agent, None, charge).0 == BudgetDecision::Allow ==> verdict_of(agent, None, charge).1
            == VerdictReason::WithinBudget,
        verdict_of(agent, None, charge).0 == BudgetDecision::AllowWithWarning ==> verdict_of(
            agent,
            None,
            charge,
        ).1 == VerdictReason::NearBudget,
        verdict_of(agent, None, charge).0 == BudgetDecision::Block && agent.status
            == AgentStatus::Killed ==> verdict_of(agent, None, charge).1 == VerdictReason::AgentKilled,
        verdict_of(agent, None, charge).0 == BudgetDecision::Block && agent.status
            != AgentStatus::Killed ==> verdict_of(agent, None, charge).1 == VerdictReason::OverBudget,
{
}

/// A single request counts as a cache hit exactly when its tier is not
/// `NoCache`, whatever its other fields, and adds exactly its own savings and
/// charge; with `totals_add_up`, this fixes the totals of every ledger.
pub proof fn single_request_totals(log: RequestLog)
    ensures
        hit_count(seq![log]) == (if log.btl_cache_tier != CacheTier::NoCache {
            1int
        } else {
            0int
        }),
        saved_sum(seq![log]) == log.saved_cents,
        charged_sum(seq![log]) == log.customer_charge_cents,
{
    let one: Seq<RequestLog> = seq![log];
    assert(one.drop_last() =~= Seq::<RequestLog>::empty());
    assert(one.last() == log);
    assert(hit_count(one.drop_last()) == 0);
    assert(saved_sum(one.drop_last()) == 0);
    assert(charged_sum(one.drop_last()) == 0);
    assert(hit_count(one) == hit_count(one.drop_last()) + (if log.btl_cache_tier != CacheTier::NoCache {
        1nat
    } else {
        0nat
    }));
    assert(saved_sum(one) == saved_sum(one.drop_last()) + log.saved_cents);
    assert(charged_sum(one) == charged_sum(one.drop_last()) + log.customer_charge_cents);
}

/// Appending a request to a ledger adds one to the hits exactly when a cache
/// answered it, and adds its savings and charge to the sums.
pub proof fn appending_a_request(logs: Seq<RequestLog>, log: RequestLog)
    ensures
        hit_count(logs.push(log)) == hit_count(logs) + (if log.btl_cache_tier != CacheTier::NoCache {
            1int
        } else {
            0int
        }),
        saved_sum(logs.push(log)) == saved_sum(logs) + log.saved_cents,
        charged_sum(logs.push(log)) == charged_sum(logs) + log.customer_charge_cents,
{
    single_request_totals(log);
    totals_add_up(logs, seq![log]);
    assert(logs + seq![log] =~= logs.push(log));
}

/// A response that names a model is logged under exactly that name, for
/// every name; only a response without one is logged as "unknown".
pub proof fn named_model_is_logged(model: Seq<char>)
    ensures
        model_or_unknown(Some(model)) == model,
        model_or_unknown(None) == "unknown"@,
{
}

/// A workflow's part in a verdict, in plain arithmetic: an enabled workflow
/// blocks for its tripped switch when the projected spend (current spend plus
/// the charge) reaches its threshold share of a positive budget, or, for a
/// budget of zero or less, when its threshold is zero or less; in every other
/// case the verdict is the one without a workflow.
pub proof fn workflow_verdict_in_full(agent: Agent, workflow: Workflow, charge: int)
    ensures
        ({
            let projected = agent.current_spend_cents + charge;
            let budget = agent.monthly_budget_cents as int;
            let tripped = workflow.enabled && if budget > 0 {
                projected * 10000 >= workflow.kill_switch_threshold_bps * budget
            } else {
                0 >= workflow.kill_switch_threshold_bps
            };
            verdict_of(agent, Some(workflow), charge) == if tripped {
                (BudgetDecision::Block, VerdictReason::WorkflowTripped)
            } else {
                verdict_of(agent, None, charge)
            }
        }),
{
    if agent.monthly_budget_cents > 0 {
        trips_exactly_at_threshold(
            workflow,
            agent.current_spend_cents + charge,
            agent.monthly_budget_cents as int,
        );
    }
}

/// Killing an agent changes its status to killed and nothing else.
pub proof fn kill_changes_only_status(agent: Agent)
    ensures
        agent.killed().status == AgentStatus::Killed,
        agent.killed().id == agent.id,
        agent.killed().name == agent.name,
        agent.killed().monthly_budget_cents == agent.monthly_budget_cents,
        agent.killed().current_spend_cents == agent.current_spend_cents,
{
}

/// A stored status name that is neither "throttled" nor "killed" reads as
/// active.
pub proof fn unknown_status_reads_active(name: Seq<char>)
    requires
        name != "throttled"@,
        name != "killed"@,
    ensures
        status_of_name(name) == AgentStatus::Active,
{
}

/// A header value or stored tier name other than the two cache names reads
/// as no cache.
pub proof fn unknown_tier_reads_no_cache(name: Seq<char>)
    requires
        name != "exact_response_cache"@,
        name != "semantic_cache"@,
    ensures
        tier_of_name(name) == CacheTier::NoCache,
{
}

} // verus!
