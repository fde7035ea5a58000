use vstd::prelude::*;
use uuid::Uuid;
use crate::ident::{
    new_random_uuid, parse_uuid, uuid_display, uuid_from_u128, uuid_of_u128, uuid_parse, uuid_text,
};
use crate::text::str_eq;

verus! {

/// Where an agent stands with respect to its budget.
#[derive(Debug, Clone, Copy, PartialEq, Eq, Structural)]
pub enum AgentStatus {
    Active,
    Throttled,
    Killed,
}

/// The answer to a prospective charge.
#[derive(Debug, Clone, Copy, PartialEq, Eq, Structural)]
pub enum BudgetDecision {
    Allow,
    AllowWithWarning,
    Block,
}

/// Share of the monthly budget, in percent, from which an allowed charge
/// carries a warning.
pub const WARNING_THRESHOLD_PCT: i64 = 80;

/// Whether an amount fits in an `i64`.
pub open spec fn fits_i64(x: int) -> bool {
    i64::MIN <= x <= i64::MAX
}

/// Whether `spend` has reached a positive `budget` (a spend share of 100%
/// or more); a budget of zero or less is never reached.
pub open spec fn budget_reached(spend: int, budget: int) -> bool {
    budget > 0 && spend >= budget
}

/// The decision on a charge of `charge` cents for an agent with the given
/// status, monthly budget and current spend, in exact arithmetic:
/// a killed agent is blocked; so is a charge that takes the spend past the
/// budget; an allowed charge warns once the projected spend is at least
/// `WARNING_THRESHOLD_PCT` percent of a positive budget.
pub open spec fn charge_decision(status: AgentStatus, budget: int, spend: int, charge: int) -> BudgetDecision {
    if status == AgentStatus::Killed {
        BudgetDecision::Block
    } else if spend + charge > budget {
        BudgetDecision::Block
    } else if budget > 0 && (spend + charge) * 100 >= WARNING_THRESHOLD_PCT * budget {
        BudgetDecision::AllowWithWarning
    } else {
        BudgetDecision::Allow
    }
}

/// How strict a decision is: `Allow` < `AllowWithWarning` < `Block`.
pub open spec fn decision_rank(d: BudgetDecision) -> int {
    match d {
        BudgetDecision::Allow => 0,
        BudgetDecision::AllowWithWarning => 1,
        BudgetDecision::Block => 2,
    }
}

/// The name under which a status is stored.
pub open spec fn status_name(s: AgentStatus) -> Seq<char> {
    match s {
        AgentStatus::Active => "active"@,
        AgentStatus::Throttled => "throttled"@,
        AgentStatus::Killed => "killed"@,
    }
}

/// The status that a stored name stands for; an unknown name reads as active.
pub open spec fn status_of_name(s: Seq<char>) -> AgentStatus {
    if s == "throttled"@ {
        AgentStatus::Throttled
    } else if s == "killed"@ {
        AgentStatus::Killed
    } else {
        AgentStatus::Active
    }
}

/// An agent with a monthly budget, in cents, and what it has spent so far.
#[derive(Debug, Clone)]
pub struct Agent {
    pub id: Uuid,
    pub name: String,
    pub monthly_budget_cents: i64,
    pub current_spend_cents: i64,
    pub status: AgentStatus,
}

impl Agent {
    /// The decision that `evaluate_charge` gives for a charge.
    pub open spec fn decision_for(self, charge: int) -> BudgetDecision {
        charge_decision(self.status, self.monthly_budget_cents as int, self.current_spend_cents as int, charge)
    }

    /// The agent after a charge of `charge` cents is recorded: the spend
    /// grows by the charge, and a spend that reaches a positive budget
    /// throttles an agent that is not killed; a killed agent stays killed.
    pub open spec fn after_charge(self, charge: int) -> Agent {
        let spend: int = self.current_spend_cents + charge;
        Agent {
            current_spend_cents: spend as i64,
            status: if self.status != AgentStatus::Killed && budget_reached(
                spend,
                self.monthly_budget_cents as int,
            ) {
                AgentStatus::Throttled
            } else {
                self.status
            },
            ..self
        }
    }

    /// The agent once killed.
    pub open spec fn killed(self) -> Agent {
        Agent { status: AgentStatus::Killed, ..self }
    }

    /// A new active agent with the given id and nothing spent.
    pub fn with_id(id: Uuid, name: String, monthly_budget_cents: i64) -> (a: Agent)
        ensures
            a.id == id,
            a.name@ == name@,
            a.monthly_budget_cents == monthly_budget_cents,
            a.current_spend_cents == 0,
            a.status == AgentStatus::Active,
    {
        Agent { id, name, monthly_budget_cents, current_spend_cents: 0, status: AgentStatus::Active }
    }

    /// A new active agent with nothing spent and a fresh random id.
    pub fn new(name: String, monthly_budget_cents: i64) -> (a: Agent)
        ensures
            a.name@ == name@,
            a.monthly_budget_cents == monthly_budget_cents,
            a.current_spend_cents == 0,
            a.status == AgentStatus::Active,
    {
        Agent::with_id(new_random_uuid(), name, monthly_budget_cents)
    }

    /// Decides on a prospective charge without recording it.
    pub fn evaluate_charge(&self, prospective_charge_cents: i64) -> (d: BudgetDecision)
        requires
            self.status != AgentStatus::Killed ==> fits_i64(
                self.current_spend_cents + prospective_charge_cents,
            ),
        ensures
            d == self.decision_for(prospective_charge_cents as int),
    {
        if self.status == AgentStatus::Killed {
            return BudgetDecision::Block;
        }
        let projected: i64 = self.current_spend_cents + prospective_charge_cents;
        if projected > self.monthly_budget_cents {
            return BudgetDecision::Block;
        }
        if self.monthly_budget_cents > 0 && (projected as i128) * 100 >= (WARNING_THRESHOLD_PCT as i128)
            * (self.monthly_budget_cents as i128) {
            BudgetDecision::AllowWithWarning
        } else {
            BudgetDecision::Allow
        }
    }

    /// Adds a charge to the spend; an agent whose spend reaches a positive
    /// budget becomes throttled, unless it is killed, which it stays.
    pub fn record_charge(&mut self, charge_cents: i64)
        requires
            fits_i64(old(self).current_spend_cents + charge_cents),
        ensures
            *final(self) == old(self).after_charge(charge_cents as int),
    {
        self.current_spend_cents = self.current_spend_cents + charge_cents;
        if self.status != AgentStatus::Killed && self.monthly_budget_cents > 0
            && self.current_spend_cents >= self.monthly_budget_cents {
            self.status = AgentStatus::Throttled;
        }
    }

    /// Marks the agent as killed.
    pub fn kill(&mut self)
        ensures
            *final(self) == old(self).killed(),
    {
        self.status = AgentStatus::Killed;
    }
}

/// The name under which a status is stored.
pub fn status_to_str(s: AgentStatus) -> (r: &'static str)
    ensures
        r@ == status_name(s),
{
    match s {
        AgentStatus::Active => "active",
        AgentStatus::Throttled => "throttled",
        AgentStatus::Killed => "killed",
    }
}

/// Reads a stored status name; an unknown name reads as active.
pub fn status_from_str(s: &str) -> (r: AgentStatus)
    ensures
        r == status_of_name(s@),
{
    if str_eq(s, "throttled") {
        AgentStatus::Throttled
    } else if str_eq(s, "killed") {
        AgentStatus::Killed
    } else {
        AgentStatus::Active
    }
}

/// The identifier that a stored id reads as: the parsed one, or the nil
/// identifier where the text does not parse.
pub open spec fn id_of_text(s: Seq<char>) -> Uuid {
    match uuid_parse(s) {
        Some(u) => u,
        None => uuid_of_u128(0),
    }
}

/// Reads a stored identifier, falling back to the nil identifier.
pub fn uuid_or_nil(s: &str) -> (r: Uuid)
    ensures
        r == id_of_text(s@),
{
    match parse_uuid(s) {
        Some(u) => u,
        None => uuid_from_u128(0),
    }
}

/// Builds an agent from the columns of a stored row.
pub fn agent_from_row(
    id: &str,
    name: String,
    monthly_budget_cents: i64,
    current_spend_cents: i64,
    status: &str,
) -> (a: Agent)
    ensures
        a.id == id_of_text(id@),
        a.name@ == name@,
        a.monthly_budget_cents == monthly_budget_cents,
        a.current_spend_cents == current_spend_cents,
        a.status == status_of_name(status@),
{
    Agent {
        id: uuid_or_nil(id),
        name,
        monthly_budget_cents,
        current_spend_cents,
        status: status_from_str(status),
    }
}

/// The columns under which an agent is stored.
pub struct AgentColumns {
    pub id: String,
    pub name: String,
    pub monthly_budget_cents: i64,
    pub current_spend_cents: i64,
    pub status: &'static str,
}

/// The columns under which an agent is stored: the id in its text form and
/// the status by name.
pub fn agent_columns(a: &Agent) -> (c: AgentColumns)
    ensures
        c.id@ == uuid_display(a.id),
        uuid_parse(c.id@) == Some(a.id),
        c.name@ == a.name@,
        c.monthly_budget_cents == a.monthly_budget_cents,
        c.current_spend_cents == a.current_spend_cents,
        c.status@ == status_name(a.status),
{
    AgentColumns {
        id: uuid_text(&a.id),
        name: a.name.clone(),
        monthly_budget_cents: a.monthly_budget_cents,
        current_spend_cents: a.current_spend_cents,
        status: status_to_str(a.status),
    }
}

} // verus!
