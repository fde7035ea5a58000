use vstd::prelude::*;
use uuid::Uuid;
use crate::agent::{id_of_text, uuid_or_nil};
use crate::ident::new_random_uuid;

verus! {

/// A workflow of an agent with a kill switch: once the agent's projected
/// spend reaches the threshold share of its monthly budget, charges made
/// for the workflow are blocked.
///
/// Shares of a budget are counted in basis points: hundredths of a percent.
#[derive(Debug, Clone)]
pub struct Workflow {
    pub id: Uuid,
    pub agent_id: Uuid,
    pub name: String,
    pub kill_switch_threshold_bps: i64,
    pub enabled: bool,
}

impl Workflow {
    /// Whether the kill switch trips at a spend share of `agent_spend_bps`.
    pub open spec fn trips_at(self, agent_spend_bps: int) -> bool {
        self.enabled && agent_spend_bps >= self.kill_switch_threshold_bps
    }

    /// A new, enabled workflow with the given id.
    pub fn with_id(id: Uuid, agent_id: Uuid, name: String, kill_switch_threshold_bps: i64) -> (w: Workflow)
        ensures
            w.id == id,
            w.agent_id == agent_id,
            w.name@ == name@,
            w.kill_switch_threshold_bps == kill_switch_threshold_bps,
            w.enabled,
    {
        Workflow { id, agent_id, name, kill_switch_threshold_bps, enabled: true }
    }

    /// A new, enabled workflow with a fresh random id.
    pub fn new(agent_id: Uuid, name: String, kill_switch_threshold_bps: i64) -> (w: Workflow)
        ensures
            w.agent_id == agent_id,
            w.name@ == name@,
            w.kill_switch_threshold_bps == kill_switch_threshold_bps,
            w.enabled,
    {
        Workflow::with_id(new_random_uuid(), agent_id, name, kill_switch_threshold_bps)
    }

    /// Whether the kill switch trips at the given spend share: only an
    /// enabled workflow trips, and only at or above its threshold.
    pub fn should_trip(&self, agent_spend_bps: i128) -> (r: bool)
        ensures
            r == self.trips_at(agent_spend_bps as int),
    {
        self.enabled && agent_spend_bps >= self.kill_switch_threshold_bps as i128
    }

    /// Turns the kill switch off.
    pub fn disable(&mut self)
        ensures
            !final(self).enabled,
            final(self).id == old(self).id,
            final(self).agent_id == old(self).agent_id,
            final(self).name == old(self).name,
            final(self).kill_switch_threshold_bps == old(self).kill_switch_threshold_bps,
    {
        self.enabled = false;
    }
}

/// Builds a workflow from the columns of a stored row; a stored `enabled`
/// other than zero reads as enabled.
pub fn workflow_from_row(
    id: &str,
    agent_id: &str,
    name: String,
    kill_switch_threshold_bps: i64,
    enabled: i64,
) -> (w: Workflow)
    ensures
        w.id == id_of_text(id@),
        w.agent_id == id_of_text(agent_id@),
        w.name@ == name@,
        w.kill_switch_threshold_bps == kill_switch_threshold_bps,
        w.enabled == (enabled != 0),
{
    Workflow {
        id: uuid_or_nil(id),
        agent_id: uuid_or_nil(agent_id),
        name,
        kill_switch_threshold_bps,
        enabled: enabled != 0,
    }
}

} // verus!
