//! Budget enforcement for metered AI agents: spend accounting, charge
//! decisions, workflow kill switches and request ledgers.

mod text;
pub mod ident;
pub mod clock;
pub mod agent;
pub mod workflow;
pub mod budget;
pub mod request_log;
pub mod proxy;
pub mod auth;
pub mod laws;

pub use agent::{Agent, AgentStatus, BudgetDecision};
pub use budget::{evaluate, BudgetVerdict, VerdictReason};
pub use clock::Timestamp;
pub use proxy::{preflight, settle, BtlTelemetry, CreateAgentRequest, Settlement};
pub use request_log::{summarize, CacheTier, LedgerSummary, RequestLog};
pub use workflow::Workflow;
