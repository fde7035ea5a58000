use vstd::prelude::*;
use uuid::Uuid;
use crate::agent::{fits_i64, id_of_text, uuid_or_nil};
use crate::clock::{parse_rfc3339, rfc3339_instant, rfc3339_text, rfc3339_text_of, Timestamp};
use crate::ident::{new_random_uuid, parse_uuid, uuid_display, uuid_parse, uuid_text};
use crate::text::str_eq;

verus! {

/// Which cache, if any, answered a request.
#[derive(Debug, Clone, Copy, PartialEq, Eq, Structural)]
pub enum CacheTier {
    ExactResponseCache,
    SemanticCache,
    NoCache,
}

/// The tier that a header value or stored name stands for; anything
/// unknown reads as no cache.
pub open spec fn tier_of_name(s: Seq<char>) -> CacheTier {
    if s == "exact_response_cache"@ {
        CacheTier::ExactResponseCache
    } else if s == "semantic_cache"@ {
        CacheTier::SemanticCache
    } else {
        CacheTier::NoCache
    }
}

/// The name under which a tier is stored.
pub open spec fn tier_name(t: CacheTier) -> Seq<char> {
    match t {
        CacheTier::ExactResponseCache => "exact_response_cache"@,
        CacheTier::SemanticCache => "semantic_cache"@,
        CacheTier::NoCache => "no_cache"@,
    }
}

impl CacheTier {
    /// Reads the cache-tier header of a response.
    pub fn from_header(raw: &str) -> (t: CacheTier)
        ensures
            t == tier_of_name(raw@),
    {
        cache_tier_from_str(raw)
    }

    /// Whether a cache answered.
    pub fn is_cache_hit(&self) -> (r: bool)
        ensures
            r == (*self != CacheTier::NoCache),
    {
        !matches!(self, CacheTier::NoCache)
    }
}

/// The name under which a tier is stored.
pub fn cache_tier_to_str(t: CacheTier) -> (r: &'static str)
    ensures
        r@ == tier_name(t),
{
    match t {
        CacheTier::ExactResponseCache => "exact_response_cache",
        CacheTier::SemanticCache => "semantic_cache",
        CacheTier::NoCache => "no_cache",
    }
}

/// Reads a stored tier name; an unknown name reads as no cache.
pub fn cache_tier_from_str(s: &str) -> (t: CacheTier)
    ensures
        t == tier_of_name(s@),
{
    if str_eq(s, "exact_response_cache") {
        CacheTier::ExactResponseCache
    } else if str_eq(s, "semantic_cache") {
        CacheTier::SemanticCache
    } else {
        CacheTier::NoCache
    }
}

/// One proxied request, with what it cost and what the cache saved.
#[derive(Debug)]
pub struct RequestLog {
    pub id: Uuid,
    pub agent_id: Uuid,
    pub workflow_id: Option<Uuid>,
    pub model: String,
    pub btl_cache_tier: CacheTier,
    pub benchmark_cost_cents: i64,
    pub customer_charge_cents: i64,
    pub saved_cents: i64,
    pub latency_ms: u32,
    pub ts: Timestamp,
}

impl RequestLog {
    /// A log entry with the given id and time stamp.
    pub fn with_id_and_time(
        id: Uuid,
        ts: Timestamp,
        agent_id: Uuid,
        workflow_id: Option<Uuid>,
        model: String,
        btl_cache_tier: CacheTier,
        benchmark_cost_cents: i64,
        customer_charge_cents: i64,
        saved_cents: i64,
        latency_ms: u32,
    ) -> (l: RequestLog)
        ensures
            l.id == id,
            l.ts == ts,
            l.agent_id == agent_id,
            l.workflow_id == workflow_id,
            l.model@ == model@,
            l.btl_cache_tier == btl_cache_tier,
            l.benchmark_cost_cents == benchmark_cost_cents,
            l.customer_charge_cents == customer_charge_cents,
            l.saved_cents == saved_cents,
            l.latency_ms == latency_ms,
    {
        RequestLog {
            id,
            agent_id,
            workflow_id,
            model,
            btl_cache_tier,
            benchmark_cost_cents,
            customer_charge_cents,
            saved_cents,
            latency_ms,
            ts,
        }
    }

    /// A log entry with a fresh random id, stamped with `now`, the current
    /// time as the caller read it.
    pub fn new(
        agent_id: Uuid,
        workflow_id: Option<Uuid>,
        model: String,
        btl_cache_tier: CacheTier,
        benchmark_cost_cents: i64,
        customer_charge_cents: i64,
        saved_cents: i64,
        latency_ms: u32,
        now: Timestamp,
    ) -> (l: RequestLog)
        ensures
            l.ts == now,
            l.agent_id == agent_id,
            l.workflow_id == workflow_id,
            l.model@ == model@,
            l.btl_cache_tier == btl_cache_tier,
            l.benchmark_cost_cents == benchmark_cost_cents,
            l.customer_charge_cents == customer_charge_cents,
            l.saved_cents == saved_cents,
            l.latency_ms == latency_ms,
    {
        RequestLog::with_id_and_time(
            new_random_uuid(),
            now,
            agent_id,
            workflow_id,
            model,
            btl_cache_tier,
            benchmark_cost_cents,
            customer_charge_cents,
            saved_cents,
            latency_ms,
        )
    }
}

/// The optional identifier that a stored optional id reads as: one that does
/// not parse reads as none.
pub open spec fn opt_id_of_text(s: Option<Seq<char>>) -> Option<Uuid> {
    match s {
        Some(t) => uuid_parse(t),
        None => None,
    }
}

/// Builds a log entry from the columns of a stored row. An id that does not
/// parse reads as the nil identifier, a workflow id that does not parse as
/// none, a latency is cut to its low 32 bits, and a timestamp that does not
/// parse is replaced by `now`, the current time as the caller read it.
pub fn request_log_from_row(
    id: &str,
    agent_id: &str,
    workflow_id: Option<&str>,
    model: String,
    btl_cache_tier: &str,
    benchmark_cost_cents: i64,
    customer_charge_cents: i64,
    saved_cents: i64,
    latency_ms: i64,
    ts: &str,
    now: Timestamp,
) -> (l: RequestLog)
    ensures
        l.id == id_of_text(id@),
        l.agent_id == id_of_text(agent_id@),
        l.workflow_id == opt_id_of_text(
            match workflow_id {
                Some(w) => Some(w@),
                None => None,
            },
        ),
        l.model@ == model@,
        l.btl_cache_tier == tier_of_name(btl_cache_tier@),
        l.benchmark_cost_cents == benchmark_cost_cents,
        l.customer_charge_cents == customer_charge_cents,
        l.saved_cents == saved_cents,
        l.latency_ms == latency_ms as u32,
        l.ts == match rfc3339_instant(ts@) {
            Some(t) => t,
            None => now,
        },
{
    let workflow_id = match workflow_id {
        Some(w) => parse_uuid(w),
        None => None,
    };
    let ts = match parse_rfc3339(ts) {
        Some(t) => t,
        None => now,
    };
    RequestLog {
        id: uuid_or_nil(id),
        agent_id: uuid_or_nil(agent_id),
        workflow_id,
        model,
        btl_cache_tier: cache_tier_from_str(btl_cache_tier),
        benchmark_cost_cents,
        customer_charge_cents,
        saved_cents,
        latency_ms: latency_ms as u32,
        ts,
    }
}

/// The columns under which a log entry is stored.
pub struct LogColumns {
    pub id: String,
    pub agent_id: String,
    pub workflow_id: Option<String>,
    pub model: String,
    pub btl_cache_tier: &'static str,
    pub benchmark_cost_cents: i64,
    pub customer_charge_cents: i64,
    pub saved_cents: i64,
    pub latency_ms: i64,
    /// The time stamp in RFC 3339, where chrono can represent the instant.
    pub ts: Option<String>,
}

/// The columns under which a log entry is stored: ids in their text form,
/// the tier by name, the latency widened, the time stamp in RFC 3339.
pub fn log_columns(l: &RequestLog) -> (c: LogColumns)
    ensures
        c.id@ == uuid_display(l.id),
        uuid_parse(c.id@) == Some(l.id),
        c.agent_id@ == uuid_display(l.agent_id),
        uuid_parse(c.agent_id@) == Some(l.agent_id),
        c.workflow_id is Some == l.workflow_id is Some,
        l.workflow_id is Some ==> c.workflow_id->0@ == uuid_display(l.workflow_id->0) && uuid_parse(
            c.workflow_id->0@,
        ) == l.workflow_id,
        c.model@ == l.model@,
        c.btl_cache_tier@ == tier_name(l.btl_cache_tier),
        c.benchmark_cost_cents == l.benchmark_cost_cents,
        c.customer_charge_cents == l.customer_charge_cents,
        c.saved_cents == l.saved_cents,
        c.latency_ms == l.latency_ms as i64,
        match c.ts {
            Some(s) => rfc3339_text_of(l.ts) == Some(s@),
            None => rfc3339_text_of(l.ts) is None,
        },
{
    let workflow_id = match &l.workflow_id {
        Some(w) => Some(uuid_text(w)),
        None => None,
    };
    LogColumns {
        id: uuid_text(&l.id),
        agent_id: uuid_text(&l.agent_id),
        workflow_id,
        model: l.model.clone(),
        btl_cache_tier: cache_tier_to_str(l.btl_cache_tier),
        benchmark_cost_cents: l.benchmark_cost_cents,
        customer_charge_cents: l.customer_charge_cents,
        saved_cents: l.saved_cents,
        latency_ms: l.latency_ms as i64,
        ts: rfc3339_text(l.ts),
    }
}

/// Totals over a ledger of requests.
#[derive(Debug, Clone, Copy)]
pub struct LedgerSummary {
    pub total_requests: u64,
    pub cache_hits: u64,
    pub total_saved_cents: i64,
    pub total_charged_cents: i64,
}

/// How many of the requests a cache answered.
pub open spec fn hit_count(logs: Seq<RequestLog>) -> nat
    decreases logs.len(),
{
    if logs.len() == 0 {
        0
    } else {
        hit_count(logs.drop_last()) + if logs.last().btl_cache_tier != CacheTier::NoCache {
            1nat
        } else {
            0nat
        }
    }
}

/// What the cache saved over the requests, in cents.
pub open spec fn saved_sum(logs: Seq<RequestLog>) -> int
    decreases logs.len(),
{
    if logs.len() == 0 {
        0
    } else {
        saved_sum(logs.drop_last()) + logs.last().saved_cents
    }
}

/// What the customer was charged over the requests, in cents.
pub open spec fn charged_sum(logs: Seq<RequestLog>) -> int
    decreases logs.len(),
{
    if logs.len() == 0 {
        0
    } else {
        charged_sum(logs.drop_last()) + logs.last().customer_charge_cents
    }
}

/// Whether every running total, taken from the first request on, of the
/// savings and of the charges fits in an `i64`.
pub open spec fn running_totals_fit(logs: Seq<RequestLog>) -> bool {
    forall|k: int|
        0 <= k <= logs.len() ==> fits_i64(#[trigger] saved_sum(logs.take(k))) && fits_i64(
            charged_sum(logs.take(k)),
        )
}

/// Sums up a ledger: how many requests, how many cache hits, and the total
/// savings and charges.
pub fn summarize(logs: &[RequestLog]) -> (s: LedgerSummary)
    requires
        running_totals_fit(logs@),
    ensures
        s.total_requests == logs@.len(),
        s.cache_hits == hit_count(logs@),
        s.total_saved_cents == saved_sum(logs@),
        s.total_charged_cents == charged_sum(logs@),
        s.cache_hits <= s.total_requests,
{
    let n: usize = logs.len();
    let mut hits: u64 = 0;
    let mut saved: i64 = 0;
    let mut charged: i64 = 0;
    let mut i: usize = 0;
    while i < n
        invariant
            n == logs@.len(),
            i <= n,
            running_totals_fit(logs@),
            hits == hit_count(logs@.take(i as int)),
            hits <= i,
            saved == saved_sum(logs@.take(i as int)),
            charged == charged_sum(logs@.take(i as int)),
        decreases n - i,
    {
        let log = &logs[i];
        proof {
            assert(logs@.take(i + 1).drop_last() =~= logs@.take(i as int));
            assert(logs@.take(i + 1).last() == logs@[i as int]);
            assert(fits_i64(saved_sum(logs@.take(i + 1))));
            assert(fits_i64(charged_sum(logs@.take(i + 1))));
        }
        if log.btl_cache_tier.is_cache_hit() {
            hits = hits + 1;
        }
        saved = saved + log.saved_cents;
        charged = charged + log.customer_charge_cents;
        i = i + 1;
    }
    proof {
        assert(logs@.take(n as int) =~= logs@);
    }
    LedgerSummary {
        total_requests: n as u64,
        cache_hits: hits,
        total_saved_cents: saved,
        total_charged_cents: charged,
    }
}

} // verus!
