//! Queries over the stored history of task events: the SQL text for a history
//! query, its paging, and the statement that marks events as processed.
//!
//! The SQL compares instants in their RFC 3339 text form, as they are stored.

use vstd::prelude::*;
use crate::text::{append_str, decimal, decimal_text, join_seq, join_strings, owned, views_of};
use crate::clock::Timestamp;

verus! {

/// The RFC 3339 text of the instant `secs` seconds and `nanos` nanoseconds after
/// the Unix epoch, as `chrono::DateTime::from_timestamp(secs, nanos)` followed by
/// `to_rfc3339` gives it, or `None` when chrono cannot represent the instant.
pub uninterp spec fn rfc3339_text(secs: i64, nanos: u32) -> Option<Seq<char>>;

/// Calls `chrono::DateTime::from_timestamp` and `to_rfc3339` on the result.
/// Claims that the text is `rfc3339_text(t.secs, t.nanos)`.
#[verifier::external_body]
fn rfc3339_of(t: Timestamp) -> (r: Option<String>)
    ensures
        match rfc3339_text(t.secs, t.nanos) {
            Some(x) => r matches Some(s) && s@ == x,
            None => r is None,
        },
{
    match chrono::DateTime::from_timestamp(t.secs, t.nanos) {
        Some(d) => Some(d.to_rfc3339()),
        None => None,
    }
}

/// Query parameters for event history.
#[derive(Debug, Clone)]
pub struct EventHistoryQuery {
    /// Only events at or after this time.
    pub since: Option<Timestamp>,
    /// Only events at or before this time.
    pub until: Option<Timestamp>,
    /// Only events of these kinds.
    pub event_types: Option<Vec<String>>,
    /// Only events of this planner.
    pub planner_id: Option<String>,
    /// Only events of the given task.
    pub task_id: Option<String>,
    /// At most this many events (100 when absent).
    pub limit: Option<u32>,
    /// Skip this many events (none when absent).
    pub offset: Option<u32>,
}

impl Default for EventHistoryQuery {
    fn default() -> (q: Self)
        ensures
            q.since is None && q.until is None && q.event_types is None && q.planner_id is None
                && q.task_id is None && q.limit is None && q.offset is None,
    {
        EventHistoryQuery { since: None, until: None, event_types: None, planner_id: None, task_id: None, limit: None, offset: None }
    }
}

/// The select statement without filters.
pub open spec fn history_select_base() -> Seq<char> {
    "SELECT id, event_type, task_id, planner_id, worker_id, payload, timestamp\n\t\t\t FROM ma_task_events WHERE project_run_id = ?"@
}

/// The count statement without filters.
pub open spec fn history_count_base() -> Seq<char> {
    "SELECT COUNT(*) as total FROM ma_task_events WHERE project_run_id = ?"@
}

/// A time clause: ` AND timestamp <op> '<time>'`, or nothing without a time (or for a
/// time outside chrono's range).
pub open spec fn time_clause(op: Seq<char>, t: Option<Timestamp>) -> Seq<char> {
    match t {
        Some(i) => match rfc3339_text(i.secs, i.nanos) {
            Some(text) => " AND timestamp "@ + op + " '"@ + text + "'"@,
            None => Seq::empty(),
        },
        None => Seq::empty(),
    }
}

/// Each event kind in single quotes.
pub open spec fn quoted_all(types: Seq<Seq<char>>) -> Seq<Seq<char>> {
    types.map_values(|t: Seq<char>| "'"@ + t + "'"@)
}

/// An equality clause ` AND <column> = '<value>'`, or nothing without a value.
pub open spec fn equals_clause(column: Seq<char>, v: Option<String>) -> Seq<char> {
    match v {
        Some(x) => " AND "@ + column + " = '"@ + x@ + "'"@,
        None => Seq::empty(),
    }
}

/// The filter clauses of a history query, in the order since, until, kinds, planner, task.
pub open spec fn history_filters(q: EventHistoryQuery) -> Seq<char> {
    time_clause(">="@, q.since)
        + time_clause("<="@, q.until)
        + match q.event_types {
            Some(types) => " AND event_type IN ("@ + join_seq(quoted_all(views_of(types@)), ","@) + ")"@,
            None => Seq::empty(),
        }
        + equals_clause("planner_id"@, q.planner_id)
        + equals_clause("task_id"@, q.task_id)
}

/// The limit of a history query: 100 when absent.
pub open spec fn history_limit(q: EventHistoryQuery) -> u32 {
    match q.limit {
        Some(l) => l,
        None => 100,
    }
}

/// The offset of a history query: 0 when absent.
pub open spec fn history_offset(q: EventHistoryQuery) -> u32 {
    match q.offset {
        Some(o) => o,
        None => 0,
    }
}

fn time_clause_text(op: &str, t: Option<Timestamp>) -> (r: String)
    ensures
        r@ == time_clause(op@, t),
{
    match t {
        Some(i) => match rfc3339_of(i) {
            Some(text) => {
                let mut r = owned(" AND timestamp ");
                append_str(&mut r, op);
                append_str(&mut r, " '");
                append_str(&mut r, text.as_str());
                append_str(&mut r, "'");
                r
            },
            None => String::new(),
        },
        None => String::new(),
    }
}

fn equals_clause_text(column: &str, v: &Option<String>) -> (r: String)
    ensures
        r@ == equals_clause(column@, *v),
{
    match v {
        Some(x) => {
            let mut r = owned(" AND ");
            append_str(&mut r, column);
            append_str(&mut r, " = '");
            append_str(&mut r, x.as_str());
            append_str(&mut r, "'");
            r
        },
        None => String::new(),
    }
}

fn quote_each(types: &Vec<String>) -> (r: Vec<String>)
    ensures
        views_of(r@) == quoted_all(views_of(types@)),
{
    let mut r: Vec<String> = Vec::new();
    let mut i: usize = 0;
    while i < types.len()
        invariant
            i <= types@.len(),
            views_of(r@) == quoted_all(views_of(types@)).subrange(0, i as int),
        decreases types.len() - i,
    {
        let mut q = owned("'");
        append_str(&mut q, types[i].as_str());
        append_str(&mut q, "'");
        let ghost before = r@;
        r.push(q);
        proof {
            assert(views_of(r@) =~= views_of(before).push(q@));
            assert(quoted_all(views_of(types@))[i as int] == "'"@ + types@[i as int]@ + "'"@);
            assert(quoted_all(views_of(types@)).subrange(0, i + 1)
                =~= quoted_all(views_of(types@)).subrange(0, i as int).push(q@));
        }
        i = i + 1;
    }
    assert(quoted_all(views_of(types@)).subrange(0, types@.len() as int) =~= quoted_all(views_of(types@)));
    r
}

/// The filter clauses of a history query (see `history_filters`).
pub fn history_filter_clauses(query: &EventHistoryQuery) -> (r: String)
    ensures
        r@ == history_filters(*query),
{
    let mut r = time_clause_text(">=", query.since);
    let since_part = time_clause_text("<=", query.until);
    append_str(&mut r, since_part.as_str());
    match &query.event_types {
        Some(types) => {
            let quoted = quote_each(types);
            let joined = join_strings(&quoted, ",");
            append_str(&mut r, " AND event_type IN (");
            append_str(&mut r, joined.as_str());
            append_str(&mut r, ")");
        },
        None => {},
    }
    let p = equals_clause_text("planner_id", &query.planner_id);
    append_str(&mut r, p.as_str());
    let t = equals_clause_text("task_id", &query.task_id);
    append_str(&mut r, t.as_str());
    r
}

/// The statement that selects one page of a history query: the filters, oldest
/// first, then the limit and offset.
pub fn history_select_sql(query: &EventHistoryQuery) -> (r: String)
    ensures
        r@ == history_select_base() + history_filters(*query) + " ORDER BY timestamp ASC"@
            + " LIMIT "@ + decimal(history_limit(*query) as nat) + " OFFSET "@
            + decimal(history_offset(*query) as nat),
{
    let mut r = owned("SELECT id, event_type, task_id, planner_id, worker_id, payload, timestamp\n\t\t\t FROM ma_task_events WHERE project_run_id = ?");
    let filters = history_filter_clauses(query);
    append_str(&mut r, filters.as_str());
    append_str(&mut r, " ORDER BY timestamp ASC");
    let limit: u32 = match query.limit {
        Some(l) => l,
        None => 100,
    };
    let offset: u32 = match query.offset {
        Some(o) => o,
        None => 0,
    };
    append_str(&mut r, " LIMIT ");
    let l = decimal_text(limit as u64);
    append_str(&mut r, l.as_str());
    append_str(&mut r, " OFFSET ");
    let o = decimal_text(offset as u64);
    append_str(&mut r, o.as_str());
    r
}

/// The statement that counts all events matching a history query.
pub fn history_count_sql(query: &EventHistoryQuery) -> (r: String)
    ensures
        r@ == history_count_base() + history_filters(*query),
{
    let mut r = owned("SELECT COUNT(*) as total FROM ma_task_events WHERE project_run_id = ?");
    let filters = history_filter_clauses(query);
    append_str(&mut r, filters.as_str());
    r
}

/// Whether events remain after a page of `returned` events taken at `offset` out of
/// `total` matching events.
pub fn history_has_more(offset: u32, returned: usize, total: i64) -> (b: bool)
    requires
        returned <= 0x7fff_ffff_0000_0000,
    ensures
        b == (offset + returned < total),
{
    (offset as i64) + (returned as i64) < total
}

/// `n` comma-separated `?` placeholders.
pub open spec fn placeholders(n: nat) -> Seq<char>
    decreases n,
{
    if n == 0 {
        Seq::empty()
    } else if n == 1 {
        "?"@
    } else {
        placeholders((n - 1) as nat) + ",?"@
    }
}

/// The statement that marks `n` events, given by identifier, as processed.
pub fn mark_processed_sql(n: usize) -> (r: String)
    ensures
        r@ == "UPDATE ma_task_events SET processed = 1 WHERE id IN ("@ + placeholders(n as nat) + ")"@,
{
    let mut p = String::new();
    let mut i: usize = 0;
    while i < n
        invariant
            i <= n,
            p@ == placeholders(i as nat),
        decreases n - i,
    {
        if i == 0 {
            append_str(&mut p, "?");
        } else {
            append_str(&mut p, ",?");
        }
        i = i + 1;
    }
    let mut r = owned("UPDATE ma_task_events SET processed = 1 WHERE id IN (");
    append_str(&mut r, p.as_str());
    append_str(&mut r, ")");
    r
}

} // verus!
