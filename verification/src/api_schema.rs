//! The protocol's shapes for chat seating, the session snapshot and the
//! closed-agent graveyard, with the answers their handlers build: the seat
//! report, the graveyard rows a snapshot carries, and a revival's reply.

use vstd::prelude::*;

use crate::closed_agents::{refusal_code, refusal_message, ClosedAgentLedger, ClosedAgentRecord, RevivalRefusal, RevivalState, clone_opt_string};
use crate::text::{owned, opt_chars, trim, trimmed};

verus! {

/// An error line's code and message.
#[derive(Debug, PartialEq, Eq)]
pub struct ApiError {
    pub code: String,
    pub message: String,
}

/// The error carries exactly this code and message.
pub open spec fn api_error_spec(e: ApiError, code: Seq<char>, message: Seq<char>) -> bool {
    e.code@ == code && e.message@ == message
}

pub(crate) fn api_error(code: &str, message: String) -> (r: ApiError)
    ensures
        r.code@ == code@,
        r.message@ == message@,
{
    ApiError { code: owned(code), message }
}

/// One chat re-home in a bulk seat request: the ledger key is either a
/// checkout directory or a `module:<node-key>` seat.
#[derive(Debug, PartialEq, Eq)]
pub struct ChatSeatEntry {
    pub session_id: String,
    pub target_key: String,
}

/// Bulk chat seating (`chat.seat`). `source` stamps who decided, so a plan's
/// moves can be told apart from (and never override) a person's own.
#[derive(Debug, PartialEq, Eq)]
pub struct ChatSeatParams {
    pub seats: Vec<ChatSeatEntry>,
    pub source: Option<String>,
}

/// Withdraw every move a given source wrote (`chat.unseat`). A person's
/// moves are source `user` and are withdrawn only by naming it.
#[derive(Debug, PartialEq, Eq)]
pub struct ChatUnseatParams {
    pub source: String,
}

/// The source a person's own menu moves carry.
pub open spec fn user_move_source() -> Seq<char> {
    "user"@
}

/// The source a seat request is stamped with: the one it names, unless that
/// is absent or blank, in which case the moves are a person's own.
pub open spec fn seat_source_spec(source: Option<Seq<char>>) -> Seq<char> {
    match source {
        Some(s) => if trim(s).len() > 0 { s } else { user_move_source() },
        None => user_move_source(),
    }
}

/// The source a seat request's moves are written under.
pub fn seat_source(params: &ChatSeatParams) -> (r: &str)
    ensures
        r@ == seat_source_spec(opt_chars(params.source)),
{
    match &params.source {
        Some(s) => {
            let t = trimmed(s.as_str());
            if t.as_str().is_empty() {
                "user"
            } else {
                s.as_str()
            }
        },
        None => "user",
    }
}

/// What the ledger answered one seat entry.
#[derive(Debug, Clone, Copy, PartialEq, Eq, Structural)]
pub enum SeatOutcome {
    Applied,
    Unchanged,
    Refused,
}

/// The bulk seat's report: how many entries the ledger applied, found
/// already in place, and refused.
#[derive(Debug, Clone, Copy, PartialEq, Eq, Structural)]
pub struct SeatReport {
    pub applied: usize,
    pub unchanged: usize,
    pub refused: usize,
}

/// How many of the outcomes are `o`.
pub open spec fn count_outcome(s: Seq<SeatOutcome>, o: SeatOutcome) -> nat
    decreases s.len(),
{
    if s.len() == 0 {
        0
    } else {
        count_outcome(s.drop_last(), o) + if s.last() == o { 1nat } else { 0nat }
    }
}

/// Fold the ledger's answers into the report, one count per entry.
pub fn seat_report(outcomes: &Vec<SeatOutcome>) -> (r: SeatReport)
    ensures
        r.applied == count_outcome(outcomes@, SeatOutcome::Applied),
        r.unchanged == count_outcome(outcomes@, SeatOutcome::Unchanged),
        r.refused == count_outcome(outcomes@, SeatOutcome::Refused),
        r.applied + r.unchanged + r.refused == outcomes@.len(),
{
    let mut report = SeatReport { applied: 0, unchanged: 0, refused: 0 };
    let mut i: usize = 0;
    while i < outcomes.len()
        invariant
            i <= outcomes@.len(),
            report.applied == count_outcome(outcomes@.take(i as int), SeatOutcome::Applied),
            report.unchanged == count_outcome(outcomes@.take(i as int), SeatOutcome::Unchanged),
            report.refused == count_outcome(outcomes@.take(i as int), SeatOutcome::Refused),
            report.applied + report.unchanged + report.refused == i,
        decreases outcomes.len() - i,
    {
        assert(outcomes@.take(i + 1).drop_last() =~= outcomes@.take(i as int));
        match outcomes[i] {
            SeatOutcome::Applied => report.applied = report.applied + 1,
            SeatOutcome::Unchanged => report.unchanged = report.unchanged + 1,
            SeatOutcome::Refused => report.refused = report.refused + 1,
        }
        i = i + 1;
    }
    assert(outcomes@.take(i as int) =~= outcomes@);
    report
}

impl SeatReport {
    /// The ledger is synced and saved once for the whole request, and only
    /// when some entry was applied.
    pub fn saves(&self) -> (r: bool)
        ensures
            r == (self.applied > 0),
    {
        self.applied > 0
    }
}

/// An unseat syncs and saves only when it withdrew something.
pub fn unseat_saves(cleared: usize) -> (r: bool)
    ensures
        r == (cleared > 0),
{
    cleared > 0
}

/// One recently closed agent as the protocol shows it.
#[derive(Debug, PartialEq, Eq)]
pub struct ClosedAgentInfo {
    /// What a revival request names.
    pub agent_id: String,
    /// The display name frozen at close time.
    pub label: String,
    /// Where the agent last worked; absent when the close never knew one.
    pub cwd: Option<String>,
    /// The workspace the revival returns under.
    pub workspace_id: Option<String>,
    /// The conversation the revival reattaches to.
    pub session_id: Option<String>,
    /// Close time in milliseconds since the epoch.
    pub closed_at: u64,
    /// True while a revival spawn is in flight.
    pub reviving: bool,
}

/// Ask to revive one closed agent.
#[derive(Debug, PartialEq, Eq)]
pub struct ClosedAgentReviveParams {
    pub agent_id: String,
}

/// The whole session as one answer. The live resources' row types are the
/// caller's; the graveyard rows are this module's.
#[derive(Debug, PartialEq)]
pub struct SessionSnapshot<W, T, P, L, A> {
    pub version: String,
    pub protocol: u32,
    pub focused_workspace_id: Option<String>,
    pub focused_tab_id: Option<String>,
    pub focused_pane_id: Option<String>,
    pub workspaces: Vec<W>,
    pub tabs: Vec<T>,
    pub panes: Vec<P>,
    pub layouts: Vec<L>,
    pub agents: Vec<A>,
    /// Recently closed agents, newest first.
    pub closed_agents: Vec<ClosedAgentInfo>,
}

/// The row the protocol shows for one ledger record: identity, label,
/// directory, workspace and resume value carried over, and the in-flight
/// revival state as a flag.
pub open spec fn is_info_of(i: ClosedAgentInfo, r: ClosedAgentRecord) -> bool {
    &&& i.agent_id@ == r.agent_id@
    &&& i.label@ == r.label@
    &&& opt_chars(i.cwd) == opt_chars(r.cwd)
    &&& opt_chars(i.workspace_id) == opt_chars(r.workspace_key)
    &&& opt_chars(i.session_id) == match r.session {
        Some(s) => Some(s.session_ref.value@),
        None => None::<Seq<char>>,
    }
    &&& i.closed_at == r.closed_at
    &&& i.reviving == (r.revival == RevivalState::Reviving)
}

fn closed_agent_info(record: &ClosedAgentRecord) -> (r: ClosedAgentInfo)
    ensures
        is_info_of(r, *record),
{
    let session_id = match record.session_value() {
        Some(v) => Some(owned(v)),
        None => None,
    };
    let cwd = clone_opt_string(&record.cwd);
    let workspace_id = clone_opt_string(&record.workspace_key);
    ClosedAgentInfo {
        agent_id: record.agent_id.clone(),
        label: record.label.clone(),
        cwd,
        workspace_id,
        session_id,
        closed_at: record.closed_at,
        reviving: record.revival == RevivalState::Reviving,
    }
}

/// The graveyard a snapshot carries: one row per ledger record, in the
/// ledger's newest-first order.
pub fn closed_agent_infos(ledger: &ClosedAgentLedger) -> (r: Vec<ClosedAgentInfo>)
    ensures
        r@.len() == ledger@.len(),
        forall|k: int| 0 <= k < r@.len() ==> is_info_of(#[trigger] r@[k], ledger@[k]),
{
    let records = ledger.entries();
    let mut out: Vec<ClosedAgentInfo> = Vec::new();
    let mut i: usize = 0;
    while i < records.len()
        invariant
            records@ == ledger@,
            i <= records@.len(),
            out@.len() == i,
            forall|k: int| 0 <= k < i ==> is_info_of(#[trigger] out@[k], records@[k]),
        decreases records.len() - i,
    {
        out.push(closed_agent_info(&records[i]));
        i = i + 1;
    }
    out
}

/// A revival's reply: success, or the refusal's stable code and readable
/// reason.
pub fn revive_answer(result: Result<(), RevivalRefusal>) -> (r: Result<(), ApiError>)
    ensures
        match result {
            Ok(()) => r is Ok,
            Err(e) => r is Err && api_error_spec(r->Err_0, refusal_code(e), refusal_message(e)),
        },
{
    match result {
        Ok(()) => Ok(()),
        Err(e) => Err(api_error(e.code(), owned(e.message()))),
    }
}

} // verus!
