//! The ledger of recently closed agents — dead data rows, not processes.
//!
//! A closed agent is a record carrying an identity and a revival recipe: no
//! PTY, no runtime, no timer. The record is written when the agent closes and
//! removed when it is revived or ages out of the bounded, newest-first ring.

use std::collections::VecDeque;

use vstd::prelude::*;

use crate::text::str_equal;

verus! {

/// How many closed agents the panel remembers.
pub const CLOSED_AGENT_CAPACITY: usize = 8;

/// Where a ghost is in its journey back to life. Revival is a one-way claim:
/// a second click during `Reviving` is inert.
#[derive(Debug, Clone, Copy, PartialEq, Eq, Structural)]
pub enum RevivalState {
    /// A dead row waiting to be clicked.
    Dormant,
    /// A spawn is in flight; further clicks mean nothing until it lands.
    Reviving,
}

/// How a session reference names the conversation it resumes.
#[derive(Debug, Clone, Copy, PartialEq, Eq, Structural)]
pub enum AgentSessionRefKind {
    /// The agent's own session identifier.
    Id,
    /// The path of the agent's transcript file.
    TranscriptPath,
}

/// The reference an agent reports for its conversation.
#[derive(Debug)]
pub struct AgentSessionRef {
    pub kind: AgentSessionRefKind,
    pub value: String,
}

impl Clone for AgentSessionRef {
    fn clone(&self) -> (r: Self)
        ensures
            r == *self,
    {
        AgentSessionRef { kind: self.kind, value: self.value.clone() }
    }
}

impl AgentSessionRef {
    /// A session reference by identifier; an empty identifier names nothing.
    pub fn id(value: String) -> (r: Option<AgentSessionRef>)
        ensures
            value@.len() == 0 ==> r is None,
            value@.len() > 0 ==> r == Some(AgentSessionRef { kind: AgentSessionRefKind::Id, value }),
    {
        if value.unicode_len() == 0 {
            None
        } else {
            Some(AgentSessionRef { kind: AgentSessionRefKind::Id, value })
        }
    }
}

/// The resume recipe frozen at close time: the agent's own reported session.
#[derive(Debug)]
pub struct PersistedAgentSession {
    pub source: String,
    pub agent: String,
    pub session_ref: AgentSessionRef,
}

impl Clone for PersistedAgentSession {
    fn clone(&self) -> (r: Self)
        ensures
            r == *self,
    {
        PersistedAgentSession {
            source: self.source.clone(),
            agent: self.agent.clone(),
            session_ref: self.session_ref.clone(),
        }
    }
}

/// Everything a revival needs, frozen at the moment the agent closed.
#[derive(Debug)]
pub struct ClosedAgentRecord {
    /// Stable identity; the dedup key and what a revival resolves back to.
    pub agent_id: String,
    /// The name the grey row wears.
    pub label: String,
    /// Where the agent last worked; `None` when the close never knew one.
    pub cwd: Option<String>,
    /// Which workspace the revival returns under.
    pub workspace_key: Option<String>,
    /// The resume recipe; `None` when the close never knew one.
    pub session: Option<PersistedAgentSession>,
    /// When it closed, in milliseconds.
    pub closed_at: u64,
    /// The revival state machine.
    pub revival: RevivalState,
}

pub fn clone_opt_string(s: &Option<String>) -> (r: Option<String>)
    ensures
        r == *s,
{
    match s {
        Some(v) => Some(v.clone()),
        None => None,
    }
}

impl Clone for ClosedAgentRecord {
    fn clone(&self) -> (r: Self)
        ensures
            r == *self,
    {
        ClosedAgentRecord {
            agent_id: self.agent_id.clone(),
            label: self.label.clone(),
            cwd: clone_opt_string(&self.cwd),
            workspace_key: clone_opt_string(&self.workspace_key),
            session: match &self.session {
                Some(s) => Some(s.clone()),
                None => None,
            },
            closed_at: self.closed_at,
            revival: self.revival,
        }
    }
}

impl ClosedAgentRecord {
    /// The session value a revival resumes and wires its new tab to.
    pub fn session_value(&self) -> (r: Option<&str>)
        ensures
            self.session is None ==> r is None,
            self.session is Some ==> r is Some && r->0@ == self.session->0.session_ref.value@,
    {
        match &self.session {
            Some(session) => Some(session.session_ref.value.as_str()),
            None => None,
        }
    }
}

/// Why a revival was refused. Every variant is a visible reason, and a
/// refusal never flips the row's state.
#[derive(Debug, Clone, Copy, PartialEq, Eq, Structural)]
pub enum RevivalRefusal {
    /// No record carries this identity.
    UnknownGhost,
    /// A spawn is already in flight; the click is inert, not queued.
    RevivalInFlight,
    /// The record closed without a directory; reviving would mean guessing.
    NoCwd,
    /// The recorded directory no longer exists.
    CwdGone,
    /// The record closed without a session recipe.
    NoSessionRecipe,
    /// The spawn road produced no wired tab; the ghost returns to rest.
    SpawnFailed,
}

pub open spec fn refusal_code(r: RevivalRefusal) -> Seq<char> {
    match r {
        RevivalRefusal::UnknownGhost => "unknown_closed_agent"@,
        RevivalRefusal::RevivalInFlight => "revival_in_flight"@,
        RevivalRefusal::NoCwd => "closed_agent_cwd_unknown"@,
        RevivalRefusal::CwdGone => "closed_agent_cwd_gone"@,
        RevivalRefusal::NoSessionRecipe => "closed_agent_session_unknown"@,
        RevivalRefusal::SpawnFailed => "revival_spawn_failed"@,
    }
}

pub open spec fn refusal_message(r: RevivalRefusal) -> Seq<char> {
    match r {
        RevivalRefusal::UnknownGhost => "no recently closed agent carries this id"@,
        RevivalRefusal::RevivalInFlight => "a revival for this agent is already in flight"@,
        RevivalRefusal::NoCwd => "the closed agent never recorded a working directory"@,
        RevivalRefusal::CwdGone => "the recorded working directory no longer exists"@,
        RevivalRefusal::NoSessionRecipe => "the closed agent has no session to resume"@,
        RevivalRefusal::SpawnFailed => "the revival spawn produced no tab"@,
    }
}

impl RevivalRefusal {
    /// Stable machine-readable code for the API surface.
    pub fn code(self) -> (r: &'static str)
        ensures
            r@ == refusal_code(self),
    {
        match self {
            RevivalRefusal::UnknownGhost => "unknown_closed_agent",
            RevivalRefusal::RevivalInFlight => "revival_in_flight",
            RevivalRefusal::NoCwd => "closed_agent_cwd_unknown",
            RevivalRefusal::CwdGone => "closed_agent_cwd_gone",
            RevivalRefusal::NoSessionRecipe => "closed_agent_session_unknown",
            RevivalRefusal::SpawnFailed => "revival_spawn_failed",
        }
    }

    /// The visible reason behind the code.
    pub fn message(self) -> (r: &'static str)
        ensures
            r@ == refusal_message(self),
    {
        match self {
            RevivalRefusal::UnknownGhost => "no recently closed agent carries this id",
            RevivalRefusal::RevivalInFlight => "a revival for this agent is already in flight",
            RevivalRefusal::NoCwd => "the closed agent never recorded a working directory",
            RevivalRefusal::CwdGone => "the recorded working directory no longer exists",
            RevivalRefusal::NoSessionRecipe => "the closed agent has no session to resume",
            RevivalRefusal::SpawnFailed => "the revival spawn produced no tab",
        }
    }
}

// ---------------------------------------------------------------------------
// The ledger model
// ---------------------------------------------------------------------------

/// The record with its revival state replaced.
pub open spec fn with_revival(r: ClosedAgentRecord, state: RevivalState) -> ClosedAgentRecord {
    ClosedAgentRecord { revival: state, ..r }
}

/// The records of `s` that do not carry identity `id`, in order.
pub open spec fn without_agent(s: Seq<ClosedAgentRecord>, id: Seq<char>) -> Seq<ClosedAgentRecord>
    decreases s.len(),
{
    if s.len() == 0 {
        Seq::empty()
    } else if s[0].agent_id@ == id {
        without_agent(s.drop_first(), id)
    } else {
        seq![s[0]] + without_agent(s.drop_first(), id)
    }
}

/// The ledger after `r` closed: `r` first and dormant, every other identity
/// after it in its old order, cut to capacity.
pub open spec fn after_record_closed(s: Seq<ClosedAgentRecord>, r: ClosedAgentRecord) -> Seq<ClosedAgentRecord> {
    let full = seq![with_revival(r, RevivalState::Dormant)] + without_agent(s, r.agent_id@);
    if full.len() > CLOSED_AGENT_CAPACITY { full.take(CLOSED_AGENT_CAPACITY as int) } else { full }
}

/// `i` is the first position of `s` that carries identity `id`.
pub open spec fn first_match(s: Seq<ClosedAgentRecord>, id: Seq<char>, i: int) -> bool {
    &&& 0 <= i < s.len()
    &&& s[i].agent_id@ == id
    &&& forall|j: int| 0 <= j < i ==> s[j].agent_id@ != id
}

/// Whether some record of `s` carries identity `id`.
pub open spec fn has_agent(s: Seq<ClosedAgentRecord>, id: Seq<char>) -> bool {
    exists|i: int| 0 <= i < s.len() && s[i].agent_id@ == id
}

/// The first position of `s` carrying `id`, or -1.
pub open spec fn find_agent(s: Seq<ClosedAgentRecord>, id: Seq<char>) -> int {
    if exists|i: int| first_match(s, id, i) {
        choose|i: int| first_match(s, id, i)
    } else {
        -1
    }
}

/// The claim a revival makes: `true` and the first matching row flipped to
/// `Reviving` when that row is dormant; `false` and no change otherwise.
pub open spec fn begin_revival(s: Seq<ClosedAgentRecord>, id: Seq<char>) -> (bool, Seq<ClosedAgentRecord>) {
    let i = find_agent(s, id);
    if i >= 0 && s[i].revival == RevivalState::Dormant {
        (true, s.update(i, with_revival(s[i], RevivalState::Reviving)))
    } else {
        (false, s)
    }
}

/// A failed spawn: the first matching row rests again when it was reviving.
pub open spec fn abort_revival_spec(s: Seq<ClosedAgentRecord>, id: Seq<char>) -> Seq<ClosedAgentRecord> {
    let i = find_agent(s, id);
    if i >= 0 && s[i].revival == RevivalState::Reviving {
        s.update(i, with_revival(s[i], RevivalState::Dormant))
    } else {
        s
    }
}

/// No two records share an identity.
pub open spec fn unique_agents(s: Seq<ClosedAgentRecord>) -> bool {
    forall|i: int, j: int| 0 <= i < s.len() && 0 <= j < s.len() && i != j ==> s[i].agent_id@ != s[j].agent_id@
}

pub proof fn lemma_first_match_unique(s: Seq<ClosedAgentRecord>, id: Seq<char>, i: int, j: int)
    requires
        first_match(s, id, i),
        first_match(s, id, j),
    ensures
        i == j,
{
    if i < j {
        assert(s[i].agent_id@ != id);
    } else if j < i {
        assert(s[j].agent_id@ != id);
    }
}

pub proof fn lemma_find_agent(s: Seq<ClosedAgentRecord>, id: Seq<char>, i: int)
    requires
        first_match(s, id, i),
    ensures
        find_agent(s, id) == i,
{
    let k = choose|k: int| first_match(s, id, k);
    lemma_first_match_unique(s, id, i, k);
}

pub proof fn lemma_find_agent_none(s: Seq<ClosedAgentRecord>, id: Seq<char>)
    requires
        forall|j: int| 0 <= j < s.len() ==> s[j].agent_id@ != id,
    ensures
        find_agent(s, id) == -1,
        !has_agent(s, id),
{
}

pub proof fn lemma_find_agent_range(s: Seq<ClosedAgentRecord>, id: Seq<char>)
    ensures
        find_agent(s, id) == -1 || first_match(s, id, find_agent(s, id)),
        find_agent(s, id) == -1 <==> !has_agent(s, id),
{
    if has_agent(s, id) {
        let w = choose|w: int| 0 <= w < s.len() && s[w].agent_id@ == id;
        lemma_first_match_exists(s, id, w);
    }
}

pub proof fn lemma_first_match_exists(s: Seq<ClosedAgentRecord>, id: Seq<char>, w: int)
    requires
        0 <= w < s.len(),
        s[w].agent_id@ == id,
    ensures
        exists|i: int| first_match(s, id, i),
    decreases w,
{
    if forall|j: int| 0 <= j < w ==> s[j].agent_id@ != id {
        assert(first_match(s, id, w));
    } else {
        let j = choose|j: int| 0 <= j < w && s[j].agent_id@ != id == false;
        lemma_first_match_exists(s, id, j);
    }
}

/// Every record kept by `without_agent` comes from `s`, and none carries `id`.
pub proof fn lemma_without_agent(s: Seq<ClosedAgentRecord>, id: Seq<char>)
    ensures
        without_agent(s, id).len() <= s.len(),
        forall|k: int| 0 <= k < without_agent(s, id).len() ==> without_agent(s, id)[k].agent_id@ != id,
        forall|k: int| 0 <= k < without_agent(s, id).len() ==> s.contains(#[trigger] without_agent(s, id)[k]),
        !has_agent(s, id) ==> without_agent(s, id) == s,
    decreases s.len(),
{
    if s.len() > 0 {
        lemma_without_agent(s.drop_first(), id);
        let rest = without_agent(s.drop_first(), id);
        assert forall|k: int| 0 <= k < without_agent(s, id).len() implies s.contains(#[trigger] without_agent(s, id)[k]) by {
            if s[0].agent_id@ == id {
                assert(s.drop_first().contains(rest[k]));
                let m = choose|m: int| 0 <= m < s.drop_first().len() && s.drop_first()[m] == rest[k];
                assert(s[m + 1] == rest[k]);
            } else if k == 0 {
                assert(s[0] == without_agent(s, id)[k]);
            } else {
                assert(without_agent(s, id)[k] == rest[k - 1]);
                assert(s.drop_first().contains(rest[k - 1]));
                let m = choose|m: int| 0 <= m < s.drop_first().len() && s.drop_first()[m] == rest[k - 1];
                assert(s[m + 1] == rest[k - 1]);
            }
        }
        if !has_agent(s, id) {
            assert(!has_agent(s.drop_first(), id)) by {
                if has_agent(s.drop_first(), id) {
                    let m = choose|m: int| 0 <= m < s.drop_first().len() && s.drop_first()[m].agent_id@ == id;
                    assert(s[m + 1].agent_id@ == id);
                }
            }
            assert(s[0].agent_id@ != id) by {
                if s[0].agent_id@ == id {
                    assert(has_agent(s, id));
                }
            }
            assert(without_agent(s, id) =~= s);
        }
    }
}

/// The stored shape of one session recipe.
#[derive(Debug)]
pub struct StoredSession {
    pub source: String,
    pub agent: String,
    pub ref_kind: AgentSessionRefKind,
    pub ref_value: String,
}

/// The stored shape of one closed agent.
#[derive(Debug)]
pub struct StoredClosedAgent {
    pub agent_id: String,
    pub label: String,
    pub cwd: Option<String>,
    pub workspace_key: Option<String>,
    pub session: Option<StoredSession>,
    pub closed_at: u64,
}

pub open spec fn stored_of(r: ClosedAgentRecord) -> StoredClosedAgent {
    StoredClosedAgent {
        agent_id: r.agent_id,
        label: r.label,
        cwd: r.cwd,
        workspace_key: r.workspace_key,
        session: match r.session {
            Some(s) => Some(
                StoredSession {
                    source: s.source,
                    agent: s.agent,
                    ref_kind: s.session_ref.kind,
                    ref_value: s.session_ref.value,
                },
            ),
            None => None,
        },
        closed_at: r.closed_at,
    }
}

pub open spec fn record_of(row: StoredClosedAgent) -> ClosedAgentRecord {
    ClosedAgentRecord {
        agent_id: row.agent_id,
        label: row.label,
        cwd: row.cwd,
        workspace_key: row.workspace_key,
        session: match row.session {
            Some(s) => Some(
                PersistedAgentSession {
                    source: s.source,
                    agent: s.agent,
                    session_ref: AgentSessionRef { kind: s.ref_kind, value: s.ref_value },
                },
            ),
            None => None,
        },
        closed_at: row.closed_at,
        revival: RevivalState::Dormant,
    }
}

/// The fixed-capacity, newest-first ring of closed agents.
#[derive(Debug)]
pub struct ClosedAgentLedger {
    records: VecDeque<ClosedAgentRecord>,
}

impl View for ClosedAgentLedger {
    type V = Seq<ClosedAgentRecord>;

    closed spec fn view(&self) -> Seq<ClosedAgentRecord> {
        self.records@
    }
}

impl Default for ClosedAgentLedger {
    fn default() -> (r: Self)
        ensures
            r@ == Seq::<ClosedAgentRecord>::empty(),
    {
        ClosedAgentLedger { records: VecDeque::new() }
    }
}

impl ClosedAgentLedger {
    /// Remember a closed agent, newest first. Closing an agent that is already
    /// remembered refreshes its row instead of adding a second one; the row
    /// always starts `Dormant`; beyond capacity the oldest row is evicted.
    pub fn record_closed(&mut self, record: ClosedAgentRecord)
        ensures
            final(self)@ == after_record_closed(old(self)@, record),
    {
        let ghost orig = record;
        let mut record = record;
        record.revival = RevivalState::Dormant;
        assert(record == with_revival(orig, RevivalState::Dormant));
        let ghost id = record.agent_id@;
        let mut rest: VecDeque<ClosedAgentRecord> = VecDeque::new();
        std::mem::swap(&mut rest, &mut self.records);
        let ghost all = rest@;
        let mut kept: VecDeque<ClosedAgentRecord> = VecDeque::new();
        assert(kept@ + without_agent(rest@, id) =~= without_agent(all, id));
        while rest.len() > 0
            invariant
                record.agent_id@ == id,
                kept@ + without_agent(rest@, id) == without_agent(all, id),
            decreases rest@.len(),
        {
            let ghost before = rest@;
            if let Some(r) = rest.pop_front() {
                assert(rest@ =~= before.drop_first());
                if !str_equal(r.agent_id.as_str(), record.agent_id.as_str()) {
                    let ghost k = kept@;
                    kept.push_back(r);
                    assert(kept@ + without_agent(rest@, id) =~= k + without_agent(before, id));
                } else {
                    assert(without_agent(before, id) == without_agent(rest@, id));
                }
            }
        }
        assert(kept@ =~= kept@ + without_agent(rest@, id));
        kept.push_front(record);
        kept.truncate(CLOSED_AGENT_CAPACITY);
        proof {
            let full = seq![record] + without_agent(all, id);
            if full.len() > CLOSED_AGENT_CAPACITY {
                assert(kept@ =~= full.take(CLOSED_AGENT_CAPACITY as int));
            } else {
                assert(kept@ =~= full);
            }
        }
        self.records = kept;
    }

    /// The remembered ghosts, newest first.
    pub fn entries(&self) -> (r: &VecDeque<ClosedAgentRecord>)
        ensures
            r@ == self@,
    {
        &self.records
    }

    /// Rebuild from what the store kept, newest first. A loaded ghost is
    /// always `Dormant`: revival state describes this process only.
    pub fn load_stored(&mut self, stored: Vec<StoredClosedAgent>)
        ensures
            final(self)@ == stored@.map_values(|row: StoredClosedAgent| record_of(row)),
    {
        let mut rows = stored;
        let ghost all = rows@;
        let mut out: VecDeque<ClosedAgentRecord> = VecDeque::new();
        let mut taken: usize = 0;
        let total = rows.len();
        assert(all.len() == total as int);
        while rows.len() > 0
            invariant
                all.len() <= usize::MAX,
                taken + rows@.len() == all.len(),
                rows@ == all.subrange(taken as int, all.len() as int),
                out@ == all.subrange(0, taken as int).map_values(|row: StoredClosedAgent| record_of(row)),
            decreases rows.len(),
        {
            let row = rows.remove(0);
            let session = match row.session {
                Some(s) => Some(
                    PersistedAgentSession {
                        source: s.source,
                        agent: s.agent,
                        session_ref: AgentSessionRef { kind: s.ref_kind, value: s.ref_value },
                    },
                ),
                None => None,
            };
            out.push_back(
                ClosedAgentRecord {
                    agent_id: row.agent_id,
                    label: row.label,
                    cwd: row.cwd,
                    workspace_key: row.workspace_key,
                    session,
                    closed_at: row.closed_at,
                    revival: RevivalState::Dormant,
                },
            );
            taken = taken + 1;
            assert(rows@ =~= all.subrange(taken as int, all.len() as int));
            assert(out@ =~= all.subrange(0, taken as int).map_values(|row: StoredClosedAgent| record_of(row)));
        }
        assert(all.subrange(0, taken as int) =~= all);
        self.records = out;
    }

    /// Project to the disk shape, newest first.
    pub fn to_stored(&self) -> (r: Vec<StoredClosedAgent>)
        ensures
            r@ == self@.map_values(|row: ClosedAgentRecord| stored_of(row)),
    {
        let mut out: Vec<StoredClosedAgent> = Vec::new();
        let mut i: usize = 0;
        while i < self.records.len()
            invariant
                i <= self.records@.len(),
                out@ == self.records@.subrange(0, i as int).map_values(|row: ClosedAgentRecord| stored_of(row)),
            decreases self.records.len() - i,
        {
            let row = &self.records[i];
            let session = match &row.session {
                Some(s) => Some(
                    StoredSession {
                        source: s.source.clone(),
                        agent: s.agent.clone(),
                        ref_kind: s.session_ref.kind,
                        ref_value: s.session_ref.value.clone(),
                    },
                ),
                None => None,
            };
            out.push(
                StoredClosedAgent {
                    agent_id: row.agent_id.clone(),
                    label: row.label.clone(),
                    cwd: clone_opt_string(&row.cwd),
                    workspace_key: clone_opt_string(&row.workspace_key),
                    session,
                    closed_at: row.closed_at,
                },
            );
            i = i + 1;
            assert(out@ =~= self.records@.subrange(0, i as int).map_values(|row: ClosedAgentRecord| stored_of(row)));
        }
        assert(self.records@.subrange(0, i as int) =~= self.records@);
        out
    }

    /// Set the revival state of the row at `i`, leaving every other row and
    /// field as it was.
    fn set_revival(&mut self, i: usize, state: RevivalState)
        requires
            i < old(self)@.len(),
        ensures
            final(self)@ == old(self)@.update(i as int, with_revival(old(self)@[i as int], state)),
    {
        if let Some(mut row) = self.records.remove(i) {
            row.revival = state;
            self.records.insert(i, row);
            assert(self@ =~= old(self)@.update(i as int, with_revival(old(self)@[i as int], state)));
        }
    }

    /// The position of the first record carrying `agent_id`, if any.
    fn position_of(&self, agent_id: &str) -> (r: Option<usize>)
        ensures
            r is None ==> find_agent(self@, agent_id@) == -1,
            r is Some ==> find_agent(self@, agent_id@) == r->0 as int && first_match(self@, agent_id@, r->0 as int),
    {
        let mut i: usize = 0;
        while i < self.records.len()
            invariant
                i <= self.records@.len(),
                forall|j: int| 0 <= j < i ==> self.records@[j].agent_id@ != agent_id@,
            decreases self.records.len() - i,
        {
            if str_equal(self.records[i].agent_id.as_str(), agent_id) {
                proof {
                    assert(first_match(self@, agent_id@, i as int));
                    lemma_find_agent(self@, agent_id@, i as int);
                }
                return Some(i);
            }
            i = i + 1;
        }
        proof {
            lemma_find_agent_none(self@, agent_id@);
        }
        None
    }

    /// Claim the right to revive a ghost. Returns `true` exactly once per
    /// dormancy; an unknown or already-reviving ghost yields `false`.
    pub fn try_begin_revival(&mut self, agent_id: &str) -> (r: bool)
        ensures
            (r, final(self)@) == begin_revival(old(self)@, agent_id@),
    {
        match self.position_of(agent_id) {
            Some(i) => {
                if self.records[i].revival == RevivalState::Dormant {
                    self.set_revival(i, RevivalState::Reviving);
                    assert(self@ =~= begin_revival(old(self)@, agent_id@).1);
                    true
                } else {
                    false
                }
            },
            None => false,
        }
    }

    /// The spawn landed: every row carrying the identity leaves the ledger.
    pub fn resolve_revival(&mut self, agent_id: &str)
        ensures
            final(self)@ == without_agent(old(self)@, agent_id@),
    {
        let ghost id = agent_id@;
        let ghost all = self.records@;
        let mut rest: VecDeque<ClosedAgentRecord> = VecDeque::new();
        std::mem::swap(&mut rest, &mut self.records);
        let mut out: VecDeque<ClosedAgentRecord> = VecDeque::new();
        assert(out@ + without_agent(rest@, id) =~= without_agent(all, id));
        while rest.len() > 0
            invariant
                id == agent_id@,
                out@ + without_agent(rest@, id) == without_agent(all, id),
            decreases rest@.len(),
        {
            let ghost before = rest@;
            if let Some(r) = rest.pop_front() {
                assert(rest@ =~= before.drop_first());
                if !str_equal(r.agent_id.as_str(), agent_id) {
                    let ghost o = out@;
                    out.push_back(r);
                    assert(out@ + without_agent(rest@, id) =~= o + without_agent(before, id));
                }
            }
        }
        assert(out@ =~= out@ + without_agent(rest@, id));
        self.records = out;
    }

    /// The spawn failed: the ghost returns to rest, clickable again.
    pub fn abort_revival(&mut self, agent_id: &str)
        ensures
            final(self)@ == abort_revival_spec(old(self)@, agent_id@),
    {
        if let Some(i) = self.position_of(agent_id) {
            if self.records[i].revival == RevivalState::Reviving {
                self.set_revival(i, RevivalState::Dormant);
                assert(self@ =~= abort_revival_spec(old(self)@, agent_id@));
            }
        }
    }
}

// ---------------------------------------------------------------------------
// Revival roads
// ---------------------------------------------------------------------------

/// A spawnable launch: the argv and the extra environment it carries.
pub type LaunchRecipe = (Vec<String>, Vec<(String, String)>);

/// The plain-value view of a launch recipe.
pub open spec fn recipe_view(r: LaunchRecipe) -> (Seq<Seq<char>>, Seq<(Seq<char>, Seq<char>)>) {
    (
        r.0@.map_values(|a: String| a@),
        r.1@.map_values(|kv: (String, String)| (kv.0@, kv.1@)),
    )
}

/// The launch each agent's existing resume road takes: the chat drawer's
/// agent (`drawer_agent`) rides the drawer's launch (identical flags and
/// environment), codex the restore road's plan; an agent without a road has
/// no revival launch.
pub open spec fn revival_launch_spec(agent: Seq<char>, drawer_agent: Seq<char>, value: Seq<char>) -> Option<(Seq<Seq<char>>, Seq<(Seq<char>, Seq<char>)>)> {
    if agent == drawer_agent {
        Some((
            seq![drawer_agent, "--dangerously-skip-permissions"@, "--resume"@, value],
            seq![("ENABLE_BACKGROUND_TASKS"@, "1"@)],
        ))
    } else if agent == "codex"@ {
        Some((seq!["codex"@, "resume"@, value], Seq::empty()))
    } else {
        None
    }
}

/// The launch a revival uses for a recorded session; `drawer_agent` names
/// the agent whose resume rides the chat drawer's launch.
pub fn revival_launch(session: &PersistedAgentSession, drawer_agent: &str) -> (r: Option<LaunchRecipe>)
    ensures
        r is None <==> revival_launch_spec(session.agent@, drawer_agent@, session.session_ref.value@) is None,
        r is Some ==> Some(recipe_view(r->0)) == revival_launch_spec(session.agent@, drawer_agent@, session.session_ref.value@),
{
    let value = session.session_ref.value.clone();
    if str_equal(session.agent.as_str(), drawer_agent) {
        let mut argv: Vec<String> = Vec::new();
        argv.push(String::from_str(drawer_agent));
        argv.push(String::from_str("--dangerously-skip-permissions"));
        argv.push(String::from_str("--resume"));
        argv.push(value);
        let mut env: Vec<(String, String)> = Vec::new();
        env.push((String::from_str("ENABLE_BACKGROUND_TASKS"), String::from_str("1")));
        let r = (argv, env);
        let ghost want = revival_launch_spec(session.agent@, drawer_agent@, session.session_ref.value@)->0;
        assert(recipe_view(r).0 =~= want.0);
        assert(recipe_view(r).1 =~= want.1);
        Some(r)
    } else if str_equal(session.agent.as_str(), "codex") {
        let mut argv: Vec<String> = Vec::new();
        argv.push(String::from_str("codex"));
        argv.push(String::from_str("resume"));
        argv.push(value);
        let env: Vec<(String, String)> = Vec::new();
        let r = (argv, env);
        let ghost want = revival_launch_spec(session.agent@, drawer_agent@, session.session_ref.value@)->0;
        assert(recipe_view(r).0 =~= want.0);
        assert(recipe_view(r).1 =~= want.1);
        Some(r)
    } else {
        None
    }
}

/// What the ledger alone can say about a revival request, in the order the
/// refusals are checked: unknown, already in flight, no directory, no recipe.
pub open spec fn revival_check(s: Seq<ClosedAgentRecord>, id: Seq<char>) -> Result<(Seq<char>, PersistedAgentSession), RevivalRefusal> {
    let i = find_agent(s, id);
    if i < 0 {
        Err(RevivalRefusal::UnknownGhost)
    } else if s[i].revival == RevivalState::Reviving {
        Err(RevivalRefusal::RevivalInFlight)
    } else if s[i].cwd is None {
        Err(RevivalRefusal::NoCwd)
    } else if s[i].session is None {
        Err(RevivalRefusal::NoSessionRecipe)
    } else {
        Ok((s[i].cwd->0@, s[i].session->0))
    }
}

/// A ghost that passed the ledger's checks: where to revive and what to resume.
#[derive(Debug)]
pub struct RevivalCandidate {
    pub cwd: String,
    pub session: PersistedAgentSession,
}

impl ClosedAgentLedger {
    /// Validate a revival request against the ledger without touching it; a
    /// refusal leaves the row as it was.
    pub fn revival_candidate(&self, agent_id: &str) -> (r: Result<RevivalCandidate, RevivalRefusal>)
        ensures
            match (r, revival_check(self@, agent_id@)) {
                (Ok(c), Ok((cwd, session))) => c.cwd@ == cwd && c.session == session,
                (Err(e), Err(f)) => e == f,
                _ => false,
            },
    {
        match self.position_of(agent_id) {
            None => Err(RevivalRefusal::UnknownGhost),
            Some(i) => {
                let record = &self.records[i];
                if record.revival == RevivalState::Reviving {
                    return Err(RevivalRefusal::RevivalInFlight);
                }
                let cwd = match &record.cwd {
                    Some(cwd) => cwd.clone(),
                    None => {
                        return Err(RevivalRefusal::NoCwd);
                    },
                };
                match &record.session {
                    Some(session) => Ok(RevivalCandidate { cwd, session: session.clone() }),
                    None => Err(RevivalRefusal::NoSessionRecipe),
                }
            },
        }
    }

    /// The end of a revival: a spawn that wired its tab removes the ghost; one
    /// that produced no tab returns it to rest and reports the failure.
    pub fn finish_revival(&mut self, agent_id: &str, wired: bool) -> (r: Result<(), RevivalRefusal>)
        ensures
            wired ==> r == Ok::<(), RevivalRefusal>(()) && final(self)@ == without_agent(old(self)@, agent_id@),
            !wired ==> r == Err::<(), RevivalRefusal>(RevivalRefusal::SpawnFailed) && final(self)@ == abort_revival_spec(old(self)@, agent_id@),
    {
        if wired {
            self.resolve_revival(agent_id);
            Ok(())
        } else {
            self.abort_revival(agent_id);
            Err(RevivalRefusal::SpawnFailed)
        }
    }
}

/// The filesystem half of a revival: the recorded directory must still be a
/// directory, and the agent must have a resume road.
pub fn revival_admission(candidate: &RevivalCandidate, cwd_is_dir: bool, drawer_agent: &str) -> (r: Result<LaunchRecipe, RevivalRefusal>)
    ensures
        !cwd_is_dir ==> r == Err::<LaunchRecipe, RevivalRefusal>(RevivalRefusal::CwdGone),
        cwd_is_dir && revival_launch_spec(candidate.session.agent@, drawer_agent@, candidate.session.session_ref.value@) is None
            ==> r == Err::<LaunchRecipe, RevivalRefusal>(RevivalRefusal::NoSessionRecipe),
        cwd_is_dir && revival_launch_spec(candidate.session.agent@, drawer_agent@, candidate.session.session_ref.value@) is Some ==> r is Ok,
        r is Ok ==> cwd_is_dir && Some(recipe_view(r->Ok_0)) == revival_launch_spec(candidate.session.agent@, drawer_agent@, candidate.session.session_ref.value@),
{
    if !cwd_is_dir {
        return Err(RevivalRefusal::CwdGone);
    }
    match revival_launch(&candidate.session, drawer_agent) {
        Some(recipe) => Ok(recipe),
        None => Err(RevivalRefusal::NoSessionRecipe),
    }
}

impl ClosedAgentLedger {
    /// The claim that follows the ledger's checks: the filesystem and recipe
    /// refusals come first and leave the ledger untouched; an admitted launch
    /// then needs the one-way claim, and a claim already taken is a revival
    /// in flight.
    pub fn claim_revival(&mut self, agent_id: &str, candidate: &RevivalCandidate, cwd_is_dir: bool, drawer_agent: &str) -> (r: Result<LaunchRecipe, RevivalRefusal>)
        ensures
            !cwd_is_dir ==> r == Err::<LaunchRecipe, RevivalRefusal>(RevivalRefusal::CwdGone) && final(self)@ == old(self)@,
            cwd_is_dir && revival_launch_spec(candidate.session.agent@, drawer_agent@, candidate.session.session_ref.value@) is None
                ==> r == Err::<LaunchRecipe, RevivalRefusal>(RevivalRefusal::NoSessionRecipe) && final(self)@ == old(self)@,
            cwd_is_dir && revival_launch_spec(candidate.session.agent@, drawer_agent@, candidate.session.session_ref.value@) is Some
                ==> final(self)@ == begin_revival(old(self)@, agent_id@).1
                && (begin_revival(old(self)@, agent_id@).0 ==> r is Ok && Some(recipe_view(r->Ok_0)) == revival_launch_spec(
                    candidate.session.agent@,
                    drawer_agent@,
                    candidate.session.session_ref.value@,
                ))
                && (!begin_revival(old(self)@, agent_id@).0 ==> r == Err::<LaunchRecipe, RevivalRefusal>(RevivalRefusal::RevivalInFlight)),
    {
        let recipe = match revival_admission(candidate, cwd_is_dir, drawer_agent) {
            Ok(recipe) => recipe,
            Err(e) => {
                return Err(e);
            },
        };
        if self.try_begin_revival(agent_id) {
            Ok(recipe)
        } else {
            Err(RevivalRefusal::RevivalInFlight)
        }
    }
}

// ---------------------------------------------------------------------------
// Laws of the ledger
// ---------------------------------------------------------------------------

/// A closed agent is remembered newest first, and its row starts dormant.
pub proof fn law_closed_agent_is_newest(s: Seq<ClosedAgentRecord>, r: ClosedAgentRecord)
    ensures
        after_record_closed(s, r).len() >= 1,
        after_record_closed(s, r)[0] == with_revival(r, RevivalState::Dormant),
{
}

/// The ring never holds more than its capacity.
pub proof fn law_ledger_is_bounded(s: Seq<ClosedAgentRecord>, r: ClosedAgentRecord)
    ensures
        after_record_closed(s, r).len() <= CLOSED_AGENT_CAPACITY,
{
}

/// One identity, one ghost: after a close the closed identity appears only at
/// the front, every later row came from the old ledger, and a ledger without
/// twins stays without twins.
pub proof fn law_one_row_per_identity(s: Seq<ClosedAgentRecord>, r: ClosedAgentRecord)
    ensures
        forall|k: int| 1 <= k < after_record_closed(s, r).len() ==> after_record_closed(s, r)[k].agent_id@ != r.agent_id@,
        forall|k: int| 1 <= k < after_record_closed(s, r).len() ==> s.contains(#[trigger] after_record_closed(s, r)[k]),
        unique_agents(s) ==> unique_agents(after_record_closed(s, r)),
{
    let id = r.agent_id@;
    let w = without_agent(s, id);
    lemma_without_agent(s, id);
    let full = seq![with_revival(r, RevivalState::Dormant)] + w;
    let out = after_record_closed(s, r);
    assert forall|k: int| 1 <= k < out.len() implies out[k] == w[k - 1] by {}
    assert forall|k: int| 1 <= k < out.len() implies s.contains(#[trigger] out[k]) by {
        assert(out[k] == w[k - 1]);
        assert(s.contains(w[k - 1]));
    }
    if unique_agents(s) {
        lemma_without_agent_unique(s, id);
        assert forall|i: int, j: int| 0 <= i < out.len() && 0 <= j < out.len() && i != j implies out[i].agent_id@ != out[j].agent_id@ by {
            if i == 0 {
                assert(out[j] == w[j - 1]);
            } else if j == 0 {
                assert(out[i] == w[i - 1]);
            } else {
                assert(out[i] == w[i - 1]);
                assert(out[j] == w[j - 1]);
            }
        }
    }
}

pub proof fn lemma_without_agent_unique(s: Seq<ClosedAgentRecord>, id: Seq<char>)
    requires
        unique_agents(s),
    ensures
        unique_agents(without_agent(s, id)),
        forall|k: int| 0 <= k < without_agent(s, id).len() ==> exists|m: int| 0 <= m < s.len() && s[m] == #[trigger] without_agent(s, id)[k],
    decreases s.len(),
{
    if s.len() > 0 {
        let t = s.drop_first();
        assert(unique_agents(t)) by {
            assert forall|i: int, j: int| 0 <= i < t.len() && 0 <= j < t.len() && i != j implies t[i].agent_id@ != t[j].agent_id@ by {
                assert(t[i] == s[i + 1]);
                assert(t[j] == s[j + 1]);
            }
        }
        lemma_without_agent_unique(t, id);
        let rest = without_agent(t, id);
        let w = without_agent(s, id);
        assert forall|k: int| 0 <= k < w.len() implies exists|m: int| 0 <= m < s.len() && s[m] == #[trigger] w[k] by {
            if s[0].agent_id@ == id {
                let m = choose|m: int| 0 <= m < t.len() && t[m] == rest[k];
                assert(s[m + 1] == w[k]);
            } else if k == 0 {
                assert(s[0] == w[k]);
            } else {
                let m = choose|m: int| 0 <= m < t.len() && t[m] == rest[k - 1];
                assert(s[m + 1] == w[k]);
            }
        }
        if s[0].agent_id@ != id {
            assert forall|i: int, j: int| 0 <= i < w.len() && 0 <= j < w.len() && i != j implies w[i].agent_id@ != w[j].agent_id@ by {
                if i == 0 {
                    let m = choose|m: int| 0 <= m < t.len() && t[m] == rest[j - 1];
                    assert(w[j] == s[m + 1]);
                } else if j == 0 {
                    let m = choose|m: int| 0 <= m < t.len() && t[m] == rest[i - 1];
                    assert(w[i] == s[m + 1]);
                } else {
                    assert(w[i] == rest[i - 1]);
                    assert(w[j] == rest[j - 1]);
                }
            }
        }
    }
}

/// Revival is a one-way claim: once a claim succeeds, a second claim on the
/// same identity is inert until the first one resolves or aborts.
pub proof fn law_revival_claim_once(s: Seq<ClosedAgentRecord>, id: Seq<char>)
    requires
        begin_revival(s, id).0,
    ensures
        !begin_revival(begin_revival(s, id).1, id).0,
        begin_revival(begin_revival(s, id).1, id).1 == begin_revival(s, id).1,
{
    let i = find_agent(s, id);
    lemma_find_agent_range(s, id);
    let t = begin_revival(s, id).1;
    assert(first_match(t, id, i));
    lemma_find_agent(t, id, i);
}

/// A failed revival returns the ledger to exactly where it was before the
/// claim: the ghost rests again and stays clickable.
pub proof fn law_failed_revival_rests_again(s: Seq<ClosedAgentRecord>, id: Seq<char>)
    requires
        begin_revival(s, id).0,
    ensures
        abort_revival_spec(begin_revival(s, id).1, id) == s,
        begin_revival(abort_revival_spec(begin_revival(s, id).1, id), id).0,
{
    let i = find_agent(s, id);
    lemma_find_agent_range(s, id);
    let t = begin_revival(s, id).1;
    assert(first_match(t, id, i));
    lemma_find_agent(t, id, i);
    assert(abort_revival_spec(t, id) =~= s);
}

/// A landed revival leaves the graveyard: no row carries the identity after
/// it resolves, and the other rows keep their order.
pub proof fn law_landed_revival_leaves(s: Seq<ClosedAgentRecord>, id: Seq<char>)
    ensures
        !has_agent(without_agent(s, id), id),
        !begin_revival(without_agent(s, id), id).0,
{
    lemma_without_agent(s, id);
    lemma_find_agent_range(without_agent(s, id), id);
}

/// A claim on an identity nobody carries changes nothing.
pub proof fn law_unknown_ghost_is_inert(s: Seq<ClosedAgentRecord>, id: Seq<char>)
    requires
        !has_agent(s, id),
    ensures
        begin_revival(s, id) == (false, s),
        abort_revival_spec(s, id) == s,
        without_agent(s, id) == s,
{
    lemma_find_agent_range(s, id);
    lemma_without_agent(s, id);
}

/// What a revival needs crosses the disk: writing the ledger and reading it
/// back gives every record back, dormant.
pub proof fn law_stored_round_trip(s: Seq<ClosedAgentRecord>)
    ensures
        s.map_values(|r: ClosedAgentRecord| stored_of(r)).map_values(|row: StoredClosedAgent| record_of(row))
            == s.map_values(|r: ClosedAgentRecord| with_revival(r, RevivalState::Dormant)),
{
    let a = s.map_values(|r: ClosedAgentRecord| stored_of(r)).map_values(|row: StoredClosedAgent| record_of(row));
    let b = s.map_values(|r: ClosedAgentRecord| with_revival(r, RevivalState::Dormant));
    assert forall|k: int| 0 <= k < s.len() implies a[k] == b[k] by {
        let r = s[k];
        match r.session {
            Some(x) => {
                assert(record_of(stored_of(r)).session == r.session);
            },
            None => {},
        }
    }
    assert(a =~= b);
}

} // verus!
