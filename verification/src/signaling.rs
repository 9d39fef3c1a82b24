//! Decisions the client takes on signaling messages: whether an invitation rings, how a call
//! update ends or continues a call and who offers to whom, unanswered-call timers, and the
//! station and client lists.

use vstd::prelude::*;
use crate::audio::SourceType;
use crate::calls::{has_target, same_target, target_key, CallId, CallTarget};
use crate::seqs::{is_first, lemma_first_unique, lemma_select_step, select};

verus! {

/// Incoming calls ringing at once before further invitations are rejected as busy.
pub const INCOMING_CALLS_LIMIT: usize = 5;

/// Lexicographic order of texts by character (for valid Unicode the same order as byte-wise
/// comparison of their UTF-8 encodings).
pub open spec fn lex_lt(a: Seq<char>, b: Seq<char>) -> bool
    decreases a.len(),
{
    if a.len() == 0 {
        b.len() > 0
    } else if b.len() == 0 {
        false
    } else if a[0] != b[0] {
        (a[0] as int) < (b[0] as int)
    } else {
        lex_lt(a.drop_first(), b.drop_first())
    }
}

proof fn lemma_lex_lt_skip(a: Seq<char>, b: Seq<char>, i: int)
    requires
        0 <= i <= a.len(),
        i <= b.len(),
        a.subrange(0, i) == b.subrange(0, i),
    ensures
        lex_lt(a, b) == lex_lt(a.skip(i), b.skip(i)),
    decreases i,
{
    if i > 0 {
        assert(a[0] == a.subrange(0, i)[0]);
        assert(b[0] == b.subrange(0, i)[0]);
        let a1 = a.drop_first();
        let b1 = b.drop_first();
        assert(a1.subrange(0, i - 1) =~= a.subrange(1, i));
        assert(b1.subrange(0, i - 1) =~= b.subrange(1, i));
        assert(a.subrange(1, i) =~= a.subrange(0, i).subrange(1, i));
        assert(b.subrange(1, i) =~= b.subrange(0, i).subrange(1, i));
        lemma_lex_lt_skip(a1, b1, i - 1);
        assert(a1.skip(i - 1) =~= a.skip(i));
        assert(b1.skip(i - 1) =~= b.skip(i));
    } else {
        assert(a.skip(0) =~= a);
        assert(b.skip(0) =~= b);
    }
}

/// Whether `a` orders before `b`.
pub fn text_less(a: &str, b: &str) -> (r: bool)
    ensures
        r == lex_lt(a@, b@),
{
    let n = a.unicode_len();
    let m = b.unicode_len();
    let mut i: usize = 0;
    while i < n && i < m
        invariant
            n == a@.len(),
            m == b@.len(),
            i <= n,
            i <= m,
            a@.subrange(0, i as int) == b@.subrange(0, i as int),
        decreases n - i,
    {
        let x = a.get_char(i);
        let y = b.get_char(i);
        if x != y {
            proof {
                lemma_lex_lt_skip(a@, b@, i as int);
                assert(a@.skip(i as int)[0] == x);
                assert(b@.skip(i as int)[0] == y);
            }
            return x < y;
        }
        proof {
            assert(a@.subrange(0, i + 1) =~= a@.subrange(0, i as int).push(x));
            assert(b@.subrange(0, i + 1) =~= b@.subrange(0, i as int).push(y));
        }
        i += 1;
    }
    proof {
        lemma_lex_lt_skip(a@, b@, i as int);
    }
    i == n && i < m
}

/// How the client answers a call invitation.
#[derive(Debug, Clone, Copy, PartialEq, Eq, Structural)]
pub enum InvitationDecision {
    /// The caller is on the ignore list.
    IgnoredCaller,
    /// This client's own id is unknown.
    UnknownClient,
    /// Too many calls are ringing: the invitation is rejected as busy (it was still listed).
    RejectBusy,
    /// The call rings with the given sound (it was listed).
    Ring(SourceType),
}

pub open spec fn holds_id(v: Seq<String>, id: Seq<char>) -> bool {
    exists|i: int| 0 <= i < v.len() && (#[trigger] v[i])@ == id
}

/// An invitation from an ignored caller is dropped silently; without an own client id it is
/// dropped too; with the limit of ringing calls reached it is rejected as busy; otherwise it
/// rings, with the priority ring for a priority call when priority calls are enabled.
pub open spec fn spec_invitation(
    ignored: Seq<String>,
    caller: Seq<char>,
    has_own_id: bool,
    incoming_calls: nat,
    prio: bool,
    enable_priority_calls: bool,
) -> InvitationDecision {
    if holds_id(ignored, caller) {
        InvitationDecision::IgnoredCaller
    } else if !has_own_id {
        InvitationDecision::UnknownClient
    } else if incoming_calls >= INCOMING_CALLS_LIMIT {
        InvitationDecision::RejectBusy
    } else if prio && enable_priority_calls {
        InvitationDecision::Ring(SourceType::PriorityRing)
    } else {
        InvitationDecision::Ring(SourceType::Ring)
    }
}

/// Decides on a call invitation, given the calls already ringing.
pub fn invitation_decision(
    ignored: &Vec<String>,
    caller: &String,
    own_client_id: &Option<String>,
    incoming_calls: usize,
    prio: bool,
    enable_priority_calls: bool,
) -> (r: InvitationDecision)
    ensures
        r == spec_invitation(
            ignored@,
            caller@,
            own_client_id is Some,
            incoming_calls as nat,
            prio,
            enable_priority_calls,
        ),
{
    let mut i: usize = 0;
    while i < ignored.len()
        invariant
            i <= ignored.len(),
            forall|k: int| 0 <= k < i ==> (#[trigger] ignored@[k])@ != caller@,
        decreases ignored.len() - i,
    {
        if ignored[i] == *caller {
            return InvitationDecision::IgnoredCaller;
        }
        i += 1;
    }
    if own_client_id.is_none() {
        return InvitationDecision::UnknownClient;
    }
    if incoming_calls >= INCOMING_CALLS_LIMIT {
        return InvitationDecision::RejectBusy;
    }
    if prio && enable_priority_calls {
        InvitationDecision::Ring(SourceType::PriorityRing)
    } else {
        InvitationDecision::Ring(SourceType::Ring)
    }
}

/// What a call update does to a ringing incoming call.
#[derive(Debug, Clone, Copy, PartialEq, Eq, Structural)]
pub enum IncomingUpdate {
    /// Nobody is left: the call is removed and the frontend ends it.
    Remove,
    /// The call's participants are updated and the frontend is told.
    Update,
}

/// An incoming call with nobody invited and nobody joined is over.
pub fn incoming_update(invited_empty: bool, joined_empty: bool) -> (r: IncomingUpdate)
    ensures
        r == (if invited_empty && joined_empty {
            IncomingUpdate::Remove
        } else {
            IncomingUpdate::Update
        }),
{
    if invited_empty && joined_empty {
        IncomingUpdate::Remove
    } else {
        IncomingUpdate::Update
    }
}

/// What a call update does to the current call.
#[derive(Debug, Clone, Copy, PartialEq, Eq, Structural)]
pub enum CurrentUpdate {
    /// The call is over for this client: timers cancelled, call cleaned up, frontend told.
    End,
    /// Nobody is invited any more: all timers of the call are cancelled and ringback stops.
    StopRinging,
    /// The timers of the newly joined targets are cancelled.
    CancelJoinedTimers,
}

/// A call ends for this client when nobody is left, or when this client was in it and no
/// longer is; otherwise the ringing stops once nobody is invited any more.
pub fn current_update(
    invited_empty: bool,
    joined_empty: bool,
    was_active: bool,
    is_active: bool,
) -> (r: CurrentUpdate)
    ensures
        r == (if (invited_empty && joined_empty) || (was_active && !is_active) {
            CurrentUpdate::End
        } else if invited_empty {
            CurrentUpdate::StopRinging
        } else {
            CurrentUpdate::CancelJoinedTimers
        }),
{
    if (invited_empty && joined_empty) || (was_active && !is_active) {
        CurrentUpdate::End
    } else if invited_empty {
        CurrentUpdate::StopRinging
    } else {
        CurrentUpdate::CancelJoinedTimers
    }
}

pub open spec fn offers_to(own: Seq<char>) -> spec_fn((String, CallTarget)) -> bool {
    |e: (String, CallTarget)| lex_lt(own, e.0@)
}

/// Of every pair of participants the one with the lower client id offers and the other
/// answers, whatever order the updates arrive in: the newly joined peers this client offers to.
pub fn offer_targets(own_client_id: &String, newly_joined: &Vec<(String, CallTarget)>) -> (r: Vec<
    (String, CallTarget),
>)
    ensures
        r@ == select(newly_joined@, offers_to(own_client_id@)),
{
    let ghost f = offers_to(own_client_id@);
    let mut out: Vec<(String, CallTarget)> = Vec::new();
    let mut i: usize = 0;
    while i < newly_joined.len()
        invariant
            i <= newly_joined.len(),
            f == offers_to(own_client_id@),
            out@ == select(newly_joined@.take(i as int), f),
        decreases newly_joined.len() - i,
    {
        proof {
            lemma_select_step(newly_joined@, f, i as int);
        }
        if text_less(own_client_id.as_str(), newly_joined[i].0.as_str()) {
            out.push((newly_joined[i].0.clone(), newly_joined[i].1.duplicate()));
        }
        i += 1;
    }
    proof {
        assert(newly_joined@.take(newly_joined@.len() as int) =~= newly_joined@);
    }
    out
}

/// Law: of two distinct participants exactly one offers to the other.
pub proof fn lemma_exactly_one_offers(a: Seq<char>, b: Seq<char>)
    requires
        a != b,
    ensures
        lex_lt(a, b) != lex_lt(b, a),
    decreases a.len(),
{
    if a.len() > 0 && b.len() > 0 && a[0] == b[0] {
        assert(a.drop_first() != b.drop_first()) by {
            if a.drop_first() == b.drop_first() {
                assert(a =~= seq![a[0]] + a.drop_first());
                assert(b =~= seq![b[0]] + b.drop_first());
            }
        }
        lemma_exactly_one_offers(a.drop_first(), b.drop_first());
    } else if a.len() == 0 && b.len() == 0 {
        assert(a =~= b);
    } else if a.len() > 0 && b.len() > 0 {
        assert(a[0] != b[0]);
        assert((a[0] as int) != (b[0] as int));
    }
}

/// Which call to accept.
#[derive(Debug, Clone, Copy, PartialEq, Eq, Structural)]
pub enum AcceptDecision {
    /// No call was named and none is ringing.
    NothingToAccept,
    /// Another call is active.
    CallActive,
    /// The named call is not ringing.
    NotIncoming,
    Accept(CallId),
}

pub open spec fn holds_call(ids: Seq<CallId>, id: CallId) -> bool {
    exists|i: int| 0 <= i < ids.len() && ids[i] == id
}

/// The named call, or else the first ringing one, is accepted, unless another call is active
/// or the call is not ringing.
pub open spec fn spec_accept(requested: Option<CallId>, incoming: Seq<CallId>, has_current: bool) -> AcceptDecision {
    let chosen = match requested {
        Some(id) => Some(id),
        None => if incoming.len() > 0 {
            Some(incoming[0])
        } else {
            None
        },
    };
    match chosen {
        None => AcceptDecision::NothingToAccept,
        Some(id) => if has_current {
            AcceptDecision::CallActive
        } else if !holds_call(incoming, id) {
            AcceptDecision::NotIncoming
        } else {
            AcceptDecision::Accept(id)
        },
    }
}

/// Decides which call accepting picks.
pub fn accept_decision(requested: Option<CallId>, incoming: &Vec<CallId>, has_current_call: bool) -> (r:
    AcceptDecision)
    ensures
        r == spec_accept(requested, incoming@, has_current_call),
{
    let id = match requested {
        Some(id) => id,
        None => if incoming.len() > 0 {
            incoming[0]
        } else {
            return AcceptDecision::NothingToAccept;
        },
    };
    if has_current_call {
        return AcceptDecision::CallActive;
    }
    let mut i: usize = 0;
    while i < incoming.len()
        invariant
            i <= incoming.len(),
            !has_current_call,
            requested is None ==> incoming@.len() > 0 && id == incoming@[0],
            requested matches Some(x) ==> id == x,
            forall|k: int| 0 <= k < i ==> incoming@[k] != id,
        decreases incoming.len() - i,
    {
        if incoming[i] == id {
            return AcceptDecision::Accept(id);
        }
        i += 1;
    }
    AcceptDecision::NotIncoming
}

/// Invitations join the current call when there is one; otherwise they start the fresh call.
pub fn invite_call_id(current: Option<CallId>, fresh: CallId) -> (r: CallId)
    ensures
        r == (match current {
            Some(id) => id,
            None => fresh,
        }),
{
    match current {
        Some(id) => id,
        None => fresh,
    }
}

/// The unanswered-call timers: at most one per target, each for a call.
#[derive(Debug)]
pub struct UnansweredTimers {
    pub timers: Vec<(CallTarget, CallId)>,
}

/// No target has two timers.
pub open spec fn timers_wf(t: Seq<(CallTarget, CallId)>) -> bool {
    forall|i: int, j: int|
        0 <= i < t.len() && 0 <= j < t.len() && i != j ==> target_key((#[trigger] t[i]).0)
            != target_key((#[trigger] t[j]).0)
}

/// The timers not for call `id`.
pub open spec fn keep_other_calls(id: CallId) -> spec_fn((CallTarget, CallId)) -> bool {
    |e: (CallTarget, CallId)| e.1 != id
}

/// The timers not on one of `targets`.
pub open spec fn keep_other_targets(targets: Seq<CallTarget>) -> spec_fn((CallTarget, CallId)) -> bool {
    |e: (CallTarget, CallId)| !has_target(targets, e.0)
}

/// The timers on `targets` that belong to call `id`: those are cancelled.
pub open spec fn cancelled_for(
    t: Seq<(CallTarget, CallId)>,
    targets: Seq<CallTarget>,
    id: CallId,
) -> Seq<(CallTarget, CallId)> {
    select(t, timer_hit(targets, id))
}

/// Holds of the timers on `targets` that belong to call `id`.
pub open spec fn timer_hit(targets: Seq<CallTarget>, id: CallId) -> spec_fn((CallTarget, CallId)) -> bool {
    |e: (CallTarget, CallId)| has_target(targets, e.0) && e.1 == id
}

fn copy_timer(e: &(CallTarget, CallId)) -> (r: (CallTarget, CallId))
    ensures
        r == *e,
{
    (e.0.duplicate(), e.1)
}

fn target_in(targets: &Vec<CallTarget>, t: &CallTarget) -> (r: bool)
    ensures
        r == has_target(targets@, *t),
{
    let mut i: usize = 0;
    while i < targets.len()
        invariant
            i <= targets.len(),
            forall|k: int| 0 <= k < i ==> target_key(#[trigger] targets@[k]) != target_key(*t),
        decreases targets.len() - i,
    {
        if same_target(&targets[i], t) {
            return true;
        }
        i += 1;
    }
    false
}

impl UnansweredTimers {
    pub fn new() -> (r: UnansweredTimers)
        ensures
            r.timers@.len() == 0,
    {
        UnansweredTimers { timers: Vec::new() }
    }

    /// Drops the timers on the given targets; those that belong to call `call_id` are returned
    /// for cancelling (a timer of another call on such a target is dropped without being
    /// cancelled).
    pub fn cancel_for_targets(&mut self, call_id: CallId, targets: &Vec<CallTarget>) -> (r: Vec<
        (CallTarget, CallId),
    >)
        ensures
            final(self).timers@ == select(old(self).timers@, keep_other_targets(targets@)),
            r@ == cancelled_for(old(self).timers@, targets@, call_id),
    {
        let ghost pre = self.timers@;
        let ghost keep = keep_other_targets(targets@);
        let ghost hit = timer_hit(targets@, call_id);
        let mut kept: Vec<(CallTarget, CallId)> = Vec::new();
        let mut cancelled: Vec<(CallTarget, CallId)> = Vec::new();
        let mut i: usize = 0;
        while i < self.timers.len()
            invariant
                i <= self.timers.len(),
                self.timers@ == pre,
                keep == keep_other_targets(targets@),
                hit == timer_hit(targets@, call_id),
                kept@ == select(pre.take(i as int), keep),
                cancelled@ == select(pre.take(i as int), hit),
            decreases self.timers.len() - i,
        {
            proof {
                lemma_select_step(pre, keep, i as int);
                lemma_select_step(pre, hit, i as int);
            }
            if target_in(targets, &self.timers[i].0) {
                if self.timers[i].1 == call_id {
                    cancelled.push(copy_timer(&self.timers[i]));
                }
            } else {
                kept.push(copy_timer(&self.timers[i]));
            }
            i += 1;
        }
        proof {
            assert(pre.take(pre.len() as int) =~= pre);
        }
        self.timers = kept;
        cancelled
    }

    /// Drops and returns every timer of call `call_id`.
    pub fn cancel_all(&mut self, call_id: CallId) -> (r: Vec<(CallTarget, CallId)>)
        ensures
            final(self).timers@ == select(old(self).timers@, keep_other_calls(call_id)),
            r@ == select(old(self).timers@, |e: (CallTarget, CallId)| e.1 == call_id),
    {
        let ghost pre = self.timers@;
        let ghost keep = keep_other_calls(call_id);
        let ghost hit = |e: (CallTarget, CallId)| e.1 == call_id;
        let mut kept: Vec<(CallTarget, CallId)> = Vec::new();
        let mut cancelled: Vec<(CallTarget, CallId)> = Vec::new();
        let mut i: usize = 0;
        while i < self.timers.len()
            invariant
                i <= self.timers.len(),
                self.timers@ == pre,
                keep == keep_other_calls(call_id),
                hit == (|e: (CallTarget, CallId)| e.1 == call_id),
                kept@ == select(pre.take(i as int), keep),
                cancelled@ == select(pre.take(i as int), hit),
            decreases self.timers.len() - i,
        {
            proof {
                lemma_select_step(pre, keep, i as int);
                lemma_select_step(pre, hit, i as int);
            }
            if self.timers[i].1 == call_id {
                cancelled.push(copy_timer(&self.timers[i]));
            } else {
                kept.push(copy_timer(&self.timers[i]));
            }
            i += 1;
        }
        proof {
            assert(pre.take(pre.len() as int) =~= pre);
        }
        self.timers = kept;
        cancelled
    }
}

/// A station covered by a position, and whether this client's position covers it.
#[derive(Debug)]
pub struct StationInfo {
    pub id: String,
    pub own: bool,
}

/// A change of station coverage.
#[derive(Debug)]
pub enum StationChange {
    Online { station_id: String, position_id: String },
    Handoff { station_id: String, to_position_id: String },
    Offline { station_id: String },
}

pub open spec fn is_own(own_position: Option<String>, position: Seq<char>) -> bool {
    own_position matches Some(p) && p@ == position
}

pub open spec fn station_is(id: Seq<char>) -> spec_fn(StationInfo) -> bool {
    |s: StationInfo| s.id@ == id
}

pub open spec fn station_is_not(id: Seq<char>) -> spec_fn(StationInfo) -> bool {
    |s: StationInfo| s.id@ != id
}

/// One change: an online station is appended, a handoff updates whether the first station
/// with that id is this client's own, an offline station is dropped (every entry with its id).
pub open spec fn spec_station_change(
    stations: Seq<StationInfo>,
    own_position: Option<String>,
    change: StationChange,
) -> Seq<StationInfo> {
    match change {
        StationChange::Online { station_id, position_id } => stations.push(
            StationInfo { id: station_id, own: is_own(own_position, position_id@) },
        ),
        StationChange::Handoff { station_id, to_position_id } => if exists|i: int|
            is_first(stations, station_is(station_id@), i) {
            let i = choose|i: int| is_first(stations, station_is(station_id@), i);
            stations.update(
                i,
                StationInfo { id: stations[i].id, own: is_own(own_position, to_position_id@) },
            )
        } else {
            stations
        },
        StationChange::Offline { station_id } => select(stations, station_is_not(station_id@)),
    }
}

/// The changes applied in order.
pub open spec fn spec_station_changes(
    stations: Seq<StationInfo>,
    own_position: Option<String>,
    changes: Seq<StationChange>,
) -> Seq<StationInfo>
    decreases changes.len(),
{
    if changes.len() == 0 {
        stations
    } else {
        spec_station_change(
            spec_station_changes(stations, own_position, changes.drop_last()),
            own_position,
            changes.last(),
        )
    }
}

fn own_position_is(own_position: &Option<String>, position: &String) -> (r: bool)
    ensures
        r == is_own(*own_position, position@),
{
    match own_position {
        Some(p) => *p == *position,
        None => false,
    }
}

/// Applies one station change.
fn apply_station_change(
    stations: &mut Vec<StationInfo>,
    own_position: &Option<String>,
    change: &StationChange,
)
    ensures
        final(stations)@ == spec_station_change(old(stations)@, *own_position, *change),
{
    match change {
        StationChange::Online { station_id, position_id } => {
            let own = own_position_is(own_position, position_id);
            stations.push(StationInfo { id: station_id.clone(), own });
        },
        StationChange::Handoff { station_id, to_position_id } => {
            let ghost pre = stations@;
            let mut i: usize = 0;
            while i < stations.len()
                invariant
                    i <= stations.len(),
                    stations@ == pre,
                    pre == old(stations)@,
                    *change == (StationChange::Handoff {
                        station_id: *station_id,
                        to_position_id: *to_position_id,
                    }),
                    forall|k: int| 0 <= k < i ==> !station_is(station_id@)(#[trigger] pre[k]),
                decreases stations.len() - i,
            {
                if stations[i].id == *station_id {
                    let own = own_position_is(own_position, to_position_id);
                    let id = stations[i].id.clone();
                    stations.set(i, StationInfo { id, own });
                    proof {
                        assert(is_first(pre, station_is(station_id@), i as int));
                        let j = choose|j: int| is_first(pre, station_is(station_id@), j);
                        lemma_first_unique(pre, station_is(station_id@), i as int, j);
                    }
                    return;
                }
                i += 1;
            }
            proof {
                if exists|j: int| is_first(pre, station_is(station_id@), j) {
                    let j = choose|j: int| is_first(pre, station_is(station_id@), j);
                    assert(station_is(station_id@)(pre[j]));
                }
            }
        },
        StationChange::Offline { station_id } => {
            let ghost pre = stations@;
            let ghost keep = station_is_not(station_id@);
            let mut kept: Vec<StationInfo> = Vec::new();
            let mut i: usize = 0;
            while i < stations.len()
                invariant
                    i <= stations.len(),
                    stations@ == pre,
                    pre == old(stations)@,
                    *change == (StationChange::Offline { station_id: *station_id }),
                    keep == station_is_not(station_id@),
                    kept@ == select(pre.take(i as int), keep),
                decreases stations.len() - i,
            {
                proof {
                    lemma_select_step(pre, keep, i as int);
                }
                if stations[i].id != *station_id {
                    kept.push(StationInfo { id: stations[i].id.clone(), own: stations[i].own });
                }
                i += 1;
            }
            proof {
                assert(pre.take(pre.len() as int) =~= pre);
            }
            *stations = kept;
        },
    }
}

/// Applies station changes in order, judging ownership by this client's position.
pub fn apply_station_changes(
    stations: &mut Vec<StationInfo>,
    own_position: &Option<String>,
    changes: &Vec<StationChange>,
)
    ensures
        final(stations)@ == spec_station_changes(old(stations)@, *own_position, changes@),
{
    let ghost start = stations@;
    let mut i: usize = 0;
    while i < changes.len()
        invariant
            i <= changes.len(),
            start == old(stations)@,
            stations@ == spec_station_changes(start, *own_position, changes@.take(i as int)),
        decreases changes.len() - i,
    {
        proof {
            assert(changes@.take(i + 1).drop_last() =~= changes@.take(i as int));
            assert(changes@.take(i + 1).last() == changes@[i as int]);
        }
        apply_station_change(stations, own_position, &changes[i]);
        i += 1;
    }
    proof {
        assert(changes@.take(changes@.len() as int) =~= changes@);
    }
}

/// A connected client by id, with what the server reports about it.
#[derive(Debug)]
pub struct ClientEntry<P> {
    pub id: String,
    pub info: P,
}

pub open spec fn client_is_not<P>(id: Seq<char>) -> spec_fn(ClientEntry<P>) -> bool {
    |c: ClientEntry<P>| c.id@ != id
}

/// Drops every client with the given id (a client disconnected).
pub fn remove_client<P>(clients: &mut Vec<ClientEntry<P>>, id: &String)
    ensures
        final(clients)@ == select(old(clients)@, client_is_not::<P>(id@)),
{
    let ghost pre = clients@;
    let ghost keep = client_is_not::<P>(id@);
    let ghost mut j: int = 0;
    let mut i: usize = 0;
    while i < clients.len()
        invariant
            0 <= j <= pre.len(),
            pre == old(clients)@,
            keep == client_is_not::<P>(id@),
            i == select(pre.take(j), keep).len(),
            clients@ == select(pre.take(j), keep) + pre.skip(j),
        decreases pre.len() - j,
    {
        proof {
            assert(clients@[i as int] == pre[j]);
            lemma_select_step(pre, keep, j);
        }
        if clients[i].id == *id {
            clients.remove(i);
            proof {
                assert(clients@ =~= select(pre.take(j + 1), keep) + pre.skip(j + 1));
                j = j + 1;
            }
        } else {
            proof {
                assert(clients@ =~= select(pre.take(j + 1), keep) + pre.skip(j + 1));
                j = j + 1;
            }
            i += 1;
        }
    }
    proof {
        if j < pre.len() {
            assert(clients@.len() > i);
        }
        assert(pre.take(pre.len() as int) =~= pre);
        assert(pre.skip(pre.len() as int) =~= Seq::<ClientEntry<P>>::empty());
        assert(clients@ =~= select(pre, keep));
    }
}

/// Replaces the first client with the info's id, or appends the info when none has it.
pub fn upsert_client<P>(clients: &mut Vec<ClientEntry<P>>, entry: ClientEntry<P>)
    ensures
        (exists|i: int| is_first(old(clients)@, client_is(entry.id@), i)) ==> final(clients)@
            == old(clients)@.update(
            choose|i: int| is_first(old(clients)@, client_is(entry.id@), i),
            entry,
        ),
        !(exists|i: int| is_first(old(clients)@, client_is(entry.id@), i)) ==> final(clients)@
            == old(clients)@.push(entry),
{
    let ghost pre = clients@;
    let mut i: usize = 0;
    while i < clients.len()
        invariant
            i <= clients.len(),
            clients@ == pre,
            pre == old(clients)@,
            forall|k: int| 0 <= k < i ==> !client_is::<P>(entry.id@)(#[trigger] pre[k]),
        decreases clients.len() - i,
    {
        if clients[i].id == entry.id {
            proof {
                assert(is_first(pre, client_is(entry.id@), i as int));
                let j = choose|j: int| is_first(pre, client_is(entry.id@), j);
                lemma_first_unique(pre, client_is(entry.id@), i as int, j);
            }
            clients.set(i, entry);
            return;
        }
        i += 1;
    }
    proof {
        if exists|j: int| is_first(pre, client_is(entry.id@), j) {
            let j = choose|j: int| is_first(pre, client_is(entry.id@), j);
            assert(client_is::<P>(entry.id@)(pre[j]));
        }
    }
    clients.push(entry);
}

pub open spec fn client_is<P>(id: Seq<char>) -> spec_fn(ClientEntry<P>) -> bool {
    |c: ClientEntry<P>| c.id@ == id
}

} // verus!
