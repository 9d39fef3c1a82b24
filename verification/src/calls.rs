//! Call bookkeeping: who is invited to a call, who has joined, and what changed with an update.

use vstd::prelude::*;
use crate::seqs::{lemma_select_contains, lemma_select_step, select};

verus! {

/// Identifier of a call.
pub type CallId = u128;

/// Who a call is addressed to.
#[derive(Debug)]
pub enum CallTarget {
    Client(String),
    Position(String),
    Station(String),
}

/// A target by its kind and id.
pub open spec fn target_key(t: CallTarget) -> (int, Seq<char>) {
    match t {
        CallTarget::Client(id) => (0, id@),
        CallTarget::Position(id) => (1, id@),
        CallTarget::Station(id) => (2, id@),
    }
}

impl CallTarget {
    pub fn duplicate(&self) -> (r: CallTarget)
        ensures
            r == *self,
    {
        match self {
            CallTarget::Client(id) => CallTarget::Client(id.clone()),
            CallTarget::Position(id) => CallTarget::Position(id.clone()),
            CallTarget::Station(id) => CallTarget::Station(id.clone()),
        }
    }
}

/// Whether two targets are the same.
pub fn same_target(a: &CallTarget, b: &CallTarget) -> (r: bool)
    ensures
        r == (target_key(*a) == target_key(*b)),
{
    match (a, b) {
        (CallTarget::Client(x), CallTarget::Client(y)) => *x == *y,
        (CallTarget::Position(x), CallTarget::Position(y)) => *x == *y,
        (CallTarget::Station(x), CallTarget::Station(y)) => *x == *y,
        _ => false,
    }
}

impl PartialEq for CallTarget {
    fn eq(&self, other: &Self) -> (r: bool) {
        same_target(self, other)
    }
}

impl vstd::std_specs::cmp::PartialEqSpecImpl for CallTarget {
    open spec fn obeys_eq_spec() -> bool {
        true
    }

    open spec fn eq_spec(&self, other: &Self) -> bool {
        target_key(*self) == target_key(*other)
    }
}

impl Eq for CallTarget {}

/// The targets hold `t`.
pub open spec fn has_target(s: Seq<CallTarget>, t: CallTarget) -> bool {
    exists|i: int| 0 <= i < s.len() && target_key(#[trigger] s[i]) == target_key(t)
}

/// No target occurs twice.
pub open spec fn distinct_targets(s: Seq<CallTarget>) -> bool {
    forall|i: int, j: int|
        0 <= i < s.len() && 0 <= j < s.len() && i != j ==> target_key(#[trigger] s[i]) != target_key(
            #[trigger] s[j],
        )
}

/// The participants hold client `id`.
pub open spec fn has_client(p: Seq<(String, CallTarget)>, id: Seq<char>) -> bool {
    exists|i: int| 0 <= i < p.len() && (#[trigger] p[i]).0@ == id
}

/// No client joined twice.
pub open spec fn distinct_clients(p: Seq<(String, CallTarget)>) -> bool {
    forall|i: int, j: int|
        0 <= i < p.len() && 0 <= j < p.len() && i != j ==> (#[trigger] p[i]).0@ != (
        #[trigger] p[j]).0@
}

/// Whether the targets hold `t`.
pub fn contains_target(s: &Vec<CallTarget>, t: &CallTarget) -> (r: bool)
    ensures
        r == has_target(s@, *t),
{
    let mut i: usize = 0;
    while i < s.len()
        invariant
            i <= s.len(),
            forall|k: int| 0 <= k < i ==> target_key(#[trigger] s@[k]) != target_key(*t),
        decreases s.len() - i,
    {
        if same_target(&s[i], t) {
            return true;
        }
        i += 1;
    }
    false
}

/// Whether the participants hold client `id`.
pub fn contains_client(p: &Vec<(String, CallTarget)>, id: &String) -> (r: bool)
    ensures
        r == has_client(p@, id@),
{
    let mut i: usize = 0;
    while i < p.len()
        invariant
            i <= p.len(),
            forall|k: int| 0 <= k < i ==> (#[trigger] p@[k]).0@ != id@,
        decreases p.len() - i,
    {
        if p[i].0 == *id {
            return true;
        }
        i += 1;
    }
    false
}

/// Where a call invite comes from.
#[derive(Debug)]
pub struct CallSource {
    pub client_id: String,
    pub position_id: Option<String>,
    pub station_id: Option<String>,
}

/// A call this client starts.
#[derive(Debug)]
pub struct CallInvite {
    pub call_id: CallId,
    pub source: CallSource,
    pub targets: Vec<CallTarget>,
    pub prio: bool,
}

/// A call this client is invited to.
#[derive(Debug)]
pub struct CallInvitation {
    pub call_id: CallId,
    pub source: CallSource,
    pub target: CallTarget,
    pub invited_targets: Vec<CallTarget>,
    pub joined_participants: Vec<(String, CallTarget)>,
    pub conference_leader: Option<String>,
    pub prio: bool,
}

/// A call's invited targets and joined participants (each joined client with the target it
/// joined as).
#[derive(Debug)]
pub struct Call {
    pub call_id: CallId,
    pub invited_targets: Vec<CallTarget>,
    pub joined_participants: Vec<(String, CallTarget)>,
    pub conference_leader: Option<String>,
}

/// No target is invited twice and no client joined twice.
pub open spec fn call_wf(c: Call) -> bool {
    distinct_targets(c.invited_targets@) && distinct_clients(c.joined_participants@)
}

pub open spec fn spec_is_active(c: Call, own: Seq<char>) -> bool {
    has_client(c.joined_participants@, own)
}

/// Participants of `joined` that were not in `before`.
pub open spec fn newly_joined(
    joined: Seq<(String, CallTarget)>,
    before: Seq<(String, CallTarget)>,
) -> Seq<(String, CallTarget)> {
    select(joined, |e: (String, CallTarget)| !has_client(before, e.0@))
}

/// Participants other than this client.
pub open spec fn others(joined: Seq<(String, CallTarget)>, own: Seq<char>) -> Seq<
    (String, CallTarget),
> {
    select(joined, not_client(own))
}

/// Holds of every participant but client `own`.
pub open spec fn not_client(own: Seq<char>) -> spec_fn((String, CallTarget)) -> bool {
    |e: (String, CallTarget)| e.0@ != own
}

/// Clients of `before` that are no longer in `joined`.
pub open spec fn left_clients(
    before: Seq<(String, CallTarget)>,
    joined: Seq<(String, CallTarget)>,
) -> Seq<String> {
    select(before, |e: (String, CallTarget)| !has_client(joined, e.0@)).map_values(
        |e: (String, CallTarget)| e.0,
    )
}

/// What an update reports: while this client stays in the call, who joined and who left since
/// the last update; on joining, every other participant; while not in the call, nothing.
pub open spec fn spec_update_delta(
    before: Seq<(String, CallTarget)>,
    own: Seq<char>,
    joined: Seq<(String, CallTarget)>,
) -> (Seq<(String, CallTarget)>, Seq<String>) {
    if has_client(joined, own) {
        if has_client(before, own) {
            (newly_joined(joined, before), left_clients(before, joined))
        } else {
            (others(joined, own), seq![])
        }
    } else {
        (seq![], seq![])
    }
}

fn copy_entry(e: &(String, CallTarget)) -> (r: (String, CallTarget))
    ensures
        r == *e,
{
    (e.0.clone(), e.1.duplicate())
}

/// Targets of `s` that are not in `drop`.
pub open spec fn targets_without(s: Seq<CallTarget>, drop: Seq<CallTarget>) -> Seq<CallTarget> {
    select(s, |t: CallTarget| !has_target(drop, t))
}

/// `s` extended by each target of `add` it does not hold yet, in order.
pub open spec fn targets_union(s: Seq<CallTarget>, add: Seq<CallTarget>) -> Seq<CallTarget>
    decreases add.len(),
{
    if add.len() == 0 {
        s
    } else {
        let r = targets_union(s, add.drop_last());
        if has_target(r, add.last()) {
            r
        } else {
            r.push(add.last())
        }
    }
}

impl Call {
    /// A call this client starts: the invite's targets are invited, nobody has joined.
    pub fn from_invite(invite: &CallInvite) -> (r: Call)
        ensures
            r.call_id == invite.call_id,
            r.invited_targets@ == invite.targets@,
            r.joined_participants@.len() == 0,
            r.conference_leader is None,
    {
        let mut targets: Vec<CallTarget> = Vec::new();
        let mut i: usize = 0;
        while i < invite.targets.len()
            invariant
                i <= invite.targets.len(),
                targets@ == invite.targets@.take(i as int),
            decreases invite.targets.len() - i,
        {
            targets.push(invite.targets[i].duplicate());
            i += 1;
            proof {
                assert(targets@ =~= invite.targets@.take(i as int));
            }
        }
        proof {
            assert(targets@ =~= invite.targets@);
        }
        Call {
            call_id: invite.call_id,
            invited_targets: targets,
            joined_participants: Vec::new(),
            conference_leader: None,
        }
    }

    /// A call this client is invited to, as the invitation describes it.
    pub fn from_invitation(invitation: CallInvitation) -> (r: Call)
        ensures
            r.call_id == invitation.call_id,
            r.invited_targets == invitation.invited_targets,
            r.joined_participants == invitation.joined_participants,
            r.conference_leader == invitation.conference_leader,
    {
        Call {
            call_id: invitation.call_id,
            invited_targets: invitation.invited_targets,
            joined_participants: invitation.joined_participants,
            conference_leader: invitation.conference_leader,
        }
    }

    pub fn call_id(&self) -> (r: CallId)
        ensures
            r == self.call_id,
    {
        self.call_id
    }

    /// Invites more targets; targets already invited stay as they are.
    pub fn add_invited_targets(&mut self, targets: Vec<CallTarget>)
        requires
            distinct_targets(old(self).invited_targets@),
        ensures
            final(self).invited_targets@ == targets_union(old(self).invited_targets@, targets@),
            final(self).joined_participants == old(self).joined_participants,
            final(self).call_id == old(self).call_id,
            final(self).conference_leader == old(self).conference_leader,
    {
        let ghost start = self.invited_targets@;
        let mut i: usize = 0;
        while i < targets.len()
            invariant
                i <= targets.len(),
                self.invited_targets@ == targets_union(start, targets@.take(i as int)),
                self.joined_participants == old(self).joined_participants,
                self.call_id == old(self).call_id,
                self.conference_leader == old(self).conference_leader,
            decreases targets.len() - i,
        {
            proof {
                assert(targets@.take(i + 1).drop_last() =~= targets@.take(i as int));
                assert(targets@.take(i + 1).last() == targets@[i as int]);
            }
            if !contains_target(&self.invited_targets, &targets[i]) {
                let t = targets[i].duplicate();
                self.invited_targets.push(t);
            }
            i += 1;
        }
        proof {
            assert(targets@.take(targets@.len() as int) =~= targets@);
        }
    }

    /// Withdraws the invitation of the given targets.
    pub fn remove_invited_targets(&mut self, targets: &Vec<CallTarget>)
        ensures
            final(self).invited_targets@ == targets_without(old(self).invited_targets@, targets@),
            final(self).joined_participants == old(self).joined_participants,
            final(self).call_id == old(self).call_id,
            final(self).conference_leader == old(self).conference_leader,
    {
        let ghost start = self.invited_targets@;
        let ghost keep = |t: CallTarget| !has_target(targets@, t);
        let mut kept: Vec<CallTarget> = Vec::new();
        let mut i: usize = 0;
        while i < self.invited_targets.len()
            invariant
                i <= self.invited_targets.len(),
                self.invited_targets@ == start,
                keep == (|t: CallTarget| !has_target(targets@, t)),
                kept@ == select(start.take(i as int), keep),
            decreases self.invited_targets.len() - i,
        {
            proof {
                lemma_select_step(start, keep, i as int);
            }
            if !contains_target(targets, &self.invited_targets[i]) {
                kept.push(self.invited_targets[i].duplicate());
            }
            i += 1;
        }
        proof {
            assert(start.take(start.len() as int) =~= start);
        }
        self.invited_targets = kept;
    }

    /// Whether this client has joined the call.
    pub fn is_active(&self, own_client_id: &String) -> (r: bool)
        ensures
            r == spec_is_active(*self, own_client_id@),
    {
        contains_client(&self.joined_participants, own_client_id)
    }

    /// Whether nobody is invited and nobody has joined.
    pub fn is_empty(&self) -> (r: bool)
        ensures
            r == (self.joined_participants@.len() == 0 && self.invited_targets@.len() == 0),
    {
        self.joined_participants.len() == 0 && self.invited_targets.len() == 0
    }

    /// Replaces the invited targets, the participants and the conference leader, and reports
    /// who joined and who left (see `spec_update_delta`).
    pub fn update(
        &mut self,
        own_client_id: &String,
        invited_targets: Vec<CallTarget>,
        joined_participants: Vec<(String, CallTarget)>,
        conference_leader: Option<String>,
    ) -> (r: (Vec<(String, CallTarget)>, Vec<String>))
        ensures
            final(self).call_id == old(self).call_id,
            final(self).invited_targets == invited_targets,
            final(self).joined_participants == joined_participants,
            final(self).conference_leader == conference_leader,
            (r.0@, r.1@) == spec_update_delta(
                old(self).joined_participants@,
                own_client_id@,
                joined_participants@,
            ),
    {
        let ghost before = self.joined_participants@;
        let ghost joined = joined_participants@;
        let mut added: Vec<(String, CallTarget)> = Vec::new();
        let mut removed: Vec<String> = Vec::new();
        if contains_client(&joined_participants, own_client_id) {
            if self.is_active(own_client_id) {
                let ghost f = |e: (String, CallTarget)| !has_client(before, e.0@);
                let mut i: usize = 0;
                while i < joined_participants.len()
                    invariant
                        i <= joined_participants.len(),
                        joined_participants@ == joined,
                        self.joined_participants@ == before,
                        f == (|e: (String, CallTarget)| !has_client(before, e.0@)),
                        added@ == select(joined.take(i as int), f),
                    decreases joined_participants.len() - i,
                {
                    proof {
                        lemma_select_step(joined, f, i as int);
                    }
                    if !contains_client(&self.joined_participants, &joined_participants[i].0) {
                        added.push(copy_entry(&joined_participants[i]));
                    }
                    i += 1;
                }
                let ghost g = |e: (String, CallTarget)| !has_client(joined, e.0@);
                let mut j: usize = 0;
                while j < self.joined_participants.len()
                    invariant
                        j <= self.joined_participants.len(),
                        joined_participants@ == joined,
                        self.joined_participants@ == before,
                        g == (|e: (String, CallTarget)| !has_client(joined, e.0@)),
                        removed@ == select(before.take(j as int), g).map_values(
                            |e: (String, CallTarget)| e.0,
                        ),
                    decreases self.joined_participants.len() - j,
                {
                    proof {
                        lemma_select_step(before, g, j as int);
                    }
                    if !contains_client(&joined_participants, &self.joined_participants[j].0) {
                        let id = self.joined_participants[j].0.clone();
                        removed.push(id);
                        proof {
                            assert(removed@ =~= select(before.take(j + 1), g).map_values(
                                |e: (String, CallTarget)| e.0,
                            ));
                        }
                    }
                    j += 1;
                }
                proof {
                    assert(joined.take(joined.len() as int) =~= joined);
                    assert(before.take(before.len() as int) =~= before);
                }
            } else {
                let ghost f = not_client(own_client_id@);
                let mut i: usize = 0;
                while i < joined_participants.len()
                    invariant
                        i <= joined_participants.len(),
                        joined_participants@ == joined,
                        f == not_client(own_client_id@),
                        added@ == select(joined.take(i as int), f),
                    decreases joined_participants.len() - i,
                {
                    proof {
                        lemma_select_step(joined, f, i as int);
                    }
                    if joined_participants[i].0 != *own_client_id {
                        added.push(copy_entry(&joined_participants[i]));
                    }
                    i += 1;
                }
                proof {
                    assert(joined.take(joined.len() as int) =~= joined);
                }
            }
        }
        self.invited_targets = invited_targets;
        self.conference_leader = conference_leader;
        self.joined_participants = joined_participants;
        (added, removed)
    }
}

/// Law: an update never reports this client itself as joined or left, every reported joiner is
/// a participant now, and every reported leaver was one before and is not any more.
/// Keeping only what `f` holds of changes nothing where `f` holds of everything.
proof fn lemma_select_all(s: Seq<CallTarget>, f: spec_fn(CallTarget) -> bool)
    requires
        forall|i: int| 0 <= i < s.len() ==> f(#[trigger] s[i]),
    ensures
        select(s, f) == s,
    decreases s.len(),
{
    if s.len() > 0 {
        lemma_select_all(s.drop_last(), f);
        assert(f(s[s.len() - 1]));
        assert(select(s.drop_last(), f).push(s.last()) =~= s);
    }
}

/// Targets merged in from `a`, all of which `d` holds, are dropped again by withdrawing `d`.
proof fn lemma_union_then_without(s: Seq<CallTarget>, a: Seq<CallTarget>, d: Seq<CallTarget>)
    requires
        forall|i: int| 0 <= i < a.len() ==> has_target(d, #[trigger] a[i]),
    ensures
        targets_without(targets_union(s, a), d) == targets_without(s, d),
    decreases a.len(),
{
    let keep = |t: CallTarget| !has_target(d, t);
    if a.len() > 0 {
        let rest = a.drop_last();
        assert forall|i: int| 0 <= i < rest.len() implies has_target(d, #[trigger] rest[i]) by {
            assert(rest[i] == a[i]);
        }
        lemma_union_then_without(s, rest, d);
        let r = targets_union(s, rest);
        if !has_target(r, a.last()) {
            assert(has_target(d, a[a.len() - 1]));
            assert(r.push(a.last()).drop_last() =~= r);
            assert(select(r.push(a.last()), keep) == select(r, keep));
        }
    }
}

/// Withdrawing the invitations just sent undoes them: inviting targets none of which was
/// invited yet, then withdrawing the same targets, leaves the invited targets as they were.
pub proof fn lemma_withdraw_undoes_invite(invited: Seq<CallTarget>, targets: Seq<CallTarget>)
    requires
        forall|i: int| 0 <= i < invited.len() ==> !has_target(targets, #[trigger] invited[i]),
    ensures
        targets_without(targets_union(invited, targets), targets) == invited,
{
    assert forall|i: int| 0 <= i < targets.len() implies has_target(targets, #[trigger] targets[i]) by {
        assert(target_key(targets[i]) == target_key(targets[i]));
    }
    lemma_union_then_without(invited, targets, targets);
    lemma_select_all(invited, |t: CallTarget| !has_target(targets, t));
}

/// Law: a call update never reports this client as joined or left; whoever it reports as joined
/// is a participant now, and whoever it reports as left was one before and is one no longer.
pub proof fn lemma_update_delta_sound(
    before: Seq<(String, CallTarget)>,
    own: Seq<char>,
    joined: Seq<(String, CallTarget)>,
)
    ensures
        ({
            let (added, removed) = spec_update_delta(before, own, joined);
            &&& forall|i: int| 0 <= i < added.len() ==> (#[trigger] added[i]).0@ != own
                && joined.contains(added[i])
            &&& forall|j: int| 0 <= j < removed.len() ==> (#[trigger] removed[j])@ != own
                && has_client(before, removed[j]@) && !has_client(joined, removed[j]@)
        }),
{
    let (added, removed) = spec_update_delta(before, own, joined);
    if has_client(joined, own) {
        if has_client(before, own) {
            let f = |e: (String, CallTarget)| !has_client(before, e.0@);
            let g = |e: (String, CallTarget)| !has_client(joined, e.0@);
            assert forall|i: int| 0 <= i < added.len() implies (#[trigger] added[i]).0@ != own
                && joined.contains(added[i]) by {
                assert(select(joined, f).contains(added[i]));
                lemma_select_contains(joined, f, added[i]);
            }
            assert forall|j: int| 0 <= j < removed.len() implies (#[trigger] removed[j])@ != own
                && has_client(before, removed[j]@) && !has_client(joined, removed[j]@) by {
                let sel = select(before, g);
                assert(removed[j] == sel[j].0);
                assert(sel.contains(sel[j]));
                lemma_select_contains(before, g, sel[j]);
                let k = choose|k: int| 0 <= k < before.len() && before[k] == sel[j];
                assert(before[k].0@ == removed[j]@);
            }
        } else {
            let f = not_client(own);
            assert forall|i: int| 0 <= i < added.len() implies (#[trigger] added[i]).0@ != own
                && joined.contains(added[i]) by {
                assert(added.contains(added[i]));
                lemma_select_contains(joined, f, added[i]);
            }
        }
    }
}

} // verus!
