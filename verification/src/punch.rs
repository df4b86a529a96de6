//! The hole-punch coordinator: who is waiting for which target to answer,
//! and until when.

use crate::addr::{IpAddress, SocketAddress};
use crate::peer_id::PeerId;
use crate::time::{later_by, Instant};
use vstd::prelude::*;

verus! {

/// The caller's name for a TCP stream that it keeps open on the
/// coordinator's behalf.
pub type StreamId = u64;

/// Milliseconds a target has to answer, unless the coordinator is made with
/// another limit.
pub const DEFAULT_DEADLINE_MILLIS: u32 = 3000;

/// Milliseconds between two calls of `expire`, at most, for a context to be
/// gone within a second of its deadline.
pub const EXPIRY_TICK_MILLIS: u32 = 1000;

/// Where a hole-punch context stands. The coordinator holds the waiting ones
/// only: a context that is matched or expired leaves it for good.
#[derive(Debug, Clone, Copy, PartialEq, Eq, Structural)]
pub enum PunchState {
    AwaitingTargetRelay,
    Matched,
    Expired,
}

/// One pending hole-punch: an initiator whose stream is parked until the
/// target answers or the deadline passes.
#[derive(Debug)]
pub struct HolePunchContext {
    pub initiator_addr: SocketAddress,
    pub target_id: PeerId,
    /// Where the request for a relay was sent: the target's last known address.
    pub target_addr: SocketAddress,
    pub saved_stream: StreamId,
    pub deadline: Instant,
    pub state: PunchState,
}

/// A context as plain values.
pub struct ContextView {
    pub initiator_addr: SocketAddress,
    pub target_id: Seq<char>,
    pub target_addr: SocketAddress,
    pub saved_stream: StreamId,
    pub deadline: nat,
    pub state: PunchState,
}

impl View for HolePunchContext {
    type V = ContextView;

    open spec fn view(&self) -> ContextView {
        ContextView {
            initiator_addr: self.initiator_addr,
            target_id: self.target_id@,
            target_addr: self.target_addr,
            saved_stream: self.saved_stream,
            deadline: self.deadline@,
            state: self.state,
        }
    }
}

/// What a context is looked for by.
pub enum Probe {
    /// The context that waits for this target.
    Target(Seq<char>),
    /// A context whose target sits at this IP address and whose deadline lies
    /// after this reading.
    Responder(IpAddress, nat),
}

/// Whether `c` is what `probe` looks for.
pub open spec fn hits(c: ContextView, probe: Probe) -> bool {
    match probe {
        Probe::Target(id) => c.target_id == id,
        Probe::Responder(ip, now) => c.target_addr.ip == ip && now < c.deadline,
    }
}

/// The place of the first context of `s` that `probe` hits, or the length
/// of `s` if it hits none.
pub open spec fn first_hit(s: Seq<ContextView>, probe: Probe) -> int
    decreases s.len(),
{
    if s.len() == 0 {
        0
    } else if hits(s[0], probe) {
        0
    } else {
        1 + first_hit(s.drop_first(), probe)
    }
}

/// `c` in the state `state`.
pub open spec fn in_state(c: ContextView, state: PunchState) -> ContextView {
    ContextView { state, ..c }
}

/// The waiting context of an initiator at `initiator_addr`, with its stream
/// parked under `stream`, for the target `target_id` at `target_addr`.
pub open spec fn waiting(
    target_id: Seq<char>,
    target_addr: SocketAddress,
    initiator_addr: SocketAddress,
    stream: StreamId,
    deadline: nat,
) -> ContextView {
    ContextView {
        initiator_addr,
        target_id,
        target_addr,
        saved_stream: stream,
        deadline,
        state: PunchState::AwaitingTargetRelay,
    }
}

/// `s` without the first context that `probe` hits.
pub open spec fn without_first(s: Seq<ContextView>, probe: Probe) -> Seq<ContextView> {
    if first_hit(s, probe) < s.len() {
        s.remove(first_hit(s, probe))
    } else {
        s
    }
}

/// The first context of `s` that `probe` hits, in the state `state`.
pub open spec fn taken_first(s: Seq<ContextView>, probe: Probe, state: PunchState) -> Option<ContextView> {
    if first_hit(s, probe) < s.len() {
        Some(in_state(s[first_hit(s, probe)], state))
    } else {
        None
    }
}

/// The contexts of `s` whose deadline lies after `now`, in their order.
pub open spec fn pending_at(s: Seq<ContextView>, now: nat) -> Seq<ContextView>
    decreases s.len(),
{
    if s.len() == 0 {
        s
    } else if now < s.last().deadline {
        pending_at(s.drop_last(), now).push(s.last())
    } else {
        pending_at(s.drop_last(), now)
    }
}

/// The contexts of `s` whose deadline lies at or before `now`, in their
/// order, each one expired.
pub open spec fn expired_at(s: Seq<ContextView>, now: nat) -> Seq<ContextView>
    decreases s.len(),
{
    if s.len() == 0 {
        s
    } else if now < s.last().deadline {
        expired_at(s.drop_last(), now)
    } else {
        expired_at(s.drop_last(), now).push(in_state(s.last(), PunchState::Expired))
    }
}

/// `first_hit` is the place of a hit, or the length, and nothing before it
/// is a hit.
pub proof fn lemma_first_hit(s: Seq<ContextView>, probe: Probe)
    ensures
        0 <= first_hit(s, probe) <= s.len(),
        first_hit(s, probe) < s.len() ==> hits(s[first_hit(s, probe)], probe),
        forall|j: int| 0 <= j < first_hit(s, probe) ==> !hits(#[trigger] s[j], probe),
    decreases s.len(),
{
    if s.len() > 0 && !hits(s[0], probe) {
        let t = s.drop_first();
        lemma_first_hit(t, probe);
        assert forall|j: int| 0 <= j < first_hit(s, probe) implies !hits(#[trigger] s[j], probe) by {
            if j > 0 {
                assert(s[j] == t[j - 1]);
            }
        }
    }
}

/// A place with no hit before it that is a hit itself, or the length, is
/// what `first_hit` says.
pub proof fn lemma_first_hit_is(s: Seq<ContextView>, probe: Probe, k: int)
    requires
        0 <= k <= s.len(),
        k < s.len() ==> hits(s[k], probe),
        forall|j: int| 0 <= j < k ==> !hits(#[trigger] s[j], probe),
    ensures
        first_hit(s, probe) == k,
{
    lemma_first_hit(s, probe);
}

proof fn lemma_unfold_pending(s: Seq<ContextView>, j: int, now: nat)
    requires
        0 <= j < s.len(),
    ensures
        pending_at(s.take(j + 1), now) == if now < s[j].deadline {
            pending_at(s.take(j), now).push(s[j])
        } else {
            pending_at(s.take(j), now)
        },
        expired_at(s.take(j + 1), now) == if now < s[j].deadline {
            expired_at(s.take(j), now)
        } else {
            expired_at(s.take(j), now).push(in_state(s[j], PunchState::Expired))
        },
{
    assert(s.take(j + 1).drop_last() =~= s.take(j));
}

/// Every context of `s` is in `pending_at` or, expired, in `expired_at`,
/// by its deadline.
pub proof fn lemma_split_by_deadline(s: Seq<ContextView>, now: nat, i: int)
    requires
        0 <= i < s.len(),
    ensures
        now < s[i].deadline ==> pending_at(s, now).contains(s[i]),
        s[i].deadline <= now ==> expired_at(s, now).contains(in_state(s[i], PunchState::Expired)),
        forall|c: ContextView| #[trigger] pending_at(s, now).contains(c) ==> s.contains(c) && now < c.deadline,
    decreases s.len(),
{
    let rest = s.drop_last();
    let last = s.last();
    if i < s.len() - 1 {
        lemma_split_by_deadline(rest, now, i);
        if now < s[i].deadline {
            let k = choose|k: int| 0 <= k < pending_at(rest, now).len() && pending_at(rest, now)[k] == s[i];
            assert(pending_at(s, now)[k] == s[i]);
        } else {
            let e = in_state(s[i], PunchState::Expired);
            let k = choose|k: int| 0 <= k < expired_at(rest, now).len() && expired_at(rest, now)[k] == e;
            assert(expired_at(s, now)[k] == e);
        }
    } else {
        if now < last.deadline {
            assert(pending_at(s, now)[pending_at(rest, now).len() as int] == last);
        } else {
            assert(expired_at(s, now)[expired_at(rest, now).len() as int] == in_state(last, PunchState::Expired));
        }
    }
    assert forall|c: ContextView| #[trigger] pending_at(s, now).contains(c) implies s.contains(c) && now < c.deadline by {
        let k = choose|k: int| 0 <= k < pending_at(s, now).len() && pending_at(s, now)[k] == c;
        if rest.len() > 0 {
            lemma_split_by_deadline(rest, now, 0);
        }
        if !(now < last.deadline && k == pending_at(rest, now).len()) {
            assert(pending_at(rest, now).contains(c));
        }
    }
}

spec fn views(cs: Seq<HolePunchContext>) -> Seq<ContextView> {
    cs.map_values(|c: HolePunchContext| c@)
}

/// All contexts wait, and no two wait for the same target.
pub open spec fn well_formed(s: Seq<ContextView>) -> bool {
    &&& forall|i: int| 0 <= i < s.len() ==> (#[trigger] s[i]).state == PunchState::AwaitingTargetRelay
    &&& forall|i: int, j: int| 0 <= i < j < s.len() ==> (#[trigger] s[i]).target_id != (#[trigger] s[j]).target_id
}

/// The pending hole-punches, oldest first, at most one per target.
pub struct HolePunchCoordinator {
    contexts: Vec<HolePunchContext>,
    deadline_millis: u32,
}

impl View for HolePunchCoordinator {
    type V = Seq<ContextView>;

    closed spec fn view(&self) -> Seq<ContextView> {
        views(self.contexts@)
    }
}

impl HolePunchCoordinator {
    /// Milliseconds that a target has to answer.
    pub closed spec fn limit(&self) -> u32 {
        self.deadline_millis
    }

    /// What holds of every coordinator.
    pub open spec fn wf(&self) -> bool {
        well_formed(self@)
    }

    /// A coordinator with nothing pending, whose targets get
    /// `deadline_millis` milliseconds to answer.
    pub fn new(deadline_millis: u32) -> (r: HolePunchCoordinator)
        ensures
            r.wf(),
            r@ == Seq::<ContextView>::empty(),
            r.limit() == deadline_millis,
    {
        let r = HolePunchCoordinator { contexts: Vec::new(), deadline_millis };
        r
    }

    /// How many hole-punches are pending.
    pub fn len(&self) -> (n: usize)
        ensures
            n == self@.len(),
    {
        self.contexts.len()
    }

    fn find_target(&self, id: &PeerId) -> (k: usize)
        ensures
            k == first_hit(self@, Probe::Target(id@)),
            k <= self.contexts@.len(),
    {
        let mut i: usize = 0;
        while i < self.contexts.len()
            invariant
                i <= self.contexts@.len(),
                forall|j: int| 0 <= j < i ==> !hits(#[trigger] self@[j], Probe::Target(id@)),
            decreases self.contexts@.len() - i,
        {
            if self.contexts[i].target_id == *id {
                proof {
                    lemma_first_hit_is(self@, Probe::Target(id@), i as int);
                }
                return i;
            }
            i += 1;
        }
        proof {
            lemma_first_hit_is(self@, Probe::Target(id@), i as int);
        }
        i
    }

    fn find_responder(&self, ip: IpAddress, now: Instant) -> (k: usize)
        ensures
            k == first_hit(self@, Probe::Responder(ip, now@)),
            k <= self.contexts@.len(),
    {
        let mut i: usize = 0;
        while i < self.contexts.len()
            invariant
                i <= self.contexts@.len(),
                forall|j: int| 0 <= j < i ==> !hits(#[trigger] self@[j], Probe::Responder(ip, now@)),
            decreases self.contexts@.len() - i,
        {
            if self.contexts[i].target_addr.ip == ip && !now.reached(&self.contexts[i].deadline) {
                proof {
                    lemma_first_hit_is(self@, Probe::Responder(ip, now@), i as int);
                }
                return i;
            }
            i += 1;
        }
        proof {
            lemma_first_hit_is(self@, Probe::Responder(ip, now@), i as int);
        }
        i
    }

    fn take_at(&mut self, k: usize, state: PunchState) -> (c: HolePunchContext)
        requires
            k < old(self)@.len(),
        ensures
            final(self)@ == old(self)@.remove(k as int),
            c@ == in_state(old(self)@[k as int], state),
            final(self).limit() == old(self).limit(),
    {
        let mut c = self.contexts.remove(k);
        c.state = state;
        c
    }

    /// Parks the stream of an initiator at `initiator_addr` until the target
    /// answers or `limit` milliseconds from `now` have passed. The context
    /// that waited for the same target, if there was one, is handed back
    /// expired: the new request takes its place.
    pub fn request(
        &mut self,
        target_id: PeerId,
        target_addr: SocketAddress,
        initiator_addr: SocketAddress,
        stream: StreamId,
        now: Instant,
    ) -> (superseded: Option<HolePunchContext>)
        requires
            old(self).wf(),
        ensures
            final(self).wf(),
            final(self).limit() == old(self).limit(),
            final(self)@ == without_first(old(self)@, Probe::Target(target_id@)).push(
                waiting(
                    target_id@,
                    target_addr,
                    initiator_addr,
                    stream,
                    later_by(now@, old(self).limit() as nat),
                ),
            ),
            superseded is Some <==> taken_first(old(self)@, Probe::Target(target_id@), PunchState::Expired) is Some,
            superseded matches Some(c) ==> taken_first(old(self)@, Probe::Target(target_id@), PunchState::Expired)
                == Some(c@),
    {
        let k = self.find_target(&target_id);
        let ghost before = self@;
        let superseded = if k < self.contexts.len() {
            Some(self.take_at(k, PunchState::Expired))
        } else {
            None
        };
        let fresh = HolePunchContext {
            initiator_addr,
            target_id,
            target_addr,
            saved_stream: stream,
            deadline: now.plus_millis(self.deadline_millis),
            state: PunchState::AwaitingTargetRelay,
        };
        proof {
            let probe = Probe::Target(fresh@.target_id);
            lemma_first_hit(before, probe);
            let rest = without_first(before, probe);
            assert(views(self.contexts@.push(fresh)) =~= rest.push(fresh@));
        }
        self.contexts.push(fresh);
        superseded
    }

    /// The answer of a target at the IP address `ip`, come in at `now`: the
    /// oldest context that waits for a target at that address and whose
    /// deadline has not passed is matched and leaves the coordinator.
    pub fn relay_response(&mut self, ip: IpAddress, now: Instant) -> (matched: Option<HolePunchContext>)
        requires
            old(self).wf(),
        ensures
            final(self).wf(),
            final(self).limit() == old(self).limit(),
            final(self)@ == without_first(old(self)@, Probe::Responder(ip, now@)),
            matched is Some <==> taken_first(old(self)@, Probe::Responder(ip, now@), PunchState::Matched) is Some,
            matched matches Some(c) ==> taken_first(old(self)@, Probe::Responder(ip, now@), PunchState::Matched)
                == Some(c@),
    {
        let k = self.find_responder(ip, now);
        if k < self.contexts.len() {
            Some(self.take_at(k, PunchState::Matched))
        } else {
            None
        }
    }

    /// Gives up on every context whose deadline lies at or before `now`:
    /// they leave the coordinator and are handed back expired, oldest
    /// first, so that their parked streams can be closed.
    pub fn expire(&mut self, now: Instant) -> (gone: Vec<HolePunchContext>)
        requires
            old(self).wf(),
        ensures
            final(self).wf(),
            final(self).limit() == old(self).limit(),
            final(self)@ == pending_at(old(self)@, now@),
            gone@.map_values(|c: HolePunchContext| c@) == expired_at(old(self)@, now@),
    {
        let ghost before = self@;
        let mut gone: Vec<HolePunchContext> = Vec::new();
        let mut i: usize = 0;
        let ghost mut j: int = 0;
        while i < self.contexts.len()
            invariant
                0 <= j <= before.len(),
                i == pending_at(before.take(j), now@).len(),
                self@ == pending_at(before.take(j), now@) + before.skip(j),
                views(gone@) == expired_at(before.take(j), now@),
                self.limit() == old(self).limit(),
            decreases before.len() - j,
        {
            proof {
                assert(self@[i as int] == before.skip(j)[0]);
                lemma_unfold_pending(before, j, now@);
            }
            if now.reached(&self.contexts[i].deadline) {
                let c = self.take_at(i, PunchState::Expired);
                gone.push(c);
            } else {
                i += 1;
            }
            proof {
                j = j + 1;
            }
        }
        proof {
            lemma_pending_keeps_wf(before, now@);
        }
        gone
    }
}

proof fn lemma_pending_keeps_wf(s: Seq<ContextView>, now: nat)
    requires
        well_formed(s),
    ensures
        well_formed(pending_at(s, now)),
        forall|c: ContextView| #[trigger] pending_at(s, now).contains(c) ==> s.contains(c),
    decreases s.len(),
{
    if s.len() > 0 {
        let rest = s.drop_last();
        let last = s.last();
        assert(well_formed(rest));
        lemma_pending_keeps_wf(rest, now);
        let p = pending_at(rest, now);
        let t = pending_at(s, now);
        assert forall|c: ContextView| #[trigger] t.contains(c) implies s.contains(c) by {
            let k = choose|k: int| 0 <= k < t.len() && t[k] == c;
            if k < p.len() {
                assert(p.contains(c));
            }
        }
        if now < last.deadline {
            assert forall|i: int, j: int| 0 <= i < j < t.len() implies (#[trigger] t[i]).target_id != (#[trigger] t[j]).target_id by {
                if j >= p.len() {
                    assert(p.contains(p[i]));
                }
            }
        }
    }
}

/// A context whose target has not answered by its deadline is gone once
/// `expire` has run at or after that deadline, and is among those handed
/// back for their streams to be closed.
pub proof fn law_overdue_context_is_destroyed(s: Seq<ContextView>, i: int, now: nat)
    requires
        0 <= i < s.len(),
        s[i].deadline <= now,
    ensures
        !pending_at(s, now).contains(s[i]),
        expired_at(s, now).contains(in_state(s[i], PunchState::Expired)),
{
    lemma_split_by_deadline(s, now, i);
}

/// A context whose deadline has passed is never matched: an answer that
/// comes at or after the deadline finds nothing.
pub proof fn law_late_answer_matches_nothing(s: Seq<ContextView>, ip: IpAddress, now: nat)
    ensures
        taken_first(s, Probe::Responder(ip, now), PunchState::Matched) matches Some(c) ==> now < c.deadline
            && c.target_addr.ip == ip && c.state == PunchState::Matched,
{
    lemma_first_hit(s, Probe::Responder(ip, now));
}

} // verus!
