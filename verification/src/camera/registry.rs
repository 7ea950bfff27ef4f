//! Subscriber registry: the set of live push sinks that every frame is
//! copied to.
//!
//! A sink is the sending half of an unbounded channel, so an enqueue never
//! waits for a slow consumer. A sink whose enqueue fails has lost its
//! consumer and leaves the registry in the same broadcast; the others are
//! not affected.

use vstd::prelude::*;

verus! {

/// `tokio::sync::mpsc::UnboundedSender`, the sending half of an unbounded
/// channel. Nothing is known of what is inside one.
#[verifier::external_type_specification]
#[verifier::external_body]
#[verifier::reject_recursive_types(T)]
pub struct ExUnboundedSender<T>(tokio::sync::mpsc::UnboundedSender<T>);

/// Identifies one registered subscriber. Identifiers are handed out in
/// increasing order and never reused.
pub type SubscriberId = u64;

/// One registered subscriber: its identifier and its sink.
pub struct SubscriberEntry {
    id: SubscriberId,
    sink: tokio::sync::mpsc::UnboundedSender<Vec<u8>>,
}

impl SubscriberEntry {
    /// The identifier this entry was registered under.
    pub closed spec fn id(&self) -> SubscriberId {
        self.id
    }

    /// The channel that carries frames to this subscriber.
    pub closed spec fn sink(&self) -> tokio::sync::mpsc::UnboundedSender<Vec<u8>> {
        self.sink
    }
}

/// The members that remain once the outcomes of a broadcast are known:
/// `delivered[i]` tells whether the enqueue to `members[i]` succeeded, and a
/// member stays unless its enqueue is known to have failed. The order of
/// those that stay is kept.
pub open spec fn surviving<A>(members: Seq<A>, delivered: Seq<bool>) -> Seq<A>
    decreases members.len(),
{
    if members.len() == 0 {
        Seq::empty()
    } else {
        let earlier = surviving(members.drop_last(), delivered);
        let i = members.len() - 1;
        if i < delivered.len() && !delivered[i] {
            earlier
        } else {
            earlier.push(members.last())
        }
    }
}

/// Identifiers grow strictly along the sequence.
pub open spec fn ids_increase(members: Seq<SubscriberEntry>) -> bool {
    forall|i: int, j: int|
        0 <= i < j < members.len() ==> (#[trigger] members[i]).id() < (#[trigger] members[j]).id()
}

/// Every identifier in the sequence lies below `bound`.
pub open spec fn ids_below(members: Seq<SubscriberEntry>, bound: SubscriberId) -> bool {
    forall|i: int| 0 <= i < members.len() ==> (#[trigger] members[i]).id() < bound
}

/// Enqueues a copy of `bytes` with `tokio::sync::mpsc::UnboundedSender::send`
/// and reports whether the channel took it. The enqueue fails when the
/// receiving half is closed or gone, which nothing here can foresee, so
/// nothing is claimed of the result. The call does not wait. (Tokio ends
/// the process should a channel ever hold more messages than a `usize` can
/// count.)
#[verifier::external_body]
fn try_send(sink: &tokio::sync::mpsc::UnboundedSender<Vec<u8>>, bytes: &[u8]) -> (delivered: bool) {
    sink.send(bytes.to_vec()).is_ok()
}

/// The live subscribers, in the order in which they registered.
pub struct SubscriberRegistry {
    members: Vec<SubscriberEntry>,
    next_id: SubscriberId,
}

impl SubscriberRegistry {
    /// The registered entries, oldest first.
    pub closed spec fn entries(&self) -> Seq<SubscriberEntry> {
        self.members@
    }

    /// The identifier that the next registration will get.
    pub closed spec fn next_id(&self) -> SubscriberId {
        self.next_id
    }

    /// Identifiers are distinct, ordered by registration, and all below the
    /// next one to be handed out.
    pub open spec fn wf(&self) -> bool {
        &&& ids_increase(self.entries())
        &&& ids_below(self.entries(), self.next_id())
    }

    /// Whether `id` is registered.
    pub open spec fn contains(&self, id: SubscriberId) -> bool {
        exists|i: int| 0 <= i < self.entries().len() && (#[trigger] self.entries()[i]).id() == id
    }

    /// A registry without subscribers.
    pub fn new() -> (registry: SubscriberRegistry)
        ensures
            registry.wf(),
            registry.entries() == Seq::<SubscriberEntry>::empty(),
            registry.next_id() == 0,
    {
        SubscriberRegistry { members: Vec::new(), next_id: 0 }
    }

    /// Number of registered subscribers.
    pub fn len(&self) -> (n: usize)
        ensures
            n == self.entries().len(),
    {
        self.members.len()
    }

    /// The registered identifiers, oldest first.
    pub fn ids(&self) -> (ids: Vec<SubscriberId>)
        ensures
            ids@.len() == self.entries().len(),
            forall|i: int| 0 <= i < ids@.len() ==> ids@[i] == (#[trigger] self.entries()[i]).id(),
    {
        let mut ids: Vec<SubscriberId> = Vec::new();
        let mut i: usize = 0;
        while i < self.members.len()
            invariant
                i <= self.members@.len(),
                ids@.len() == i,
                forall|j: int| 0 <= j < i ==> ids@[j] == (#[trigger] self.members@[j]).id,
            decreases self.members.len() - i,
        {
            ids.push(self.members[i].id);
            i += 1;
        }
        ids
    }

    /// Adds `sink` as the newest subscriber and returns its identifier.
    /// Returns `None`, and drops the sink, only when the identifiers are
    /// used up.
    pub fn register(&mut self, sink: tokio::sync::mpsc::UnboundedSender<Vec<u8>>) -> (id: Option<
        SubscriberId,
    >)
        requires
            old(self).wf(),
        ensures
            final(self).wf(),
            old(self).next_id() < u64::MAX ==> {
                &&& id == Some(old(self).next_id())
                &&& final(self).next_id() == old(self).next_id() + 1
                &&& final(self).entries().len() == old(self).entries().len() + 1
                &&& final(self).entries().drop_last() == old(self).entries()
                &&& final(self).entries().last().id() == old(self).next_id()
                &&& final(self).entries().last().sink() == sink
            },
            old(self).next_id() == u64::MAX ==> id is None && *final(self) == *old(self),
    {
        if self.next_id == u64::MAX {
            return None;
        }
        let id: SubscriberId = self.next_id;
        self.members.push(SubscriberEntry { id, sink });
        self.next_id = id + 1;
        proof {
            assert(self.members@.drop_last() =~= old(self).members@);
        }
        Some(id)
    }

    /// Removes the subscriber registered under `id`, if there is one, and
    /// tells whether there was.
    pub fn unregister(&mut self, id: SubscriberId) -> (found: bool)
        requires
            old(self).wf(),
        ensures
            final(self).wf(),
            final(self).next_id() == old(self).next_id(),
            found == old(self).contains(id),
            !final(self).contains(id),
            found ==> exists|i: int|
                0 <= i < old(self).entries().len() && (#[trigger] old(self).entries()[i]).id() == id
                    && final(self).entries() == old(self).entries().remove(i),
            !found ==> final(self).entries() == old(self).entries(),
    {
        let mut i: usize = 0;
        while i < self.members.len()
            invariant
                i <= self.members@.len(),
                *self == *old(self),
                old(self).wf(),
                forall|j: int| 0 <= j < i ==> (#[trigger] self.members@[j]).id != id,
            decreases self.members.len() - i,
        {
            if self.members[i].id == id {
                let _ = self.members.remove(i);
                proof {
                    let before = old(self).members@;
                    let after = self.members@;
                    assert(before[i as int].id() == id);
                    assert forall|j: int| 0 <= j < after.len() implies (#[trigger] after[j]).id()
                        != id by {
                        if j < i {
                            assert(after[j] == before[j]);
                        } else {
                            assert(after[j] == before[j + 1]);
                            assert(before[i as int].id() < before[j + 1].id());
                        }
                    }
                    assert forall|a: int, b: int| 0 <= a < b < after.len() implies (
                    #[trigger] after[a]).id() < (#[trigger] after[b]).id() by {
                        let a0 = if a < i { a } else { a + 1 };
                        let b0 = if b < i { b } else { b + 1 };
                        assert(after[a] == before[a0]);
                        assert(after[b] == before[b0]);
                    }
                    assert forall|a: int| 0 <= a < after.len() implies (#[trigger] after[a]).id()
                        < self.next_id by {
                        let a0 = if a < i { a } else { a + 1 };
                        assert(after[a] == before[a0]);
                    }
                }
                return true;
            }
            i += 1;
        }
        false
    }

    /// Attempts one enqueue of a copy of `bytes` per subscriber, oldest
    /// first, and returns the outcomes in that order. A failed enqueue does
    /// not keep the later ones from being attempted.
    fn send_to_all(&self, bytes: &[u8]) -> (delivered: Vec<bool>)
        ensures
            delivered@.len() == self.entries().len(),
    {
        let mut delivered: Vec<bool> = Vec::new();
        let mut i: usize = 0;
        while i < self.members.len()
            invariant
                i <= self.members@.len(),
                delivered@.len() == i,
            decreases self.members.len() - i,
        {
            let sent: bool = try_send(&self.members[i].sink, bytes);
            delivered.push(sent);
            i += 1;
        }
        delivered
    }

    /// Removes the subscribers whose enqueue failed in a broadcast with the
    /// outcomes `delivered`, given oldest subscriber first. A subscriber
    /// without an outcome stays.
    pub fn drop_failed(&mut self, delivered: &[bool])
        requires
            old(self).wf(),
        ensures
            final(self).wf(),
            final(self).next_id() == old(self).next_id(),
            final(self).entries() == surviving(old(self).entries(), delivered@),
    {
        let ghost before = self.members@;
        let total: usize = self.members.len();
        let mut i: usize = 0;
        let mut k: usize = 0;
        proof {
            assert(before.take(0) =~= Seq::<SubscriberEntry>::empty());
            assert(self.members@.take(0) =~= Seq::<SubscriberEntry>::empty());
            assert(self.members@.skip(0) =~= before.skip(0));
        }
        while k < total
            invariant
                before == old(self).members@,
                self.next_id == old(self).next_id,
                self.wf(),
                i <= self.members@.len(),
                i <= k <= total,
                before.len() == total,
                self.members@.len() - i == total - k,
                self.members@.take(i as int) == surviving(before.take(k as int), delivered@),
                self.members@.skip(i as int) == before.skip(k as int),
            decreases total - k,
        {
            let ghost current = self.members@;
            assert(current[i as int] == current.skip(i as int)[0]);
            assert(before[k as int] == before.skip(k as int)[0]);
            proof {
                assert(before.take(k + 1).drop_last() =~= before.take(k as int));
                assert(before.take(k + 1).last() == before[k as int]);
                assert(before.skip(k + 1) =~= before.skip(k as int).skip(1));
            }
            let stays: bool = k >= delivered.len() || delivered[k];
            if stays {
                proof {
                    assert(current.take(i + 1) =~= current.take(i as int).push(current[i as int]));
                    assert(current.skip(i + 1) =~= current.skip(i as int).skip(1));
                }
                i += 1;
            } else {
                let _ = self.members.remove(i);
                proof {
                    let after = self.members@;
                    assert(after.take(i as int) =~= current.take(i as int));
                    assert(after.skip(i as int) =~= current.skip(i as int).skip(1));
                    assert forall|a: int, b: int| 0 <= a < b < after.len() implies (
                    #[trigger] after[a]).id() < (#[trigger] after[b]).id() by {
                        let a0 = if a < i { a } else { a + 1 };
                        let b0 = if b < i { b } else { b + 1 };
                        assert(after[a] == current[a0]);
                        assert(after[b] == current[b0]);
                    }
                    assert forall|a: int| 0 <= a < after.len() implies (#[trigger] after[a]).id()
                        < self.next_id by {
                        let a0 = if a < i { a } else { a + 1 };
                        assert(after[a] == current[a0]);
                    }
                }
            }
            k += 1;
        }
        proof {
            assert(self.members@.take(i as int) =~= self.members@);
            assert(before.take(k as int) =~= before);
        }
    }

    /// Enqueues a copy of `bytes` to every subscriber, oldest first, and
    /// returns for each, in that order, whether its enqueue succeeded. Every
    /// subscriber gets its attempt whatever happened to the others; those
    /// whose enqueue failed are removed, as `drop_failed` states.
    pub fn broadcast(&mut self, bytes: &[u8]) -> (delivered: Vec<bool>)
        requires
            old(self).wf(),
        ensures
            final(self).wf(),
            final(self).next_id() == old(self).next_id(),
            delivered@.len() == old(self).entries().len(),
            final(self).entries() == surviving(old(self).entries(), delivered@),
    {
        let delivered = self.send_to_all(bytes);
        self.drop_failed(delivered.as_slice());
        delivered
    }
}

/// When no enqueue is known to have failed, the membership is unchanged.
pub proof fn lemma_all_delivered<A>(members: Seq<A>, delivered: Seq<bool>)
    requires
        forall|i: int| 0 <= i < delivered.len() ==> delivered[i],
    ensures
        surviving(members, delivered) == members,
    decreases members.len(),
{
    if members.len() > 0 {
        lemma_all_delivered(members.drop_last(), delivered);
        assert(members.drop_last().push(members.last()) =~= members);
    } else {
        assert(members =~= Seq::<A>::empty());
    }
}

/// When the enqueue to subscriber `k` fails and all others succeed, exactly
/// subscriber `k` leaves: the other members remain, in their order.
pub proof fn lemma_one_failure_spares_the_rest<A>(members: Seq<A>, delivered: Seq<bool>, k: int)
    requires
        members.len() == delivered.len(),
        0 <= k < members.len(),
        !delivered[k],
        forall|i: int| 0 <= i < delivered.len() && i != k ==> delivered[i],
    ensures
        surviving(members, delivered) == members.remove(k),
        surviving(members, delivered).len() == members.len() - 1,
{
    lemma_failure_removes_one(members, delivered, k);
}

/// The same, for any prefix of the members: the induction behind
/// `lemma_one_failure_spares_the_rest`.
proof fn lemma_failure_removes_one<A>(members: Seq<A>, delivered: Seq<bool>, k: int)
    requires
        0 <= k < members.len(),
        k < delivered.len(),
        !delivered[k],
        forall|i: int| 0 <= i < delivered.len() && i != k ==> delivered[i],
    ensures
        surviving(members, delivered) == members.remove(k),
    decreases members.len(),
{
    let last = members.len() - 1;
    if k == last {
        lemma_none_failed_before(members.drop_last(), delivered, k);
        assert(members.remove(k) =~= members.drop_last());
    } else {
        lemma_failure_removes_one(members.drop_last(), delivered, k);
        assert(members.drop_last().remove(k).push(members.last()) =~= members.remove(k));
    }
}

/// Members that all stand before the first failed enqueue stay.
proof fn lemma_none_failed_before<A>(members: Seq<A>, delivered: Seq<bool>, k: int)
    requires
        members.len() <= k,
        forall|i: int| 0 <= i < delivered.len() && i != k ==> delivered[i],
    ensures
        surviving(members, delivered) == members,
    decreases members.len(),
{
    if members.len() > 0 {
        lemma_none_failed_before(members.drop_last(), delivered, k);
        assert(members.drop_last().push(members.last()) =~= members);
    } else {
        assert(members =~= Seq::<A>::empty());
    }
}

/// A member whose own enqueue succeeded stays: whether another
/// member's enqueue failed has no bearing on it.
pub proof fn lemma_delivered_member_survives<A>(members: Seq<A>, delivered: Seq<bool>, i: int)
    requires
        0 <= i < members.len(),
        i < delivered.len() ==> delivered[i],
    ensures
        surviving(members, delivered).contains(members[i]),
    decreases members.len(),
{
    let last = members.len() - 1;
    let earlier = surviving(members.drop_last(), delivered);
    if i == last {
        assert(earlier.push(members.last())[earlier.len() as int] == members[i]);
    } else {
        lemma_delivered_member_survives(members.drop_last(), delivered, i);
        let j = choose|j: int| 0 <= j < earlier.len() && earlier[j] == members.drop_last()[i];
        if last < delivered.len() && !delivered[last] {
            assert(earlier[j] == members[i]);
        } else {
            assert(earlier.push(members.last())[j] == members[i]);
        }
    }
}

} // verus!
