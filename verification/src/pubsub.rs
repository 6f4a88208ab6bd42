//! Topic-keyed publish/subscribe over a pluggable backend.
//!
//! A [`PubSubSystem`] buffers published payloads, hands each batch to its
//! [`UnderlyingPubSub`] backend when processed, and routes what the backend
//! delivers onto every subscriber's own queue, so no subscriber starves
//! another.  Payloads are byte vectors; [`SubscribeTy`] and [`PublishTy`]
//! give a type its topic and its byte codec.

use std::collections::VecDeque;

use vstd::prelude::*;

verus! {

/// A topic, keyed by the trait family it belongs to and a number within it.
#[derive(Clone, Copy, PartialEq, Eq, Structural, Hash, Debug)]
pub struct TraitTopic {
    pub family: u32,
    pub topic: u32,
}

/// Who subscribed: a known peer or an unspecified one.
#[derive(Clone, Copy, PartialEq, Eq, Structural, Hash, Debug)]
pub enum SubOrigin {
    Id(u32),
    Unspecified,
}

/// A subscription key: the topic listened to and the listener's origin.
#[derive(Clone, Copy, PartialEq, Eq, Structural, Hash, Debug)]
pub struct SubData {
    pub trait_topic: TraitTopic,
    pub origin: SubOrigin,
}

/// A type that can be read off a subscription queue.
pub trait SubscribeTy: Sized + View {
    /// The topic this type is published under.
    spec fn topic_spec() -> TraitTopic;

    /// Which payloads decode into a value of this type.
    spec fn accepts_spec(data: Seq<u8>) -> bool;

    /// What an accepted payload decodes to, at view level.
    spec fn parsed_view(data: Seq<u8>) -> Self::V;

    fn trait_topic() -> (t: TraitTopic)
        ensures
            t == Self::topic_spec(),
    ;

    fn deserialize(data: &[u8]) -> (r: Result<Self, String>)
        ensures
            match r {
                Ok(v) => Self::accepts_spec(data@) && v@ == Self::parsed_view(data@),
                Err(_) => !Self::accepts_spec(data@),
            },
    ;
}

/// A type that can be written onto the publish buffer.
pub trait PublishTy: Sized + View {
    /// The topic this type is published under.
    spec fn topic_spec() -> TraitTopic;

    /// The byte encoding of a value, at view level.
    spec fn serial_spec(v: Self::V) -> Seq<u8>;

    fn serialize(self) -> (r: Vec<u8>)
        ensures
            r@ == Self::serial_spec(self@),
    ;
}

impl SubData {
    /// The subscription key of type `S` for the given origin.
    pub fn new<S: SubscribeTy>(origin: SubOrigin) -> (s: SubData)
        ensures
            s.trait_topic == S::topic_spec(),
            s.origin == origin,
    {
        SubData { trait_topic: S::trait_topic(), origin }
    }
}

/// The backend a [`PubSubSystem`] drives: it takes each processed batch of
/// published payloads and says what is delivered to every subscriber.
pub trait UnderlyingPubSub: Sized {
    /// The backend's state after processing a batch.
    spec fn process_post(&self, data: Seq<Seq<u8>>) -> Self;

    /// What processing a batch delivers to every subscriber.
    spec fn process_out(&self, data: Seq<Seq<u8>>) -> Seq<Seq<u8>>;

    /// The backend's state after it learns of a subscription.
    spec fn subscribe_post(&self, sub: SubData) -> Self;

    fn process(&mut self, data: Vec<Vec<u8>>) -> (out: Vec<Vec<u8>>)
        ensures
            *final(self) == old(self).process_post(data.deep_view()),
            out.deep_view() == old(self).process_out(data.deep_view()),
    ;

    fn subscribe(&mut self, sub_data: SubData)
        ensures
            *final(self) == old(self).subscribe_post(sub_data),
    ;
}

/// A backend that simply delivers every published payload to every
/// subscriber, counting subscriptions.
#[derive(Default, Debug)]
pub struct TestUnderlyingPubSub {
    pub subscriptions: usize,
}

impl UnderlyingPubSub for TestUnderlyingPubSub {
    open spec fn process_post(&self, data: Seq<Seq<u8>>) -> TestUnderlyingPubSub {
        *self
    }

    open spec fn process_out(&self, data: Seq<Seq<u8>>) -> Seq<Seq<u8>> {
        data
    }

    open spec fn subscribe_post(&self, sub: SubData) -> TestUnderlyingPubSub {
        if self.subscriptions < usize::MAX {
            TestUnderlyingPubSub { subscriptions: (self.subscriptions + 1) as usize }
        } else {
            *self
        }
    }

    fn process(&mut self, data: Vec<Vec<u8>>) -> (out: Vec<Vec<u8>>) {
        data
    }

    fn subscribe(&mut self, sub_data: SubData) {
        if self.subscriptions < usize::MAX {
            self.subscriptions = self.subscriptions + 1;
        }
    }
}

/// One subscriber's own queue of delivered payloads.
#[derive(Debug)]
pub struct Subscription {
    pub queue: VecDeque<Vec<u8>>,
}

/// The pubsub fan-out: a buffer of published payloads, one queue per
/// subscription key, and the backend.
#[derive(Default, Debug)]
pub struct PubSubSystem<T> {
    pub pub_data: Vec<Vec<u8>>,
    pub sub_data: Vec<(SubData, Subscription)>,
    pub system: T,
}

/// The first entry of `s` keyed by `sub`, if any.
pub open spec fn find_key(s: Seq<(SubData, Subscription)>, sub: SubData) -> Option<int>
    decreases s.len(),
{
    if s.len() == 0 {
        Option::None
    } else if s[0].0 == sub {
        Some(0int)
    } else {
        match find_key(s.drop_first(), sub) {
            Some(i) => Some(i + 1),
            Option::None => Option::None,
        }
    }
}

/// [`find_key`] names the first match: its entry is keyed by `sub` and no
/// earlier entry is; `None` means no entry is.
pub proof fn lemma_find_key(s: Seq<(SubData, Subscription)>, sub: SubData)
    ensures
        match find_key(s, sub) {
            Some(i) => 0 <= i < s.len() && s[i].0 == sub && forall|j: int|
                0 <= j < i ==> (#[trigger] s[j]).0 != sub,
            Option::None => forall|j: int| 0 <= j < s.len() ==> (#[trigger] s[j]).0 != sub,
        },
    decreases s.len(),
{
    if s.len() == 0 {
    } else if s[0].0 == sub {
    } else {
        lemma_find_key(s.drop_first(), sub);
        let rest = s.drop_first();
        match find_key(rest, sub) {
            Some(i) => {
                assert(rest[i] == s[i + 1]);
                assert forall|j: int| 0 <= j < i + 1 implies (#[trigger] s[j]).0 != sub by {
                    if j > 0 {
                        assert(rest[j - 1] == s[j]);
                    }
                }
            }
            Option::None => {
                assert forall|j: int| 0 <= j < s.len() implies (#[trigger] s[j]).0 != sub by {
                    if j > 0 {
                        assert(rest[j - 1] == s[j]);
                    }
                }
            }
        }
    }
}

impl<T: UnderlyingPubSub> PubSubSystem<T> {
    /// Keys are unique: each subscription owns one queue.
    pub open spec fn wf(self) -> bool {
        forall|i: int, j: int|
            0 <= i < j < self.sub_data@.len() ==> (#[trigger] self.sub_data@[i]).0 != (
            #[trigger] self.sub_data@[j]).0
    }

    /// An empty fan-out over the given backend.
    pub fn new(system: T) -> (r: PubSubSystem<T>)
        ensures
            r.wf(),
            r.pub_data@ == Seq::<Vec<u8>>::empty(),
            r.sub_data@ == Seq::<(SubData, Subscription)>::empty(),
            r.system == system,
    {
        PubSubSystem { pub_data: Vec::new(), sub_data: Vec::new(), system }
    }

    /// The index of the queue keyed by `sub`, if subscribed.
    fn find(&self, sub: &SubData) -> (r: Option<usize>)
        ensures
            match r {
                Some(i) => find_key(self.sub_data@, *sub) == Some(i as int),
                Option::None => find_key(self.sub_data@, *sub) is None,
            },
    {
        proof {
            lemma_find_key(self.sub_data@, *sub);
        }
        let n = self.sub_data.len();
        let mut i: usize = 0;
        while i < n
            invariant
                n == self.sub_data@.len(),
                0 <= i <= n,
                forall|j: int| 0 <= j < i ==> (#[trigger] self.sub_data@[j]).0 != *sub,
            decreases n - i,
        {
            if self.sub_data[i].0 == *sub {
                proof {
                    lemma_find_key(self.sub_data@, *sub);
                }
                return Some(i);
            }
            i = i + 1;
        }
        None
    }

    /// Pops the next delivered payload of the subscription keyed by `sub`
    /// and decodes it as `S`; answers nothing — leaving everything as it
    /// was — when nothing is subscribed or queued, and drops the popped
    /// payload when it does not decode.
    pub fn pop<S: SubscribeTy>(&mut self, sub: SubData) -> (r: Option<S>)
        requires
            sub.trait_topic == S::topic_spec(),
        ensures
            old(self).wf() ==> final(self).wf(),
            match find_key(old(self).sub_data@, sub) {
                Option::None => r is None && *final(self) == *old(self),
                Some(i) => {
                    let q = old(self).sub_data@[i].1.queue;
                    if q@.len() == 0 {
                        r is None && *final(self) == *old(self)
                    } else {
                        let front = q@[0];
                        &&& final(self).pub_data == old(self).pub_data
                        &&& final(self).system == old(self).system
                        &&& final(self).sub_data@.len() == old(self).sub_data@.len()
                        &&& forall|k: int|
                            0 <= k < old(self).sub_data@.len() && k != i
                                ==> (#[trigger] final(self).sub_data@[k]) == old(self).sub_data@[k]
                        &&& final(self).sub_data@[i].0 == sub
                        &&& final(self).sub_data@[i].1.queue@ == q@.drop_first()
                        &&& match r {
                            Some(v) => S::accepts_spec(front@) && v@ == S::parsed_view(front@),
                            Option::None => !S::accepts_spec(front@),
                        }
                    }
                },
            },
    {
        let idx = match self.find(&sub) {
            Some(i) => i,
            None => {
                return None;
            }
        };
        proof {
            lemma_find_key(self.sub_data@, sub);
        }
        if self.sub_data[idx].1.queue.len() == 0 {
            return None;
        }
        let ghost snap = self.sub_data@;
        let mut entry = self.sub_data.remove(idx);
        let front = entry.1.queue.pop_front().unwrap();
        self.sub_data.insert(idx, entry);
        proof {
            assert(self.sub_data@[idx as int] == entry);
            lemma_swap_back(snap, self.sub_data@, idx as int);
        }
        match S::deserialize(front.as_slice()) {
            Ok(v) => Some(v),
            Err(_) => None,
        }
    }

    /// Reads the next delivered payload of the subscription keyed by `sub`
    /// without removing it; the state is left exactly as it was.
    pub fn peek<S: SubscribeTy>(&self, sub: SubData) -> (r: Option<S>)
        requires
            sub.trait_topic == S::topic_spec(),
        ensures
            match find_key(self.sub_data@, sub) {
                Option::None => r is None,
                Some(i) => {
                    let q = self.sub_data@[i].1.queue;
                    if q@.len() == 0 {
                        r is None
                    } else {
                        match r {
                            Some(v) => S::accepts_spec(q@[0]@) && v@ == S::parsed_view(q@[0]@),
                            Option::None => !S::accepts_spec(q@[0]@),
                        }
                    }
                },
            },
    {
        let idx = match self.find(&sub) {
            Some(i) => i,
            None => {
                return None;
            }
        };
        proof {
            lemma_find_key(self.sub_data@, sub);
        }
        let q = &self.sub_data[idx].1.queue;
        if q.len() == 0 {
            return None;
        }
        let front = &q[0];
        match S::deserialize(front.as_slice()) {
            Ok(v) => Some(v),
            Err(_) => None,
        }
    }

    /// Buffers one value for the next [`process`](PubSubSystem::process).
    pub fn publish<P: PublishTy>(&mut self, data: P)
        ensures
            old(self).wf() ==> final(self).wf(),
            final(self).pub_data.deep_view() == old(self).pub_data.deep_view().push(
                P::serial_spec(data@),
            ),
            final(self).sub_data == old(self).sub_data,
            final(self).system == old(self).system,
    {
        let bytes = data.serialize();
        self.pub_data.push(bytes);
        proof {
            assert(self.pub_data.deep_view() =~~= old(self).pub_data.deep_view().push(
                P::serial_spec(data@),
            ));
        }
    }

    /// Registers the subscription keyed by `sub`: tells the backend, and
    /// gives the key a fresh, empty queue — replacing the queue of the
    /// first earlier subscription under the same key, if any.
    pub fn subscribe(&mut self, sub: SubData)
        ensures
            old(self).wf() ==> final(self).wf(),
            final(self).pub_data == old(self).pub_data,
            final(self).system == old(self).system.subscribe_post(sub),
            match find_key(old(self).sub_data@, sub) {
                Option::None => {
                    &&& final(self).sub_data@.len() == old(self).sub_data@.len() + 1
                    &&& forall|k: int|
                        0 <= k < old(self).sub_data@.len() ==> final(self).sub_data@[k] == old(
                            self,
                        ).sub_data@[k]
                    &&& final(self).sub_data@.last().0 == sub
                    &&& final(self).sub_data@.last().1.queue@ == Seq::<Vec<u8>>::empty()
                },
                Some(i) => {
                    &&& final(self).sub_data@.len() == old(self).sub_data@.len()
                    &&& forall|k: int|
                        0 <= k < old(self).sub_data@.len() && k != i ==> final(self).sub_data@[k]
                            == old(self).sub_data@[k]
                    &&& final(self).sub_data@[i].0 == sub
                    &&& final(self).sub_data@[i].1.queue@ == Seq::<Vec<u8>>::empty()
                },
            },
    {
        self.system.subscribe(sub);
        let fresh = Subscription { queue: VecDeque::new() };
        match self.find(&sub) {
            Some(i) => {
                proof {
                    lemma_find_key(self.sub_data@, sub);
                }
                let ghost snap = self.sub_data@;
                let mut entry = self.sub_data.remove(i);
                entry.1 = fresh;
                self.sub_data.insert(i, entry);
                proof {
                    assert(self.sub_data@[i as int] == entry);
                    lemma_swap_back(snap, self.sub_data@, i as int);
                }
            }
            None => {
                proof {
                    lemma_find_key(self.sub_data@, sub);
                }
                self.sub_data.push((sub, fresh));
            }
        }
    }

    /// Hands the buffered batch to the backend and routes everything the
    /// backend delivers onto every subscription queue, in order.
    pub fn process(&mut self)
        ensures
            old(self).wf() ==> final(self).wf(),
            final(self).pub_data@ == Seq::<Vec<u8>>::empty(),
            final(self).system == old(self).system.process_post(old(self).pub_data.deep_view()),
            final(self).sub_data@.len() == old(self).sub_data@.len(),
            forall|k: int|
                0 <= k < old(self).sub_data@.len() ==> (#[trigger] final(self).sub_data@[k]).0
                    == old(self).sub_data@[k].0 && final(self).sub_data@[k].1.queue.deep_view()
                    == old(self).sub_data@[k].1.queue.deep_view() + old(self).system.process_out(
                    old(self).pub_data.deep_view(),
                ),
    {
        let batch = self.pub_data.split_off(0);
        proof {
            assert(batch.deep_view() =~= old(self).pub_data.deep_view());
            assert(self.pub_data@ =~= Seq::<Vec<u8>>::empty());
        }
        let out = self.system.process(batch);
        let ghost delivered = old(self).system.process_out(old(self).pub_data.deep_view());
        let n = self.sub_data.len();
        let mut k: usize = 0;
        while k < n
            invariant
                n == self.sub_data@.len(),
                n == old(self).sub_data@.len(),
                0 <= k <= n,
                out.deep_view() == delivered,
                self.pub_data@ == Seq::<Vec<u8>>::empty(),
                self.system == old(self).system.process_post(old(self).pub_data.deep_view()),
                forall|j: int|
                    k <= j < n ==> (#[trigger] self.sub_data@[j]) == old(self).sub_data@[j],
                forall|j: int|
                    0 <= j < k ==> (#[trigger] self.sub_data@[j]).0 == old(self).sub_data@[j].0
                        && self.sub_data@[j].1.queue.deep_view() == old(
                        self,
                    ).sub_data@[j].1.queue.deep_view() + delivered,
            decreases n - k,
        {
            let ghost snap = self.sub_data@;
            let mut entry = self.sub_data.remove(k);
            extend_queue(&mut entry.1.queue, &out);
            self.sub_data.insert(k, entry);
            proof {
                assert(self.sub_data@[k as int] == entry);
                lemma_swap_back(snap, self.sub_data@, k as int);
            }
            k = k + 1;
        }
    }
}

/// Removing an entry and inserting its replacement at the same index
/// leaves every other entry where it was.
proof fn lemma_swap_back(
    before: Seq<(SubData, Subscription)>,
    after: Seq<(SubData, Subscription)>,
    i: int,
)
    requires
        0 <= i < before.len(),
        after.len() == before.len(),
        after == before.remove(i).insert(i, after[i]),
    ensures
        forall|k: int| 0 <= k < before.len() && k != i ==> after[k] == before[k],
{
    assert forall|k: int| 0 <= k < before.len() && k != i implies after[k] == before[k] by {
        if k < i {
            assert(after[k] == before.remove(i)[k]);
        } else {
            assert(after[k] == before.remove(i)[k - 1]);
        }
    }
}

/// A fresh byte vector with the same contents.
fn copy_bytes(v: &Vec<u8>) -> (r: Vec<u8>)
    ensures
        r@ == v@,
{
    let n = v.len();
    let mut r: Vec<u8> = Vec::new();
    let mut t: usize = 0;
    while t < n
        invariant
            n == v@.len(),
            0 <= t <= n,
            r@ == v@.subrange(0, t as int),
        decreases n - t,
    {
        r.push(v[t]);
        proof {
            assert(r@ =~= v@.subrange(0, t as int + 1));
        }
        t = t + 1;
    }
    proof {
        assert(v@.subrange(0, v@.len() as int) =~= v@);
    }
    r
}

/// Appends a copy of every payload in `items` to the back of `q`.
fn extend_queue(q: &mut VecDeque<Vec<u8>>, items: &Vec<Vec<u8>>)
    ensures
        final(q).deep_view() == old(q).deep_view() + items.deep_view(),
{
    let n = items.len();
    let mut j: usize = 0;
    while j < n
        invariant
            n == items@.len(),
            0 <= j <= n,
            q.deep_view() == old(q).deep_view() + items.deep_view().subrange(0, j as int),
        decreases n - j,
    {
        let ghost qd0 = q.deep_view();
        let item = copy_bytes(&items[j]);
        proof {
            assert(item.deep_view() =~= items.deep_view()[j as int]);
        }
        q.push_back(item);
        proof {
            assert(q.deep_view() =~= qd0.push(items.deep_view()[j as int]));
            assert(qd0.push(items.deep_view()[j as int]) =~= old(q).deep_view()
                + items.deep_view().subrange(0, j as int + 1));
        }
        j = j + 1;
    }
    proof {
        assert(items.deep_view().subrange(0, items@.len() as int) =~~= items.deep_view());
    }
}

} // verus!
