//! The live set of transient emitters: spawned from thrust events, aged
//! every frame, and removed once their countdown runs out.
use vstd::prelude::*;
use crate::channel::{EventChannel, ThrusterFired};
use crate::vector::Vector3;

verus! {

/// How long an emitter lives, in microseconds, unless configured otherwise.
pub const DEFAULT_LIFETIME_MICROS: u64 = 3_000_000;

/// One particle burst anchored where its thrust event happened.
#[derive(Clone, Copy, Debug, PartialEq, Eq, Structural)]
pub struct TransientEmitter {
    /// Identity handed to the host so it can pair the emitter with its own object.
    pub id: u64,
    /// Fixed at spawn; does not follow the body.
    pub position: Vector3,
    /// Microseconds left; always positive while the emitter is live.
    pub remaining: u64,
}

/// The live emitters, in spawn order, all bound to one shared effect template.
pub struct EmitterSet {
    emitters: Vec<TransientEmitter>,
    next_id: u64,
    lifetime: u64,
}

/// Every emitter is live and within its lifetime, and ids grow strictly in
/// spawn order and stay below the next id to hand out.
pub open spec fn emitters_wf(s: Seq<TransientEmitter>, next_id: u64, lifetime: u64) -> bool {
    &&& lifetime > 0
    &&& forall|i: int| 0 <= i < s.len() ==> 0 < #[trigger] s[i].remaining <= lifetime
    &&& forall|i: int| 0 <= i < s.len() ==> #[trigger] s[i].id < next_id
    &&& forall|i: int, j: int| 0 <= i < j < s.len() ==> s[i].id < s[j].id
}

/// The emitters made for `events`, in order, with ids counting up from `first_id`.
pub open spec fn spawned_from(events: Seq<ThrusterFired>, first_id: int, lifetime: u64) -> Seq<
    TransientEmitter,
> {
    Seq::new(
        events.len(),
        |i: int|
            TransientEmitter {
                id: (first_id + i) as u64,
                position: events[i].position,
                remaining: lifetime,
            },
    )
}

/// The emitters that are still live after `dt` more microseconds, each with
/// `dt` less to live, in their former order.
pub open spec fn aged(s: Seq<TransientEmitter>, dt: u64) -> Seq<TransientEmitter>
    decreases s.len(),
{
    if s.len() == 0 {
        s
    } else {
        let rest = aged(s.drop_last(), dt);
        let e = s.last();
        if e.remaining > dt {
            rest.push(TransientEmitter { remaining: (e.remaining - dt) as u64, ..e })
        } else {
            rest
        }
    }
}

/// The ids of the emitters whose countdown runs out within `dt`, in order.
pub open spec fn expired(s: Seq<TransientEmitter>, dt: u64) -> Seq<u64>
    decreases s.len(),
{
    if s.len() == 0 {
        Seq::empty()
    } else {
        let rest = expired(s.drop_last(), dt);
        if s.last().remaining > dt {
            rest
        } else {
            rest.push(s.last().id)
        }
    }
}

/// The emitters after one frame of each of `dts`, first to last.
pub open spec fn aged_over(s: Seq<TransientEmitter>, dts: Seq<u64>) -> Seq<TransientEmitter>
    decreases dts.len(),
{
    if dts.len() == 0 {
        s
    } else {
        aged(aged_over(s, dts.drop_last()), dts.last())
    }
}

/// The sum of `dts`.
pub open spec fn total(dts: Seq<u64>) -> int
    decreases dts.len(),
{
    if dts.len() == 0 {
        0
    } else {
        total(dts.drop_last()) + dts.last()
    }
}

/// The last emitter of `s` with the given id, if any.
pub open spec fn find(s: Seq<TransientEmitter>, id: u64) -> Option<TransientEmitter>
    decreases s.len(),
{
    if s.len() == 0 {
        None
    } else if s.last().id == id {
        Some(s.last())
    } else {
        find(s.drop_last(), id)
    }
}

impl View for EmitterSet {
    type V = Seq<TransientEmitter>;

    closed spec fn view(&self) -> Seq<TransientEmitter> {
        self.emitters@
    }
}

impl EmitterSet {
    /// The id that the next spawned emitter receives.
    pub closed spec fn next_id(&self) -> u64 {
        self.next_id
    }

    /// The countdown every new emitter starts with, in microseconds.
    pub closed spec fn lifetime(&self) -> u64 {
        self.lifetime
    }

    pub open spec fn wf(&self) -> bool {
        emitters_wf(self@, self.next_id(), self.lifetime())
    }

    pub fn new(lifetime: u64) -> (r: EmitterSet)
        requires
            lifetime > 0,
        ensures
            r.wf(),
            r@ == Seq::<TransientEmitter>::empty(),
            r.next_id() == 0,
            r.lifetime() == lifetime,
    {
        EmitterSet { emitters: Vec::new(), next_id: 0, lifetime }
    }

    /// An empty set whose emitters live three seconds.
    pub fn with_default_lifetime() -> (r: EmitterSet)
        ensures
            r.wf(),
            r@ == Seq::<TransientEmitter>::empty(),
            r.next_id() == 0,
            r.lifetime() == DEFAULT_LIFETIME_MICROS,
    {
        EmitterSet::new(DEFAULT_LIFETIME_MICROS)
    }

    pub fn len(&self) -> (r: usize)
        ensures
            r == self@.len(),
    {
        self.emitters.len()
    }

    pub fn get(&self, i: usize) -> (r: TransientEmitter)
        requires
            i < self@.len(),
        ensures
            r == self@[i as int],
    {
        self.emitters[i]
    }

    pub fn next_emitter_id(&self) -> (r: u64)
        ensures
            r == self.next_id(),
    {
        self.next_id
    }

    pub fn lifetime_micros(&self) -> (r: u64)
        ensures
            r == self.lifetime(),
    {
        self.lifetime
    }

    /// Drains `channel` and makes one emitter per event, in the order the
    /// events were sent, each at its event's position with a full countdown.
    /// Returns the new emitters, which are also appended to the set.
    pub fn spawn_from(&mut self, channel: &mut EventChannel) -> (r: Vec<TransientEmitter>)
        requires
            old(self).wf(),
            old(self).next_id() + old(channel)@.len() <= u64::MAX,
        ensures
            final(self).wf(),
            r@ == spawned_from(old(channel)@, old(self).next_id() as int, old(self).lifetime()),
            final(self)@ == old(self)@ + r@,
            final(self).next_id() == old(self).next_id() + old(channel)@.len(),
            final(self).lifetime() == old(self).lifetime(),
            final(channel)@ == Seq::<ThrusterFired>::empty(),
    {
        let events = channel.drain();
        let ghost start = self.next_id as int;
        let ghost before = self.emitters@;
        let ghost lifetime = self.lifetime;
        let ghost model = spawned_from(events@, start, lifetime);
        let mut out: Vec<TransientEmitter> = Vec::new();
        let mut i: usize = 0;
        while i < events.len()
            invariant
                0 <= i <= events.len(),
                start + events@.len() <= u64::MAX,
                self.lifetime == lifetime,
                model == spawned_from(events@, start, lifetime),
                self.next_id == start + i,
                out@ == model.subrange(0, i as int),
                self.emitters@ == before + out@,
                emitters_wf(self.emitters@, self.next_id, self.lifetime),
            decreases events.len() - i,
        {
            let e = TransientEmitter {
                id: self.next_id,
                position: events[i].position,
                remaining: self.lifetime,
            };
            assert(e == model[i as int]);
            out.push(e);
            self.emitters.push(e);
            self.next_id = self.next_id + 1;
            i = i + 1;
            assert(out@ =~= model.subrange(0, i as int));
        }
        assert(out@ =~= model);
        out
    }

    /// Ages every emitter by `dt` microseconds and removes those whose
    /// countdown reached zero or below. Returns the removed ids.
    pub fn reap(&mut self, dt: u64) -> (r: Vec<u64>)
        requires
            old(self).wf(),
        ensures
            final(self).wf(),
            final(self)@ == aged(old(self)@, dt),
            r@ == expired(old(self)@, dt),
            final(self).next_id() == old(self).next_id(),
            final(self).lifetime() == old(self).lifetime(),
    {
        let mut kept: Vec<TransientEmitter> = Vec::new();
        let mut gone: Vec<u64> = Vec::new();
        let mut i: usize = 0;
        while i < self.emitters.len()
            invariant
                0 <= i <= self.emitters.len(),
                kept@ == aged(self.emitters@.subrange(0, i as int), dt),
                gone@ == expired(self.emitters@.subrange(0, i as int), dt),
            decreases self.emitters.len() - i,
        {
            let e = self.emitters[i];
            assert(self.emitters@.subrange(0, i + 1).drop_last() =~= self.emitters@.subrange(
                0,
                i as int,
            ));
            if e.remaining > dt {
                kept.push(TransientEmitter { remaining: e.remaining - dt, ..e });
            } else {
                gone.push(e.id);
            }
            i = i + 1;
        }
        assert(self.emitters@.subrange(0, i as int) =~= self.emitters@);
        proof {
            lemma_aged_wf(self.emitters@, dt, self.next_id, self.lifetime);
        }
        self.emitters = kept;
        gone
    }
}

/// Ageing keeps a set well formed.
pub proof fn lemma_aged_wf(s: Seq<TransientEmitter>, dt: u64, next_id: u64, lifetime: u64)
    requires
        emitters_wf(s, next_id, lifetime),
    ensures
        emitters_wf(aged(s, dt), next_id, lifetime),
    decreases s.len(),
{
    if s.len() > 0 {
        let rest = s.drop_last();
        let e = s.last();
        assert(emitters_wf(rest, e.id, lifetime)) by {
            assert forall|i: int| 0 <= i < rest.len() implies #[trigger] rest[i].id < e.id by {
                assert(rest[i] == s[i]);
            }
        }
        lemma_aged_wf(rest, dt, e.id, lifetime);
        let a = aged(rest, dt);
        if e.remaining > dt {
            let a2 = a.push(TransientEmitter { remaining: (e.remaining - dt) as u64, ..e });
            assert forall|i: int| 0 <= i < a2.len() implies #[trigger] a2[i].id < next_id by {
                if i < a.len() {
                    assert(a2[i] == a[i]);
                }
            }
            assert forall|i: int| 0 <= i < a2.len() implies 0 < #[trigger] a2[i].remaining
                <= lifetime by {
                if i < a.len() {
                    assert(a2[i] == a[i]);
                }
            }
            assert forall|i: int, j: int| 0 <= i < j < a2.len() implies a2[i].id < a2[j].id by {
                assert(a2[i] == a[i]);
                if j < a.len() {
                    assert(a2[j] == a[j]);
                }
            }
        }
    }
}

/// What one frame of `dt` microseconds makes of an emitter, if it was live.
pub open spec fn aged_one(o: Option<TransientEmitter>, dt: u64) -> Option<TransientEmitter> {
    match o {
        Some(e) => if e.remaining > dt {
            Some(TransientEmitter { remaining: (e.remaining - dt) as u64, ..e })
        } else {
            None
        },
        None => None,
    }
}

proof fn lemma_prefix_wf(s: Seq<TransientEmitter>, next_id: u64, lifetime: u64)
    requires
        emitters_wf(s, next_id, lifetime),
        s.len() > 0,
    ensures
        emitters_wf(s.drop_last(), s.last().id, lifetime),
        forall|i: int| 0 <= i < s.drop_last().len() ==> s.drop_last()[i].id != s.last().id,
{
    let rest = s.drop_last();
    assert forall|i: int| 0 <= i < rest.len() implies #[trigger] rest[i].id < s.last().id by {
        assert(rest[i] == s[i]);
    }
}

proof fn lemma_total_nonneg(dts: Seq<u64>)
    ensures
        total(dts) >= 0,
    decreases dts.len(),
{
    if dts.len() > 0 {
        lemma_total_nonneg(dts.drop_last());
    }
}

proof fn lemma_find_none(s: Seq<TransientEmitter>, id: u64)
    requires
        forall|i: int| 0 <= i < s.len() ==> s[i].id != id,
    ensures
        find(s, id) == None::<TransientEmitter>,
    decreases s.len(),
{
    if s.len() > 0 {
        let rest = s.drop_last();
        assert forall|i: int| 0 <= i < rest.len() implies rest[i].id != id by {
            assert(rest[i] == s[i]);
        }
        lemma_find_none(rest, id);
    }
}

/// In a well-formed set an emitter is found by its id.
pub proof fn lemma_find_at(s: Seq<TransientEmitter>, next_id: u64, lifetime: u64, i: int)
    requires
        emitters_wf(s, next_id, lifetime),
        0 <= i < s.len(),
    ensures
        find(s, s[i].id) == Some(s[i]),
    decreases s.len(),
{
    if i < s.len() - 1 {
        lemma_prefix_wf(s, next_id, lifetime);
        assert(s.drop_last()[i] == s[i]);
        lemma_find_at(s.drop_last(), s.last().id, lifetime, i);
    }
}

/// One frame of ageing acts on each emitter alone.
pub proof fn lemma_find_aged(s: Seq<TransientEmitter>, next_id: u64, lifetime: u64, dt: u64, id: u64)
    requires
        emitters_wf(s, next_id, lifetime),
    ensures
        find(aged(s, dt), id) == aged_one(find(s, id), dt),
        expired(s, dt).contains(id) <==> (find(s, id).is_some() && find(s, id).unwrap().remaining
            <= dt),
    decreases s.len(),
{
    if s.len() > 0 {
        let rest = s.drop_last();
        let e = s.last();
        lemma_prefix_wf(s, next_id, lifetime);
        lemma_find_aged(rest, e.id, lifetime, dt, id);
        if e.id == id {
            lemma_find_none(rest, id);
        }
        let a = aged(rest, dt);
        let x = expired(rest, dt);
        if e.remaining > dt {
            let e2 = TransientEmitter { remaining: (e.remaining - dt) as u64, ..e };
            assert(a.push(e2).drop_last() =~= a);
            assert(expired(s, dt) == x);
        } else {
            assert(x.push(e.id).contains(e.id)) by {
                assert(x.push(e.id)[x.len() as int] == e.id);
            }
            assert(x.push(e.id).contains(id) <==> (x.contains(id) || id == e.id)) by {
                if x.push(e.id).contains(id) && id != e.id {
                    let j = choose|j: int| 0 <= j < x.len() + 1 && x.push(e.id)[j] == id;
                    assert(x[j] == id);
                }
                if x.contains(id) {
                    let j = choose|j: int| 0 <= j < x.len() && x[j] == id;
                    assert(x.push(e.id)[j] == id);
                }
            }
        }
    }
}

/// Each emitter counts down by the sum of the frame times: after frames of
/// `dts` it is live exactly while its initial countdown exceeds their sum,
/// with that much less left, and it is removed on the first frame after which
/// the difference is zero or below.
pub proof fn lemma_countdown(
    s: Seq<TransientEmitter>,
    next_id: u64,
    lifetime: u64,
    dts: Seq<u64>,
    i: int,
)
    requires
        emitters_wf(s, next_id, lifetime),
        0 <= i < s.len(),
    ensures
        emitters_wf(aged_over(s, dts), next_id, lifetime),
        find(aged_over(s, dts), s[i].id) == if s[i].remaining - total(dts) > 0 {
            Some(TransientEmitter { remaining: (s[i].remaining - total(dts)) as u64, ..s[i] })
        } else {
            None
        },
        dts.len() > 0 ==> (expired(aged_over(s, dts.drop_last()), dts.last()).contains(s[i].id)
            <==> (s[i].remaining - total(dts.drop_last()) > 0 && s[i].remaining - total(dts) <= 0)),
    decreases dts.len(),
{
    if dts.len() == 0 {
        lemma_find_at(s, next_id, lifetime, i);
    } else {
        let before = dts.drop_last();
        lemma_countdown(s, next_id, lifetime, before, i);
        let mid = aged_over(s, before);
        lemma_aged_wf(mid, dts.last(), next_id, lifetime);
        lemma_find_aged(mid, next_id, lifetime, dts.last(), s[i].id);
        assert(aged_over(s, dts) == aged(mid, dts.last()));
        assert(total(dts) == total(before) + dts.last());
        lemma_total_nonneg(before);
        let left = s[i].remaining - total(before);
        if left > 0 {
            assert(find(mid, s[i].id).unwrap().remaining == left);
        }
    }
}

/// Events are turned into emitters in the order they were sent: of two
/// events sent one after the other, the first gets the earlier emitter, and
/// each emitter stands where its own event happened.
pub proof fn lemma_emission_order(
    pending: Seq<ThrusterFired>,
    e1: ThrusterFired,
    e2: ThrusterFired,
    first_id: int,
    lifetime: u64,
)
    ensures
        ({
            let s = spawned_from(pending.push(e1).push(e2), first_id, lifetime);
            let k = pending.len() as int;
            &&& s.len() == k + 2
            &&& s[k].position == e1.position
            &&& s[k + 1].position == e2.position
            &&& 0 <= first_id && first_id + k + 1 <= u64::MAX ==> s[k].id < s[k + 1].id
        }),
{
    let q = pending.push(e1).push(e2);
    let k = pending.len() as int;
    assert(q[k] == e1);
    assert(q[k + 1] == e2);
}

/// Draining twice with nothing sent between: the first drain makes one
/// emitter per pending event, and the second finds the queue empty and makes
/// none.
pub proof fn lemma_drain_twice(events: Seq<ThrusterFired>, first_id: int, lifetime: u64)
    ensures
        spawned_from(events, first_id, lifetime).len() == events.len(),
        spawned_from(Seq::<ThrusterFired>::empty(), first_id + events.len(), lifetime)
            == Seq::<TransientEmitter>::empty(),
{
    assert(spawned_from(Seq::<ThrusterFired>::empty(), first_id + events.len(), lifetime)
        =~= Seq::<TransientEmitter>::empty());
}

} // verus!
