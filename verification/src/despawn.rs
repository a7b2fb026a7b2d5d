//! Timed expiry: entities that self-destroy after a fixed lifetime. The
//! sweep runs at end-of-tick, so mid-tick collision checks never see a
//! half-destroyed entity.

use vstd::prelude::*;

verus! {

use crate::clock::{Clock, MAX_DURATION_MS};
use crate::turret::{Bullet, Item};

/// A one-shot lifetime clock; its owner is removed when it runs out.
#[derive(Debug, Clone, Copy, PartialEq, Eq, Structural)]
pub struct DespawnTimer(pub Clock);

impl DespawnTimer {
    pub open spec fn wf(self) -> bool {
        &&& self.0.wf()
        &&& !self.0.repeating
    }

    pub fn new(duration_ms: u32) -> (t: DespawnTimer)
        requires
            duration_ms <= MAX_DURATION_MS,
        ensures
            t.wf(),
            t.0.elapsed_ms == 0,
            t.0.duration_ms == duration_ms,
    {
        DespawnTimer(Clock::new(duration_ms, false))
    }
}

/// The bullets left after their lifetimes advance by `delta_ms`: each
/// keeps flying with its clock run forward, until the clock runs out.
pub open spec fn swept_bullets(s: Seq<Bullet>, delta_ms: int) -> Seq<Bullet>
    decreases s.len(),
{
    if s.len() == 0 {
        Seq::empty()
    } else {
        let rest = swept_bullets(s.drop_last(), delta_ms);
        let t = s.last().expiry.0.ticked(delta_ms);
        if t.is_finished() {
            rest
        } else {
            rest.push(Bullet { pos: s.last().pos, velocity: s.last().velocity, expiry: DespawnTimer(t) })
        }
    }
}

/// The items left after their lifetimes advance by `delta_ms`.
pub open spec fn swept_items(s: Seq<Item>, delta_ms: int) -> Seq<Item>
    decreases s.len(),
{
    if s.len() == 0 {
        Seq::empty()
    } else {
        let rest = swept_items(s.drop_last(), delta_ms);
        let t = s.last().expiry.0.ticked(delta_ms);
        if t.is_finished() {
            rest
        } else {
            rest.push(Item { pos: s.last().pos, mode: s.last().mode, expiry: DespawnTimer(t) })
        }
    }
}

/// Advance every bullet's lifetime and remove those that ran out.
pub fn sweep_bullets(bullets: &mut Vec<Bullet>, delta_ms: u32)
    requires
        delta_ms <= crate::MAX_TICK_MS,
        forall|i: int| 0 <= i < old(bullets)@.len() ==> (#[trigger] old(bullets)@[i]).wf(),
    ensures
        final(bullets)@ == swept_bullets(old(bullets)@, delta_ms as int),
        forall|i: int| 0 <= i < final(bullets)@.len() ==> (#[trigger] final(bullets)@[i]).wf(),
{
    let len: usize = bullets.len();
    let mut kept: Vec<Bullet> = Vec::new();
    let mut i: usize = 0;
    while i < len
        invariant
            i <= len,
            len == bullets@.len(),
            bullets@ == old(bullets)@,
            delta_ms <= crate::MAX_TICK_MS,
            forall|k: int| 0 <= k < bullets@.len() ==> (#[trigger] bullets@[k]).wf(),
            kept@ == swept_bullets(bullets@.take(i as int), delta_ms as int),
            forall|k: int| 0 <= k < kept@.len() ==> (#[trigger] kept@[k]).wf(),
        decreases len - i,
    {
        proof {
            assert(bullets@.take(i as int + 1).drop_last() =~= bullets@.take(i as int));
            assert(bullets@.take(i as int + 1).last() == bullets@[i as int]);
        }
        let b = bullets[i];
        let mut clock: Clock = b.expiry.0;
        clock.tick(delta_ms);
        if !clock.finished() {
            kept.push(Bullet { pos: b.pos, velocity: b.velocity, expiry: DespawnTimer(clock) });
        }
        i = i + 1;
    }
    proof {
        assert(bullets@.take(len as int) =~= bullets@);
    }
    *bullets = kept;
}

/// Advance every item's lifetime and remove those that ran out.
pub fn sweep_items(items: &mut Vec<Item>, delta_ms: u32)
    requires
        delta_ms <= crate::MAX_TICK_MS,
        forall|i: int| 0 <= i < old(items)@.len() ==> (#[trigger] old(items)@[i]).wf(),
    ensures
        final(items)@ == swept_items(old(items)@, delta_ms as int),
        forall|i: int| 0 <= i < final(items)@.len() ==> (#[trigger] final(items)@[i]).wf(),
{
    let len: usize = items.len();
    let mut kept: Vec<Item> = Vec::new();
    let mut i: usize = 0;
    while i < len
        invariant
            i <= len,
            len == items@.len(),
            items@ == old(items)@,
            delta_ms <= crate::MAX_TICK_MS,
            forall|k: int| 0 <= k < items@.len() ==> (#[trigger] items@[k]).wf(),
            kept@ == swept_items(items@.take(i as int), delta_ms as int),
            forall|k: int| 0 <= k < kept@.len() ==> (#[trigger] kept@[k]).wf(),
        decreases len - i,
    {
        proof {
            assert(items@.take(i as int + 1).drop_last() =~= items@.take(i as int));
            assert(items@.take(i as int + 1).last() == items@[i as int]);
        }
        let it = items[i];
        let mut clock: Clock = it.expiry.0;
        clock.tick(delta_ms);
        if !clock.finished() {
            kept.push(Item { pos: it.pos, mode: it.mode, expiry: DespawnTimer(clock) });
        }
        i = i + 1;
    }
    proof {
        assert(items@.take(len as int) =~= items@);
    }
    *items = kept;
}

} // verus!
