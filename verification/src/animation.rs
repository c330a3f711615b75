//! Animations: a counter of ticks that runs from a start value to an end
//! value, one tick per update interval.
//!
//! The counter is shared by every clone of an animation, so that the task
//! that advances it and the views that read it see the same value; its value
//! is therefore read and moved through atomic operations, and the logic that
//! decides what a tick does takes the value it read as an argument.
use vstd::prelude::*;
use core::sync::atomic::AtomicU64;
use core::sync::atomic::Ordering;
use std::sync::Arc;
use crate::id::AnimationId;
use crate::id::IdGenerator;
use crate::id::next_after;
use crate::debug::MAX_DURATION_NANOS;

verus! {

/// The time between two ticks, in milliseconds.
pub const TICK_MILLIS: u64 = 16u64;

/// Which way an animation runs.
#[derive(Debug, Clone, Copy, PartialEq, Eq, Structural)]
pub enum AnimationDirection {
    /// From zero up to the number of ticks.
    Forward,
    /// From the number of ticks down to zero.
    Backward,
}

/// Easing curves (https://easings.net/).
#[derive(Debug, Clone, Copy, PartialEq, Eq, Structural)]
pub enum EasingCurve {
    Linear,
    EaseInSine,
    EaseOutSine,
    EaseInOutSine,
    EaseInQuad,
    EaseOutQuad,
    EaseInOutQuad,
    EaseInCubic,
    EaseOutCubic,
    EaseInOutCubic,
    EaseInQuart,
    EaseOutQuart,
    EaseInOutQuart,
    EaseInQuint,
    EaseOutQuint,
    EaseInOutQuint,
    EaseInExpo,
    EaseOutExpo,
    EaseInOutExpo,
    EaseInCirc,
    EaseOutCirc,
    EaseInOutCirc,
    EaseInBack,
    EaseOutBack,
    EaseInOutBack,
    EaseInElastic,
    EaseOutElastic,
    EaseInOutElastic,
    EaseInBounce,
    EaseOutBounce,
    EaseInOutBounce,
}

/// The time between two ticks, in nanoseconds.
pub const TICK_NANOS: u128 = 16_000_000u128;

/// The number of ticks of an animation that lasts `duration_nanos`: the
/// whole milliseconds of a sixteenth of the duration.
pub open spec fn tick_count(duration_nanos: u128) -> u128 {
    duration_nanos / TICK_NANOS
}

/// The counter value an animation starts from: zero going forward; going
/// backward, the whole milliseconds of the duration, cut to 64 bits as the
/// counter holds them, over `TICK_MILLIS`.
pub open spec fn start_value(direction: AnimationDirection, duration_nanos: u128) -> u64 {
    match direction {
        AnimationDirection::Forward => 0,
        AnimationDirection::Backward => ((duration_nanos / 1_000_000) as u64) / TICK_MILLIS,
    }
}

/// Whether the counter has reached the end: the progress, counter over tick
/// count, equals one for a forward animation and zero for a backward one.
/// With no tick at all the progress is undefined and the end is never reached.
pub open spec fn at_end(direction: AnimationDirection, value: u64, ticks: u128) -> bool {
    ticks != 0 && match direction {
        AnimationDirection::Forward => value as u128 == ticks,
        AnimationDirection::Backward => value == 0,
    }
}

/// The counter after one tick: up by one for a forward animation, down by one
/// for a backward one, wrapping around as the atomic operations do.
pub open spec fn advanced(direction: AnimationDirection, value: u64) -> u64 {
    match direction {
        AnimationDirection::Forward => next_after(value),
        AnimationDirection::Backward => if value == 0 {
            u64::MAX
        } else {
            (value - 1) as u64
        },
    }
}

/// What the task that runs an animation does next.
#[derive(Debug, Clone, Copy, PartialEq, Eq, Structural)]
pub enum AnimationStep {
    /// Wait for the next tick, move the counter one step and send the tick
    /// message.
    Tick,
    /// Stop, and send the done message.
    Finish,
}

/// An animation: its identity, timing, direction and easing, and the shared
/// counter of ticks.
#[derive(Debug, Clone)]
pub struct Animation {
    id: AnimationId,
    value: Arc<AtomicU64>,
    own_count: u64,
    update_interval_millis: u64,
    duration_nanos: u128,
    direction: AnimationDirection,
    easing_curve: EasingCurve,
}

impl Animation {
    /// The animation's identifier.
    pub closed spec fn spec_id(&self) -> AnimationId {
        self.id
    }

    /// The time between two ticks, in milliseconds.
    pub closed spec fn interval_millis(&self) -> u64 {
        self.update_interval_millis
    }

    /// How long the animation lasts, in nanoseconds.
    pub closed spec fn length_nanos(&self) -> u128 {
        self.duration_nanos
    }

    /// Which way the animation runs.
    pub closed spec fn spec_direction(&self) -> AnimationDirection {
        self.direction
    }

    /// The easing curve.
    pub closed spec fn easing(&self) -> EasingCurve {
        self.easing_curve
    }

    /// The counter as this handle has moved it: its start value, moved by
    /// every increment and decrement made through this handle, wrapping as
    /// the atomic does. It is what the shared counter holds while no other
    /// clone moves it; the atomic's own value is not visible to the proofs.
    pub closed spec fn handle_count(&self) -> u64 {
        self.own_count
    }

    /// A new animation that lasts `duration_nanos` (at most what a `Duration`
    /// holds), with the identifier issued by `ids`, ticking every
    /// `TICK_MILLIS`, with the curve `EaseInOutCubic`. Its counter starts at
    /// `start_value(direction, duration_nanos)`.
    pub fn new(direction: AnimationDirection, duration_nanos: u128, ids: &mut IdGenerator) -> (a: Animation)
        requires
            old(ids).next_raw() != 0,
            duration_nanos <= MAX_DURATION_NANOS,
        ensures
            a.spec_id().raw() == old(ids).next_raw(),
            final(ids).next_raw() == next_after(old(ids).next_raw()),
            a.interval_millis() == TICK_MILLIS,
            a.length_nanos() == duration_nanos,
            a.spec_direction() == direction,
            a.easing() == EasingCurve::EaseInOutCubic,
            a.handle_count() == start_value(direction, duration_nanos),
    {
        let id = AnimationId::unique(ids);
        let start = match direction {
            AnimationDirection::Forward => 0u64,
            AnimationDirection::Backward => ((duration_nanos / 1_000_000) as u64) / TICK_MILLIS,
        };
        Animation {
            id,
            value: Arc::new(AtomicU64::new(start)),
            own_count: start,
            update_interval_millis: TICK_MILLIS,
            duration_nanos,
            direction,
            easing_curve: EasingCurve::EaseInOutCubic,
        }
    }

    /// The same animation with the easing curve `curve`.
    pub fn with_easing(self, curve: EasingCurve) -> (a: Animation)
        ensures
            a.easing() == curve,
            a.spec_id() == self.spec_id(),
            a.interval_millis() == self.interval_millis(),
            a.length_nanos() == self.length_nanos(),
            a.spec_direction() == self.spec_direction(),
            a.handle_count() == self.handle_count(),
    {
        let mut a = self;
        a.easing_curve = curve;
        a
    }

    /// Moves the shared counter up by one, wrapping around.
    /// The counter is an atomic shared with every clone, whose value Verus
    /// does not see; the clauses speak of the handle's count, which moves
    /// the same way.
    pub fn increment(&mut self)
        ensures
            final(self).spec_id() == old(self).spec_id(),
            final(self).interval_millis() == old(self).interval_millis(),
            final(self).length_nanos() == old(self).length_nanos(),
            final(self).spec_direction() == old(self).spec_direction(),
            final(self).easing() == old(self).easing(),
            final(self).handle_count() == next_after(old(self).handle_count()),
    {
        self.value.fetch_add(1, Ordering::Release);
        self.own_count = if self.own_count == u64::MAX {
            0
        } else {
            self.own_count + 1
        };
    }

    /// Moves the shared counter down by one, wrapping around.
    /// The counter is an atomic shared with every clone, whose value Verus
    /// does not see; the clauses speak of the handle's count, which moves
    /// the same way.
    pub fn decrement(&mut self)
        ensures
            final(self).spec_id() == old(self).spec_id(),
            final(self).interval_millis() == old(self).interval_millis(),
            final(self).length_nanos() == old(self).length_nanos(),
            final(self).spec_direction() == old(self).spec_direction(),
            final(self).easing() == old(self).easing(),
            final(self).handle_count() == advanced(AnimationDirection::Backward, old(self).handle_count()),
    {
        self.value.fetch_sub(1, Ordering::Release);
        self.own_count = if self.own_count == 0 {
            u64::MAX
        } else {
            self.own_count - 1
        };
    }

    /// The current value of the shared counter.
    /// Other clones move the counter at any time, and Verus does not see
    /// inside the atomic, so nothing is promised of the value read.
    pub fn counter(&self) -> u64 {
        self.value.load(Ordering::Acquire)
    }

    /// The number of ticks the animation lasts: its duration over `TICK_MILLIS`.
    pub fn ticks(&self) -> (t: u128)
        ensures
            t == tick_count(self.length_nanos()),
    {
        self.duration_nanos / TICK_NANOS
    }

    /// The counter value the animation starts from.
    pub fn start(&self) -> (v: u64)
        ensures
            v == start_value(self.spec_direction(), self.length_nanos()),
    {
        match self.direction {
            AnimationDirection::Forward => 0,
            AnimationDirection::Backward => ((self.duration_nanos / 1_000_000) as u64) / TICK_MILLIS,
        }
    }

    /// Whether the counter value `value` is the animation's end.
    pub fn reached_end(&self, value: u64) -> (b: bool)
        ensures
            b == at_end(self.spec_direction(), value, tick_count(self.length_nanos())),
    {
        let ticks = self.duration_nanos / TICK_NANOS;
        if ticks == 0 {
            false
        } else {
            match self.direction {
                AnimationDirection::Forward => value as u128 == ticks,
                AnimationDirection::Backward => value == 0,
            }
        }
    }

    /// What the running task does when it reads the counter value `value`:
    /// stop at the end, tick otherwise.
    pub fn next_step(&self, value: u64) -> (step: AnimationStep)
        ensures
            step == (if at_end(self.spec_direction(), value, tick_count(self.length_nanos())) {
                AnimationStep::Finish
            } else {
                AnimationStep::Tick
            }),
    {
        if self.reached_end(value) {
            AnimationStep::Finish
        } else {
            AnimationStep::Tick
        }
    }

    /// Moves the shared counter one step the animation's way: up going
    /// forward, down going backward.
    /// The counter is an atomic shared with every clone, whose value Verus
    /// does not see; the clauses speak of the handle's count, which moves
    /// the same way.
    pub fn advance(&mut self)
        ensures
            final(self).spec_id() == old(self).spec_id(),
            final(self).interval_millis() == old(self).interval_millis(),
            final(self).length_nanos() == old(self).length_nanos(),
            final(self).spec_direction() == old(self).spec_direction(),
            final(self).easing() == old(self).easing(),
            final(self).handle_count() == advanced(old(self).spec_direction(), old(self).handle_count()),
    {
        match self.direction {
            AnimationDirection::Forward => self.increment(),
            AnimationDirection::Backward => self.decrement(),
        }
    }

    /// The animation's identifier.
    pub fn id(&self) -> (id: AnimationId)
        ensures
            id == self.spec_id(),
    {
        self.id
    }

    /// The time between two ticks, in milliseconds.
    pub fn update_interval(&self) -> (ms: u64)
        ensures
            ms == self.interval_millis(),
    {
        self.update_interval_millis
    }

    /// How long the animation lasts, in nanoseconds.
    pub fn duration(&self) -> (ns: u128)
        ensures
            ns == self.length_nanos(),
    {
        self.duration_nanos
    }

    /// Which way the animation runs.
    pub fn direction(&self) -> (d: AnimationDirection)
        ensures
            d == self.spec_direction(),
    {
        self.direction
    }

    /// The easing curve.
    pub fn easing_curve(&self) -> (c: EasingCurve)
        ensures
            c == self.easing(),
    {
        self.easing_curve
    }
}

impl PartialEq for Animation {
    /// Two animations are equal when their identifiers, timing, direction and
    /// easing are; the counter is not compared.
    fn eq(&self, other: &Animation) -> (r: bool) {
        self.id == other.id && self.update_interval_millis == other.update_interval_millis
            && self.duration_nanos == other.duration_nanos && self.direction == other.direction
            && self.easing_curve == other.easing_curve
    }
}

impl vstd::std_specs::cmp::PartialEqSpecImpl for Animation {
    open spec fn obeys_eq_spec() -> bool {
        true
    }

    open spec fn eq_spec(&self, other: &Animation) -> bool {
        &&& self.spec_id() == other.spec_id()
        &&& self.interval_millis() == other.interval_millis()
        &&& self.length_nanos() == other.length_nanos()
        &&& self.spec_direction() == other.spec_direction()
        &&& self.easing() == other.easing()
    }
}

/// Whether an animation with identifier `id` is among the running ones.
pub fn already_running<Message>(running: &Vec<(AnimationId, Message)>, id: AnimationId) -> (b: bool)
    ensures
        b == exists|i: int| 0 <= i < running@.len() && #[trigger] running@[i].0 == id,
{
    let mut i: usize = 0;
    while i < running.len()
        invariant
            i <= running@.len(),
            forall|j: int| 0 <= j < i ==> #[trigger] running@[j].0 != id,
        decreases running@.len() - i,
    {
        if running[i].0 == id {
            return true;
        }
        i = i + 1;
    }
    false
}

/// Counting from the start, a forward animation with ticks reaches its end
/// exactly at its last tick, and a backward one exactly at its last tick too,
/// for every duration whose whole milliseconds fit the 64-bit counter.
pub proof fn lemma_end_after_all_ticks(direction: AnimationDirection, duration_nanos: u128, k: nat)
    requires
        duration_nanos / 1_000_000 <= u64::MAX,
        tick_count(duration_nanos) > 0,
        k <= tick_count(duration_nanos),
    ensures
        at_end(direction, run_value(direction, duration_nanos, k), tick_count(duration_nanos))
            <==> k == tick_count(duration_nanos),
    decreases k,
{
    if k > 0 {
        lemma_end_after_all_ticks(direction, duration_nanos, (k - 1) as nat);
    }
    lemma_run_value(direction, duration_nanos, k);
}

/// One tick moves the counter exactly one step the animation's way: a
/// forward animation one up, a backward one one down, each wrapping around at
/// the end of the 64-bit range.
pub proof fn lemma_tick_moves_one_step(direction: AnimationDirection, value: u64)
    ensures
        direction == AnimationDirection::Forward ==> advanced(direction, value) as int == (value as int
            + 1) % 0x1_0000_0000_0000_0000,
        direction == AnimationDirection::Backward ==> advanced(direction, value) as int == (value as int
            - 1) % 0x1_0000_0000_0000_0000,
        direction == AnimationDirection::Forward && value < u64::MAX ==> advanced(direction, value)
            > value,
        direction == AnimationDirection::Backward && value > 0 ==> advanced(direction, value) < value,
{
}

/// The counter after `k` ticks from the start.
pub open spec fn run_value(direction: AnimationDirection, duration_nanos: u128, k: nat) -> u64
    decreases k,
{
    if k == 0 {
        start_value(direction, duration_nanos)
    } else {
        advanced(direction, run_value(direction, duration_nanos, (k - 1) as nat))
    }
}

/// Going backward, the counter starts at the tick count when the whole
/// milliseconds of the duration fit the counter.
proof fn lemma_backward_start(duration_nanos: u128)
    requires
        duration_nanos / 1_000_000 <= u64::MAX,
    ensures
        start_value(AnimationDirection::Backward, duration_nanos) == tick_count(duration_nanos),
{
    let ms = duration_nanos / 1_000_000;
    assert((ms as u64) as int == ms as int);
    vstd::arithmetic::div_mod::lemma_div_denominator(duration_nanos as int, 1_000_000, 16);
}

proof fn lemma_run_value(direction: AnimationDirection, duration_nanos: u128, k: nat)
    requires
        duration_nanos / 1_000_000 <= u64::MAX,
        k <= tick_count(duration_nanos),
    ensures
        run_value(direction, duration_nanos, k) == match direction {
            AnimationDirection::Forward => k as int,
            AnimationDirection::Backward => tick_count(duration_nanos) - k,
        },
    decreases k,
{
    lemma_backward_start(duration_nanos);
    assert(tick_count(duration_nanos) <= u64::MAX) by {
        vstd::arithmetic::div_mod::lemma_div_denominator(duration_nanos as int, 1_000_000, 16);
    }
    if k > 0 {
        lemma_run_value(direction, duration_nanos, (k - 1) as nat);
    }
}

/// With no tick at all an animation never reaches its end, however far it runs.
pub proof fn lemma_no_ticks_never_ends(direction: AnimationDirection, duration_nanos: u128, value: u64)
    requires
        tick_count(duration_nanos) == 0,
    ensures
        !at_end(direction, value, tick_count(duration_nanos)),
{
}

} // verus!
