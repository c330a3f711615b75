//! Timing of the stages of the event loop (startup, update, view, layout,
//! event, draw, encode, render), kept in small ring buffers.
//!
//! Durations are held as whole nanoseconds.
use vstd::prelude::*;
use std::time::Duration;
use std::time::Instant;

verus! {

/// The largest duration, in nanoseconds, that a `Duration` can hold
/// (`u64::MAX` seconds and 999 999 999 nanoseconds).
pub const MAX_DURATION_NANOS: u128 = 18_446_744_073_709_551_615_999_999_999u128;

/// The largest number of slots a ring buffer of durations may have.
pub const MAX_TIME_BUFFER_CAPACITY: usize = 4_294_967_295usize;

/// Sum of a sequence of durations.
pub open spec fn sum_nanos(s: Seq<u128>) -> nat
    decreases s.len(),
{
    if s.len() == 0 {
        0
    } else {
        sum_nanos(s.drop_last()) + s.last() as nat
    }
}

/// The largest element of a sequence of durations, or zero if it is empty.
pub open spec fn max_nanos(s: Seq<u128>) -> u128
    decreases s.len(),
{
    if s.len() == 0 {
        0
    } else {
        let m = max_nanos(s.drop_last());
        if s.last() > m {
            s.last()
        } else {
            m
        }
    }
}

/// The average of the first `size` slots, rounded down; a buffer with
/// nothing recorded yet averages to zero.
pub open spec fn average_nanos(contents: Seq<u128>, size: nat) -> nat {
    sum_nanos(contents.take(size as int)) / (if size == 0 {
        1nat
    } else {
        size
    })
}

/// The slot that the next push writes to.
pub open spec fn next_head(head: nat, len: nat) -> nat {
    ((head + 1) as int % (len as int)) as nat
}

/// A ring buffer of the most recent durations of one stage.
pub struct TimeBuffer {
    head: usize,
    size: usize,
    contents: Vec<u128>,
}

impl TimeBuffer {
    /// The slots of the buffer, in index order.
    pub closed spec fn slots(&self) -> Seq<u128> {
        self.contents@
    }

    /// The slot written by the latest push.
    pub closed spec fn head_slot(&self) -> nat {
        self.head as nat
    }

    /// How many slots count towards the average.
    pub closed spec fn filled(&self) -> nat {
        self.size as nat
    }

    /// The buffer's invariant.
    pub closed spec fn wf(&self) -> bool {
        &&& self.contents@.len() <= MAX_TIME_BUFFER_CAPACITY
        &&& self.size <= self.contents@.len()
        &&& (self.contents@.len() == 0 ==> self.head == 0)
        &&& (self.contents@.len() > 0 ==> self.head < self.contents@.len())
        &&& forall|i: int| 0 <= i < self.contents@.len() ==> #[trigger] self.contents@[i] <= MAX_DURATION_NANOS
    }

    /// A buffer of `capacity` slots, all holding zero.
    pub fn new(capacity: usize) -> (b: TimeBuffer)
        requires
            capacity <= MAX_TIME_BUFFER_CAPACITY,
        ensures
            b.wf(),
            b.slots() == Seq::new(capacity as nat, |i: int| 0u128),
            b.head_slot() == 0,
            b.filled() == 0,
    {
        let contents: Vec<u128> = vec![0u128; capacity];
        let b = TimeBuffer { head: 0, size: 0, contents };
        assert(b.contents@ =~= Seq::new(capacity as nat, |i: int| 0u128));
        b
    }

    /// Records `duration`: the head moves one slot on (wrapping around), the
    /// duration is written there, and one more slot counts, up to the capacity.
    pub fn push(&mut self, duration: u128)
        requires
            old(self).wf(),
            old(self).slots().len() > 0,
            duration <= MAX_DURATION_NANOS,
        ensures
            final(self).wf(),
            final(self).head_slot() == next_head(old(self).head_slot(), old(self).slots().len()),
            final(self).slots() == old(self).slots().update(final(self).head_slot() as int, duration),
            final(self).filled() == if old(self).filled() + 1 <= old(self).slots().len() {
                old(self).filled() + 1
            } else {
                old(self).slots().len()
            },
    {
        let len = self.contents.len();
        self.head = (self.head + 1) % len;
        self.contents.set(self.head, duration);
        self.size = if self.size < len {
            self.size + 1
        } else {
            len
        };
    }

    /// The average of the first `filled` slots in index order, rounded down
    /// (zero when `filled` is zero). Pushes start writing at slot one, so
    /// until the buffer has gone round once these are not exactly the slots
    /// pushed to: after one push, the average is that of slot zero alone.
    pub fn average(&self) -> (avg: u128)
        requires
            self.wf(),
        ensures
            avg == average_nanos(self.slots(), self.filled()),
    {
        let n = self.size;
        let mut sum: u128 = 0;
        let mut i: usize = 0;
        while i < n
            invariant
                self.wf(),
                n == self.size,
                i <= n,
                sum == sum_nanos(self.contents@.take(i as int)),
                sum <= i * MAX_DURATION_NANOS,
            decreases n - i,
        {
            proof {
                assert(self.contents@.take(i + 1).drop_last() =~= self.contents@.take(i as int));
                assert(self.contents@[i as int] <= MAX_DURATION_NANOS);
                assert((i + 1) * MAX_DURATION_NANOS == i * MAX_DURATION_NANOS + MAX_DURATION_NANOS)
                    by (nonlinear_arith);
                assert((i + 1) * MAX_DURATION_NANOS <= MAX_TIME_BUFFER_CAPACITY * MAX_DURATION_NANOS)
                    by (nonlinear_arith)
                    requires
                        i + 1 <= MAX_TIME_BUFFER_CAPACITY,
                ;
            }
            sum = sum + self.contents[i];
            i = i + 1;
        }
        let divisor: u128 = if n == 0 {
            1
        } else {
            n as u128
        };
        sum / divisor
    }

    /// The largest duration held in any slot (zero for a buffer without slots).
    pub fn max(&self) -> (m: u128)
        requires
            self.wf(),
        ensures
            m == max_nanos(self.slots()),
    {
        let len = self.contents.len();
        let mut m: u128 = 0;
        let mut i: usize = 0;
        while i < len
            invariant
                len == self.contents@.len(),
                i <= len,
                m == max_nanos(self.contents@.take(i as int)),
            decreases len - i,
        {
            proof {
                assert(self.contents@.take(i + 1).drop_last() =~= self.contents@.take(i as int));
            }
            if self.contents[i] > m {
                m = self.contents[i];
            }
            i = i + 1;
        }
        proof {
            assert(self.contents@.take(len as int) =~= self.contents@);
        }
        m
    }
}

/// Every element of a sequence is at most its `max_nanos`.
pub proof fn lemma_max_nanos_bounds(s: Seq<u128>)
    ensures
        forall|i: int| 0 <= i < s.len() ==> #[trigger] s[i] <= max_nanos(s),
    decreases s.len(),
{
    if s.len() > 0 {
        lemma_max_nanos_bounds(s.drop_last());
        assert forall|i: int| 0 <= i < s.len() implies #[trigger] s[i] <= max_nanos(s) by {
            if i < s.len() - 1 {
                assert(s.drop_last()[i] == s[i]);
            }
        }
    }
}

/// A sum of elements each at most `bound` is at most `len * bound`.
pub proof fn lemma_sum_nanos_bound(s: Seq<u128>, bound: nat)
    requires
        forall|i: int| 0 <= i < s.len() ==> #[trigger] s[i] <= bound,
    ensures
        sum_nanos(s) <= s.len() * bound,
    decreases s.len(),
{
    if s.len() > 0 {
        let t = s.drop_last();
        assert forall|i: int| 0 <= i < t.len() implies #[trigger] t[i] <= bound by {
            assert(t[i] == s[i]);
        }
        lemma_sum_nanos_bound(t, bound);
        assert(s[s.len() - 1] <= bound);
        assert(t.len() * bound + bound == s.len() * bound) by (nonlinear_arith)
            requires
                t.len() + 1 == s.len(),
        ;
    }
}

/// The average of a ring buffer never exceeds its largest duration.
pub proof fn lemma_average_at_most_max(b: TimeBuffer)
    requires
        b.wf(),
    ensures
        average_nanos(b.slots(), b.filled()) <= max_nanos(b.slots()),
{
    let s = b.slots();
    let k = b.filled();
    let m = max_nanos(s);
    lemma_max_nanos_bounds(s);
    let t = s.take(k as int);
    assert forall|i: int| 0 <= i < t.len() implies #[trigger] t[i] <= m as nat by {
        assert(t[i] == s[i]);
    }
    lemma_sum_nanos_bound(t, m as nat);
    if k > 0 {
        let total = sum_nanos(t);
        assert(total / k <= m) by (nonlinear_arith)
            requires
                total <= k * m,
                k > 0,
        ;
    }
}

/// After a push, the buffer's maximum is at least the duration just pushed.
pub proof fn lemma_pushed_at_most_max(b: TimeBuffer, duration: u128)
    requires
        b.wf(),
        b.slots().len() > 0,
    ensures
        duration <= max_nanos(
            b.slots().update(next_head(b.head_slot(), b.slots().len()) as int, duration),
        ),
{
    let h = next_head(b.head_slot(), b.slots().len());
    let s = b.slots().update(h as int, duration);
    lemma_max_nanos_bounds(s);
    assert(s[h as int] == duration);
}

/// The slots and head of a ring buffer after pushing `ds`, in order, onto
/// slots `slots` with head `head`.
pub open spec fn after_pushes(slots: Seq<u128>, head: nat, ds: Seq<u128>) -> (Seq<u128>, nat)
    decreases ds.len(),
{
    if ds.len() == 0 {
        (slots, head)
    } else {
        let (s, h) = after_pushes(slots, head, ds.drop_last());
        let h2 = next_head(h, s.len());
        (s.update(h2 as int, ds.last()), h2)
    }
}

/// The slot `t` places behind `head`, going round a buffer of `len` slots.
pub open spec fn behind(head: nat, t: nat, len: nat) -> nat {
    ((head as int - t as int) % (len as int)) as nat
}

/// A ring buffer keeps the most recent durations: after any run of pushes,
/// the slot `t` places behind the head holds the `t`-th most recent duration,
/// for every `t` below both the capacity and the number of pushes.
pub proof fn lemma_keeps_most_recent(slots: Seq<u128>, head: nat, ds: Seq<u128>, t: nat)
    requires
        slots.len() > 0,
        head < slots.len(),
        t < slots.len(),
        t < ds.len(),
    ensures
        after_pushes(slots, head, ds).0.len() == slots.len(),
        after_pushes(slots, head, ds).1 < slots.len(),
        after_pushes(slots, head, ds).0[behind(after_pushes(slots, head, ds).1, t, slots.len()) as int]
            == ds[ds.len() - 1 - t],
    decreases ds.len(),
{
    lemma_after_pushes_shape(slots, head, ds);
    let len = slots.len();
    let (s, h) = after_pushes(slots, head, ds.drop_last());
    lemma_after_pushes_shape(slots, head, ds.drop_last());
    let h2 = next_head(h, len);
    if t == 0 {
        assert(behind(h2, 0, len) == h2) by {
            vstd::arithmetic::div_mod::lemma_small_mod(h2, len);
        }
    } else {
        lemma_keeps_most_recent(slots, head, ds.drop_last(), (t - 1) as nat);
        let p = behind(h, (t - 1) as nat, len);
        lemma_behind_step(h, t, len);
        lemma_behind_not_head(h, t, len);
        assert(ds.drop_last()[ds.drop_last().len() - 1 - (t - 1)] == ds[ds.len() - 1 - t]);
    }
}

proof fn lemma_after_pushes_shape(slots: Seq<u128>, head: nat, ds: Seq<u128>)
    requires
        slots.len() > 0,
        head < slots.len(),
    ensures
        after_pushes(slots, head, ds).0.len() == slots.len(),
        after_pushes(slots, head, ds).1 < slots.len(),
    decreases ds.len(),
{
    if ds.len() > 0 {
        lemma_after_pushes_shape(slots, head, ds.drop_last());
        let (s, h) = after_pushes(slots, head, ds.drop_last());
        vstd::arithmetic::div_mod::lemma_mod_bound((h + 1) as int, s.len() as int);
    }
}

proof fn lemma_behind_step(h: nat, t: nat, len: nat)
    requires
        len > 0,
        h < len,
        0 < t < len,
    ensures
        behind(next_head(h, len), t, len) == behind(h, (t - 1) as nat, len),
{
    let h2 = (h + 1) as int % (len as int);
    if h + 1 < len {
        vstd::arithmetic::div_mod::lemma_small_mod((h + 1) as nat, len);
        assert(h2 - t == h as int - (t - 1));
    } else {
        vstd::arithmetic::div_mod::lemma_mod_self_0(len as int);
        assert(h2 == 0);
        assert(h2 - t == (h as int - (t - 1)) - len);
        vstd::arithmetic::div_mod::lemma_mod_sub_multiples_vanish(h as int - (t - 1), len as int);
    }
}

proof fn lemma_behind_not_head(h: nat, t: nat, len: nat)
    requires
        len > 0,
        h < len,
        0 < t < len,
    ensures
        behind(h, (t - 1) as nat, len) != next_head(h, len),
{
    let d = h as int - (t - 1);
    if h + 1 < len {
        vstd::arithmetic::div_mod::lemma_small_mod((h + 1) as nat, len);
    } else {
        vstd::arithmetic::div_mod::lemma_mod_self_0(len as int);
    }
    if d >= 0 {
        vstd::arithmetic::div_mod::lemma_small_mod(d as nat, len);
    } else {
        vstd::arithmetic::div_mod::lemma_mod_add_multiples_vanish(d, len as int);
        vstd::arithmetic::div_mod::lemma_small_mod((d + len) as nat, len);
    }
}

/// `std::time::Instant`, a reading of the monotonic clock; carried through
/// unread.
#[verifier::external_type_specification]
#[verifier::external_body]
pub struct ExInstant(Instant);

/// `Instant::now`: the current reading of the monotonic clock. Nothing is
/// promised of it.
#[verifier::external_body]
fn clock_now() -> (t: Instant) {
    Instant::now()
}

/// `Instant::elapsed`: the time that passed since `start`. Nothing is promised
/// of it, as it depends on the clock.
#[verifier::external_body]
fn clock_elapsed(start: &Instant) -> (d: Duration) {
    start.elapsed()
}

/// `Duration::as_nanos`: the whole duration in nanoseconds. Its documentation
/// bounds a `Duration` by `Duration::MAX`, which is `MAX_DURATION_NANOS`
/// nanoseconds; that bound is all that is claimed.
#[verifier::external_body]
fn duration_nanos(d: Duration) -> (n: u128)
    ensures
        n <= MAX_DURATION_NANOS,
{
    d.as_nanos()
}

/// The stages whose durations are measured.
#[derive(Debug, Clone, Copy, PartialEq, Eq, Structural)]
pub enum Stage {
    Startup,
    Update,
    View,
    Layout,
    Event,
    Draw,
    Encode,
    Render,
}

/// The stages whose durations are kept in a ring buffer: every stage but the
/// startup, which keeps a single duration.
#[derive(Debug, Clone, Copy, PartialEq, Eq, Structural)]
pub enum TimedStage {
    Update,
    View,
    Layout,
    Event,
    Draw,
    Encode,
    Render,
}

/// Average and maximum of one stage, in nanoseconds.
#[derive(Debug, Clone, Copy, PartialEq, Eq, Structural)]
pub struct StageStats {
    pub average: u128,
    pub max: u128,
}

/// What a performance log reports: the startup time, and the average and
/// maximum of every other stage.
#[derive(Debug, Clone, Copy, PartialEq, Eq, Structural)]
pub struct PerfReport {
    pub startup: u128,
    pub update: StageStats,
    pub view: StageStats,
    pub layout: StageStats,
    pub event: StageStats,
    pub draw: StageStats,
    pub encode: StageStats,
    pub render: StageStats,
}

/// The capacity of each stage's ring buffer.
pub const STAGE_HISTORY: usize = 10usize;

/// The statistics a buffer reports.
pub open spec fn stats_of(b: TimeBuffer) -> StageStats {
    StageStats {
        average: average_nanos(b.slots(), b.filled()) as u128,
        max: max_nanos(b.slots()),
    }
}

/// `after` is `before` with one push of `duration`.
pub open spec fn pushed(before: TimeBuffer, after: TimeBuffer, duration: u128) -> bool {
    &&& duration <= MAX_DURATION_NANOS
    &&& after.wf()
    &&& after.head_slot() == next_head(before.head_slot(), before.slots().len())
    &&& after.slots() == before.slots().update(after.head_slot() as int, duration)
    &&& after.filled() == if before.filled() + 1 <= before.slots().len() {
        before.filled() + 1
    } else {
        before.slots().len()
    }
}

/// Start and finish times of every stage of the event loop.
pub struct DebugLayer {
    startup_start: Instant,
    startup_duration: u128,
    update_start: Instant,
    update_durations: TimeBuffer,
    view_start: Instant,
    view_durations: TimeBuffer,
    layout_start: Instant,
    layout_durations: TimeBuffer,
    event_start: Instant,
    event_durations: TimeBuffer,
    draw_start: Instant,
    draw_durations: TimeBuffer,
    encode_start: Instant,
    encode_durations: TimeBuffer,
    render_start: Instant,
    render_durations: TimeBuffer,
}

impl DebugLayer {
    /// When the stage was last started.
    pub closed spec fn start(&self, stage: Stage) -> Instant {
        match stage {
            Stage::Startup => self.startup_start,
            Stage::Update => self.update_start,
            Stage::View => self.view_start,
            Stage::Layout => self.layout_start,
            Stage::Event => self.event_start,
            Stage::Draw => self.draw_start,
            Stage::Encode => self.encode_start,
            Stage::Render => self.render_start,
        }
    }

    /// The ring buffer of durations recorded for a stage.
    pub closed spec fn durations(&self, stage: TimedStage) -> TimeBuffer {
        match stage {
            TimedStage::Update => self.update_durations,
            TimedStage::View => self.view_durations,
            TimedStage::Layout => self.layout_durations,
            TimedStage::Event => self.event_durations,
            TimedStage::Draw => self.draw_durations,
            TimedStage::Encode => self.encode_durations,
            TimedStage::Render => self.render_durations,
        }
    }

    /// The measured startup time.
    pub closed spec fn startup_nanos(&self) -> u128 {
        self.startup_duration
    }

    /// Every buffer is well formed and has `STAGE_HISTORY` slots.
    pub closed spec fn wf(&self) -> bool {
        &&& self.startup_duration <= MAX_DURATION_NANOS
        &&& self.update_durations.wf()
        &&& self.view_durations.wf()
        &&& self.layout_durations.wf()
        &&& self.event_durations.wf()
        &&& self.draw_durations.wf()
        &&& self.encode_durations.wf()
        &&& self.render_durations.wf()
        &&& self.update_durations.slots().len() == STAGE_HISTORY
        &&& self.view_durations.slots().len() == STAGE_HISTORY
        &&& self.layout_durations.slots().len() == STAGE_HISTORY
        &&& self.event_durations.slots().len() == STAGE_HISTORY
        &&& self.draw_durations.slots().len() == STAGE_HISTORY
        &&& self.encode_durations.slots().len() == STAGE_HISTORY
        &&& self.render_durations.slots().len() == STAGE_HISTORY
    }

    /// `self` is `before` with the start of `stage` set anew.
    pub open spec fn restarted(&self, before: DebugLayer, stage: Stage) -> bool {
        &&& self.wf()
        &&& forall|s: Stage| s != stage ==> #[trigger] self.start(s) == before.start(s)
        &&& forall|s: TimedStage| #[trigger] self.durations(s) == before.durations(s)
        &&& self.startup_nanos() == before.startup_nanos()
    }

    /// `self` is `before` with one duration of `stage` recorded.
    pub open spec fn recorded(&self, before: DebugLayer, stage: TimedStage) -> bool {
        &&& self.wf()
        &&& forall|s: Stage| #[trigger] self.start(s) == before.start(s)
        &&& forall|s: TimedStage| s != stage ==> #[trigger] self.durations(s) == before.durations(s)
        &&& exists|d: u128| pushed(before.durations(stage), #[trigger] self.durations(stage), d)
        &&& self.startup_nanos() == before.startup_nanos()
    }

    /// A debug layer whose stages all start now, with no duration recorded.
    pub fn new() -> (d: DebugLayer)
        ensures
            d.wf(),
            d.startup_nanos() == 0,
            forall|s: Stage| #[trigger] d.start(s) == d.start(Stage::Startup),
            forall|s: TimedStage| #[trigger] d.durations(s).filled() == 0,
            forall|s: TimedStage| #[trigger] d.durations(s).head_slot() == 0,
            forall|s: TimedStage|
                #[trigger] d.durations(s).slots() == Seq::new(STAGE_HISTORY as nat, |i: int| 0u128),
    {
        let now = clock_now();
        DebugLayer {
            startup_start: now,
            startup_duration: 0,
            update_start: now,
            update_durations: TimeBuffer::new(STAGE_HISTORY),
            view_start: now,
            view_durations: TimeBuffer::new(STAGE_HISTORY),
            layout_start: now,
            layout_durations: TimeBuffer::new(STAGE_HISTORY),
            event_start: now,
            event_durations: TimeBuffer::new(STAGE_HISTORY),
            draw_start: now,
            draw_durations: TimeBuffer::new(STAGE_HISTORY),
            encode_start: now,
            encode_durations: TimeBuffer::new(STAGE_HISTORY),
            render_start: now,
            render_durations: TimeBuffer::new(STAGE_HISTORY),
        }
    }

    /// Sets the start of `stage` to `now`; nothing else changes.
    pub fn set_start(&mut self, stage: Stage, now: Instant)
        requires
            old(self).wf(),
        ensures
            final(self).start(stage) == now,
            final(self).restarted(*old(self), stage),
    {
        match stage {
            Stage::Startup => self.startup_start = now,
            Stage::Update => self.update_start = now,
            Stage::View => self.view_start = now,
            Stage::Layout => self.layout_start = now,
            Stage::Event => self.event_start = now,
            Stage::Draw => self.draw_start = now,
            Stage::Encode => self.encode_start = now,
            Stage::Render => self.render_start = now,
        }
    }

    /// Marks the start of the startup.
    /// The new start, set through `set_start`, is a reading of the clock, of
    /// which nothing is promised.
    pub fn startup_started(&mut self)
        requires
            old(self).wf(),
        ensures
            final(self).restarted(*old(self), Stage::Startup),
    {
        self.set_start(Stage::Startup, clock_now());
    }

    /// Stores `nanos` as the startup time, in place of any earlier one;
    /// nothing else changes.
    pub fn record_startup(&mut self, nanos: u128)
        requires
            old(self).wf(),
            nanos <= MAX_DURATION_NANOS,
        ensures
            final(self).wf(),
            final(self).startup_nanos() == nanos,
            forall|s: Stage| #[trigger] final(self).start(s) == old(self).start(s),
            forall|s: TimedStage| #[trigger] final(self).durations(s) == old(self).durations(s),
    {
        self.startup_duration = nanos;
    }

    /// Measures the startup time since `startup_started` and stores it with
    /// `record_startup`, replacing any earlier measurement.
    /// The duration is read from the clock, so no clause fixes its value.
    pub fn startup_finished(&mut self)
        requires
            old(self).wf(),
        ensures
            final(self).wf(),
            forall|s: Stage| #[trigger] final(self).start(s) == old(self).start(s),
            forall|s: TimedStage| #[trigger] final(self).durations(s) == old(self).durations(s),
    {
        let nanos = duration_nanos(clock_elapsed(&self.startup_start));
        self.record_startup(nanos);
    }

    /// Marks the start of the update stage.
    /// The new start, set through `set_start`, is a reading of the clock, of
    /// which nothing is promised.
    pub fn update_started(&mut self)
        requires
            old(self).wf(),
        ensures
            final(self).restarted(*old(self), Stage::Update),
    {
        self.set_start(Stage::Update, clock_now());
    }

    /// Records the time elapsed since the update stage started.
    pub fn update_finished(&mut self)
        requires
            old(self).wf(),
        ensures
            final(self).recorded(*old(self), TimedStage::Update),
    {
        let d = duration_nanos(clock_elapsed(&self.update_start));
        self.update_durations.push(d);
        assert(pushed(old(self).durations(TimedStage::Update), self.durations(TimedStage::Update), d));
    }

    /// Marks the start of the view stage.
    /// The new start, set through `set_start`, is a reading of the clock, of
    /// which nothing is promised.
    pub fn view_started(&mut self)
        requires
            old(self).wf(),
        ensures
            final(self).restarted(*old(self), Stage::View),
    {
        self.set_start(Stage::View, clock_now());
    }

    /// Records the time elapsed since the view stage started.
    pub fn view_finished(&mut self)
        requires
            old(self).wf(),
        ensures
            final(self).recorded(*old(self), TimedStage::View),
    {
        let d = duration_nanos(clock_elapsed(&self.view_start));
        self.view_durations.push(d);
        assert(pushed(old(self).durations(TimedStage::View), self.durations(TimedStage::View), d));
    }

    /// Marks the start of the layout stage.
    /// The new start, set through `set_start`, is a reading of the clock, of
    /// which nothing is promised.
    pub fn layout_started(&mut self)
        requires
            old(self).wf(),
        ensures
            final(self).restarted(*old(self), Stage::Layout),
    {
        self.set_start(Stage::Layout, clock_now());
    }

    /// Records the time elapsed since the layout stage started.
    pub fn layout_finished(&mut self)
        requires
            old(self).wf(),
        ensures
            final(self).recorded(*old(self), TimedStage::Layout),
    {
        let d = duration_nanos(clock_elapsed(&self.layout_start));
        self.layout_durations.push(d);
        assert(pushed(old(self).durations(TimedStage::Layout), self.durations(TimedStage::Layout), d));
    }

    /// Marks the start of the event stage.
    /// The new start, set through `set_start`, is a reading of the clock, of
    /// which nothing is promised.
    pub fn event_started(&mut self)
        requires
            old(self).wf(),
        ensures
            final(self).restarted(*old(self), Stage::Event),
    {
        self.set_start(Stage::Event, clock_now());
    }

    /// Records the time elapsed since the event stage started.
    pub fn event_finished(&mut self)
        requires
            old(self).wf(),
        ensures
            final(self).recorded(*old(self), TimedStage::Event),
    {
        let d = duration_nanos(clock_elapsed(&self.event_start));
        self.event_durations.push(d);
        assert(pushed(old(self).durations(TimedStage::Event), self.durations(TimedStage::Event), d));
    }

    /// Marks the start of the draw stage.
    /// The new start, set through `set_start`, is a reading of the clock, of
    /// which nothing is promised.
    pub fn draw_started(&mut self)
        requires
            old(self).wf(),
        ensures
            final(self).restarted(*old(self), Stage::Draw),
    {
        self.set_start(Stage::Draw, clock_now());
    }

    /// Records the time elapsed since the draw stage started.
    pub fn draw_finished(&mut self)
        requires
            old(self).wf(),
        ensures
            final(self).recorded(*old(self), TimedStage::Draw),
    {
        let d = duration_nanos(clock_elapsed(&self.draw_start));
        self.draw_durations.push(d);
        assert(pushed(old(self).durations(TimedStage::Draw), self.durations(TimedStage::Draw), d));
    }

    /// Marks the start of the encode stage.
    /// The new start, set through `set_start`, is a reading of the clock, of
    /// which nothing is promised.
    pub fn encode_started(&mut self)
        requires
            old(self).wf(),
        ensures
            final(self).restarted(*old(self), Stage::Encode),
    {
        self.set_start(Stage::Encode, clock_now());
    }

    /// Records the time elapsed since the encode stage started.
    pub fn encode_finished(&mut self)
        requires
            old(self).wf(),
        ensures
            final(self).recorded(*old(self), TimedStage::Encode),
    {
        let d = duration_nanos(clock_elapsed(&self.encode_start));
        self.encode_durations.push(d);
        assert(pushed(old(self).durations(TimedStage::Encode), self.durations(TimedStage::Encode), d));
    }

    /// Marks the start of the render stage.
    /// The new start, set through `set_start`, is a reading of the clock, of
    /// which nothing is promised.
    pub fn render_started(&mut self)
        requires
            old(self).wf(),
        ensures
            final(self).restarted(*old(self), Stage::Render),
    {
        self.set_start(Stage::Render, clock_now());
    }

    /// Records the time elapsed since the render stage started.
    pub fn render_finished(&mut self)
        requires
            old(self).wf(),
        ensures
            final(self).recorded(*old(self), TimedStage::Render),
    {
        let d = duration_nanos(clock_elapsed(&self.render_start));
        self.render_durations.push(d);
        assert(pushed(old(self).durations(TimedStage::Render), self.durations(TimedStage::Render), d));
    }

    /// The startup time, and the average and maximum of every other stage.
    pub fn log(&self) -> (r: PerfReport)
        requires
            self.wf(),
        ensures
            r.startup == self.startup_nanos(),
            r.update == stats_of(self.durations(TimedStage::Update)),
            r.view == stats_of(self.durations(TimedStage::View)),
            r.layout == stats_of(self.durations(TimedStage::Layout)),
            r.event == stats_of(self.durations(TimedStage::Event)),
            r.draw == stats_of(self.durations(TimedStage::Draw)),
            r.encode == stats_of(self.durations(TimedStage::Encode)),
            r.render == stats_of(self.durations(TimedStage::Render)),
    {
        PerfReport {
            startup: self.startup_duration,
            update: stats(&self.update_durations),
            view: stats(&self.view_durations),
            layout: stats(&self.layout_durations),
            event: stats(&self.event_durations),
            draw: stats(&self.draw_durations),
            encode: stats(&self.encode_durations),
            render: stats(&self.render_durations),
        }
    }
}

/// The average and maximum of one buffer.
fn stats(b: &TimeBuffer) -> (st: StageStats)
    requires
        b.wf(),
    ensures
        st == stats_of(*b),
{
    StageStats { average: b.average(), max: b.max() }
}

} // verus!
