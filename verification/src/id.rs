//! Identifiers of widgets, animations and other objects.
//!
//! Each kind of identifier is issued by a counter that starts at one; an
//! identifier is never zero.
use vstd::prelude::*;

verus! {

/// The counter value after `raw`, wrapping around as `fetch_add` does.
pub open spec fn next_after(raw: u64) -> u64 {
    if raw == u64::MAX {
        0
    } else {
        (raw + 1) as u64
    }
}

/// The counter from which identifiers are issued.
pub struct IdGenerator {
    next: u64,
}

impl IdGenerator {
    /// The value the next identifier gets.
    pub closed spec fn next_raw(&self) -> u64 {
        self.next
    }

    /// A counter whose first identifier is one.
    pub fn new() -> (g: IdGenerator)
        ensures
            g.next_raw() == 1,
    {
        IdGenerator { next: 1 }
    }

    /// The value the next identifier gets; zero once the counter has wrapped
    /// around, when no identifier can be issued any more.
    pub fn next_value(&self) -> (n: u64)
        ensures
            n == self.next_raw(),
    {
        self.next
    }

    /// Takes the counter's value and moves it on by one, wrapping around.
    /// The counter must not have wrapped to zero.
    fn take(&mut self) -> (raw: u64)
        requires
            old(self).next_raw() != 0,
        ensures
            raw == old(self).next_raw(),
            final(self).next_raw() == next_after(old(self).next_raw()),
    {
        let raw = self.next;
        self.next = if self.next == u64::MAX {
            0
        } else {
            self.next + 1
        };
        raw
    }
}

/// A sequence of counter values is a run of issues when each value follows
/// the one before it and none of them is zero.
pub open spec fn issue_run(ids: Seq<u64>) -> bool {
    &&& forall|i: int| 0 <= i < ids.len() ==> #[trigger] ids[i] != 0
    &&& forall|i: int| 1 <= i < ids.len() ==> #[trigger] ids[i] == next_after(ids[i - 1])
}

/// Identifiers issued one after the other by one counter are all different:
/// each is the first plus its position in the run, so a later one is greater.
pub proof fn lemma_issued_ids_distinct(ids: Seq<u64>)
    requires
        issue_run(ids),
    ensures
        forall|i: int| 0 <= i < ids.len() ==> #[trigger] ids[i] == ids[0] + i,
        forall|i: int, j: int| 0 <= i < j < ids.len() ==> ids[i] < ids[j],
        forall|i: int, j: int| 0 <= i < j < ids.len() ==> ids[i] != ids[j],
{
    assert forall|i: int| 0 <= i < ids.len() implies #[trigger] ids[i] == ids[0] + i by {
        lemma_run_offset(ids, i);
    }
    assert forall|i: int, j: int| 0 <= i < j < ids.len() implies ids[i] < ids[j] by {
        assert(ids[i] == ids[0] + i);
        assert(ids[j] == ids[0] + j);
    }
}

/// A counter made by `IdGenerator::new` issues one, two, three and so on:
/// the issue made after `k` earlier ones is `k + 1`.
pub proof fn lemma_issues_count_from_one(ids: Seq<u64>)
    requires
        issue_run(ids),
        ids.len() > 0 ==> ids[0] == 1,
    ensures
        forall|k: int| 0 <= k < ids.len() ==> #[trigger] ids[k] == k + 1,
{
    lemma_issued_ids_distinct(ids);
}

proof fn lemma_run_offset(ids: Seq<u64>, i: int)
    requires
        issue_run(ids),
        0 <= i < ids.len(),
    ensures
        ids[i] == ids[0] + i,
    decreases i,
{
    if i > 0 {
        lemma_run_offset(ids, i - 1);
        assert(ids[i] == next_after(ids[i - 1]));
        assert(ids[i] != 0);
    }
}

/// Identifies a widget.
#[derive(Clone, Copy, Debug, PartialEq, Eq, Structural, PartialOrd, Hash)]
pub struct WidgetId(u64);

/// Identifies an animation.
#[derive(Clone, Copy, Debug, PartialEq, Eq, Structural, PartialOrd, Hash)]
pub struct AnimationId(u64);

/// Identifies an object of the core of the toolkit.
#[derive(Clone, Copy, Debug, PartialEq, Eq, Structural, PartialOrd, Hash)]
pub struct Id(u64);

/// The path of identifiers from the root widget to one widget.
pub type WidgetIdPath = Vec<WidgetId>;

/// The path of identifiers from the root to one object.
pub type IdPath = Vec<Id>;

impl WidgetId {
    #[verifier::type_invariant]
    spec fn nonzero(self) -> bool {
        self.0 != 0
    }

    /// The identifier as a number.
    pub closed spec fn raw(self) -> u64 {
        self.0
    }

    /// Two identifiers are equal exactly when their numbers are.
    pub proof fn lemma_raw_identifies(a: WidgetId, b: WidgetId)
        ensures
            (a == b) <==> (a.raw() == b.raw()),
    {
    }

    /// Issues the next identifier of `generator`, which must not have wrapped
    /// around to zero.
    pub fn unique(generator: &mut IdGenerator) -> (id: WidgetId)
        requires
            old(generator).next_raw() != 0,
        ensures
            id.raw() == old(generator).next_raw(),
            final(generator).next_raw() == next_after(old(generator).next_raw()),
    {
        WidgetId(generator.take())
    }

    /// The identifier as a number, never zero.
    pub fn to_raw(self) -> (r: u64)
        ensures
            r == self.raw(),
            r != 0,
    {
        proof {
            use_type_invariant(&self);
        }
        self.0
    }
}

impl AnimationId {
    #[verifier::type_invariant]
    spec fn nonzero(self) -> bool {
        self.0 != 0
    }

    /// The identifier as a number.
    pub closed spec fn raw(self) -> u64 {
        self.0
    }

    /// Two identifiers are equal exactly when their numbers are.
    pub proof fn lemma_raw_identifies(a: AnimationId, b: AnimationId)
        ensures
            (a == b) <==> (a.raw() == b.raw()),
    {
    }

    /// Issues the next identifier of `generator`, which must not have wrapped
    /// around to zero.
    pub fn unique(generator: &mut IdGenerator) -> (id: AnimationId)
        requires
            old(generator).next_raw() != 0,
        ensures
            id.raw() == old(generator).next_raw(),
            final(generator).next_raw() == next_after(old(generator).next_raw()),
    {
        AnimationId(generator.take())
    }

    /// The identifier as a number, never zero.
    pub fn to_raw(self) -> (r: u64)
        ensures
            r == self.raw(),
            r != 0,
    {
        proof {
            use_type_invariant(&self);
        }
        self.0
    }
}

impl Id {
    #[verifier::type_invariant]
    spec fn nonzero(self) -> bool {
        self.0 != 0
    }

    /// The identifier as a number.
    pub closed spec fn raw(self) -> u64 {
        self.0
    }

    /// Two identifiers are equal exactly when their numbers are.
    pub proof fn lemma_raw_identifies(a: Id, b: Id)
        ensures
            (a == b) <==> (a.raw() == b.raw()),
    {
    }

    /// Issues the next identifier of `generator`, which must not have wrapped
    /// around to zero.
    pub fn unique(generator: &mut IdGenerator) -> (id: Id)
        requires
            old(generator).next_raw() != 0,
        ensures
            id.raw() == old(generator).next_raw(),
            final(generator).next_raw() == next_after(old(generator).next_raw()),
    {
        Id(generator.take())
    }

    /// The identifier as a number, never zero.
    pub fn to_raw(self) -> (r: u64)
        ensures
            r == self.raw(),
            r != 0,
    {
        proof {
            use_type_invariant(&self);
        }
        self.0
    }
}

} // verus!
