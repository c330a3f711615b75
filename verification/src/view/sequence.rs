//! View sequences: ordered collections of views that build, rebuild and tear
//! down a run of elements of a common type, through a splice over the
//! elements of their container.
use vstd::prelude::*;
use vstd::view::View as _;
use crate::view::View;
use crate::view::ViewMarker;

verus! {

/// `after`, with cursor `c1`, is `before`, with cursor `c0`, where the
/// `consumed` elements from `c0` on were replaced by those from `c0` to `c1`:
/// the elements before `c0` and those after the replaced ones are unchanged.
pub open spec fn kept_around<E>(before: Seq<E>, c0: nat, consumed: nat, after: Seq<E>, c1: nat) -> bool {
    &&& c0 <= c1 <= after.len()
    &&& c0 + consumed <= before.len()
    &&& after.take(c0 as int) == before.take(c0 as int)
    &&& after.skip(c1 as int) == before.skip((c0 + consumed) as int)
}

/// The `len` elements of `items` from position `at`.
pub open spec fn region<E>(items: Seq<E>, at: nat, len: nat) -> Seq<E> {
    items.subrange(at as int, (at + len) as int)
}

/// Replacing nothing by nothing keeps everything.
proof fn lemma_kept_refl<E>(a: Seq<E>, c: nat)
    requires
        c <= a.len(),
    ensures
        kept_around(a, c, 0, a, c),
{
}

/// Two replacements one after the other are one replacement.
proof fn lemma_kept_compose<E>(a: Seq<E>, c0: nat, k1: nat, b: Seq<E>, c1: nat, k2: nat, c: Seq<E>, c2: nat)
    requires
        kept_around(a, c0, k1, b, c1),
        kept_around(b, c1, k2, c, c2),
    ensures
        kept_around(a, c0, k1 + k2, c, c2),
{
    assert(c.take(c0 as int) =~= c.take(c1 as int).take(c0 as int));
    assert(b.take(c0 as int) =~= b.take(c1 as int).take(c0 as int));
    assert(b.skip(c1 as int).len() == a.skip((c0 + k1) as int).len());
    assert(b.skip((c1 + k2) as int) =~= b.skip(c1 as int).skip(k2 as int));
    assert(a.skip((c0 + k1 + k2) as int) =~= a.skip((c0 + k1) as int).skip(k2 as int));
}

/// A temporary "splice" to add, update and delete in an ordered sequence of
/// elements; mainly intended for view sequences.
///
/// The splice has a cursor: elements before it are done with, those from it
/// on are still to be visited. Every operation leaves the elements before
/// the cursor as they are, and those after the ones it visits.
pub trait ElementSplice<Element> {
    /// How many elements lie before the cursor.
    spec fn cursor(&self) -> nat;

    /// The elements, in order.
    spec fn items(&self) -> Seq<Element>;

    /// Runs `f` with a scratch vector; each element pushed to it is inserted
    /// at the cursor, which moves past it. What `f` returns is returned.
    fn with_scratch<R, F: FnOnce(&mut Vec<Element>) -> R>(&mut self, f: F) -> (r: R)
        requires
            old(self).cursor() <= old(self).items().len(),
            forall|v: &mut Vec<Element>| #[trigger] f.requires((v,)),
        ensures
            kept_around(old(self).items(), old(self).cursor(), 0, final(self).items(), final(self).cursor()),
            exists|v: &mut Vec<Element>|
                {
                    &&& #[trigger] f.ensures((v,), r)
                    &&& v@ == Seq::<Element>::empty()
                    &&& final(self).items() == old(self).items().take(old(self).cursor() as int)
                        + final(v)@ + old(self).items().skip(old(self).cursor() as int)
                    &&& final(self).cursor() == old(self).cursor() + final(v)@.len()
                },
    ;

    /// Inserts a new element at the cursor, which moves past it.
    fn insert(&mut self, element: Element)
        requires
            old(self).cursor() <= old(self).items().len(),
        ensures
            final(self).cursor() == old(self).cursor() + 1,
            kept_around(old(self).items(), old(self).cursor(), 0, final(self).items(), final(self).cursor()),
            final(self).items()[old(self).cursor() as int] == element,
    ;

    /// Runs `f` on the element at the cursor, which moves past it. The
    /// element is what `f` leaves of it, and what `f` returns is returned.
    fn mutate<R, F: FnOnce(&mut Element) -> R>(&mut self, f: F) -> (r: R)
        requires
            old(self).cursor() < old(self).items().len(),
            forall|e: &mut Element| #[trigger] f.requires((e,)),
        ensures
            final(self).cursor() == old(self).cursor() + 1,
            kept_around(old(self).items(), old(self).cursor(), 1, final(self).items(), final(self).cursor()),
            exists|e: &mut Element|
                {
                    &&& #[trigger] f.ensures((e,), r)
                    &&& *e == old(self).items()[old(self).cursor() as int]
                    &&& *final(e) == final(self).items()[old(self).cursor() as int]
                },
    ;

    /// Moves the cursor past the next `n` elements, leaving them unchanged.
    fn skip(&mut self, n: usize)
        requires
            old(self).cursor() + n <= old(self).items().len(),
        ensures
            final(self).cursor() == old(self).cursor() + n,
            final(self).items() == old(self).items(),
    ;

    /// Removes the element at the cursor, after running `f` on it; what `f`
    /// returns is returned.
    fn remove<R, F: FnOnce(&mut Element) -> R>(&mut self, f: F) -> (r: R)
        requires
            old(self).cursor() < old(self).items().len(),
            forall|e: &mut Element| #[trigger] f.requires((e,)),
        ensures
            final(self).cursor() == old(self).cursor(),
            kept_around(old(self).items(), old(self).cursor(), 1, final(self).items(), final(self).cursor()),
            exists|e: &mut Element|
                {
                    &&& #[trigger] f.ensures((e,), r)
                    &&& *e == old(self).items()[old(self).cursor() as int]
                },
    ;
}

/// A splice over a vector of children, as a flex container holds them.
pub struct FlexSplice<Element> {
    idx: usize,
    children: Vec<Element>,
}

impl<Element> FlexSplice<Element> {
    /// A splice over `children`, with the cursor before the first.
    pub fn new(children: Vec<Element>) -> (s: FlexSplice<Element>)
        ensures
            s.cursor() == 0,
            s.items() == children@,
    {
        FlexSplice { idx: 0, children }
    }

    /// The children, once the splice is done with.
    pub fn into_children(self) -> (children: Vec<Element>)
        ensures
            children@ == self.items(),
    {
        self.children
    }
}

impl<Element> ElementSplice<Element> for FlexSplice<Element> {
    closed spec fn cursor(&self) -> nat {
        self.idx as nat
    }

    closed spec fn items(&self) -> Seq<Element> {
        self.children@
    }

    fn with_scratch<R, F: FnOnce(&mut Vec<Element>) -> R>(&mut self, f: F) -> (r: R)
        ensures
            exists|pushed: Seq<Element>|
                final(self).items() == old(self).items().take(old(self).cursor() as int) + pushed
                    + old(self).items().skip(old(self).cursor() as int) && final(self).cursor()
                    == old(self).cursor() + pushed.len(),
    {
        let mut scratch: Vec<Element> = Vec::new();
        let ret = f(&mut scratch);
        let ghost c = self.idx as int;
        let ghost before = self.children@;
        let ghost pushed = scratch@;
        let ghost mut k: int = 0;
        assert(self.children@ =~= before.take(c) + pushed.take(0) + before.skip(c));
        assert(scratch@ =~= pushed.skip(0));
        while scratch.len() > 0
            invariant
                0 <= c <= before.len(),
                0 <= k <= pushed.len(),
                self.idx == c + k,
                self.children@ == before.take(c) + pushed.take(k) + before.skip(c),
                scratch@ == pushed.skip(k),
            decreases scratch@.len(),
        {
            let element = scratch.remove(0);
            self.children.insert(self.idx, element);
            let len = self.children.len();
            assert(self.idx < len);
            self.idx = self.idx + 1;
            proof {
                assert(element == pushed[k]);
                k = k + 1;
                assert(self.children@ =~= before.take(c) + pushed.take(k) + before.skip(c));
                assert(scratch@ =~= pushed.skip(k));
            }
        }
        assert(k == pushed.len());
        assert(pushed.take(k) =~= pushed);
        assert(before == old(self).children@);
        assert(c == old(self).idx);
        let ghost fin = self.children@;
        assert(fin.take(c) =~= before.take(c));
        assert(fin.skip(c + k) =~= before.skip(c));
        assert(self.items() == old(self).items().take(old(self).cursor() as int) + pushed
            + old(self).items().skip(old(self).cursor() as int));
        assert(self.cursor() == old(self).cursor() + pushed.len());
        ret
    }

    fn insert(&mut self, element: Element)
        ensures
            final(self).items() == old(self).items().insert(old(self).cursor() as int, element),
    {
        let ghost before = self.children@;
        let ghost c = self.idx as int;
        self.children.insert(self.idx, element);
        let len = self.children.len();
        assert(self.idx < len);
        self.idx = self.idx + 1;
        assert(self.children@.take(c) =~= before.take(c));
        assert(self.children@.skip(c + 1) =~= before.skip(c));
    }

    fn mutate<R, F: FnOnce(&mut Element) -> R>(&mut self, f: F) -> (r: R)
        ensures
            final(self).items().len() == old(self).items().len(),
            forall|j: int|
                0 <= j < old(self).items().len() && j != old(self).cursor()
                    ==> #[trigger] final(self).items()[j] == old(self).items()[j],
    {
        let ghost before = self.children@;
        let i = self.idx;
        let len = self.children.len();
        assert(i < len);
        self.idx = i + 1;
        let r = f(&mut self.children[i]);
        assert(self.children@.take(i as int) =~= before.take(i as int));
        assert(self.children@.skip(i + 1) =~= before.skip(i + 1));
        r
    }

    fn skip(&mut self, n: usize)
        ensures
            final(self).items() == old(self).items(),
    {
        let len = self.children.len();
        assert(self.idx + n <= len);
        self.idx = self.idx + n;
    }

    fn remove<R, F: FnOnce(&mut Element) -> R>(&mut self, f: F) -> (r: R)
        ensures
            final(self).items() == old(self).items().remove(old(self).cursor() as int),
    {
        let ghost before = self.children@;
        let i = self.idx;
        let ret = f(&mut self.children[i]);
        let ghost mid = self.children@;
        self.children.remove(i);
        assert(mid.take(i as int) =~= before.take(i as int));
        assert(mid.skip(i + 1) =~= before.skip(i + 1));
        assert(self.children@.take(i as int) =~= mid.take(i as int));
        assert(self.children@.skip(i as int) =~= mid.skip(i + 1));
        ret
    }
}

/// An element type that can hold elements of type `Child`.
pub trait SuperElement<Child>: Sized {
    /// Whether this element holds `child`.
    spec fn holds(&self, child: Child) -> bool;

    /// Converts from the child to this element type.
    fn upcast(child: Child) -> (element: Self)
        ensures
            element.holds(child),
    ;

    /// Runs `f` on this element seen as its child type: the element held
    /// the child that `f` was given, and then holds what `f` left of it.
    fn with_downcast_val<R, F: FnOnce(&mut Child) -> R>(&mut self, f: F) -> (r: (&mut Self, R))
        requires
            forall|c: &mut Child| #[trigger] f.requires((c,)),
        ensures
            *final(self) == *final(r.0),
            exists|c: &mut Child|
                {
                    &&& #[trigger] f.ensures((c,), r.1)
                    &&& old(self).holds(*c)
                    &&& (*r.0).holds(*final(c))
                },
    ;
}

/// A sequence of views, each building some elements of a common type.
pub trait ViewSequence<State, Element> {
    /// How many elements the sequence builds.
    spec fn element_count(&self) -> nat;

    /// Whether `out` is what the sequence builds: what each of its views
    /// builds, in order.
    spec fn seq_builds(&self, out: Seq<Element>) -> bool;

    /// Whether `after` is what rebuilding `before`, the elements built from
    /// `prev`, leaves: what each view makes of the elements of its
    /// counterpart in `prev`, with new views built and dropped ones torn down.
    spec fn seq_rebuilds(&self, prev: &Self, before: Seq<Element>, after: Seq<Element>) -> bool;

    /// Whether the views of the sequence tore down `before`, its elements,
    /// before they were removed.
    spec fn seq_tears_down(&self, before: Seq<Element>) -> bool;

    /// Builds the elements of the sequence, appending them to `elements`.
    fn seq_build(&self, elements: &mut Vec<Element>)
        ensures
            final(elements)@.len() == old(elements)@.len() + self.element_count(),
            final(elements)@.take(old(elements)@.len() as int) == old(elements)@,
            self.seq_builds(final(elements)@.skip(old(elements)@.len() as int)),
    ;

    /// Brings the elements built from `prev`, next in `elements`, up to date
    /// with this sequence: they are replaced by this sequence's elements, the
    /// cursor moves past them, and every other element stays as it is.
    fn seq_rebuild<Splice: ElementSplice<Element>>(&self, prev: &Self, elements: &mut Splice)
        requires
            old(elements).cursor() + prev.element_count() <= old(elements).items().len(),
        ensures
            final(elements).cursor() == old(elements).cursor() + self.element_count(),
            kept_around(
                old(elements).items(),
                old(elements).cursor(),
                prev.element_count(),
                final(elements).items(),
                final(elements).cursor(),
            ),
            self.seq_rebuilds(
                prev,
                region(old(elements).items(), old(elements).cursor(), prev.element_count()),
                region(final(elements).items(), old(elements).cursor(), self.element_count()),
            ),
    ;

    /// Removes the elements built from this sequence, next in `elements`;
    /// every other element stays as it is.
    fn seq_teardown<Splice: ElementSplice<Element>>(&self, elements: &mut Splice)
        requires
            old(elements).cursor() + self.element_count() <= old(elements).items().len(),
        ensures
            final(elements).cursor() == old(elements).cursor(),
            kept_around(
                old(elements).items(),
                old(elements).cursor(),
                self.element_count(),
                final(elements).items(),
                final(elements).cursor(),
            ),
            self.seq_tears_down(region(old(elements).items(), old(elements).cursor(), self.element_count())),
    ;
}

/// The number of elements a sequence of view sequences builds.
pub open spec fn total_count<State, Element, S: ViewSequence<State, Element>>(s: Seq<S>) -> nat
    decreases s.len(),
{
    if s.len() == 0 {
        0
    } else {
        total_count::<State, Element, S>(s.drop_last()) + s.last().element_count()
    }
}

/// Counting the elements of the first `i` sequences never gives more than
/// counting those of the first `j >= i`.
proof fn lemma_total_take_mono<State, Element, S: ViewSequence<State, Element>>(s: Seq<S>, i: int, j: int)
    requires
        0 <= i <= j <= s.len(),
    ensures
        total_count::<State, Element, S>(s.take(i)) <= total_count::<State, Element, S>(s.take(j)),
    decreases j - i,
{
    if i < j {
        lemma_total_take_mono::<State, Element, S>(s, i, j - 1);
        lemma_total_take_step::<State, Element, S>(s, j - 1);
    }
}

/// Counting one more sequence adds its elements.
proof fn lemma_total_take_step<State, Element, S: ViewSequence<State, Element>>(s: Seq<S>, i: int)
    requires
        0 <= i < s.len(),
    ensures
        total_count::<State, Element, S>(s.take(i + 1)) == total_count::<State, Element, S>(s.take(i))
            + s[i].element_count(),
{
    assert(s.take(i + 1).drop_last() =~= s.take(i));
}

/// The elements of `out` that the `i`-th of `seqs` accounts for, counting
/// the elements of the sequences before it.
pub open spec fn part<State, Element, S: ViewSequence<State, Element>>(
    seqs: Seq<S>,
    out: Seq<Element>,
    i: int,
) -> Seq<Element> {
    out.subrange(
        total_count::<State, Element, S>(seqs.take(i)) as int,
        total_count::<State, Element, S>(seqs.take(i + 1)) as int,
    )
}

/// `out` is what `seqs` build one after the other: each builds its part.
pub open spec fn all_build<State, Element, S: ViewSequence<State, Element>>(
    seqs: Seq<S>,
    out: Seq<Element>,
) -> bool {
    &&& out.len() == total_count::<State, Element, S>(seqs)
    &&& forall|i: int|
        #![trigger seqs[i]]
        0 <= i < seqs.len() ==> seqs[i].seq_builds(part::<State, Element, S>(seqs, out, i))
}

/// `after` is what rebuilding `before`, built by `prevs`, into `seqs` leaves:
/// each sequence that has a counterpart at its position is rebuilt from it,
/// the further new ones are built, and the further old ones torn down.
pub open spec fn all_rebuild<State, Element, S: ViewSequence<State, Element>>(
    seqs: Seq<S>,
    prevs: Seq<S>,
    before: Seq<Element>,
    after: Seq<Element>,
) -> bool {
    &&& before.len() == total_count::<State, Element, S>(prevs)
    &&& after.len() == total_count::<State, Element, S>(seqs)
    &&& forall|i: int|
        #![trigger seqs[i], prevs[i]]
        0 <= i < seqs.len() && i < prevs.len() ==> seqs[i].seq_rebuilds(
            &prevs[i],
            part::<State, Element, S>(prevs, before, i),
            part::<State, Element, S>(seqs, after, i),
        )
    &&& forall|i: int|
        #![trigger seqs[i]]
        prevs.len() <= i < seqs.len() ==> seqs[i].seq_builds(part::<State, Element, S>(seqs, after, i))
    &&& forall|i: int|
        #![trigger prevs[i]]
        seqs.len() <= i < prevs.len() ==> prevs[i].seq_tears_down(
            part::<State, Element, S>(prevs, before, i),
        )
}

/// Each of `seqs` tore down its part of `before`.
pub open spec fn all_tear_down<State, Element, S: ViewSequence<State, Element>>(
    seqs: Seq<S>,
    before: Seq<Element>,
) -> bool {
    &&& before.len() == total_count::<State, Element, S>(seqs)
    &&& forall|i: int|
        #![trigger seqs[i]]
        0 <= i < seqs.len() ==> seqs[i].seq_tears_down(part::<State, Element, S>(seqs, before, i))
}

/// Two sequences that agree up to `m` agree on every window below `m`.
proof fn lemma_sub_stable<E>(x: Seq<E>, y: Seq<E>, m: int, lo: int, hi: int)
    requires
        0 <= lo <= hi <= m <= x.len(),
        m <= y.len(),
        x.take(m) == y.take(m),
    ensures
        x.subrange(lo, hi) == y.subrange(lo, hi),
{
    assert forall|j: int| 0 <= j < hi - lo implies #[trigger] x.subrange(lo, hi)[j] == y.subrange(lo, hi)[j] by {
        assert(x.subrange(lo, hi)[j] == x[lo + j]);
        assert(y.subrange(lo, hi)[j] == y[lo + j]);
        assert(x.take(m)[lo + j] == x[lo + j]);
        assert(y.take(m)[lo + j] == y[lo + j]);
        assert(x.take(m)[lo + j] == y.take(m)[lo + j]);
    }
    assert(x.subrange(lo, hi) =~= y.subrange(lo, hi));
}

/// Two sequences whose tails agree agree on the windows of those tails.
proof fn lemma_sub_shift<E>(x: Seq<E>, y: Seq<E>, s: int, t: int, len: int)
    requires
        0 <= s,
        0 <= t,
        0 <= len,
        s + len <= x.len(),
        t <= y.len(),
        x.skip(s) == y.skip(t),
    ensures
        t + len <= y.len(),
        x.subrange(s, s + len) == y.subrange(t, t + len),
{
    assert(x.skip(s).len() == x.len() - s);
    assert(y.skip(t).len() == y.len() - t);
    assert(x.skip(s).len() == y.skip(t).len());
    assert(t + len <= y.len());
    assert forall|j: int| 0 <= j < len implies #[trigger] x.subrange(s, s + len)[j] == y.subrange(t, t + len)[j] by {
        assert(x.subrange(s, s + len)[j] == x[s + j]);
        assert(y.subrange(t, t + len)[j] == y[t + j]);
        assert(x.skip(s)[j] == x[s + j]);
        assert(y.skip(t)[j] == y[t + j]);
        assert(x.skip(s)[j] == y.skip(t)[j]);
    }
    assert(x.subrange(s, s + len) =~= y.subrange(t, t + len));
}

/// The part of a window of `items` that holds what `seqs` account for is a
/// window of `items` itself.
proof fn lemma_part_window<State, Element, S: ViewSequence<State, Element>>(
    seqs: Seq<S>,
    items: Seq<Element>,
    s: int,
    k: int,
)
    requires
        0 <= s,
        s + total_count::<State, Element, S>(seqs) <= items.len(),
        0 <= k < seqs.len(),
    ensures
        total_count::<State, Element, S>(seqs.take(k)) <= total_count::<State, Element, S>(
            seqs.take(k + 1),
        ) <= total_count::<State, Element, S>(seqs),
        part::<State, Element, S>(
            seqs,
            items.subrange(s, s + total_count::<State, Element, S>(seqs)),
            k,
        ) == items.subrange(
            s + total_count::<State, Element, S>(seqs.take(k)),
            s + total_count::<State, Element, S>(seqs.take(k + 1)),
        ),
{
    lemma_total_take_mono::<State, Element, S>(seqs, k, k + 1);
    lemma_total_take_mono::<State, Element, S>(seqs, k + 1, seqs.len() as int);
    assert(seqs.take(seqs.len() as int) =~= seqs);
    assert(part::<State, Element, S>(
        seqs,
        items.subrange(s, s + total_count::<State, Element, S>(seqs)),
        k,
    ) =~= items.subrange(
        s + total_count::<State, Element, S>(seqs.take(k)),
        s + total_count::<State, Element, S>(seqs.take(k + 1)),
    ));
}

/// The sequences `seqs[lo..hi]` each built their part of `items`, whose
/// parts are counted from position `s`.
pub open spec fn builds_range<State, Element, S: ViewSequence<State, Element>>(
    seqs: Seq<S>,
    items: Seq<Element>,
    s: int,
    lo: int,
    hi: int,
) -> bool {
    forall|k: int|
        #![trigger seqs[k]]
        lo <= k < hi ==> seqs[k].seq_builds(
            items.subrange(s + total_count::<State, Element, S>(seqs.take(k)), s + total_count::<State, Element, S>(seqs.take(k + 1))),
        )
}

/// The sequences `seqs[lo..hi]` each tore down their part of `items`, whose
/// parts are counted from position `s`.
pub open spec fn torn_range<State, Element, S: ViewSequence<State, Element>>(
    seqs: Seq<S>,
    items: Seq<Element>,
    s: int,
    lo: int,
    hi: int,
) -> bool {
    forall|k: int|
        #![trigger seqs[k]]
        lo <= k < hi ==> seqs[k].seq_tears_down(
            items.subrange(s + total_count::<State, Element, S>(seqs.take(k)), s + total_count::<State, Element, S>(seqs.take(k + 1))),
        )
}

/// The first `i` of `seqs` each rebuilt, from the elements that the
/// sequence at the same position of `prevs` built in `a` from `c0`, their
/// part of `items` from `c0`.
pub open spec fn rebuilt_upto<State, Element, S: ViewSequence<State, Element>>(
    seqs: Seq<S>,
    prevs: Seq<S>,
    a: Seq<Element>,
    items: Seq<Element>,
    c0: int,
    i: int,
) -> bool {
    forall|k: int|
        #![trigger seqs[k], prevs[k]]
        0 <= k < i ==> seqs[k].seq_rebuilds(
            &prevs[k],
            a.subrange(c0 + total_count::<State, Element, S>(prevs.take(k)), c0 + total_count::<State, Element, S>(prevs.take(k + 1))),
            items.subrange(c0 + total_count::<State, Element, S>(seqs.take(k)), c0 + total_count::<State, Element, S>(seqs.take(k + 1))),
        )
}

/// Building one more sequence onto elements keeps the parts built before
/// and adds its own.
proof fn lemma_builds_step<State, Element, S: ViewSequence<State, Element>>(
    seqs: Seq<S>,
    before: Seq<Element>,
    after: Seq<Element>,
    s: int,
    lo: int,
    i: int,
)
    requires
        0 <= lo <= i < seqs.len(),
        s + total_count::<State, Element, S>(seqs.take(lo)) >= 0,
        before.len() == s + total_count::<State, Element, S>(seqs.take(i)),
        after.len() == before.len() + seqs[i].element_count(),
        after.take(before.len() as int) == before,
        builds_range::<State, Element, S>(seqs, before, s, lo, i),
        seqs[i].seq_builds(after.skip(before.len() as int)),
    ensures
        builds_range::<State, Element, S>(seqs, after, s, lo, i + 1),
{
    lemma_total_take_step::<State, Element, S>(seqs, i);
    assert forall|k: int|
        #![trigger seqs[k]]
        lo <= k < i + 1 implies seqs[k].seq_builds(
        after.subrange(s + total_count::<State, Element, S>(seqs.take(k)), s + total_count::<State, Element, S>(seqs.take(k + 1))),
    ) by {
        if k < i {
            lemma_total_take_mono::<State, Element, S>(seqs, lo, k);
            lemma_total_take_mono::<State, Element, S>(seqs, k, k + 1);
            lemma_total_take_mono::<State, Element, S>(seqs, k + 1, i);
            assert(before.take(before.len() as int) =~= before);
            lemma_sub_stable(
                after,
                before,
                before.len() as int,
                s + total_count::<State, Element, S>(seqs.take(k)),
                s + total_count::<State, Element, S>(seqs.take(k + 1)),
            );
        } else {
            assert(after.skip(before.len() as int) =~= after.subrange(
                s + total_count::<State, Element, S>(seqs.take(k)),
                s + total_count::<State, Element, S>(seqs.take(k + 1)),
            ));
        }
    }
}

/// Parts built in a scratch vector and then inserted at `at` are built in
/// the elements they were inserted into.
proof fn lemma_builds_moved<State, Element, S: ViewSequence<State, Element>>(
    seqs: Seq<S>,
    scratch: Seq<Element>,
    items: Seq<Element>,
    c0: int,
    lo: int,
    hi: int,
)
    requires
        0 <= lo <= hi <= seqs.len(),
        0 <= c0,
        scratch.len() == total_count::<State, Element, S>(seqs.take(hi)) - total_count::<State, Element, S>(seqs.take(lo)),
        c0 + total_count::<State, Element, S>(seqs.take(lo)) + scratch.len() <= items.len(),
        items.subrange(c0 + total_count::<State, Element, S>(seqs.take(lo)), c0 + total_count::<State, Element, S>(seqs.take(lo)) + scratch.len()) == scratch,
        builds_range::<State, Element, S>(seqs, scratch, -total_count::<State, Element, S>(seqs.take(lo)), lo, hi),
    ensures
        builds_range::<State, Element, S>(seqs, items, c0, lo, hi),
{
    let base = total_count::<State, Element, S>(seqs.take(lo));
    assert forall|k: int|
        #![trigger seqs[k]]
        lo <= k < hi implies seqs[k].seq_builds(
        items.subrange(c0 + total_count::<State, Element, S>(seqs.take(k)), c0 + total_count::<State, Element, S>(seqs.take(k + 1))),
    ) by {
        lemma_total_take_mono::<State, Element, S>(seqs, lo, k);
        lemma_total_take_mono::<State, Element, S>(seqs, k, k + 1);
        lemma_total_take_mono::<State, Element, S>(seqs, k + 1, hi);
        assert(items.subrange(c0 + total_count::<State, Element, S>(seqs.take(k)), c0 + total_count::<State, Element, S>(seqs.take(k + 1))) =~= scratch.subrange(
            -base + total_count::<State, Element, S>(seqs.take(k)),
            -base + total_count::<State, Element, S>(seqs.take(k + 1)),
        ));
    }
}

/// Rebuilding one more sequence keeps the parts rebuilt before and adds
/// its own.
proof fn lemma_rebuilt_step<State, Element, S: ViewSequence<State, Element>>(
    seqs: Seq<S>,
    prevs: Seq<S>,
    a: Seq<Element>,
    before: Seq<Element>,
    after: Seq<Element>,
    c0: int,
    i: int,
)
    requires
        0 <= i < seqs.len(),
        i < prevs.len(),
        0 <= c0,
        c0 + total_count::<State, Element, S>(prevs) <= a.len(),
        kept_around(a, c0 as nat, total_count::<State, Element, S>(prevs.take(i)), before, (c0 + total_count::<State, Element, S>(seqs.take(i))) as nat),
        kept_around(
            before,
            (c0 + total_count::<State, Element, S>(seqs.take(i))) as nat,
            prevs[i].element_count(),
            after,
            (c0 + total_count::<State, Element, S>(seqs.take(i)) + seqs[i].element_count()) as nat,
        ),
        rebuilt_upto::<State, Element, S>(seqs, prevs, a, before, c0, i),
        seqs[i].seq_rebuilds(
            &prevs[i],
            region(before, (c0 + total_count::<State, Element, S>(seqs.take(i))) as nat, prevs[i].element_count()),
            region(
                after,
                (c0 + total_count::<State, Element, S>(seqs.take(i))) as nat,
                seqs[i].element_count(),
            ),
        ),
    ensures
        rebuilt_upto::<State, Element, S>(seqs, prevs, a, after, c0, i + 1),
{
    let cb = c0 + total_count::<State, Element, S>(seqs.take(i));
    lemma_total_take_step::<State, Element, S>(prevs, i);
    lemma_total_take_step::<State, Element, S>(seqs, i);
    lemma_total_take_mono::<State, Element, S>(prevs, i + 1, prevs.len() as int);
    assert(prevs.take(prevs.len() as int) =~= prevs);
    lemma_sub_shift(a, before, c0 + total_count::<State, Element, S>(prevs.take(i)), cb, prevs[i].element_count() as int);
    assert(after.take(cb) == before.take(cb));
    lemma_rebuilt_stable::<State, Element, S>(seqs, prevs, a, before, after, c0, i, cb);
    assert forall|k: int|
        #![trigger seqs[k], prevs[k]]
        0 <= k < i + 1 implies seqs[k].seq_rebuilds(
        &prevs[k],
        a.subrange(c0 + total_count::<State, Element, S>(prevs.take(k)), c0 + total_count::<State, Element, S>(prevs.take(k + 1))),
        after.subrange(c0 + total_count::<State, Element, S>(seqs.take(k)), c0 + total_count::<State, Element, S>(seqs.take(k + 1))),
    ) by {
        if k == i {
        }
    }
}

/// Changing only what lies from `m` on keeps every part rebuilt below it.
proof fn lemma_rebuilt_stable<State, Element, S: ViewSequence<State, Element>>(
    seqs: Seq<S>,
    prevs: Seq<S>,
    a: Seq<Element>,
    before: Seq<Element>,
    after: Seq<Element>,
    c0: int,
    i: int,
    m: int,
)
    requires
        0 <= i <= seqs.len(),
        0 <= c0,
        c0 + total_count::<State, Element, S>(seqs.take(i)) <= m <= before.len(),
        m <= after.len(),
        after.take(m) == before.take(m),
        rebuilt_upto::<State, Element, S>(seqs, prevs, a, before, c0, i),
    ensures
        rebuilt_upto::<State, Element, S>(seqs, prevs, a, after, c0, i),
{
    assert forall|k: int|
        #![trigger seqs[k], prevs[k]]
        0 <= k < i implies seqs[k].seq_rebuilds(
        &prevs[k],
        a.subrange(c0 + total_count::<State, Element, S>(prevs.take(k)), c0 + total_count::<State, Element, S>(prevs.take(k + 1))),
        after.subrange(c0 + total_count::<State, Element, S>(seqs.take(k)), c0 + total_count::<State, Element, S>(seqs.take(k + 1))),
    ) by {
        lemma_total_take_mono::<State, Element, S>(seqs, k, k + 1);
        lemma_total_take_mono::<State, Element, S>(seqs, k + 1, i);
        lemma_sub_stable(after, before, m, c0 + total_count::<State, Element, S>(seqs.take(k)), c0 + total_count::<State, Element, S>(seqs.take(k + 1)));
    }
}

/// Tearing down one more sequence, whose elements are those it built in
/// `a`, adds its part.
proof fn lemma_torn_step<State, Element, S: ViewSequence<State, Element>>(
    seqs: Seq<S>,
    a: Seq<Element>,
    before: Seq<Element>,
    c0: int,
    cur: int,
    lo: int,
    i: int,
)
    requires
        0 <= lo <= i < seqs.len(),
        0 <= c0,
        0 <= cur <= before.len(),
        c0 + total_count::<State, Element, S>(seqs) <= a.len(),
        kept_around(a, c0 as nat, total_count::<State, Element, S>(seqs.take(i)), before, cur as nat),
        torn_range::<State, Element, S>(seqs, a, c0, lo, i),
        seqs[i].seq_tears_down(region(before, cur as nat, seqs[i].element_count())),
    ensures
        torn_range::<State, Element, S>(seqs, a, c0, lo, i + 1),
{
    lemma_total_take_step::<State, Element, S>(seqs, i);
    lemma_total_take_mono::<State, Element, S>(seqs, i + 1, seqs.len() as int);
    assert(seqs.take(seqs.len() as int) =~= seqs);
    lemma_sub_shift(a, before, c0 + total_count::<State, Element, S>(seqs.take(i)), cur, seqs[i].element_count() as int);
}

/// When the first `common` sequences were rebuilt, the further new ones
/// built and the further old ones torn down, the whole was rebuilt.
proof fn lemma_rebuild_done<State, Element, S: ViewSequence<State, Element>>(
    seqs: Seq<S>,
    prevs: Seq<S>,
    a: Seq<Element>,
    fin: Seq<Element>,
    c0: int,
)
    requires
        0 <= c0,
        c0 + total_count::<State, Element, S>(prevs) <= a.len(),
        c0 + total_count::<State, Element, S>(seqs) <= fin.len(),
        rebuilt_upto::<State, Element, S>(
            seqs,
            prevs,
            a,
            fin,
            c0,
            if seqs.len() < prevs.len() {
                seqs.len() as int
            } else {
                prevs.len() as int
            },
        ),
        prevs.len() < seqs.len() ==> builds_range::<State, Element, S>(
            seqs,
            fin,
            c0,
            prevs.len() as int,
            seqs.len() as int,
        ),
        seqs.len() < prevs.len() ==> torn_range::<State, Element, S>(
            prevs,
            a,
            c0,
            seqs.len() as int,
            prevs.len() as int,
        ),
    ensures
        all_rebuild::<State, Element, S>(
            seqs,
            prevs,
            region(a, c0 as nat, total_count::<State, Element, S>(prevs)),
            region(fin, c0 as nat, total_count::<State, Element, S>(seqs)),
        ),
{
    let before = region(a, c0 as nat, total_count::<State, Element, S>(prevs));
    let after = region(fin, c0 as nat, total_count::<State, Element, S>(seqs));
    assert forall|i: int|
        #![trigger seqs[i], prevs[i]]
        0 <= i < seqs.len() && i < prevs.len() implies seqs[i].seq_rebuilds(
        &prevs[i],
        part::<State, Element, S>(prevs, before, i),
        part::<State, Element, S>(seqs, after, i),
    ) by {
        lemma_part_window::<State, Element, S>(prevs, a, c0, i);
        lemma_part_window::<State, Element, S>(seqs, fin, c0, i);
    }
    assert forall|i: int|
        #![trigger seqs[i]]
        prevs.len() <= i < seqs.len() implies seqs[i].seq_builds(
        part::<State, Element, S>(seqs, after, i),
    ) by {
        lemma_part_window::<State, Element, S>(seqs, fin, c0, i);
    }
    assert forall|i: int|
        #![trigger prevs[i]]
        seqs.len() <= i < prevs.len() implies prevs[i].seq_tears_down(
        part::<State, Element, S>(prevs, before, i),
    ) by {
        lemma_part_window::<State, Element, S>(prevs, a, c0, i);
    }
}

/// When every sequence was built, the whole was built.
proof fn lemma_build_done<State, Element, S: ViewSequence<State, Element>>(
    seqs: Seq<S>,
    items: Seq<Element>,
    s: int,
)
    requires
        0 <= s,
        items.len() == s + total_count::<State, Element, S>(seqs),
        builds_range::<State, Element, S>(seqs, items, s, 0, seqs.len() as int),
    ensures
        all_build::<State, Element, S>(seqs, items.skip(s)),
{
    let total = total_count::<State, Element, S>(seqs);
    assert(items.skip(s) =~= items.subrange(s, s + total));
    assert forall|k: int|
        #![trigger seqs[k]]
        0 <= k < seqs.len() implies seqs[k].seq_builds(
        part::<State, Element, S>(seqs, items.skip(s), k),
    ) by {
        lemma_part_window::<State, Element, S>(seqs, items, s, k);
    }
}

/// When every sequence was torn down, the whole was torn down.
proof fn lemma_tear_down_done<State, Element, S: ViewSequence<State, Element>>(
    seqs: Seq<S>,
    a: Seq<Element>,
    c0: int,
)
    requires
        0 <= c0,
        c0 + total_count::<State, Element, S>(seqs) <= a.len(),
        torn_range::<State, Element, S>(seqs, a, c0, 0, seqs.len() as int),
    ensures
        all_tear_down::<State, Element, S>(
            seqs,
            region(a, c0 as nat, total_count::<State, Element, S>(seqs)),
        ),
{
    assert forall|k: int|
        #![trigger seqs[k]]
        0 <= k < seqs.len() implies seqs[k].seq_tears_down(
        part::<State, Element, S>(
            seqs,
            region(a, c0 as nat, total_count::<State, Element, S>(seqs)),
            k,
        ),
    ) by {
        lemma_part_window::<State, Element, S>(seqs, a, c0, k);
    }
}

/// A window of the final elements that an earlier state already held.
proof fn lemma_take_link<E>(fin: Seq<E>, x: Seq<E>, y: Seq<E>, m1: int, m2: int)
    requires
        0 <= m1 <= m2 <= fin.len(),
        m2 <= x.len(),
        m1 <= y.len(),
        fin.take(m2) == x.take(m2),
        x.take(m1) == y.take(m1),
    ensures
        fin.take(m1) == y.take(m1),
{
    assert(fin.take(m1) =~= fin.take(m2).take(m1));
    assert(x.take(m1) =~= x.take(m2).take(m1));
}

/// Appending keeps what was there before.
proof fn lemma_prefix_kept<E>(a: Seq<E>, b: Seq<E>, c: Seq<E>)
    requires
        b.len() >= a.len(),
        b.take(a.len() as int) == a,
        c.len() >= b.len(),
        c.take(b.len() as int) == b,
    ensures
        c.take(a.len() as int) == a,
{
    assert(c.take(a.len() as int) =~= b.take(a.len() as int));
}

/// Inserts `built` at the cursor of `elements`, in order.
fn insert_all<Element, Splice: ElementSplice<Element>>(elements: &mut Splice, built: Vec<Element>)
    requires
        old(elements).cursor() <= old(elements).items().len(),
    ensures
        final(elements).cursor() == old(elements).cursor() + built@.len(),
        kept_around(old(elements).items(), old(elements).cursor(), 0, final(elements).items(), final(elements).cursor()),
        region(final(elements).items(), old(elements).cursor(), built@.len()) == built@,
{
    let ghost start = elements.items();
    let ghost c0 = elements.cursor();
    let ghost orig = built@;
    let mut built = built;
    let total = built.len();
    let mut k: usize = 0;
    proof {
        lemma_kept_refl(start, c0);
        assert(built@ =~= orig.skip(0));
    }
    while k < total
        invariant
            total == orig.len(),
            total == k + built@.len(),
            built@ == orig.skip(k as int),
            elements.cursor() == c0 + k,
            kept_around(start, c0, 0, elements.items(), elements.cursor()),
            region(elements.items(), c0, k as nat) == orig.take(k as int),
        decreases total - k,
    {
        let ghost before = elements.items();
        let ghost cb = elements.cursor();
        let element = built.remove(0);
        assert(element == orig[k as int]);
        elements.insert(element);
        proof {
            lemma_kept_compose(start, c0, 0, before, cb, 0, elements.items(), elements.cursor());
            let after = elements.items();
            assert(after.take(cb as int) == before.take(cb as int));
            assert forall|j: int| 0 <= j < k + 1 implies #[trigger] region(after, c0, (k + 1) as nat)[j]
                == orig.take(k + 1)[j] by {
                if j < k {
                    assert(after.take(cb as int)[c0 + j] == before.take(cb as int)[c0 + j]);
                    assert(region(before, c0, k as nat)[j] == orig.take(k as int)[j]);
                }
            }
            assert(region(after, c0, (k + 1) as nat) =~= orig.take(k + 1));
            assert(built@ =~= orig.skip(k + 1));
        }
        k = k + 1;
    }
    assert(orig.take(total as int) =~= orig);
}

/// A view builds a single element, converted to the sequence's element type.
impl<State, V, Element> ViewSequence<State, Element> for V where
    V: View<State> + ViewMarker,
    Element: SuperElement<V::Element>,
 {
    open spec fn element_count(&self) -> nat {
        1
    }

    open spec fn seq_builds(&self, out: Seq<Element>) -> bool {
        &&& out.len() == 1
        &&& exists|c: V::Element| #[trigger] out[0].holds(c) && self.built(c)
    }

    open spec fn seq_rebuilds(&self, prev: &Self, before: Seq<Element>, after: Seq<Element>) -> bool {
        &&& before.len() == 1
        &&& after.len() == 1
        &&& exists|c0: V::Element, c1: V::Element|
            #![trigger before[0].holds(c0), after[0].holds(c1)]
            before[0].holds(c0) && after[0].holds(c1) && self.rebuilt(prev, c0, c1)
    }

    open spec fn seq_tears_down(&self, before: Seq<Element>) -> bool {
        &&& before.len() == 1
        &&& exists|c0: V::Element, c1: V::Element|
            #![trigger before[0].holds(c0), self.torn_down(c0, c1)]
            before[0].holds(c0) && self.torn_down(c0, c1)
    }

    fn seq_build(&self, elements: &mut Vec<Element>) {
        let element = self.build();
        let ghost child = element;
        let up = Element::upcast(element);
        let ghost held = up;
        elements.push(up);
        assert(elements@.take(old(elements)@.len() as int) =~= old(elements)@);
        assert(elements@.skip(old(elements)@.len() as int) =~= seq![held]);
        assert(elements@.skip(old(elements)@.len() as int)[0].holds(child) && self.built(child));
    }

    fn seq_rebuild<Splice: ElementSplice<Element>>(&self, prev: &Self, elements: &mut Splice) {
        let ghost c = elements.cursor();
        let ghost items0 = elements.items();
        let step = |this_element: &mut Element| -> (u: ())
            ensures
                exists|c0: V::Element, c1: V::Element|
                    #![trigger old(this_element).holds(c0), final(this_element).holds(c1)]
                    old(this_element).holds(c0) && final(this_element).holds(c1) && self.rebuilt(
                        prev,
                        c0,
                        c1,
                    ),
            {
                let inner = |element: &mut V::Element| -> (v: ())
                    ensures
                        self.rebuilt(prev, *old(element), *final(element)),
                    { self.rebuild(prev, element) };
                let (_, ()) = Element::with_downcast_val(this_element, inner);
            };
        elements.mutate(step);
        proof {
            let e = choose|e: &mut Element|
                {
                    &&& #[trigger] step.ensures((e,), ())
                    &&& *e == items0[c as int]
                    &&& *final(e) == elements.items()[c as int]
                };
            assert(region(items0, c, 1)[0] == items0[c as int]);
            assert(region(elements.items(), c, 1)[0] == elements.items()[c as int]);
        }
    }

    fn seq_teardown<Splice: ElementSplice<Element>>(&self, elements: &mut Splice) {
        let ghost c = elements.cursor();
        let ghost items0 = elements.items();
        let step = |this_element: &mut Element| -> (u: ())
            ensures
                exists|c0: V::Element, c1: V::Element|
                    #![trigger old(this_element).holds(c0), self.torn_down(c0, c1)]
                    old(this_element).holds(c0) && self.torn_down(c0, c1),
            {
                let inner = |element: &mut V::Element| -> (v: ())
                    ensures
                        self.torn_down(*old(element), *final(element)),
                    { self.teardown(element) };
                let (_, ()) = Element::with_downcast_val(this_element, inner);
            };
        elements.remove(step);
        proof {
            assert(region(items0, c, 1)[0] == items0[c as int]);
        }
    }
}

/// An absent sequence builds nothing.
impl<State, Element, S> ViewSequence<State, Element> for Option<S> where S: ViewSequence<State, Element> {
    open spec fn element_count(&self) -> nat {
        match self {
            Some(s) => s.element_count(),
            None => 0,
        }
    }

    open spec fn seq_builds(&self, out: Seq<Element>) -> bool {
        match self {
            Some(s) => s.seq_builds(out),
            None => out.len() == 0,
        }
    }

    open spec fn seq_rebuilds(&self, prev: &Self, before: Seq<Element>, after: Seq<Element>) -> bool {
        match (self, prev) {
            (Some(s), Some(p)) => s.seq_rebuilds(p, before, after),
            (Some(s), None) => before.len() == 0 && s.seq_builds(after),
            (None, Some(p)) => p.seq_tears_down(before) && after.len() == 0,
            (None, None) => before.len() == 0 && after.len() == 0,
        }
    }

    open spec fn seq_tears_down(&self, before: Seq<Element>) -> bool {
        match self {
            Some(s) => s.seq_tears_down(before),
            None => before.len() == 0,
        }
    }

    fn seq_build(&self, elements: &mut Vec<Element>) {
        match self {
            Some(s) => s.seq_build(elements),
            None => {
                assert(elements@.take(old(elements)@.len() as int) =~= old(elements)@);
            },
        }
    }

    fn seq_rebuild<Splice: ElementSplice<Element>>(&self, prev: &Self, elements: &mut Splice) {
        let ghost a = elements.items();
        let ghost c0 = elements.cursor();
        match (self, prev) {
            (None, None) => {
                proof {
                    lemma_kept_refl(a, c0);
                }
            },
            (Some(seq), Some(prev)) => seq.seq_rebuild(prev, elements),
            (Some(seq), None) => {
                let mut scratch: Vec<Element> = Vec::new();
                seq.seq_build(&mut scratch);
                assert(scratch@.skip(0) =~= scratch@);
                insert_all(elements, scratch);
            },
            (None, Some(prev)) => prev.seq_teardown(elements),
        }
    }

    fn seq_teardown<Splice: ElementSplice<Element>>(&self, elements: &mut Splice) {
        let ghost a = elements.items();
        let ghost c0 = elements.cursor();
        match self {
            Some(seq) => seq.seq_teardown(elements),
            None => {
                proof {
                    lemma_kept_refl(a, c0);
                }
            },
        }
    }
}

/// How an optional sequence is rebuilt: a sequence present before and after
/// is rebuilt in place from its previous self; one that appears is built
/// where there was nothing; one that disappears is torn down and leaves
/// nothing; and nothing before and after leaves nothing.
pub proof fn lemma_option_rebuild<State, Element, S: ViewSequence<State, Element>>(
    next: Option<S>,
    prev: Option<S>,
    before: Seq<Element>,
    after: Seq<Element>,
)
    requires
        next.seq_rebuilds(&prev, before, after),
    ensures
        next is Some && prev is Some ==> next->0.seq_rebuilds(&prev->0, before, after),
        next is Some && prev is None ==> before.len() == 0 && next->0.seq_builds(after),
        next is None && prev is Some ==> prev->0.seq_tears_down(before) && after.len() == 0,
        next is None && prev is None ==> before.len() == 0 && after.len() == 0,
{
}

/// A vector of sequences builds the elements of each, in order.
impl<State, Element, S> ViewSequence<State, Element> for Vec<S> where S: ViewSequence<State, Element> {
    open spec fn element_count(&self) -> nat {
        total_count::<State, Element, S>(self@)
    }

    open spec fn seq_builds(&self, out: Seq<Element>) -> bool {
        all_build::<State, Element, S>(self@, out)
    }

    open spec fn seq_rebuilds(&self, prev: &Self, before: Seq<Element>, after: Seq<Element>) -> bool {
        all_rebuild::<State, Element, S>(self@, prev@, before, after)
    }

    open spec fn seq_tears_down(&self, before: Seq<Element>) -> bool {
        all_tear_down::<State, Element, S>(self@, before)
    }

    fn seq_build(&self, elements: &mut Vec<Element>) {
        let ghost start = elements@;
        let ghost sl = start.len() as int;
        let mut i: usize = 0;
        assert(elements@.take(start.len() as int) =~= start);
        assert(self@.take(0) =~= Seq::<S>::empty());
        while i < self.len()
            invariant
                i <= self@.len(),
                sl == start.len(),
                elements@.len() == start.len() + total_count::<State, Element, S>(self@.take(i as int)),
                elements@.take(start.len() as int) == start,
                builds_range::<State, Element, S>(self@, elements@, sl, 0, i as int),
            decreases self@.len() - i,
        {
            let ghost before = elements@;
            self[i].seq_build(elements);
            proof {
                lemma_prefix_kept(start, before, elements@);
                lemma_builds_step::<State, Element, S>(self@, before, elements@, sl, 0, i as int);
                lemma_total_take_step::<State, Element, S>(self@, i as int);
            }
            i = i + 1;
        }
        assert(self@.take(self@.len() as int) =~= self@);
        proof {
            lemma_build_done::<State, Element, S>(self@, elements@, sl);
        }
    }

    fn seq_rebuild<Splice: ElementSplice<Element>>(&self, prev: &Self, elements: &mut Splice) {
        let ghost a = elements.items();
        let ghost c0 = elements.cursor();
        let n = self.len();
        let prev_n = prev.len();
        let common = if n < prev_n {
            n
        } else {
            prev_n
        };
        let mut i: usize = 0;
        assert(self@.take(0) =~= Seq::<S>::empty());
        assert(prev@.take(0) =~= Seq::<S>::empty());
        assert(prev@.take(prev_n as int) =~= prev@);
        assert(self@.take(n as int) =~= self@);
        proof {
            lemma_kept_refl(a, c0);
        }
        while i < common
            invariant
                n == self@.len(),
                prev_n == prev@.len(),
                common <= n,
                common <= prev_n,
                common == n || common == prev_n,
                i <= common,
                prev@.take(prev_n as int) == prev@,
                self@.take(n as int) == self@,
                c0 + total_count::<State, Element, S>(prev@) <= a.len(),
                elements.cursor() == c0 + total_count::<State, Element, S>(self@.take(i as int)),
                kept_around(
                    a,
                    c0,
                    total_count::<State, Element, S>(prev@.take(i as int)),
                    elements.items(),
                    elements.cursor(),
                ),
                rebuilt_upto::<State, Element, S>(self@, prev@, a, elements.items(), c0 as int, i as int),
            decreases common - i,
        {
            let ghost before = elements.items();
            let ghost cb = elements.cursor();
            proof {
                lemma_total_take_step::<State, Element, S>(prev@, i as int);
                lemma_total_take_step::<State, Element, S>(self@, i as int);
                lemma_total_take_mono::<State, Element, S>(prev@, i + 1, prev_n as int);
                assert(before.skip(cb as int).len() == a.skip(
                    (c0 + total_count::<State, Element, S>(prev@.take(i as int))) as int,
                ).len());
            }
            self[i].seq_rebuild(&prev[i], elements);
            proof {
                lemma_rebuilt_step::<State, Element, S>(
                    self@,
                    prev@,
                    a,
                    before,
                    elements.items(),
                    c0 as int,
                    i as int,
                );
                lemma_kept_compose(
                    a,
                    c0,
                    total_count::<State, Element, S>(prev@.take(i as int)),
                    before,
                    cb,
                    prev@[i as int].element_count(),
                    elements.items(),
                    elements.cursor(),
                );
            }
            i = i + 1;
        }
        if n > prev_n {
            let mut scratch: Vec<Element> = Vec::new();
            let mut j: usize = prev_n;
            while j < n
                invariant
                    n == self@.len(),
                    prev_n <= j <= n,
                    scratch@.len() == total_count::<State, Element, S>(self@.take(j as int))
                        - total_count::<State, Element, S>(self@.take(prev_n as int)),
                    builds_range::<State, Element, S>(
                        self@,
                        scratch@,
                        -total_count::<State, Element, S>(self@.take(prev_n as int)),
                        prev_n as int,
                        j as int,
                    ),
                decreases n - j,
            {
                proof {
                    lemma_total_take_step::<State, Element, S>(self@, j as int);
                }
                let ghost sb = scratch@;
                self[j].seq_build(&mut scratch);
                proof {
                    lemma_builds_step::<State, Element, S>(
                        self@,
                        sb,
                        scratch@,
                        -total_count::<State, Element, S>(self@.take(prev_n as int)),
                        prev_n as int,
                        j as int,
                    );
                }
                j = j + 1;
            }
            let ghost built = scratch@;
            proof {
                lemma_total_take_mono::<State, Element, S>(self@, prev_n as int, n as int);
            }
            let ghost before = elements.items();
            let ghost cb = elements.cursor();
            insert_all(elements, scratch);
            proof {
                lemma_kept_compose(
                    a,
                    c0,
                    total_count::<State, Element, S>(prev@),
                    before,
                    cb,
                    0,
                    elements.items(),
                    elements.cursor(),
                );
                assert(elements.items().take(cb as int) == before.take(cb as int));
                lemma_rebuilt_stable::<State, Element, S>(
                    self@,
                    prev@,
                    a,
                    before,
                    elements.items(),
                    c0 as int,
                    prev_n as int,
                    cb as int,
                );
                lemma_builds_moved::<State, Element, S>(
                    self@,
                    built,
                    elements.items(),
                    c0 as int,
                    prev_n as int,
                    n as int,
                );
            }
        } else if n < prev_n {
            let mut j: usize = n;
            while j < prev_n
                invariant
                    prev_n == prev@.len(),
                    n == self@.len(),
                    n <= j <= prev_n,
                    prev@.take(prev_n as int) == prev@,
                    self@.take(n as int) == self@,
                    c0 + total_count::<State, Element, S>(prev@) <= a.len(),
                    elements.cursor() == c0 + total_count::<State, Element, S>(self@),
                    kept_around(
                        a,
                        c0,
                        total_count::<State, Element, S>(prev@.take(j as int)),
                        elements.items(),
                        elements.cursor(),
                    ),
                    torn_range::<State, Element, S>(prev@, a, c0 as int, n as int, j as int),
                    rebuilt_upto::<State, Element, S>(self@, prev@, a, elements.items(), c0 as int, n as int),
                decreases prev_n - j,
            {
                let ghost before = elements.items();
                let ghost cb = elements.cursor();
                proof {
                    lemma_total_take_step::<State, Element, S>(prev@, j as int);
                    lemma_total_take_mono::<State, Element, S>(prev@, j + 1, prev_n as int);
                    assert(before.skip(cb as int).len() == a.skip(
                        (c0 + total_count::<State, Element, S>(prev@.take(j as int))) as int,
                    ).len());
                }
                prev[j].seq_teardown(elements);
                proof {
                    lemma_torn_step::<State, Element, S>(
                        prev@,
                        a,
                        before,
                        c0 as int,
                        cb as int,
                        n as int,
                        j as int,
                    );
                    assert(elements.items().take(cb as int) == before.take(cb as int));
                    lemma_rebuilt_stable::<State, Element, S>(
                        self@,
                        prev@,
                        a,
                        before,
                        elements.items(),
                        c0 as int,
                        n as int,
                        cb as int,
                    );
                    lemma_kept_compose(
                        a,
                        c0,
                        total_count::<State, Element, S>(prev@.take(j as int)),
                        before,
                        cb,
                        prev@[j as int].element_count(),
                        elements.items(),
                        elements.cursor(),
                    );
                }
                j = j + 1;
            }
        }
        proof {
            lemma_rebuild_done::<State, Element, S>(self@, prev@, a, elements.items(), c0 as int);
        }
    }

    fn seq_teardown<Splice: ElementSplice<Element>>(&self, elements: &mut Splice) {
        let ghost a = elements.items();
        let ghost c0 = elements.cursor();
        let n = self.len();
        let mut i: usize = 0;
        assert(self@.take(0) =~= Seq::<S>::empty());
        assert(self@.take(n as int) =~= self@);
        proof {
            lemma_kept_refl(a, c0);
        }
        while i < n
            invariant
                n == self@.len(),
                i <= n,
                self@.take(n as int) == self@,
                c0 + total_count::<State, Element, S>(self@) <= a.len(),
                elements.cursor() == c0,
                kept_around(
                    a,
                    c0,
                    total_count::<State, Element, S>(self@.take(i as int)),
                    elements.items(),
                    elements.cursor(),
                ),
                torn_range::<State, Element, S>(self@, a, c0 as int, 0, i as int),
            decreases n - i,
        {
            let ghost before = elements.items();
            let ghost cb = elements.cursor();
            proof {
                lemma_total_take_step::<State, Element, S>(self@, i as int);
                lemma_total_take_mono::<State, Element, S>(self@, i + 1, n as int);
                assert(before.skip(cb as int).len() == a.skip(
                    (c0 + total_count::<State, Element, S>(self@.take(i as int))) as int,
                ).len());
            }
            self[i].seq_teardown(elements);
            proof {
                lemma_torn_step::<State, Element, S>(self@, a, before, c0 as int, c0 as int, 0, i as int);
                lemma_kept_compose(
                    a,
                    c0,
                    total_count::<State, Element, S>(self@.take(i as int)),
                    before,
                    cb,
                    self@[i as int].element_count(),
                    elements.items(),
                    elements.cursor(),
                );
            }
            i = i + 1;
        }
        proof {
            lemma_tear_down_done::<State, Element, S>(self@, a, c0 as int);
        }
    }
}

/// An array of sequences builds the elements of each, in order.
impl<State, Element, S, const N: usize> ViewSequence<State, Element> for [S; N] where
    S: ViewSequence<State, Element>,
 {
    open spec fn element_count(&self) -> nat {
        total_count::<State, Element, S>(self@)
    }

    open spec fn seq_builds(&self, out: Seq<Element>) -> bool {
        all_build::<State, Element, S>(self@, out)
    }

    open spec fn seq_rebuilds(&self, prev: &Self, before: Seq<Element>, after: Seq<Element>) -> bool {
        all_rebuild::<State, Element, S>(self@, prev@, before, after)
    }

    open spec fn seq_tears_down(&self, before: Seq<Element>) -> bool {
        all_tear_down::<State, Element, S>(self@, before)
    }

    fn seq_build(&self, elements: &mut Vec<Element>) {
        let ghost start = elements@;
        let mut i: usize = 0;
        assert(elements@.take(start.len() as int) =~= start);
        assert(self@.take(0) =~= Seq::<S>::empty());
        while i < N
            invariant
                i <= N,
                self@.len() == N,
                elements@.len() == start.len() + total_count::<State, Element, S>(self@.take(i as int)),
                elements@.take(start.len() as int) == start,
                builds_range::<State, Element, S>(self@, elements@, start.len() as int, 0, i as int),
            decreases N - i,
        {
            let ghost before = elements@;
            self[i].seq_build(elements);
            proof {
                lemma_prefix_kept(start, before, elements@);
                lemma_builds_step::<State, Element, S>(
                    self@,
                    before,
                    elements@,
                    start.len() as int,
                    0,
                    i as int,
                );
                assert(self@.take(i + 1).drop_last() =~= self@.take(i as int));
            }
            i = i + 1;
        }
        assert(self@.take(self@.len() as int) =~= self@);
        proof {
            lemma_build_done::<State, Element, S>(self@, elements@, start.len() as int);
        }
    }

    fn seq_rebuild<Splice: ElementSplice<Element>>(&self, prev: &Self, elements: &mut Splice) {
        let ghost a = elements.items();
        let ghost c0 = elements.cursor();
        let mut i: usize = 0;
        assert(self@.take(0) =~= Seq::<S>::empty());
        assert(prev@.take(0) =~= Seq::<S>::empty());
        assert(prev@.take(N as int) =~= prev@);
        assert(self@.take(N as int) =~= self@);
        proof {
            lemma_kept_refl(a, c0);
        }
        while i < N
            invariant
                i <= N,
                self@.len() == N,
                prev@.len() == N,
                prev@.take(N as int) == prev@,
                self@.take(N as int) == self@,
                c0 + total_count::<State, Element, S>(prev@) <= a.len(),
                elements.cursor() == c0 + total_count::<State, Element, S>(self@.take(i as int)),
                kept_around(
                    a,
                    c0,
                    total_count::<State, Element, S>(prev@.take(i as int)),
                    elements.items(),
                    elements.cursor(),
                ),
                rebuilt_upto::<State, Element, S>(self@, prev@, a, elements.items(), c0 as int, i as int),
            decreases N - i,
        {
            let ghost before = elements.items();
            let ghost cb = elements.cursor();
            proof {
                lemma_total_take_step::<State, Element, S>(prev@, i as int);
                lemma_total_take_step::<State, Element, S>(self@, i as int);
                lemma_total_take_mono::<State, Element, S>(prev@, i + 1, N as int);
                assert(before.skip(cb as int).len() == a.skip(
                    (c0 + total_count::<State, Element, S>(prev@.take(i as int))) as int,
                ).len());
            }
            self[i].seq_rebuild(&prev[i], elements);
            proof {
                lemma_rebuilt_step::<State, Element, S>(
                    self@,
                    prev@,
                    a,
                    before,
                    elements.items(),
                    c0 as int,
                    i as int,
                );
                lemma_kept_compose(
                    a,
                    c0,
                    total_count::<State, Element, S>(prev@.take(i as int)),
                    before,
                    cb,
                    prev@[i as int].element_count(),
                    elements.items(),
                    elements.cursor(),
                );
            }
            i = i + 1;
        }
        proof {
            lemma_rebuild_done::<State, Element, S>(self@, prev@, a, elements.items(), c0 as int);
        }
    }

    fn seq_teardown<Splice: ElementSplice<Element>>(&self, elements: &mut Splice) {
        let ghost a = elements.items();
        let ghost c0 = elements.cursor();
        let mut i: usize = 0;
        assert(self@.take(0) =~= Seq::<S>::empty());
        assert(self@.take(N as int) =~= self@);
        proof {
            lemma_kept_refl(a, c0);
        }
        while i < N
            invariant
                i <= N,
                self@.len() == N,
                self@.take(N as int) == self@,
                c0 + total_count::<State, Element, S>(self@) <= a.len(),
                elements.cursor() == c0,
                kept_around(
                    a,
                    c0,
                    total_count::<State, Element, S>(self@.take(i as int)),
                    elements.items(),
                    elements.cursor(),
                ),
                torn_range::<State, Element, S>(self@, a, c0 as int, 0, i as int),
            decreases N - i,
        {
            let ghost before = elements.items();
            let ghost cb = elements.cursor();
            proof {
                lemma_total_take_step::<State, Element, S>(self@, i as int);
                lemma_total_take_mono::<State, Element, S>(self@, i + 1, N as int);
                assert(before.skip(cb as int).len() == a.skip(
                    (c0 + total_count::<State, Element, S>(self@.take(i as int))) as int,
                ).len());
            }
            self[i].seq_teardown(elements);
            proof {
                lemma_torn_step::<State, Element, S>(self@, a, before, c0 as int, c0 as int, 0, i as int);
                lemma_kept_compose(
                    a,
                    c0,
                    total_count::<State, Element, S>(self@.take(i as int)),
                    before,
                    cb,
                    self@[i as int].element_count(),
                    elements.items(),
                    elements.cursor(),
                );
            }
            i = i + 1;
        }
        proof {
            lemma_tear_down_done::<State, Element, S>(self@, a, c0 as int);
        }
    }
}

/// The empty sequence builds nothing.
impl<State, Element> ViewSequence<State, Element> for () {
    open spec fn element_count(&self) -> nat {
        0
    }

    open spec fn seq_builds(&self, out: Seq<Element>) -> bool {
        out.len() == 0
    }

    open spec fn seq_rebuilds(&self, prev: &Self, before: Seq<Element>, after: Seq<Element>) -> bool {
        before.len() == 0 && after.len() == 0
    }

    open spec fn seq_tears_down(&self, before: Seq<Element>) -> bool {
        before.len() == 0
    }

    fn seq_build(&self, elements: &mut Vec<Element>) {
        assert(elements@.take(old(elements)@.len() as int) =~= old(elements)@);
    }

    fn seq_rebuild<Splice: ElementSplice<Element>>(&self, prev: &Self, elements: &mut Splice) {
        proof {
            lemma_kept_refl(elements.items(), elements.cursor());
        }
    }

    fn seq_teardown<Splice: ElementSplice<Element>>(&self, elements: &mut Splice) {
        proof {
            lemma_kept_refl(elements.items(), elements.cursor());
        }
    }
}

/// A one-element tuple builds what its element builds.
impl<State, Element, S> ViewSequence<State, Element> for (S,) where S: ViewSequence<State, Element> {
    open spec fn element_count(&self) -> nat {
        self.0.element_count()
    }

    open spec fn seq_builds(&self, out: Seq<Element>) -> bool {
        self.0.seq_builds(out)
    }

    open spec fn seq_rebuilds(&self, prev: &Self, before: Seq<Element>, after: Seq<Element>) -> bool {
        self.0.seq_rebuilds(&prev.0, before, after)
    }

    open spec fn seq_tears_down(&self, before: Seq<Element>) -> bool {
        self.0.seq_tears_down(before)
    }

    fn seq_build(&self, elements: &mut Vec<Element>) {
        self.0.seq_build(elements);
    }

    fn seq_rebuild<Splice: ElementSplice<Element>>(&self, prev: &Self, elements: &mut Splice) {
        self.0.seq_rebuild(&prev.0, elements);
    }

    fn seq_teardown<Splice: ElementSplice<Element>>(&self, elements: &mut Splice) {
        self.0.seq_teardown(elements);
    }
}

/// A tuple of 2 sequences builds the elements of each, in order.
impl<State, Element, S0, S1> ViewSequence<State, Element> for (S0, S1,) where
    S0: ViewSequence<State, Element>,
    S1: ViewSequence<State, Element>,
 {
    open spec fn element_count(&self) -> nat {
        self.0.element_count() + self.1.element_count()
    }

    open spec fn seq_builds(&self, out: Seq<Element>) -> bool {
        &&& out.len() == self.element_count()
        &&& self.0.seq_builds(out.subrange(0int, (self.0.element_count()) as int))
        &&& self.1.seq_builds(out.subrange((self.0.element_count()) as int, (self.0.element_count() + self.1.element_count()) as int))
    }

    open spec fn seq_rebuilds(&self, prev: &Self, before: Seq<Element>, after: Seq<Element>) -> bool {
        &&& before.len() == prev.element_count()
        &&& after.len() == self.element_count()
        &&& self.0.seq_rebuilds(
            &prev.0,
            before.subrange(0int, (prev.0.element_count()) as int),
            after.subrange(0int, (self.0.element_count()) as int),
        )
        &&& self.1.seq_rebuilds(
            &prev.1,
            before.subrange((prev.0.element_count()) as int, (prev.0.element_count() + prev.1.element_count()) as int),
            after.subrange((self.0.element_count()) as int, (self.0.element_count() + self.1.element_count()) as int),
        )
    }

    open spec fn seq_tears_down(&self, before: Seq<Element>) -> bool {
        &&& before.len() == self.element_count()
        &&& self.0.seq_tears_down(before.subrange(0int, (self.0.element_count()) as int))
        &&& self.1.seq_tears_down(before.subrange((self.0.element_count()) as int, (self.0.element_count() + self.1.element_count()) as int))
    }

    fn seq_build(&self, elements: &mut Vec<Element>) {
        let ghost start = elements@;
        let ghost sl = start.len() as int;
        let ghost b0 = elements@;
        self.0.seq_build(elements);
        let ghost f0 = elements@;
        let ghost b1 = elements@;
        self.1.seq_build(elements);
        let ghost f1 = elements@;
        proof {
            lemma_prefix_kept(start, b1, elements@);
        }
        proof {
            let fin = elements@;
            assert(fin.take(fin.len() as int) =~= f1.take(fin.len() as int));
            assert(f1.take(b1.len() as int) == b1);
            assert(b1.take(b1.len() as int) =~= b1);
            lemma_take_link(fin, f1, b1, b1.len() as int, fin.len() as int);
            assert(self.0.seq_builds(fin.skip(sl).subrange(0int, (self.0.element_count()) as int))) by {
                lemma_sub_stable(fin, f0, b1.len() as int, sl + 0int, sl + (self.0.element_count()) as int);
                assert(f0.skip(b0.len() as int) =~= f0.subrange(sl + 0int, sl + (self.0.element_count()) as int));
                assert(fin.skip(sl).subrange(0int, (self.0.element_count()) as int) =~= fin.subrange(sl + 0int, sl + (self.0.element_count()) as int));
            }
            assert(self.1.seq_builds(fin.skip(sl).subrange((self.0.element_count()) as int, (self.0.element_count() + self.1.element_count()) as int))) by {
                assert(f1.skip(b1.len() as int) =~= f1.subrange(sl + (self.0.element_count()) as int, sl + (self.0.element_count() + self.1.element_count()) as int));
                assert(fin.skip(sl).subrange((self.0.element_count()) as int, (self.0.element_count() + self.1.element_count()) as int) =~= fin.subrange(sl + (self.0.element_count()) as int, sl + (self.0.element_count() + self.1.element_count()) as int));
            }
        }
    }

    fn seq_rebuild<Splice: ElementSplice<Element>>(&self, prev: &Self, elements: &mut Splice) {
        let ghost a = elements.items();
        let ghost c0 = elements.cursor();
        proof {
            lemma_kept_refl(a, c0);
        }
        let ghost b0 = elements.items();
        let ghost cb0 = elements.cursor();
        proof {
            assert(b0.skip(cb0 as int).len() == a.skip((c0 + 0) as int).len());
        }
        self.0.seq_rebuild(&prev.0, elements);
        let ghost f0 = elements.items();
        proof {
            assert(self.0.seq_rebuilds(
                &prev.0,
                a.subrange(c0 + 0int, c0 + (prev.0.element_count()) as int),
                f0.subrange(cb0 as int, (cb0 + self.0.element_count()) as int),
            )) by {
                lemma_sub_shift(a, b0, (c0 + 0) as int, cb0 as int, prev.0.element_count() as int);
            }
            lemma_kept_compose(a, c0, 0, b0, cb0, prev.0.element_count(), elements.items(), elements.cursor());
        }
        let ghost b1 = elements.items();
        let ghost cb1 = elements.cursor();
        proof {
            assert(b1.skip(cb1 as int).len() == a.skip((c0 + (prev.0.element_count())) as int).len());
        }
        self.1.seq_rebuild(&prev.1, elements);
        let ghost f1 = elements.items();
        proof {
            assert(self.1.seq_rebuilds(
                &prev.1,
                a.subrange(c0 + (prev.0.element_count()) as int, c0 + (prev.0.element_count() + prev.1.element_count()) as int),
                f1.subrange(cb1 as int, (cb1 + self.1.element_count()) as int),
            )) by {
                lemma_sub_shift(a, b1, (c0 + (prev.0.element_count())) as int, cb1 as int, prev.1.element_count() as int);
            }
            lemma_kept_compose(a, c0, (prev.0.element_count()), b1, cb1, prev.1.element_count(), elements.items(), elements.cursor());
        }
        let ghost ce = elements.cursor();
        proof {
            let fin = elements.items();
            assert(fin.take(ce as int) =~= f1.take(ce as int));
            lemma_take_link(fin, f1, f0, cb1 as int, ce as int);
            assert(self.0.seq_rebuilds(
                &prev.0,
                region(a, c0, prev.element_count()).subrange(0int, (prev.0.element_count()) as int),
                region(fin, c0, self.element_count()).subrange(0int, (self.0.element_count()) as int),
            )) by {
                lemma_sub_stable(fin, f0, cb1 as int, cb0 as int, cb1 as int);
                assert(region(fin, c0, self.element_count()).subrange(0int, (self.0.element_count()) as int) =~= fin.subrange(cb0 as int, cb1 as int));
                assert(region(a, c0, prev.element_count()).subrange(0int, (prev.0.element_count()) as int) =~= a.subrange(c0 + 0int, c0 + (prev.0.element_count()) as int));
            }
            assert(self.1.seq_rebuilds(
                &prev.1,
                region(a, c0, prev.element_count()).subrange((prev.0.element_count()) as int, (prev.0.element_count() + prev.1.element_count()) as int),
                region(fin, c0, self.element_count()).subrange((self.0.element_count()) as int, (self.0.element_count() + self.1.element_count()) as int),
            )) by {
                assert(region(fin, c0, self.element_count()).subrange((self.0.element_count()) as int, (self.0.element_count() + self.1.element_count()) as int) =~= fin.subrange(cb1 as int, ce as int));
                assert(region(a, c0, prev.element_count()).subrange((prev.0.element_count()) as int, (prev.0.element_count() + prev.1.element_count()) as int) =~= a.subrange(c0 + (prev.0.element_count()) as int, c0 + (prev.0.element_count() + prev.1.element_count()) as int));
            }
        }
    }

    fn seq_teardown<Splice: ElementSplice<Element>>(&self, elements: &mut Splice) {
        let ghost a = elements.items();
        let ghost c0 = elements.cursor();
        proof {
            lemma_kept_refl(a, c0);
        }
        let ghost b0 = elements.items();
        let ghost cb0 = elements.cursor();
        proof {
            assert(b0.skip(cb0 as int).len() == a.skip((c0 + 0) as int).len());
        }
        self.0.seq_teardown(elements);
        proof {
            assert(self.0.seq_tears_down(region(a, c0, self.element_count()).subrange(0int, (self.0.element_count()) as int))) by {
                lemma_sub_shift(a, b0, (c0 + 0) as int, cb0 as int, self.0.element_count() as int);
                assert(region(a, c0, self.element_count()).subrange(0int, (self.0.element_count()) as int) =~= a.subrange(c0 + 0int, c0 + (self.0.element_count()) as int));
            }
            lemma_kept_compose(a, c0, 0, b0, cb0, self.0.element_count(), elements.items(), elements.cursor());
        }
        let ghost b1 = elements.items();
        let ghost cb1 = elements.cursor();
        proof {
            assert(b1.skip(cb1 as int).len() == a.skip((c0 + (self.0.element_count())) as int).len());
        }
        self.1.seq_teardown(elements);
        proof {
            assert(self.1.seq_tears_down(region(a, c0, self.element_count()).subrange((self.0.element_count()) as int, (self.0.element_count() + self.1.element_count()) as int))) by {
                lemma_sub_shift(a, b1, (c0 + (self.0.element_count())) as int, cb1 as int, self.1.element_count() as int);
                assert(region(a, c0, self.element_count()).subrange((self.0.element_count()) as int, (self.0.element_count() + self.1.element_count()) as int) =~= a.subrange(c0 + (self.0.element_count()) as int, c0 + (self.0.element_count() + self.1.element_count()) as int));
            }
            lemma_kept_compose(a, c0, (self.0.element_count()), b1, cb1, self.1.element_count(), elements.items(), elements.cursor());
        }
    }
}

/// A tuple of 3 sequences builds the elements of each, in order.
impl<State, Element, S0, S1, S2> ViewSequence<State, Element> for (S0, S1, S2,) where
    S0: ViewSequence<State, Element>,
    S1: ViewSequence<State, Element>,
    S2: ViewSequence<State, Element>,
 {
    open spec fn element_count(&self) -> nat {
        self.0.element_count() + self.1.element_count() + self.2.element_count()
    }

    open spec fn seq_builds(&self, out: Seq<Element>) -> bool {
        &&& out.len() == self.element_count()
        &&& self.0.seq_builds(out.subrange(0int, (self.0.element_count()) as int))
        &&& self.1.seq_builds(out.subrange((self.0.element_count()) as int, (self.0.element_count() + self.1.element_count()) as int))
        &&& self.2.seq_builds(out.subrange((self.0.element_count() + self.1.element_count()) as int, (self.0.element_count() + self.1.element_count() + self.2.element_count()) as int))
    }

    open spec fn seq_rebuilds(&self, prev: &Self, before: Seq<Element>, after: Seq<Element>) -> bool {
        &&& before.len() == prev.element_count()
        &&& after.len() == self.element_count()
        &&& self.0.seq_rebuilds(
            &prev.0,
            before.subrange(0int, (prev.0.element_count()) as int),
            after.subrange(0int, (self.0.element_count()) as int),
        )
        &&& self.1.seq_rebuilds(
            &prev.1,
            before.subrange((prev.0.element_count()) as int, (prev.0.element_count() + prev.1.element_count()) as int),
            after.subrange((self.0.element_count()) as int, (self.0.element_count() + self.1.element_count()) as int),
        )
        &&& self.2.seq_rebuilds(
            &prev.2,
            before.subrange((prev.0.element_count() + prev.1.element_count()) as int, (prev.0.element_count() + prev.1.element_count() + prev.2.element_count()) as int),
            after.subrange((self.0.element_count() + self.1.element_count()) as int, (self.0.element_count() + self.1.element_count() + self.2.element_count()) as int),
        )
    }

    open spec fn seq_tears_down(&self, before: Seq<Element>) -> bool {
        &&& before.len() == self.element_count()
        &&& self.0.seq_tears_down(before.subrange(0int, (self.0.element_count()) as int))
        &&& self.1.seq_tears_down(before.subrange((self.0.element_count()) as int, (self.0.element_count() + self.1.element_count()) as int))
        &&& self.2.seq_tears_down(before.subrange((self.0.element_count() + self.1.element_count()) as int, (self.0.element_count() + self.1.element_count() + self.2.element_count()) as int))
    }

    fn seq_build(&self, elements: &mut Vec<Element>) {
        let ghost start = elements@;
        let ghost sl = start.len() as int;
        let ghost b0 = elements@;
        self.0.seq_build(elements);
        let ghost f0 = elements@;
        let ghost b1 = elements@;
        self.1.seq_build(elements);
        let ghost f1 = elements@;
        proof {
            lemma_prefix_kept(start, b1, elements@);
        }
        let ghost b2 = elements@;
        self.2.seq_build(elements);
        let ghost f2 = elements@;
        proof {
            lemma_prefix_kept(start, b2, elements@);
        }
        proof {
            let fin = elements@;
            assert(fin.take(fin.len() as int) =~= f2.take(fin.len() as int));
            assert(f2.take(b2.len() as int) == b2);
            assert(b2.take(b2.len() as int) =~= b2);
            lemma_take_link(fin, f2, b2, b2.len() as int, fin.len() as int);
            assert(b1.take(b1.len() as int) =~= b1);
            lemma_take_link(fin, f1, b1, b1.len() as int, b2.len() as int);
            assert(self.0.seq_builds(fin.skip(sl).subrange(0int, (self.0.element_count()) as int))) by {
                lemma_sub_stable(fin, f0, b1.len() as int, sl + 0int, sl + (self.0.element_count()) as int);
                assert(f0.skip(b0.len() as int) =~= f0.subrange(sl + 0int, sl + (self.0.element_count()) as int));
                assert(fin.skip(sl).subrange(0int, (self.0.element_count()) as int) =~= fin.subrange(sl + 0int, sl + (self.0.element_count()) as int));
            }
            assert(self.1.seq_builds(fin.skip(sl).subrange((self.0.element_count()) as int, (self.0.element_count() + self.1.element_count()) as int))) by {
                lemma_sub_stable(fin, f1, b2.len() as int, sl + (self.0.element_count()) as int, sl + (self.0.element_count() + self.1.element_count()) as int);
                assert(f1.skip(b1.len() as int) =~= f1.subrange(sl + (self.0.element_count()) as int, sl + (self.0.element_count() + self.1.element_count()) as int));
                assert(fin.skip(sl).subrange((self.0.element_count()) as int, (self.0.element_count() + self.1.element_count()) as int) =~= fin.subrange(sl + (self.0.element_count()) as int, sl + (self.0.element_count() + self.1.element_count()) as int));
            }
            assert(self.2.seq_builds(fin.skip(sl).subrange((self.0.element_count() + self.1.element_count()) as int, (self.0.element_count() + self.1.element_count() + self.2.element_count()) as int))) by {
                assert(f2.skip(b2.len() as int) =~= f2.subrange(sl + (self.0.element_count() + self.1.element_count()) as int, sl + (self.0.element_count() + self.1.element_count() + self.2.element_count()) as int));
                assert(fin.skip(sl).subrange((self.0.element_count() + self.1.element_count()) as int, (self.0.element_count() + self.1.element_count() + self.2.element_count()) as int) =~= fin.subrange(sl + (self.0.element_count() + self.1.element_count()) as int, sl + (self.0.element_count() + self.1.element_count() + self.2.element_count()) as int));
            }
        }
    }

    fn seq_rebuild<Splice: ElementSplice<Element>>(&self, prev: &Self, elements: &mut Splice) {
        let ghost a = elements.items();
        let ghost c0 = elements.cursor();
        proof {
            lemma_kept_refl(a, c0);
        }
        let ghost b0 = elements.items();
        let ghost cb0 = elements.cursor();
        proof {
            assert(b0.skip(cb0 as int).len() == a.skip((c0 + 0) as int).len());
        }
        self.0.seq_rebuild(&prev.0, elements);
        let ghost f0 = elements.items();
        proof {
            assert(self.0.seq_rebuilds(
                &prev.0,
                a.subrange(c0 + 0int, c0 + (prev.0.element_count()) as int),
                f0.subrange(cb0 as int, (cb0 + self.0.element_count()) as int),
            )) by {
                lemma_sub_shift(a, b0, (c0 + 0) as int, cb0 as int, prev.0.element_count() as int);
            }
            lemma_kept_compose(a, c0, 0, b0, cb0, prev.0.element_count(), elements.items(), elements.cursor());
        }
        let ghost b1 = elements.items();
        let ghost cb1 = elements.cursor();
        proof {
            assert(b1.skip(cb1 as int).len() == a.skip((c0 + (prev.0.element_count())) as int).len());
        }
        self.1.seq_rebuild(&prev.1, elements);
        let ghost f1 = elements.items();
        proof {
            assert(self.1.seq_rebuilds(
                &prev.1,
                a.subrange(c0 + (prev.0.element_count()) as int, c0 + (prev.0.element_count() + prev.1.element_count()) as int),
                f1.subrange(cb1 as int, (cb1 + self.1.element_count()) as int),
            )) by {
                lemma_sub_shift(a, b1, (c0 + (prev.0.element_count())) as int, cb1 as int, prev.1.element_count() as int);
            }
            lemma_kept_compose(a, c0, (prev.0.element_count()), b1, cb1, prev.1.element_count(), elements.items(), elements.cursor());
        }
        let ghost b2 = elements.items();
        let ghost cb2 = elements.cursor();
        proof {
            assert(b2.skip(cb2 as int).len() == a.skip((c0 + (prev.0.element_count() + prev.1.element_count())) as int).len());
        }
        self.2.seq_rebuild(&prev.2, elements);
        let ghost f2 = elements.items();
        proof {
            assert(self.2.seq_rebuilds(
                &prev.2,
                a.subrange(c0 + (prev.0.element_count() + prev.1.element_count()) as int, c0 + (prev.0.element_count() + prev.1.element_count() + prev.2.element_count()) as int),
                f2.subrange(cb2 as int, (cb2 + self.2.element_count()) as int),
            )) by {
                lemma_sub_shift(a, b2, (c0 + (prev.0.element_count() + prev.1.element_count())) as int, cb2 as int, prev.2.element_count() as int);
            }
            lemma_kept_compose(a, c0, (prev.0.element_count() + prev.1.element_count()), b2, cb2, prev.2.element_count(), elements.items(), elements.cursor());
        }
        let ghost ce = elements.cursor();
        proof {
            let fin = elements.items();
            assert(fin.take(ce as int) =~= f2.take(ce as int));
            lemma_take_link(fin, f2, f1, cb2 as int, ce as int);
            lemma_take_link(fin, f1, f0, cb1 as int, cb2 as int);
            assert(self.0.seq_rebuilds(
                &prev.0,
                region(a, c0, prev.element_count()).subrange(0int, (prev.0.element_count()) as int),
                region(fin, c0, self.element_count()).subrange(0int, (self.0.element_count()) as int),
            )) by {
                lemma_sub_stable(fin, f0, cb1 as int, cb0 as int, cb1 as int);
                assert(region(fin, c0, self.element_count()).subrange(0int, (self.0.element_count()) as int) =~= fin.subrange(cb0 as int, cb1 as int));
                assert(region(a, c0, prev.element_count()).subrange(0int, (prev.0.element_count()) as int) =~= a.subrange(c0 + 0int, c0 + (prev.0.element_count()) as int));
            }
            assert(self.1.seq_rebuilds(
                &prev.1,
                region(a, c0, prev.element_count()).subrange((prev.0.element_count()) as int, (prev.0.element_count() + prev.1.element_count()) as int),
                region(fin, c0, self.element_count()).subrange((self.0.element_count()) as int, (self.0.element_count() + self.1.element_count()) as int),
            )) by {
                lemma_sub_stable(fin, f1, cb2 as int, cb1 as int, cb2 as int);
                assert(region(fin, c0, self.element_count()).subrange((self.0.element_count()) as int, (self.0.element_count() + self.1.element_count()) as int) =~= fin.subrange(cb1 as int, cb2 as int));
                assert(region(a, c0, prev.element_count()).subrange((prev.0.element_count()) as int, (prev.0.element_count() + prev.1.element_count()) as int) =~= a.subrange(c0 + (prev.0.element_count()) as int, c0 + (prev.0.element_count() + prev.1.element_count()) as int));
            }
            assert(self.2.seq_rebuilds(
                &prev.2,
                region(a, c0, prev.element_count()).subrange((prev.0.element_count() + prev.1.element_count()) as int, (prev.0.element_count() + prev.1.element_count() + prev.2.element_count()) as int),
                region(fin, c0, self.element_count()).subrange((self.0.element_count() + self.1.element_count()) as int, (self.0.element_count() + self.1.element_count() + self.2.element_count()) as int),
            )) by {
                assert(region(fin, c0, self.element_count()).subrange((self.0.element_count() + self.1.element_count()) as int, (self.0.element_count() + self.1.element_count() + self.2.element_count()) as int) =~= fin.subrange(cb2 as int, ce as int));
                assert(region(a, c0, prev.element_count()).subrange((prev.0.element_count() + prev.1.element_count()) as int, (prev.0.element_count() + prev.1.element_count() + prev.2.element_count()) as int) =~= a.subrange(c0 + (prev.0.element_count() + prev.1.element_count()) as int, c0 + (prev.0.element_count() + prev.1.element_count() + prev.2.element_count()) as int));
            }
        }
    }

    fn seq_teardown<Splice: ElementSplice<Element>>(&self, elements: &mut Splice) {
        let ghost a = elements.items();
        let ghost c0 = elements.cursor();
        proof {
            lemma_kept_refl(a, c0);
        }
        let ghost b0 = elements.items();
        let ghost cb0 = elements.cursor();
        proof {
            assert(b0.skip(cb0 as int).len() == a.skip((c0 + 0) as int).len());
        }
        self.0.seq_teardown(elements);
        proof {
            assert(self.0.seq_tears_down(region(a, c0, self.element_count()).subrange(0int, (self.0.element_count()) as int))) by {
                lemma_sub_shift(a, b0, (c0 + 0) as int, cb0 as int, self.0.element_count() as int);
                assert(region(a, c0, self.element_count()).subrange(0int, (self.0.element_count()) as int) =~= a.subrange(c0 + 0int, c0 + (self.0.element_count()) as int));
            }
            lemma_kept_compose(a, c0, 0, b0, cb0, self.0.element_count(), elements.items(), elements.cursor());
        }
        let ghost b1 = elements.items();
        let ghost cb1 = elements.cursor();
        proof {
            assert(b1.skip(cb1 as int).len() == a.skip((c0 + (self.0.element_count())) as int).len());
        }
        self.1.seq_teardown(elements);
        proof {
            assert(self.1.seq_tears_down(region(a, c0, self.element_count()).subrange((self.0.element_count()) as int, (self.0.element_count() + self.1.element_count()) as int))) by {
                lemma_sub_shift(a, b1, (c0 + (self.0.element_count())) as int, cb1 as int, self.1.element_count() as int);
                assert(region(a, c0, self.element_count()).subrange((self.0.element_count()) as int, (self.0.element_count() + self.1.element_count()) as int) =~= a.subrange(c0 + (self.0.element_count()) as int, c0 + (self.0.element_count() + self.1.element_count()) as int));
            }
            lemma_kept_compose(a, c0, (self.0.element_count()), b1, cb1, self.1.element_count(), elements.items(), elements.cursor());
        }
        let ghost b2 = elements.items();
        let ghost cb2 = elements.cursor();
        proof {
            assert(b2.skip(cb2 as int).len() == a.skip((c0 + (self.0.element_count() + self.1.element_count())) as int).len());
        }
        self.2.seq_teardown(elements);
        proof {
            assert(self.2.seq_tears_down(region(a, c0, self.element_count()).subrange((self.0.element_count() + self.1.element_count()) as int, (self.0.element_count() + self.1.element_count() + self.2.element_count()) as int))) by {
                lemma_sub_shift(a, b2, (c0 + (self.0.element_count() + self.1.element_count())) as int, cb2 as int, self.2.element_count() as int);
                assert(region(a, c0, self.element_count()).subrange((self.0.element_count() + self.1.element_count()) as int, (self.0.element_count() + self.1.element_count() + self.2.element_count()) as int) =~= a.subrange(c0 + (self.0.element_count() + self.1.element_count()) as int, c0 + (self.0.element_count() + self.1.element_count() + self.2.element_count()) as int));
            }
            lemma_kept_compose(a, c0, (self.0.element_count() + self.1.element_count()), b2, cb2, self.2.element_count(), elements.items(), elements.cursor());
        }
    }
}

/// A tuple of 4 sequences builds the elements of each, in order.
impl<State, Element, S0, S1, S2, S3> ViewSequence<State, Element> for (S0, S1, S2, S3,) where
    S0: ViewSequence<State, Element>,
    S1: ViewSequence<State, Element>,
    S2: ViewSequence<State, Element>,
    S3: ViewSequence<State, Element>,
 {
    open spec fn element_count(&self) -> nat {
        self.0.element_count() + self.1.element_count() + self.2.element_count() + self.3.element_count()
    }

    open spec fn seq_builds(&self, out: Seq<Element>) -> bool {
        &&& out.len() == self.element_count()
        &&& self.0.seq_builds(out.subrange(0int, (self.0.element_count()) as int))
        &&& self.1.seq_builds(out.subrange((self.0.element_count()) as int, (self.0.element_count() + self.1.element_count()) as int))
        &&& self.2.seq_builds(out.subrange((self.0.element_count() + self.1.element_count()) as int, (self.0.element_count() + self.1.element_count() + self.2.element_count()) as int))
        &&& self.3.seq_builds(out.subrange((self.0.element_count() + self.1.element_count() + self.2.element_count()) as int, (self.0.element_count() + self.1.element_count() + self.2.element_count() + self.3.element_count()) as int))
    }

    open spec fn seq_rebuilds(&self, prev: &Self, before: Seq<Element>, after: Seq<Element>) -> bool {
        &&& before.len() == prev.element_count()
        &&& after.len() == self.element_count()
        &&& self.0.seq_rebuilds(
            &prev.0,
            before.subrange(0int, (prev.0.element_count()) as int),
            after.subrange(0int, (self.0.element_count()) as int),
        )
        &&& self.1.seq_rebuilds(
            &prev.1,
            before.subrange((prev.0.element_count()) as int, (prev.0.element_count() + prev.1.element_count()) as int),
            after.subrange((self.0.element_count()) as int, (self.0.element_count() + self.1.element_count()) as int),
        )
        &&& self.2.seq_rebuilds(
            &prev.2,
            before.subrange((prev.0.element_count() + prev.1.element_count()) as int, (prev.0.element_count() + prev.1.element_count() + prev.2.element_count()) as int),
            after.subrange((self.0.element_count() + self.1.element_count()) as int, (self.0.element_count() + self.1.element_count() + self.2.element_count()) as int),
        )
        &&& self.3.seq_rebuilds(
            &prev.3,
            before.subrange((prev.0.element_count() + prev.1.element_count() + prev.2.element_count()) as int, (prev.0.element_count() + prev.1.element_count() + prev.2.element_count() + prev.3.element_count()) as int),
            after.subrange((self.0.element_count() + self.1.element_count() + self.2.element_count()) as int, (self.0.element_count() + self.1.element_count() + self.2.element_count() + self.3.element_count()) as int),
        )
    }

    open spec fn seq_tears_down(&self, before: Seq<Element>) -> bool {
        &&& before.len() == self.element_count()
        &&& self.0.seq_tears_down(before.subrange(0int, (self.0.element_count()) as int))
        &&& self.1.seq_tears_down(before.subrange((self.0.element_count()) as int, (self.0.element_count() + self.1.element_count()) as int))
        &&& self.2.seq_tears_down(before.subrange((self.0.element_count() + self.1.element_count()) as int, (self.0.element_count() + self.1.element_count() + self.2.element_count()) as int))
        &&& self.3.seq_tears_down(before.subrange((self.0.element_count() + self.1.element_count() + self.2.element_count()) as int, (self.0.element_count() + self.1.element_count() + self.2.element_count() + self.3.element_count()) as int))
    }

    fn seq_build(&self, elements: &mut Vec<Element>) {
        let ghost start = elements@;
        let ghost sl = start.len() as int;
        let ghost b0 = elements@;
        self.0.seq_build(elements);
        let ghost f0 = elements@;
        let ghost b1 = elements@;
        self.1.seq_build(elements);
        let ghost f1 = elements@;
        proof {
            lemma_prefix_kept(start, b1, elements@);
        }
        let ghost b2 = elements@;
        self.2.seq_build(elements);
        let ghost f2 = elements@;
        proof {
            lemma_prefix_kept(start, b2, elements@);
        }
        let ghost b3 = elements@;
        self.3.seq_build(elements);
        let ghost f3 = elements@;
        proof {
            lemma_prefix_kept(start, b3, elements@);
        }
        proof {
            let fin = elements@;
            assert(fin.take(fin.len() as int) =~= f3.take(fin.len() as int));
            assert(f3.take(b3.len() as int) == b3);
            assert(b3.take(b3.len() as int) =~= b3);
            lemma_take_link(fin, f3, b3, b3.len() as int, fin.len() as int);
            assert(b2.take(b2.len() as int) =~= b2);
            lemma_take_link(fin, f2, b2, b2.len() as int, b3.len() as int);
            assert(b1.take(b1.len() as int) =~= b1);
            lemma_take_link(fin, f1, b1, b1.len() as int, b2.len() as int);
            assert(self.0.seq_builds(fin.skip(sl).subrange(0int, (self.0.element_count()) as int))) by {
                lemma_sub_stable(fin, f0, b1.len() as int, sl + 0int, sl + (self.0.element_count()) as int);
                assert(f0.skip(b0.len() as int) =~= f0.subrange(sl + 0int, sl + (self.0.element_count()) as int));
                assert(fin.skip(sl).subrange(0int, (self.0.element_count()) as int) =~= fin.subrange(sl + 0int, sl + (self.0.element_count()) as int));
            }
            assert(self.1.seq_builds(fin.skip(sl).subrange((self.0.element_count()) as int, (self.0.element_count() + self.1.element_count()) as int))) by {
                lemma_sub_stable(fin, f1, b2.len() as int, sl + (self.0.element_count()) as int, sl + (self.0.element_count() + self.1.element_count()) as int);
                assert(f1.skip(b1.len() as int) =~= f1.subrange(sl + (self.0.element_count()) as int, sl + (self.0.element_count() + self.1.element_count()) as int));
                assert(fin.skip(sl).subrange((self.0.element_count()) as int, (self.0.element_count() + self.1.element_count()) as int) =~= fin.subrange(sl + (self.0.element_count()) as int, sl + (self.0.element_count() + self.1.element_count()) as int));
            }
            assert(self.2.seq_builds(fin.skip(sl).subrange((self.0.element_count() + self.1.element_count()) as int, (self.0.element_count() + self.1.element_count() + self.2.element_count()) as int))) by {
                lemma_sub_stable(fin, f2, b3.len() as int, sl + (self.0.element_count() + self.1.element_count()) as int, sl + (self.0.element_count() + self.1.element_count() + self.2.element_count()) as int);
                assert(f2.skip(b2.len() as int) =~= f2.subrange(sl + (self.0.element_count() + self.1.element_count()) as int, sl + (self.0.element_count() + self.1.element_count() + self.2.element_count()) as int));
                assert(fin.skip(sl).subrange((self.0.element_count() + self.1.element_count()) as int, (self.0.element_count() + self.1.element_count() + self.2.element_count()) as int) =~= fin.subrange(sl + (self.0.element_count() + self.1.element_count()) as int, sl + (self.0.element_count() + self.1.element_count() + self.2.element_count()) as int));
            }
            assert(self.3.seq_builds(fin.skip(sl).subrange((self.0.element_count() + self.1.element_count() + self.2.element_count()) as int, (self.0.element_count() + self.1.element_count() + self.2.element_count() + self.3.element_count()) as int))) by {
                assert(f3.skip(b3.len() as int) =~= f3.subrange(sl + (self.0.element_count() + self.1.element_count() + self.2.element_count()) as int, sl + (self.0.element_count() + self.1.element_count() + self.2.element_count() + self.3.element_count()) as int));
                assert(fin.skip(sl).subrange((self.0.element_count() + self.1.element_count() + self.2.element_count()) as int, (self.0.element_count() + self.1.element_count() + self.2.element_count() + self.3.element_count()) as int) =~= fin.subrange(sl + (self.0.element_count() + self.1.element_count() + self.2.element_count()) as int, sl + (self.0.element_count() + self.1.element_count() + self.2.element_count() + self.3.element_count()) as int));
            }
        }
    }

    fn seq_rebuild<Splice: ElementSplice<Element>>(&self, prev: &Self, elements: &mut Splice) {
        let ghost a = elements.items();
        let ghost c0 = elements.cursor();
        proof {
            lemma_kept_refl(a, c0);
        }
        let ghost b0 = elements.items();
        let ghost cb0 = elements.cursor();
        proof {
            assert(b0.skip(cb0 as int).len() == a.skip((c0 + 0) as int).len());
        }
        self.0.seq_rebuild(&prev.0, elements);
        let ghost f0 = elements.items();
        proof {
            assert(self.0.seq_rebuilds(
                &prev.0,
                a.subrange(c0 + 0int, c0 + (prev.0.element_count()) as int),
                f0.subrange(cb0 as int, (cb0 + self.0.element_count()) as int),
            )) by {
                lemma_sub_shift(a, b0, (c0 + 0) as int, cb0 as int, prev.0.element_count() as int);
            }
            lemma_kept_compose(a, c0, 0, b0, cb0, prev.0.element_count(), elements.items(), elements.cursor());
        }
        let ghost b1 = elements.items();
        let ghost cb1 = elements.cursor();
        proof {
            assert(b1.skip(cb1 as int).len() == a.skip((c0 + (prev.0.element_count())) as int).len());
        }
        self.1.seq_rebuild(&prev.1, elements);
        let ghost f1 = elements.items();
        proof {
            assert(self.1.seq_rebuilds(
                &prev.1,
                a.subrange(c0 + (prev.0.element_count()) as int, c0 + (prev.0.element_count() + prev.1.element_count()) as int),
                f1.subrange(cb1 as int, (cb1 + self.1.element_count()) as int),
            )) by {
                lemma_sub_shift(a, b1, (c0 + (prev.0.element_count())) as int, cb1 as int, prev.1.element_count() as int);
            }
            lemma_kept_compose(a, c0, (prev.0.element_count()), b1, cb1, prev.1.element_count(), elements.items(), elements.cursor());
        }
        let ghost b2 = elements.items();
        let ghost cb2 = elements.cursor();
        proof {
            assert(b2.skip(cb2 as int).len() == a.skip((c0 + (prev.0.element_count() + prev.1.element_count())) as int).len());
        }
        self.2.seq_rebuild(&prev.2, elements);
        let ghost f2 = elements.items();
        proof {
            assert(self.2.seq_rebuilds(
                &prev.2,
                a.subrange(c0 + (prev.0.element_count() + prev.1.element_count()) as int, c0 + (prev.0.element_count() + prev.1.element_count() + prev.2.element_count()) as int),
                f2.subrange(cb2 as int, (cb2 + self.2.element_count()) as int),
            )) by {
                lemma_sub_shift(a, b2, (c0 + (prev.0.element_count() + prev.1.element_count())) as int, cb2 as int, prev.2.element_count() as int);
            }
            lemma_kept_compose(a, c0, (prev.0.element_count() + prev.1.element_count()), b2, cb2, prev.2.element_count(), elements.items(), elements.cursor());
        }
        let ghost b3 = elements.items();
        let ghost cb3 = elements.cursor();
        proof {
            assert(b3.skip(cb3 as int).len() == a.skip((c0 + (prev.0.element_count() + prev.1.element_count() + prev.2.element_count())) as int).len());
        }
        self.3.seq_rebuild(&prev.3, elements);
        let ghost f3 = elements.items();
        proof {
            assert(self.3.seq_rebuilds(
                &prev.3,
                a.subrange(c0 + (prev.0.element_count() + prev.1.element_count() + prev.2.element_count()) as int, c0 + (prev.0.element_count() + prev.1.element_count() + prev.2.element_count() + prev.3.element_count()) as int),
                f3.subrange(cb3 as int, (cb3 + self.3.element_count()) as int),
            )) by {
                lemma_sub_shift(a, b3, (c0 + (prev.0.element_count() + prev.1.element_count() + prev.2.element_count())) as int, cb3 as int, prev.3.element_count() as int);
            }
            lemma_kept_compose(a, c0, (prev.0.element_count() + prev.1.element_count() + prev.2.element_count()), b3, cb3, prev.3.element_count(), elements.items(), elements.cursor());
        }
        let ghost ce = elements.cursor();
        proof {
            let fin = elements.items();
            assert(fin.take(ce as int) =~= f3.take(ce as int));
            lemma_take_link(fin, f3, f2, cb3 as int, ce as int);
            lemma_take_link(fin, f2, f1, cb2 as int, cb3 as int);
            lemma_take_link(fin, f1, f0, cb1 as int, cb2 as int);
            assert(self.0.seq_rebuilds(
                &prev.0,
                region(a, c0, prev.element_count()).subrange(0int, (prev.0.element_count()) as int),
                region(fin, c0, self.element_count()).subrange(0int, (self.0.element_count()) as int),
            )) by {
                lemma_sub_stable(fin, f0, cb1 as int, cb0 as int, cb1 as int);
                assert(region(fin, c0, self.element_count()).subrange(0int, (self.0.element_count()) as int) =~= fin.subrange(cb0 as int, cb1 as int));
                assert(region(a, c0, prev.element_count()).subrange(0int, (prev.0.element_count()) as int) =~= a.subrange(c0 + 0int, c0 + (prev.0.element_count()) as int));
            }
            assert(self.1.seq_rebuilds(
                &prev.1,
                region(a, c0, prev.element_count()).subrange((prev.0.element_count()) as int, (prev.0.element_count() + prev.1.element_count()) as int),
                region(fin, c0, self.element_count()).subrange((self.0.element_count()) as int, (self.0.element_count() + self.1.element_count()) as int),
            )) by {
                lemma_sub_stable(fin, f1, cb2 as int, cb1 as int, cb2 as int);
                assert(region(fin, c0, self.element_count()).subrange((self.0.element_count()) as int, (self.0.element_count() + self.1.element_count()) as int) =~= fin.subrange(cb1 as int, cb2 as int));
                assert(region(a, c0, prev.element_count()).subrange((prev.0.element_count()) as int, (prev.0.element_count() + prev.1.element_count()) as int) =~= a.subrange(c0 + (prev.0.element_count()) as int, c0 + (prev.0.element_count() + prev.1.element_count()) as int));
            }
            assert(self.2.seq_rebuilds(
                &prev.2,
                region(a, c0, prev.element_count()).subrange((prev.0.element_count() + prev.1.element_count()) as int, (prev.0.element_count() + prev.1.element_count() + prev.2.element_count()) as int),
                region(fin, c0, self.element_count()).subrange((self.0.element_count() + self.1.element_count()) as int, (self.0.element_count() + self.1.element_count() + self.2.element_count()) as int),
            )) by {
                lemma_sub_stable(fin, f2, cb3 as int, cb2 as int, cb3 as int);
                assert(region(fin, c0, self.element_count()).subrange((self.0.element_count() + self.1.element_count()) as int, (self.0.element_count() + self.1.element_count() + self.2.element_count()) as int) =~= fin.subrange(cb2 as int, cb3 as int));
                assert(region(a, c0, prev.element_count()).subrange((prev.0.element_count() + prev.1.element_count()) as int, (prev.0.element_count() + prev.1.element_count() + prev.2.element_count()) as int) =~= a.subrange(c0 + (prev.0.element_count() + prev.1.element_count()) as int, c0 + (prev.0.element_count() + prev.1.element_count() + prev.2.element_count()) as int));
            }
            assert(self.3.seq_rebuilds(
                &prev.3,
                region(a, c0, prev.element_count()).subrange((prev.0.element_count() + prev.1.element_count() + prev.2.element_count()) as int, (prev.0.element_count() + prev.1.element_count() + prev.2.element_count() + prev.3.element_count()) as int),
                region(fin, c0, self.element_count()).subrange((self.0.element_count() + self.1.element_count() + self.2.element_count()) as int, (self.0.element_count() + self.1.element_count() + self.2.element_count() + self.3.element_count()) as int),
            )) by {
                assert(region(fin, c0, self.element_count()).subrange((self.0.element_count() + self.1.element_count() + self.2.element_count()) as int, (self.0.element_count() + self.1.element_count() + self.2.element_count() + self.3.element_count()) as int) =~= fin.subrange(cb3 as int, ce as int));
                assert(region(a, c0, prev.element_count()).subrange((prev.0.element_count() + prev.1.element_count() + prev.2.element_count()) as int, (prev.0.element_count() + prev.1.element_count() + prev.2.element_count() + prev.3.element_count()) as int) =~= a.subrange(c0 + (prev.0.element_count() + prev.1.element_count() + prev.2.element_count()) as int, c0 + (prev.0.element_count() + prev.1.element_count() + prev.2.element_count() + prev.3.element_count()) as int));
            }
        }
    }

    fn seq_teardown<Splice: ElementSplice<Element>>(&self, elements: &mut Splice) {
        let ghost a = elements.items();
        let ghost c0 = elements.cursor();
        proof {
            lemma_kept_refl(a, c0);
        }
        let ghost b0 = elements.items();
        let ghost cb0 = elements.cursor();
        proof {
            assert(b0.skip(cb0 as int).len() == a.skip((c0 + 0) as int).len());
        }
        self.0.seq_teardown(elements);
        proof {
            assert(self.0.seq_tears_down(region(a, c0, self.element_count()).subrange(0int, (self.0.element_count()) as int))) by {
                lemma_sub_shift(a, b0, (c0 + 0) as int, cb0 as int, self.0.element_count() as int);
                assert(region(a, c0, self.element_count()).subrange(0int, (self.0.element_count()) as int) =~= a.subrange(c0 + 0int, c0 + (self.0.element_count()) as int));
            }
            lemma_kept_compose(a, c0, 0, b0, cb0, self.0.element_count(), elements.items(), elements.cursor());
        }
        let ghost b1 = elements.items();
        let ghost cb1 = elements.cursor();
        proof {
            assert(b1.skip(cb1 as int).len() == a.skip((c0 + (self.0.element_count())) as int).len());
        }
        self.1.seq_teardown(elements);
        proof {
            assert(self.1.seq_tears_down(region(a, c0, self.element_count()).subrange((self.0.element_count()) as int, (self.0.element_count() + self.1.element_count()) as int))) by {
                lemma_sub_shift(a, b1, (c0 + (self.0.element_count())) as int, cb1 as int, self.1.element_count() as int);
                assert(region(a, c0, self.element_count()).subrange((self.0.element_count()) as int, (self.0.element_count() + self.1.element_count()) as int) =~= a.subrange(c0 + (self.0.element_count()) as int, c0 + (self.0.element_count() + self.1.element_count()) as int));
            }
            lemma_kept_compose(a, c0, (self.0.element_count()), b1, cb1, self.1.element_count(), elements.items(), elements.cursor());
        }
        let ghost b2 = elements.items();
        let ghost cb2 = elements.cursor();
        proof {
            assert(b2.skip(cb2 as int).len() == a.skip((c0 + (self.0.element_count() + self.1.element_count())) as int).len());
        }
        self.2.seq_teardown(elements);
        proof {
            assert(self.2.seq_tears_down(region(a, c0, self.element_count()).subrange((self.0.element_count() + self.1.element_count()) as int, (self.0.element_count() + self.1.element_count() + self.2.element_count()) as int))) by {
                lemma_sub_shift(a, b2, (c0 + (self.0.element_count() + self.1.element_count())) as int, cb2 as int, self.2.element_count() as int);
                assert(region(a, c0, self.element_count()).subrange((self.0.element_count() + self.1.element_count()) as int, (self.0.element_count() + self.1.element_count() + self.2.element_count()) as int) =~= a.subrange(c0 + (self.0.element_count() + self.1.element_count()) as int, c0 + (self.0.element_count() + self.1.element_count() + self.2.element_count()) as int));
            }
            lemma_kept_compose(a, c0, (self.0.element_count() + self.1.element_count()), b2, cb2, self.2.element_count(), elements.items(), elements.cursor());
        }
        let ghost b3 = elements.items();
        let ghost cb3 = elements.cursor();
        proof {
            assert(b3.skip(cb3 as int).len() == a.skip((c0 + (self.0.element_count() + self.1.element_count() + self.2.element_count())) as int).len());
        }
        self.3.seq_teardown(elements);
        proof {
            assert(self.3.seq_tears_down(region(a, c0, self.element_count()).subrange((self.0.element_count() + self.1.element_count() + self.2.element_count()) as int, (self.0.element_count() + self.1.element_count() + self.2.element_count() + self.3.element_count()) as int))) by {
                lemma_sub_shift(a, b3, (c0 + (self.0.element_count() + self.1.element_count() + self.2.element_count())) as int, cb3 as int, self.3.element_count() as int);
                assert(region(a, c0, self.element_count()).subrange((self.0.element_count() + self.1.element_count() + self.2.element_count()) as int, (self.0.element_count() + self.1.element_count() + self.2.element_count() + self.3.element_count()) as int) =~= a.subrange(c0 + (self.0.element_count() + self.1.element_count() + self.2.element_count()) as int, c0 + (self.0.element_count() + self.1.element_count() + self.2.element_count() + self.3.element_count()) as int));
            }
            lemma_kept_compose(a, c0, (self.0.element_count() + self.1.element_count() + self.2.element_count()), b3, cb3, self.3.element_count(), elements.items(), elements.cursor());
        }
    }
}

/// A tuple of 5 sequences builds the elements of each, in order.
impl<State, Element, S0, S1, S2, S3, S4> ViewSequence<State, Element> for (S0, S1, S2, S3, S4,) where
    S0: ViewSequence<State, Element>,
    S1: ViewSequence<State, Element>,
    S2: ViewSequence<State, Element>,
    S3: ViewSequence<State, Element>,
    S4: ViewSequence<State, Element>,
 {
    open spec fn element_count(&self) -> nat {
        self.0.element_count() + self.1.element_count() + self.2.element_count() + self.3.element_count() + self.4.element_count()
    }

    open spec fn seq_builds(&self, out: Seq<Element>) -> bool {
        &&& out.len() == self.element_count()
        &&& self.0.seq_builds(out.subrange(0int, (self.0.element_count()) as int))
        &&& self.1.seq_builds(out.subrange((self.0.element_count()) as int, (self.0.element_count() + self.1.element_count()) as int))
        &&& self.2.seq_builds(out.subrange((self.0.element_count() + self.1.element_count()) as int, (self.0.element_count() + self.1.element_count() + self.2.element_count()) as int))
        &&& self.3.seq_builds(out.subrange((self.0.element_count() + self.1.element_count() + self.2.element_count()) as int, (self.0.element_count() + self.1.element_count() + self.2.element_count() + self.3.element_count()) as int))
        &&& self.4.seq_builds(out.subrange((self.0.element_count() + self.1.element_count() + self.2.element_count() + self.3.element_count()) as int, (self.0.element_count() + self.1.element_count() + self.2.element_count() + self.3.element_count() + self.4.element_count()) as int))
    }

    open spec fn seq_rebuilds(&self, prev: &Self, before: Seq<Element>, after: Seq<Element>) -> bool {
        &&& before.len() == prev.element_count()
        &&& after.len() == self.element_count()
        &&& self.0.seq_rebuilds(
            &prev.0,
            before.subrange(0int, (prev.0.element_count()) as int),
            after.subrange(0int, (self.0.element_count()) as int),
        )
        &&& self.1.seq_rebuilds(
            &prev.1,
            before.subrange((prev.0.element_count()) as int, (prev.0.element_count() + prev.1.element_count()) as int),
            after.subrange((self.0.element_count()) as int, (self.0.element_count() + self.1.element_count()) as int),
        )
        &&& self.2.seq_rebuilds(
            &prev.2,
            before.subrange((prev.0.element_count() + prev.1.element_count()) as int, (prev.0.element_count() + prev.1.element_count() + prev.2.element_count()) as int),
            after.subrange((self.0.element_count() + self.1.element_count()) as int, (self.0.element_count() + self.1.element_count() + self.2.element_count()) as int),
        )
        &&& self.3.seq_rebuilds(
            &prev.3,
            before.subrange((prev.0.element_count() + prev.1.element_count() + prev.2.element_count()) as int, (prev.0.element_count() + prev.1.element_count() + prev.2.element_count() + prev.3.element_count()) as int),
            after.subrange((self.0.element_count() + self.1.element_count() + self.2.element_count()) as int, (self.0.element_count() + self.1.element_count() + self.2.element_count() + self.3.element_count()) as int),
        )
        &&& self.4.seq_rebuilds(
            &prev.4,
            before.subrange((prev.0.element_count() + prev.1.element_count() + prev.2.element_count() + prev.3.element_count()) as int, (prev.0.element_count() + prev.1.element_count() + prev.2.element_count() + prev.3.element_count() + prev.4.element_count()) as int),
            after.subrange((self.0.element_count() + self.1.element_count() + self.2.element_count() + self.3.element_count()) as int, (self.0.element_count() + self.1.element_count() + self.2.element_count() + self.3.element_count() + self.4.element_count()) as int),
        )
    }

    open spec fn seq_tears_down(&self, before: Seq<Element>) -> bool {
        &&& before.len() == self.element_count()
        &&& self.0.seq_tears_down(before.subrange(0int, (self.0.element_count()) as int))
        &&& self.1.seq_tears_down(before.subrange((self.0.element_count()) as int, (self.0.element_count() + self.1.element_count()) as int))
        &&& self.2.seq_tears_down(before.subrange((self.0.element_count() + self.1.element_count()) as int, (self.0.element_count() + self.1.element_count() + self.2.element_count()) as int))
        &&& self.3.seq_tears_down(before.subrange((self.0.element_count() + self.1.element_count() + self.2.element_count()) as int, (self.0.element_count() + self.1.element_count() + self.2.element_count() + self.3.element_count()) as int))
        &&& self.4.seq_tears_down(before.subrange((self.0.element_count() + self.1.element_count() + self.2.element_count() + self.3.element_count()) as int, (self.0.element_count() + self.1.element_count() + self.2.element_count() + self.3.element_count() + self.4.element_count()) as int))
    }

    #[verifier::spinoff_prover]
    #[verifier::rlimit(100)]
    fn seq_build(&self, elements: &mut Vec<Element>) {
        let ghost start = elements@;
        let ghost sl = start.len() as int;
        let ghost b0 = elements@;
        self.0.seq_build(elements);
        let ghost f0 = elements@;
        let ghost b1 = elements@;
        self.1.seq_build(elements);
        let ghost f1 = elements@;
        proof {
            lemma_prefix_kept(start, b1, elements@);
        }
        let ghost b2 = elements@;
        self.2.seq_build(elements);
        let ghost f2 = elements@;
        proof {
            lemma_prefix_kept(start, b2, elements@);
        }
        let ghost b3 = elements@;
        self.3.seq_build(elements);
        let ghost f3 = elements@;
        proof {
            lemma_prefix_kept(start, b3, elements@);
        }
        let ghost b4 = elements@;
        self.4.seq_build(elements);
        let ghost f4 = elements@;
        proof {
            lemma_prefix_kept(start, b4, elements@);
        }
        proof {
            let fin = elements@;
            assert(fin.take(fin.len() as int) =~= f4.take(fin.len() as int));
            assert(f4.take(b4.len() as int) == b4);
            assert(b4.take(b4.len() as int) =~= b4);
            lemma_take_link(fin, f4, b4, b4.len() as int, fin.len() as int);
            assert(b3.take(b3.len() as int) =~= b3);
            lemma_take_link(fin, f3, b3, b3.len() as int, b4.len() as int);
            assert(b2.take(b2.len() as int) =~= b2);
            lemma_take_link(fin, f2, b2, b2.len() as int, b3.len() as int);
            assert(b1.take(b1.len() as int) =~= b1);
            lemma_take_link(fin, f1, b1, b1.len() as int, b2.len() as int);
            assert(self.0.seq_builds(fin.skip(sl).subrange(0int, (self.0.element_count()) as int))) by {
                lemma_sub_stable(fin, f0, b1.len() as int, sl + 0int, sl + (self.0.element_count()) as int);
                assert(f0.skip(b0.len() as int) =~= f0.subrange(sl + 0int, sl + (self.0.element_count()) as int));
                assert(fin.skip(sl).subrange(0int, (self.0.element_count()) as int) =~= fin.subrange(sl + 0int, sl + (self.0.element_count()) as int));
            }
            assert(self.1.seq_builds(fin.skip(sl).subrange((self.0.element_count()) as int, (self.0.element_count() + self.1.element_count()) as int))) by {
                lemma_sub_stable(fin, f1, b2.len() as int, sl + (self.0.element_count()) as int, sl + (self.0.element_count() + self.1.element_count()) as int);
                assert(f1.skip(b1.len() as int) =~= f1.subrange(sl + (self.0.element_count()) as int, sl + (self.0.element_count() + self.1.element_count()) as int));
                assert(fin.skip(sl).subrange((self.0.element_count()) as int, (self.0.element_count() + self.1.element_count()) as int) =~= fin.subrange(sl + (self.0.element_count()) as int, sl + (self.0.element_count() + self.1.element_count()) as int));
            }
            assert(self.2.seq_builds(fin.skip(sl).subrange((self.0.element_count() + self.1.element_count()) as int, (self.0.element_count() + self.1.element_count() + self.2.element_count()) as int))) by {
                lemma_sub_stable(fin, f2, b3.len() as int, sl + (self.0.element_count() + self.1.element_count()) as int, sl + (self.0.element_count() + self.1.element_count() + self.2.element_count()) as int);
                assert(f2.skip(b2.len() as int) =~= f2.subrange(sl + (self.0.element_count() + self.1.element_count()) as int, sl + (self.0.element_count() + self.1.element_count() + self.2.element_count()) as int));
                assert(fin.skip(sl).subrange((self.0.element_count() + self.1.element_count()) as int, (self.0.element_count() + self.1.element_count() + self.2.element_count()) as int) =~= fin.subrange(sl + (self.0.element_count() + self.1.element_count()) as int, sl + (self.0.element_count() + self.1.element_count() + self.2.element_count()) as int));
            }
            assert(self.3.seq_builds(fin.skip(sl).subrange((self.0.element_count() + self.1.element_count() + self.2.element_count()) as int, (self.0.element_count() + self.1.element_count() + self.2.element_count() + self.3.element_count()) as int))) by {
                lemma_sub_stable(fin, f3, b4.len() as int, sl + (self.0.element_count() + self.1.element_count() + self.2.element_count()) as int, sl + (self.0.element_count() + self.1.element_count() + self.2.element_count() + self.3.element_count()) as int);
                assert(f3.skip(b3.len() as int) =~= f3.subrange(sl + (self.0.element_count() + self.1.element_count() + self.2.element_count()) as int, sl + (self.0.element_count() + self.1.element_count() + self.2.element_count() + self.3.element_count()) as int));
                assert(fin.skip(sl).subrange((self.0.element_count() + self.1.element_count() + self.2.element_count()) as int, (self.0.element_count() + self.1.element_count() + self.2.element_count() + self.3.element_count()) as int) =~= fin.subrange(sl + (self.0.element_count() + self.1.element_count() + self.2.element_count()) as int, sl + (self.0.element_count() + self.1.element_count() + self.2.element_count() + self.3.element_count()) as int));
            }
            assert(self.4.seq_builds(fin.skip(sl).subrange((self.0.element_count() + self.1.element_count() + self.2.element_count() + self.3.element_count()) as int, (self.0.element_count() + self.1.element_count() + self.2.element_count() + self.3.element_count() + self.4.element_count()) as int))) by {
                assert(f4.skip(b4.len() as int) =~= f4.subrange(sl + (self.0.element_count() + self.1.element_count() + self.2.element_count() + self.3.element_count()) as int, sl + (self.0.element_count() + self.1.element_count() + self.2.element_count() + self.3.element_count() + self.4.element_count()) as int));
                assert(fin.skip(sl).subrange((self.0.element_count() + self.1.element_count() + self.2.element_count() + self.3.element_count()) as int, (self.0.element_count() + self.1.element_count() + self.2.element_count() + self.3.element_count() + self.4.element_count()) as int) =~= fin.subrange(sl + (self.0.element_count() + self.1.element_count() + self.2.element_count() + self.3.element_count()) as int, sl + (self.0.element_count() + self.1.element_count() + self.2.element_count() + self.3.element_count() + self.4.element_count()) as int));
            }
        }
    }

    #[verifier::spinoff_prover]
    #[verifier::rlimit(100)]
    fn seq_rebuild<Splice: ElementSplice<Element>>(&self, prev: &Self, elements: &mut Splice) {
        let ghost a = elements.items();
        let ghost c0 = elements.cursor();
        proof {
            lemma_kept_refl(a, c0);
        }
        let ghost b0 = elements.items();
        let ghost cb0 = elements.cursor();
        proof {
            assert(b0.skip(cb0 as int).len() == a.skip((c0 + 0) as int).len());
        }
        self.0.seq_rebuild(&prev.0, elements);
        let ghost f0 = elements.items();
        proof {
            assert(self.0.seq_rebuilds(
                &prev.0,
                a.subrange(c0 + 0int, c0 + (prev.0.element_count()) as int),
                f0.subrange(cb0 as int, (cb0 + self.0.element_count()) as int),
            )) by {
                lemma_sub_shift(a, b0, (c0 + 0) as int, cb0 as int, prev.0.element_count() as int);
            }
            lemma_kept_compose(a, c0, 0, b0, cb0, prev.0.element_count(), elements.items(), elements.cursor());
        }
        let ghost b1 = elements.items();
        let ghost cb1 = elements.cursor();
        proof {
            assert(b1.skip(cb1 as int).len() == a.skip((c0 + (prev.0.element_count())) as int).len());
        }
        self.1.seq_rebuild(&prev.1, elements);
        let ghost f1 = elements.items();
        proof {
            assert(self.1.seq_rebuilds(
                &prev.1,
                a.subrange(c0 + (prev.0.element_count()) as int, c0 + (prev.0.element_count() + prev.1.element_count()) as int),
                f1.subrange(cb1 as int, (cb1 + self.1.element_count()) as int),
            )) by {
                lemma_sub_shift(a, b1, (c0 + (prev.0.element_count())) as int, cb1 as int, prev.1.element_count() as int);
            }
            lemma_kept_compose(a, c0, (prev.0.element_count()), b1, cb1, prev.1.element_count(), elements.items(), elements.cursor());
        }
        let ghost b2 = elements.items();
        let ghost cb2 = elements.cursor();
        proof {
            assert(b2.skip(cb2 as int).len() == a.skip((c0 + (prev.0.element_count() + prev.1.element_count())) as int).len());
        }
        self.2.seq_rebuild(&prev.2, elements);
        let ghost f2 = elements.items();
        proof {
            assert(self.2.seq_rebuilds(
                &prev.2,
                a.subrange(c0 + (prev.0.element_count() + prev.1.element_count()) as int, c0 + (prev.0.element_count() + prev.1.element_count() + prev.2.element_count()) as int),
                f2.subrange(cb2 as int, (cb2 + self.2.element_count()) as int),
            )) by {
                lemma_sub_shift(a, b2, (c0 + (prev.0.element_count() + prev.1.element_count())) as int, cb2 as int, prev.2.element_count() as int);
            }
            lemma_kept_compose(a, c0, (prev.0.element_count() + prev.1.element_count()), b2, cb2, prev.2.element_count(), elements.items(), elements.cursor());
        }
        let ghost b3 = elements.items();
        let ghost cb3 = elements.cursor();
        proof {
            assert(b3.skip(cb3 as int).len() == a.skip((c0 + (prev.0.element_count() + prev.1.element_count() + prev.2.element_count())) as int).len());
        }
        self.3.seq_rebuild(&prev.3, elements);
        let ghost f3 = elements.items();
        proof {
            assert(self.3.seq_rebuilds(
                &prev.3,
                a.subrange(c0 + (prev.0.element_count() + prev.1.element_count() + prev.2.element_count()) as int, c0 + (prev.0.element_count() + prev.1.element_count() + prev.2.element_count() + prev.3.element_count()) as int),
                f3.subrange(cb3 as int, (cb3 + self.3.element_count()) as int),
            )) by {
                lemma_sub_shift(a, b3, (c0 + (prev.0.element_count() + prev.1.element_count() + prev.2.element_count())) as int, cb3 as int, prev.3.element_count() as int);
            }
            lemma_kept_compose(a, c0, (prev.0.element_count() + prev.1.element_count() + prev.2.element_count()), b3, cb3, prev.3.element_count(), elements.items(), elements.cursor());
        }
        let ghost b4 = elements.items();
        let ghost cb4 = elements.cursor();
        proof {
            assert(b4.skip(cb4 as int).len() == a.skip((c0 + (prev.0.element_count() + prev.1.element_count() + prev.2.element_count() + prev.3.element_count())) as int).len());
        }
        self.4.seq_rebuild(&prev.4, elements);
        let ghost f4 = elements.items();
        proof {
            assert(self.4.seq_rebuilds(
                &prev.4,
                a.subrange(c0 + (prev.0.element_count() + prev.1.element_count() + prev.2.element_count() + prev.3.element_count()) as int, c0 + (prev.0.element_count() + prev.1.element_count() + prev.2.element_count() + prev.3.element_count() + prev.4.element_count()) as int),
                f4.subrange(cb4 as int, (cb4 + self.4.element_count()) as int),
            )) by {
                lemma_sub_shift(a, b4, (c0 + (prev.0.element_count() + prev.1.element_count() + prev.2.element_count() + prev.3.element_count())) as int, cb4 as int, prev.4.element_count() as int);
            }
            lemma_kept_compose(a, c0, (prev.0.element_count() + prev.1.element_count() + prev.2.element_count() + prev.3.element_count()), b4, cb4, prev.4.element_count(), elements.items(), elements.cursor());
        }
        let ghost ce = elements.cursor();
        proof {
            let fin = elements.items();
            assert(fin.take(ce as int) =~= f4.take(ce as int));
            lemma_take_link(fin, f4, f3, cb4 as int, ce as int);
            lemma_take_link(fin, f3, f2, cb3 as int, cb4 as int);
            lemma_take_link(fin, f2, f1, cb2 as int, cb3 as int);
            lemma_take_link(fin, f1, f0, cb1 as int, cb2 as int);
            assert(self.0.seq_rebuilds(
                &prev.0,
                region(a, c0, prev.element_count()).subrange(0int, (prev.0.element_count()) as int),
                region(fin, c0, self.element_count()).subrange(0int, (self.0.element_count()) as int),
            )) by {
                lemma_sub_stable(fin, f0, cb1 as int, cb0 as int, cb1 as int);
                assert(region(fin, c0, self.element_count()).subrange(0int, (self.0.element_count()) as int) =~= fin.subrange(cb0 as int, cb1 as int));
                assert(region(a, c0, prev.element_count()).subrange(0int, (prev.0.element_count()) as int) =~= a.subrange(c0 + 0int, c0 + (prev.0.element_count()) as int));
            }
            assert(self.1.seq_rebuilds(
                &prev.1,
                region(a, c0, prev.element_count()).subrange((prev.0.element_count()) as int, (prev.0.element_count() + prev.1.element_count()) as int),
                region(fin, c0, self.element_count()).subrange((self.0.element_count()) as int, (self.0.element_count() + self.1.element_count()) as int),
            )) by {
                lemma_sub_stable(fin, f1, cb2 as int, cb1 as int, cb2 as int);
                assert(region(fin, c0, self.element_count()).subrange((self.0.element_count()) as int, (self.0.element_count() + self.1.element_count()) as int) =~= fin.subrange(cb1 as int, cb2 as int));
                assert(region(a, c0, prev.element_count()).subrange((prev.0.element_count()) as int, (prev.0.element_count() + prev.1.element_count()) as int) =~= a.subrange(c0 + (prev.0.element_count()) as int, c0 + (prev.0.element_count() + prev.1.element_count()) as int));
            }
            assert(self.2.seq_rebuilds(
                &prev.2,
                region(a, c0, prev.element_count()).subrange((prev.0.element_count() + prev.1.element_count()) as int, (prev.0.element_count() + prev.1.element_count() + prev.2.element_count()) as int),
                region(fin, c0, self.element_count()).subrange((self.0.element_count() + self.1.element_count()) as int, (self.0.element_count() + self.1.element_count() + self.2.element_count()) as int),
            )) by {
                lemma_sub_stable(fin, f2, cb3 as int, cb2 as int, cb3 as int);
                assert(region(fin, c0, self.element_count()).subrange((self.0.element_count() + self.1.element_count()) as int, (self.0.element_count() + self.1.element_count() + self.2.element_count()) as int) =~= fin.subrange(cb2 as int, cb3 as int));
                assert(region(a, c0, prev.element_count()).subrange((prev.0.element_count() + prev.1.element_count()) as int, (prev.0.element_count() + prev.1.element_count() + prev.2.element_count()) as int) =~= a.subrange(c0 + (prev.0.element_count() + prev.1.element_count()) as int, c0 + (prev.0.element_count() + prev.1.element_count() + prev.2.element_count()) as int));
            }
            assert(self.3.seq_rebuilds(
                &prev.3,
                region(a, c0, prev.element_count()).subrange((prev.0.element_count() + prev.1.element_count() + prev.2.element_count()) as int, (prev.0.element_count() + prev.1.element_count() + prev.2.element_count() + prev.3.element_count()) as int),
                region(fin, c0, self.element_count()).subrange((self.0.element_count() + self.1.element_count() + self.2.element_count()) as int, (self.0.element_count() + self.1.element_count() + self.2.element_count() + self.3.element_count()) as int),
            )) by {
                lemma_sub_stable(fin, f3, cb4 as int, cb3 as int, cb4 as int);
                assert(region(fin, c0, self.element_count()).subrange((self.0.element_count() + self.1.element_count() + self.2.element_count()) as int, (self.0.element_count() + self.1.element_count() + self.2.element_count() + self.3.element_count()) as int) =~= fin.subrange(cb3 as int, cb4 as int));
                assert(region(a, c0, prev.element_count()).subrange((prev.0.element_count() + prev.1.element_count() + prev.2.element_count()) as int, (prev.0.element_count() + prev.1.element_count() + prev.2.element_count() + prev.3.element_count()) as int) =~= a.subrange(c0 + (prev.0.element_count() + prev.1.element_count() + prev.2.element_count()) as int, c0 + (prev.0.element_count() + prev.1.element_count() + prev.2.element_count() + prev.3.element_count()) as int));
            }
            assert(self.4.seq_rebuilds(
                &prev.4,
                region(a, c0, prev.element_count()).subrange((prev.0.element_count() + prev.1.element_count() + prev.2.element_count() + prev.3.element_count()) as int, (prev.0.element_count() + prev.1.element_count() + prev.2.element_count() + prev.3.element_count() + prev.4.element_count()) as int),
                region(fin, c0, self.element_count()).subrange((self.0.element_count() + self.1.element_count() + self.2.element_count() + self.3.element_count()) as int, (self.0.element_count() + self.1.element_count() + self.2.element_count() + self.3.element_count() + self.4.element_count()) as int),
            )) by {
                assert(region(fin, c0, self.element_count()).subrange((self.0.element_count() + self.1.element_count() + self.2.element_count() + self.3.element_count()) as int, (self.0.element_count() + self.1.element_count() + self.2.element_count() + self.3.element_count() + self.4.element_count()) as int) =~= fin.subrange(cb4 as int, ce as int));
                assert(region(a, c0, prev.element_count()).subrange((prev.0.element_count() + prev.1.element_count() + prev.2.element_count() + prev.3.element_count()) as int, (prev.0.element_count() + prev.1.element_count() + prev.2.element_count() + prev.3.element_count() + prev.4.element_count()) as int) =~= a.subrange(c0 + (prev.0.element_count() + prev.1.element_count() + prev.2.element_count() + prev.3.element_count()) as int, c0 + (prev.0.element_count() + prev.1.element_count() + prev.2.element_count() + prev.3.element_count() + prev.4.element_count()) as int));
            }
        }
    }

    #[verifier::spinoff_prover]
    #[verifier::rlimit(100)]
    fn seq_teardown<Splice: ElementSplice<Element>>(&self, elements: &mut Splice) {
        let ghost a = elements.items();
        let ghost c0 = elements.cursor();
        proof {
            lemma_kept_refl(a, c0);
        }
        let ghost b0 = elements.items();
        let ghost cb0 = elements.cursor();
        proof {
            assert(b0.skip(cb0 as int).len() == a.skip((c0 + 0) as int).len());
        }
        self.0.seq_teardown(elements);
        proof {
            assert(self.0.seq_tears_down(region(a, c0, self.element_count()).subrange(0int, (self.0.element_count()) as int))) by {
                lemma_sub_shift(a, b0, (c0 + 0) as int, cb0 as int, self.0.element_count() as int);
                assert(region(a, c0, self.element_count()).subrange(0int, (self.0.element_count()) as int) =~= a.subrange(c0 + 0int, c0 + (self.0.element_count()) as int));
            }
            lemma_kept_compose(a, c0, 0, b0, cb0, self.0.element_count(), elements.items(), elements.cursor());
        }
        let ghost b1 = elements.items();
        let ghost cb1 = elements.cursor();
        proof {
            assert(b1.skip(cb1 as int).len() == a.skip((c0 + (self.0.element_count())) as int).len());
        }
        self.1.seq_teardown(elements);
        proof {
            assert(self.1.seq_tears_down(region(a, c0, self.element_count()).subrange((self.0.element_count()) as int, (self.0.element_count() + self.1.element_count()) as int))) by {
                lemma_sub_shift(a, b1, (c0 + (self.0.element_count())) as int, cb1 as int, self.1.element_count() as int);
                assert(region(a, c0, self.element_count()).subrange((self.0.element_count()) as int, (self.0.element_count() + self.1.element_count()) as int) =~= a.subrange(c0 + (self.0.element_count()) as int, c0 + (self.0.element_count() + self.1.element_count()) as int));
            }
            lemma_kept_compose(a, c0, (self.0.element_count()), b1, cb1, self.1.element_count(), elements.items(), elements.cursor());
        }
        let ghost b2 = elements.items();
        let ghost cb2 = elements.cursor();
        proof {
            assert(b2.skip(cb2 as int).len() == a.skip((c0 + (self.0.element_count() + self.1.element_count())) as int).len());
        }
        self.2.seq_teardown(elements);
        proof {
            assert(self.2.seq_tears_down(region(a, c0, self.element_count()).subrange((self.0.element_count() + self.1.element_count()) as int, (self.0.element_count() + self.1.element_count() + self.2.element_count()) as int))) by {
                lemma_sub_shift(a, b2, (c0 + (self.0.element_count() + self.1.element_count())) as int, cb2 as int, self.2.element_count() as int);
                assert(region(a, c0, self.element_count()).subrange((self.0.element_count() + self.1.element_count()) as int, (self.0.element_count() + self.1.element_count() + self.2.element_count()) as int) =~= a.subrange(c0 + (self.0.element_count() + self.1.element_count()) as int, c0 + (self.0.element_count() + self.1.element_count() + self.2.element_count()) as int));
            }
            lemma_kept_compose(a, c0, (self.0.element_count() + self.1.element_count()), b2, cb2, self.2.element_count(), elements.items(), elements.cursor());
        }
        let ghost b3 = elements.items();
        let ghost cb3 = elements.cursor();
        proof {
            assert(b3.skip(cb3 as int).len() == a.skip((c0 + (self.0.element_count() + self.1.element_count() + self.2.element_count())) as int).len());
        }
        self.3.seq_teardown(elements);
        proof {
            assert(self.3.seq_tears_down(region(a, c0, self.element_count()).subrange((self.0.element_count() + self.1.element_count() + self.2.element_count()) as int, (self.0.element_count() + self.1.element_count() + self.2.element_count() + self.3.element_count()) as int))) by {
                lemma_sub_shift(a, b3, (c0 + (self.0.element_count() + self.1.element_count() + self.2.element_count())) as int, cb3 as int, self.3.element_count() as int);
                assert(region(a, c0, self.element_count()).subrange((self.0.element_count() + self.1.element_count() + self.2.element_count()) as int, (self.0.element_count() + self.1.element_count() + self.2.element_count() + self.3.element_count()) as int) =~= a.subrange(c0 + (self.0.element_count() + self.1.element_count() + self.2.element_count()) as int, c0 + (self.0.element_count() + self.1.element_count() + self.2.element_count() + self.3.element_count()) as int));
            }
            lemma_kept_compose(a, c0, (self.0.element_count() + self.1.element_count() + self.2.element_count()), b3, cb3, self.3.element_count(), elements.items(), elements.cursor());
        }
        let ghost b4 = elements.items();
        let ghost cb4 = elements.cursor();
        proof {
            assert(b4.skip(cb4 as int).len() == a.skip((c0 + (self.0.element_count() + self.1.element_count() + self.2.element_count() + self.3.element_count())) as int).len());
        }
        self.4.seq_teardown(elements);
        proof {
            assert(self.4.seq_tears_down(region(a, c0, self.element_count()).subrange((self.0.element_count() + self.1.element_count() + self.2.element_count() + self.3.element_count()) as int, (self.0.element_count() + self.1.element_count() + self.2.element_count() + self.3.element_count() + self.4.element_count()) as int))) by {
                lemma_sub_shift(a, b4, (c0 + (self.0.element_count() + self.1.element_count() + self.2.element_count() + self.3.element_count())) as int, cb4 as int, self.4.element_count() as int);
                assert(region(a, c0, self.element_count()).subrange((self.0.element_count() + self.1.element_count() + self.2.element_count() + self.3.element_count()) as int, (self.0.element_count() + self.1.element_count() + self.2.element_count() + self.3.element_count() + self.4.element_count()) as int) =~= a.subrange(c0 + (self.0.element_count() + self.1.element_count() + self.2.element_count() + self.3.element_count()) as int, c0 + (self.0.element_count() + self.1.element_count() + self.2.element_count() + self.3.element_count() + self.4.element_count()) as int));
            }
            lemma_kept_compose(a, c0, (self.0.element_count() + self.1.element_count() + self.2.element_count() + self.3.element_count()), b4, cb4, self.4.element_count(), elements.items(), elements.cursor());
        }
    }
}

/// A tuple of 6 sequences builds the elements of each, in order.
impl<State, Element, S0, S1, S2, S3, S4, S5> ViewSequence<State, Element> for (S0, S1, S2, S3, S4, S5,) where
    S0: ViewSequence<State, Element>,
    S1: ViewSequence<State, Element>,
    S2: ViewSequence<State, Element>,
    S3: ViewSequence<State, Element>,
    S4: ViewSequence<State, Element>,
    S5: ViewSequence<State, Element>,
 {
    open spec fn element_count(&self) -> nat {
        self.0.element_count() + self.1.element_count() + self.2.element_count() + self.3.element_count() + self.4.element_count() + self.5.element_count()
    }

    open spec fn seq_builds(&self, out: Seq<Element>) -> bool {
        &&& out.len() == self.element_count()
        &&& self.0.seq_builds(out.subrange(0int, (self.0.element_count()) as int))
        &&& self.1.seq_builds(out.subrange((self.0.element_count()) as int, (self.0.element_count() + self.1.element_count()) as int))
        &&& self.2.seq_builds(out.subrange((self.0.element_count() + self.1.element_count()) as int, (self.0.element_count() + self.1.element_count() + self.2.element_count()) as int))
        &&& self.3.seq_builds(out.subrange((self.0.element_count() + self.1.element_count() + self.2.element_count()) as int, (self.0.element_count() + self.1.element_count() + self.2.element_count() + self.3.element_count()) as int))
        &&& self.4.seq_builds(out.subrange((self.0.element_count() + self.1.element_count() + self.2.element_count() + self.3.element_count()) as int, (self.0.element_count() + self.1.element_count() + self.2.element_count() + self.3.element_count() + self.4.element_count()) as int))
        &&& self.5.seq_builds(out.subrange((self.0.element_count() + self.1.element_count() + self.2.element_count() + self.3.element_count() + self.4.element_count()) as int, (self.0.element_count() + self.1.element_count() + self.2.element_count() + self.3.element_count() + self.4.element_count() + self.5.element_count()) as int))
    }

    open spec fn seq_rebuilds(&self, prev: &Self, before: Seq<Element>, after: Seq<Element>) -> bool {
        &&& before.len() == prev.element_count()
        &&& after.len() == self.element_count()
        &&& self.0.seq_rebuilds(
            &prev.0,
            before.subrange(0int, (prev.0.element_count()) as int),
            after.subrange(0int, (self.0.element_count()) as int),
        )
        &&& self.1.seq_rebuilds(
            &prev.1,
            before.subrange((prev.0.element_count()) as int, (prev.0.element_count() + prev.1.element_count()) as int),
            after.subrange((self.0.element_count()) as int, (self.0.element_count() + self.1.element_count()) as int),
        )
        &&& self.2.seq_rebuilds(
            &prev.2,
            before.subrange((prev.0.element_count() + prev.1.element_count()) as int, (prev.0.element_count() + prev.1.element_count() + prev.2.element_count()) as int),
            after.subrange((self.0.element_count() + self.1.element_count()) as int, (self.0.element_count() + self.1.element_count() + self.2.element_count()) as int),
        )
        &&& self.3.seq_rebuilds(
            &prev.3,
            before.subrange((prev.0.element_count() + prev.1.element_count() + prev.2.element_count()) as int, (prev.0.element_count() + prev.1.element_count() + prev.2.element_count() + prev.3.element_count()) as int),
            after.subrange((self.0.element_count() + self.1.element_count() + self.2.element_count()) as int, (self.0.element_count() + self.1.element_count() + self.2.element_count() + self.3.element_count()) as int),
        )
        &&& self.4.seq_rebuilds(
            &prev.4,
            before.subrange((prev.0.element_count() + prev.1.element_count() + prev.2.element_count() + prev.3.element_count()) as int, (prev.0.element_count() + prev.1.element_count() + prev.2.element_count() + prev.3.element_count() + prev.4.element_count()) as int),
            after.subrange((self.0.element_count() + self.1.element_count() + self.2.element_count() + self.3.element_count()) as int, (self.0.element_count() + self.1.element_count() + self.2.element_count() + self.3.element_count() + self.4.element_count()) as int),
        )
        &&& self.5.seq_rebuilds(
            &prev.5,
            before.subrange((prev.0.element_count() + prev.1.element_count() + prev.2.element_count() + prev.3.element_count() + prev.4.element_count()) as int, (prev.0.element_count() + prev.1.element_count() + prev.2.element_count() + prev.3.element_count() + prev.4.element_count() + prev.5.element_count()) as int),
            after.subrange((self.0.element_count() + self.1.element_count() + self.2.element_count() + self.3.element_count() + self.4.element_count()) as int, (self.0.element_count() + self.1.element_count() + self.2.element_count() + self.3.element_count() + self.4.element_count() + self.5.element_count()) as int),
        )
    }

    open spec fn seq_tears_down(&self, before: Seq<Element>) -> bool {
        &&& before.len() == self.element_count()
        &&& self.0.seq_tears_down(before.subrange(0int, (self.0.element_count()) as int))
        &&& self.1.seq_tears_down(before.subrange((self.0.element_count()) as int, (self.0.element_count() + self.1.element_count()) as int))
        &&& self.2.seq_tears_down(before.subrange((self.0.element_count() + self.1.element_count()) as int, (self.0.element_count() + self.1.element_count() + self.2.element_count()) as int))
        &&& self.3.seq_tears_down(before.subrange((self.0.element_count() + self.1.element_count() + self.2.element_count()) as int, (self.0.element_count() + self.1.element_count() + self.2.element_count() + self.3.element_count()) as int))
        &&& self.4.seq_tears_down(before.subrange((self.0.element_count() + self.1.element_count() + self.2.element_count() + self.3.element_count()) as int, (self.0.element_count() + self.1.element_count() + self.2.element_count() + self.3.element_count() + self.4.element_count()) as int))
        &&& self.5.seq_tears_down(before.subrange((self.0.element_count() + self.1.element_count() + self.2.element_count() + self.3.element_count() + self.4.element_count()) as int, (self.0.element_count() + self.1.element_count() + self.2.element_count() + self.3.element_count() + self.4.element_count() + self.5.element_count()) as int))
    }

    #[verifier::spinoff_prover]
    #[verifier::rlimit(100)]
    fn seq_build(&self, elements: &mut Vec<Element>) {
        let ghost start = elements@;
        let ghost sl = start.len() as int;
        let ghost b0 = elements@;
        self.0.seq_build(elements);
        let ghost f0 = elements@;
        let ghost b1 = elements@;
        self.1.seq_build(elements);
        let ghost f1 = elements@;
        proof {
            lemma_prefix_kept(start, b1, elements@);
        }
        let ghost b2 = elements@;
        self.2.seq_build(elements);
        let ghost f2 = elements@;
        proof {
            lemma_prefix_kept(start, b2, elements@);
        }
        let ghost b3 = elements@;
        self.3.seq_build(elements);
        let ghost f3 = elements@;
        proof {
            lemma_prefix_kept(start, b3, elements@);
        }
        let ghost b4 = elements@;
        self.4.seq_build(elements);
        let ghost f4 = elements@;
        proof {
            lemma_prefix_kept(start, b4, elements@);
        }
        let ghost b5 = elements@;
        self.5.seq_build(elements);
        let ghost f5 = elements@;
        proof {
            lemma_prefix_kept(start, b5, elements@);
        }
        proof {
            let fin = elements@;
            assert(fin.take(fin.len() as int) =~= f5.take(fin.len() as int));
            assert(f5.take(b5.len() as int) == b5);
            assert(b5.take(b5.len() as int) =~= b5);
            lemma_take_link(fin, f5, b5, b5.len() as int, fin.len() as int);
            assert(b4.take(b4.len() as int) =~= b4);
            lemma_take_link(fin, f4, b4, b4.len() as int, b5.len() as int);
            assert(b3.take(b3.len() as int) =~= b3);
            lemma_take_link(fin, f3, b3, b3.len() as int, b4.len() as int);
            assert(b2.take(b2.len() as int) =~= b2);
            lemma_take_link(fin, f2, b2, b2.len() as int, b3.len() as int);
            assert(b1.take(b1.len() as int) =~= b1);
            lemma_take_link(fin, f1, b1, b1.len() as int, b2.len() as int);
            assert(self.0.seq_builds(fin.skip(sl).subrange(0int, (self.0.element_count()) as int))) by {
                lemma_sub_stable(fin, f0, b1.len() as int, sl + 0int, sl + (self.0.element_count()) as int);
                assert(f0.skip(b0.len() as int) =~= f0.subrange(sl + 0int, sl + (self.0.element_count()) as int));
                assert(fin.skip(sl).subrange(0int, (self.0.element_count()) as int) =~= fin.subrange(sl + 0int, sl + (self.0.element_count()) as int));
            }
            assert(self.1.seq_builds(fin.skip(sl).subrange((self.0.element_count()) as int, (self.0.element_count() + self.1.element_count()) as int))) by {
                lemma_sub_stable(fin, f1, b2.len() as int, sl + (self.0.element_count()) as int, sl + (self.0.element_count() + self.1.element_count()) as int);
                assert(f1.skip(b1.len() as int) =~= f1.subrange(sl + (self.0.element_count()) as int, sl + (self.0.element_count() + self.1.element_count()) as int));
                assert(fin.skip(sl).subrange((self.0.element_count()) as int, (self.0.element_count() + self.1.element_count()) as int) =~= fin.subrange(sl + (self.0.element_count()) as int, sl + (self.0.element_count() + self.1.element_count()) as int));
            }
            assert(self.2.seq_builds(fin.skip(sl).subrange((self.0.element_count() + self.1.element_count()) as int, (self.0.element_count() + self.1.element_count() + self.2.element_count()) as int))) by {
                lemma_sub_stable(fin, f2, b3.len() as int, sl + (self.0.element_count() + self.1.element_count()) as int, sl + (self.0.element_count() + self.1.element_count() + self.2.element_count()) as int);
                assert(f2.skip(b2.len() as int) =~= f2.subrange(sl + (self.0.element_count() + self.1.element_count()) as int, sl + (self.0.element_count() + self.1.element_count() + self.2.element_count()) as int));
                assert(fin.skip(sl).subrange((self.0.element_count() + self.1.element_count()) as int, (self.0.element_count() + self.1.element_count() + self.2.element_count()) as int) =~= fin.subrange(sl + (self.0.element_count() + self.1.element_count()) as int, sl + (self.0.element_count() + self.1.element_count() + self.2.element_count()) as int));
            }
            assert(self.3.seq_builds(fin.skip(sl).subrange((self.0.element_count() + self.1.element_count() + self.2.element_count()) as int, (self.0.element_count() + self.1.element_count() + self.2.element_count() + self.3.element_count()) as int))) by {
                lemma_sub_stable(fin, f3, b4.len() as int, sl + (self.0.element_count() + self.1.element_count() + self.2.element_count()) as int, sl + (self.0.element_count() + self.1.element_count() + self.2.element_count() + self.3.element_count()) as int);
                assert(f3.skip(b3.len() as int) =~= f3.subrange(sl + (self.0.element_count() + self.1.element_count() + self.2.element_count()) as int, sl + (self.0.element_count() + self.1.element_count() + self.2.element_count() + self.3.element_count()) as int));
                assert(fin.skip(sl).subrange((self.0.element_count() + self.1.element_count() + self.2.element_count()) as int, (self.0.element_count() + self.1.element_count() + self.2.element_count() + self.3.element_count()) as int) =~= fin.subrange(sl + (self.0.element_count() + self.1.element_count() + self.2.element_count()) as int, sl + (self.0.element_count() + self.1.element_count() + self.2.element_count() + self.3.element_count()) as int));
            }
            assert(self.4.seq_builds(fin.skip(sl).subrange((self.0.element_count() + self.1.element_count() + self.2.element_count() + self.3.element_count()) as int, (self.0.element_count() + self.1.element_count() + self.2.element_count() + self.3.element_count() + self.4.element_count()) as int))) by {
                lemma_sub_stable(fin, f4, b5.len() as int, sl + (self.0.element_count() + self.1.element_count() + self.2.element_count() + self.3.element_count()) as int, sl + (self.0.element_count() + self.1.element_count() + self.2.element_count() + self.3.element_count() + self.4.element_count()) as int);
                assert(f4.skip(b4.len() as int) =~= f4.subrange(sl + (self.0.element_count() + self.1.element_count() + self.2.element_count() + self.3.element_count()) as int, sl + (self.0.element_count() + self.1.element_count() + self.2.element_count() + self.3.element_count() + self.4.element_count()) as int));
                assert(fin.skip(sl).subrange((self.0.element_count() + self.1.element_count() + self.2.element_count() + self.3.element_count()) as int, (self.0.element_count() + self.1.element_count() + self.2.element_count() + self.3.element_count() + self.4.element_count()) as int) =~= fin.subrange(sl + (self.0.element_count() + self.1.element_count() + self.2.element_count() + self.3.element_count()) as int, sl + (self.0.element_count() + self.1.element_count() + self.2.element_count() + self.3.element_count() + self.4.element_count()) as int));
            }
            assert(self.5.seq_builds(fin.skip(sl).subrange((self.0.element_count() + self.1.element_count() + self.2.element_count() + self.3.element_count() + self.4.element_count()) as int, (self.0.element_count() + self.1.element_count() + self.2.element_count() + self.3.element_count() + self.4.element_count() + self.5.element_count()) as int))) by {
                assert(f5.skip(b5.len() as int) =~= f5.subrange(sl + (self.0.element_count() + self.1.element_count() + self.2.element_count() + self.3.element_count() + self.4.element_count()) as int, sl + (self.0.element_count() + self.1.element_count() + self.2.element_count() + self.3.element_count() + self.4.element_count() + self.5.element_count()) as int));
                assert(fin.skip(sl).subrange((self.0.element_count() + self.1.element_count() + self.2.element_count() + self.3.element_count() + self.4.element_count()) as int, (self.0.element_count() + self.1.element_count() + self.2.element_count() + self.3.element_count() + self.4.element_count() + self.5.element_count()) as int) =~= fin.subrange(sl + (self.0.element_count() + self.1.element_count() + self.2.element_count() + self.3.element_count() + self.4.element_count()) as int, sl + (self.0.element_count() + self.1.element_count() + self.2.element_count() + self.3.element_count() + self.4.element_count() + self.5.element_count()) as int));
            }
        }
    }

    #[verifier::spinoff_prover]
    #[verifier::rlimit(100)]
    fn seq_rebuild<Splice: ElementSplice<Element>>(&self, prev: &Self, elements: &mut Splice) {
        let ghost a = elements.items();
        let ghost c0 = elements.cursor();
        proof {
            lemma_kept_refl(a, c0);
        }
        let ghost b0 = elements.items();
        let ghost cb0 = elements.cursor();
        proof {
            assert(b0.skip(cb0 as int).len() == a.skip((c0 + 0) as int).len());
        }
        self.0.seq_rebuild(&prev.0, elements);
        let ghost f0 = elements.items();
        proof {
            assert(self.0.seq_rebuilds(
                &prev.0,
                a.subrange(c0 + 0int, c0 + (prev.0.element_count()) as int),
                f0.subrange(cb0 as int, (cb0 + self.0.element_count()) as int),
            )) by {
                lemma_sub_shift(a, b0, (c0 + 0) as int, cb0 as int, prev.0.element_count() as int);
            }
            lemma_kept_compose(a, c0, 0, b0, cb0, prev.0.element_count(), elements.items(), elements.cursor());
        }
        let ghost b1 = elements.items();
        let ghost cb1 = elements.cursor();
        proof {
            assert(b1.skip(cb1 as int).len() == a.skip((c0 + (prev.0.element_count())) as int).len());
        }
        self.1.seq_rebuild(&prev.1, elements);
        let ghost f1 = elements.items();
        proof {
            assert(self.1.seq_rebuilds(
                &prev.1,
                a.subrange(c0 + (prev.0.element_count()) as int, c0 + (prev.0.element_count() + prev.1.element_count()) as int),
                f1.subrange(cb1 as int, (cb1 + self.1.element_count()) as int),
            )) by {
                lemma_sub_shift(a, b1, (c0 + (prev.0.element_count())) as int, cb1 as int, prev.1.element_count() as int);
            }
            lemma_kept_compose(a, c0, (prev.0.element_count()), b1, cb1, prev.1.element_count(), elements.items(), elements.cursor());
        }
        let ghost b2 = elements.items();
        let ghost cb2 = elements.cursor();
        proof {
            assert(b2.skip(cb2 as int).len() == a.skip((c0 + (prev.0.element_count() + prev.1.element_count())) as int).len());
        }
        self.2.seq_rebuild(&prev.2, elements);
        let ghost f2 = elements.items();
        proof {
            assert(self.2.seq_rebuilds(
                &prev.2,
                a.subrange(c0 + (prev.0.element_count() + prev.1.element_count()) as int, c0 + (prev.0.element_count() + prev.1.element_count() + prev.2.element_count()) as int),
                f2.subrange(cb2 as int, (cb2 + self.2.element_count()) as int),
            )) by {
                lemma_sub_shift(a, b2, (c0 + (prev.0.element_count() + prev.1.element_count())) as int, cb2 as int, prev.2.element_count() as int);
            }
            lemma_kept_compose(a, c0, (prev.0.element_count() + prev.1.element_count()), b2, cb2, prev.2.element_count(), elements.items(), elements.cursor());
        }
        let ghost b3 = elements.items();
        let ghost cb3 = elements.cursor();
        proof {
            assert(b3.skip(cb3 as int).len() == a.skip((c0 + (prev.0.element_count() + prev.1.element_count() + prev.2.element_count())) as int).len());
        }
        self.3.seq_rebuild(&prev.3, elements);
        let ghost f3 = elements.items();
        proof {
            assert(self.3.seq_rebuilds(
                &prev.3,
                a.subrange(c0 + (prev.0.element_count() + prev.1.element_count() + prev.2.element_count()) as int, c0 + (prev.0.element_count() + prev.1.element_count() + prev.2.element_count() + prev.3.element_count()) as int),
                f3.subrange(cb3 as int, (cb3 + self.3.element_count()) as int),
            )) by {
                lemma_sub_shift(a, b3, (c0 + (prev.0.element_count() + prev.1.element_count() + prev.2.element_count())) as int, cb3 as int, prev.3.element_count() as int);
            }
            lemma_kept_compose(a, c0, (prev.0.element_count() + prev.1.element_count() + prev.2.element_count()), b3, cb3, prev.3.element_count(), elements.items(), elements.cursor());
        }
        let ghost b4 = elements.items();
        let ghost cb4 = elements.cursor();
        proof {
            assert(b4.skip(cb4 as int).len() == a.skip((c0 + (prev.0.element_count() + prev.1.element_count() + prev.2.element_count() + prev.3.element_count())) as int).len());
        }
        self.4.seq_rebuild(&prev.4, elements);
        let ghost f4 = elements.items();
        proof {
            assert(self.4.seq_rebuilds(
                &prev.4,
                a.subrange(c0 + (prev.0.element_count() + prev.1.element_count() + prev.2.element_count() + prev.3.element_count()) as int, c0 + (prev.0.element_count() + prev.1.element_count() + prev.2.element_count() + prev.3.element_count() + prev.4.element_count()) as int),
                f4.subrange(cb4 as int, (cb4 + self.4.element_count()) as int),
            )) by {
                lemma_sub_shift(a, b4, (c0 + (prev.0.element_count() + prev.1.element_count() + prev.2.element_count() + prev.3.element_count())) as int, cb4 as int, prev.4.element_count() as int);
            }
            lemma_kept_compose(a, c0, (prev.0.element_count() + prev.1.element_count() + prev.2.element_count() + prev.3.element_count()), b4, cb4, prev.4.element_count(), elements.items(), elements.cursor());
        }
        let ghost b5 = elements.items();
        let ghost cb5 = elements.cursor();
        proof {
            assert(b5.skip(cb5 as int).len() == a.skip((c0 + (prev.0.element_count() + prev.1.element_count() + prev.2.element_count() + prev.3.element_count() + prev.4.element_count())) as int).len());
        }
        self.5.seq_rebuild(&prev.5, elements);
        let ghost f5 = elements.items();
        proof {
            assert(self.5.seq_rebuilds(
                &prev.5,
                a.subrange(c0 + (prev.0.element_count() + prev.1.element_count() + prev.2.element_count() + prev.3.element_count() + prev.4.element_count()) as int, c0 + (prev.0.element_count() + prev.1.element_count() + prev.2.element_count() + prev.3.element_count() + prev.4.element_count() + prev.5.element_count()) as int),
                f5.subrange(cb5 as int, (cb5 + self.5.element_count()) as int),
            )) by {
                lemma_sub_shift(a, b5, (c0 + (prev.0.element_count() + prev.1.element_count() + prev.2.element_count() + prev.3.element_count() + prev.4.element_count())) as int, cb5 as int, prev.5.element_count() as int);
            }
            lemma_kept_compose(a, c0, (prev.0.element_count() + prev.1.element_count() + prev.2.element_count() + prev.3.element_count() + prev.4.element_count()), b5, cb5, prev.5.element_count(), elements.items(), elements.cursor());
        }
        let ghost ce = elements.cursor();
        proof {
            let fin = elements.items();
            assert(fin.take(ce as int) =~= f5.take(ce as int));
            lemma_take_link(fin, f5, f4, cb5 as int, ce as int);
            lemma_take_link(fin, f4, f3, cb4 as int, cb5 as int);
            lemma_take_link(fin, f3, f2, cb3 as int, cb4 as int);
            lemma_take_link(fin, f2, f1, cb2 as int, cb3 as int);
            lemma_take_link(fin, f1, f0, cb1 as int, cb2 as int);
            assert(self.0.seq_rebuilds(
                &prev.0,
                region(a, c0, prev.element_count()).subrange(0int, (prev.0.element_count()) as int),
                region(fin, c0, self.element_count()).subrange(0int, (self.0.element_count()) as int),
            )) by {
                lemma_sub_stable(fin, f0, cb1 as int, cb0 as int, cb1 as int);
                assert(region(fin, c0, self.element_count()).subrange(0int, (self.0.element_count()) as int) =~= fin.subrange(cb0 as int, cb1 as int));
                assert(region(a, c0, prev.element_count()).subrange(0int, (prev.0.element_count()) as int) =~= a.subrange(c0 + 0int, c0 + (prev.0.element_count()) as int));
            }
            assert(self.1.seq_rebuilds(
                &prev.1,
                region(a, c0, prev.element_count()).subrange((prev.0.element_count()) as int, (prev.0.element_count() + prev.1.element_count()) as int),
                region(fin, c0, self.element_count()).subrange((self.0.element_count()) as int, (self.0.element_count() + self.1.element_count()) as int),
            )) by {
                lemma_sub_stable(fin, f1, cb2 as int, cb1 as int, cb2 as int);
                assert(region(fin, c0, self.element_count()).subrange((self.0.element_count()) as int, (self.0.element_count() + self.1.element_count()) as int) =~= fin.subrange(cb1 as int, cb2 as int));
                assert(region(a, c0, prev.element_count()).subrange((prev.0.element_count()) as int, (prev.0.element_count() + prev.1.element_count()) as int) =~= a.subrange(c0 + (prev.0.element_count()) as int, c0 + (prev.0.element_count() + prev.1.element_count()) as int));
            }
            assert(self.2.seq_rebuilds(
                &prev.2,
                region(a, c0, prev.element_count()).subrange((prev.0.element_count() + prev.1.element_count()) as int, (prev.0.element_count() + prev.1.element_count() + prev.2.element_count()) as int),
                region(fin, c0, self.element_count()).subrange((self.0.element_count() + self.1.element_count()) as int, (self.0.element_count() + self.1.element_count() + self.2.element_count()) as int),
            )) by {
                lemma_sub_stable(fin, f2, cb3 as int, cb2 as int, cb3 as int);
                assert(region(fin, c0, self.element_count()).subrange((self.0.element_count() + self.1.element_count()) as int, (self.0.element_count() + self.1.element_count() + self.2.element_count()) as int) =~= fin.subrange(cb2 as int, cb3 as int));
                assert(region(a, c0, prev.element_count()).subrange((prev.0.element_count() + prev.1.element_count()) as int, (prev.0.element_count() + prev.1.element_count() + prev.2.element_count()) as int) =~= a.subrange(c0 + (prev.0.element_count() + prev.1.element_count()) as int, c0 + (prev.0.element_count() + prev.1.element_count() + prev.2.element_count()) as int));
            }
            assert(self.3.seq_rebuilds(
                &prev.3,
                region(a, c0, prev.element_count()).subrange((prev.0.element_count() + prev.1.element_count() + prev.2.element_count()) as int, (prev.0.element_count() + prev.1.element_count() + prev.2.element_count() + prev.3.element_count()) as int),
                region(fin, c0, self.element_count()).subrange((self.0.element_count() + self.1.element_count() + self.2.element_count()) as int, (self.0.element_count() + self.1.element_count() + self.2.element_count() + self.3.element_count()) as int),
            )) by {
                lemma_sub_stable(fin, f3, cb4 as int, cb3 as int, cb4 as int);
                assert(region(fin, c0, self.element_count()).subrange((self.0.element_count() + self.1.element_count() + self.2.element_count()) as int, (self.0.element_count() + self.1.element_count() + self.2.element_count() + self.3.element_count()) as int) =~= fin.subrange(cb3 as int, cb4 as int));
                assert(region(a, c0, prev.element_count()).subrange((prev.0.element_count() + prev.1.element_count() + prev.2.element_count()) as int, (prev.0.element_count() + prev.1.element_count() + prev.2.element_count() + prev.3.element_count()) as int) =~= a.subrange(c0 + (prev.0.element_count() + prev.1.element_count() + prev.2.element_count()) as int, c0 + (prev.0.element_count() + prev.1.element_count() + prev.2.element_count() + prev.3.element_count()) as int));
            }
            assert(self.4.seq_rebuilds(
                &prev.4,
                region(a, c0, prev.element_count()).subrange((prev.0.element_count() + prev.1.element_count() + prev.2.element_count() + prev.3.element_count()) as int, (prev.0.element_count() + prev.1.element_count() + prev.2.element_count() + prev.3.element_count() + prev.4.element_count()) as int),
                region(fin, c0, self.element_count()).subrange((self.0.element_count() + self.1.element_count() + self.2.element_count() + self.3.element_count()) as int, (self.0.element_count() + self.1.element_count() + self.2.element_count() + self.3.element_count() + self.4.element_count()) as int),
            )) by {
                lemma_sub_stable(fin, f4, cb5 as int, cb4 as int, cb5 as int);
                assert(region(fin, c0, self.element_count()).subrange((self.0.element_count() + self.1.element_count() + self.2.element_count() + self.3.element_count()) as int, (self.0.element_count() + self.1.element_count() + self.2.element_count() + self.3.element_count() + self.4.element_count()) as int) =~= fin.subrange(cb4 as int, cb5 as int));
                assert(region(a, c0, prev.element_count()).subrange((prev.0.element_count() + prev.1.element_count() + prev.2.element_count() + prev.3.element_count()) as int, (prev.0.element_count() + prev.1.element_count() + prev.2.element_count() + prev.3.element_count() + prev.4.element_count()) as int) =~= a.subrange(c0 + (prev.0.element_count() + prev.1.element_count() + prev.2.element_count() + prev.3.element_count()) as int, c0 + (prev.0.element_count() + prev.1.element_count() + prev.2.element_count() + prev.3.element_count() + prev.4.element_count()) as int));
            }
            assert(self.5.seq_rebuilds(
                &prev.5,
                region(a, c0, prev.element_count()).subrange((prev.0.element_count() + prev.1.element_count() + prev.2.element_count() + prev.3.element_count() + prev.4.element_count()) as int, (prev.0.element_count() + prev.1.element_count() + prev.2.element_count() + prev.3.element_count() + prev.4.element_count() + prev.5.element_count()) as int),
                region(fin, c0, self.element_count()).subrange((self.0.element_count() + self.1.element_count() + self.2.element_count() + self.3.element_count() + self.4.element_count()) as int, (self.0.element_count() + self.1.element_count() + self.2.element_count() + self.3.element_count() + self.4.element_count() + self.5.element_count()) as int),
            )) by {
                assert(region(fin, c0, self.element_count()).subrange((self.0.element_count() + self.1.element_count() + self.2.element_count() + self.3.element_count() + self.4.element_count()) as int, (self.0.element_count() + self.1.element_count() + self.2.element_count() + self.3.element_count() + self.4.element_count() + self.5.element_count()) as int) =~= fin.subrange(cb5 as int, ce as int));
                assert(region(a, c0, prev.element_count()).subrange((prev.0.element_count() + prev.1.element_count() + prev.2.element_count() + prev.3.element_count() + prev.4.element_count()) as int, (prev.0.element_count() + prev.1.element_count() + prev.2.element_count() + prev.3.element_count() + prev.4.element_count() + prev.5.element_count()) as int) =~= a.subrange(c0 + (prev.0.element_count() + prev.1.element_count() + prev.2.element_count() + prev.3.element_count() + prev.4.element_count()) as int, c0 + (prev.0.element_count() + prev.1.element_count() + prev.2.element_count() + prev.3.element_count() + prev.4.element_count() + prev.5.element_count()) as int));
            }
        }
    }

    #[verifier::spinoff_prover]
    #[verifier::rlimit(100)]
    fn seq_teardown<Splice: ElementSplice<Element>>(&self, elements: &mut Splice) {
        let ghost a = elements.items();
        let ghost c0 = elements.cursor();
        proof {
            lemma_kept_refl(a, c0);
        }
        let ghost b0 = elements.items();
        let ghost cb0 = elements.cursor();
        proof {
            assert(b0.skip(cb0 as int).len() == a.skip((c0 + 0) as int).len());
        }
        self.0.seq_teardown(elements);
        proof {
            assert(self.0.seq_tears_down(region(a, c0, self.element_count()).subrange(0int, (self.0.element_count()) as int))) by {
                lemma_sub_shift(a, b0, (c0 + 0) as int, cb0 as int, self.0.element_count() as int);
                assert(region(a, c0, self.element_count()).subrange(0int, (self.0.element_count()) as int) =~= a.subrange(c0 + 0int, c0 + (self.0.element_count()) as int));
            }
            lemma_kept_compose(a, c0, 0, b0, cb0, self.0.element_count(), elements.items(), elements.cursor());
        }
        let ghost b1 = elements.items();
        let ghost cb1 = elements.cursor();
        proof {
            assert(b1.skip(cb1 as int).len() == a.skip((c0 + (self.0.element_count())) as int).len());
        }
        self.1.seq_teardown(elements);
        proof {
            assert(self.1.seq_tears_down(region(a, c0, self.element_count()).subrange((self.0.element_count()) as int, (self.0.element_count() + self.1.element_count()) as int))) by {
                lemma_sub_shift(a, b1, (c0 + (self.0.element_count())) as int, cb1 as int, self.1.element_count() as int);
                assert(region(a, c0, self.element_count()).subrange((self.0.element_count()) as int, (self.0.element_count() + self.1.element_count()) as int) =~= a.subrange(c0 + (self.0.element_count()) as int, c0 + (self.0.element_count() + self.1.element_count()) as int));
            }
            lemma_kept_compose(a, c0, (self.0.element_count()), b1, cb1, self.1.element_count(), elements.items(), elements.cursor());
        }
        let ghost b2 = elements.items();
        let ghost cb2 = elements.cursor();
        proof {
            assert(b2.skip(cb2 as int).len() == a.skip((c0 + (self.0.element_count() + self.1.element_count())) as int).len());
        }
        self.2.seq_teardown(elements);
        proof {
            assert(self.2.seq_tears_down(region(a, c0, self.element_count()).subrange((self.0.element_count() + self.1.element_count()) as int, (self.0.element_count() + self.1.element_count() + self.2.element_count()) as int))) by {
                lemma_sub_shift(a, b2, (c0 + (self.0.element_count() + self.1.element_count())) as int, cb2 as int, self.2.element_count() as int);
                assert(region(a, c0, self.element_count()).subrange((self.0.element_count() + self.1.element_count()) as int, (self.0.element_count() + self.1.element_count() + self.2.element_count()) as int) =~= a.subrange(c0 + (self.0.element_count() + self.1.element_count()) as int, c0 + (self.0.element_count() + self.1.element_count() + self.2.element_count()) as int));
            }
            lemma_kept_compose(a, c0, (self.0.element_count() + self.1.element_count()), b2, cb2, self.2.element_count(), elements.items(), elements.cursor());
        }
        let ghost b3 = elements.items();
        let ghost cb3 = elements.cursor();
        proof {
            assert(b3.skip(cb3 as int).len() == a.skip((c0 + (self.0.element_count() + self.1.element_count() + self.2.element_count())) as int).len());
        }
        self.3.seq_teardown(elements);
        proof {
            assert(self.3.seq_tears_down(region(a, c0, self.element_count()).subrange((self.0.element_count() + self.1.element_count() + self.2.element_count()) as int, (self.0.element_count() + self.1.element_count() + self.2.element_count() + self.3.element_count()) as int))) by {
                lemma_sub_shift(a, b3, (c0 + (self.0.element_count() + self.1.element_count() + self.2.element_count())) as int, cb3 as int, self.3.element_count() as int);
                assert(region(a, c0, self.element_count()).subrange((self.0.element_count() + self.1.element_count() + self.2.element_count()) as int, (self.0.element_count() + self.1.element_count() + self.2.element_count() + self.3.element_count()) as int) =~= a.subrange(c0 + (self.0.element_count() + self.1.element_count() + self.2.element_count()) as int, c0 + (self.0.element_count() + self.1.element_count() + self.2.element_count() + self.3.element_count()) as int));
            }
            lemma_kept_compose(a, c0, (self.0.element_count() + self.1.element_count() + self.2.element_count()), b3, cb3, self.3.element_count(), elements.items(), elements.cursor());
        }
        let ghost b4 = elements.items();
        let ghost cb4 = elements.cursor();
        proof {
            assert(b4.skip(cb4 as int).len() == a.skip((c0 + (self.0.element_count() + self.1.element_count() + self.2.element_count() + self.3.element_count())) as int).len());
        }
        self.4.seq_teardown(elements);
        proof {
            assert(self.4.seq_tears_down(region(a, c0, self.element_count()).subrange((self.0.element_count() + self.1.element_count() + self.2.element_count() + self.3.element_count()) as int, (self.0.element_count() + self.1.element_count() + self.2.element_count() + self.3.element_count() + self.4.element_count()) as int))) by {
                lemma_sub_shift(a, b4, (c0 + (self.0.element_count() + self.1.element_count() + self.2.element_count() + self.3.element_count())) as int, cb4 as int, self.4.element_count() as int);
                assert(region(a, c0, self.element_count()).subrange((self.0.element_count() + self.1.element_count() + self.2.element_count() + self.3.element_count()) as int, (self.0.element_count() + self.1.element_count() + self.2.element_count() + self.3.element_count() + self.4.element_count()) as int) =~= a.subrange(c0 + (self.0.element_count() + self.1.element_count() + self.2.element_count() + self.3.element_count()) as int, c0 + (self.0.element_count() + self.1.element_count() + self.2.element_count() + self.3.element_count() + self.4.element_count()) as int));
            }
            lemma_kept_compose(a, c0, (self.0.element_count() + self.1.element_count() + self.2.element_count() + self.3.element_count()), b4, cb4, self.4.element_count(), elements.items(), elements.cursor());
        }
        let ghost b5 = elements.items();
        let ghost cb5 = elements.cursor();
        proof {
            assert(b5.skip(cb5 as int).len() == a.skip((c0 + (self.0.element_count() + self.1.element_count() + self.2.element_count() + self.3.element_count() + self.4.element_count())) as int).len());
        }
        self.5.seq_teardown(elements);
        proof {
            assert(self.5.seq_tears_down(region(a, c0, self.element_count()).subrange((self.0.element_count() + self.1.element_count() + self.2.element_count() + self.3.element_count() + self.4.element_count()) as int, (self.0.element_count() + self.1.element_count() + self.2.element_count() + self.3.element_count() + self.4.element_count() + self.5.element_count()) as int))) by {
                lemma_sub_shift(a, b5, (c0 + (self.0.element_count() + self.1.element_count() + self.2.element_count() + self.3.element_count() + self.4.element_count())) as int, cb5 as int, self.5.element_count() as int);
                assert(region(a, c0, self.element_count()).subrange((self.0.element_count() + self.1.element_count() + self.2.element_count() + self.3.element_count() + self.4.element_count()) as int, (self.0.element_count() + self.1.element_count() + self.2.element_count() + self.3.element_count() + self.4.element_count() + self.5.element_count()) as int) =~= a.subrange(c0 + (self.0.element_count() + self.1.element_count() + self.2.element_count() + self.3.element_count() + self.4.element_count()) as int, c0 + (self.0.element_count() + self.1.element_count() + self.2.element_count() + self.3.element_count() + self.4.element_count() + self.5.element_count()) as int));
            }
            lemma_kept_compose(a, c0, (self.0.element_count() + self.1.element_count() + self.2.element_count() + self.3.element_count() + self.4.element_count()), b5, cb5, self.5.element_count(), elements.items(), elements.cursor());
        }
    }
}

/// A tuple of 7 sequences builds the elements of each, in order.
impl<State, Element, S0, S1, S2, S3, S4, S5, S6> ViewSequence<State, Element> for (S0, S1, S2, S3, S4, S5, S6,) where
    S0: ViewSequence<State, Element>,
    S1: ViewSequence<State, Element>,
    S2: ViewSequence<State, Element>,
    S3: ViewSequence<State, Element>,
    S4: ViewSequence<State, Element>,
    S5: ViewSequence<State, Element>,
    S6: ViewSequence<State, Element>,
 {
    open spec fn element_count(&self) -> nat {
        self.0.element_count() + self.1.element_count() + self.2.element_count() + self.3.element_count() + self.4.element_count() + self.5.element_count() + self.6.element_count()
    }

    open spec fn seq_builds(&self, out: Seq<Element>) -> bool {
        &&& out.len() == self.element_count()
        &&& self.0.seq_builds(out.subrange(0int, (self.0.element_count()) as int))
        &&& self.1.seq_builds(out.subrange((self.0.element_count()) as int, (self.0.element_count() + self.1.element_count()) as int))
        &&& self.2.seq_builds(out.subrange((self.0.element_count() + self.1.element_count()) as int, (self.0.element_count() + self.1.element_count() + self.2.element_count()) as int))
        &&& self.3.seq_builds(out.subrange((self.0.element_count() + self.1.element_count() + self.2.element_count()) as int, (self.0.element_count() + self.1.element_count() + self.2.element_count() + self.3.element_count()) as int))
        &&& self.4.seq_builds(out.subrange((self.0.element_count() + self.1.element_count() + self.2.element_count() + self.3.element_count()) as int, (self.0.element_count() + self.1.element_count() + self.2.element_count() + self.3.element_count() + self.4.element_count()) as int))
        &&& self.5.seq_builds(out.subrange((self.0.element_count() + self.1.element_count() + self.2.element_count() + self.3.element_count() + self.4.element_count()) as int, (self.0.element_count() + self.1.element_count() + self.2.element_count() + self.3.element_count() + self.4.element_count() + self.5.element_count()) as int))
        &&& self.6.seq_builds(out.subrange((self.0.element_count() + self.1.element_count() + self.2.element_count() + self.3.element_count() + self.4.element_count() + self.5.element_count()) as int, (self.0.element_count() + self.1.element_count() + self.2.element_count() + self.3.element_count() + self.4.element_count() + self.5.element_count() + self.6.element_count()) as int))
    }

    open spec fn seq_rebuilds(&self, prev: &Self, before: Seq<Element>, after: Seq<Element>) -> bool {
        &&& before.len() == prev.element_count()
        &&& after.len() == self.element_count()
        &&& self.0.seq_rebuilds(
            &prev.0,
            before.subrange(0int, (prev.0.element_count()) as int),
            after.subrange(0int, (self.0.element_count()) as int),
        )
        &&& self.1.seq_rebuilds(
            &prev.1,
            before.subrange((prev.0.element_count()) as int, (prev.0.element_count() + prev.1.element_count()) as int),
            after.subrange((self.0.element_count()) as int, (self.0.element_count() + self.1.element_count()) as int),
        )
        &&& self.2.seq_rebuilds(
            &prev.2,
            before.subrange((prev.0.element_count() + prev.1.element_count()) as int, (prev.0.element_count() + prev.1.element_count() + prev.2.element_count()) as int),
            after.subrange((self.0.element_count() + self.1.element_count()) as int, (self.0.element_count() + self.1.element_count() + self.2.element_count()) as int),
        )
        &&& self.3.seq_rebuilds(
            &prev.3,
            before.subrange((prev.0.element_count() + prev.1.element_count() + prev.2.element_count()) as int, (prev.0.element_count() + prev.1.element_count() + prev.2.element_count() + prev.3.element_count()) as int),
            after.subrange((self.0.element_count() + self.1.element_count() + self.2.element_count()) as int, (self.0.element_count() + self.1.element_count() + self.2.element_count() + self.3.element_count()) as int),
        )
        &&& self.4.seq_rebuilds(
            &prev.4,
            before.subrange((prev.0.element_count() + prev.1.element_count() + prev.2.element_count() + prev.3.element_count()) as int, (prev.0.element_count() + prev.1.element_count() + prev.2.element_count() + prev.3.element_count() + prev.4.element_count()) as int),
            after.subrange((self.0.element_count() + self.1.element_count() + self.2.element_count() + self.3.element_count()) as int, (self.0.element_count() + self.1.element_count() + self.2.element_count() + self.3.element_count() + self.4.element_count()) as int),
        )
        &&& self.5.seq_rebuilds(
            &prev.5,
            before.subrange((prev.0.element_count() + prev.1.element_count() + prev.2.element_count() + prev.3.element_count() + prev.4.element_count()) as int, (prev.0.element_count() + prev.1.element_count() + prev.2.element_count() + prev.3.element_count() + prev.4.element_count() + prev.5.element_count()) as int),
            after.subrange((self.0.element_count() + self.1.element_count() + self.2.element_count() + self.3.element_count() + self.4.element_count()) as int, (self.0.element_count() + self.1.element_count() + self.2.element_count() + self.3.element_count() + self.4.element_count() + self.5.element_count()) as int),
        )
        &&& self.6.seq_rebuilds(
            &prev.6,
            before.subrange((prev.0.element_count() + prev.1.element_count() + prev.2.element_count() + prev.3.element_count() + prev.4.element_count() + prev.5.element_count()) as int, (prev.0.element_count() + prev.1.element_count() + prev.2.element_count() + prev.3.element_count() + prev.4.element_count() + prev.5.element_count() + prev.6.element_count()) as int),
            after.subrange((self.0.element_count() + self.1.element_count() + self.2.element_count() + self.3.element_count() + self.4.element_count() + self.5.element_count()) as int, (self.0.element_count() + self.1.element_count() + self.2.element_count() + self.3.element_count() + self.4.element_count() + self.5.element_count() + self.6.element_count()) as int),
        )
    }

    open spec fn seq_tears_down(&self, before: Seq<Element>) -> bool {
        &&& before.len() == self.element_count()
        &&& self.0.seq_tears_down(before.subrange(0int, (self.0.element_count()) as int))
        &&& self.1.seq_tears_down(before.subrange((self.0.element_count()) as int, (self.0.element_count() + self.1.element_count()) as int))
        &&& self.2.seq_tears_down(before.subrange((self.0.element_count() + self.1.element_count()) as int, (self.0.element_count() + self.1.element_count() + self.2.element_count()) as int))
        &&& self.3.seq_tears_down(before.subrange((self.0.element_count() + self.1.element_count() + self.2.element_count()) as int, (self.0.element_count() + self.1.element_count() + self.2.element_count() + self.3.element_count()) as int))
        &&& self.4.seq_tears_down(before.subrange((self.0.element_count() + self.1.element_count() + self.2.element_count() + self.3.element_count()) as int, (self.0.element_count() + self.1.element_count() + self.2.element_count() + self.3.element_count() + self.4.element_count()) as int))
        &&& self.5.seq_tears_down(before.subrange((self.0.element_count() + self.1.element_count() + self.2.element_count() + self.3.element_count() + self.4.element_count()) as int, (self.0.element_count() + self.1.element_count() + self.2.element_count() + self.3.element_count() + self.4.element_count() + self.5.element_count()) as int))
        &&& self.6.seq_tears_down(before.subrange((self.0.element_count() + self.1.element_count() + self.2.element_count() + self.3.element_count() + self.4.element_count() + self.5.element_count()) as int, (self.0.element_count() + self.1.element_count() + self.2.element_count() + self.3.element_count() + self.4.element_count() + self.5.element_count() + self.6.element_count()) as int))
    }

    #[verifier::spinoff_prover]
    #[verifier::rlimit(100)]
    fn seq_build(&self, elements: &mut Vec<Element>) {
        let ghost start = elements@;
        let ghost sl = start.len() as int;
        let ghost b0 = elements@;
        self.0.seq_build(elements);
        let ghost f0 = elements@;
        let ghost b1 = elements@;
        self.1.seq_build(elements);
        let ghost f1 = elements@;
        proof {
            lemma_prefix_kept(start, b1, elements@);
        }
        let ghost b2 = elements@;
        self.2.seq_build(elements);
        let ghost f2 = elements@;
        proof {
            lemma_prefix_kept(start, b2, elements@);
        }
        let ghost b3 = elements@;
        self.3.seq_build(elements);
        let ghost f3 = elements@;
        proof {
            lemma_prefix_kept(start, b3, elements@);
        }
        let ghost b4 = elements@;
        self.4.seq_build(elements);
        let ghost f4 = elements@;
        proof {
            lemma_prefix_kept(start, b4, elements@);
        }
        let ghost b5 = elements@;
        self.5.seq_build(elements);
        let ghost f5 = elements@;
        proof {
            lemma_prefix_kept(start, b5, elements@);
        }
        let ghost b6 = elements@;
        self.6.seq_build(elements);
        let ghost f6 = elements@;
        proof {
            lemma_prefix_kept(start, b6, elements@);
        }
        proof {
            let fin = elements@;
            assert(fin.take(fin.len() as int) =~= f6.take(fin.len() as int));
            assert(f6.take(b6.len() as int) == b6);
            assert(b6.take(b6.len() as int) =~= b6);
            lemma_take_link(fin, f6, b6, b6.len() as int, fin.len() as int);
            assert(b5.take(b5.len() as int) =~= b5);
            lemma_take_link(fin, f5, b5, b5.len() as int, b6.len() as int);
            assert(b4.take(b4.len() as int) =~= b4);
            lemma_take_link(fin, f4, b4, b4.len() as int, b5.len() as int);
            assert(b3.take(b3.len() as int) =~= b3);
            lemma_take_link(fin, f3, b3, b3.len() as int, b4.len() as int);
            assert(b2.take(b2.len() as int) =~= b2);
            lemma_take_link(fin, f2, b2, b2.len() as int, b3.len() as int);
            assert(b1.take(b1.len() as int) =~= b1);
            lemma_take_link(fin, f1, b1, b1.len() as int, b2.len() as int);
            assert(self.0.seq_builds(fin.skip(sl).subrange(0int, (self.0.element_count()) as int))) by {
                lemma_sub_stable(fin, f0, b1.len() as int, sl + 0int, sl + (self.0.element_count()) as int);
                assert(f0.skip(b0.len() as int) =~= f0.subrange(sl + 0int, sl + (self.0.element_count()) as int));
                assert(fin.skip(sl).subrange(0int, (self.0.element_count()) as int) =~= fin.subrange(sl + 0int, sl + (self.0.element_count()) as int));
            }
            assert(self.1.seq_builds(fin.skip(sl).subrange((self.0.element_count()) as int, (self.0.element_count() + self.1.element_count()) as int))) by {
                lemma_sub_stable(fin, f1, b2.len() as int, sl + (self.0.element_count()) as int, sl + (self.0.element_count() + self.1.element_count()) as int);
                assert(f1.skip(b1.len() as int) =~= f1.subrange(sl + (self.0.element_count()) as int, sl + (self.0.element_count() + self.1.element_count()) as int));
                assert(fin.skip(sl).subrange((self.0.element_count()) as int, (self.0.element_count() + self.1.element_count()) as int) =~= fin.subrange(sl + (self.0.element_count()) as int, sl + (self.0.element_count() + self.1.element_count()) as int));
            }
            assert(self.2.seq_builds(fin.skip(sl).subrange((self.0.element_count() + self.1.element_count()) as int, (self.0.element_count() + self.1.element_count() + self.2.element_count()) as int))) by {
                lemma_sub_stable(fin, f2, b3.len() as int, sl + (self.0.element_count() + self.1.element_count()) as int, sl + (self.0.element_count() + self.1.element_count() + self.2.element_count()) as int);
                assert(f2.skip(b2.len() as int) =~= f2.subrange(sl + (self.0.element_count() + self.1.element_count()) as int, sl + (self.0.element_count() + self.1.element_count() + self.2.element_count()) as int));
                assert(fin.skip(sl).subrange((self.0.element_count() + self.1.element_count()) as int, (self.0.element_count() + self.1.element_count() + self.2.element_count()) as int) =~= fin.subrange(sl + (self.0.element_count() + self.1.element_count()) as int, sl + (self.0.element_count() + self.1.element_count() + self.2.element_count()) as int));
            }
            assert(self.3.seq_builds(fin.skip(sl).subrange((self.0.element_count() + self.1.element_count() + self.2.element_count()) as int, (self.0.element_count() + self.1.element_count() + self.2.element_count() + self.3.element_count()) as int))) by {
                lemma_sub_stable(fin, f3, b4.len() as int, sl + (self.0.element_count() + self.1.element_count() + self.2.element_count()) as int, sl + (self.0.element_count() + self.1.element_count() + self.2.element_count() + self.3.element_count()) as int);
                assert(f3.skip(b3.len() as int) =~= f3.subrange(sl + (self.0.element_count() + self.1.element_count() + self.2.element_count()) as int, sl + (self.0.element_count() + self.1.element_count() + self.2.element_count() + self.3.element_count()) as int));
                assert(fin.skip(sl).subrange((self.0.element_count() + self.1.element_count() + self.2.element_count()) as int, (self.0.element_count() + self.1.element_count() + self.2.element_count() + self.3.element_count()) as int) =~= fin.subrange(sl + (self.0.element_count() + self.1.element_count() + self.2.element_count()) as int, sl + (self.0.element_count() + self.1.element_count() + self.2.element_count() + self.3.element_count()) as int));
            }
            assert(self.4.seq_builds(fin.skip(sl).subrange((self.0.element_count() + self.1.element_count() + self.2.element_count() + self.3.element_count()) as int, (self.0.element_count() + self.1.element_count() + self.2.element_count() + self.3.element_count() + self.4.element_count()) as int))) by {
                lemma_sub_stable(fin, f4, b5.len() as int, sl + (self.0.element_count() + self.1.element_count() + self.2.element_count() + self.3.element_count()) as int, sl + (self.0.element_count() + self.1.element_count() + self.2.element_count() + self.3.element_count() + self.4.element_count()) as int);
                assert(f4.skip(b4.len() as int) =~= f4.subrange(sl + (self.0.element_count() + self.1.element_count() + self.2.element_count() + self.3.element_count()) as int, sl + (self.0.element_count() + self.1.element_count() + self.2.element_count() + self.3.element_count() + self.4.element_count()) as int));
                assert(fin.skip(sl).subrange((self.0.element_count() + self.1.element_count() + self.2.element_count() + self.3.element_count()) as int, (self.0.element_count() + self.1.element_count() + self.2.element_count() + self.3.element_count() + self.4.element_count()) as int) =~= fin.subrange(sl + (self.0.element_count() + self.1.element_count() + self.2.element_count() + self.3.element_count()) as int, sl + (self.0.element_count() + self.1.element_count() + self.2.element_count() + self.3.element_count() + self.4.element_count()) as int));
            }
            assert(self.5.seq_builds(fin.skip(sl).subrange((self.0.element_count() + self.1.element_count() + self.2.element_count() + self.3.element_count() + self.4.element_count()) as int, (self.0.element_count() + self.1.element_count() + self.2.element_count() + self.3.element_count() + self.4.element_count() + self.5.element_count()) as int))) by {
                lemma_sub_stable(fin, f5, b6.len() as int, sl + (self.0.element_count() + self.1.element_count() + self.2.element_count() + self.3.element_count() + self.4.element_count()) as int, sl + (self.0.element_count() + self.1.element_count() + self.2.element_count() + self.3.element_count() + self.4.element_count() + self.5.element_count()) as int);
                assert(f5.skip(b5.len() as int) =~= f5.subrange(sl + (self.0.element_count() + self.1.element_count() + self.2.element_count() + self.3.element_count() + self.4.element_count()) as int, sl + (self.0.element_count() + self.1.element_count() + self.2.element_count() + self.3.element_count() + self.4.element_count() + self.5.element_count()) as int));
                assert(fin.skip(sl).subrange((self.0.element_count() + self.1.element_count() + self.2.element_count() + self.3.element_count() + self.4.element_count()) as int, (self.0.element_count() + self.1.element_count() + self.2.element_count() + self.3.element_count() + self.4.element_count() + self.5.element_count()) as int) =~= fin.subrange(sl + (self.0.element_count() + self.1.element_count() + self.2.element_count() + self.3.element_count() + self.4.element_count()) as int, sl + (self.0.element_count() + self.1.element_count() + self.2.element_count() + self.3.element_count() + self.4.element_count() + self.5.element_count()) as int));
            }
            assert(self.6.seq_builds(fin.skip(sl).subrange((self.0.element_count() + self.1.element_count() + self.2.element_count() + self.3.element_count() + self.4.element_count() + self.5.element_count()) as int, (self.0.element_count() + self.1.element_count() + self.2.element_count() + self.3.element_count() + self.4.element_count() + self.5.element_count() + self.6.element_count()) as int))) by {
                assert(f6.skip(b6.len() as int) =~= f6.subrange(sl + (self.0.element_count() + self.1.element_count() + self.2.element_count() + self.3.element_count() + self.4.element_count() + self.5.element_count()) as int, sl + (self.0.element_count() + self.1.element_count() + self.2.element_count() + self.3.element_count() + self.4.element_count() + self.5.element_count() + self.6.element_count()) as int));
                assert(fin.skip(sl).subrange((self.0.element_count() + self.1.element_count() + self.2.element_count() + self.3.element_count() + self.4.element_count() + self.5.element_count()) as int, (self.0.element_count() + self.1.element_count() + self.2.element_count() + self.3.element_count() + self.4.element_count() + self.5.element_count() + self.6.element_count()) as int) =~= fin.subrange(sl + (self.0.element_count() + self.1.element_count() + self.2.element_count() + self.3.element_count() + self.4.element_count() + self.5.element_count()) as int, sl + (self.0.element_count() + self.1.element_count() + self.2.element_count() + self.3.element_count() + self.4.element_count() + self.5.element_count() + self.6.element_count()) as int));
            }
        }
    }

    #[verifier::spinoff_prover]
    #[verifier::rlimit(100)]
    fn seq_rebuild<Splice: ElementSplice<Element>>(&self, prev: &Self, elements: &mut Splice) {
        let ghost a = elements.items();
        let ghost c0 = elements.cursor();
        proof {
            lemma_kept_refl(a, c0);
        }
        let ghost b0 = elements.items();
        let ghost cb0 = elements.cursor();
        proof {
            assert(b0.skip(cb0 as int).len() == a.skip((c0 + 0) as int).len());
        }
        self.0.seq_rebuild(&prev.0, elements);
        let ghost f0 = elements.items();
        proof {
            assert(self.0.seq_rebuilds(
                &prev.0,
                a.subrange(c0 + 0int, c0 + (prev.0.element_count()) as int),
                f0.subrange(cb0 as int, (cb0 + self.0.element_count()) as int),
            )) by {
                lemma_sub_shift(a, b0, (c0 + 0) as int, cb0 as int, prev.0.element_count() as int);
            }
            lemma_kept_compose(a, c0, 0, b0, cb0, prev.0.element_count(), elements.items(), elements.cursor());
        }
        let ghost b1 = elements.items();
        let ghost cb1 = elements.cursor();
        proof {
            assert(b1.skip(cb1 as int).len() == a.skip((c0 + (prev.0.element_count())) as int).len());
        }
        self.1.seq_rebuild(&prev.1, elements);
        let ghost f1 = elements.items();
        proof {
            assert(self.1.seq_rebuilds(
                &prev.1,
                a.subrange(c0 + (prev.0.element_count()) as int, c0 + (prev.0.element_count() + prev.1.element_count()) as int),
                f1.subrange(cb1 as int, (cb1 + self.1.element_count()) as int),
            )) by {
                lemma_sub_shift(a, b1, (c0 + (prev.0.element_count())) as int, cb1 as int, prev.1.element_count() as int);
            }
            lemma_kept_compose(a, c0, (prev.0.element_count()), b1, cb1, prev.1.element_count(), elements.items(), elements.cursor());
        }
        let ghost b2 = elements.items();
        let ghost cb2 = elements.cursor();
        proof {
            assert(b2.skip(cb2 as int).len() == a.skip((c0 + (prev.0.element_count() + prev.1.element_count())) as int).len());
        }
        self.2.seq_rebuild(&prev.2, elements);
        let ghost f2 = elements.items();
        proof {
            assert(self.2.seq_rebuilds(
                &prev.2,
                a.subrange(c0 + (prev.0.element_count() + prev.1.element_count()) as int, c0 + (prev.0.element_count() + prev.1.element_count() + prev.2.element_count()) as int),
                f2.subrange(cb2 as int, (cb2 + self.2.element_count()) as int),
            )) by {
                lemma_sub_shift(a, b2, (c0 + (prev.0.element_count() + prev.1.element_count())) as int, cb2 as int, prev.2.element_count() as int);
            }
            lemma_kept_compose(a, c0, (prev.0.element_count() + prev.1.element_count()), b2, cb2, prev.2.element_count(), elements.items(), elements.cursor());
        }
        let ghost b3 = elements.items();
        let ghost cb3 = elements.cursor();
        proof {
            assert(b3.skip(cb3 as int).len() == a.skip((c0 + (prev.0.element_count() + prev.1.element_count() + prev.2.element_count())) as int).len());
        }
        self.3.seq_rebuild(&prev.3, elements);
        let ghost f3 = elements.items();
        proof {
            assert(self.3.seq_rebuilds(
                &prev.3,
                a.subrange(c0 + (prev.0.element_count() + prev.1.element_count() + prev.2.element_count()) as int, c0 + (prev.0.element_count() + prev.1.element_count() + prev.2.element_count() + prev.3.element_count()) as int),
                f3.subrange(cb3 as int, (cb3 + self.3.element_count()) as int),
            )) by {
                lemma_sub_shift(a, b3, (c0 + (prev.0.element_count() + prev.1.element_count() + prev.2.element_count())) as int, cb3 as int, prev.3.element_count() as int);
            }
            lemma_kept_compose(a, c0, (prev.0.element_count() + prev.1.element_count() + prev.2.element_count()), b3, cb3, prev.3.element_count(), elements.items(), elements.cursor());
        }
        let ghost b4 = elements.items();
        let ghost cb4 = elements.cursor();
        proof {
            assert(b4.skip(cb4 as int).len() == a.skip((c0 + (prev.0.element_count() + prev.1.element_count() + prev.2.element_count() + prev.3.element_count())) as int).len());
        }
        self.4.seq_rebuild(&prev.4, elements);
        let ghost f4 = elements.items();
        proof {
            assert(self.4.seq_rebuilds(
                &prev.4,
                a.subrange(c0 + (prev.0.element_count() + prev.1.element_count() + prev.2.element_count() + prev.3.element_count()) as int, c0 + (prev.0.element_count() + prev.1.element_count() + prev.2.element_count() + prev.3.element_count() + prev.4.element_count()) as int),
                f4.subrange(cb4 as int, (cb4 + self.4.element_count()) as int),
            )) by {
                lemma_sub_shift(a, b4, (c0 + (prev.0.element_count() + prev.1.element_count() + prev.2.element_count() + prev.3.element_count())) as int, cb4 as int, prev.4.element_count() as int);
            }
            lemma_kept_compose(a, c0, (prev.0.element_count() + prev.1.element_count() + prev.2.element_count() + prev.3.element_count()), b4, cb4, prev.4.element_count(), elements.items(), elements.cursor());
        }
        let ghost b5 = elements.items();
        let ghost cb5 = elements.cursor();
        proof {
            assert(b5.skip(cb5 as int).len() == a.skip((c0 + (prev.0.element_count() + prev.1.element_count() + prev.2.element_count() + prev.3.element_count() + prev.4.element_count())) as int).len());
        }
        self.5.seq_rebuild(&prev.5, elements);
        let ghost f5 = elements.items();
        proof {
            assert(self.5.seq_rebuilds(
                &prev.5,
                a.subrange(c0 + (prev.0.element_count() + prev.1.element_count() + prev.2.element_count() + prev.3.element_count() + prev.4.element_count()) as int, c0 + (prev.0.element_count() + prev.1.element_count() + prev.2.element_count() + prev.3.element_count() + prev.4.element_count() + prev.5.element_count()) as int),
                f5.subrange(cb5 as int, (cb5 + self.5.element_count()) as int),
            )) by {
                lemma_sub_shift(a, b5, (c0 + (prev.0.element_count() + prev.1.element_count() + prev.2.element_count() + prev.3.element_count() + prev.4.element_count())) as int, cb5 as int, prev.5.element_count() as int);
            }
            lemma_kept_compose(a, c0, (prev.0.element_count() + prev.1.element_count() + prev.2.element_count() + prev.3.element_count() + prev.4.element_count()), b5, cb5, prev.5.element_count(), elements.items(), elements.cursor());
        }
        let ghost b6 = elements.items();
        let ghost cb6 = elements.cursor();
        proof {
            assert(b6.skip(cb6 as int).len() == a.skip((c0 + (prev.0.element_count() + prev.1.element_count() + prev.2.element_count() + prev.3.element_count() + prev.4.element_count() + prev.5.element_count())) as int).len());
        }
        self.6.seq_rebuild(&prev.6, elements);
        let ghost f6 = elements.items();
        proof {
            assert(self.6.seq_rebuilds(
                &prev.6,
                a.subrange(c0 + (prev.0.element_count() + prev.1.element_count() + prev.2.element_count() + prev.3.element_count() + prev.4.element_count() + prev.5.element_count()) as int, c0 + (prev.0.element_count() + prev.1.element_count() + prev.2.element_count() + prev.3.element_count() + prev.4.element_count() + prev.5.element_count() + prev.6.element_count()) as int),
                f6.subrange(cb6 as int, (cb6 + self.6.element_count()) as int),
            )) by {
                lemma_sub_shift(a, b6, (c0 + (prev.0.element_count() + prev.1.element_count() + prev.2.element_count() + prev.3.element_count() + prev.4.element_count() + prev.5.element_count())) as int, cb6 as int, prev.6.element_count() as int);
            }
            lemma_kept_compose(a, c0, (prev.0.element_count() + prev.1.element_count() + prev.2.element_count() + prev.3.element_count() + prev.4.element_count() + prev.5.element_count()), b6, cb6, prev.6.element_count(), elements.items(), elements.cursor());
        }
        let ghost ce = elements.cursor();
        proof {
            let fin = elements.items();
            assert(fin.take(ce as int) =~= f6.take(ce as int));
            lemma_take_link(fin, f6, f5, cb6 as int, ce as int);
            lemma_take_link(fin, f5, f4, cb5 as int, cb6 as int);
            lemma_take_link(fin, f4, f3, cb4 as int, cb5 as int);
            lemma_take_link(fin, f3, f2, cb3 as int, cb4 as int);
            lemma_take_link(fin, f2, f1, cb2 as int, cb3 as int);
            lemma_take_link(fin, f1, f0, cb1 as int, cb2 as int);
            assert(self.0.seq_rebuilds(
                &prev.0,
                region(a, c0, prev.element_count()).subrange(0int, (prev.0.element_count()) as int),
                region(fin, c0, self.element_count()).subrange(0int, (self.0.element_count()) as int),
            )) by {
                lemma_sub_stable(fin, f0, cb1 as int, cb0 as int, cb1 as int);
                assert(region(fin, c0, self.element_count()).subrange(0int, (self.0.element_count()) as int) =~= fin.subrange(cb0 as int, cb1 as int));
                assert(region(a, c0, prev.element_count()).subrange(0int, (prev.0.element_count()) as int) =~= a.subrange(c0 + 0int, c0 + (prev.0.element_count()) as int));
            }
            assert(self.1.seq_rebuilds(
                &prev.1,
                region(a, c0, prev.element_count()).subrange((prev.0.element_count()) as int, (prev.0.element_count() + prev.1.element_count()) as int),
                region(fin, c0, self.element_count()).subrange((self.0.element_count()) as int, (self.0.element_count() + self.1.element_count()) as int),
            )) by {
                lemma_sub_stable(fin, f1, cb2 as int, cb1 as int, cb2 as int);
                assert(region(fin, c0, self.element_count()).subrange((self.0.element_count()) as int, (self.0.element_count() + self.1.element_count()) as int) =~= fin.subrange(cb1 as int, cb2 as int));
                assert(region(a, c0, prev.element_count()).subrange((prev.0.element_count()) as int, (prev.0.element_count() + prev.1.element_count()) as int) =~= a.subrange(c0 + (prev.0.element_count()) as int, c0 + (prev.0.element_count() + prev.1.element_count()) as int));
            }
            assert(self.2.seq_rebuilds(
                &prev.2,
                region(a, c0, prev.element_count()).subrange((prev.0.element_count() + prev.1.element_count()) as int, (prev.0.element_count() + prev.1.element_count() + prev.2.element_count()) as int),
                region(fin, c0, self.element_count()).subrange((self.0.element_count() + self.1.element_count()) as int, (self.0.element_count() + self.1.element_count() + self.2.element_count()) as int),
            )) by {
                lemma_sub_stable(fin, f2, cb3 as int, cb2 as int, cb3 as int);
                assert(region(fin, c0, self.element_count()).subrange((self.0.element_count() + self.1.element_count()) as int, (self.0.element_count() + self.1.element_count() + self.2.element_count()) as int) =~= fin.subrange(cb2 as int, cb3 as int));
                assert(region(a, c0, prev.element_count()).subrange((prev.0.element_count() + prev.1.element_count()) as int, (prev.0.element_count() + prev.1.element_count() + prev.2.element_count()) as int) =~= a.subrange(c0 + (prev.0.element_count() + prev.1.element_count()) as int, c0 + (prev.0.element_count() + prev.1.element_count() + prev.2.element_count()) as int));
            }
            assert(self.3.seq_rebuilds(
                &prev.3,
                region(a, c0, prev.element_count()).subrange((prev.0.element_count() + prev.1.element_count() + prev.2.element_count()) as int, (prev.0.element_count() + prev.1.element_count() + prev.2.element_count() + prev.3.element_count()) as int),
                region(fin, c0, self.element_count()).subrange((self.0.element_count() + self.1.element_count() + self.2.element_count()) as int, (self.0.element_count() + self.1.element_count() + self.2.element_count() + self.3.element_count()) as int),
            )) by {
                lemma_sub_stable(fin, f3, cb4 as int, cb3 as int, cb4 as int);
                assert(region(fin, c0, self.element_count()).subrange((self.0.element_count() + self.1.element_count() + self.2.element_count()) as int, (self.0.element_count() + self.1.element_count() + self.2.element_count() + self.3.element_count()) as int) =~= fin.subrange(cb3 as int, cb4 as int));
                assert(region(a, c0, prev.element_count()).subrange((prev.0.element_count() + prev.1.element_count() + prev.2.element_count()) as int, (prev.0.element_count() + prev.1.element_count() + prev.2.element_count() + prev.3.element_count()) as int) =~= a.subrange(c0 + (prev.0.element_count() + prev.1.element_count() + prev.2.element_count()) as int, c0 + (prev.0.element_count() + prev.1.element_count() + prev.2.element_count() + prev.3.element_count()) as int));
            }
            assert(self.4.seq_rebuilds(
                &prev.4,
                region(a, c0, prev.element_count()).subrange((prev.0.element_count() + prev.1.element_count() + prev.2.element_count() + prev.3.element_count()) as int, (prev.0.element_count() + prev.1.element_count() + prev.2.element_count() + prev.3.element_count() + prev.4.element_count()) as int),
                region(fin, c0, self.element_count()).subrange((self.0.element_count() + self.1.element_count() + self.2.element_count() + self.3.element_count()) as int, (self.0.element_count() + self.1.element_count() + self.2.element_count() + self.3.element_count() + self.4.element_count()) as int),
            )) by {
                lemma_sub_stable(fin, f4, cb5 as int, cb4 as int, cb5 as int);
                assert(region(fin, c0, self.element_count()).subrange((self.0.element_count() + self.1.element_count() + self.2.element_count() + self.3.element_count()) as int, (self.0.element_count() + self.1.element_count() + self.2.element_count() + self.3.element_count() + self.4.element_count()) as int) =~= fin.subrange(cb4 as int, cb5 as int));
                assert(region(a, c0, prev.element_count()).subrange((prev.0.element_count() + prev.1.element_count() + prev.2.element_count() + prev.3.element_count()) as int, (prev.0.element_count() + prev.1.element_count() + prev.2.element_count() + prev.3.element_count() + prev.4.element_count()) as int) =~= a.subrange(c0 + (prev.0.element_count() + prev.1.element_count() + prev.2.element_count() + prev.3.element_count()) as int, c0 + (prev.0.element_count() + prev.1.element_count() + prev.2.element_count() + prev.3.element_count() + prev.4.element_count()) as int));
            }
            assert(self.5.seq_rebuilds(
                &prev.5,
                region(a, c0, prev.element_count()).subrange((prev.0.element_count() + prev.1.element_count() + prev.2.element_count() + prev.3.element_count() + prev.4.element_count()) as int, (prev.0.element_count() + prev.1.element_count() + prev.2.element_count() + prev.3.element_count() + prev.4.element_count() + prev.5.element_count()) as int),
                region(fin, c0, self.element_count()).subrange((self.0.element_count() + self.1.element_count() + self.2.element_count() + self.3.element_count() + self.4.element_count()) as int, (self.0.element_count() + self.1.element_count() + self.2.element_count() + self.3.element_count() + self.4.element_count() + self.5.element_count()) as int),
            )) by {
                lemma_sub_stable(fin, f5, cb6 as int, cb5 as int, cb6 as int);
                assert(region(fin, c0, self.element_count()).subrange((self.0.element_count() + self.1.element_count() + self.2.element_count() + self.3.element_count() + self.4.element_count()) as int, (self.0.element_count() + self.1.element_count() + self.2.element_count() + self.3.element_count() + self.4.element_count() + self.5.element_count()) as int) =~= fin.subrange(cb5 as int, cb6 as int));
                assert(region(a, c0, prev.element_count()).subrange((prev.0.element_count() + prev.1.element_count() + prev.2.element_count() + prev.3.element_count() + prev.4.element_count()) as int, (prev.0.element_count() + prev.1.element_count() + prev.2.element_count() + prev.3.element_count() + prev.4.element_count() + prev.5.element_count()) as int) =~= a.subrange(c0 + (prev.0.element_count() + prev.1.element_count() + prev.2.element_count() + prev.3.element_count() + prev.4.element_count()) as int, c0 + (prev.0.element_count() + prev.1.element_count() + prev.2.element_count() + prev.3.element_count() + prev.4.element_count() + prev.5.element_count()) as int));
            }
            assert(self.6.seq_rebuilds(
                &prev.6,
                region(a, c0, prev.element_count()).subrange((prev.0.element_count() + prev.1.element_count() + prev.2.element_count() + prev.3.element_count() + prev.4.element_count() + prev.5.element_count()) as int, (prev.0.element_count() + prev.1.element_count() + prev.2.element_count() + prev.3.element_count() + prev.4.element_count() + prev.5.element_count() + prev.6.element_count()) as int),
                region(fin, c0, self.element_count()).subrange((self.0.element_count() + self.1.element_count() + self.2.element_count() + self.3.element_count() + self.4.element_count() + self.5.element_count()) as int, (self.0.element_count() + self.1.element_count() + self.2.element_count() + self.3.element_count() + self.4.element_count() + self.5.element_count() + self.6.element_count()) as int),
            )) by {
                assert(region(fin, c0, self.element_count()).subrange((self.0.element_count() + self.1.element_count() + self.2.element_count() + self.3.element_count() + self.4.element_count() + self.5.element_count()) as int, (self.0.element_count() + self.1.element_count() + self.2.element_count() + self.3.element_count() + self.4.element_count() + self.5.element_count() + self.6.element_count()) as int) =~= fin.subrange(cb6 as int, ce as int));
                assert(region(a, c0, prev.element_count()).subrange((prev.0.element_count() + prev.1.element_count() + prev.2.element_count() + prev.3.element_count() + prev.4.element_count() + prev.5.element_count()) as int, (prev.0.element_count() + prev.1.element_count() + prev.2.element_count() + prev.3.element_count() + prev.4.element_count() + prev.5.element_count() + prev.6.element_count()) as int) =~= a.subrange(c0 + (prev.0.element_count() + prev.1.element_count() + prev.2.element_count() + prev.3.element_count() + prev.4.element_count() + prev.5.element_count()) as int, c0 + (prev.0.element_count() + prev.1.element_count() + prev.2.element_count() + prev.3.element_count() + prev.4.element_count() + prev.5.element_count() + prev.6.element_count()) as int));
            }
        }
    }

    #[verifier::spinoff_prover]
    #[verifier::rlimit(100)]
    fn seq_teardown<Splice: ElementSplice<Element>>(&self, elements: &mut Splice) {
        let ghost a = elements.items();
        let ghost c0 = elements.cursor();
        proof {
            lemma_kept_refl(a, c0);
        }
        let ghost b0 = elements.items();
        let ghost cb0 = elements.cursor();
        proof {
            assert(b0.skip(cb0 as int).len() == a.skip((c0 + 0) as int).len());
        }
        self.0.seq_teardown(elements);
        proof {
            assert(self.0.seq_tears_down(region(a, c0, self.element_count()).subrange(0int, (self.0.element_count()) as int))) by {
                lemma_sub_shift(a, b0, (c0 + 0) as int, cb0 as int, self.0.element_count() as int);
                assert(region(a, c0, self.element_count()).subrange(0int, (self.0.element_count()) as int) =~= a.subrange(c0 + 0int, c0 + (self.0.element_count()) as int));
            }
            lemma_kept_compose(a, c0, 0, b0, cb0, self.0.element_count(), elements.items(), elements.cursor());
        }
        let ghost b1 = elements.items();
        let ghost cb1 = elements.cursor();
        proof {
            assert(b1.skip(cb1 as int).len() == a.skip((c0 + (self.0.element_count())) as int).len());
        }
        self.1.seq_teardown(elements);
        proof {
            assert(self.1.seq_tears_down(region(a, c0, self.element_count()).subrange((self.0.element_count()) as int, (self.0.element_count() + self.1.element_count()) as int))) by {
                lemma_sub_shift(a, b1, (c0 + (self.0.element_count())) as int, cb1 as int, self.1.element_count() as int);
                assert(region(a, c0, self.element_count()).subrange((self.0.element_count()) as int, (self.0.element_count() + self.1.element_count()) as int) =~= a.subrange(c0 + (self.0.element_count()) as int, c0 + (self.0.element_count() + self.1.element_count()) as int));
            }
            lemma_kept_compose(a, c0, (self.0.element_count()), b1, cb1, self.1.element_count(), elements.items(), elements.cursor());
        }
        let ghost b2 = elements.items();
        let ghost cb2 = elements.cursor();
        proof {
            assert(b2.skip(cb2 as int).len() == a.skip((c0 + (self.0.element_count() + self.1.element_count())) as int).len());
        }
        self.2.seq_teardown(elements);
        proof {
            assert(self.2.seq_tears_down(region(a, c0, self.element_count()).subrange((self.0.element_count() + self.1.element_count()) as int, (self.0.element_count() + self.1.element_count() + self.2.element_count()) as int))) by {
                lemma_sub_shift(a, b2, (c0 + (self.0.element_count() + self.1.element_count())) as int, cb2 as int, self.2.element_count() as int);
                assert(region(a, c0, self.element_count()).subrange((self.0.element_count() + self.1.element_count()) as int, (self.0.element_count() + self.1.element_count() + self.2.element_count()) as int) =~= a.subrange(c0 + (self.0.element_count() + self.1.element_count()) as int, c0 + (self.0.element_count() + self.1.element_count() + self.2.element_count()) as int));
            }
            lemma_kept_compose(a, c0, (self.0.element_count() + self.1.element_count()), b2, cb2, self.2.element_count(), elements.items(), elements.cursor());
        }
        let ghost b3 = elements.items();
        let ghost cb3 = elements.cursor();
        proof {
            assert(b3.skip(cb3 as int).len() == a.skip((c0 + (self.0.element_count() + self.1.element_count() + self.2.element_count())) as int).len());
        }
        self.3.seq_teardown(elements);
        proof {
            assert(self.3.seq_tears_down(region(a, c0, self.element_count()).subrange((self.0.element_count() + self.1.element_count() + self.2.element_count()) as int, (self.0.element_count() + self.1.element_count() + self.2.element_count() + self.3.element_count()) as int))) by {
                lemma_sub_shift(a, b3, (c0 + (self.0.element_count() + self.1.element_count() + self.2.element_count())) as int, cb3 as int, self.3.element_count() as int);
                assert(region(a, c0, self.element_count()).subrange((self.0.element_count() + self.1.element_count() + self.2.element_count()) as int, (self.0.element_count() + self.1.element_count() + self.2.element_count() + self.3.element_count()) as int) =~= a.subrange(c0 + (self.0.element_count() + self.1.element_count() + self.2.element_count()) as int, c0 + (self.0.element_count() + self.1.element_count() + self.2.element_count() + self.3.element_count()) as int));
            }
            lemma_kept_compose(a, c0, (self.0.element_count() + self.1.element_count() + self.2.element_count()), b3, cb3, self.3.element_count(), elements.items(), elements.cursor());
        }
        let ghost b4 = elements.items();
        let ghost cb4 = elements.cursor();
        proof {
            assert(b4.skip(cb4 as int).len() == a.skip((c0 + (self.0.element_count() + self.1.element_count() + self.2.element_count() + self.3.element_count())) as int).len());
        }
        self.4.seq_teardown(elements);
        proof {
            assert(self.4.seq_tears_down(region(a, c0, self.element_count()).subrange((self.0.element_count() + self.1.element_count() + self.2.element_count() + self.3.element_count()) as int, (self.0.element_count() + self.1.element_count() + self.2.element_count() + self.3.element_count() + self.4.element_count()) as int))) by {
                lemma_sub_shift(a, b4, (c0 + (self.0.element_count() + self.1.element_count() + self.2.element_count() + self.3.element_count())) as int, cb4 as int, self.4.element_count() as int);
                assert(region(a, c0, self.element_count()).subrange((self.0.element_count() + self.1.element_count() + self.2.element_count() + self.3.element_count()) as int, (self.0.element_count() + self.1.element_count() + self.2.element_count() + self.3.element_count() + self.4.element_count()) as int) =~= a.subrange(c0 + (self.0.element_count() + self.1.element_count() + self.2.element_count() + self.3.element_count()) as int, c0 + (self.0.element_count() + self.1.element_count() + self.2.element_count() + self.3.element_count() + self.4.element_count()) as int));
            }
            lemma_kept_compose(a, c0, (self.0.element_count() + self.1.element_count() + self.2.element_count() + self.3.element_count()), b4, cb4, self.4.element_count(), elements.items(), elements.cursor());
        }
        let ghost b5 = elements.items();
        let ghost cb5 = elements.cursor();
        proof {
            assert(b5.skip(cb5 as int).len() == a.skip((c0 + (self.0.element_count() + self.1.element_count() + self.2.element_count() + self.3.element_count() + self.4.element_count())) as int).len());
        }
        self.5.seq_teardown(elements);
        proof {
            assert(self.5.seq_tears_down(region(a, c0, self.element_count()).subrange((self.0.element_count() + self.1.element_count() + self.2.element_count() + self.3.element_count() + self.4.element_count()) as int, (self.0.element_count() + self.1.element_count() + self.2.element_count() + self.3.element_count() + self.4.element_count() + self.5.element_count()) as int))) by {
                lemma_sub_shift(a, b5, (c0 + (self.0.element_count() + self.1.element_count() + self.2.element_count() + self.3.element_count() + self.4.element_count())) as int, cb5 as int, self.5.element_count() as int);
                assert(region(a, c0, self.element_count()).subrange((self.0.element_count() + self.1.element_count() + self.2.element_count() + self.3.element_count() + self.4.element_count()) as int, (self.0.element_count() + self.1.element_count() + self.2.element_count() + self.3.element_count() + self.4.element_count() + self.5.element_count()) as int) =~= a.subrange(c0 + (self.0.element_count() + self.1.element_count() + self.2.element_count() + self.3.element_count() + self.4.element_count()) as int, c0 + (self.0.element_count() + self.1.element_count() + self.2.element_count() + self.3.element_count() + self.4.element_count() + self.5.element_count()) as int));
            }
            lemma_kept_compose(a, c0, (self.0.element_count() + self.1.element_count() + self.2.element_count() + self.3.element_count() + self.4.element_count()), b5, cb5, self.5.element_count(), elements.items(), elements.cursor());
        }
        let ghost b6 = elements.items();
        let ghost cb6 = elements.cursor();
        proof {
            assert(b6.skip(cb6 as int).len() == a.skip((c0 + (self.0.element_count() + self.1.element_count() + self.2.element_count() + self.3.element_count() + self.4.element_count() + self.5.element_count())) as int).len());
        }
        self.6.seq_teardown(elements);
        proof {
            assert(self.6.seq_tears_down(region(a, c0, self.element_count()).subrange((self.0.element_count() + self.1.element_count() + self.2.element_count() + self.3.element_count() + self.4.element_count() + self.5.element_count()) as int, (self.0.element_count() + self.1.element_count() + self.2.element_count() + self.3.element_count() + self.4.element_count() + self.5.element_count() + self.6.element_count()) as int))) by {
                lemma_sub_shift(a, b6, (c0 + (self.0.element_count() + self.1.element_count() + self.2.element_count() + self.3.element_count() + self.4.element_count() + self.5.element_count())) as int, cb6 as int, self.6.element_count() as int);
                assert(region(a, c0, self.element_count()).subrange((self.0.element_count() + self.1.element_count() + self.2.element_count() + self.3.element_count() + self.4.element_count() + self.5.element_count()) as int, (self.0.element_count() + self.1.element_count() + self.2.element_count() + self.3.element_count() + self.4.element_count() + self.5.element_count() + self.6.element_count()) as int) =~= a.subrange(c0 + (self.0.element_count() + self.1.element_count() + self.2.element_count() + self.3.element_count() + self.4.element_count() + self.5.element_count()) as int, c0 + (self.0.element_count() + self.1.element_count() + self.2.element_count() + self.3.element_count() + self.4.element_count() + self.5.element_count() + self.6.element_count()) as int));
            }
            lemma_kept_compose(a, c0, (self.0.element_count() + self.1.element_count() + self.2.element_count() + self.3.element_count() + self.4.element_count() + self.5.element_count()), b6, cb6, self.6.element_count(), elements.items(), elements.cursor());
        }
    }
}

/// A tuple of 8 sequences builds the elements of each, in order.
impl<State, Element, S0, S1, S2, S3, S4, S5, S6, S7> ViewSequence<State, Element> for (S0, S1, S2, S3, S4, S5, S6, S7,) where
    S0: ViewSequence<State, Element>,
    S1: ViewSequence<State, Element>,
    S2: ViewSequence<State, Element>,
    S3: ViewSequence<State, Element>,
    S4: ViewSequence<State, Element>,
    S5: ViewSequence<State, Element>,
    S6: ViewSequence<State, Element>,
    S7: ViewSequence<State, Element>,
 {
    open spec fn element_count(&self) -> nat {
        self.0.element_count() + self.1.element_count() + self.2.element_count() + self.3.element_count() + self.4.element_count() + self.5.element_count() + self.6.element_count() + self.7.element_count()
    }

    open spec fn seq_builds(&self, out: Seq<Element>) -> bool {
        &&& out.len() == self.element_count()
        &&& self.0.seq_builds(out.subrange(0int, (self.0.element_count()) as int))
        &&& self.1.seq_builds(out.subrange((self.0.element_count()) as int, (self.0.element_count() + self.1.element_count()) as int))
        &&& self.2.seq_builds(out.subrange((self.0.element_count() + self.1.element_count()) as int, (self.0.element_count() + self.1.element_count() + self.2.element_count()) as int))
        &&& self.3.seq_builds(out.subrange((self.0.element_count() + self.1.element_count() + self.2.element_count()) as int, (self.0.element_count() + self.1.element_count() + self.2.element_count() + self.3.element_count()) as int))
        &&& self.4.seq_builds(out.subrange((self.0.element_count() + self.1.element_count() + self.2.element_count() + self.3.element_count()) as int, (self.0.element_count() + self.1.element_count() + self.2.element_count() + self.3.element_count() + self.4.element_count()) as int))
        &&& self.5.seq_builds(out.subrange((self.0.element_count() + self.1.element_count() + self.2.element_count() + self.3.element_count() + self.4.element_count()) as int, (self.0.element_count() + self.1.element_count() + self.2.element_count() + self.3.element_count() + self.4.element_count() + self.5.element_count()) as int))
        &&& self.6.seq_builds(out.subrange((self.0.element_count() + self.1.element_count() + self.2.element_count() + self.3.element_count() + self.4.element_count() + self.5.element_count()) as int, (self.0.element_count() + self.1.element_count() + self.2.element_count() + self.3.element_count() + self.4.element_count() + self.5.element_count() + self.6.element_count()) as int))
        &&& self.7.seq_builds(out.subrange((self.0.element_count() + self.1.element_count() + self.2.element_count() + self.3.element_count() + self.4.element_count() + self.5.element_count() + self.6.element_count()) as int, (self.0.element_count() + self.1.element_count() + self.2.element_count() + self.3.element_count() + self.4.element_count() + self.5.element_count() + self.6.element_count() + self.7.element_count()) as int))
    }

    open spec fn seq_rebuilds(&self, prev: &Self, before: Seq<Element>, after: Seq<Element>) -> bool {
        &&& before.len() == prev.element_count()
        &&& after.len() == self.element_count()
        &&& self.0.seq_rebuilds(
            &prev.0,
            before.subrange(0int, (prev.0.element_count()) as int),
            after.subrange(0int, (self.0.element_count()) as int),
        )
        &&& self.1.seq_rebuilds(
            &prev.1,
            before.subrange((prev.0.element_count()) as int, (prev.0.element_count() + prev.1.element_count()) as int),
            after.subrange((self.0.element_count()) as int, (self.0.element_count() + self.1.element_count()) as int),
        )
        &&& self.2.seq_rebuilds(
            &prev.2,
            before.subrange((prev.0.element_count() + prev.1.element_count()) as int, (prev.0.element_count() + prev.1.element_count() + prev.2.element_count()) as int),
            after.subrange((self.0.element_count() + self.1.element_count()) as int, (self.0.element_count() + self.1.element_count() + self.2.element_count()) as int),
        )
        &&& self.3.seq_rebuilds(
            &prev.3,
            before.subrange((prev.0.element_count() + prev.1.element_count() + prev.2.element_count()) as int, (prev.0.element_count() + prev.1.element_count() + prev.2.element_count() + prev.3.element_count()) as int),
            after.subrange((self.0.element_count() + self.1.element_count() + self.2.element_count()) as int, (self.0.element_count() + self.1.element_count() + self.2.element_count() + self.3.element_count()) as int),
        )
        &&& self.4.seq_rebuilds(
            &prev.4,
            before.subrange((prev.0.element_count() + prev.1.element_count() + prev.2.element_count() + prev.3.element_count()) as int, (prev.0.element_count() + prev.1.element_count() + prev.2.element_count() + prev.3.element_count() + prev.4.element_count()) as int),
            after.subrange((self.0.element_count() + self.1.element_count() + self.2.element_count() + self.3.element_count()) as int, (self.0.element_count() + self.1.element_count() + self.2.element_count() + self.3.element_count() + self.4.element_count()) as int),
        )
        &&& self.5.seq_rebuilds(
            &prev.5,
            before.subrange((prev.0.element_count() + prev.1.element_count() + prev.2.element_count() + prev.3.element_count() + prev.4.element_count()) as int, (prev.0.element_count() + prev.1.element_count() + prev.2.element_count() + prev.3.element_count() + prev.4.element_count() + prev.5.element_count()) as int),
            after.subrange((self.0.element_count() + self.1.element_count() + self.2.element_count() + self.3.element_count() + self.4.element_count()) as int, (self.0.element_count() + self.1.element_count() + self.2.element_count() + self.3.element_count() + self.4.element_count() + self.5.element_count()) as int),
        )
        &&& self.6.seq_rebuilds(
            &prev.6,
            before.subrange((prev.0.element_count() + prev.1.element_count() + prev.2.element_count() + prev.3.element_count() + prev.4.element_count() + prev.5.element_count()) as int, (prev.0.element_count() + prev.1.element_count() + prev.2.element_count() + prev.3.element_count() + prev.4.element_count() + prev.5.element_count() + prev.6.element_count()) as int),
            after.subrange((self.0.element_count() + self.1.element_count() + self.2.element_count() + self.3.element_count() + self.4.element_count() + self.5.element_count()) as int, (self.0.element_count() + self.1.element_count() + self.2.element_count() + self.3.element_count() + self.4.element_count() + self.5.element_count() + self.6.element_count()) as int),
        )
        &&& self.7.seq_rebuilds(
            &prev.7,
            before.subrange((prev.0.element_count() + prev.1.element_count() + prev.2.element_count() + prev.3.element_count() + prev.4.element_count() + prev.5.element_count() + prev.6.element_count()) as int, (prev.0.element_count() + prev.1.element_count() + prev.2.element_count() + prev.3.element_count() + prev.4.element_count() + prev.5.element_count() + prev.6.element_count() + prev.7.element_count()) as int),
            after.subrange((self.0.element_count() + self.1.element_count() + self.2.element_count() + self.3.element_count() + self.4.element_count() + self.5.element_count() + self.6.element_count()) as int, (self.0.element_count() + self.1.element_count() + self.2.element_count() + self.3.element_count() + self.4.element_count() + self.5.element_count() + self.6.element_count() + self.7.element_count()) as int),
        )
    }

    open spec fn seq_tears_down(&self, before: Seq<Element>) -> bool {
        &&& before.len() == self.element_count()
        &&& self.0.seq_tears_down(before.subrange(0int, (self.0.element_count()) as int))
        &&& self.1.seq_tears_down(before.subrange((self.0.element_count()) as int, (self.0.element_count() + self.1.element_count()) as int))
        &&& self.2.seq_tears_down(before.subrange((self.0.element_count() + self.1.element_count()) as int, (self.0.element_count() + self.1.element_count() + self.2.element_count()) as int))
        &&& self.3.seq_tears_down(before.subrange((self.0.element_count() + self.1.element_count() + self.2.element_count()) as int, (self.0.element_count() + self.1.element_count() + self.2.element_count() + self.3.element_count()) as int))
        &&& self.4.seq_tears_down(before.subrange((self.0.element_count() + self.1.element_count() + self.2.element_count() + self.3.element_count()) as int, (self.0.element_count() + self.1.element_count() + self.2.element_count() + self.3.element_count() + self.4.element_count()) as int))
        &&& self.5.seq_tears_down(before.subrange((self.0.element_count() + self.1.element_count() + self.2.element_count() + self.3.element_count() + self.4.element_count()) as int, (self.0.element_count() + self.1.element_count() + self.2.element_count() + self.3.element_count() + self.4.element_count() + self.5.element_count()) as int))
        &&& self.6.seq_tears_down(before.subrange((self.0.element_count() + self.1.element_count() + self.2.element_count() + self.3.element_count() + self.4.element_count() + self.5.element_count()) as int, (self.0.element_count() + self.1.element_count() + self.2.element_count() + self.3.element_count() + self.4.element_count() + self.5.element_count() + self.6.element_count()) as int))
        &&& self.7.seq_tears_down(before.subrange((self.0.element_count() + self.1.element_count() + self.2.element_count() + self.3.element_count() + self.4.element_count() + self.5.element_count() + self.6.element_count()) as int, (self.0.element_count() + self.1.element_count() + self.2.element_count() + self.3.element_count() + self.4.element_count() + self.5.element_count() + self.6.element_count() + self.7.element_count()) as int))
    }

    #[verifier::spinoff_prover]
    #[verifier::rlimit(100)]
    fn seq_build(&self, elements: &mut Vec<Element>) {
        let ghost start = elements@;
        let ghost sl = start.len() as int;
        let ghost b0 = elements@;
        self.0.seq_build(elements);
        let ghost f0 = elements@;
        let ghost b1 = elements@;
        self.1.seq_build(elements);
        let ghost f1 = elements@;
        proof {
            lemma_prefix_kept(start, b1, elements@);
        }
        let ghost b2 = elements@;
        self.2.seq_build(elements);
        let ghost f2 = elements@;
        proof {
            lemma_prefix_kept(start, b2, elements@);
        }
        let ghost b3 = elements@;
        self.3.seq_build(elements);
        let ghost f3 = elements@;
        proof {
            lemma_prefix_kept(start, b3, elements@);
        }
        let ghost b4 = elements@;
        self.4.seq_build(elements);
        let ghost f4 = elements@;
        proof {
            lemma_prefix_kept(start, b4, elements@);
        }
        let ghost b5 = elements@;
        self.5.seq_build(elements);
        let ghost f5 = elements@;
        proof {
            lemma_prefix_kept(start, b5, elements@);
        }
        let ghost b6 = elements@;
        self.6.seq_build(elements);
        let ghost f6 = elements@;
        proof {
            lemma_prefix_kept(start, b6, elements@);
        }
        let ghost b7 = elements@;
        self.7.seq_build(elements);
        let ghost f7 = elements@;
        proof {
            lemma_prefix_kept(start, b7, elements@);
        }
        proof {
            let fin = elements@;
            assert(fin.take(fin.len() as int) =~= f7.take(fin.len() as int));
            assert(f7.take(b7.len() as int) == b7);
            assert(b7.take(b7.len() as int) =~= b7);
            lemma_take_link(fin, f7, b7, b7.len() as int, fin.len() as int);
            assert(b6.take(b6.len() as int) =~= b6);
            lemma_take_link(fin, f6, b6, b6.len() as int, b7.len() as int);
            assert(b5.take(b5.len() as int) =~= b5);
            lemma_take_link(fin, f5, b5, b5.len() as int, b6.len() as int);
            assert(b4.take(b4.len() as int) =~= b4);
            lemma_take_link(fin, f4, b4, b4.len() as int, b5.len() as int);
            assert(b3.take(b3.len() as int) =~= b3);
            lemma_take_link(fin, f3, b3, b3.len() as int, b4.len() as int);
            assert(b2.take(b2.len() as int) =~= b2);
            lemma_take_link(fin, f2, b2, b2.len() as int, b3.len() as int);
            assert(b1.take(b1.len() as int) =~= b1);
            lemma_take_link(fin, f1, b1, b1.len() as int, b2.len() as int);
            assert(self.0.seq_builds(fin.skip(sl).subrange(0int, (self.0.element_count()) as int))) by {
                lemma_sub_stable(fin, f0, b1.len() as int, sl + 0int, sl + (self.0.element_count()) as int);
                assert(f0.skip(b0.len() as int) =~= f0.subrange(sl + 0int, sl + (self.0.element_count()) as int));
                assert(fin.skip(sl).subrange(0int, (self.0.element_count()) as int) =~= fin.subrange(sl + 0int, sl + (self.0.element_count()) as int));
            }
            assert(self.1.seq_builds(fin.skip(sl).subrange((self.0.element_count()) as int, (self.0.element_count() + self.1.element_count()) as int))) by {
                lemma_sub_stable(fin, f1, b2.len() as int, sl + (self.0.element_count()) as int, sl + (self.0.element_count() + self.1.element_count()) as int);
                assert(f1.skip(b1.len() as int) =~= f1.subrange(sl + (self.0.element_count()) as int, sl + (self.0.element_count() + self.1.element_count()) as int));
                assert(fin.skip(sl).subrange((self.0.element_count()) as int, (self.0.element_count() + self.1.element_count()) as int) =~= fin.subrange(sl + (self.0.element_count()) as int, sl + (self.0.element_count() + self.1.element_count()) as int));
            }
            assert(self.2.seq_builds(fin.skip(sl).subrange((self.0.element_count() + self.1.element_count()) as int, (self.0.element_count() + self.1.element_count() + self.2.element_count()) as int))) by {
                lemma_sub_stable(fin, f2, b3.len() as int, sl + (self.0.element_count() + self.1.element_count()) as int, sl + (self.0.element_count() + self.1.element_count() + self.2.element_count()) as int);
                assert(f2.skip(b2.len() as int) =~= f2.subrange(sl + (self.0.element_count() + self.1.element_count()) as int, sl + (self.0.element_count() + self.1.element_count() + self.2.element_count()) as int));
                assert(fin.skip(sl).subrange((self.0.element_count() + self.1.element_count()) as int, (self.0.element_count() + self.1.element_count() + self.2.element_count()) as int) =~= fin.subrange(sl + (self.0.element_count() + self.1.element_count()) as int, sl + (self.0.element_count() + self.1.element_count() + self.2.element_count()) as int));
            }
            assert(self.3.seq_builds(fin.skip(sl).subrange((self.0.element_count() + self.1.element_count() + self.2.element_count()) as int, (self.0.element_count() + self.1.element_count() + self.2.element_count() + self.3.element_count()) as int))) by {
                lemma_sub_stable(fin, f3, b4.len() as int, sl + (self.0.element_count() + self.1.element_count() + self.2.element_count()) as int, sl + (self.0.element_count() + self.1.element_count() + self.2.element_count() + self.3.element_count()) as int);
                assert(f3.skip(b3.len() as int) =~= f3.subrange(sl + (self.0.element_count() + self.1.element_count() + self.2.element_count()) as int, sl + (self.0.element_count() + self.1.element_count() + self.2.element_count() + self.3.element_count()) as int));
                assert(fin.skip(sl).subrange((self.0.element_count() + self.1.element_count() + self.2.element_count()) as int, (self.0.element_count() + self.1.element_count() + self.2.element_count() + self.3.element_count()) as int) =~= fin.subrange(sl + (self.0.element_count() + self.1.element_count() + self.2.element_count()) as int, sl + (self.0.element_count() + self.1.element_count() + self.2.element_count() + self.3.element_count()) as int));
            }
            assert(self.4.seq_builds(fin.skip(sl).subrange((self.0.element_count() + self.1.element_count() + self.2.element_count() + self.3.element_count()) as int, (self.0.element_count() + self.1.element_count() + self.2.element_count() + self.3.element_count() + self.4.element_count()) as int))) by {
                lemma_sub_stable(fin, f4, b5.len() as int, sl + (self.0.element_count() + self.1.element_count() + self.2.element_count() + self.3.element_count()) as int, sl + (self.0.element_count() + self.1.element_count() + self.2.element_count() + self.3.element_count() + self.4.element_count()) as int);
                assert(f4.skip(b4.len() as int) =~= f4.subrange(sl + (self.0.element_count() + self.1.element_count() + self.2.element_count() + self.3.element_count()) as int, sl + (self.0.element_count() + self.1.element_count() + self.2.element_count() + self.3.element_count() + self.4.element_count()) as int));
                assert(fin.skip(sl).subrange((self.0.element_count() + self.1.element_count() + self.2.element_count() + self.3.element_count()) as int, (self.0.element_count() + self.1.element_count() + self.2.element_count() + self.3.element_count() + self.4.element_count()) as int) =~= fin.subrange(sl + (self.0.element_count() + self.1.element_count() + self.2.element_count() + self.3.element_count()) as int, sl + (self.0.element_count() + self.1.element_count() + self.2.element_count() + self.3.element_count() + self.4.element_count()) as int));
            }
            assert(self.5.seq_builds(fin.skip(sl).subrange((self.0.element_count() + self.1.element_count() + self.2.element_count() + self.3.element_count() + self.4.element_count()) as int, (self.0.element_count() + self.1.element_count() + self.2.element_count() + self.3.element_count() + self.4.element_count() + self.5.element_count()) as int))) by {
                lemma_sub_stable(fin, f5, b6.len() as int, sl + (self.0.element_count() + self.1.element_count() + self.2.element_count() + self.3.element_count() + self.4.element_count()) as int, sl + (self.0.element_count() + self.1.element_count() + self.2.element_count() + self.3.element_count() + self.4.element_count() + self.5.element_count()) as int);
                assert(f5.skip(b5.len() as int) =~= f5.subrange(sl + (self.0.element_count() + self.1.element_count() + self.2.element_count() + self.3.element_count() + self.4.element_count()) as int, sl + (self.0.element_count() + self.1.element_count() + self.2.element_count() + self.3.element_count() + self.4.element_count() + self.5.element_count()) as int));
                assert(fin.skip(sl).subrange((self.0.element_count() + self.1.element_count() + self.2.element_count() + self.3.element_count() + self.4.element_count()) as int, (self.0.element_count() + self.1.element_count() + self.2.element_count() + self.3.element_count() + self.4.element_count() + self.5.element_count()) as int) =~= fin.subrange(sl + (self.0.element_count() + self.1.element_count() + self.2.element_count() + self.3.element_count() + self.4.element_count()) as int, sl + (self.0.element_count() + self.1.element_count() + self.2.element_count() + self.3.element_count() + self.4.element_count() + self.5.element_count()) as int));
            }
            assert(self.6.seq_builds(fin.skip(sl).subrange((self.0.element_count() + self.1.element_count() + self.2.element_count() + self.3.element_count() + self.4.element_count() + self.5.element_count()) as int, (self.0.element_count() + self.1.element_count() + self.2.element_count() + self.3.element_count() + self.4.element_count() + self.5.element_count() + self.6.element_count()) as int))) by {
                lemma_sub_stable(fin, f6, b7.len() as int, sl + (self.0.element_count() + self.1.element_count() + self.2.element_count() + self.3.element_count() + self.4.element_count() + self.5.element_count()) as int, sl + (self.0.element_count() + self.1.element_count() + self.2.element_count() + self.3.element_count() + self.4.element_count() + self.5.element_count() + self.6.element_count()) as int);
                assert(f6.skip(b6.len() as int) =~= f6.subrange(sl + (self.0.element_count() + self.1.element_count() + self.2.element_count() + self.3.element_count() + self.4.element_count() + self.5.element_count()) as int, sl + (self.0.element_count() + self.1.element_count() + self.2.element_count() + self.3.element_count() + self.4.element_count() + self.5.element_count() + self.6.element_count()) as int));
                assert(fin.skip(sl).subrange((self.0.element_count() + self.1.element_count() + self.2.element_count() + self.3.element_count() + self.4.element_count() + self.5.element_count()) as int, (self.0.element_count() + self.1.element_count() + self.2.element_count() + self.3.element_count() + self.4.element_count() + self.5.element_count() + self.6.element_count()) as int) =~= fin.subrange(sl + (self.0.element_count() + self.1.element_count() + self.2.element_count() + self.3.element_count() + self.4.element_count() + self.5.element_count()) as int, sl + (self.0.element_count() + self.1.element_count() + self.2.element_count() + self.3.element_count() + self.4.element_count() + self.5.element_count() + self.6.element_count()) as int));
            }
            assert(self.7.seq_builds(fin.skip(sl).subrange((self.0.element_count() + self.1.element_count() + self.2.element_count() + self.3.element_count() + self.4.element_count() + self.5.element_count() + self.6.element_count()) as int, (self.0.element_count() + self.1.element_count() + self.2.element_count() + self.3.element_count() + self.4.element_count() + self.5.element_count() + self.6.element_count() + self.7.element_count()) as int))) by {
                assert(f7.skip(b7.len() as int) =~= f7.subrange(sl + (self.0.element_count() + self.1.element_count() + self.2.element_count() + self.3.element_count() + self.4.element_count() + self.5.element_count() + self.6.element_count()) as int, sl + (self.0.element_count() + self.1.element_count() + self.2.element_count() + self.3.element_count() + self.4.element_count() + self.5.element_count() + self.6.element_count() + self.7.element_count()) as int));
                assert(fin.skip(sl).subrange((self.0.element_count() + self.1.element_count() + self.2.element_count() + self.3.element_count() + self.4.element_count() + self.5.element_count() + self.6.element_count()) as int, (self.0.element_count() + self.1.element_count() + self.2.element_count() + self.3.element_count() + self.4.element_count() + self.5.element_count() + self.6.element_count() + self.7.element_count()) as int) =~= fin.subrange(sl + (self.0.element_count() + self.1.element_count() + self.2.element_count() + self.3.element_count() + self.4.element_count() + self.5.element_count() + self.6.element_count()) as int, sl + (self.0.element_count() + self.1.element_count() + self.2.element_count() + self.3.element_count() + self.4.element_count() + self.5.element_count() + self.6.element_count() + self.7.element_count()) as int));
            }
        }
    }

    #[verifier::spinoff_prover]
    #[verifier::rlimit(100)]
    fn seq_rebuild<Splice: ElementSplice<Element>>(&self, prev: &Self, elements: &mut Splice) {
        let ghost a = elements.items();
        let ghost c0 = elements.cursor();
        proof {
            lemma_kept_refl(a, c0);
        }
        let ghost b0 = elements.items();
        let ghost cb0 = elements.cursor();
        proof {
            assert(b0.skip(cb0 as int).len() == a.skip((c0 + 0) as int).len());
        }
        self.0.seq_rebuild(&prev.0, elements);
        let ghost f0 = elements.items();
        proof {
            assert(self.0.seq_rebuilds(
                &prev.0,
                a.subrange(c0 + 0int, c0 + (prev.0.element_count()) as int),
                f0.subrange(cb0 as int, (cb0 + self.0.element_count()) as int),
            )) by {
                lemma_sub_shift(a, b0, (c0 + 0) as int, cb0 as int, prev.0.element_count() as int);
            }
            lemma_kept_compose(a, c0, 0, b0, cb0, prev.0.element_count(), elements.items(), elements.cursor());
        }
        let ghost b1 = elements.items();
        let ghost cb1 = elements.cursor();
        proof {
            assert(b1.skip(cb1 as int).len() == a.skip((c0 + (prev.0.element_count())) as int).len());
        }
        self.1.seq_rebuild(&prev.1, elements);
        let ghost f1 = elements.items();
        proof {
            assert(self.1.seq_rebuilds(
                &prev.1,
                a.subrange(c0 + (prev.0.element_count()) as int, c0 + (prev.0.element_count() + prev.1.element_count()) as int),
                f1.subrange(cb1 as int, (cb1 + self.1.element_count()) as int),
            )) by {
                lemma_sub_shift(a, b1, (c0 + (prev.0.element_count())) as int, cb1 as int, prev.1.element_count() as int);
            }
            lemma_kept_compose(a, c0, (prev.0.element_count()), b1, cb1, prev.1.element_count(), elements.items(), elements.cursor());
        }
        let ghost b2 = elements.items();
        let ghost cb2 = elements.cursor();
        proof {
            assert(b2.skip(cb2 as int).len() == a.skip((c0 + (prev.0.element_count() + prev.1.element_count())) as int).len());
        }
        self.2.seq_rebuild(&prev.2, elements);
        let ghost f2 = elements.items();
        proof {
            assert(self.2.seq_rebuilds(
                &prev.2,
                a.subrange(c0 + (prev.0.element_count() + prev.1.element_count()) as int, c0 + (prev.0.element_count() + prev.1.element_count() + prev.2.element_count()) as int),
                f2.subrange(cb2 as int, (cb2 + self.2.element_count()) as int),
            )) by {
                lemma_sub_shift(a, b2, (c0 + (prev.0.element_count() + prev.1.element_count())) as int, cb2 as int, prev.2.element_count() as int);
            }
            lemma_kept_compose(a, c0, (prev.0.element_count() + prev.1.element_count()), b2, cb2, prev.2.element_count(), elements.items(), elements.cursor());
        }
        let ghost b3 = elements.items();
        let ghost cb3 = elements.cursor();
        proof {
            assert(b3.skip(cb3 as int).len() == a.skip((c0 + (prev.0.element_count() + prev.1.element_count() + prev.2.element_count())) as int).len());
        }
        self.3.seq_rebuild(&prev.3, elements);
        let ghost f3 = elements.items();
        proof {
            assert(self.3.seq_rebuilds(
                &prev.3,
                a.subrange(c0 + (prev.0.element_count() + prev.1.element_count() + prev.2.element_count()) as int, c0 + (prev.0.element_count() + prev.1.element_count() + prev.2.element_count() + prev.3.element_count()) as int),
                f3.subrange(cb3 as int, (cb3 + self.3.element_count()) as int),
            )) by {
                lemma_sub_shift(a, b3, (c0 + (prev.0.element_count() + prev.1.element_count() + prev.2.element_count())) as int, cb3 as int, prev.3.element_count() as int);
            }
            lemma_kept_compose(a, c0, (prev.0.element_count() + prev.1.element_count() + prev.2.element_count()), b3, cb3, prev.3.element_count(), elements.items(), elements.cursor());
        }
        let ghost b4 = elements.items();
        let ghost cb4 = elements.cursor();
        proof {
            assert(b4.skip(cb4 as int).len() == a.skip((c0 + (prev.0.element_count() + prev.1.element_count() + prev.2.element_count() + prev.3.element_count())) as int).len());
        }
        self.4.seq_rebuild(&prev.4, elements);
        let ghost f4 = elements.items();
        proof {
            assert(self.4.seq_rebuilds(
                &prev.4,
                a.subrange(c0 + (prev.0.element_count() + prev.1.element_count() + prev.2.element_count() + prev.3.element_count()) as int, c0 + (prev.0.element_count() + prev.1.element_count() + prev.2.element_count() + prev.3.element_count() + prev.4.element_count()) as int),
                f4.subrange(cb4 as int, (cb4 + self.4.element_count()) as int),
            )) by {
                lemma_sub_shift(a, b4, (c0 + (prev.0.element_count() + prev.1.element_count() + prev.2.element_count() + prev.3.element_count())) as int, cb4 as int, prev.4.element_count() as int);
            }
            lemma_kept_compose(a, c0, (prev.0.element_count() + prev.1.element_count() + prev.2.element_count() + prev.3.element_count()), b4, cb4, prev.4.element_count(), elements.items(), elements.cursor());
        }
        let ghost b5 = elements.items();
        let ghost cb5 = elements.cursor();
        proof {
            assert(b5.skip(cb5 as int).len() == a.skip((c0 + (prev.0.element_count() + prev.1.element_count() + prev.2.element_count() + prev.3.element_count() + prev.4.element_count())) as int).len());
        }
        self.5.seq_rebuild(&prev.5, elements);
        let ghost f5 = elements.items();
        proof {
            assert(self.5.seq_rebuilds(
                &prev.5,
                a.subrange(c0 + (prev.0.element_count() + prev.1.element_count() + prev.2.element_count() + prev.3.element_count() + prev.4.element_count()) as int, c0 + (prev.0.element_count() + prev.1.element_count() + prev.2.element_count() + prev.3.element_count() + prev.4.element_count() + prev.5.element_count()) as int),
                f5.subrange(cb5 as int, (cb5 + self.5.element_count()) as int),
            )) by {
                lemma_sub_shift(a, b5, (c0 + (prev.0.element_count() + prev.1.element_count() + prev.2.element_count() + prev.3.element_count() + prev.4.element_count())) as int, cb5 as int, prev.5.element_count() as int);
            }
            lemma_kept_compose(a, c0, (prev.0.element_count() + prev.1.element_count() + prev.2.element_count() + prev.3.element_count() + prev.4.element_count()), b5, cb5, prev.5.element_count(), elements.items(), elements.cursor());
        }
        let ghost b6 = elements.items();
        let ghost cb6 = elements.cursor();
        proof {
            assert(b6.skip(cb6 as int).len() == a.skip((c0 + (prev.0.element_count() + prev.1.element_count() + prev.2.element_count() + prev.3.element_count() + prev.4.element_count() + prev.5.element_count())) as int).len());
        }
        self.6.seq_rebuild(&prev.6, elements);
        let ghost f6 = elements.items();
        proof {
            assert(self.6.seq_rebuilds(
                &prev.6,
                a.subrange(c0 + (prev.0.element_count() + prev.1.element_count() + prev.2.element_count() + prev.3.element_count() + prev.4.element_count() + prev.5.element_count()) as int, c0 + (prev.0.element_count() + prev.1.element_count() + prev.2.element_count() + prev.3.element_count() + prev.4.element_count() + prev.5.element_count() + prev.6.element_count()) as int),
                f6.subrange(cb6 as int, (cb6 + self.6.element_count()) as int),
            )) by {
                lemma_sub_shift(a, b6, (c0 + (prev.0.element_count() + prev.1.element_count() + prev.2.element_count() + prev.3.element_count() + prev.4.element_count() + prev.5.element_count())) as int, cb6 as int, prev.6.element_count() as int);
            }
            lemma_kept_compose(a, c0, (prev.0.element_count() + prev.1.element_count() + prev.2.element_count() + prev.3.element_count() + prev.4.element_count() + prev.5.element_count()), b6, cb6, prev.6.element_count(), elements.items(), elements.cursor());
        }
        let ghost b7 = elements.items();
        let ghost cb7 = elements.cursor();
        proof {
            assert(b7.skip(cb7 as int).len() == a.skip((c0 + (prev.0.element_count() + prev.1.element_count() + prev.2.element_count() + prev.3.element_count() + prev.4.element_count() + prev.5.element_count() + prev.6.element_count())) as int).len());
        }
        self.7.seq_rebuild(&prev.7, elements);
        let ghost f7 = elements.items();
        proof {
            assert(self.7.seq_rebuilds(
                &prev.7,
                a.subrange(c0 + (prev.0.element_count() + prev.1.element_count() + prev.2.element_count() + prev.3.element_count() + prev.4.element_count() + prev.5.element_count() + prev.6.element_count()) as int, c0 + (prev.0.element_count() + prev.1.element_count() + prev.2.element_count() + prev.3.element_count() + prev.4.element_count() + prev.5.element_count() + prev.6.element_count() + prev.7.element_count()) as int),
                f7.subrange(cb7 as int, (cb7 + self.7.element_count()) as int),
            )) by {
                lemma_sub_shift(a, b7, (c0 + (prev.0.element_count() + prev.1.element_count() + prev.2.element_count() + prev.3.element_count() + prev.4.element_count() + prev.5.element_count() + prev.6.element_count())) as int, cb7 as int, prev.7.element_count() as int);
            }
            lemma_kept_compose(a, c0, (prev.0.element_count() + prev.1.element_count() + prev.2.element_count() + prev.3.element_count() + prev.4.element_count() + prev.5.element_count() + prev.6.element_count()), b7, cb7, prev.7.element_count(), elements.items(), elements.cursor());
        }
        let ghost ce = elements.cursor();
        proof {
            let fin = elements.items();
            assert(fin.take(ce as int) =~= f7.take(ce as int));
            lemma_take_link(fin, f7, f6, cb7 as int, ce as int);
            lemma_take_link(fin, f6, f5, cb6 as int, cb7 as int);
            lemma_take_link(fin, f5, f4, cb5 as int, cb6 as int);
            lemma_take_link(fin, f4, f3, cb4 as int, cb5 as int);
            lemma_take_link(fin, f3, f2, cb3 as int, cb4 as int);
            lemma_take_link(fin, f2, f1, cb2 as int, cb3 as int);
            lemma_take_link(fin, f1, f0, cb1 as int, cb2 as int);
            assert(self.0.seq_rebuilds(
                &prev.0,
                region(a, c0, prev.element_count()).subrange(0int, (prev.0.element_count()) as int),
                region(fin, c0, self.element_count()).subrange(0int, (self.0.element_count()) as int),
            )) by {
                lemma_sub_stable(fin, f0, cb1 as int, cb0 as int, cb1 as int);
                assert(region(fin, c0, self.element_count()).subrange(0int, (self.0.element_count()) as int) =~= fin.subrange(cb0 as int, cb1 as int));
                assert(region(a, c0, prev.element_count()).subrange(0int, (prev.0.element_count()) as int) =~= a.subrange(c0 + 0int, c0 + (prev.0.element_count()) as int));
            }
            assert(self.1.seq_rebuilds(
                &prev.1,
                region(a, c0, prev.element_count()).subrange((prev.0.element_count()) as int, (prev.0.element_count() + prev.1.element_count()) as int),
                region(fin, c0, self.element_count()).subrange((self.0.element_count()) as int, (self.0.element_count() + self.1.element_count()) as int),
            )) by {
                lemma_sub_stable(fin, f1, cb2 as int, cb1 as int, cb2 as int);
                assert(region(fin, c0, self.element_count()).subrange((self.0.element_count()) as int, (self.0.element_count() + self.1.element_count()) as int) =~= fin.subrange(cb1 as int, cb2 as int));
                assert(region(a, c0, prev.element_count()).subrange((prev.0.element_count()) as int, (prev.0.element_count() + prev.1.element_count()) as int) =~= a.subrange(c0 + (prev.0.element_count()) as int, c0 + (prev.0.element_count() + prev.1.element_count()) as int));
            }
            assert(self.2.seq_rebuilds(
                &prev.2,
                region(a, c0, prev.element_count()).subrange((prev.0.element_count() + prev.1.element_count()) as int, (prev.0.element_count() + prev.1.element_count() + prev.2.element_count()) as int),
                region(fin, c0, self.element_count()).subrange((self.0.element_count() + self.1.element_count()) as int, (self.0.element_count() + self.1.element_count() + self.2.element_count()) as int),
            )) by {
                lemma_sub_stable(fin, f2, cb3 as int, cb2 as int, cb3 as int);
                assert(region(fin, c0, self.element_count()).subrange((self.0.element_count() + self.1.element_count()) as int, (self.0.element_count() + self.1.element_count() + self.2.element_count()) as int) =~= fin.subrange(cb2 as int, cb3 as int));
                assert(region(a, c0, prev.element_count()).subrange((prev.0.element_count() + prev.1.element_count()) as int, (prev.0.element_count() + prev.1.element_count() + prev.2.element_count()) as int) =~= a.subrange(c0 + (prev.0.element_count() + prev.1.element_count()) as int, c0 + (prev.0.element_count() + prev.1.element_count() + prev.2.element_count()) as int));
            }
            assert(self.3.seq_rebuilds(
                &prev.3,
                region(a, c0, prev.element_count()).subrange((prev.0.element_count() + prev.1.element_count() + prev.2.element_count()) as int, (prev.0.element_count() + prev.1.element_count() + prev.2.element_count() + prev.3.element_count()) as int),
                region(fin, c0, self.element_count()).subrange((self.0.element_count() + self.1.element_count() + self.2.element_count()) as int, (self.0.element_count() + self.1.element_count() + self.2.element_count() + self.3.element_count()) as int),
            )) by {
                lemma_sub_stable(fin, f3, cb4 as int, cb3 as int, cb4 as int);
                assert(region(fin, c0, self.element_count()).subrange((self.0.element_count() + self.1.element_count() + self.2.element_count()) as int, (self.0.element_count() + self.1.element_count() + self.2.element_count() + self.3.element_count()) as int) =~= fin.subrange(cb3 as int, cb4 as int));
                assert(region(a, c0, prev.element_count()).subrange((prev.0.element_count() + prev.1.element_count() + prev.2.element_count()) as int, (prev.0.element_count() + prev.1.element_count() + prev.2.element_count() + prev.3.element_count()) as int) =~= a.subrange(c0 + (prev.0.element_count() + prev.1.element_count() + prev.2.element_count()) as int, c0 + (prev.0.element_count() + prev.1.element_count() + prev.2.element_count() + prev.3.element_count()) as int));
            }
            assert(self.4.seq_rebuilds(
                &prev.4,
                region(a, c0, prev.element_count()).subrange((prev.0.element_count() + prev.1.element_count() + prev.2.element_count() + prev.3.element_count()) as int, (prev.0.element_count() + prev.1.element_count() + prev.2.element_count() + prev.3.element_count() + prev.4.element_count()) as int),
                region(fin, c0, self.element_count()).subrange((self.0.element_count() + self.1.element_count() + self.2.element_count() + self.3.element_count()) as int, (self.0.element_count() + self.1.element_count() + self.2.element_count() + self.3.element_count() + self.4.element_count()) as int),
            )) by {
                lemma_sub_stable(fin, f4, cb5 as int, cb4 as int, cb5 as int);
                assert(region(fin, c0, self.element_count()).subrange((self.0.element_count() + self.1.element_count() + self.2.element_count() + self.3.element_count()) as int, (self.0.element_count() + self.1.element_count() + self.2.element_count() + self.3.element_count() + self.4.element_count()) as int) =~= fin.subrange(cb4 as int, cb5 as int));
                assert(region(a, c0, prev.element_count()).subrange((prev.0.element_count() + prev.1.element_count() + prev.2.element_count() + prev.3.element_count()) as int, (prev.0.element_count() + prev.1.element_count() + prev.2.element_count() + prev.3.element_count() + prev.4.element_count()) as int) =~= a.subrange(c0 + (prev.0.element_count() + prev.1.element_count() + prev.2.element_count() + prev.3.element_count()) as int, c0 + (prev.0.element_count() + prev.1.element_count() + prev.2.element_count() + prev.3.element_count() + prev.4.element_count()) as int));
            }
            assert(self.5.seq_rebuilds(
                &prev.5,
                region(a, c0, prev.element_count()).subrange((prev.0.element_count() + prev.1.element_count() + prev.2.element_count() + prev.3.element_count() + prev.4.element_count()) as int, (prev.0.element_count() + prev.1.element_count() + prev.2.element_count() + prev.3.element_count() + prev.4.element_count() + prev.5.element_count()) as int),
                region(fin, c0, self.element_count()).subrange((self.0.element_count() + self.1.element_count() + self.2.element_count() + self.3.element_count() + self.4.element_count()) as int, (self.0.element_count() + self.1.element_count() + self.2.element_count() + self.3.element_count() + self.4.element_count() + self.5.element_count()) as int),
            )) by {
                lemma_sub_stable(fin, f5, cb6 as int, cb5 as int, cb6 as int);
                assert(region(fin, c0, self.element_count()).subrange((self.0.element_count() + self.1.element_count() + self.2.element_count() + self.3.element_count() + self.4.element_count()) as int, (self.0.element_count() + self.1.element_count() + self.2.element_count() + self.3.element_count() + self.4.element_count() + self.5.element_count()) as int) =~= fin.subrange(cb5 as int, cb6 as int));
                assert(region(a, c0, prev.element_count()).subrange((prev.0.element_count() + prev.1.element_count() + prev.2.element_count() + prev.3.element_count() + prev.4.element_count()) as int, (prev.0.element_count() + prev.1.element_count() + prev.2.element_count() + prev.3.element_count() + prev.4.element_count() + prev.5.element_count()) as int) =~= a.subrange(c0 + (prev.0.element_count() + prev.1.element_count() + prev.2.element_count() + prev.3.element_count() + prev.4.element_count()) as int, c0 + (prev.0.element_count() + prev.1.element_count() + prev.2.element_count() + prev.3.element_count() + prev.4.element_count() + prev.5.element_count()) as int));
            }
            assert(self.6.seq_rebuilds(
                &prev.6,
                region(a, c0, prev.element_count()).subrange((prev.0.element_count() + prev.1.element_count() + prev.2.element_count() + prev.3.element_count() + prev.4.element_count() + prev.5.element_count()) as int, (prev.0.element_count() + prev.1.element_count() + prev.2.element_count() + prev.3.element_count() + prev.4.element_count() + prev.5.element_count() + prev.6.element_count()) as int),
                region(fin, c0, self.element_count()).subrange((self.0.element_count() + self.1.element_count() + self.2.element_count() + self.3.element_count() + self.4.element_count() + self.5.element_count()) as int, (self.0.element_count() + self.1.element_count() + self.2.element_count() + self.3.element_count() + self.4.element_count() + self.5.element_count() + self.6.element_count()) as int),
            )) by {
                lemma_sub_stable(fin, f6, cb7 as int, cb6 as int, cb7 as int);
                assert(region(fin, c0, self.element_count()).subrange((self.0.element_count() + self.1.element_count() + self.2.element_count() + self.3.element_count() + self.4.element_count() + self.5.element_count()) as int, (self.0.element_count() + self.1.element_count() + self.2.element_count() + self.3.element_count() + self.4.element_count() + self.5.element_count() + self.6.element_count()) as int) =~= fin.subrange(cb6 as int, cb7 as int));
                assert(region(a, c0, prev.element_count()).subrange((prev.0.element_count() + prev.1.element_count() + prev.2.element_count() + prev.3.element_count() + prev.4.element_count() + prev.5.element_count()) as int, (prev.0.element_count() + prev.1.element_count() + prev.2.element_count() + prev.3.element_count() + prev.4.element_count() + prev.5.element_count() + prev.6.element_count()) as int) =~= a.subrange(c0 + (prev.0.element_count() + prev.1.element_count() + prev.2.element_count() + prev.3.element_count() + prev.4.element_count() + prev.5.element_count()) as int, c0 + (prev.0.element_count() + prev.1.element_count() + prev.2.element_count() + prev.3.element_count() + prev.4.element_count() + prev.5.element_count() + prev.6.element_count()) as int));
            }
            assert(self.7.seq_rebuilds(
                &prev.7,
                region(a, c0, prev.element_count()).subrange((prev.0.element_count() + prev.1.element_count() + prev.2.element_count() + prev.3.element_count() + prev.4.element_count() + prev.5.element_count() + prev.6.element_count()) as int, (prev.0.element_count() + prev.1.element_count() + prev.2.element_count() + prev.3.element_count() + prev.4.element_count() + prev.5.element_count() + prev.6.element_count() + prev.7.element_count()) as int),
                region(fin, c0, self.element_count()).subrange((self.0.element_count() + self.1.element_count() + self.2.element_count() + self.3.element_count() + self.4.element_count() + self.5.element_count() + self.6.element_count()) as int, (self.0.element_count() + self.1.element_count() + self.2.element_count() + self.3.element_count() + self.4.element_count() + self.5.element_count() + self.6.element_count() + self.7.element_count()) as int),
            )) by {
                assert(region(fin, c0, self.element_count()).subrange((self.0.element_count() + self.1.element_count() + self.2.element_count() + self.3.element_count() + self.4.element_count() + self.5.element_count() + self.6.element_count()) as int, (self.0.element_count() + self.1.element_count() + self.2.element_count() + self.3.element_count() + self.4.element_count() + self.5.element_count() + self.6.element_count() + self.7.element_count()) as int) =~= fin.subrange(cb7 as int, ce as int));
                assert(region(a, c0, prev.element_count()).subrange((prev.0.element_count() + prev.1.element_count() + prev.2.element_count() + prev.3.element_count() + prev.4.element_count() + prev.5.element_count() + prev.6.element_count()) as int, (prev.0.element_count() + prev.1.element_count() + prev.2.element_count() + prev.3.element_count() + prev.4.element_count() + prev.5.element_count() + prev.6.element_count() + prev.7.element_count()) as int) =~= a.subrange(c0 + (prev.0.element_count() + prev.1.element_count() + prev.2.element_count() + prev.3.element_count() + prev.4.element_count() + prev.5.element_count() + prev.6.element_count()) as int, c0 + (prev.0.element_count() + prev.1.element_count() + prev.2.element_count() + prev.3.element_count() + prev.4.element_count() + prev.5.element_count() + prev.6.element_count() + prev.7.element_count()) as int));
            }
        }
    }

    #[verifier::spinoff_prover]
    #[verifier::rlimit(100)]
    fn seq_teardown<Splice: ElementSplice<Element>>(&self, elements: &mut Splice) {
        let ghost a = elements.items();
        let ghost c0 = elements.cursor();
        proof {
            lemma_kept_refl(a, c0);
        }
        let ghost b0 = elements.items();
        let ghost cb0 = elements.cursor();
        proof {
            assert(b0.skip(cb0 as int).len() == a.skip((c0 + 0) as int).len());
        }
        self.0.seq_teardown(elements);
        proof {
            assert(self.0.seq_tears_down(region(a, c0, self.element_count()).subrange(0int, (self.0.element_count()) as int))) by {
                lemma_sub_shift(a, b0, (c0 + 0) as int, cb0 as int, self.0.element_count() as int);
                assert(region(a, c0, self.element_count()).subrange(0int, (self.0.element_count()) as int) =~= a.subrange(c0 + 0int, c0 + (self.0.element_count()) as int));
            }
            lemma_kept_compose(a, c0, 0, b0, cb0, self.0.element_count(), elements.items(), elements.cursor());
        }
        let ghost b1 = elements.items();
        let ghost cb1 = elements.cursor();
        proof {
            assert(b1.skip(cb1 as int).len() == a.skip((c0 + (self.0.element_count())) as int).len());
        }
        self.1.seq_teardown(elements);
        proof {
            assert(self.1.seq_tears_down(region(a, c0, self.element_count()).subrange((self.0.element_count()) as int, (self.0.element_count() + self.1.element_count()) as int))) by {
                lemma_sub_shift(a, b1, (c0 + (self.0.element_count())) as int, cb1 as int, self.1.element_count() as int);
                assert(region(a, c0, self.element_count()).subrange((self.0.element_count()) as int, (self.0.element_count() + self.1.element_count()) as int) =~= a.subrange(c0 + (self.0.element_count()) as int, c0 + (self.0.element_count() + self.1.element_count()) as int));
            }
            lemma_kept_compose(a, c0, (self.0.element_count()), b1, cb1, self.1.element_count(), elements.items(), elements.cursor());
        }
        let ghost b2 = elements.items();
        let ghost cb2 = elements.cursor();
        proof {
            assert(b2.skip(cb2 as int).len() == a.skip((c0 + (self.0.element_count() + self.1.element_count())) as int).len());
        }
        self.2.seq_teardown(elements);
        proof {
            assert(self.2.seq_tears_down(region(a, c0, self.element_count()).subrange((self.0.element_count() + self.1.element_count()) as int, (self.0.element_count() + self.1.element_count() + self.2.element_count()) as int))) by {
                lemma_sub_shift(a, b2, (c0 + (self.0.element_count() + self.1.element_count())) as int, cb2 as int, self.2.element_count() as int);
                assert(region(a, c0, self.element_count()).subrange((self.0.element_count() + self.1.element_count()) as int, (self.0.element_count() + self.1.element_count() + self.2.element_count()) as int) =~= a.subrange(c0 + (self.0.element_count() + self.1.element_count()) as int, c0 + (self.0.element_count() + self.1.element_count() + self.2.element_count()) as int));
            }
            lemma_kept_compose(a, c0, (self.0.element_count() + self.1.element_count()), b2, cb2, self.2.element_count(), elements.items(), elements.cursor());
        }
        let ghost b3 = elements.items();
        let ghost cb3 = elements.cursor();
        proof {
            assert(b3.skip(cb3 as int).len() == a.skip((c0 + (self.0.element_count() + self.1.element_count() + self.2.element_count())) as int).len());
        }
        self.3.seq_teardown(elements);
        proof {
            assert(self.3.seq_tears_down(region(a, c0, self.element_count()).subrange((self.0.element_count() + self.1.element_count() + self.2.element_count()) as int, (self.0.element_count() + self.1.element_count() + self.2.element_count() + self.3.element_count()) as int))) by {
                lemma_sub_shift(a, b3, (c0 + (self.0.element_count() + self.1.element_count() + self.2.element_count())) as int, cb3 as int, self.3.element_count() as int);
                assert(region(a, c0, self.element_count()).subrange((self.0.element_count() + self.1.element_count() + self.2.element_count()) as int, (self.0.element_count() + self.1.element_count() + self.2.element_count() + self.3.element_count()) as int) =~= a.subrange(c0 + (self.0.element_count() + self.1.element_count() + self.2.element_count()) as int, c0 + (self.0.element_count() + self.1.element_count() + self.2.element_count() + self.3.element_count()) as int));
            }
            lemma_kept_compose(a, c0, (self.0.element_count() + self.1.element_count() + self.2.element_count()), b3, cb3, self.3.element_count(), elements.items(), elements.cursor());
        }
        let ghost b4 = elements.items();
        let ghost cb4 = elements.cursor();
        proof {
            assert(b4.skip(cb4 as int).len() == a.skip((c0 + (self.0.element_count() + self.1.element_count() + self.2.element_count() + self.3.element_count())) as int).len());
        }
        self.4.seq_teardown(elements);
        proof {
            assert(self.4.seq_tears_down(region(a, c0, self.element_count()).subrange((self.0.element_count() + self.1.element_count() + self.2.element_count() + self.3.element_count()) as int, (self.0.element_count() + self.1.element_count() + self.2.element_count() + self.3.element_count() + self.4.element_count()) as int))) by {
                lemma_sub_shift(a, b4, (c0 + (self.0.element_count() + self.1.element_count() + self.2.element_count() + self.3.element_count())) as int, cb4 as int, self.4.element_count() as int);
                assert(region(a, c0, self.element_count()).subrange((self.0.element_count() + self.1.element_count() + self.2.element_count() + self.3.element_count()) as int, (self.0.element_count() + self.1.element_count() + self.2.element_count() + self.3.element_count() + self.4.element_count()) as int) =~= a.subrange(c0 + (self.0.element_count() + self.1.element_count() + self.2.element_count() + self.3.element_count()) as int, c0 + (self.0.element_count() + self.1.element_count() + self.2.element_count() + self.3.element_count() + self.4.element_count()) as int));
            }
            lemma_kept_compose(a, c0, (self.0.element_count() + self.1.element_count() + self.2.element_count() + self.3.element_count()), b4, cb4, self.4.element_count(), elements.items(), elements.cursor());
        }
        let ghost b5 = elements.items();
        let ghost cb5 = elements.cursor();
        proof {
            assert(b5.skip(cb5 as int).len() == a.skip((c0 + (self.0.element_count() + self.1.element_count() + self.2.element_count() + self.3.element_count() + self.4.element_count())) as int).len());
        }
        self.5.seq_teardown(elements);
        proof {
            assert(self.5.seq_tears_down(region(a, c0, self.element_count()).subrange((self.0.element_count() + self.1.element_count() + self.2.element_count() + self.3.element_count() + self.4.element_count()) as int, (self.0.element_count() + self.1.element_count() + self.2.element_count() + self.3.element_count() + self.4.element_count() + self.5.element_count()) as int))) by {
                lemma_sub_shift(a, b5, (c0 + (self.0.element_count() + self.1.element_count() + self.2.element_count() + self.3.element_count() + self.4.element_count())) as int, cb5 as int, self.5.element_count() as int);
                assert(region(a, c0, self.element_count()).subrange((self.0.element_count() + self.1.element_count() + self.2.element_count() + self.3.element_count() + self.4.element_count()) as int, (self.0.element_count() + self.1.element_count() + self.2.element_count() + self.3.element_count() + self.4.element_count() + self.5.element_count()) as int) =~= a.subrange(c0 + (self.0.element_count() + self.1.element_count() + self.2.element_count() + self.3.element_count() + self.4.element_count()) as int, c0 + (self.0.element_count() + self.1.element_count() + self.2.element_count() + self.3.element_count() + self.4.element_count() + self.5.element_count()) as int));
            }
            lemma_kept_compose(a, c0, (self.0.element_count() + self.1.element_count() + self.2.element_count() + self.3.element_count() + self.4.element_count()), b5, cb5, self.5.element_count(), elements.items(), elements.cursor());
        }
        let ghost b6 = elements.items();
        let ghost cb6 = elements.cursor();
        proof {
            assert(b6.skip(cb6 as int).len() == a.skip((c0 + (self.0.element_count() + self.1.element_count() + self.2.element_count() + self.3.element_count() + self.4.element_count() + self.5.element_count())) as int).len());
        }
        self.6.seq_teardown(elements);
        proof {
            assert(self.6.seq_tears_down(region(a, c0, self.element_count()).subrange((self.0.element_count() + self.1.element_count() + self.2.element_count() + self.3.element_count() + self.4.element_count() + self.5.element_count()) as int, (self.0.element_count() + self.1.element_count() + self.2.element_count() + self.3.element_count() + self.4.element_count() + self.5.element_count() + self.6.element_count()) as int))) by {
                lemma_sub_shift(a, b6, (c0 + (self.0.element_count() + self.1.element_count() + self.2.element_count() + self.3.element_count() + self.4.element_count() + self.5.element_count())) as int, cb6 as int, self.6.element_count() as int);
                assert(region(a, c0, self.element_count()).subrange((self.0.element_count() + self.1.element_count() + self.2.element_count() + self.3.element_count() + self.4.element_count() + self.5.element_count()) as int, (self.0.element_count() + self.1.element_count() + self.2.element_count() + self.3.element_count() + self.4.element_count() + self.5.element_count() + self.6.element_count()) as int) =~= a.subrange(c0 + (self.0.element_count() + self.1.element_count() + self.2.element_count() + self.3.element_count() + self.4.element_count() + self.5.element_count()) as int, c0 + (self.0.element_count() + self.1.element_count() + self.2.element_count() + self.3.element_count() + self.4.element_count() + self.5.element_count() + self.6.element_count()) as int));
            }
            lemma_kept_compose(a, c0, (self.0.element_count() + self.1.element_count() + self.2.element_count() + self.3.element_count() + self.4.element_count() + self.5.element_count()), b6, cb6, self.6.element_count(), elements.items(), elements.cursor());
        }
        let ghost b7 = elements.items();
        let ghost cb7 = elements.cursor();
        proof {
            assert(b7.skip(cb7 as int).len() == a.skip((c0 + (self.0.element_count() + self.1.element_count() + self.2.element_count() + self.3.element_count() + self.4.element_count() + self.5.element_count() + self.6.element_count())) as int).len());
        }
        self.7.seq_teardown(elements);
        proof {
            assert(self.7.seq_tears_down(region(a, c0, self.element_count()).subrange((self.0.element_count() + self.1.element_count() + self.2.element_count() + self.3.element_count() + self.4.element_count() + self.5.element_count() + self.6.element_count()) as int, (self.0.element_count() + self.1.element_count() + self.2.element_count() + self.3.element_count() + self.4.element_count() + self.5.element_count() + self.6.element_count() + self.7.element_count()) as int))) by {
                lemma_sub_shift(a, b7, (c0 + (self.0.element_count() + self.1.element_count() + self.2.element_count() + self.3.element_count() + self.4.element_count() + self.5.element_count() + self.6.element_count())) as int, cb7 as int, self.7.element_count() as int);
                assert(region(a, c0, self.element_count()).subrange((self.0.element_count() + self.1.element_count() + self.2.element_count() + self.3.element_count() + self.4.element_count() + self.5.element_count() + self.6.element_count()) as int, (self.0.element_count() + self.1.element_count() + self.2.element_count() + self.3.element_count() + self.4.element_count() + self.5.element_count() + self.6.element_count() + self.7.element_count()) as int) =~= a.subrange(c0 + (self.0.element_count() + self.1.element_count() + self.2.element_count() + self.3.element_count() + self.4.element_count() + self.5.element_count() + self.6.element_count()) as int, c0 + (self.0.element_count() + self.1.element_count() + self.2.element_count() + self.3.element_count() + self.4.element_count() + self.5.element_count() + self.6.element_count() + self.7.element_count()) as int));
            }
            lemma_kept_compose(a, c0, (self.0.element_count() + self.1.element_count() + self.2.element_count() + self.3.element_count() + self.4.element_count() + self.5.element_count() + self.6.element_count()), b7, cb7, self.7.element_count(), elements.items(), elements.cursor());
        }
    }
}

/// A tuple of 9 sequences builds the elements of each, in order.
impl<State, Element, S0, S1, S2, S3, S4, S5, S6, S7, S8> ViewSequence<State, Element> for (S0, S1, S2, S3, S4, S5, S6, S7, S8,) where
    S0: ViewSequence<State, Element>,
    S1: ViewSequence<State, Element>,
    S2: ViewSequence<State, Element>,
    S3: ViewSequence<State, Element>,
    S4: ViewSequence<State, Element>,
    S5: ViewSequence<State, Element>,
    S6: ViewSequence<State, Element>,
    S7: ViewSequence<State, Element>,
    S8: ViewSequence<State, Element>,
 {
    open spec fn element_count(&self) -> nat {
        self.0.element_count() + self.1.element_count() + self.2.element_count() + self.3.element_count() + self.4.element_count() + self.5.element_count() + self.6.element_count() + self.7.element_count() + self.8.element_count()
    }

    open spec fn seq_builds(&self, out: Seq<Element>) -> bool {
        &&& out.len() == self.element_count()
        &&& self.0.seq_builds(out.subrange(0int, (self.0.element_count()) as int))
        &&& self.1.seq_builds(out.subrange((self.0.element_count()) as int, (self.0.element_count() + self.1.element_count()) as int))
        &&& self.2.seq_builds(out.subrange((self.0.element_count() + self.1.element_count()) as int, (self.0.element_count() + self.1.element_count() + self.2.element_count()) as int))
        &&& self.3.seq_builds(out.subrange((self.0.element_count() + self.1.element_count() + self.2.element_count()) as int, (self.0.element_count() + self.1.element_count() + self.2.element_count() + self.3.element_count()) as int))
        &&& self.4.seq_builds(out.subrange((self.0.element_count() + self.1.element_count() + self.2.element_count() + self.3.element_count()) as int, (self.0.element_count() + self.1.element_count() + self.2.element_count() + self.3.element_count() + self.4.element_count()) as int))
        &&& self.5.seq_builds(out.subrange((self.0.element_count() + self.1.element_count() + self.2.element_count() + self.3.element_count() + self.4.element_count()) as int, (self.0.element_count() + self.1.element_count() + self.2.element_count() + self.3.element_count() + self.4.element_count() + self.5.element_count()) as int))
        &&& self.6.seq_builds(out.subrange((self.0.element_count() + self.1.element_count() + self.2.element_count() + self.3.element_count() + self.4.element_count() + self.5.element_count()) as int, (self.0.element_count() + self.1.element_count() + self.2.element_count() + self.3.element_count() + self.4.element_count() + self.5.element_count() + self.6.element_count()) as int))
        &&& self.7.seq_builds(out.subrange((self.0.element_count() + self.1.element_count() + self.2.element_count() + self.3.element_count() + self.4.element_count() + self.5.element_count() + self.6.element_count()) as int, (self.0.element_count() + self.1.element_count() + self.2.element_count() + self.3.element_count() + self.4.element_count() + self.5.element_count() + self.6.element_count() + self.7.element_count()) as int))
        &&& self.8.seq_builds(out.subrange((self.0.element_count() + self.1.element_count() + self.2.element_count() + self.3.element_count() + self.4.element_count() + self.5.element_count() + self.6.element_count() + self.7.element_count()) as int, (self.0.element_count() + self.1.element_count() + self.2.element_count() + self.3.element_count() + self.4.element_count() + self.5.element_count() + self.6.element_count() + self.7.element_count() + self.8.element_count()) as int))
    }

    open spec fn seq_rebuilds(&self, prev: &Self, before: Seq<Element>, after: Seq<Element>) -> bool {
        &&& before.len() == prev.element_count()
        &&& after.len() == self.element_count()
        &&& self.0.seq_rebuilds(
            &prev.0,
            before.subrange(0int, (prev.0.element_count()) as int),
            after.subrange(0int, (self.0.element_count()) as int),
        )
        &&& self.1.seq_rebuilds(
            &prev.1,
            before.subrange((prev.0.element_count()) as int, (prev.0.element_count() + prev.1.element_count()) as int),
            after.subrange((self.0.element_count()) as int, (self.0.element_count() + self.1.element_count()) as int),
        )
        &&& self.2.seq_rebuilds(
            &prev.2,
            before.subrange((prev.0.element_count() + prev.1.element_count()) as int, (prev.0.element_count() + prev.1.element_count() + prev.2.element_count()) as int),
            after.subrange((self.0.element_count() + self.1.element_count()) as int, (self.0.element_count() + self.1.element_count() + self.2.element_count()) as int),
        )
        &&& self.3.seq_rebuilds(
            &prev.3,
            before.subrange((prev.0.element_count() + prev.1.element_count() + prev.2.element_count()) as int, (prev.0.element_count() + prev.1.element_count() + prev.2.element_count() + prev.3.element_count()) as int),
            after.subrange((self.0.element_count() + self.1.element_count() + self.2.element_count()) as int, (self.0.element_count() + self.1.element_count() + self.2.element_count() + self.3.element_count()) as int),
        )
        &&& self.4.seq_rebuilds(
            &prev.4,
            before.subrange((prev.0.element_count() + prev.1.element_count() + prev.2.element_count() + prev.3.element_count()) as int, (prev.0.element_count() + prev.1.element_count() + prev.2.element_count() + prev.3.element_count() + prev.4.element_count()) as int),
            after.subrange((self.0.element_count() + self.1.element_count() + self.2.element_count() + self.3.element_count()) as int, (self.0.element_count() + self.1.element_count() + self.2.element_count() + self.3.element_count() + self.4.element_count()) as int),
        )
        &&& self.5.seq_rebuilds(
            &prev.5,
            before.subrange((prev.0.element_count() + prev.1.element_count() + prev.2.element_count() + prev.3.element_count() + prev.4.element_count()) as int, (prev.0.element_count() + prev.1.element_count() + prev.2.element_count() + prev.3.element_count() + prev.4.element_count() + prev.5.element_count()) as int),
            after.subrange((self.0.element_count() + self.1.element_count() + self.2.element_count() + self.3.element_count() + self.4.element_count()) as int, (self.0.element_count() + self.1.element_count() + self.2.element_count() + self.3.element_count() + self.4.element_count() + self.5.element_count()) as int),
        )
        &&& self.6.seq_rebuilds(
            &prev.6,
            before.subrange((prev.0.element_count() + prev.1.element_count() + prev.2.element_count() + prev.3.element_count() + prev.4.element_count() + prev.5.element_count()) as int, (prev.0.element_count() + prev.1.element_count() + prev.2.element_count() + prev.3.element_count() + prev.4.element_count() + prev.5.element_count() + prev.6.element_count()) as int),
            after.subrange((self.0.element_count() + self.1.element_count() + self.2.element_count() + self.3.element_count() + self.4.element_count() + self.5.element_count()) as int, (self.0.element_count() + self.1.element_count() + self.2.element_count() + self.3.element_count() + self.4.element_count() + self.5.element_count() + self.6.element_count()) as int),
        )
        &&& self.7.seq_rebuilds(
            &prev.7,
            before.subrange((prev.0.element_count() + prev.1.element_count() + prev.2.element_count() + prev.3.element_count() + prev.4.element_count() + prev.5.element_count() + prev.6.element_count()) as int, (prev.0.element_count() + prev.1.element_count() + prev.2.element_count() + prev.3.element_count() + prev.4.element_count() + prev.5.element_count() + prev.6.element_count() + prev.7.element_count()) as int),
            after.subrange((self.0.element_count() + self.1.element_count() + self.2.element_count() + self.3.element_count() + self.4.element_count() + self.5.element_count() + self.6.element_count()) as int, (self.0.element_count() + self.1.element_count() + self.2.element_count() + self.3.element_count() + self.4.element_count() + self.5.element_count() + self.6.element_count() + self.7.element_count()) as int),
        )
        &&& self.8.seq_rebuilds(
            &prev.8,
            before.subrange((prev.0.element_count() + prev.1.element_count() + prev.2.element_count() + prev.3.element_count() + prev.4.element_count() + prev.5.element_count() + prev.6.element_count() + prev.7.element_count()) as int, (prev.0.element_count() + prev.1.element_count() + prev.2.element_count() + prev.3.element_count() + prev.4.element_count() + prev.5.element_count() + prev.6.element_count() + prev.7.element_count() + prev.8.element_count()) as int),
            after.subrange((self.0.element_count() + self.1.element_count() + self.2.element_count() + self.3.element_count() + self.4.element_count() + self.5.element_count() + self.6.element_count() + self.7.element_count()) as int, (self.0.element_count() + self.1.element_count() + self.2.element_count() + self.3.element_count() + self.4.element_count() + self.5.element_count() + self.6.element_count() + self.7.element_count() + self.8.element_count()) as int),
        )
    }

    open spec fn seq_tears_down(&self, before: Seq<Element>) -> bool {
        &&& before.len() == self.element_count()
        &&& self.0.seq_tears_down(before.subrange(0int, (self.0.element_count()) as int))
        &&& self.1.seq_tears_down(before.subrange((self.0.element_count()) as int, (self.0.element_count() + self.1.element_count()) as int))
        &&& self.2.seq_tears_down(before.subrange((self.0.element_count() + self.1.element_count()) as int, (self.0.element_count() + self.1.element_count() + self.2.element_count()) as int))
        &&& self.3.seq_tears_down(before.subrange((self.0.element_count() + self.1.element_count() + self.2.element_count()) as int, (self.0.element_count() + self.1.element_count() + self.2.element_count() + self.3.element_count()) as int))
        &&& self.4.seq_tears_down(before.subrange((self.0.element_count() + self.1.element_count() + self.2.element_count() + self.3.element_count()) as int, (self.0.element_count() + self.1.element_count() + self.2.element_count() + self.3.element_count() + self.4.element_count()) as int))
        &&& self.5.seq_tears_down(before.subrange((self.0.element_count() + self.1.element_count() + self.2.element_count() + self.3.element_count() + self.4.element_count()) as int, (self.0.element_count() + self.1.element_count() + self.2.element_count() + self.3.element_count() + self.4.element_count() + self.5.element_count()) as int))
        &&& self.6.seq_tears_down(before.subrange((self.0.element_count() + self.1.element_count() + self.2.element_count() + self.3.element_count() + self.4.element_count() + self.5.element_count()) as int, (self.0.element_count() + self.1.element_count() + self.2.element_count() + self.3.element_count() + self.4.element_count() + self.5.element_count() + self.6.element_count()) as int))
        &&& self.7.seq_tears_down(before.subrange((self.0.element_count() + self.1.element_count() + self.2.element_count() + self.3.element_count() + self.4.element_count() + self.5.element_count() + self.6.element_count()) as int, (self.0.element_count() + self.1.element_count() + self.2.element_count() + self.3.element_count() + self.4.element_count() + self.5.element_count() + self.6.element_count() + self.7.element_count()) as int))
        &&& self.8.seq_tears_down(before.subrange((self.0.element_count() + self.1.element_count() + self.2.element_count() + self.3.element_count() + self.4.element_count() + self.5.element_count() + self.6.element_count() + self.7.element_count()) as int, (self.0.element_count() + self.1.element_count() + self.2.element_count() + self.3.element_count() + self.4.element_count() + self.5.element_count() + self.6.element_count() + self.7.element_count() + self.8.element_count()) as int))
    }

    #[verifier::spinoff_prover]
    #[verifier::rlimit(100)]
    fn seq_build(&self, elements: &mut Vec<Element>) {
        let ghost start = elements@;
        let ghost sl = start.len() as int;
        let ghost b0 = elements@;
        self.0.seq_build(elements);
        let ghost f0 = elements@;
        let ghost b1 = elements@;
        self.1.seq_build(elements);
        let ghost f1 = elements@;
        proof {
            lemma_prefix_kept(start, b1, elements@);
        }
        let ghost b2 = elements@;
        self.2.seq_build(elements);
        let ghost f2 = elements@;
        proof {
            lemma_prefix_kept(start, b2, elements@);
        }
        let ghost b3 = elements@;
        self.3.seq_build(elements);
        let ghost f3 = elements@;
        proof {
            lemma_prefix_kept(start, b3, elements@);
        }
        let ghost b4 = elements@;
        self.4.seq_build(elements);
        let ghost f4 = elements@;
        proof {
            lemma_prefix_kept(start, b4, elements@);
        }
        let ghost b5 = elements@;
        self.5.seq_build(elements);
        let ghost f5 = elements@;
        proof {
            lemma_prefix_kept(start, b5, elements@);
        }
        let ghost b6 = elements@;
        self.6.seq_build(elements);
        let ghost f6 = elements@;
        proof {
            lemma_prefix_kept(start, b6, elements@);
        }
        let ghost b7 = elements@;
        self.7.seq_build(elements);
        let ghost f7 = elements@;
        proof {
            lemma_prefix_kept(start, b7, elements@);
        }
        let ghost b8 = elements@;
        self.8.seq_build(elements);
        let ghost f8 = elements@;
        proof {
            lemma_prefix_kept(start, b8, elements@);
        }
        proof {
            let fin = elements@;
            assert(fin.take(fin.len() as int) =~= f8.take(fin.len() as int));
            assert(f8.take(b8.len() as int) == b8);
            assert(b8.take(b8.len() as int) =~= b8);
            lemma_take_link(fin, f8, b8, b8.len() as int, fin.len() as int);
            assert(b7.take(b7.len() as int) =~= b7);
            lemma_take_link(fin, f7, b7, b7.len() as int, b8.len() as int);
            assert(b6.take(b6.len() as int) =~= b6);
            lemma_take_link(fin, f6, b6, b6.len() as int, b7.len() as int);
            assert(b5.take(b5.len() as int) =~= b5);
            lemma_take_link(fin, f5, b5, b5.len() as int, b6.len() as int);
            assert(b4.take(b4.len() as int) =~= b4);
            lemma_take_link(fin, f4, b4, b4.len() as int, b5.len() as int);
            assert(b3.take(b3.len() as int) =~= b3);
            lemma_take_link(fin, f3, b3, b3.len() as int, b4.len() as int);
            assert(b2.take(b2.len() as int) =~= b2);
            lemma_take_link(fin, f2, b2, b2.len() as int, b3.len() as int);
            assert(b1.take(b1.len() as int) =~= b1);
            lemma_take_link(fin, f1, b1, b1.len() as int, b2.len() as int);
            assert(self.0.seq_builds(fin.skip(sl).subrange(0int, (self.0.element_count()) as int))) by {
                lemma_sub_stable(fin, f0, b1.len() as int, sl + 0int, sl + (self.0.element_count()) as int);
                assert(f0.skip(b0.len() as int) =~= f0.subrange(sl + 0int, sl + (self.0.element_count()) as int));
                assert(fin.skip(sl).subrange(0int, (self.0.element_count()) as int) =~= fin.subrange(sl + 0int, sl + (self.0.element_count()) as int));
            }
            assert(self.1.seq_builds(fin.skip(sl).subrange((self.0.element_count()) as int, (self.0.element_count() + self.1.element_count()) as int))) by {
                lemma_sub_stable(fin, f1, b2.len() as int, sl + (self.0.element_count()) as int, sl + (self.0.element_count() + self.1.element_count()) as int);
                assert(f1.skip(b1.len() as int) =~= f1.subrange(sl + (self.0.element_count()) as int, sl + (self.0.element_count() + self.1.element_count()) as int));
                assert(fin.skip(sl).subrange((self.0.element_count()) as int, (self.0.element_count() + self.1.element_count()) as int) =~= fin.subrange(sl + (self.0.element_count()) as int, sl + (self.0.element_count() + self.1.element_count()) as int));
            }
            assert(self.2.seq_builds(fin.skip(sl).subrange((self.0.element_count() + self.1.element_count()) as int, (self.0.element_count() + self.1.element_count() + self.2.element_count()) as int))) by {
                lemma_sub_stable(fin, f2, b3.len() as int, sl + (self.0.element_count() + self.1.element_count()) as int, sl + (self.0.element_count() + self.1.element_count() + self.2.element_count()) as int);
                assert(f2.skip(b2.len() as int) =~= f2.subrange(sl + (self.0.element_count() + self.1.element_count()) as int, sl + (self.0.element_count() + self.1.element_count() + self.2.element_count()) as int));
                assert(fin.skip(sl).subrange((self.0.element_count() + self.1.element_count()) as int, (self.0.element_count() + self.1.element_count() + self.2.element_count()) as int) =~= fin.subrange(sl + (self.0.element_count() + self.1.element_count()) as int, sl + (self.0.element_count() + self.1.element_count() + self.2.element_count()) as int));
            }
            assert(self.3.seq_builds(fin.skip(sl).subrange((self.0.element_count() + self.1.element_count() + self.2.element_count()) as int, (self.0.element_count() + self.1.element_count() + self.2.element_count() + self.3.element_count()) as int))) by {
                lemma_sub_stable(fin, f3, b4.len() as int, sl + (self.0.element_count() + self.1.element_count() + self.2.element_count()) as int, sl + (self.0.element_count() + self.1.element_count() + self.2.element_count() + self.3.element_count()) as int);
                assert(f3.skip(b3.len() as int) =~= f3.subrange(sl + (self.0.element_count() + self.1.element_count() + self.2.element_count()) as int, sl + (self.0.element_count() + self.1.element_count() + self.2.element_count() + self.3.element_count()) as int));
                assert(fin.skip(sl).subrange((self.0.element_count() + self.1.element_count() + self.2.element_count()) as int, (self.0.element_count() + self.1.element_count() + self.2.element_count() + self.3.element_count()) as int) =~= fin.subrange(sl + (self.0.element_count() + self.1.element_count() + self.2.element_count()) as int, sl + (self.0.element_count() + self.1.element_count() + self.2.element_count() + self.3.element_count()) as int));
            }
            assert(self.4.seq_builds(fin.skip(sl).subrange((self.0.element_count() + self.1.element_count() + self.2.element_count() + self.3.element_count()) as int, (self.0.element_count() + self.1.element_count() + self.2.element_count() + self.3.element_count() + self.4.element_count()) as int))) by {
                lemma_sub_stable(fin, f4, b5.len() as int, sl + (self.0.element_count() + self.1.element_count() + self.2.element_count() + self.3.element_count()) as int, sl + (self.0.element_count() + self.1.element_count() + self.2.element_count() + self.3.element_count() + self.4.element_count()) as int);
                assert(f4.skip(b4.len() as int) =~= f4.subrange(sl + (self.0.element_count() + self.1.element_count() + self.2.element_count() + self.3.element_count()) as int, sl + (self.0.element_count() + self.1.element_count() + self.2.element_count() + self.3.element_count() + self.4.element_count()) as int));
                assert(fin.skip(sl).subrange((self.0.element_count() + self.1.element_count() + self.2.element_count() + self.3.element_count()) as int, (self.0.element_count() + self.1.element_count() + self.2.element_count() + self.3.element_count() + self.4.element_count()) as int) =~= fin.subrange(sl + (self.0.element_count() + self.1.element_count() + self.2.element_count() + self.3.element_count()) as int, sl + (self.0.element_count() + self.1.element_count() + self.2.element_count() + self.3.element_count() + self.4.element_count()) as int));
            }
            assert(self.5.seq_builds(fin.skip(sl).subrange((self.0.element_count() + self.1.element_count() + self.2.element_count() + self.3.element_count() + self.4.element_count()) as int, (self.0.element_count() + self.1.element_count() + self.2.element_count() + self.3.element_count() + self.4.element_count() + self.5.element_count()) as int))) by {
                lemma_sub_stable(fin, f5, b6.len() as int, sl + (self.0.element_count() + self.1.element_count() + self.2.element_count() + self.3.element_count() + self.4.element_count()) as int, sl + (self.0.element_count() + self.1.element_count() + self.2.element_count() + self.3.element_count() + self.4.element_count() + self.5.element_count()) as int);
                assert(f5.skip(b5.len() as int) =~= f5.subrange(sl + (self.0.element_count() + self.1.element_count() + self.2.element_count() + self.3.element_count() + self.4.element_count()) as int, sl + (self.0.element_count() + self.1.element_count() + self.2.element_count() + self.3.element_count() + self.4.element_count() + self.5.element_count()) as int));
                assert(fin.skip(sl).subrange((self.0.element_count() + self.1.element_count() + self.2.element_count() + self.3.element_count() + self.4.element_count()) as int, (self.0.element_count() + self.1.element_count() + self.2.element_count() + self.3.element_count() + self.4.element_count() + self.5.element_count()) as int) =~= fin.subrange(sl + (self.0.element_count() + self.1.element_count() + self.2.element_count() + self.3.element_count() + self.4.element_count()) as int, sl + (self.0.element_count() + self.1.element_count() + self.2.element_count() + self.3.element_count() + self.4.element_count() + self.5.element_count()) as int));
            }
            assert(self.6.seq_builds(fin.skip(sl).subrange((self.0.element_count() + self.1.element_count() + self.2.element_count() + self.3.element_count() + self.4.element_count() + self.5.element_count()) as int, (self.0.element_count() + self.1.element_count() + self.2.element_count() + self.3.element_count() + self.4.element_count() + self.5.element_count() + self.6.element_count()) as int))) by {
                lemma_sub_stable(fin, f6, b7.len() as int, sl + (self.0.element_count() + self.1.element_count() + self.2.element_count() + self.3.element_count() + self.4.element_count() + self.5.element_count()) as int, sl + (self.0.element_count() + self.1.element_count() + self.2.element_count() + self.3.element_count() + self.4.element_count() + self.5.element_count() + self.6.element_count()) as int);
                assert(f6.skip(b6.len() as int) =~= f6.subrange(sl + (self.0.element_count() + self.1.element_count() + self.2.element_count() + self.3.element_count() + self.4.element_count() + self.5.element_count()) as int, sl + (self.0.element_count() + self.1.element_count() + self.2.element_count() + self.3.element_count() + self.4.element_count() + self.5.element_count() + self.6.element_count()) as int));
                assert(fin.skip(sl).subrange((self.0.element_count() + self.1.element_count() + self.2.element_count() + self.3.element_count() + self.4.element_count() + self.5.element_count()) as int, (self.0.element_count() + self.1.element_count() + self.2.element_count() + self.3.element_count() + self.4.element_count() + self.5.element_count() + self.6.element_count()) as int) =~= fin.subrange(sl + (self.0.element_count() + self.1.element_count() + self.2.element_count() + self.3.element_count() + self.4.element_count() + self.5.element_count()) as int, sl + (self.0.element_count() + self.1.element_count() + self.2.element_count() + self.3.element_count() + self.4.element_count() + self.5.element_count() + self.6.element_count()) as int));
            }
            assert(self.7.seq_builds(fin.skip(sl).subrange((self.0.element_count() + self.1.element_count() + self.2.element_count() + self.3.element_count() + self.4.element_count() + self.5.element_count() + self.6.element_count()) as int, (self.0.element_count() + self.1.element_count() + self.2.element_count() + self.3.element_count() + self.4.element_count() + self.5.element_count() + self.6.element_count() + self.7.element_count()) as int))) by {
                lemma_sub_stable(fin, f7, b8.len() as int, sl + (self.0.element_count() + self.1.element_count() + self.2.element_count() + self.3.element_count() + self.4.element_count() + self.5.element_count() + self.6.element_count()) as int, sl + (self.0.element_count() + self.1.element_count() + self.2.element_count() + self.3.element_count() + self.4.element_count() + self.5.element_count() + self.6.element_count() + self.7.element_count()) as int);
                assert(f7.skip(b7.len() as int) =~= f7.subrange(sl + (self.0.element_count() + self.1.element_count() + self.2.element_count() + self.3.element_count() + self.4.element_count() + self.5.element_count() + self.6.element_count()) as int, sl + (self.0.element_count() + self.1.element_count() + self.2.element_count() + self.3.element_count() + self.4.element_count() + self.5.element_count() + self.6.element_count() + self.7.element_count()) as int));
                assert(fin.skip(sl).subrange((self.0.element_count() + self.1.element_count() + self.2.element_count() + self.3.element_count() + self.4.element_count() + self.5.element_count() + self.6.element_count()) as int, (self.0.element_count() + self.1.element_count() + self.2.element_count() + self.3.element_count() + self.4.element_count() + self.5.element_count() + self.6.element_count() + self.7.element_count()) as int) =~= fin.subrange(sl + (self.0.element_count() + self.1.element_count() + self.2.element_count() + self.3.element_count() + self.4.element_count() + self.5.element_count() + self.6.element_count()) as int, sl + (self.0.element_count() + self.1.element_count() + self.2.element_count() + self.3.element_count() + self.4.element_count() + self.5.element_count() + self.6.element_count() + self.7.element_count()) as int));
            }
            assert(self.8.seq_builds(fin.skip(sl).subrange((self.0.element_count() + self.1.element_count() + self.2.element_count() + self.3.element_count() + self.4.element_count() + self.5.element_count() + self.6.element_count() + self.7.element_count()) as int, (self.0.element_count() + self.1.element_count() + self.2.element_count() + self.3.element_count() + self.4.element_count() + self.5.element_count() + self.6.element_count() + self.7.element_count() + self.8.element_count()) as int))) by {
                assert(f8.skip(b8.len() as int) =~= f8.subrange(sl + (self.0.element_count() + self.1.element_count() + self.2.element_count() + self.3.element_count() + self.4.element_count() + self.5.element_count() + self.6.element_count() + self.7.element_count()) as int, sl + (self.0.element_count() + self.1.element_count() + self.2.element_count() + self.3.element_count() + self.4.element_count() + self.5.element_count() + self.6.element_count() + self.7.element_count() + self.8.element_count()) as int));
                assert(fin.skip(sl).subrange((self.0.element_count() + self.1.element_count() + self.2.element_count() + self.3.element_count() + self.4.element_count() + self.5.element_count() + self.6.element_count() + self.7.element_count()) as int, (self.0.element_count() + self.1.element_count() + self.2.element_count() + self.3.element_count() + self.4.element_count() + self.5.element_count() + self.6.element_count() + self.7.element_count() + self.8.element_count()) as int) =~= fin.subrange(sl + (self.0.element_count() + self.1.element_count() + self.2.element_count() + self.3.element_count() + self.4.element_count() + self.5.element_count() + self.6.element_count() + self.7.element_count()) as int, sl + (self.0.element_count() + self.1.element_count() + self.2.element_count() + self.3.element_count() + self.4.element_count() + self.5.element_count() + self.6.element_count() + self.7.element_count() + self.8.element_count()) as int));
            }
        }
    }

    #[verifier::spinoff_prover]
    #[verifier::rlimit(100)]
    fn seq_rebuild<Splice: ElementSplice<Element>>(&self, prev: &Self, elements: &mut Splice) {
        let ghost a = elements.items();
        let ghost c0 = elements.cursor();
        proof {
            lemma_kept_refl(a, c0);
        }
        let ghost b0 = elements.items();
        let ghost cb0 = elements.cursor();
        proof {
            assert(b0.skip(cb0 as int).len() == a.skip((c0 + 0) as int).len());
        }
        self.0.seq_rebuild(&prev.0, elements);
        let ghost f0 = elements.items();
        proof {
            assert(self.0.seq_rebuilds(
                &prev.0,
                a.subrange(c0 + 0int, c0 + (prev.0.element_count()) as int),
                f0.subrange(cb0 as int, (cb0 + self.0.element_count()) as int),
            )) by {
                lemma_sub_shift(a, b0, (c0 + 0) as int, cb0 as int, prev.0.element_count() as int);
            }
            lemma_kept_compose(a, c0, 0, b0, cb0, prev.0.element_count(), elements.items(), elements.cursor());
        }
        let ghost b1 = elements.items();
        let ghost cb1 = elements.cursor();
        proof {
            assert(b1.skip(cb1 as int).len() == a.skip((c0 + (prev.0.element_count())) as int).len());
        }
        self.1.seq_rebuild(&prev.1, elements);
        let ghost f1 = elements.items();
        proof {
            assert(self.1.seq_rebuilds(
                &prev.1,
                a.subrange(c0 + (prev.0.element_count()) as int, c0 + (prev.0.element_count() + prev.1.element_count()) as int),
                f1.subrange(cb1 as int, (cb1 + self.1.element_count()) as int),
            )) by {
                lemma_sub_shift(a, b1, (c0 + (prev.0.element_count())) as int, cb1 as int, prev.1.element_count() as int);
            }
            lemma_kept_compose(a, c0, (prev.0.element_count()), b1, cb1, prev.1.element_count(), elements.items(), elements.cursor());
        }
        let ghost b2 = elements.items();
        let ghost cb2 = elements.cursor();
        proof {
            assert(b2.skip(cb2 as int).len() == a.skip((c0 + (prev.0.element_count() + prev.1.element_count())) as int).len());
        }
        self.2.seq_rebuild(&prev.2, elements);
        let ghost f2 = elements.items();
        proof {
            assert(self.2.seq_rebuilds(
                &prev.2,
                a.subrange(c0 + (prev.0.element_count() + prev.1.element_count()) as int, c0 + (prev.0.element_count() + prev.1.element_count() + prev.2.element_count()) as int),
                f2.subrange(cb2 as int, (cb2 + self.2.element_count()) as int),
            )) by {
                lemma_sub_shift(a, b2, (c0 + (prev.0.element_count() + prev.1.element_count())) as int, cb2 as int, prev.2.element_count() as int);
            }
            lemma_kept_compose(a, c0, (prev.0.element_count() + prev.1.element_count()), b2, cb2, prev.2.element_count(), elements.items(), elements.cursor());
        }
        let ghost b3 = elements.items();
        let ghost cb3 = elements.cursor();
        proof {
            assert(b3.skip(cb3 as int).len() == a.skip((c0 + (prev.0.element_count() + prev.1.element_count() + prev.2.element_count())) as int).len());
        }
        self.3.seq_rebuild(&prev.3, elements);
        let ghost f3 = elements.items();
        proof {
            assert(self.3.seq_rebuilds(
                &prev.3,
                a.subrange(c0 + (prev.0.element_count() + prev.1.element_count() + prev.2.element_count()) as int, c0 + (prev.0.element_count() + prev.1.element_count() + prev.2.element_count() + prev.3.element_count()) as int),
                f3.subrange(cb3 as int, (cb3 + self.3.element_count()) as int),
            )) by {
                lemma_sub_shift(a, b3, (c0 + (prev.0.element_count() + prev.1.element_count() + prev.2.element_count())) as int, cb3 as int, prev.3.element_count() as int);
            }
            lemma_kept_compose(a, c0, (prev.0.element_count() + prev.1.element_count() + prev.2.element_count()), b3, cb3, prev.3.element_count(), elements.items(), elements.cursor());
        }
        let ghost b4 = elements.items();
        let ghost cb4 = elements.cursor();
        proof {
            assert(b4.skip(cb4 as int).len() == a.skip((c0 + (prev.0.element_count() + prev.1.element_count() + prev.2.element_count() + prev.3.element_count())) as int).len());
        }
        self.4.seq_rebuild(&prev.4, elements);
        let ghost f4 = elements.items();
        proof {
            assert(self.4.seq_rebuilds(
                &prev.4,
                a.subrange(c0 + (prev.0.element_count() + prev.1.element_count() + prev.2.element_count() + prev.3.element_count()) as int, c0 + (prev.0.element_count() + prev.1.element_count() + prev.2.element_count() + prev.3.element_count() + prev.4.element_count()) as int),
                f4.subrange(cb4 as int, (cb4 + self.4.element_count()) as int),
            )) by {
                lemma_sub_shift(a, b4, (c0 + (prev.0.element_count() + prev.1.element_count() + prev.2.element_count() + prev.3.element_count())) as int, cb4 as int, prev.4.element_count() as int);
            }
            lemma_kept_compose(a, c0, (prev.0.element_count() + prev.1.element_count() + prev.2.element_count() + prev.3.element_count()), b4, cb4, prev.4.element_count(), elements.items(), elements.cursor());
        }
        let ghost b5 = elements.items();
        let ghost cb5 = elements.cursor();
        proof {
            assert(b5.skip(cb5 as int).len() == a.skip((c0 + (prev.0.element_count() + prev.1.element_count() + prev.2.element_count() + prev.3.element_count() + prev.4.element_count())) as int).len());
        }
        self.5.seq_rebuild(&prev.5, elements);
        let ghost f5 = elements.items();
        proof {
            assert(self.5.seq_rebuilds(
                &prev.5,
                a.subrange(c0 + (prev.0.element_count() + prev.1.element_count() + prev.2.element_count() + prev.3.element_count() + prev.4.element_count()) as int, c0 + (prev.0.element_count() + prev.1.element_count() + prev.2.element_count() + prev.3.element_count() + prev.4.element_count() + prev.5.element_count()) as int),
                f5.subrange(cb5 as int, (cb5 + self.5.element_count()) as int),
            )) by {
                lemma_sub_shift(a, b5, (c0 + (prev.0.element_count() + prev.1.element_count() + prev.2.element_count() + prev.3.element_count() + prev.4.element_count())) as int, cb5 as int, prev.5.element_count() as int);
            }
            lemma_kept_compose(a, c0, (prev.0.element_count() + prev.1.element_count() + prev.2.element_count() + prev.3.element_count() + prev.4.element_count()), b5, cb5, prev.5.element_count(), elements.items(), elements.cursor());
        }
        let ghost b6 = elements.items();
        let ghost cb6 = elements.cursor();
        proof {
            assert(b6.skip(cb6 as int).len() == a.skip((c0 + (prev.0.element_count() + prev.1.element_count() + prev.2.element_count() + prev.3.element_count() + prev.4.element_count() + prev.5.element_count())) as int).len());
        }
        self.6.seq_rebuild(&prev.6, elements);
        let ghost f6 = elements.items();
        proof {
            assert(self.6.seq_rebuilds(
                &prev.6,
                a.subrange(c0 + (prev.0.element_count() + prev.1.element_count() + prev.2.element_count() + prev.3.element_count() + prev.4.element_count() + prev.5.element_count()) as int, c0 + (prev.0.element_count() + prev.1.element_count() + prev.2.element_count() + prev.3.element_count() + prev.4.element_count() + prev.5.element_count() + prev.6.element_count()) as int),
                f6.subrange(cb6 as int, (cb6 + self.6.element_count()) as int),
            )) by {
                lemma_sub_shift(a, b6, (c0 + (prev.0.element_count() + prev.1.element_count() + prev.2.element_count() + prev.3.element_count() + prev.4.element_count() + prev.5.element_count())) as int, cb6 as int, prev.6.element_count() as int);
            }
            lemma_kept_compose(a, c0, (prev.0.element_count() + prev.1.element_count() + prev.2.element_count() + prev.3.element_count() + prev.4.element_count() + prev.5.element_count()), b6, cb6, prev.6.element_count(), elements.items(), elements.cursor());
        }
        let ghost b7 = elements.items();
        let ghost cb7 = elements.cursor();
        proof {
            assert(b7.skip(cb7 as int).len() == a.skip((c0 + (prev.0.element_count() + prev.1.element_count() + prev.2.element_count() + prev.3.element_count() + prev.4.element_count() + prev.5.element_count() + prev.6.element_count())) as int).len());
        }
        self.7.seq_rebuild(&prev.7, elements);
        let ghost f7 = elements.items();
        proof {
            assert(self.7.seq_rebuilds(
                &prev.7,
                a.subrange(c0 + (prev.0.element_count() + prev.1.element_count() + prev.2.element_count() + prev.3.element_count() + prev.4.element_count() + prev.5.element_count() + prev.6.element_count()) as int, c0 + (prev.0.element_count() + prev.1.element_count() + prev.2.element_count() + prev.3.element_count() + prev.4.element_count() + prev.5.element_count() + prev.6.element_count() + prev.7.element_count()) as int),
                f7.subrange(cb7 as int, (cb7 + self.7.element_count()) as int),
            )) by {
                lemma_sub_shift(a, b7, (c0 + (prev.0.element_count() + prev.1.element_count() + prev.2.element_count() + prev.3.element_count() + prev.4.element_count() + prev.5.element_count() + prev.6.element_count())) as int, cb7 as int, prev.7.element_count() as int);
            }
            lemma_kept_compose(a, c0, (prev.0.element_count() + prev.1.element_count() + prev.2.element_count() + prev.3.element_count() + prev.4.element_count() + prev.5.element_count() + prev.6.element_count()), b7, cb7, prev.7.element_count(), elements.items(), elements.cursor());
        }
        let ghost b8 = elements.items();
        let ghost cb8 = elements.cursor();
        proof {
            assert(b8.skip(cb8 as int).len() == a.skip((c0 + (prev.0.element_count() + prev.1.element_count() + prev.2.element_count() + prev.3.element_count() + prev.4.element_count() + prev.5.element_count() + prev.6.element_count() + prev.7.element_count())) as int).len());
        }
        self.8.seq_rebuild(&prev.8, elements);
        let ghost f8 = elements.items();
        proof {
            assert(self.8.seq_rebuilds(
                &prev.8,
                a.subrange(c0 + (prev.0.element_count() + prev.1.element_count() + prev.2.element_count() + prev.3.element_count() + prev.4.element_count() + prev.5.element_count() + prev.6.element_count() + prev.7.element_count()) as int, c0 + (prev.0.element_count() + prev.1.element_count() + prev.2.element_count() + prev.3.element_count() + prev.4.element_count() + prev.5.element_count() + prev.6.element_count() + prev.7.element_count() + prev.8.element_count()) as int),
                f8.subrange(cb8 as int, (cb8 + self.8.element_count()) as int),
            )) by {
                lemma_sub_shift(a, b8, (c0 + (prev.0.element_count() + prev.1.element_count() + prev.2.element_count() + prev.3.element_count() + prev.4.element_count() + prev.5.element_count() + prev.6.element_count() + prev.7.element_count())) as int, cb8 as int, prev.8.element_count() as int);
            }
            lemma_kept_compose(a, c0, (prev.0.element_count() + prev.1.element_count() + prev.2.element_count() + prev.3.element_count() + prev.4.element_count() + prev.5.element_count() + prev.6.element_count() + prev.7.element_count()), b8, cb8, prev.8.element_count(), elements.items(), elements.cursor());
        }
        let ghost ce = elements.cursor();
        proof {
            let fin = elements.items();
            assert(fin.take(ce as int) =~= f8.take(ce as int));
            lemma_take_link(fin, f8, f7, cb8 as int, ce as int);
            lemma_take_link(fin, f7, f6, cb7 as int, cb8 as int);
            lemma_take_link(fin, f6, f5, cb6 as int, cb7 as int);
            lemma_take_link(fin, f5, f4, cb5 as int, cb6 as int);
            lemma_take_link(fin, f4, f3, cb4 as int, cb5 as int);
            lemma_take_link(fin, f3, f2, cb3 as int, cb4 as int);
            lemma_take_link(fin, f2, f1, cb2 as int, cb3 as int);
            lemma_take_link(fin, f1, f0, cb1 as int, cb2 as int);
            assert(self.0.seq_rebuilds(
                &prev.0,
                region(a, c0, prev.element_count()).subrange(0int, (prev.0.element_count()) as int),
                region(fin, c0, self.element_count()).subrange(0int, (self.0.element_count()) as int),
            )) by {
                lemma_sub_stable(fin, f0, cb1 as int, cb0 as int, cb1 as int);
                assert(region(fin, c0, self.element_count()).subrange(0int, (self.0.element_count()) as int) =~= fin.subrange(cb0 as int, cb1 as int));
                assert(region(a, c0, prev.element_count()).subrange(0int, (prev.0.element_count()) as int) =~= a.subrange(c0 + 0int, c0 + (prev.0.element_count()) as int));
            }
            assert(self.1.seq_rebuilds(
                &prev.1,
                region(a, c0, prev.element_count()).subrange((prev.0.element_count()) as int, (prev.0.element_count() + prev.1.element_count()) as int),
                region(fin, c0, self.element_count()).subrange((self.0.element_count()) as int, (self.0.element_count() + self.1.element_count()) as int),
            )) by {
                lemma_sub_stable(fin, f1, cb2 as int, cb1 as int, cb2 as int);
                assert(region(fin, c0, self.element_count()).subrange((self.0.element_count()) as int, (self.0.element_count() + self.1.element_count()) as int) =~= fin.subrange(cb1 as int, cb2 as int));
                assert(region(a, c0, prev.element_count()).subrange((prev.0.element_count()) as int, (prev.0.element_count() + prev.1.element_count()) as int) =~= a.subrange(c0 + (prev.0.element_count()) as int, c0 + (prev.0.element_count() + prev.1.element_count()) as int));
            }
            assert(self.2.seq_rebuilds(
                &prev.2,
                region(a, c0, prev.element_count()).subrange((prev.0.element_count() + prev.1.element_count()) as int, (prev.0.element_count() + prev.1.element_count() + prev.2.element_count()) as int),
                region(fin, c0, self.element_count()).subrange((self.0.element_count() + self.1.element_count()) as int, (self.0.element_count() + self.1.element_count() + self.2.element_count()) as int),
            )) by {
                lemma_sub_stable(fin, f2, cb3 as int, cb2 as int, cb3 as int);
                assert(region(fin, c0, self.element_count()).subrange((self.0.element_count() + self.1.element_count()) as int, (self.0.element_count() + self.1.element_count() + self.2.element_count()) as int) =~= fin.subrange(cb2 as int, cb3 as int));
                assert(region(a, c0, prev.element_count()).subrange((prev.0.element_count() + prev.1.element_count()) as int, (prev.0.element_count() + prev.1.element_count() + prev.2.element_count()) as int) =~= a.subrange(c0 + (prev.0.element_count() + prev.1.element_count()) as int, c0 + (prev.0.element_count() + prev.1.element_count() + prev.2.element_count()) as int));
            }
            assert(self.3.seq_rebuilds(
                &prev.3,
                region(a, c0, prev.element_count()).subrange((prev.0.element_count() + prev.1.element_count() + prev.2.element_count()) as int, (prev.0.element_count() + prev.1.element_count() + prev.2.element_count() + prev.3.element_count()) as int),
                region(fin, c0, self.element_count()).subrange((self.0.element_count() + self.1.element_count() + self.2.element_count()) as int, (self.0.element_count() + self.1.element_count() + self.2.element_count() + self.3.element_count()) as int),
            )) by {
                lemma_sub_stable(fin, f3, cb4 as int, cb3 as int, cb4 as int);
                assert(region(fin, c0, self.element_count()).subrange((self.0.element_count() + self.1.element_count() + self.2.element_count()) as int, (self.0.element_count() + self.1.element_count() + self.2.element_count() + self.3.element_count()) as int) =~= fin.subrange(cb3 as int, cb4 as int));
                assert(region(a, c0, prev.element_count()).subrange((prev.0.element_count() + prev.1.element_count() + prev.2.element_count()) as int, (prev.0.element_count() + prev.1.element_count() + prev.2.element_count() + prev.3.element_count()) as int) =~= a.subrange(c0 + (prev.0.element_count() + prev.1.element_count() + prev.2.element_count()) as int, c0 + (prev.0.element_count() + prev.1.element_count() + prev.2.element_count() + prev.3.element_count()) as int));
            }
            assert(self.4.seq_rebuilds(
                &prev.4,
                region(a, c0, prev.element_count()).subrange((prev.0.element_count() + prev.1.element_count() + prev.2.element_count() + prev.3.element_count()) as int, (prev.0.element_count() + prev.1.element_count() + prev.2.element_count() + prev.3.element_count() + prev.4.element_count()) as int),
                region(fin, c0, self.element_count()).subrange((self.0.element_count() + self.1.element_count() + self.2.element_count() + self.3.element_count()) as int, (self.0.element_count() + self.1.element_count() + self.2.element_count() + self.3.element_count() + self.4.element_count()) as int),
            )) by {
                lemma_sub_stable(fin, f4, cb5 as int, cb4 as int, cb5 as int);
                assert(region(fin, c0, self.element_count()).subrange((self.0.element_count() + self.1.element_count() + self.2.element_count() + self.3.element_count()) as int, (self.0.element_count() + self.1.element_count() + self.2.element_count() + self.3.element_count() + self.4.element_count()) as int) =~= fin.subrange(cb4 as int, cb5 as int));
                assert(region(a, c0, prev.element_count()).subrange((prev.0.element_count() + prev.1.element_count() + prev.2.element_count() + prev.3.element_count()) as int, (prev.0.element_count() + prev.1.element_count() + prev.2.element_count() + prev.3.element_count() + prev.4.element_count()) as int) =~= a.subrange(c0 + (prev.0.element_count() + prev.1.element_count() + prev.2.element_count() + prev.3.element_count()) as int, c0 + (prev.0.element_count() + prev.1.element_count() + prev.2.element_count() + prev.3.element_count() + prev.4.element_count()) as int));
            }
            assert(self.5.seq_rebuilds(
                &prev.5,
                region(a, c0, prev.element_count()).subrange((prev.0.element_count() + prev.1.element_count() + prev.2.element_count() + prev.3.element_count() + prev.4.element_count()) as int, (prev.0.element_count() + prev.1.element_count() + prev.2.element_count() + prev.3.element_count() + prev.4.element_count() + prev.5.element_count()) as int),
                region(fin, c0, self.element_count()).subrange((self.0.element_count() + self.1.element_count() + self.2.element_count() + self.3.element_count() + self.4.element_count()) as int, (self.0.element_count() + self.1.element_count() + self.2.element_count() + self.3.element_count() + self.4.element_count() + self.5.element_count()) as int),
            )) by {
                lemma_sub_stable(fin, f5, cb6 as int, cb5 as int, cb6 as int);
                assert(region(fin, c0, self.element_count()).subrange((self.0.element_count() + self.1.element_count() + self.2.element_count() + self.3.element_count() + self.4.element_count()) as int, (self.0.element_count() + self.1.element_count() + self.2.element_count() + self.3.element_count() + self.4.element_count() + self.5.element_count()) as int) =~= fin.subrange(cb5 as int, cb6 as int));
                assert(region(a, c0, prev.element_count()).subrange((prev.0.element_count() + prev.1.element_count() + prev.2.element_count() + prev.3.element_count() + prev.4.element_count()) as int, (prev.0.element_count() + prev.1.element_count() + prev.2.element_count() + prev.3.element_count() + prev.4.element_count() + prev.5.element_count()) as int) =~= a.subrange(c0 + (prev.0.element_count() + prev.1.element_count() + prev.2.element_count() + prev.3.element_count() + prev.4.element_count()) as int, c0 + (prev.0.element_count() + prev.1.element_count() + prev.2.element_count() + prev.3.element_count() + prev.4.element_count() + prev.5.element_count()) as int));
            }
            assert(self.6.seq_rebuilds(
                &prev.6,
                region(a, c0, prev.element_count()).subrange((prev.0.element_count() + prev.1.element_count() + prev.2.element_count() + prev.3.element_count() + prev.4.element_count() + prev.5.element_count()) as int, (prev.0.element_count() + prev.1.element_count() + prev.2.element_count() + prev.3.element_count() + prev.4.element_count() + prev.5.element_count() + prev.6.element_count()) as int),
                region(fin, c0, self.element_count()).subrange((self.0.element_count() + self.1.element_count() + self.2.element_count() + self.3.element_count() + self.4.element_count() + self.5.element_count()) as int, (self.0.element_count() + self.1.element_count() + self.2.element_count() + self.3.element_count() + self.4.element_count() + self.5.element_count() + self.6.element_count()) as int),
            )) by {
                lemma_sub_stable(fin, f6, cb7 as int, cb6 as int, cb7 as int);
                assert(region(fin, c0, self.element_count()).subrange((self.0.element_count() + self.1.element_count() + self.2.element_count() + self.3.element_count() + self.4.element_count() + self.5.element_count()) as int, (self.0.element_count() + self.1.element_count() + self.2.element_count() + self.3.element_count() + self.4.element_count() + self.5.element_count() + self.6.element_count()) as int) =~= fin.subrange(cb6 as int, cb7 as int));
                assert(region(a, c0, prev.element_count()).subrange((prev.0.element_count() + prev.1.element_count() + prev.2.element_count() + prev.3.element_count() + prev.4.element_count() + prev.5.element_count()) as int, (prev.0.element_count() + prev.1.element_count() + prev.2.element_count() + prev.3.element_count() + prev.4.element_count() + prev.5.element_count() + prev.6.element_count()) as int) =~= a.subrange(c0 + (prev.0.element_count() + prev.1.element_count() + prev.2.element_count() + prev.3.element_count() + prev.4.element_count() + prev.5.element_count()) as int, c0 + (prev.0.element_count() + prev.1.element_count() + prev.2.element_count() + prev.3.element_count() + prev.4.element_count() + prev.5.element_count() + prev.6.element_count()) as int));
            }
            assert(self.7.seq_rebuilds(
                &prev.7,
                region(a, c0, prev.element_count()).subrange((prev.0.element_count() + prev.1.element_count() + prev.2.element_count() + prev.3.element_count() + prev.4.element_count() + prev.5.element_count() + prev.6.element_count()) as int, (prev.0.element_count() + prev.1.element_count() + prev.2.element_count() + prev.3.element_count() + prev.4.element_count() + prev.5.element_count() + prev.6.element_count() + prev.7.element_count()) as int),
                region(fin, c0, self.element_count()).subrange((self.0.element_count() + self.1.element_count() + self.2.element_count() + self.3.element_count() + self.4.element_count() + self.5.element_count() + self.6.element_count()) as int, (self.0.element_count() + self.1.element_count() + self.2.element_count() + self.3.element_count() + self.4.element_count() + self.5.element_count() + self.6.element_count() + self.7.element_count()) as int),
            )) by {
                lemma_sub_stable(fin, f7, cb8 as int, cb7 as int, cb8 as int);
                assert(region(fin, c0, self.element_count()).subrange((self.0.element_count() + self.1.element_count() + self.2.element_count() + self.3.element_count() + self.4.element_count() + self.5.element_count() + self.6.element_count()) as int, (self.0.element_count() + self.1.element_count() + self.2.element_count() + self.3.element_count() + self.4.element_count() + self.5.element_count() + self.6.element_count() + self.7.element_count()) as int) =~= fin.subrange(cb7 as int, cb8 as int));
                assert(region(a, c0, prev.element_count()).subrange((prev.0.element_count() + prev.1.element_count() + prev.2.element_count() + prev.3.element_count() + prev.4.element_count() + prev.5.element_count() + prev.6.element_count()) as int, (prev.0.element_count() + prev.1.element_count() + prev.2.element_count() + prev.3.element_count() + prev.4.element_count() + prev.5.element_count() + prev.6.element_count() + prev.7.element_count()) as int) =~= a.subrange(c0 + (prev.0.element_count() + prev.1.element_count() + prev.2.element_count() + prev.3.element_count() + prev.4.element_count() + prev.5.element_count() + prev.6.element_count()) as int, c0 + (prev.0.element_count() + prev.1.element_count() + prev.2.element_count() + prev.3.element_count() + prev.4.element_count() + prev.5.element_count() + prev.6.element_count() + prev.7.element_count()) as int));
            }
            assert(self.8.seq_rebuilds(
                &prev.8,
                region(a, c0, prev.element_count()).subrange((prev.0.element_count() + prev.1.element_count() + prev.2.element_count() + prev.3.element_count() + prev.4.element_count() + prev.5.element_count() + prev.6.element_count() + prev.7.element_count()) as int, (prev.0.element_count() + prev.1.element_count() + prev.2.element_count() + prev.3.element_count() + prev.4.element_count() + prev.5.element_count() + prev.6.element_count() + prev.7.element_count() + prev.8.element_count()) as int),
                region(fin, c0, self.element_count()).subrange((self.0.element_count() + self.1.element_count() + self.2.element_count() + self.3.element_count() + self.4.element_count() + self.5.element_count() + self.6.element_count() + self.7.element_count()) as int, (self.0.element_count() + self.1.element_count() + self.2.element_count() + self.3.element_count() + self.4.element_count() + self.5.element_count() + self.6.element_count() + self.7.element_count() + self.8.element_count()) as int),
            )) by {
                assert(region(fin, c0, self.element_count()).subrange((self.0.element_count() + self.1.element_count() + self.2.element_count() + self.3.element_count() + self.4.element_count() + self.5.element_count() + self.6.element_count() + self.7.element_count()) as int, (self.0.element_count() + self.1.element_count() + self.2.element_count() + self.3.element_count() + self.4.element_count() + self.5.element_count() + self.6.element_count() + self.7.element_count() + self.8.element_count()) as int) =~= fin.subrange(cb8 as int, ce as int));
                assert(region(a, c0, prev.element_count()).subrange((prev.0.element_count() + prev.1.element_count() + prev.2.element_count() + prev.3.element_count() + prev.4.element_count() + prev.5.element_count() + prev.6.element_count() + prev.7.element_count()) as int, (prev.0.element_count() + prev.1.element_count() + prev.2.element_count() + prev.3.element_count() + prev.4.element_count() + prev.5.element_count() + prev.6.element_count() + prev.7.element_count() + prev.8.element_count()) as int) =~= a.subrange(c0 + (prev.0.element_count() + prev.1.element_count() + prev.2.element_count() + prev.3.element_count() + prev.4.element_count() + prev.5.element_count() + prev.6.element_count() + prev.7.element_count()) as int, c0 + (prev.0.element_count() + prev.1.element_count() + prev.2.element_count() + prev.3.element_count() + prev.4.element_count() + prev.5.element_count() + prev.6.element_count() + prev.7.element_count() + prev.8.element_count()) as int));
            }
        }
    }

    #[verifier::spinoff_prover]
    #[verifier::rlimit(100)]
    fn seq_teardown<Splice: ElementSplice<Element>>(&self, elements: &mut Splice) {
        let ghost a = elements.items();
        let ghost c0 = elements.cursor();
        proof {
            lemma_kept_refl(a, c0);
        }
        let ghost b0 = elements.items();
        let ghost cb0 = elements.cursor();
        proof {
            assert(b0.skip(cb0 as int).len() == a.skip((c0 + 0) as int).len());
        }
        self.0.seq_teardown(elements);
        proof {
            assert(self.0.seq_tears_down(region(a, c0, self.element_count()).subrange(0int, (self.0.element_count()) as int))) by {
                lemma_sub_shift(a, b0, (c0 + 0) as int, cb0 as int, self.0.element_count() as int);
                assert(region(a, c0, self.element_count()).subrange(0int, (self.0.element_count()) as int) =~= a.subrange(c0 + 0int, c0 + (self.0.element_count()) as int));
            }
            lemma_kept_compose(a, c0, 0, b0, cb0, self.0.element_count(), elements.items(), elements.cursor());
        }
        let ghost b1 = elements.items();
        let ghost cb1 = elements.cursor();
        proof {
            assert(b1.skip(cb1 as int).len() == a.skip((c0 + (self.0.element_count())) as int).len());
        }
        self.1.seq_teardown(elements);
        proof {
            assert(self.1.seq_tears_down(region(a, c0, self.element_count()).subrange((self.0.element_count()) as int, (self.0.element_count() + self.1.element_count()) as int))) by {
                lemma_sub_shift(a, b1, (c0 + (self.0.element_count())) as int, cb1 as int, self.1.element_count() as int);
                assert(region(a, c0, self.element_count()).subrange((self.0.element_count()) as int, (self.0.element_count() + self.1.element_count()) as int) =~= a.subrange(c0 + (self.0.element_count()) as int, c0 + (self.0.element_count() + self.1.element_count()) as int));
            }
            lemma_kept_compose(a, c0, (self.0.element_count()), b1, cb1, self.1.element_count(), elements.items(), elements.cursor());
        }
        let ghost b2 = elements.items();
        let ghost cb2 = elements.cursor();
        proof {
            assert(b2.skip(cb2 as int).len() == a.skip((c0 + (self.0.element_count() + self.1.element_count())) as int).len());
        }
        self.2.seq_teardown(elements);
        proof {
            assert(self.2.seq_tears_down(region(a, c0, self.element_count()).subrange((self.0.element_count() + self.1.element_count()) as int, (self.0.element_count() + self.1.element_count() + self.2.element_count()) as int))) by {
                lemma_sub_shift(a, b2, (c0 + (self.0.element_count() + self.1.element_count())) as int, cb2 as int, self.2.element_count() as int);
                assert(region(a, c0, self.element_count()).subrange((self.0.element_count() + self.1.element_count()) as int, (self.0.element_count() + self.1.element_count() + self.2.element_count()) as int) =~= a.subrange(c0 + (self.0.element_count() + self.1.element_count()) as int, c0 + (self.0.element_count() + self.1.element_count() + self.2.element_count()) as int));
            }
            lemma_kept_compose(a, c0, (self.0.element_count() + self.1.element_count()), b2, cb2, self.2.element_count(), elements.items(), elements.cursor());
        }
        let ghost b3 = elements.items();
        let ghost cb3 = elements.cursor();
        proof {
            assert(b3.skip(cb3 as int).len() == a.skip((c0 + (self.0.element_count() + self.1.element_count() + self.2.element_count())) as int).len());
        }
        self.3.seq_teardown(elements);
        proof {
            assert(self.3.seq_tears_down(region(a, c0, self.element_count()).subrange((self.0.element_count() + self.1.element_count() + self.2.element_count()) as int, (self.0.element_count() + self.1.element_count() + self.2.element_count() + self.3.element_count()) as int))) by {
                lemma_sub_shift(a, b3, (c0 + (self.0.element_count() + self.1.element_count() + self.2.element_count())) as int, cb3 as int, self.3.element_count() as int);
                assert(region(a, c0, self.element_count()).subrange((self.0.element_count() + self.1.element_count() + self.2.element_count()) as int, (self.0.element_count() + self.1.element_count() + self.2.element_count() + self.3.element_count()) as int) =~= a.subrange(c0 + (self.0.element_count() + self.1.element_count() + self.2.element_count()) as int, c0 + (self.0.element_count() + self.1.element_count() + self.2.element_count() + self.3.element_count()) as int));
            }
            lemma_kept_compose(a, c0, (self.0.element_count() + self.1.element_count() + self.2.element_count()), b3, cb3, self.3.element_count(), elements.items(), elements.cursor());
        }
        let ghost b4 = elements.items();
        let ghost cb4 = elements.cursor();
        proof {
            assert(b4.skip(cb4 as int).len() == a.skip((c0 + (self.0.element_count() + self.1.element_count() + self.2.element_count() + self.3.element_count())) as int).len());
        }
        self.4.seq_teardown(elements);
        proof {
            assert(self.4.seq_tears_down(region(a, c0, self.element_count()).subrange((self.0.element_count() + self.1.element_count() + self.2.element_count() + self.3.element_count()) as int, (self.0.element_count() + self.1.element_count() + self.2.element_count() + self.3.element_count() + self.4.element_count()) as int))) by {
                lemma_sub_shift(a, b4, (c0 + (self.0.element_count() + self.1.element_count() + self.2.element_count() + self.3.element_count())) as int, cb4 as int, self.4.element_count() as int);
                assert(region(a, c0, self.element_count()).subrange((self.0.element_count() + self.1.element_count() + self.2.element_count() + self.3.element_count()) as int, (self.0.element_count() + self.1.element_count() + self.2.element_count() + self.3.element_count() + self.4.element_count()) as int) =~= a.subrange(c0 + (self.0.element_count() + self.1.element_count() + self.2.element_count() + self.3.element_count()) as int, c0 + (self.0.element_count() + self.1.element_count() + self.2.element_count() + self.3.element_count() + self.4.element_count()) as int));
            }
            lemma_kept_compose(a, c0, (self.0.element_count() + self.1.element_count() + self.2.element_count() + self.3.element_count()), b4, cb4, self.4.element_count(), elements.items(), elements.cursor());
        }
        let ghost b5 = elements.items();
        let ghost cb5 = elements.cursor();
        proof {
            assert(b5.skip(cb5 as int).len() == a.skip((c0 + (self.0.element_count() + self.1.element_count() + self.2.element_count() + self.3.element_count() + self.4.element_count())) as int).len());
        }
        self.5.seq_teardown(elements);
        proof {
            assert(self.5.seq_tears_down(region(a, c0, self.element_count()).subrange((self.0.element_count() + self.1.element_count() + self.2.element_count() + self.3.element_count() + self.4.element_count()) as int, (self.0.element_count() + self.1.element_count() + self.2.element_count() + self.3.element_count() + self.4.element_count() + self.5.element_count()) as int))) by {
                lemma_sub_shift(a, b5, (c0 + (self.0.element_count() + self.1.element_count() + self.2.element_count() + self.3.element_count() + self.4.element_count())) as int, cb5 as int, self.5.element_count() as int);
                assert(region(a, c0, self.element_count()).subrange((self.0.element_count() + self.1.element_count() + self.2.element_count() + self.3.element_count() + self.4.element_count()) as int, (self.0.element_count() + self.1.element_count() + self.2.element_count() + self.3.element_count() + self.4.element_count() + self.5.element_count()) as int) =~= a.subrange(c0 + (self.0.element_count() + self.1.element_count() + self.2.element_count() + self.3.element_count() + self.4.element_count()) as int, c0 + (self.0.element_count() + self.1.element_count() + self.2.element_count() + self.3.element_count() + self.4.element_count() + self.5.element_count()) as int));
            }
            lemma_kept_compose(a, c0, (self.0.element_count() + self.1.element_count() + self.2.element_count() + self.3.element_count() + self.4.element_count()), b5, cb5, self.5.element_count(), elements.items(), elements.cursor());
        }
        let ghost b6 = elements.items();
        let ghost cb6 = elements.cursor();
        proof {
            assert(b6.skip(cb6 as int).len() == a.skip((c0 + (self.0.element_count() + self.1.element_count() + self.2.element_count() + self.3.element_count() + self.4.element_count() + self.5.element_count())) as int).len());
        }
        self.6.seq_teardown(elements);
        proof {
            assert(self.6.seq_tears_down(region(a, c0, self.element_count()).subrange((self.0.element_count() + self.1.element_count() + self.2.element_count() + self.3.element_count() + self.4.element_count() + self.5.element_count()) as int, (self.0.element_count() + self.1.element_count() + self.2.element_count() + self.3.element_count() + self.4.element_count() + self.5.element_count() + self.6.element_count()) as int))) by {
                lemma_sub_shift(a, b6, (c0 + (self.0.element_count() + self.1.element_count() + self.2.element_count() + self.3.element_count() + self.4.element_count() + self.5.element_count())) as int, cb6 as int, self.6.element_count() as int);
                assert(region(a, c0, self.element_count()).subrange((self.0.element_count() + self.1.element_count() + self.2.element_count() + self.3.element_count() + self.4.element_count() + self.5.element_count()) as int, (self.0.element_count() + self.1.element_count() + self.2.element_count() + self.3.element_count() + self.4.element_count() + self.5.element_count() + self.6.element_count()) as int) =~= a.subrange(c0 + (self.0.element_count() + self.1.element_count() + self.2.element_count() + self.3.element_count() + self.4.element_count() + self.5.element_count()) as int, c0 + (self.0.element_count() + self.1.element_count() + self.2.element_count() + self.3.element_count() + self.4.element_count() + self.5.element_count() + self.6.element_count()) as int));
            }
            lemma_kept_compose(a, c0, (self.0.element_count() + self.1.element_count() + self.2.element_count() + self.3.element_count() + self.4.element_count() + self.5.element_count()), b6, cb6, self.6.element_count(), elements.items(), elements.cursor());
        }
        let ghost b7 = elements.items();
        let ghost cb7 = elements.cursor();
        proof {
            assert(b7.skip(cb7 as int).len() == a.skip((c0 + (self.0.element_count() + self.1.element_count() + self.2.element_count() + self.3.element_count() + self.4.element_count() + self.5.element_count() + self.6.element_count())) as int).len());
        }
        self.7.seq_teardown(elements);
        proof {
            assert(self.7.seq_tears_down(region(a, c0, self.element_count()).subrange((self.0.element_count() + self.1.element_count() + self.2.element_count() + self.3.element_count() + self.4.element_count() + self.5.element_count() + self.6.element_count()) as int, (self.0.element_count() + self.1.element_count() + self.2.element_count() + self.3.element_count() + self.4.element_count() + self.5.element_count() + self.6.element_count() + self.7.element_count()) as int))) by {
                lemma_sub_shift(a, b7, (c0 + (self.0.element_count() + self.1.element_count() + self.2.element_count() + self.3.element_count() + self.4.element_count() + self.5.element_count() + self.6.element_count())) as int, cb7 as int, self.7.element_count() as int);
                assert(region(a, c0, self.element_count()).subrange((self.0.element_count() + self.1.element_count() + self.2.element_count() + self.3.element_count() + self.4.element_count() + self.5.element_count() + self.6.element_count()) as int, (self.0.element_count() + self.1.element_count() + self.2.element_count() + self.3.element_count() + self.4.element_count() + self.5.element_count() + self.6.element_count() + self.7.element_count()) as int) =~= a.subrange(c0 + (self.0.element_count() + self.1.element_count() + self.2.element_count() + self.3.element_count() + self.4.element_count() + self.5.element_count() + self.6.element_count()) as int, c0 + (self.0.element_count() + self.1.element_count() + self.2.element_count() + self.3.element_count() + self.4.element_count() + self.5.element_count() + self.6.element_count() + self.7.element_count()) as int));
            }
            lemma_kept_compose(a, c0, (self.0.element_count() + self.1.element_count() + self.2.element_count() + self.3.element_count() + self.4.element_count() + self.5.element_count() + self.6.element_count()), b7, cb7, self.7.element_count(), elements.items(), elements.cursor());
        }
        let ghost b8 = elements.items();
        let ghost cb8 = elements.cursor();
        proof {
            assert(b8.skip(cb8 as int).len() == a.skip((c0 + (self.0.element_count() + self.1.element_count() + self.2.element_count() + self.3.element_count() + self.4.element_count() + self.5.element_count() + self.6.element_count() + self.7.element_count())) as int).len());
        }
        self.8.seq_teardown(elements);
        proof {
            assert(self.8.seq_tears_down(region(a, c0, self.element_count()).subrange((self.0.element_count() + self.1.element_count() + self.2.element_count() + self.3.element_count() + self.4.element_count() + self.5.element_count() + self.6.element_count() + self.7.element_count()) as int, (self.0.element_count() + self.1.element_count() + self.2.element_count() + self.3.element_count() + self.4.element_count() + self.5.element_count() + self.6.element_count() + self.7.element_count() + self.8.element_count()) as int))) by {
                lemma_sub_shift(a, b8, (c0 + (self.0.element_count() + self.1.element_count() + self.2.element_count() + self.3.element_count() + self.4.element_count() + self.5.element_count() + self.6.element_count() + self.7.element_count())) as int, cb8 as int, self.8.element_count() as int);
                assert(region(a, c0, self.element_count()).subrange((self.0.element_count() + self.1.element_count() + self.2.element_count() + self.3.element_count() + self.4.element_count() + self.5.element_count() + self.6.element_count() + self.7.element_count()) as int, (self.0.element_count() + self.1.element_count() + self.2.element_count() + self.3.element_count() + self.4.element_count() + self.5.element_count() + self.6.element_count() + self.7.element_count() + self.8.element_count()) as int) =~= a.subrange(c0 + (self.0.element_count() + self.1.element_count() + self.2.element_count() + self.3.element_count() + self.4.element_count() + self.5.element_count() + self.6.element_count() + self.7.element_count()) as int, c0 + (self.0.element_count() + self.1.element_count() + self.2.element_count() + self.3.element_count() + self.4.element_count() + self.5.element_count() + self.6.element_count() + self.7.element_count() + self.8.element_count()) as int));
            }
            lemma_kept_compose(a, c0, (self.0.element_count() + self.1.element_count() + self.2.element_count() + self.3.element_count() + self.4.element_count() + self.5.element_count() + self.6.element_count() + self.7.element_count()), b8, cb8, self.8.element_count(), elements.items(), elements.cursor());
        }
    }
}

/// A tuple of 10 sequences builds the elements of each, in order.
impl<State, Element, S0, S1, S2, S3, S4, S5, S6, S7, S8, S9> ViewSequence<State, Element> for (S0, S1, S2, S3, S4, S5, S6, S7, S8, S9,) where
    S0: ViewSequence<State, Element>,
    S1: ViewSequence<State, Element>,
    S2: ViewSequence<State, Element>,
    S3: ViewSequence<State, Element>,
    S4: ViewSequence<State, Element>,
    S5: ViewSequence<State, Element>,
    S6: ViewSequence<State, Element>,
    S7: ViewSequence<State, Element>,
    S8: ViewSequence<State, Element>,
    S9: ViewSequence<State, Element>,
 {
    open spec fn element_count(&self) -> nat {
        self.0.element_count() + self.1.element_count() + self.2.element_count() + self.3.element_count() + self.4.element_count() + self.5.element_count() + self.6.element_count() + self.7.element_count() + self.8.element_count() + self.9.element_count()
    }

    open spec fn seq_builds(&self, out: Seq<Element>) -> bool {
        &&& out.len() == self.element_count()
        &&& self.0.seq_builds(out.subrange(0int, (self.0.element_count()) as int))
        &&& self.1.seq_builds(out.subrange((self.0.element_count()) as int, (self.0.element_count() + self.1.element_count()) as int))
        &&& self.2.seq_builds(out.subrange((self.0.element_count() + self.1.element_count()) as int, (self.0.element_count() + self.1.element_count() + self.2.element_count()) as int))
        &&& self.3.seq_builds(out.subrange((self.0.element_count() + self.1.element_count() + self.2.element_count()) as int, (self.0.element_count() + self.1.element_count() + self.2.element_count() + self.3.element_count()) as int))
        &&& self.4.seq_builds(out.subrange((self.0.element_count() + self.1.element_count() + self.2.element_count() + self.3.element_count()) as int, (self.0.element_count() + self.1.element_count() + self.2.element_count() + self.3.element_count() + self.4.element_count()) as int))
        &&& self.5.seq_builds(out.subrange((self.0.element_count() + self.1.element_count() + self.2.element_count() + self.3.element_count() + self.4.element_count()) as int, (self.0.element_count() + self.1.element_count() + self.2.element_count() + self.3.element_count() + self.4.element_count() + self.5.element_count()) as int))
        &&& self.6.seq_builds(out.subrange((self.0.element_count() + self.1.element_count() + self.2.element_count() + self.3.element_count() + self.4.element_count() + self.5.element_count()) as int, (self.0.element_count() + self.1.element_count() + self.2.element_count() + self.3.element_count() + self.4.element_count() + self.5.element_count() + self.6.element_count()) as int))
        &&& self.7.seq_builds(out.subrange((self.0.element_count() + self.1.element_count() + self.2.element_count() + self.3.element_count() + self.4.element_count() + self.5.element_count() + self.6.element_count()) as int, (self.0.element_count() + self.1.element_count() + self.2.element_count() + self.3.element_count() + self.4.element_count() + self.5.element_count() + self.6.element_count() + self.7.element_count()) as int))
        &&& self.8.seq_builds(out.subrange((self.0.element_count() + self.1.element_count() + self.2.element_count() + self.3.element_count() + self.4.element_count() + self.5.element_count() + self.6.element_count() + self.7.element_count()) as int, (self.0.element_count() + self.1.element_count() + self.2.element_count() + self.3.element_count() + self.4.element_count() + self.5.element_count() + self.6.element_count() + self.7.element_count() + self.8.element_count()) as int))
        &&& self.9.seq_builds(out.subrange((self.0.element_count() + self.1.element_count() + self.2.element_count() + self.3.element_count() + self.4.element_count() + self.5.element_count() + self.6.element_count() + self.7.element_count() + self.8.element_count()) as int, (self.0.element_count() + self.1.element_count() + self.2.element_count() + self.3.element_count() + self.4.element_count() + self.5.element_count() + self.6.element_count() + self.7.element_count() + self.8.element_count() + self.9.element_count()) as int))
    }

    open spec fn seq_rebuilds(&self, prev: &Self, before: Seq<Element>, after: Seq<Element>) -> bool {
        &&& before.len() == prev.element_count()
        &&& after.len() == self.element_count()
        &&& self.0.seq_rebuilds(
            &prev.0,
            before.subrange(0int, (prev.0.element_count()) as int),
            after.subrange(0int, (self.0.element_count()) as int),
        )
        &&& self.1.seq_rebuilds(
            &prev.1,
            before.subrange((prev.0.element_count()) as int, (prev.0.element_count() + prev.1.element_count()) as int),
            after.subrange((self.0.element_count()) as int, (self.0.element_count() + self.1.element_count()) as int),
        )
        &&& self.2.seq_rebuilds(
            &prev.2,
            before.subrange((prev.0.element_count() + prev.1.element_count()) as int, (prev.0.element_count() + prev.1.element_count() + prev.2.element_count()) as int),
            after.subrange((self.0.element_count() + self.1.element_count()) as int, (self.0.element_count() + self.1.element_count() + self.2.element_count()) as int),
        )
        &&& self.3.seq_rebuilds(
            &prev.3,
            before.subrange((prev.0.element_count() + prev.1.element_count() + prev.2.element_count()) as int, (prev.0.element_count() + prev.1.element_count() + prev.2.element_count() + prev.3.element_count()) as int),
            after.subrange((self.0.element_count() + self.1.element_count() + self.2.element_count()) as int, (self.0.element_count() + self.1.element_count() + self.2.element_count() + self.3.element_count()) as int),
        )
        &&& self.4.seq_rebuilds(
            &prev.4,
            before.subrange((prev.0.element_count() + prev.1.element_count() + prev.2.element_count() + prev.3.element_count()) as int, (prev.0.element_count() + prev.1.element_count() + prev.2.element_count() + prev.3.element_count() + prev.4.element_count()) as int),
            after.subrange((self.0.element_count() + self.1.element_count() + self.2.element_count() + self.3.element_count()) as int, (self.0.element_count() + self.1.element_count() + self.2.element_count() + self.3.element_count() + self.4.element_count()) as int),
        )
        &&& self.5.seq_rebuilds(
            &prev.5,
            before.subrange((prev.0.element_count() + prev.1.element_count() + prev.2.element_count() + prev.3.element_count() + prev.4.element_count()) as int, (prev.0.element_count() + prev.1.element_count() + prev.2.element_count() + prev.3.element_count() + prev.4.element_count() + prev.5.element_count()) as int),
            after.subrange((self.0.element_count() + self.1.element_count() + self.2.element_count() + self.3.element_count() + self.4.element_count()) as int, (self.0.element_count() + self.1.element_count() + self.2.element_count() + self.3.element_count() + self.4.element_count() + self.5.element_count()) as int),
        )
        &&& self.6.seq_rebuilds(
            &prev.6,
            before.subrange((prev.0.element_count() + prev.1.element_count() + prev.2.element_count() + prev.3.element_count() + prev.4.element_count() + prev.5.element_count()) as int, (prev.0.element_count() + prev.1.element_count() + prev.2.element_count() + prev.3.element_count() + prev.4.element_count() + prev.5.element_count() + prev.6.element_count()) as int),
            after.subrange((self.0.element_count() + self.1.element_count() + self.2.element_count() + self.3.element_count() + self.4.element_count() + self.5.element_count()) as int, (self.0.element_count() + self.1.element_count() + self.2.element_count() + self.3.element_count() + self.4.element_count() + self.5.element_count() + self.6.element_count()) as int),
        )
        &&& self.7.seq_rebuilds(
            &prev.7,
            before.subrange((prev.0.element_count() + prev.1.element_count() + prev.2.element_count() + prev.3.element_count() + prev.4.element_count() + prev.5.element_count() + prev.6.element_count()) as int, (prev.0.element_count() + prev.1.element_count() + prev.2.element_count() + prev.3.element_count() + prev.4.element_count() + prev.5.element_count() + prev.6.element_count() + prev.7.element_count()) as int),
            after.subrange((self.0.element_count() + self.1.element_count() + self.2.element_count() + self.3.element_count() + self.4.element_count() + self.5.element_count() + self.6.element_count()) as int, (self.0.element_count() + self.1.element_count() + self.2.element_count() + self.3.element_count() + self.4.element_count() + self.5.element_count() + self.6.element_count() + self.7.element_count()) as int),
        )
        &&& self.8.seq_rebuilds(
            &prev.8,
            before.subrange((prev.0.element_count() + prev.1.element_count() + prev.2.element_count() + prev.3.element_count() + prev.4.element_count() + prev.5.element_count() + prev.6.element_count() + prev.7.element_count()) as int, (prev.0.element_count() + prev.1.element_count() + prev.2.element_count() + prev.3.element_count() + prev.4.element_count() + prev.5.element_count() + prev.6.element_count() + prev.7.element_count() + prev.8.element_count()) as int),
            after.subrange((self.0.element_count() + self.1.element_count() + self.2.element_count() + self.3.element_count() + self.4.element_count() + self.5.element_count() + self.6.element_count() + self.7.element_count()) as int, (self.0.element_count() + self.1.element_count() + self.2.element_count() + self.3.element_count() + self.4.element_count() + self.5.element_count() + self.6.element_count() + self.7.element_count() + self.8.element_count()) as int),
        )
        &&& self.9.seq_rebuilds(
            &prev.9,
            before.subrange((prev.0.element_count() + prev.1.element_count() + prev.2.element_count() + prev.3.element_count() + prev.4.element_count() + prev.5.element_count() + prev.6.element_count() + prev.7.element_count() + prev.8.element_count()) as int, (prev.0.element_count() + prev.1.element_count() + prev.2.element_count() + prev.3.element_count() + prev.4.element_count() + prev.5.element_count() + prev.6.element_count() + prev.7.element_count() + prev.8.element_count() + prev.9.element_count()) as int),
            after.subrange((self.0.element_count() + self.1.element_count() + self.2.element_count() + self.3.element_count() + self.4.element_count() + self.5.element_count() + self.6.element_count() + self.7.element_count() + self.8.element_count()) as int, (self.0.element_count() + self.1.element_count() + self.2.element_count() + self.3.element_count() + self.4.element_count() + self.5.element_count() + self.6.element_count() + self.7.element_count() + self.8.element_count() + self.9.element_count()) as int),
        )
    }

    open spec fn seq_tears_down(&self, before: Seq<Element>) -> bool {
        &&& before.len() == self.element_count()
        &&& self.0.seq_tears_down(before.subrange(0int, (self.0.element_count()) as int))
        &&& self.1.seq_tears_down(before.subrange((self.0.element_count()) as int, (self.0.element_count() + self.1.element_count()) as int))
        &&& self.2.seq_tears_down(before.subrange((self.0.element_count() + self.1.element_count()) as int, (self.0.element_count() + self.1.element_count() + self.2.element_count()) as int))
        &&& self.3.seq_tears_down(before.subrange((self.0.element_count() + self.1.element_count() + self.2.element_count()) as int, (self.0.element_count() + self.1.element_count() + self.2.element_count() + self.3.element_count()) as int))
        &&& self.4.seq_tears_down(before.subrange((self.0.element_count() + self.1.element_count() + self.2.element_count() + self.3.element_count()) as int, (self.0.element_count() + self.1.element_count() + self.2.element_count() + self.3.element_count() + self.4.element_count()) as int))
        &&& self.5.seq_tears_down(before.subrange((self.0.element_count() + self.1.element_count() + self.2.element_count() + self.3.element_count() + self.4.element_count()) as int, (self.0.element_count() + self.1.element_count() + self.2.element_count() + self.3.element_count() + self.4.element_count() + self.5.element_count()) as int))
        &&& self.6.seq_tears_down(before.subrange((self.0.element_count() + self.1.element_count() + self.2.element_count() + self.3.element_count() + self.4.element_count() + self.5.element_count()) as int, (self.0.element_count() + self.1.element_count() + self.2.element_count() + self.3.element_count() + self.4.element_count() + self.5.element_count() + self.6.element_count()) as int))
        &&& self.7.seq_tears_down(before.subrange((self.0.element_count() + self.1.element_count() + self.2.element_count() + self.3.element_count() + self.4.element_count() + self.5.element_count() + self.6.element_count()) as int, (self.0.element_count() + self.1.element_count() + self.2.element_count() + self.3.element_count() + self.4.element_count() + self.5.element_count() + self.6.element_count() + self.7.element_count()) as int))
        &&& self.8.seq_tears_down(before.subrange((self.0.element_count() + self.1.element_count() + self.2.element_count() + self.3.element_count() + self.4.element_count() + self.5.element_count() + self.6.element_count() + self.7.element_count()) as int, (self.0.element_count() + self.1.element_count() + self.2.element_count() + self.3.element_count() + self.4.element_count() + self.5.element_count() + self.6.element_count() + self.7.element_count() + self.8.element_count()) as int))
        &&& self.9.seq_tears_down(before.subrange((self.0.element_count() + self.1.element_count() + self.2.element_count() + self.3.element_count() + self.4.element_count() + self.5.element_count() + self.6.element_count() + self.7.element_count() + self.8.element_count()) as int, (self.0.element_count() + self.1.element_count() + self.2.element_count() + self.3.element_count() + self.4.element_count() + self.5.element_count() + self.6.element_count() + self.7.element_count() + self.8.element_count() + self.9.element_count()) as int))
    }

    #[verifier::spinoff_prover]
    #[verifier::rlimit(100)]
    fn seq_build(&self, elements: &mut Vec<Element>) {
        let ghost start = elements@;
        let ghost sl = start.len() as int;
        let ghost b0 = elements@;
        self.0.seq_build(elements);
        let ghost f0 = elements@;
        let ghost b1 = elements@;
        self.1.seq_build(elements);
        let ghost f1 = elements@;
        proof {
            lemma_prefix_kept(start, b1, elements@);
        }
        let ghost b2 = elements@;
        self.2.seq_build(elements);
        let ghost f2 = elements@;
        proof {
            lemma_prefix_kept(start, b2, elements@);
        }
        let ghost b3 = elements@;
        self.3.seq_build(elements);
        let ghost f3 = elements@;
        proof {
            lemma_prefix_kept(start, b3, elements@);
        }
        let ghost b4 = elements@;
        self.4.seq_build(elements);
        let ghost f4 = elements@;
        proof {
            lemma_prefix_kept(start, b4, elements@);
        }
        let ghost b5 = elements@;
        self.5.seq_build(elements);
        let ghost f5 = elements@;
        proof {
            lemma_prefix_kept(start, b5, elements@);
        }
        let ghost b6 = elements@;
        self.6.seq_build(elements);
        let ghost f6 = elements@;
        proof {
            lemma_prefix_kept(start, b6, elements@);
        }
        let ghost b7 = elements@;
        self.7.seq_build(elements);
        let ghost f7 = elements@;
        proof {
            lemma_prefix_kept(start, b7, elements@);
        }
        let ghost b8 = elements@;
        self.8.seq_build(elements);
        let ghost f8 = elements@;
        proof {
            lemma_prefix_kept(start, b8, elements@);
        }
        let ghost b9 = elements@;
        self.9.seq_build(elements);
        let ghost f9 = elements@;
        proof {
            lemma_prefix_kept(start, b9, elements@);
        }
        proof {
            let fin = elements@;
            assert(fin.take(fin.len() as int) =~= f9.take(fin.len() as int));
            assert(f9.take(b9.len() as int) == b9);
            assert(b9.take(b9.len() as int) =~= b9);
            lemma_take_link(fin, f9, b9, b9.len() as int, fin.len() as int);
            assert(b8.take(b8.len() as int) =~= b8);
            lemma_take_link(fin, f8, b8, b8.len() as int, b9.len() as int);
            assert(b7.take(b7.len() as int) =~= b7);
            lemma_take_link(fin, f7, b7, b7.len() as int, b8.len() as int);
            assert(b6.take(b6.len() as int) =~= b6);
            lemma_take_link(fin, f6, b6, b6.len() as int, b7.len() as int);
            assert(b5.take(b5.len() as int) =~= b5);
            lemma_take_link(fin, f5, b5, b5.len() as int, b6.len() as int);
            assert(b4.take(b4.len() as int) =~= b4);
            lemma_take_link(fin, f4, b4, b4.len() as int, b5.len() as int);
            assert(b3.take(b3.len() as int) =~= b3);
            lemma_take_link(fin, f3, b3, b3.len() as int, b4.len() as int);
            assert(b2.take(b2.len() as int) =~= b2);
            lemma_take_link(fin, f2, b2, b2.len() as int, b3.len() as int);
            assert(b1.take(b1.len() as int) =~= b1);
            lemma_take_link(fin, f1, b1, b1.len() as int, b2.len() as int);
            assert(self.0.seq_builds(fin.skip(sl).subrange(0int, (self.0.element_count()) as int))) by {
                lemma_sub_stable(fin, f0, b1.len() as int, sl + 0int, sl + (self.0.element_count()) as int);
                assert(f0.skip(b0.len() as int) =~= f0.subrange(sl + 0int, sl + (self.0.element_count()) as int));
                assert(fin.skip(sl).subrange(0int, (self.0.element_count()) as int) =~= fin.subrange(sl + 0int, sl + (self.0.element_count()) as int));
            }
            assert(self.1.seq_builds(fin.skip(sl).subrange((self.0.element_count()) as int, (self.0.element_count() + self.1.element_count()) as int))) by {
                lemma_sub_stable(fin, f1, b2.len() as int, sl + (self.0.element_count()) as int, sl + (self.0.element_count() + self.1.element_count()) as int);
                assert(f1.skip(b1.len() as int) =~= f1.subrange(sl + (self.0.element_count()) as int, sl + (self.0.element_count() + self.1.element_count()) as int));
                assert(fin.skip(sl).subrange((self.0.element_count()) as int, (self.0.element_count() + self.1.element_count()) as int) =~= fin.subrange(sl + (self.0.element_count()) as int, sl + (self.0.element_count() + self.1.element_count()) as int));
            }
            assert(self.2.seq_builds(fin.skip(sl).subrange((self.0.element_count() + self.1.element_count()) as int, (self.0.element_count() + self.1.element_count() + self.2.element_count()) as int))) by {
                lemma_sub_stable(fin, f2, b3.len() as int, sl + (self.0.element_count() + self.1.element_count()) as int, sl + (self.0.element_count() + self.1.element_count() + self.2.element_count()) as int);
                assert(f2.skip(b2.len() as int) =~= f2.subrange(sl + (self.0.element_count() + self.1.element_count()) as int, sl + (self.0.element_count() + self.1.element_count() + self.2.element_count()) as int));
                assert(fin.skip(sl).subrange((self.0.element_count() + self.1.element_count()) as int, (self.0.element_count() + self.1.element_count() + self.2.element_count()) as int) =~= fin.subrange(sl + (self.0.element_count() + self.1.element_count()) as int, sl + (self.0.element_count() + self.1.element_count() + self.2.element_count()) as int));
            }
            assert(self.3.seq_builds(fin.skip(sl).subrange((self.0.element_count() + self.1.element_count() + self.2.element_count()) as int, (self.0.element_count() + self.1.element_count() + self.2.element_count() + self.3.element_count()) as int))) by {
                lemma_sub_stable(fin, f3, b4.len() as int, sl + (self.0.element_count() + self.1.element_count() + self.2.element_count()) as int, sl + (self.0.element_count() + self.1.element_count() + self.2.element_count() + self.3.element_count()) as int);
                assert(f3.skip(b3.len() as int) =~= f3.subrange(sl + (self.0.element_count() + self.1.element_count() + self.2.element_count()) as int, sl + (self.0.element_count() + self.1.element_count() + self.2.element_count() + self.3.element_count()) as int));
                assert(fin.skip(sl).subrange((self.0.element_count() + self.1.element_count() + self.2.element_count()) as int, (self.0.element_count() + self.1.element_count() + self.2.element_count() + self.3.element_count()) as int) =~= fin.subrange(sl + (self.0.element_count() + self.1.element_count() + self.2.element_count()) as int, sl + (self.0.element_count() + self.1.element_count() + self.2.element_count() + self.3.element_count()) as int));
            }
            assert(self.4.seq_builds(fin.skip(sl).subrange((self.0.element_count() + self.1.element_count() + self.2.element_count() + self.3.element_count()) as int, (self.0.element_count() + self.1.element_count() + self.2.element_count() + self.3.element_count() + self.4.element_count()) as int))) by {
                lemma_sub_stable(fin, f4, b5.len() as int, sl + (self.0.element_count() + self.1.element_count() + self.2.element_count() + self.3.element_count()) as int, sl + (self.0.element_count() + self.1.element_count() + self.2.element_count() + self.3.element_count() + self.4.element_count()) as int);
                assert(f4.skip(b4.len() as int) =~= f4.subrange(sl + (self.0.element_count() + self.1.element_count() + self.2.element_count() + self.3.element_count()) as int, sl + (self.0.element_count() + self.1.element_count() + self.2.element_count() + self.3.element_count() + self.4.element_count()) as int));
                assert(fin.skip(sl).subrange((self.0.element_count() + self.1.element_count() + self.2.element_count() + self.3.element_count()) as int, (self.0.element_count() + self.1.element_count() + self.2.element_count() + self.3.element_count() + self.4.element_count()) as int) =~= fin.subrange(sl + (self.0.element_count() + self.1.element_count() + self.2.element_count() + self.3.element_count()) as int, sl + (self.0.element_count() + self.1.element_count() + self.2.element_count() + self.3.element_count() + self.4.element_count()) as int));
            }
            assert(self.5.seq_builds(fin.skip(sl).subrange((self.0.element_count() + self.1.element_count() + self.2.element_count() + self.3.element_count() + self.4.element_count()) as int, (self.0.element_count() + self.1.element_count() + self.2.element_count() + self.3.element_count() + self.4.element_count() + self.5.element_count()) as int))) by {
                lemma_sub_stable(fin, f5, b6.len() as int, sl + (self.0.element_count() + self.1.element_count() + self.2.element_count() + self.3.element_count() + self.4.element_count()) as int, sl + (self.0.element_count() + self.1.element_count() + self.2.element_count() + self.3.element_count() + self.4.element_count() + self.5.element_count()) as int);
                assert(f5.skip(b5.len() as int) =~= f5.subrange(sl + (self.0.element_count() + self.1.element_count() + self.2.element_count() + self.3.element_count() + self.4.element_count()) as int, sl + (self.0.element_count() + self.1.element_count() + self.2.element_count() + self.3.element_count() + self.4.element_count() + self.5.element_count()) as int));
                assert(fin.skip(sl).subrange((self.0.element_count() + self.1.element_count() + self.2.element_count() + self.3.element_count() + self.4.element_count()) as int, (self.0.element_count() + self.1.element_count() + self.2.element_count() + self.3.element_count() + self.4.element_count() + self.5.element_count()) as int) =~= fin.subrange(sl + (self.0.element_count() + self.1.element_count() + self.2.element_count() + self.3.element_count() + self.4.element_count()) as int, sl + (self.0.element_count() + self.1.element_count() + self.2.element_count() + self.3.element_count() + self.4.element_count() + self.5.element_count()) as int));
            }
            assert(self.6.seq_builds(fin.skip(sl).subrange((self.0.element_count() + self.1.element_count() + self.2.element_count() + self.3.element_count() + self.4.element_count() + self.5.element_count()) as int, (self.0.element_count() + self.1.element_count() + self.2.element_count() + self.3.element_count() + self.4.element_count() + self.5.element_count() + self.6.element_count()) as int))) by {
                lemma_sub_stable(fin, f6, b7.len() as int, sl + (self.0.element_count() + self.1.element_count() + self.2.element_count() + self.3.element_count() + self.4.element_count() + self.5.element_count()) as int, sl + (self.0.element_count() + self.1.element_count() + self.2.element_count() + self.3.element_count() + self.4.element_count() + self.5.element_count() + self.6.element_count()) as int);
                assert(f6.skip(b6.len() as int) =~= f6.subrange(sl + (self.0.element_count() + self.1.element_count() + self.2.element_count() + self.3.element_count() + self.4.element_count() + self.5.element_count()) as int, sl + (self.0.element_count() + self.1.element_count() + self.2.element_count() + self.3.element_count() + self.4.element_count() + self.5.element_count() + self.6.element_count()) as int));
                assert(fin.skip(sl).subrange((self.0.element_count() + self.1.element_count() + self.2.element_count() + self.3.element_count() + self.4.element_count() + self.5.element_count()) as int, (self.0.element_count() + self.1.element_count() + self.2.element_count() + self.3.element_count() + self.4.element_count() + self.5.element_count() + self.6.element_count()) as int) =~= fin.subrange(sl + (self.0.element_count() + self.1.element_count() + self.2.element_count() + self.3.element_count() + self.4.element_count() + self.5.element_count()) as int, sl + (self.0.element_count() + self.1.element_count() + self.2.element_count() + self.3.element_count() + self.4.element_count() + self.5.element_count() + self.6.element_count()) as int));
            }
            assert(self.7.seq_builds(fin.skip(sl).subrange((self.0.element_count() + self.1.element_count() + self.2.element_count() + self.3.element_count() + self.4.element_count() + self.5.element_count() + self.6.element_count()) as int, (self.0.element_count() + self.1.element_count() + self.2.element_count() + self.3.element_count() + self.4.element_count() + self.5.element_count() + self.6.element_count() + self.7.element_count()) as int))) by {
                lemma_sub_stable(fin, f7, b8.len() as int, sl + (self.0.element_count() + self.1.element_count() + self.2.element_count() + self.3.element_count() + self.4.element_count() + self.5.element_count() + self.6.element_count()) as int, sl + (self.0.element_count() + self.1.element_count() + self.2.element_count() + self.3.element_count() + self.4.element_count() + self.5.element_count() + self.6.element_count() + self.7.element_count()) as int);
                assert(f7.skip(b7.len() as int) =~= f7.subrange(sl + (self.0.element_count() + self.1.element_count() + self.2.element_count() + self.3.element_count() + self.4.element_count() + self.5.element_count() + self.6.element_count()) as int, sl + (self.0.element_count() + self.1.element_count() + self.2.element_count() + self.3.element_count() + self.4.element_count() + self.5.element_count() + self.6.element_count() + self.7.element_count()) as int));
                assert(fin.skip(sl).subrange((self.0.element_count() + self.1.element_count() + self.2.element_count() + self.3.element_count() + self.4.element_count() + self.5.element_count() + self.6.element_count()) as int, (self.0.element_count() + self.1.element_count() + self.2.element_count() + self.3.element_count() + self.4.element_count() + self.5.element_count() + self.6.element_count() + self.7.element_count()) as int) =~= fin.subrange(sl + (self.0.element_count() + self.1.element_count() + self.2.element_count() + self.3.element_count() + self.4.element_count() + self.5.element_count() + self.6.element_count()) as int, sl + (self.0.element_count() + self.1.element_count() + self.2.element_count() + self.3.element_count() + self.4.element_count() + self.5.element_count() + self.6.element_count() + self.7.element_count()) as int));
            }
            assert(self.8.seq_builds(fin.skip(sl).subrange((self.0.element_count() + self.1.element_count() + self.2.element_count() + self.3.element_count() + self.4.element_count() + self.5.element_count() + self.6.element_count() + self.7.element_count()) as int, (self.0.element_count() + self.1.element_count() + self.2.element_count() + self.3.element_count() + self.4.element_count() + self.5.element_count() + self.6.element_count() + self.7.element_count() + self.8.element_count()) as int))) by {
                lemma_sub_stable(fin, f8, b9.len() as int, sl + (self.0.element_count() + self.1.element_count() + self.2.element_count() + self.3.element_count() + self.4.element_count() + self.5.element_count() + self.6.element_count() + self.7.element_count()) as int, sl + (self.0.element_count() + self.1.element_count() + self.2.element_count() + self.3.element_count() + self.4.element_count() + self.5.element_count() + self.6.element_count() + self.7.element_count() + self.8.element_count()) as int);
                assert(f8.skip(b8.len() as int) =~= f8.subrange(sl + (self.0.element_count() + self.1.element_count() + self.2.element_count() + self.3.element_count() + self.4.element_count() + self.5.element_count() + self.6.element_count() + self.7.element_count()) as int, sl + (self.0.element_count() + self.1.element_count() + self.2.element_count() + self.3.element_count() + self.4.element_count() + self.5.element_count() + self.6.element_count() + self.7.element_count() + self.8.element_count()) as int));
                assert(fin.skip(sl).subrange((self.0.element_count() + self.1.element_count() + self.2.element_count() + self.3.element_count() + self.4.element_count() + self.5.element_count() + self.6.element_count() + self.7.element_count()) as int, (self.0.element_count() + self.1.element_count() + self.2.element_count() + self.3.element_count() + self.4.element_count() + self.5.element_count() + self.6.element_count() + self.7.element_count() + self.8.element_count()) as int) =~= fin.subrange(sl + (self.0.element_count() + self.1.element_count() + self.2.element_count() + self.3.element_count() + self.4.element_count() + self.5.element_count() + self.6.element_count() + self.7.element_count()) as int, sl + (self.0.element_count() + self.1.element_count() + self.2.element_count() + self.3.element_count() + self.4.element_count() + self.5.element_count() + self.6.element_count() + self.7.element_count() + self.8.element_count()) as int));
            }
            assert(self.9.seq_builds(fin.skip(sl).subrange((self.0.element_count() + self.1.element_count() + self.2.element_count() + self.3.element_count() + self.4.element_count() + self.5.element_count() + self.6.element_count() + self.7.element_count() + self.8.element_count()) as int, (self.0.element_count() + self.1.element_count() + self.2.element_count() + self.3.element_count() + self.4.element_count() + self.5.element_count() + self.6.element_count() + self.7.element_count() + self.8.element_count() + self.9.element_count()) as int))) by {
                assert(f9.skip(b9.len() as int) =~= f9.subrange(sl + (self.0.element_count() + self.1.element_count() + self.2.element_count() + self.3.element_count() + self.4.element_count() + self.5.element_count() + self.6.element_count() + self.7.element_count() + self.8.element_count()) as int, sl + (self.0.element_count() + self.1.element_count() + self.2.element_count() + self.3.element_count() + self.4.element_count() + self.5.element_count() + self.6.element_count() + self.7.element_count() + self.8.element_count() + self.9.element_count()) as int));
                assert(fin.skip(sl).subrange((self.0.element_count() + self.1.element_count() + self.2.element_count() + self.3.element_count() + self.4.element_count() + self.5.element_count() + self.6.element_count() + self.7.element_count() + self.8.element_count()) as int, (self.0.element_count() + self.1.element_count() + self.2.element_count() + self.3.element_count() + self.4.element_count() + self.5.element_count() + self.6.element_count() + self.7.element_count() + self.8.element_count() + self.9.element_count()) as int) =~= fin.subrange(sl + (self.0.element_count() + self.1.element_count() + self.2.element_count() + self.3.element_count() + self.4.element_count() + self.5.element_count() + self.6.element_count() + self.7.element_count() + self.8.element_count()) as int, sl + (self.0.element_count() + self.1.element_count() + self.2.element_count() + self.3.element_count() + self.4.element_count() + self.5.element_count() + self.6.element_count() + self.7.element_count() + self.8.element_count() + self.9.element_count()) as int));
            }
        }
    }

    #[verifier::spinoff_prover]
    #[verifier::rlimit(100)]
    fn seq_rebuild<Splice: ElementSplice<Element>>(&self, prev: &Self, elements: &mut Splice) {
        let ghost a = elements.items();
        let ghost c0 = elements.cursor();
        proof {
            lemma_kept_refl(a, c0);
        }
        let ghost b0 = elements.items();
        let ghost cb0 = elements.cursor();
        proof {
            assert(b0.skip(cb0 as int).len() == a.skip((c0 + 0) as int).len());
        }
        self.0.seq_rebuild(&prev.0, elements);
        let ghost f0 = elements.items();
        proof {
            assert(self.0.seq_rebuilds(
                &prev.0,
                a.subrange(c0 + 0int, c0 + (prev.0.element_count()) as int),
                f0.subrange(cb0 as int, (cb0 + self.0.element_count()) as int),
            )) by {
                lemma_sub_shift(a, b0, (c0 + 0) as int, cb0 as int, prev.0.element_count() as int);
            }
            lemma_kept_compose(a, c0, 0, b0, cb0, prev.0.element_count(), elements.items(), elements.cursor());
        }
        let ghost b1 = elements.items();
        let ghost cb1 = elements.cursor();
        proof {
            assert(b1.skip(cb1 as int).len() == a.skip((c0 + (prev.0.element_count())) as int).len());
        }
        self.1.seq_rebuild(&prev.1, elements);
        let ghost f1 = elements.items();
        proof {
            assert(self.1.seq_rebuilds(
                &prev.1,
                a.subrange(c0 + (prev.0.element_count()) as int, c0 + (prev.0.element_count() + prev.1.element_count()) as int),
                f1.subrange(cb1 as int, (cb1 + self.1.element_count()) as int),
            )) by {
                lemma_sub_shift(a, b1, (c0 + (prev.0.element_count())) as int, cb1 as int, prev.1.element_count() as int);
            }
            lemma_kept_compose(a, c0, (prev.0.element_count()), b1, cb1, prev.1.element_count(), elements.items(), elements.cursor());
        }
        let ghost b2 = elements.items();
        let ghost cb2 = elements.cursor();
        proof {
            assert(b2.skip(cb2 as int).len() == a.skip((c0 + (prev.0.element_count() + prev.1.element_count())) as int).len());
        }
        self.2.seq_rebuild(&prev.2, elements);
        let ghost f2 = elements.items();
        proof {
            assert(self.2.seq_rebuilds(
                &prev.2,
                a.subrange(c0 + (prev.0.element_count() + prev.1.element_count()) as int, c0 + (prev.0.element_count() + prev.1.element_count() + prev.2.element_count()) as int),
                f2.subrange(cb2 as int, (cb2 + self.2.element_count()) as int),
            )) by {
                lemma_sub_shift(a, b2, (c0 + (prev.0.element_count() + prev.1.element_count())) as int, cb2 as int, prev.2.element_count() as int);
            }
            lemma_kept_compose(a, c0, (prev.0.element_count() + prev.1.element_count()), b2, cb2, prev.2.element_count(), elements.items(), elements.cursor());
        }
        let ghost b3 = elements.items();
        let ghost cb3 = elements.cursor();
        proof {
            assert(b3.skip(cb3 as int).len() == a.skip((c0 + (prev.0.element_count() + prev.1.element_count() + prev.2.element_count())) as int).len());
        }
        self.3.seq_rebuild(&prev.3, elements);
        let ghost f3 = elements.items();
        proof {
            assert(self.3.seq_rebuilds(
                &prev.3,
                a.subrange(c0 + (prev.0.element_count() + prev.1.element_count() + prev.2.element_count()) as int, c0 + (prev.0.element_count() + prev.1.element_count() + prev.2.element_count() + prev.3.element_count()) as int),
                f3.subrange(cb3 as int, (cb3 + self.3.element_count()) as int),
            )) by {
                lemma_sub_shift(a, b3, (c0 + (prev.0.element_count() + prev.1.element_count() + prev.2.element_count())) as int, cb3 as int, prev.3.element_count() as int);
            }
            lemma_kept_compose(a, c0, (prev.0.element_count() + prev.1.element_count() + prev.2.element_count()), b3, cb3, prev.3.element_count(), elements.items(), elements.cursor());
        }
        let ghost b4 = elements.items();
        let ghost cb4 = elements.cursor();
        proof {
            assert(b4.skip(cb4 as int).len() == a.skip((c0 + (prev.0.element_count() + prev.1.element_count() + prev.2.element_count() + prev.3.element_count())) as int).len());
        }
        self.4.seq_rebuild(&prev.4, elements);
        let ghost f4 = elements.items();
        proof {
            assert(self.4.seq_rebuilds(
                &prev.4,
                a.subrange(c0 + (prev.0.element_count() + prev.1.element_count() + prev.2.element_count() + prev.3.element_count()) as int, c0 + (prev.0.element_count() + prev.1.element_count() + prev.2.element_count() + prev.3.element_count() + prev.4.element_count()) as int),
                f4.subrange(cb4 as int, (cb4 + self.4.element_count()) as int),
            )) by {
                lemma_sub_shift(a, b4, (c0 + (prev.0.element_count() + prev.1.element_count() + prev.2.element_count() + prev.3.element_count())) as int, cb4 as int, prev.4.element_count() as int);
            }
            lemma_kept_compose(a, c0, (prev.0.element_count() + prev.1.element_count() + prev.2.element_count() + prev.3.element_count()), b4, cb4, prev.4.element_count(), elements.items(), elements.cursor());
        }
        let ghost b5 = elements.items();
        let ghost cb5 = elements.cursor();
        proof {
            assert(b5.skip(cb5 as int).len() == a.skip((c0 + (prev.0.element_count() + prev.1.element_count() + prev.2.element_count() + prev.3.element_count() + prev.4.element_count())) as int).len());
        }
        self.5.seq_rebuild(&prev.5, elements);
        let ghost f5 = elements.items();
        proof {
            assert(self.5.seq_rebuilds(
                &prev.5,
                a.subrange(c0 + (prev.0.element_count() + prev.1.element_count() + prev.2.element_count() + prev.3.element_count() + prev.4.element_count()) as int, c0 + (prev.0.element_count() + prev.1.element_count() + prev.2.element_count() + prev.3.element_count() + prev.4.element_count() + prev.5.element_count()) as int),
                f5.subrange(cb5 as int, (cb5 + self.5.element_count()) as int),
            )) by {
                lemma_sub_shift(a, b5, (c0 + (prev.0.element_count() + prev.1.element_count() + prev.2.element_count() + prev.3.element_count() + prev.4.element_count())) as int, cb5 as int, prev.5.element_count() as int);
            }
            lemma_kept_compose(a, c0, (prev.0.element_count() + prev.1.element_count() + prev.2.element_count() + prev.3.element_count() + prev.4.element_count()), b5, cb5, prev.5.element_count(), elements.items(), elements.cursor());
        }
        let ghost b6 = elements.items();
        let ghost cb6 = elements.cursor();
        proof {
            assert(b6.skip(cb6 as int).len() == a.skip((c0 + (prev.0.element_count() + prev.1.element_count() + prev.2.element_count() + prev.3.element_count() + prev.4.element_count() + prev.5.element_count())) as int).len());
        }
        self.6.seq_rebuild(&prev.6, elements);
        let ghost f6 = elements.items();
        proof {
            assert(self.6.seq_rebuilds(
                &prev.6,
                a.subrange(c0 + (prev.0.element_count() + prev.1.element_count() + prev.2.element_count() + prev.3.element_count() + prev.4.element_count() + prev.5.element_count()) as int, c0 + (prev.0.element_count() + prev.1.element_count() + prev.2.element_count() + prev.3.element_count() + prev.4.element_count() + prev.5.element_count() + prev.6.element_count()) as int),
                f6.subrange(cb6 as int, (cb6 + self.6.element_count()) as int),
            )) by {
                lemma_sub_shift(a, b6, (c0 + (prev.0.element_count() + prev.1.element_count() + prev.2.element_count() + prev.3.element_count() + prev.4.element_count() + prev.5.element_count())) as int, cb6 as int, prev.6.element_count() as int);
            }
            lemma_kept_compose(a, c0, (prev.0.element_count() + prev.1.element_count() + prev.2.element_count() + prev.3.element_count() + prev.4.element_count() + prev.5.element_count()), b6, cb6, prev.6.element_count(), elements.items(), elements.cursor());
        }
        let ghost b7 = elements.items();
        let ghost cb7 = elements.cursor();
        proof {
            assert(b7.skip(cb7 as int).len() == a.skip((c0 + (prev.0.element_count() + prev.1.element_count() + prev.2.element_count() + prev.3.element_count() + prev.4.element_count() + prev.5.element_count() + prev.6.element_count())) as int).len());
        }
        self.7.seq_rebuild(&prev.7, elements);
        let ghost f7 = elements.items();
        proof {
            assert(self.7.seq_rebuilds(
                &prev.7,
                a.subrange(c0 + (prev.0.element_count() + prev.1.element_count() + prev.2.element_count() + prev.3.element_count() + prev.4.element_count() + prev.5.element_count() + prev.6.element_count()) as int, c0 + (prev.0.element_count() + prev.1.element_count() + prev.2.element_count() + prev.3.element_count() + prev.4.element_count() + prev.5.element_count() + prev.6.element_count() + prev.7.element_count()) as int),
                f7.subrange(cb7 as int, (cb7 + self.7.element_count()) as int),
            )) by {
                lemma_sub_shift(a, b7, (c0 + (prev.0.element_count() + prev.1.element_count() + prev.2.element_count() + prev.3.element_count() + prev.4.element_count() + prev.5.element_count() + prev.6.element_count())) as int, cb7 as int, prev.7.element_count() as int);
            }
            lemma_kept_compose(a, c0, (prev.0.element_count() + prev.1.element_count() + prev.2.element_count() + prev.3.element_count() + prev.4.element_count() + prev.5.element_count() + prev.6.element_count()), b7, cb7, prev.7.element_count(), elements.items(), elements.cursor());
        }
        let ghost b8 = elements.items();
        let ghost cb8 = elements.cursor();
        proof {
            assert(b8.skip(cb8 as int).len() == a.skip((c0 + (prev.0.element_count() + prev.1.element_count() + prev.2.element_count() + prev.3.element_count() + prev.4.element_count() + prev.5.element_count() + prev.6.element_count() + prev.7.element_count())) as int).len());
        }
        self.8.seq_rebuild(&prev.8, elements);
        let ghost f8 = elements.items();
        proof {
            assert(self.8.seq_rebuilds(
                &prev.8,
                a.subrange(c0 + (prev.0.element_count() + prev.1.element_count() + prev.2.element_count() + prev.3.element_count() + prev.4.element_count() + prev.5.element_count() + prev.6.element_count() + prev.7.element_count()) as int, c0 + (prev.0.element_count() + prev.1.element_count() + prev.2.element_count() + prev.3.element_count() + prev.4.element_count() + prev.5.element_count() + prev.6.element_count() + prev.7.element_count() + prev.8.element_count()) as int),
                f8.subrange(cb8 as int, (cb8 + self.8.element_count()) as int),
            )) by {
                lemma_sub_shift(a, b8, (c0 + (prev.0.element_count() + prev.1.element_count() + prev.2.element_count() + prev.3.element_count() + prev.4.element_count() + prev.5.element_count() + prev.6.element_count() + prev.7.element_count())) as int, cb8 as int, prev.8.element_count() as int);
            }
            lemma_kept_compose(a, c0, (prev.0.element_count() + prev.1.element_count() + prev.2.element_count() + prev.3.element_count() + prev.4.element_count() + prev.5.element_count() + prev.6.element_count() + prev.7.element_count()), b8, cb8, prev.8.element_count(), elements.items(), elements.cursor());
        }
        let ghost b9 = elements.items();
        let ghost cb9 = elements.cursor();
        proof {
            assert(b9.skip(cb9 as int).len() == a.skip((c0 + (prev.0.element_count() + prev.1.element_count() + prev.2.element_count() + prev.3.element_count() + prev.4.element_count() + prev.5.element_count() + prev.6.element_count() + prev.7.element_count() + prev.8.element_count())) as int).len());
        }
        self.9.seq_rebuild(&prev.9, elements);
        let ghost f9 = elements.items();
        proof {
            assert(self.9.seq_rebuilds(
                &prev.9,
                a.subrange(c0 + (prev.0.element_count() + prev.1.element_count() + prev.2.element_count() + prev.3.element_count() + prev.4.element_count() + prev.5.element_count() + prev.6.element_count() + prev.7.element_count() + prev.8.element_count()) as int, c0 + (prev.0.element_count() + prev.1.element_count() + prev.2.element_count() + prev.3.element_count() + prev.4.element_count() + prev.5.element_count() + prev.6.element_count() + prev.7.element_count() + prev.8.element_count() + prev.9.element_count()) as int),
                f9.subrange(cb9 as int, (cb9 + self.9.element_count()) as int),
            )) by {
                lemma_sub_shift(a, b9, (c0 + (prev.0.element_count() + prev.1.element_count() + prev.2.element_count() + prev.3.element_count() + prev.4.element_count() + prev.5.element_count() + prev.6.element_count() + prev.7.element_count() + prev.8.element_count())) as int, cb9 as int, prev.9.element_count() as int);
            }
            lemma_kept_compose(a, c0, (prev.0.element_count() + prev.1.element_count() + prev.2.element_count() + prev.3.element_count() + prev.4.element_count() + prev.5.element_count() + prev.6.element_count() + prev.7.element_count() + prev.8.element_count()), b9, cb9, prev.9.element_count(), elements.items(), elements.cursor());
        }
        let ghost ce = elements.cursor();
        proof {
            let fin = elements.items();
            assert(fin.take(ce as int) =~= f9.take(ce as int));
            lemma_take_link(fin, f9, f8, cb9 as int, ce as int);
            lemma_take_link(fin, f8, f7, cb8 as int, cb9 as int);
            lemma_take_link(fin, f7, f6, cb7 as int, cb8 as int);
            lemma_take_link(fin, f6, f5, cb6 as int, cb7 as int);
            lemma_take_link(fin, f5, f4, cb5 as int, cb6 as int);
            lemma_take_link(fin, f4, f3, cb4 as int, cb5 as int);
            lemma_take_link(fin, f3, f2, cb3 as int, cb4 as int);
            lemma_take_link(fin, f2, f1, cb2 as int, cb3 as int);
            lemma_take_link(fin, f1, f0, cb1 as int, cb2 as int);
            assert(self.0.seq_rebuilds(
                &prev.0,
                region(a, c0, prev.element_count()).subrange(0int, (prev.0.element_count()) as int),
                region(fin, c0, self.element_count()).subrange(0int, (self.0.element_count()) as int),
            )) by {
                lemma_sub_stable(fin, f0, cb1 as int, cb0 as int, cb1 as int);
                assert(region(fin, c0, self.element_count()).subrange(0int, (self.0.element_count()) as int) =~= fin.subrange(cb0 as int, cb1 as int));
                assert(region(a, c0, prev.element_count()).subrange(0int, (prev.0.element_count()) as int) =~= a.subrange(c0 + 0int, c0 + (prev.0.element_count()) as int));
            }
            assert(self.1.seq_rebuilds(
                &prev.1,
                region(a, c0, prev.element_count()).subrange((prev.0.element_count()) as int, (prev.0.element_count() + prev.1.element_count()) as int),
                region(fin, c0, self.element_count()).subrange((self.0.element_count()) as int, (self.0.element_count() + self.1.element_count()) as int),
            )) by {
                lemma_sub_stable(fin, f1, cb2 as int, cb1 as int, cb2 as int);
                assert(region(fin, c0, self.element_count()).subrange((self.0.element_count()) as int, (self.0.element_count() + self.1.element_count()) as int) =~= fin.subrange(cb1 as int, cb2 as int));
                assert(region(a, c0, prev.element_count()).subrange((prev.0.element_count()) as int, (prev.0.element_count() + prev.1.element_count()) as int) =~= a.subrange(c0 + (prev.0.element_count()) as int, c0 + (prev.0.element_count() + prev.1.element_count()) as int));
            }
            assert(self.2.seq_rebuilds(
                &prev.2,
                region(a, c0, prev.element_count()).subrange((prev.0.element_count() + prev.1.element_count()) as int, (prev.0.element_count() + prev.1.element_count() + prev.2.element_count()) as int),
                region(fin, c0, self.element_count()).subrange((self.0.element_count() + self.1.element_count()) as int, (self.0.element_count() + self.1.element_count() + self.2.element_count()) as int),
            )) by {
                lemma_sub_stable(fin, f2, cb3 as int, cb2 as int, cb3 as int);
                assert(region(fin, c0, self.element_count()).subrange((self.0.element_count() + self.1.element_count()) as int, (self.0.element_count() + self.1.element_count() + self.2.element_count()) as int) =~= fin.subrange(cb2 as int, cb3 as int));
                assert(region(a, c0, prev.element_count()).subrange((prev.0.element_count() + prev.1.element_count()) as int, (prev.0.element_count() + prev.1.element_count() + prev.2.element_count()) as int) =~= a.subrange(c0 + (prev.0.element_count() + prev.1.element_count()) as int, c0 + (prev.0.element_count() + prev.1.element_count() + prev.2.element_count()) as int));
            }
            assert(self.3.seq_rebuilds(
                &prev.3,
                region(a, c0, prev.element_count()).subrange((prev.0.element_count() + prev.1.element_count() + prev.2.element_count()) as int, (prev.0.element_count() + prev.1.element_count() + prev.2.element_count() + prev.3.element_count()) as int),
                region(fin, c0, self.element_count()).subrange((self.0.element_count() + self.1.element_count() + self.2.element_count()) as int, (self.0.element_count() + self.1.element_count() + self.2.element_count() + self.3.element_count()) as int),
            )) by {
                lemma_sub_stable(fin, f3, cb4 as int, cb3 as int, cb4 as int);
                assert(region(fin, c0, self.element_count()).subrange((self.0.element_count() + self.1.element_count() + self.2.element_count()) as int, (self.0.element_count() + self.1.element_count() + self.2.element_count() + self.3.element_count()) as int) =~= fin.subrange(cb3 as int, cb4 as int));
                assert(region(a, c0, prev.element_count()).subrange((prev.0.element_count() + prev.1.element_count() + prev.2.element_count()) as int, (prev.0.element_count() + prev.1.element_count() + prev.2.element_count() + prev.3.element_count()) as int) =~= a.subrange(c0 + (prev.0.element_count() + prev.1.element_count() + prev.2.element_count()) as int, c0 + (prev.0.element_count() + prev.1.element_count() + prev.2.element_count() + prev.3.element_count()) as int));
            }
            assert(self.4.seq_rebuilds(
                &prev.4,
                region(a, c0, prev.element_count()).subrange((prev.0.element_count() + prev.1.element_count() + prev.2.element_count() + prev.3.element_count()) as int, (prev.0.element_count() + prev.1.element_count() + prev.2.element_count() + prev.3.element_count() + prev.4.element_count()) as int),
                region(fin, c0, self.element_count()).subrange((self.0.element_count() + self.1.element_count() + self.2.element_count() + self.3.element_count()) as int, (self.0.element_count() + self.1.element_count() + self.2.element_count() + self.3.element_count() + self.4.element_count()) as int),
            )) by {
                lemma_sub_stable(fin, f4, cb5 as int, cb4 as int, cb5 as int);
                assert(region(fin, c0, self.element_count()).subrange((self.0.element_count() + self.1.element_count() + self.2.element_count() + self.3.element_count()) as int, (self.0.element_count() + self.1.element_count() + self.2.element_count() + self.3.element_count() + self.4.element_count()) as int) =~= fin.subrange(cb4 as int, cb5 as int));
                assert(region(a, c0, prev.element_count()).subrange((prev.0.element_count() + prev.1.element_count() + prev.2.element_count() + prev.3.element_count()) as int, (prev.0.element_count() + prev.1.element_count() + prev.2.element_count() + prev.3.element_count() + prev.4.element_count()) as int) =~= a.subrange(c0 + (prev.0.element_count() + prev.1.element_count() + prev.2.element_count() + prev.3.element_count()) as int, c0 + (prev.0.element_count() + prev.1.element_count() + prev.2.element_count() + prev.3.element_count() + prev.4.element_count()) as int));
            }
            assert(self.5.seq_rebuilds(
                &prev.5,
                region(a, c0, prev.element_count()).subrange((prev.0.element_count() + prev.1.element_count() + prev.2.element_count() + prev.3.element_count() + prev.4.element_count()) as int, (prev.0.element_count() + prev.1.element_count() + prev.2.element_count() + prev.3.element_count() + prev.4.element_count() + prev.5.element_count()) as int),
                region(fin, c0, self.element_count()).subrange((self.0.element_count() + self.1.element_count() + self.2.element_count() + self.3.element_count() + self.4.element_count()) as int, (self.0.element_count() + self.1.element_count() + self.2.element_count() + self.3.element_count() + self.4.element_count() + self.5.element_count()) as int),
            )) by {
                lemma_sub_stable(fin, f5, cb6 as int, cb5 as int, cb6 as int);
                assert(region(fin, c0, self.element_count()).subrange((self.0.element_count() + self.1.element_count() + self.2.element_count() + self.3.element_count() + self.4.element_count()) as int, (self.0.element_count() + self.1.element_count() + self.2.element_count() + self.3.element_count() + self.4.element_count() + self.5.element_count()) as int) =~= fin.subrange(cb5 as int, cb6 as int));
                assert(region(a, c0, prev.element_count()).subrange((prev.0.element_count() + prev.1.element_count() + prev.2.element_count() + prev.3.element_count() + prev.4.element_count()) as int, (prev.0.element_count() + prev.1.element_count() + prev.2.element_count() + prev.3.element_count() + prev.4.element_count() + prev.5.element_count()) as int) =~= a.subrange(c0 + (prev.0.element_count() + prev.1.element_count() + prev.2.element_count() + prev.3.element_count() + prev.4.element_count()) as int, c0 + (prev.0.element_count() + prev.1.element_count() + prev.2.element_count() + prev.3.element_count() + prev.4.element_count() + prev.5.element_count()) as int));
            }
            assert(self.6.seq_rebuilds(
                &prev.6,
                region(a, c0, prev.element_count()).subrange((prev.0.element_count() + prev.1.element_count() + prev.2.element_count() + prev.3.element_count() + prev.4.element_count() + prev.5.element_count()) as int, (prev.0.element_count() + prev.1.element_count() + prev.2.element_count() + prev.3.element_count() + prev.4.element_count() + prev.5.element_count() + prev.6.element_count()) as int),
                region(fin, c0, self.element_count()).subrange((self.0.element_count() + self.1.element_count() + self.2.element_count() + self.3.element_count() + self.4.element_count() + self.5.element_count()) as int, (self.0.element_count() + self.1.element_count() + self.2.element_count() + self.3.element_count() + self.4.element_count() + self.5.element_count() + self.6.element_count()) as int),
            )) by {
                lemma_sub_stable(fin, f6, cb7 as int, cb6 as int, cb7 as int);
                assert(region(fin, c0, self.element_count()).subrange((self.0.element_count() + self.1.element_count() + self.2.element_count() + self.3.element_count() + self.4.element_count() + self.5.element_count()) as int, (self.0.element_count() + self.1.element_count() + self.2.element_count() + self.3.element_count() + self.4.element_count() + self.5.element_count() + self.6.element_count()) as int) =~= fin.subrange(cb6 as int, cb7 as int));
                assert(region(a, c0, prev.element_count()).subrange((prev.0.element_count() + prev.1.element_count() + prev.2.element_count() + prev.3.element_count() + prev.4.element_count() + prev.5.element_count()) as int, (prev.0.element_count() + prev.1.element_count() + prev.2.element_count() + prev.3.element_count() + prev.4.element_count() + prev.5.element_count() + prev.6.element_count()) as int) =~= a.subrange(c0 + (prev.0.element_count() + prev.1.element_count() + prev.2.element_count() + prev.3.element_count() + prev.4.element_count() + prev.5.element_count()) as int, c0 + (prev.0.element_count() + prev.1.element_count() + prev.2.element_count() + prev.3.element_count() + prev.4.element_count() + prev.5.element_count() + prev.6.element_count()) as int));
            }
            assert(self.7.seq_rebuilds(
                &prev.7,
                region(a, c0, prev.element_count()).subrange((prev.0.element_count() + prev.1.element_count() + prev.2.element_count() + prev.3.element_count() + prev.4.element_count() + prev.5.element_count() + prev.6.element_count()) as int, (prev.0.element_count() + prev.1.element_count() + prev.2.element_count() + prev.3.element_count() + prev.4.element_count() + prev.5.element_count() + prev.6.element_count() + prev.7.element_count()) as int),
                region(fin, c0, self.element_count()).subrange((self.0.element_count() + self.1.element_count() + self.2.element_count() + self.3.element_count() + self.4.element_count() + self.5.element_count() + self.6.element_count()) as int, (self.0.element_count() + self.1.element_count() + self.2.element_count() + self.3.element_count() + self.4.element_count() + self.5.element_count() + self.6.element_count() + self.7.element_count()) as int),
            )) by {
                lemma_sub_stable(fin, f7, cb8 as int, cb7 as int, cb8 as int);
                assert(region(fin, c0, self.element_count()).subrange((self.0.element_count() + self.1.element_count() + self.2.element_count() + self.3.element_count() + self.4.element_count() + self.5.element_count() + self.6.element_count()) as int, (self.0.element_count() + self.1.element_count() + self.2.element_count() + self.3.element_count() + self.4.element_count() + self.5.element_count() + self.6.element_count() + self.7.element_count()) as int) =~= fin.subrange(cb7 as int, cb8 as int));
                assert(region(a, c0, prev.element_count()).subrange((prev.0.element_count() + prev.1.element_count() + prev.2.element_count() + prev.3.element_count() + prev.4.element_count() + prev.5.element_count() + prev.6.element_count()) as int, (prev.0.element_count() + prev.1.element_count() + prev.2.element_count() + prev.3.element_count() + prev.4.element_count() + prev.5.element_count() + prev.6.element_count() + prev.7.element_count()) as int) =~= a.subrange(c0 + (prev.0.element_count() + prev.1.element_count() + prev.2.element_count() + prev.3.element_count() + prev.4.element_count() + prev.5.element_count() + prev.6.element_count()) as int, c0 + (prev.0.element_count() + prev.1.element_count() + prev.2.element_count() + prev.3.element_count() + prev.4.element_count() + prev.5.element_count() + prev.6.element_count() + prev.7.element_count()) as int));
            }
            assert(self.8.seq_rebuilds(
                &prev.8,
                region(a, c0, prev.element_count()).subrange((prev.0.element_count() + prev.1.element_count() + prev.2.element_count() + prev.3.element_count() + prev.4.element_count() + prev.5.element_count() + prev.6.element_count() + prev.7.element_count()) as int, (prev.0.element_count() + prev.1.element_count() + prev.2.element_count() + prev.3.element_count() + prev.4.element_count() + prev.5.element_count() + prev.6.element_count() + prev.7.element_count() + prev.8.element_count()) as int),
                region(fin, c0, self.element_count()).subrange((self.0.element_count() + self.1.element_count() + self.2.element_count() + self.3.element_count() + self.4.element_count() + self.5.element_count() + self.6.element_count() + self.7.element_count()) as int, (self.0.element_count() + self.1.element_count() + self.2.element_count() + self.3.element_count() + self.4.element_count() + self.5.element_count() + self.6.element_count() + self.7.element_count() + self.8.element_count()) as int),
            )) by {
                lemma_sub_stable(fin, f8, cb9 as int, cb8 as int, cb9 as int);
                assert(region(fin, c0, self.element_count()).subrange((self.0.element_count() + self.1.element_count() + self.2.element_count() + self.3.element_count() + self.4.element_count() + self.5.element_count() + self.6.element_count() + self.7.element_count()) as int, (self.0.element_count() + self.1.element_count() + self.2.element_count() + self.3.element_count() + self.4.element_count() + self.5.element_count() + self.6.element_count() + self.7.element_count() + self.8.element_count()) as int) =~= fin.subrange(cb8 as int, cb9 as int));
                assert(region(a, c0, prev.element_count()).subrange((prev.0.element_count() + prev.1.element_count() + prev.2.element_count() + prev.3.element_count() + prev.4.element_count() + prev.5.element_count() + prev.6.element_count() + prev.7.element_count()) as int, (prev.0.element_count() + prev.1.element_count() + prev.2.element_count() + prev.3.element_count() + prev.4.element_count() + prev.5.element_count() + prev.6.element_count() + prev.7.element_count() + prev.8.element_count()) as int) =~= a.subrange(c0 + (prev.0.element_count() + prev.1.element_count() + prev.2.element_count() + prev.3.element_count() + prev.4.element_count() + prev.5.element_count() + prev.6.element_count() + prev.7.element_count()) as int, c0 + (prev.0.element_count() + prev.1.element_count() + prev.2.element_count() + prev.3.element_count() + prev.4.element_count() + prev.5.element_count() + prev.6.element_count() + prev.7.element_count() + prev.8.element_count()) as int));
            }
            assert(self.9.seq_rebuilds(
                &prev.9,
                region(a, c0, prev.element_count()).subrange((prev.0.element_count() + prev.1.element_count() + prev.2.element_count() + prev.3.element_count() + prev.4.element_count() + prev.5.element_count() + prev.6.element_count() + prev.7.element_count() + prev.8.element_count()) as int, (prev.0.element_count() + prev.1.element_count() + prev.2.element_count() + prev.3.element_count() + prev.4.element_count() + prev.5.element_count() + prev.6.element_count() + prev.7.element_count() + prev.8.element_count() + prev.9.element_count()) as int),
                region(fin, c0, self.element_count()).subrange((self.0.element_count() + self.1.element_count() + self.2.element_count() + self.3.element_count() + self.4.element_count() + self.5.element_count() + self.6.element_count() + self.7.element_count() + self.8.element_count()) as int, (self.0.element_count() + self.1.element_count() + self.2.element_count() + self.3.element_count() + self.4.element_count() + self.5.element_count() + self.6.element_count() + self.7.element_count() + self.8.element_count() + self.9.element_count()) as int),
            )) by {
                assert(region(fin, c0, self.element_count()).subrange((self.0.element_count() + self.1.element_count() + self.2.element_count() + self.3.element_count() + self.4.element_count() + self.5.element_count() + self.6.element_count() + self.7.element_count() + self.8.element_count()) as int, (self.0.element_count() + self.1.element_count() + self.2.element_count() + self.3.element_count() + self.4.element_count() + self.5.element_count() + self.6.element_count() + self.7.element_count() + self.8.element_count() + self.9.element_count()) as int) =~= fin.subrange(cb9 as int, ce as int));
                assert(region(a, c0, prev.element_count()).subrange((prev.0.element_count() + prev.1.element_count() + prev.2.element_count() + prev.3.element_count() + prev.4.element_count() + prev.5.element_count() + prev.6.element_count() + prev.7.element_count() + prev.8.element_count()) as int, (prev.0.element_count() + prev.1.element_count() + prev.2.element_count() + prev.3.element_count() + prev.4.element_count() + prev.5.element_count() + prev.6.element_count() + prev.7.element_count() + prev.8.element_count() + prev.9.element_count()) as int) =~= a.subrange(c0 + (prev.0.element_count() + prev.1.element_count() + prev.2.element_count() + prev.3.element_count() + prev.4.element_count() + prev.5.element_count() + prev.6.element_count() + prev.7.element_count() + prev.8.element_count()) as int, c0 + (prev.0.element_count() + prev.1.element_count() + prev.2.element_count() + prev.3.element_count() + prev.4.element_count() + prev.5.element_count() + prev.6.element_count() + prev.7.element_count() + prev.8.element_count() + prev.9.element_count()) as int));
            }
        }
    }

    #[verifier::spinoff_prover]
    #[verifier::rlimit(100)]
    fn seq_teardown<Splice: ElementSplice<Element>>(&self, elements: &mut Splice) {
        let ghost a = elements.items();
        let ghost c0 = elements.cursor();
        proof {
            lemma_kept_refl(a, c0);
        }
        let ghost b0 = elements.items();
        let ghost cb0 = elements.cursor();
        proof {
            assert(b0.skip(cb0 as int).len() == a.skip((c0 + 0) as int).len());
        }
        self.0.seq_teardown(elements);
        proof {
            assert(self.0.seq_tears_down(region(a, c0, self.element_count()).subrange(0int, (self.0.element_count()) as int))) by {
                lemma_sub_shift(a, b0, (c0 + 0) as int, cb0 as int, self.0.element_count() as int);
                assert(region(a, c0, self.element_count()).subrange(0int, (self.0.element_count()) as int) =~= a.subrange(c0 + 0int, c0 + (self.0.element_count()) as int));
            }
            lemma_kept_compose(a, c0, 0, b0, cb0, self.0.element_count(), elements.items(), elements.cursor());
        }
        let ghost b1 = elements.items();
        let ghost cb1 = elements.cursor();
        proof {
            assert(b1.skip(cb1 as int).len() == a.skip((c0 + (self.0.element_count())) as int).len());
        }
        self.1.seq_teardown(elements);
        proof {
            assert(self.1.seq_tears_down(region(a, c0, self.element_count()).subrange((self.0.element_count()) as int, (self.0.element_count() + self.1.element_count()) as int))) by {
                lemma_sub_shift(a, b1, (c0 + (self.0.element_count())) as int, cb1 as int, self.1.element_count() as int);
                assert(region(a, c0, self.element_count()).subrange((self.0.element_count()) as int, (self.0.element_count() + self.1.element_count()) as int) =~= a.subrange(c0 + (self.0.element_count()) as int, c0 + (self.0.element_count() + self.1.element_count()) as int));
            }
            lemma_kept_compose(a, c0, (self.0.element_count()), b1, cb1, self.1.element_count(), elements.items(), elements.cursor());
        }
        let ghost b2 = elements.items();
        let ghost cb2 = elements.cursor();
        proof {
            assert(b2.skip(cb2 as int).len() == a.skip((c0 + (self.0.element_count() + self.1.element_count())) as int).len());
        }
        self.2.seq_teardown(elements);
        proof {
            assert(self.2.seq_tears_down(region(a, c0, self.element_count()).subrange((self.0.element_count() + self.1.element_count()) as int, (self.0.element_count() + self.1.element_count() + self.2.element_count()) as int))) by {
                lemma_sub_shift(a, b2, (c0 + (self.0.element_count() + self.1.element_count())) as int, cb2 as int, self.2.element_count() as int);
                assert(region(a, c0, self.element_count()).subrange((self.0.element_count() + self.1.element_count()) as int, (self.0.element_count() + self.1.element_count() + self.2.element_count()) as int) =~= a.subrange(c0 + (self.0.element_count() + self.1.element_count()) as int, c0 + (self.0.element_count() + self.1.element_count() + self.2.element_count()) as int));
            }
            lemma_kept_compose(a, c0, (self.0.element_count() + self.1.element_count()), b2, cb2, self.2.element_count(), elements.items(), elements.cursor());
        }
        let ghost b3 = elements.items();
        let ghost cb3 = elements.cursor();
        proof {
            assert(b3.skip(cb3 as int).len() == a.skip((c0 + (self.0.element_count() + self.1.element_count() + self.2.element_count())) as int).len());
        }
        self.3.seq_teardown(elements);
        proof {
            assert(self.3.seq_tears_down(region(a, c0, self.element_count()).subrange((self.0.element_count() + self.1.element_count() + self.2.element_count()) as int, (self.0.element_count() + self.1.element_count() + self.2.element_count() + self.3.element_count()) as int))) by {
                lemma_sub_shift(a, b3, (c0 + (self.0.element_count() + self.1.element_count() + self.2.element_count())) as int, cb3 as int, self.3.element_count() as int);
                assert(region(a, c0, self.element_count()).subrange((self.0.element_count() + self.1.element_count() + self.2.element_count()) as int, (self.0.element_count() + self.1.element_count() + self.2.element_count() + self.3.element_count()) as int) =~= a.subrange(c0 + (self.0.element_count() + self.1.element_count() + self.2.element_count()) as int, c0 + (self.0.element_count() + self.1.element_count() + self.2.element_count() + self.3.element_count()) as int));
            }
            lemma_kept_compose(a, c0, (self.0.element_count() + self.1.element_count() + self.2.element_count()), b3, cb3, self.3.element_count(), elements.items(), elements.cursor());
        }
        let ghost b4 = elements.items();
        let ghost cb4 = elements.cursor();
        proof {
            assert(b4.skip(cb4 as int).len() == a.skip((c0 + (self.0.element_count() + self.1.element_count() + self.2.element_count() + self.3.element_count())) as int).len());
        }
        self.4.seq_teardown(elements);
        proof {
            assert(self.4.seq_tears_down(region(a, c0, self.element_count()).subrange((self.0.element_count() + self.1.element_count() + self.2.element_count() + self.3.element_count()) as int, (self.0.element_count() + self.1.element_count() + self.2.element_count() + self.3.element_count() + self.4.element_count()) as int))) by {
                lemma_sub_shift(a, b4, (c0 + (self.0.element_count() + self.1.element_count() + self.2.element_count() + self.3.element_count())) as int, cb4 as int, self.4.element_count() as int);
                assert(region(a, c0, self.element_count()).subrange((self.0.element_count() + self.1.element_count() + self.2.element_count() + self.3.element_count()) as int, (self.0.element_count() + self.1.element_count() + self.2.element_count() + self.3.element_count() + self.4.element_count()) as int) =~= a.subrange(c0 + (self.0.element_count() + self.1.element_count() + self.2.element_count() + self.3.element_count()) as int, c0 + (self.0.element_count() + self.1.element_count() + self.2.element_count() + self.3.element_count() + self.4.element_count()) as int));
            }
            lemma_kept_compose(a, c0, (self.0.element_count() + self.1.element_count() + self.2.element_count() + self.3.element_count()), b4, cb4, self.4.element_count(), elements.items(), elements.cursor());
        }
        let ghost b5 = elements.items();
        let ghost cb5 = elements.cursor();
        proof {
            assert(b5.skip(cb5 as int).len() == a.skip((c0 + (self.0.element_count() + self.1.element_count() + self.2.element_count() + self.3.element_count() + self.4.element_count())) as int).len());
        }
        self.5.seq_teardown(elements);
        proof {
            assert(self.5.seq_tears_down(region(a, c0, self.element_count()).subrange((self.0.element_count() + self.1.element_count() + self.2.element_count() + self.3.element_count() + self.4.element_count()) as int, (self.0.element_count() + self.1.element_count() + self.2.element_count() + self.3.element_count() + self.4.element_count() + self.5.element_count()) as int))) by {
                lemma_sub_shift(a, b5, (c0 + (self.0.element_count() + self.1.element_count() + self.2.element_count() + self.3.element_count() + self.4.element_count())) as int, cb5 as int, self.5.element_count() as int);
                assert(region(a, c0, self.element_count()).subrange((self.0.element_count() + self.1.element_count() + self.2.element_count() + self.3.element_count() + self.4.element_count()) as int, (self.0.element_count() + self.1.element_count() + self.2.element_count() + self.3.element_count() + self.4.element_count() + self.5.element_count()) as int) =~= a.subrange(c0 + (self.0.element_count() + self.1.element_count() + self.2.element_count() + self.3.element_count() + self.4.element_count()) as int, c0 + (self.0.element_count() + self.1.element_count() + self.2.element_count() + self.3.element_count() + self.4.element_count() + self.5.element_count()) as int));
            }
            lemma_kept_compose(a, c0, (self.0.element_count() + self.1.element_count() + self.2.element_count() + self.3.element_count() + self.4.element_count()), b5, cb5, self.5.element_count(), elements.items(), elements.cursor());
        }
        let ghost b6 = elements.items();
        let ghost cb6 = elements.cursor();
        proof {
            assert(b6.skip(cb6 as int).len() == a.skip((c0 + (self.0.element_count() + self.1.element_count() + self.2.element_count() + self.3.element_count() + self.4.element_count() + self.5.element_count())) as int).len());
        }
        self.6.seq_teardown(elements);
        proof {
            assert(self.6.seq_tears_down(region(a, c0, self.element_count()).subrange((self.0.element_count() + self.1.element_count() + self.2.element_count() + self.3.element_count() + self.4.element_count() + self.5.element_count()) as int, (self.0.element_count() + self.1.element_count() + self.2.element_count() + self.3.element_count() + self.4.element_count() + self.5.element_count() + self.6.element_count()) as int))) by {
                lemma_sub_shift(a, b6, (c0 + (self.0.element_count() + self.1.element_count() + self.2.element_count() + self.3.element_count() + self.4.element_count() + self.5.element_count())) as int, cb6 as int, self.6.element_count() as int);
                assert(region(a, c0, self.element_count()).subrange((self.0.element_count() + self.1.element_count() + self.2.element_count() + self.3.element_count() + self.4.element_count() + self.5.element_count()) as int, (self.0.element_count() + self.1.element_count() + self.2.element_count() + self.3.element_count() + self.4.element_count() + self.5.element_count() + self.6.element_count()) as int) =~= a.subrange(c0 + (self.0.element_count() + self.1.element_count() + self.2.element_count() + self.3.element_count() + self.4.element_count() + self.5.element_count()) as int, c0 + (self.0.element_count() + self.1.element_count() + self.2.element_count() + self.3.element_count() + self.4.element_count() + self.5.element_count() + self.6.element_count()) as int));
            }
            lemma_kept_compose(a, c0, (self.0.element_count() + self.1.element_count() + self.2.element_count() + self.3.element_count() + self.4.element_count() + self.5.element_count()), b6, cb6, self.6.element_count(), elements.items(), elements.cursor());
        }
        let ghost b7 = elements.items();
        let ghost cb7 = elements.cursor();
        proof {
            assert(b7.skip(cb7 as int).len() == a.skip((c0 + (self.0.element_count() + self.1.element_count() + self.2.element_count() + self.3.element_count() + self.4.element_count() + self.5.element_count() + self.6.element_count())) as int).len());
        }
        self.7.seq_teardown(elements);
        proof {
            assert(self.7.seq_tears_down(region(a, c0, self.element_count()).subrange((self.0.element_count() + self.1.element_count() + self.2.element_count() + self.3.element_count() + self.4.element_count() + self.5.element_count() + self.6.element_count()) as int, (self.0.element_count() + self.1.element_count() + self.2.element_count() + self.3.element_count() + self.4.element_count() + self.5.element_count() + self.6.element_count() + self.7.element_count()) as int))) by {
                lemma_sub_shift(a, b7, (c0 + (self.0.element_count() + self.1.element_count() + self.2.element_count() + self.3.element_count() + self.4.element_count() + self.5.element_count() + self.6.element_count())) as int, cb7 as int, self.7.element_count() as int);
                assert(region(a, c0, self.element_count()).subrange((self.0.element_count() + self.1.element_count() + self.2.element_count() + self.3.element_count() + self.4.element_count() + self.5.element_count() + self.6.element_count()) as int, (self.0.element_count() + self.1.element_count() + self.2.element_count() + self.3.element_count() + self.4.element_count() + self.5.element_count() + self.6.element_count() + self.7.element_count()) as int) =~= a.subrange(c0 + (self.0.element_count() + self.1.element_count() + self.2.element_count() + self.3.element_count() + self.4.element_count() + self.5.element_count() + self.6.element_count()) as int, c0 + (self.0.element_count() + self.1.element_count() + self.2.element_count() + self.3.element_count() + self.4.element_count() + self.5.element_count() + self.6.element_count() + self.7.element_count()) as int));
            }
            lemma_kept_compose(a, c0, (self.0.element_count() + self.1.element_count() + self.2.element_count() + self.3.element_count() + self.4.element_count() + self.5.element_count() + self.6.element_count()), b7, cb7, self.7.element_count(), elements.items(), elements.cursor());
        }
        let ghost b8 = elements.items();
        let ghost cb8 = elements.cursor();
        proof {
            assert(b8.skip(cb8 as int).len() == a.skip((c0 + (self.0.element_count() + self.1.element_count() + self.2.element_count() + self.3.element_count() + self.4.element_count() + self.5.element_count() + self.6.element_count() + self.7.element_count())) as int).len());
        }
        self.8.seq_teardown(elements);
        proof {
            assert(self.8.seq_tears_down(region(a, c0, self.element_count()).subrange((self.0.element_count() + self.1.element_count() + self.2.element_count() + self.3.element_count() + self.4.element_count() + self.5.element_count() + self.6.element_count() + self.7.element_count()) as int, (self.0.element_count() + self.1.element_count() + self.2.element_count() + self.3.element_count() + self.4.element_count() + self.5.element_count() + self.6.element_count() + self.7.element_count() + self.8.element_count()) as int))) by {
                lemma_sub_shift(a, b8, (c0 + (self.0.element_count() + self.1.element_count() + self.2.element_count() + self.3.element_count() + self.4.element_count() + self.5.element_count() + self.6.element_count() + self.7.element_count())) as int, cb8 as int, self.8.element_count() as int);
                assert(region(a, c0, self.element_count()).subrange((self.0.element_count() + self.1.element_count() + self.2.element_count() + self.3.element_count() + self.4.element_count() + self.5.element_count() + self.6.element_count() + self.7.element_count()) as int, (self.0.element_count() + self.1.element_count() + self.2.element_count() + self.3.element_count() + self.4.element_count() + self.5.element_count() + self.6.element_count() + self.7.element_count() + self.8.element_count()) as int) =~= a.subrange(c0 + (self.0.element_count() + self.1.element_count() + self.2.element_count() + self.3.element_count() + self.4.element_count() + self.5.element_count() + self.6.element_count() + self.7.element_count()) as int, c0 + (self.0.element_count() + self.1.element_count() + self.2.element_count() + self.3.element_count() + self.4.element_count() + self.5.element_count() + self.6.element_count() + self.7.element_count() + self.8.element_count()) as int));
            }
            lemma_kept_compose(a, c0, (self.0.element_count() + self.1.element_count() + self.2.element_count() + self.3.element_count() + self.4.element_count() + self.5.element_count() + self.6.element_count() + self.7.element_count()), b8, cb8, self.8.element_count(), elements.items(), elements.cursor());
        }
        let ghost b9 = elements.items();
        let ghost cb9 = elements.cursor();
        proof {
            assert(b9.skip(cb9 as int).len() == a.skip((c0 + (self.0.element_count() + self.1.element_count() + self.2.element_count() + self.3.element_count() + self.4.element_count() + self.5.element_count() + self.6.element_count() + self.7.element_count() + self.8.element_count())) as int).len());
        }
        self.9.seq_teardown(elements);
        proof {
            assert(self.9.seq_tears_down(region(a, c0, self.element_count()).subrange((self.0.element_count() + self.1.element_count() + self.2.element_count() + self.3.element_count() + self.4.element_count() + self.5.element_count() + self.6.element_count() + self.7.element_count() + self.8.element_count()) as int, (self.0.element_count() + self.1.element_count() + self.2.element_count() + self.3.element_count() + self.4.element_count() + self.5.element_count() + self.6.element_count() + self.7.element_count() + self.8.element_count() + self.9.element_count()) as int))) by {
                lemma_sub_shift(a, b9, (c0 + (self.0.element_count() + self.1.element_count() + self.2.element_count() + self.3.element_count() + self.4.element_count() + self.5.element_count() + self.6.element_count() + self.7.element_count() + self.8.element_count())) as int, cb9 as int, self.9.element_count() as int);
                assert(region(a, c0, self.element_count()).subrange((self.0.element_count() + self.1.element_count() + self.2.element_count() + self.3.element_count() + self.4.element_count() + self.5.element_count() + self.6.element_count() + self.7.element_count() + self.8.element_count()) as int, (self.0.element_count() + self.1.element_count() + self.2.element_count() + self.3.element_count() + self.4.element_count() + self.5.element_count() + self.6.element_count() + self.7.element_count() + self.8.element_count() + self.9.element_count()) as int) =~= a.subrange(c0 + (self.0.element_count() + self.1.element_count() + self.2.element_count() + self.3.element_count() + self.4.element_count() + self.5.element_count() + self.6.element_count() + self.7.element_count() + self.8.element_count()) as int, c0 + (self.0.element_count() + self.1.element_count() + self.2.element_count() + self.3.element_count() + self.4.element_count() + self.5.element_count() + self.6.element_count() + self.7.element_count() + self.8.element_count() + self.9.element_count()) as int));
            }
            lemma_kept_compose(a, c0, (self.0.element_count() + self.1.element_count() + self.2.element_count() + self.3.element_count() + self.4.element_count() + self.5.element_count() + self.6.element_count() + self.7.element_count() + self.8.element_count()), b9, cb9, self.9.element_count(), elements.items(), elements.cursor());
        }
    }
}

/// A tuple of 11 sequences builds the elements of each, in order.
impl<State, Element, S0, S1, S2, S3, S4, S5, S6, S7, S8, S9, S10> ViewSequence<State, Element> for (S0, S1, S2, S3, S4, S5, S6, S7, S8, S9, S10,) where
    S0: ViewSequence<State, Element>,
    S1: ViewSequence<State, Element>,
    S2: ViewSequence<State, Element>,
    S3: ViewSequence<State, Element>,
    S4: ViewSequence<State, Element>,
    S5: ViewSequence<State, Element>,
    S6: ViewSequence<State, Element>,
    S7: ViewSequence<State, Element>,
    S8: ViewSequence<State, Element>,
    S9: ViewSequence<State, Element>,
    S10: ViewSequence<State, Element>,
 {
    open spec fn element_count(&self) -> nat {
        self.0.element_count() + self.1.element_count() + self.2.element_count() + self.3.element_count() + self.4.element_count() + self.5.element_count() + self.6.element_count() + self.7.element_count() + self.8.element_count() + self.9.element_count() + self.10.element_count()
    }

    open spec fn seq_builds(&self, out: Seq<Element>) -> bool {
        &&& out.len() == self.element_count()
        &&& self.0.seq_builds(out.subrange(0int, (self.0.element_count()) as int))
        &&& self.1.seq_builds(out.subrange((self.0.element_count()) as int, (self.0.element_count() + self.1.element_count()) as int))
        &&& self.2.seq_builds(out.subrange((self.0.element_count() + self.1.element_count()) as int, (self.0.element_count() + self.1.element_count() + self.2.element_count()) as int))
        &&& self.3.seq_builds(out.subrange((self.0.element_count() + self.1.element_count() + self.2.element_count()) as int, (self.0.element_count() + self.1.element_count() + self.2.element_count() + self.3.element_count()) as int))
        &&& self.4.seq_builds(out.subrange((self.0.element_count() + self.1.element_count() + self.2.element_count() + self.3.element_count()) as int, (self.0.element_count() + self.1.element_count() + self.2.element_count() + self.3.element_count() + self.4.element_count()) as int))
        &&& self.5.seq_builds(out.subrange((self.0.element_count() + self.1.element_count() + self.2.element_count() + self.3.element_count() + self.4.element_count()) as int, (self.0.element_count() + self.1.element_count() + self.2.element_count() + self.3.element_count() + self.4.element_count() + self.5.element_count()) as int))
        &&& self.6.seq_builds(out.subrange((self.0.element_count() + self.1.element_count() + self.2.element_count() + self.3.element_count() + self.4.element_count() + self.5.element_count()) as int, (self.0.element_count() + self.1.element_count() + self.2.element_count() + self.3.element_count() + self.4.element_count() + self.5.element_count() + self.6.element_count()) as int))
        &&& self.7.seq_builds(out.subrange((self.0.element_count() + self.1.element_count() + self.2.element_count() + self.3.element_count() + self.4.element_count() + self.5.element_count() + self.6.element_count()) as int, (self.0.element_count() + self.1.element_count() + self.2.element_count() + self.3.element_count() + self.4.element_count() + self.5.element_count() + self.6.element_count() + self.7.element_count()) as int))
        &&& self.8.seq_builds(out.subrange((self.0.element_count() + self.1.element_count() + self.2.element_count() + self.3.element_count() + self.4.element_count() + self.5.element_count() + self.6.element_count() + self.7.element_count()) as int, (self.0.element_count() + self.1.element_count() + self.2.element_count() + self.3.element_count() + self.4.element_count() + self.5.element_count() + self.6.element_count() + self.7.element_count() + self.8.element_count()) as int))
        &&& self.9.seq_builds(out.subrange((self.0.element_count() + self.1.element_count() + self.2.element_count() + self.3.element_count() + self.4.element_count() + self.5.element_count() + self.6.element_count() + self.7.element_count() + self.8.element_count()) as int, (self.0.element_count() + self.1.element_count() + self.2.element_count() + self.3.element_count() + self.4.element_count() + self.5.element_count() + self.6.element_count() + self.7.element_count() + self.8.element_count() + self.9.element_count()) as int))
        &&& self.10.seq_builds(out.subrange((self.0.element_count() + self.1.element_count() + self.2.element_count() + self.3.element_count() + self.4.element_count() + self.5.element_count() + self.6.element_count() + self.7.element_count() + self.8.element_count() + self.9.element_count()) as int, (self.0.element_count() + self.1.element_count() + self.2.element_count() + self.3.element_count() + self.4.element_count() + self.5.element_count() + self.6.element_count() + self.7.element_count() + self.8.element_count() + self.9.element_count() + self.10.element_count()) as int))
    }

    open spec fn seq_rebuilds(&self, prev: &Self, before: Seq<Element>, after: Seq<Element>) -> bool {
        &&& before.len() == prev.element_count()
        &&& after.len() == self.element_count()
        &&& self.0.seq_rebuilds(
            &prev.0,
            before.subrange(0int, (prev.0.element_count()) as int),
            after.subrange(0int, (self.0.element_count()) as int),
        )
        &&& self.1.seq_rebuilds(
            &prev.1,
            before.subrange((prev.0.element_count()) as int, (prev.0.element_count() + prev.1.element_count()) as int),
            after.subrange((self.0.element_count()) as int, (self.0.element_count() + self.1.element_count()) as int),
        )
        &&& self.2.seq_rebuilds(
            &prev.2,
            before.subrange((prev.0.element_count() + prev.1.element_count()) as int, (prev.0.element_count() + prev.1.element_count() + prev.2.element_count()) as int),
            after.subrange((self.0.element_count() + self.1.element_count()) as int, (self.0.element_count() + self.1.element_count() + self.2.element_count()) as int),
        )
        &&& self.3.seq_rebuilds(
            &prev.3,
            before.subrange((prev.0.element_count() + prev.1.element_count() + prev.2.element_count()) as int, (prev.0.element_count() + prev.1.element_count() + prev.2.element_count() + prev.3.element_count()) as int),
            after.subrange((self.0.element_count() + self.1.element_count() + self.2.element_count()) as int, (self.0.element_count() + self.1.element_count() + self.2.element_count() + self.3.element_count()) as int),
        )
        &&& self.4.seq_rebuilds(
            &prev.4,
            before.subrange((prev.0.element_count() + prev.1.element_count() + prev.2.element_count() + prev.3.element_count()) as int, (prev.0.element_count() + prev.1.element_count() + prev.2.element_count() + prev.3.element_count() + prev.4.element_count()) as int),
            after.subrange((self.0.element_count() + self.1.element_count() + self.2.element_count() + self.3.element_count()) as int, (self.0.element_count() + self.1.element_count() + self.2.element_count() + self.3.element_count() + self.4.element_count()) as int),
        )
        &&& self.5.seq_rebuilds(
            &prev.5,
            before.subrange((prev.0.element_count() + prev.1.element_count() + prev.2.element_count() + prev.3.element_count() + prev.4.element_count()) as int, (prev.0.element_count() + prev.1.element_count() + prev.2.element_count() + prev.3.element_count() + prev.4.element_count() + prev.5.element_count()) as int),
            after.subrange((self.0.element_count() + self.1.element_count() + self.2.element_count() + self.3.element_count() + self.4.element_count()) as int, (self.0.element_count() + self.1.element_count() + self.2.element_count() + self.3.element_count() + self.4.element_count() + self.5.element_count()) as int),
        )
        &&& self.6.seq_rebuilds(
            &prev.6,
            before.subrange((prev.0.element_count() + prev.1.element_count() + prev.2.element_count() + prev.3.element_count() + prev.4.element_count() + prev.5.element_count()) as int, (prev.0.element_count() + prev.1.element_count() + prev.2.element_count() + prev.3.element_count() + prev.4.element_count() + prev.5.element_count() + prev.6.element_count()) as int),
            after.subrange((self.0.element_count() + self.1.element_count() + self.2.element_count() + self.3.element_count() + self.4.element_count() + self.5.element_count()) as int, (self.0.element_count() + self.1.element_count() + self.2.element_count() + self.3.element_count() + self.4.element_count() + self.5.element_count() + self.6.element_count()) as int),
        )
        &&& self.7.seq_rebuilds(
            &prev.7,
            before.subrange((prev.0.element_count() + prev.1.element_count() + prev.2.element_count() + prev.3.element_count() + prev.4.element_count() + prev.5.element_count() + prev.6.element_count()) as int, (prev.0.element_count() + prev.1.element_count() + prev.2.element_count() + prev.3.element_count() + prev.4.element_count() + prev.5.element_count() + prev.6.element_count() + prev.7.element_count()) as int),
            after.subrange((self.0.element_count() + self.1.element_count() + self.2.element_count() + self.3.element_count() + self.4.element_count() + self.5.element_count() + self.6.element_count()) as int, (self.0.element_count() + self.1.element_count() + self.2.element_count() + self.3.element_count() + self.4.element_count() + self.5.element_count() + self.6.element_count() + self.7.element_count()) as int),
        )
        &&& self.8.seq_rebuilds(
            &prev.8,
            before.subrange((prev.0.element_count() + prev.1.element_count() + prev.2.element_count() + prev.3.element_count() + prev.4.element_count() + prev.5.element_count() + prev.6.element_count() + prev.7.element_count()) as int, (prev.0.element_count() + prev.1.element_count() + prev.2.element_count() + prev.3.element_count() + prev.4.element_count() + prev.5.element_count() + prev.6.element_count() + prev.7.element_count() + prev.8.element_count()) as int),
            after.subrange((self.0.element_count() + self.1.element_count() + self.2.element_count() + self.3.element_count() + self.4.element_count() + self.5.element_count() + self.6.element_count() + self.7.element_count()) as int, (self.0.element_count() + self.1.element_count() + self.2.element_count() + self.3.element_count() + self.4.element_count() + self.5.element_count() + self.6.element_count() + self.7.element_count() + self.8.element_count()) as int),
        )
        &&& self.9.seq_rebuilds(
            &prev.9,
            before.subrange((prev.0.element_count() + prev.1.element_count() + prev.2.element_count() + prev.3.element_count() + prev.4.element_count() + prev.5.element_count() + prev.6.element_count() + prev.7.element_count() + prev.8.element_count()) as int, (prev.0.element_count() + prev.1.element_count() + prev.2.element_count() + prev.3.element_count() + prev.4.element_count() + prev.5.element_count() + prev.6.element_count() + prev.7.element_count() + prev.8.element_count() + prev.9.element_count()) as int),
            after.subrange((self.0.element_count() + self.1.element_count() + self.2.element_count() + self.3.element_count() + self.4.element_count() + self.5.element_count() + self.6.element_count() + self.7.element_count() + self.8.element_count()) as int, (self.0.element_count() + self.1.element_count() + self.2.element_count() + self.3.element_count() + self.4.element_count() + self.5.element_count() + self.6.element_count() + self.7.element_count() + self.8.element_count() + self.9.element_count()) as int),
        )
        &&& self.10.seq_rebuilds(
            &prev.10,
            before.subrange((prev.0.element_count() + prev.1.element_count() + prev.2.element_count() + prev.3.element_count() + prev.4.element_count() + prev.5.element_count() + prev.6.element_count() + prev.7.element_count() + prev.8.element_count() + prev.9.element_count()) as int, (prev.0.element_count() + prev.1.element_count() + prev.2.element_count() + prev.3.element_count() + prev.4.element_count() + prev.5.element_count() + prev.6.element_count() + prev.7.element_count() + prev.8.element_count() + prev.9.element_count() + prev.10.element_count()) as int),
            after.subrange((self.0.element_count() + self.1.element_count() + self.2.element_count() + self.3.element_count() + self.4.element_count() + self.5.element_count() + self.6.element_count() + self.7.element_count() + self.8.element_count() + self.9.element_count()) as int, (self.0.element_count() + self.1.element_count() + self.2.element_count() + self.3.element_count() + self.4.element_count() + self.5.element_count() + self.6.element_count() + self.7.element_count() + self.8.element_count() + self.9.element_count() + self.10.element_count()) as int),
        )
    }

    open spec fn seq_tears_down(&self, before: Seq<Element>) -> bool {
        &&& before.len() == self.element_count()
        &&& self.0.seq_tears_down(before.subrange(0int, (self.0.element_count()) as int))
        &&& self.1.seq_tears_down(before.subrange((self.0.element_count()) as int, (self.0.element_count() + self.1.element_count()) as int))
        &&& self.2.seq_tears_down(before.subrange((self.0.element_count() + self.1.element_count()) as int, (self.0.element_count() + self.1.element_count() + self.2.element_count()) as int))
        &&& self.3.seq_tears_down(before.subrange((self.0.element_count() + self.1.element_count() + self.2.element_count()) as int, (self.0.element_count() + self.1.element_count() + self.2.element_count() + self.3.element_count()) as int))
        &&& self.4.seq_tears_down(before.subrange((self.0.element_count() + self.1.element_count() + self.2.element_count() + self.3.element_count()) as int, (self.0.element_count() + self.1.element_count() + self.2.element_count() + self.3.element_count() + self.4.element_count()) as int))
        &&& self.5.seq_tears_down(before.subrange((self.0.element_count() + self.1.element_count() + self.2.element_count() + self.3.element_count() + self.4.element_count()) as int, (self.0.element_count() + self.1.element_count() + self.2.element_count() + self.3.element_count() + self.4.element_count() + self.5.element_count()) as int))
        &&& self.6.seq_tears_down(before.subrange((self.0.element_count() + self.1.element_count() + self.2.element_count() + self.3.element_count() + self.4.element_count() + self.5.element_count()) as int, (self.0.element_count() + self.1.element_count() + self.2.element_count() + self.3.element_count() + self.4.element_count() + self.5.element_count() + self.6.element_count()) as int))
        &&& self.7.seq_tears_down(before.subrange((self.0.element_count() + self.1.element_count() + self.2.element_count() + self.3.element_count() + self.4.element_count() + self.5.element_count() + self.6.element_count()) as int, (self.0.element_count() + self.1.element_count() + self.2.element_count() + self.3.element_count() + self.4.element_count() + self.5.element_count() + self.6.element_count() + self.7.element_count()) as int))
        &&& self.8.seq_tears_down(before.subrange((self.0.element_count() + self.1.element_count() + self.2.element_count() + self.3.element_count() + self.4.element_count() + self.5.element_count() + self.6.element_count() + self.7.element_count()) as int, (self.0.element_count() + self.1.element_count() + self.2.element_count() + self.3.element_count() + self.4.element_count() + self.5.element_count() + self.6.element_count() + self.7.element_count() + self.8.element_count()) as int))
        &&& self.9.seq_tears_down(before.subrange((self.0.element_count() + self.1.element_count() + self.2.element_count() + self.3.element_count() + self.4.element_count() + self.5.element_count() + self.6.element_count() + self.7.element_count() + self.8.element_count()) as int, (self.0.element_count() + self.1.element_count() + self.2.element_count() + self.3.element_count() + self.4.element_count() + self.5.element_count() + self.6.element_count() + self.7.element_count() + self.8.element_count() + self.9.element_count()) as int))
        &&& self.10.seq_tears_down(before.subrange((self.0.element_count() + self.1.element_count() + self.2.element_count() + self.3.element_count() + self.4.element_count() + self.5.element_count() + self.6.element_count() + self.7.element_count() + self.8.element_count() + self.9.element_count()) as int, (self.0.element_count() + self.1.element_count() + self.2.element_count() + self.3.element_count() + self.4.element_count() + self.5.element_count() + self.6.element_count() + self.7.element_count() + self.8.element_count() + self.9.element_count() + self.10.element_count()) as int))
    }

    #[verifier::spinoff_prover]
    #[verifier::rlimit(100)]
    fn seq_build(&self, elements: &mut Vec<Element>) {
        let ghost start = elements@;
        let ghost sl = start.len() as int;
        let ghost b0 = elements@;
        self.0.seq_build(elements);
        let ghost f0 = elements@;
        let ghost b1 = elements@;
        self.1.seq_build(elements);
        let ghost f1 = elements@;
        proof {
            lemma_prefix_kept(start, b1, elements@);
        }
        let ghost b2 = elements@;
        self.2.seq_build(elements);
        let ghost f2 = elements@;
        proof {
            lemma_prefix_kept(start, b2, elements@);
        }
        let ghost b3 = elements@;
        self.3.seq_build(elements);
        let ghost f3 = elements@;
        proof {
            lemma_prefix_kept(start, b3, elements@);
        }
        let ghost b4 = elements@;
        self.4.seq_build(elements);
        let ghost f4 = elements@;
        proof {
            lemma_prefix_kept(start, b4, elements@);
        }
        let ghost b5 = elements@;
        self.5.seq_build(elements);
        let ghost f5 = elements@;
        proof {
            lemma_prefix_kept(start, b5, elements@);
        }
        let ghost b6 = elements@;
        self.6.seq_build(elements);
        let ghost f6 = elements@;
        proof {
            lemma_prefix_kept(start, b6, elements@);
        }
        let ghost b7 = elements@;
        self.7.seq_build(elements);
        let ghost f7 = elements@;
        proof {
            lemma_prefix_kept(start, b7, elements@);
        }
        let ghost b8 = elements@;
        self.8.seq_build(elements);
        let ghost f8 = elements@;
        proof {
            lemma_prefix_kept(start, b8, elements@);
        }
        let ghost b9 = elements@;
        self.9.seq_build(elements);
        let ghost f9 = elements@;
        proof {
            lemma_prefix_kept(start, b9, elements@);
        }
        let ghost b10 = elements@;
        self.10.seq_build(elements);
        let ghost f10 = elements@;
        proof {
            lemma_prefix_kept(start, b10, elements@);
        }
        proof {
            let fin = elements@;
            assert(fin.take(fin.len() as int) =~= f10.take(fin.len() as int));
            assert(f10.take(b10.len() as int) == b10);
            assert(b10.take(b10.len() as int) =~= b10);
            lemma_take_link(fin, f10, b10, b10.len() as int, fin.len() as int);
            assert(b9.take(b9.len() as int) =~= b9);
            lemma_take_link(fin, f9, b9, b9.len() as int, b10.len() as int);
            assert(b8.take(b8.len() as int) =~= b8);
            lemma_take_link(fin, f8, b8, b8.len() as int, b9.len() as int);
            assert(b7.take(b7.len() as int) =~= b7);
            lemma_take_link(fin, f7, b7, b7.len() as int, b8.len() as int);
            assert(b6.take(b6.len() as int) =~= b6);
            lemma_take_link(fin, f6, b6, b6.len() as int, b7.len() as int);
            assert(b5.take(b5.len() as int) =~= b5);
            lemma_take_link(fin, f5, b5, b5.len() as int, b6.len() as int);
            assert(b4.take(b4.len() as int) =~= b4);
            lemma_take_link(fin, f4, b4, b4.len() as int, b5.len() as int);
            assert(b3.take(b3.len() as int) =~= b3);
            lemma_take_link(fin, f3, b3, b3.len() as int, b4.len() as int);
            assert(b2.take(b2.len() as int) =~= b2);
            lemma_take_link(fin, f2, b2, b2.len() as int, b3.len() as int);
            assert(b1.take(b1.len() as int) =~= b1);
            lemma_take_link(fin, f1, b1, b1.len() as int, b2.len() as int);
            assert(self.0.seq_builds(fin.skip(sl).subrange(0int, (self.0.element_count()) as int))) by {
                lemma_sub_stable(fin, f0, b1.len() as int, sl + 0int, sl + (self.0.element_count()) as int);
                assert(f0.skip(b0.len() as int) =~= f0.subrange(sl + 0int, sl + (self.0.element_count()) as int));
                assert(fin.skip(sl).subrange(0int, (self.0.element_count()) as int) =~= fin.subrange(sl + 0int, sl + (self.0.element_count()) as int));
            }
            assert(self.1.seq_builds(fin.skip(sl).subrange((self.0.element_count()) as int, (self.0.element_count() + self.1.element_count()) as int))) by {
                lemma_sub_stable(fin, f1, b2.len() as int, sl + (self.0.element_count()) as int, sl + (self.0.element_count() + self.1.element_count()) as int);
                assert(f1.skip(b1.len() as int) =~= f1.subrange(sl + (self.0.element_count()) as int, sl + (self.0.element_count() + self.1.element_count()) as int));
                assert(fin.skip(sl).subrange((self.0.element_count()) as int, (self.0.element_count() + self.1.element_count()) as int) =~= fin.subrange(sl + (self.0.element_count()) as int, sl + (self.0.element_count() + self.1.element_count()) as int));
            }
            assert(self.2.seq_builds(fin.skip(sl).subrange((self.0.element_count() + self.1.element_count()) as int, (self.0.element_count() + self.1.element_count() + self.2.element_count()) as int))) by {
                lemma_sub_stable(fin, f2, b3.len() as int, sl + (self.0.element_count() + self.1.element_count()) as int, sl + (self.0.element_count() + self.1.element_count() + self.2.element_count()) as int);
                assert(f2.skip(b2.len() as int) =~= f2.subrange(sl + (self.0.element_count() + self.1.element_count()) as int, sl + (self.0.element_count() + self.1.element_count() + self.2.element_count()) as int));
                assert(fin.skip(sl).subrange((self.0.element_count() + self.1.element_count()) as int, (self.0.element_count() + self.1.element_count() + self.2.element_count()) as int) =~= fin.subrange(sl + (self.0.element_count() + self.1.element_count()) as int, sl + (self.0.element_count() + self.1.element_count() + self.2.element_count()) as int));
            }
            assert(self.3.seq_builds(fin.skip(sl).subrange((self.0.element_count() + self.1.element_count() + self.2.element_count()) as int, (self.0.element_count() + self.1.element_count() + self.2.element_count() + self.3.element_count()) as int))) by {
                lemma_sub_stable(fin, f3, b4.len() as int, sl + (self.0.element_count() + self.1.element_count() + self.2.element_count()) as int, sl + (self.0.element_count() + self.1.element_count() + self.2.element_count() + self.3.element_count()) as int);
                assert(f3.skip(b3.len() as int) =~= f3.subrange(sl + (self.0.element_count() + self.1.element_count() + self.2.element_count()) as int, sl + (self.0.element_count() + self.1.element_count() + self.2.element_count() + self.3.element_count()) as int));
                assert(fin.skip(sl).subrange((self.0.element_count() + self.1.element_count() + self.2.element_count()) as int, (self.0.element_count() + self.1.element_count() + self.2.element_count() + self.3.element_count()) as int) =~= fin.subrange(sl + (self.0.element_count() + self.1.element_count() + self.2.element_count()) as int, sl + (self.0.element_count() + self.1.element_count() + self.2.element_count() + self.3.element_count()) as int));
            }
            assert(self.4.seq_builds(fin.skip(sl).subrange((self.0.element_count() + self.1.element_count() + self.2.element_count() + self.3.element_count()) as int, (self.0.element_count() + self.1.element_count() + self.2.element_count() + self.3.element_count() + self.4.element_count()) as int))) by {
                lemma_sub_stable(fin, f4, b5.len() as int, sl + (self.0.element_count() + self.1.element_count() + self.2.element_count() + self.3.element_count()) as int, sl + (self.0.element_count() + self.1.element_count() + self.2.element_count() + self.3.element_count() + self.4.element_count()) as int);
                assert(f4.skip(b4.len() as int) =~= f4.subrange(sl + (self.0.element_count() + self.1.element_count() + self.2.element_count() + self.3.element_count()) as int, sl + (self.0.element_count() + self.1.element_count() + self.2.element_count() + self.3.element_count() + self.4.element_count()) as int));
                assert(fin.skip(sl).subrange((self.0.element_count() + self.1.element_count() + self.2.element_count() + self.3.element_count()) as int, (self.0.element_count() + self.1.element_count() + self.2.element_count() + self.3.element_count() + self.4.element_count()) as int) =~= fin.subrange(sl + (self.0.element_count() + self.1.element_count() + self.2.element_count() + self.3.element_count()) as int, sl + (self.0.element_count() + self.1.element_count() + self.2.element_count() + self.3.element_count() + self.4.element_count()) as int));
            }
            assert(self.5.seq_builds(fin.skip(sl).subrange((self.0.element_count() + self.1.element_count() + self.2.element_count() + self.3.element_count() + self.4.element_count()) as int, (self.0.element_count() + self.1.element_count() + self.2.element_count() + self.3.element_count() + self.4.element_count() + self.5.element_count()) as int))) by {
                lemma_sub_stable(fin, f5, b6.len() as int, sl + (self.0.element_count() + self.1.element_count() + self.2.element_count() + self.3.element_count() + self.4.element_count()) as int, sl + (self.0.element_count() + self.1.element_count() + self.2.element_count() + self.3.element_count() + self.4.element_count() + self.5.element_count()) as int);
                assert(f5.skip(b5.len() as int) =~= f5.subrange(sl + (self.0.element_count() + self.1.element_count() + self.2.element_count() + self.3.element_count() + self.4.element_count()) as int, sl + (self.0.element_count() + self.1.element_count() + self.2.element_count() + self.3.element_count() + self.4.element_count() + self.5.element_count()) as int));
                assert(fin.skip(sl).subrange((self.0.element_count() + self.1.element_count() + self.2.element_count() + self.3.element_count() + self.4.element_count()) as int, (self.0.element_count() + self.1.element_count() + self.2.element_count() + self.3.element_count() + self.4.element_count() + self.5.element_count()) as int) =~= fin.subrange(sl + (self.0.element_count() + self.1.element_count() + self.2.element_count() + self.3.element_count() + self.4.element_count()) as int, sl + (self.0.element_count() + self.1.element_count() + self.2.element_count() + self.3.element_count() + self.4.element_count() + self.5.element_count()) as int));
            }
            assert(self.6.seq_builds(fin.skip(sl).subrange((self.0.element_count() + self.1.element_count() + self.2.element_count() + self.3.element_count() + self.4.element_count() + self.5.element_count()) as int, (self.0.element_count() + self.1.element_count() + self.2.element_count() + self.3.element_count() + self.4.element_count() + self.5.element_count() + self.6.element_count()) as int))) by {
                lemma_sub_stable(fin, f6, b7.len() as int, sl + (self.0.element_count() + self.1.element_count() + self.2.element_count() + self.3.element_count() + self.4.element_count() + self.5.element_count()) as int, sl + (self.0.element_count() + self.1.element_count() + self.2.element_count() + self.3.element_count() + self.4.element_count() + self.5.element_count() + self.6.element_count()) as int);
                assert(f6.skip(b6.len() as int) =~= f6.subrange(sl + (self.0.element_count() + self.1.element_count() + self.2.element_count() + self.3.element_count() + self.4.element_count() + self.5.element_count()) as int, sl + (self.0.element_count() + self.1.element_count() + self.2.element_count() + self.3.element_count() + self.4.element_count() + self.5.element_count() + self.6.element_count()) as int));
                assert(fin.skip(sl).subrange((self.0.element_count() + self.1.element_count() + self.2.element_count() + self.3.element_count() + self.4.element_count() + self.5.element_count()) as int, (self.0.element_count() + self.1.element_count() + self.2.element_count() + self.3.element_count() + self.4.element_count() + self.5.element_count() + self.6.element_count()) as int) =~= fin.subrange(sl + (self.0.element_count() + self.1.element_count() + self.2.element_count() + self.3.element_count() + self.4.element_count() + self.5.element_count()) as int, sl + (self.0.element_count() + self.1.element_count() + self.2.element_count() + self.3.element_count() + self.4.element_count() + self.5.element_count() + self.6.element_count()) as int));
            }
            assert(self.7.seq_builds(fin.skip(sl).subrange((self.0.element_count() + self.1.element_count() + self.2.element_count() + self.3.element_count() + self.4.element_count() + self.5.element_count() + self.6.element_count()) as int, (self.0.element_count() + self.1.element_count() + self.2.element_count() + self.3.element_count() + self.4.element_count() + self.5.element_count() + self.6.element_count() + self.7.element_count()) as int))) by {
                lemma_sub_stable(fin, f7, b8.len() as int, sl + (self.0.element_count() + self.1.element_count() + self.2.element_count() + self.3.element_count() + self.4.element_count() + self.5.element_count() + self.6.element_count()) as int, sl + (self.0.element_count() + self.1.element_count() + self.2.element_count() + self.3.element_count() + self.4.element_count() + self.5.element_count() + self.6.element_count() + self.7.element_count()) as int);
                assert(f7.skip(b7.len() as int) =~= f7.subrange(sl + (self.0.element_count() + self.1.element_count() + self.2.element_count() + self.3.element_count() + self.4.element_count() + self.5.element_count() + self.6.element_count()) as int, sl + (self.0.element_count() + self.1.element_count() + self.2.element_count() + self.3.element_count() + self.4.element_count() + self.5.element_count() + self.6.element_count() + self.7.element_count()) as int));
                assert(fin.skip(sl).subrange((self.0.element_count() + self.1.element_count() + self.2.element_count() + self.3.element_count() + self.4.element_count() + self.5.element_count() + self.6.element_count()) as int, (self.0.element_count() + self.1.element_count() + self.2.element_count() + self.3.element_count() + self.4.element_count() + self.5.element_count() + self.6.element_count() + self.7.element_count()) as int) =~= fin.subrange(sl + (self.0.element_count() + self.1.element_count() + self.2.element_count() + self.3.element_count() + self.4.element_count() + self.5.element_count() + self.6.element_count()) as int, sl + (self.0.element_count() + self.1.element_count() + self.2.element_count() + self.3.element_count() + self.4.element_count() + self.5.element_count() + self.6.element_count() + self.7.element_count()) as int));
            }
            assert(self.8.seq_builds(fin.skip(sl).subrange((self.0.element_count() + self.1.element_count() + self.2.element_count() + self.3.element_count() + self.4.element_count() + self.5.element_count() + self.6.element_count() + self.7.element_count()) as int, (self.0.element_count() + self.1.element_count() + self.2.element_count() + self.3.element_count() + self.4.element_count() + self.5.element_count() + self.6.element_count() + self.7.element_count() + self.8.element_count()) as int))) by {
                lemma_sub_stable(fin, f8, b9.len() as int, sl + (self.0.element_count() + self.1.element_count() + self.2.element_count() + self.3.element_count() + self.4.element_count() + self.5.element_count() + self.6.element_count() + self.7.element_count()) as int, sl + (self.0.element_count() + self.1.element_count() + self.2.element_count() + self.3.element_count() + self.4.element_count() + self.5.element_count() + self.6.element_count() + self.7.element_count() + self.8.element_count()) as int);
                assert(f8.skip(b8.len() as int) =~= f8.subrange(sl + (self.0.element_count() + self.1.element_count() + self.2.element_count() + self.3.element_count() + self.4.element_count() + self.5.element_count() + self.6.element_count() + self.7.element_count()) as int, sl + (self.0.element_count() + self.1.element_count() + self.2.element_count() + self.3.element_count() + self.4.element_count() + self.5.element_count() + self.6.element_count() + self.7.element_count() + self.8.element_count()) as int));
                assert(fin.skip(sl).subrange((self.0.element_count() + self.1.element_count() + self.2.element_count() + self.3.element_count() + self.4.element_count() + self.5.element_count() + self.6.element_count() + self.7.element_count()) as int, (self.0.element_count() + self.1.element_count() + self.2.element_count() + self.3.element_count() + self.4.element_count() + self.5.element_count() + self.6.element_count() + self.7.element_count() + self.8.element_count()) as int) =~= fin.subrange(sl + (self.0.element_count() + self.1.element_count() + self.2.element_count() + self.3.element_count() + self.4.element_count() + self.5.element_count() + self.6.element_count() + self.7.element_count()) as int, sl + (self.0.element_count() + self.1.element_count() + self.2.element_count() + self.3.element_count() + self.4.element_count() + self.5.element_count() + self.6.element_count() + self.7.element_count() + self.8.element_count()) as int));
            }
            assert(self.9.seq_builds(fin.skip(sl).subrange((self.0.element_count() + self.1.element_count() + self.2.element_count() + self.3.element_count() + self.4.element_count() + self.5.element_count() + self.6.element_count() + self.7.element_count() + self.8.element_count()) as int, (self.0.element_count() + self.1.element_count() + self.2.element_count() + self.3.element_count() + self.4.element_count() + self.5.element_count() + self.6.element_count() + self.7.element_count() + self.8.element_count() + self.9.element_count()) as int))) by {
                lemma_sub_stable(fin, f9, b10.len() as int, sl + (self.0.element_count() + self.1.element_count() + self.2.element_count() + self.3.element_count() + self.4.element_count() + self.5.element_count() + self.6.element_count() + self.7.element_count() + self.8.element_count()) as int, sl + (self.0.element_count() + self.1.element_count() + self.2.element_count() + self.3.element_count() + self.4.element_count() + self.5.element_count() + self.6.element_count() + self.7.element_count() + self.8.element_count() + self.9.element_count()) as int);
                assert(f9.skip(b9.len() as int) =~= f9.subrange(sl + (self.0.element_count() + self.1.element_count() + self.2.element_count() + self.3.element_count() + self.4.element_count() + self.5.element_count() + self.6.element_count() + self.7.element_count() + self.8.element_count()) as int, sl + (self.0.element_count() + self.1.element_count() + self.2.element_count() + self.3.element_count() + self.4.element_count() + self.5.element_count() + self.6.element_count() + self.7.element_count() + self.8.element_count() + self.9.element_count()) as int));
                assert(fin.skip(sl).subrange((self.0.element_count() + self.1.element_count() + self.2.element_count() + self.3.element_count() + self.4.element_count() + self.5.element_count() + self.6.element_count() + self.7.element_count() + self.8.element_count()) as int, (self.0.element_count() + self.1.element_count() + self.2.element_count() + self.3.element_count() + self.4.element_count() + self.5.element_count() + self.6.element_count() + self.7.element_count() + self.8.element_count() + self.9.element_count()) as int) =~= fin.subrange(sl + (self.0.element_count() + self.1.element_count() + self.2.element_count() + self.3.element_count() + self.4.element_count() + self.5.element_count() + self.6.element_count() + self.7.element_count() + self.8.element_count()) as int, sl + (self.0.element_count() + self.1.element_count() + self.2.element_count() + self.3.element_count() + self.4.element_count() + self.5.element_count() + self.6.element_count() + self.7.element_count() + self.8.element_count() + self.9.element_count()) as int));
            }
            assert(self.10.seq_builds(fin.skip(sl).subrange((self.0.element_count() + self.1.element_count() + self.2.element_count() + self.3.element_count() + self.4.element_count() + self.5.element_count() + self.6.element_count() + self.7.element_count() + self.8.element_count() + self.9.element_count()) as int, (self.0.element_count() + self.1.element_count() + self.2.element_count() + self.3.element_count() + self.4.element_count() + self.5.element_count() + self.6.element_count() + self.7.element_count() + self.8.element_count() + self.9.element_count() + self.10.element_count()) as int))) by {
                assert(f10.skip(b10.len() as int) =~= f10.subrange(sl + (self.0.element_count() + self.1.element_count() + self.2.element_count() + self.3.element_count() + self.4.element_count() + self.5.element_count() + self.6.element_count() + self.7.element_count() + self.8.element_count() + self.9.element_count()) as int, sl + (self.0.element_count() + self.1.element_count() + self.2.element_count() + self.3.element_count() + self.4.element_count() + self.5.element_count() + self.6.element_count() + self.7.element_count() + self.8.element_count() + self.9.element_count() + self.10.element_count()) as int));
                assert(fin.skip(sl).subrange((self.0.element_count() + self.1.element_count() + self.2.element_count() + self.3.element_count() + self.4.element_count() + self.5.element_count() + self.6.element_count() + self.7.element_count() + self.8.element_count() + self.9.element_count()) as int, (self.0.element_count() + self.1.element_count() + self.2.element_count() + self.3.element_count() + self.4.element_count() + self.5.element_count() + self.6.element_count() + self.7.element_count() + self.8.element_count() + self.9.element_count() + self.10.element_count()) as int) =~= fin.subrange(sl + (self.0.element_count() + self.1.element_count() + self.2.element_count() + self.3.element_count() + self.4.element_count() + self.5.element_count() + self.6.element_count() + self.7.element_count() + self.8.element_count() + self.9.element_count()) as int, sl + (self.0.element_count() + self.1.element_count() + self.2.element_count() + self.3.element_count() + self.4.element_count() + self.5.element_count() + self.6.element_count() + self.7.element_count() + self.8.element_count() + self.9.element_count() + self.10.element_count()) as int));
            }
        }
    }

    #[verifier::spinoff_prover]
    #[verifier::rlimit(100)]
    fn seq_rebuild<Splice: ElementSplice<Element>>(&self, prev: &Self, elements: &mut Splice) {
        let ghost a = elements.items();
        let ghost c0 = elements.cursor();
        proof {
            lemma_kept_refl(a, c0);
        }
        let ghost b0 = elements.items();
        let ghost cb0 = elements.cursor();
        proof {
            assert(b0.skip(cb0 as int).len() == a.skip((c0 + 0) as int).len());
        }
        self.0.seq_rebuild(&prev.0, elements);
        let ghost f0 = elements.items();
        proof {
            assert(self.0.seq_rebuilds(
                &prev.0,
                a.subrange(c0 + 0int, c0 + (prev.0.element_count()) as int),
                f0.subrange(cb0 as int, (cb0 + self.0.element_count()) as int),
            )) by {
                lemma_sub_shift(a, b0, (c0 + 0) as int, cb0 as int, prev.0.element_count() as int);
            }
            lemma_kept_compose(a, c0, 0, b0, cb0, prev.0.element_count(), elements.items(), elements.cursor());
        }
        let ghost b1 = elements.items();
        let ghost cb1 = elements.cursor();
        proof {
            assert(b1.skip(cb1 as int).len() == a.skip((c0 + (prev.0.element_count())) as int).len());
        }
        self.1.seq_rebuild(&prev.1, elements);
        let ghost f1 = elements.items();
        proof {
            assert(self.1.seq_rebuilds(
                &prev.1,
                a.subrange(c0 + (prev.0.element_count()) as int, c0 + (prev.0.element_count() + prev.1.element_count()) as int),
                f1.subrange(cb1 as int, (cb1 + self.1.element_count()) as int),
            )) by {
                lemma_sub_shift(a, b1, (c0 + (prev.0.element_count())) as int, cb1 as int, prev.1.element_count() as int);
            }
            lemma_kept_compose(a, c0, (prev.0.element_count()), b1, cb1, prev.1.element_count(), elements.items(), elements.cursor());
        }
        let ghost b2 = elements.items();
        let ghost cb2 = elements.cursor();
        proof {
            assert(b2.skip(cb2 as int).len() == a.skip((c0 + (prev.0.element_count() + prev.1.element_count())) as int).len());
        }
        self.2.seq_rebuild(&prev.2, elements);
        let ghost f2 = elements.items();
        proof {
            assert(self.2.seq_rebuilds(
                &prev.2,
                a.subrange(c0 + (prev.0.element_count() + prev.1.element_count()) as int, c0 + (prev.0.element_count() + prev.1.element_count() + prev.2.element_count()) as int),
                f2.subrange(cb2 as int, (cb2 + self.2.element_count()) as int),
            )) by {
                lemma_sub_shift(a, b2, (c0 + (prev.0.element_count() + prev.1.element_count())) as int, cb2 as int, prev.2.element_count() as int);
            }
            lemma_kept_compose(a, c0, (prev.0.element_count() + prev.1.element_count()), b2, cb2, prev.2.element_count(), elements.items(), elements.cursor());
        }
        let ghost b3 = elements.items();
        let ghost cb3 = elements.cursor();
        proof {
            assert(b3.skip(cb3 as int).len() == a.skip((c0 + (prev.0.element_count() + prev.1.element_count() + prev.2.element_count())) as int).len());
        }
        self.3.seq_rebuild(&prev.3, elements);
        let ghost f3 = elements.items();
        proof {
            assert(self.3.seq_rebuilds(
                &prev.3,
                a.subrange(c0 + (prev.0.element_count() + prev.1.element_count() + prev.2.element_count()) as int, c0 + (prev.0.element_count() + prev.1.element_count() + prev.2.element_count() + prev.3.element_count()) as int),
                f3.subrange(cb3 as int, (cb3 + self.3.element_count()) as int),
            )) by {
                lemma_sub_shift(a, b3, (c0 + (prev.0.element_count() + prev.1.element_count() + prev.2.element_count())) as int, cb3 as int, prev.3.element_count() as int);
            }
            lemma_kept_compose(a, c0, (prev.0.element_count() + prev.1.element_count() + prev.2.element_count()), b3, cb3, prev.3.element_count(), elements.items(), elements.cursor());
        }
        let ghost b4 = elements.items();
        let ghost cb4 = elements.cursor();
        proof {
            assert(b4.skip(cb4 as int).len() == a.skip((c0 + (prev.0.element_count() + prev.1.element_count() + prev.2.element_count() + prev.3.element_count())) as int).len());
        }
        self.4.seq_rebuild(&prev.4, elements);
        let ghost f4 = elements.items();
        proof {
            assert(self.4.seq_rebuilds(
                &prev.4,
                a.subrange(c0 + (prev.0.element_count() + prev.1.element_count() + prev.2.element_count() + prev.3.element_count()) as int, c0 + (prev.0.element_count() + prev.1.element_count() + prev.2.element_count() + prev.3.element_count() + prev.4.element_count()) as int),
                f4.subrange(cb4 as int, (cb4 + self.4.element_count()) as int),
            )) by {
                lemma_sub_shift(a, b4, (c0 + (prev.0.element_count() + prev.1.element_count() + prev.2.element_count() + prev.3.element_count())) as int, cb4 as int, prev.4.element_count() as int);
            }
            lemma_kept_compose(a, c0, (prev.0.element_count() + prev.1.element_count() + prev.2.element_count() + prev.3.element_count()), b4, cb4, prev.4.element_count(), elements.items(), elements.cursor());
        }
        let ghost b5 = elements.items();
        let ghost cb5 = elements.cursor();
        proof {
            assert(b5.skip(cb5 as int).len() == a.skip((c0 + (prev.0.element_count() + prev.1.element_count() + prev.2.element_count() + prev.3.element_count() + prev.4.element_count())) as int).len());
        }
        self.5.seq_rebuild(&prev.5, elements);
        let ghost f5 = elements.items();
        proof {
            assert(self.5.seq_rebuilds(
                &prev.5,
                a.subrange(c0 + (prev.0.element_count() + prev.1.element_count() + prev.2.element_count() + prev.3.element_count() + prev.4.element_count()) as int, c0 + (prev.0.element_count() + prev.1.element_count() + prev.2.element_count() + prev.3.element_count() + prev.4.element_count() + prev.5.element_count()) as int),
                f5.subrange(cb5 as int, (cb5 + self.5.element_count()) as int),
            )) by {
                lemma_sub_shift(a, b5, (c0 + (prev.0.element_count() + prev.1.element_count() + prev.2.element_count() + prev.3.element_count() + prev.4.element_count())) as int, cb5 as int, prev.5.element_count() as int);
            }
            lemma_kept_compose(a, c0, (prev.0.element_count() + prev.1.element_count() + prev.2.element_count() + prev.3.element_count() + prev.4.element_count()), b5, cb5, prev.5.element_count(), elements.items(), elements.cursor());
        }
        let ghost b6 = elements.items();
        let ghost cb6 = elements.cursor();
        proof {
            assert(b6.skip(cb6 as int).len() == a.skip((c0 + (prev.0.element_count() + prev.1.element_count() + prev.2.element_count() + prev.3.element_count() + prev.4.element_count() + prev.5.element_count())) as int).len());
        }
        self.6.seq_rebuild(&prev.6, elements);
        let ghost f6 = elements.items();
        proof {
            assert(self.6.seq_rebuilds(
                &prev.6,
                a.subrange(c0 + (prev.0.element_count() + prev.1.element_count() + prev.2.element_count() + prev.3.element_count() + prev.4.element_count() + prev.5.element_count()) as int, c0 + (prev.0.element_count() + prev.1.element_count() + prev.2.element_count() + prev.3.element_count() + prev.4.element_count() + prev.5.element_count() + prev.6.element_count()) as int),
                f6.subrange(cb6 as int, (cb6 + self.6.element_count()) as int),
            )) by {
                lemma_sub_shift(a, b6, (c0 + (prev.0.element_count() + prev.1.element_count() + prev.2.element_count() + prev.3.element_count() + prev.4.element_count() + prev.5.element_count())) as int, cb6 as int, prev.6.element_count() as int);
            }
            lemma_kept_compose(a, c0, (prev.0.element_count() + prev.1.element_count() + prev.2.element_count() + prev.3.element_count() + prev.4.element_count() + prev.5.element_count()), b6, cb6, prev.6.element_count(), elements.items(), elements.cursor());
        }
        let ghost b7 = elements.items();
        let ghost cb7 = elements.cursor();
        proof {
            assert(b7.skip(cb7 as int).len() == a.skip((c0 + (prev.0.element_count() + prev.1.element_count() + prev.2.element_count() + prev.3.element_count() + prev.4.element_count() + prev.5.element_count() + prev.6.element_count())) as int).len());
        }
        self.7.seq_rebuild(&prev.7, elements);
        let ghost f7 = elements.items();
        proof {
            assert(self.7.seq_rebuilds(
                &prev.7,
                a.subrange(c0 + (prev.0.element_count() + prev.1.element_count() + prev.2.element_count() + prev.3.element_count() + prev.4.element_count() + prev.5.element_count() + prev.6.element_count()) as int, c0 + (prev.0.element_count() + prev.1.element_count() + prev.2.element_count() + prev.3.element_count() + prev.4.element_count() + prev.5.element_count() + prev.6.element_count() + prev.7.element_count()) as int),
                f7.subrange(cb7 as int, (cb7 + self.7.element_count()) as int),
            )) by {
                lemma_sub_shift(a, b7, (c0 + (prev.0.element_count() + prev.1.element_count() + prev.2.element_count() + prev.3.element_count() + prev.4.element_count() + prev.5.element_count() + prev.6.element_count())) as int, cb7 as int, prev.7.element_count() as int);
            }
            lemma_kept_compose(a, c0, (prev.0.element_count() + prev.1.element_count() + prev.2.element_count() + prev.3.element_count() + prev.4.element_count() + prev.5.element_count() + prev.6.element_count()), b7, cb7, prev.7.element_count(), elements.items(), elements.cursor());
        }
        let ghost b8 = elements.items();
        let ghost cb8 = elements.cursor();
        proof {
            assert(b8.skip(cb8 as int).len() == a.skip((c0 + (prev.0.element_count() + prev.1.element_count() + prev.2.element_count() + prev.3.element_count() + prev.4.element_count() + prev.5.element_count() + prev.6.element_count() + prev.7.element_count())) as int).len());
        }
        self.8.seq_rebuild(&prev.8, elements);
        let ghost f8 = elements.items();
        proof {
            assert(self.8.seq_rebuilds(
                &prev.8,
                a.subrange(c0 + (prev.0.element_count() + prev.1.element_count() + prev.2.element_count() + prev.3.element_count() + prev.4.element_count() + prev.5.element_count() + prev.6.element_count() + prev.7.element_count()) as int, c0 + (prev.0.element_count() + prev.1.element_count() + prev.2.element_count() + prev.3.element_count() + prev.4.element_count() + prev.5.element_count() + prev.6.element_count() + prev.7.element_count() + prev.8.element_count()) as int),
                f8.subrange(cb8 as int, (cb8 + self.8.element_count()) as int),
            )) by {
                lemma_sub_shift(a, b8, (c0 + (prev.0.element_count() + prev.1.element_count() + prev.2.element_count() + prev.3.element_count() + prev.4.element_count() + prev.5.element_count() + prev.6.element_count() + prev.7.element_count())) as int, cb8 as int, prev.8.element_count() as int);
            }
            lemma_kept_compose(a, c0, (prev.0.element_count() + prev.1.element_count() + prev.2.element_count() + prev.3.element_count() + prev.4.element_count() + prev.5.element_count() + prev.6.element_count() + prev.7.element_count()), b8, cb8, prev.8.element_count(), elements.items(), elements.cursor());
        }
        let ghost b9 = elements.items();
        let ghost cb9 = elements.cursor();
        proof {
            assert(b9.skip(cb9 as int).len() == a.skip((c0 + (prev.0.element_count() + prev.1.element_count() + prev.2.element_count() + prev.3.element_count() + prev.4.element_count() + prev.5.element_count() + prev.6.element_count() + prev.7.element_count() + prev.8.element_count())) as int).len());
        }
        self.9.seq_rebuild(&prev.9, elements);
        let ghost f9 = elements.items();
        proof {
            assert(self.9.seq_rebuilds(
                &prev.9,
                a.subrange(c0 + (prev.0.element_count() + prev.1.element_count() + prev.2.element_count() + prev.3.element_count() + prev.4.element_count() + prev.5.element_count() + prev.6.element_count() + prev.7.element_count() + prev.8.element_count()) as int, c0 + (prev.0.element_count() + prev.1.element_count() + prev.2.element_count() + prev.3.element_count() + prev.4.element_count() + prev.5.element_count() + prev.6.element_count() + prev.7.element_count() + prev.8.element_count() + prev.9.element_count()) as int),
                f9.subrange(cb9 as int, (cb9 + self.9.element_count()) as int),
            )) by {
                lemma_sub_shift(a, b9, (c0 + (prev.0.element_count() + prev.1.element_count() + prev.2.element_count() + prev.3.element_count() + prev.4.element_count() + prev.5.element_count() + prev.6.element_count() + prev.7.element_count() + prev.8.element_count())) as int, cb9 as int, prev.9.element_count() as int);
            }
            lemma_kept_compose(a, c0, (prev.0.element_count() + prev.1.element_count() + prev.2.element_count() + prev.3.element_count() + prev.4.element_count() + prev.5.element_count() + prev.6.element_count() + prev.7.element_count() + prev.8.element_count()), b9, cb9, prev.9.element_count(), elements.items(), elements.cursor());
        }
        let ghost b10 = elements.items();
        let ghost cb10 = elements.cursor();
        proof {
            assert(b10.skip(cb10 as int).len() == a.skip((c0 + (prev.0.element_count() + prev.1.element_count() + prev.2.element_count() + prev.3.element_count() + prev.4.element_count() + prev.5.element_count() + prev.6.element_count() + prev.7.element_count() + prev.8.element_count() + prev.9.element_count())) as int).len());
        }
        self.10.seq_rebuild(&prev.10, elements);
        let ghost f10 = elements.items();
        proof {
            assert(self.10.seq_rebuilds(
                &prev.10,
                a.subrange(c0 + (prev.0.element_count() + prev.1.element_count() + prev.2.element_count() + prev.3.element_count() + prev.4.element_count() + prev.5.element_count() + prev.6.element_count() + prev.7.element_count() + prev.8.element_count() + prev.9.element_count()) as int, c0 + (prev.0.element_count() + prev.1.element_count() + prev.2.element_count() + prev.3.element_count() + prev.4.element_count() + prev.5.element_count() + prev.6.element_count() + prev.7.element_count() + prev.8.element_count() + prev.9.element_count() + prev.10.element_count()) as int),
                f10.subrange(cb10 as int, (cb10 + self.10.element_count()) as int),
            )) by {
                lemma_sub_shift(a, b10, (c0 + (prev.0.element_count() + prev.1.element_count() + prev.2.element_count() + prev.3.element_count() + prev.4.element_count() + prev.5.element_count() + prev.6.element_count() + prev.7.element_count() + prev.8.element_count() + prev.9.element_count())) as int, cb10 as int, prev.10.element_count() as int);
            }
            lemma_kept_compose(a, c0, (prev.0.element_count() + prev.1.element_count() + prev.2.element_count() + prev.3.element_count() + prev.4.element_count() + prev.5.element_count() + prev.6.element_count() + prev.7.element_count() + prev.8.element_count() + prev.9.element_count()), b10, cb10, prev.10.element_count(), elements.items(), elements.cursor());
        }
        let ghost ce = elements.cursor();
        proof {
            let fin = elements.items();
            assert(fin.take(ce as int) =~= f10.take(ce as int));
            lemma_take_link(fin, f10, f9, cb10 as int, ce as int);
            lemma_take_link(fin, f9, f8, cb9 as int, cb10 as int);
            lemma_take_link(fin, f8, f7, cb8 as int, cb9 as int);
            lemma_take_link(fin, f7, f6, cb7 as int, cb8 as int);
            lemma_take_link(fin, f6, f5, cb6 as int, cb7 as int);
            lemma_take_link(fin, f5, f4, cb5 as int, cb6 as int);
            lemma_take_link(fin, f4, f3, cb4 as int, cb5 as int);
            lemma_take_link(fin, f3, f2, cb3 as int, cb4 as int);
            lemma_take_link(fin, f2, f1, cb2 as int, cb3 as int);
            lemma_take_link(fin, f1, f0, cb1 as int, cb2 as int);
            assert(self.0.seq_rebuilds(
                &prev.0,
                region(a, c0, prev.element_count()).subrange(0int, (prev.0.element_count()) as int),
                region(fin, c0, self.element_count()).subrange(0int, (self.0.element_count()) as int),
            )) by {
                lemma_sub_stable(fin, f0, cb1 as int, cb0 as int, cb1 as int);
                assert(region(fin, c0, self.element_count()).subrange(0int, (self.0.element_count()) as int) =~= fin.subrange(cb0 as int, cb1 as int));
                assert(region(a, c0, prev.element_count()).subrange(0int, (prev.0.element_count()) as int) =~= a.subrange(c0 + 0int, c0 + (prev.0.element_count()) as int));
            }
            assert(self.1.seq_rebuilds(
                &prev.1,
                region(a, c0, prev.element_count()).subrange((prev.0.element_count()) as int, (prev.0.element_count() + prev.1.element_count()) as int),
                region(fin, c0, self.element_count()).subrange((self.0.element_count()) as int, (self.0.element_count() + self.1.element_count()) as int),
            )) by {
                lemma_sub_stable(fin, f1, cb2 as int, cb1 as int, cb2 as int);
                assert(region(fin, c0, self.element_count()).subrange((self.0.element_count()) as int, (self.0.element_count() + self.1.element_count()) as int) =~= fin.subrange(cb1 as int, cb2 as int));
                assert(region(a, c0, prev.element_count()).subrange((prev.0.element_count()) as int, (prev.0.element_count() + prev.1.element_count()) as int) =~= a.subrange(c0 + (prev.0.element_count()) as int, c0 + (prev.0.element_count() + prev.1.element_count()) as int));
            }
            assert(self.2.seq_rebuilds(
                &prev.2,
                region(a, c0, prev.element_count()).subrange((prev.0.element_count() + prev.1.element_count()) as int, (prev.0.element_count() + prev.1.element_count() + prev.2.element_count()) as int),
                region(fin, c0, self.element_count()).subrange((self.0.element_count() + self.1.element_count()) as int, (self.0.element_count() + self.1.element_count() + self.2.element_count()) as int),
            )) by {
                lemma_sub_stable(fin, f2, cb3 as int, cb2 as int, cb3 as int);
                assert(region(fin, c0, self.element_count()).subrange((self.0.element_count() + self.1.element_count()) as int, (self.0.element_count() + self.1.element_count() + self.2.element_count()) as int) =~= fin.subrange(cb2 as int, cb3 as int));
                assert(region(a, c0, prev.element_count()).subrange((prev.0.element_count() + prev.1.element_count()) as int, (prev.0.element_count() + prev.1.element_count() + prev.2.element_count()) as int) =~= a.subrange(c0 + (prev.0.element_count() + prev.1.element_count()) as int, c0 + (prev.0.element_count() + prev.1.element_count() + prev.2.element_count()) as int));
            }
            assert(self.3.seq_rebuilds(
                &prev.3,
                region(a, c0, prev.element_count()).subrange((prev.0.element_count() + prev.1.element_count() + prev.2.element_count()) as int, (prev.0.element_count() + prev.1.element_count() + prev.2.element_count() + prev.3.element_count()) as int),
                region(fin, c0, self.element_count()).subrange((self.0.element_count() + self.1.element_count() + self.2.element_count()) as int, (self.0.element_count() + self.1.element_count() + self.2.element_count() + self.3.element_count()) as int),
            )) by {
                lemma_sub_stable(fin, f3, cb4 as int, cb3 as int, cb4 as int);
                assert(region(fin, c0, self.element_count()).subrange((self.0.element_count() + self.1.element_count() + self.2.element_count()) as int, (self.0.element_count() + self.1.element_count() + self.2.element_count() + self.3.element_count()) as int) =~= fin.subrange(cb3 as int, cb4 as int));
                assert(region(a, c0, prev.element_count()).subrange((prev.0.element_count() + prev.1.element_count() + prev.2.element_count()) as int, (prev.0.element_count() + prev.1.element_count() + prev.2.element_count() + prev.3.element_count()) as int) =~= a.subrange(c0 + (prev.0.element_count() + prev.1.element_count() + prev.2.element_count()) as int, c0 + (prev.0.element_count() + prev.1.element_count() + prev.2.element_count() + prev.3.element_count()) as int));
            }
            assert(self.4.seq_rebuilds(
                &prev.4,
                region(a, c0, prev.element_count()).subrange((prev.0.element_count() + prev.1.element_count() + prev.2.element_count() + prev.3.element_count()) as int, (prev.0.element_count() + prev.1.element_count() + prev.2.element_count() + prev.3.element_count() + prev.4.element_count()) as int),
                region(fin, c0, self.element_count()).subrange((self.0.element_count() + self.1.element_count() + self.2.element_count() + self.3.element_count()) as int, (self.0.element_count() + self.1.element_count() + self.2.element_count() + self.3.element_count() + self.4.element_count()) as int),
            )) by {
                lemma_sub_stable(fin, f4, cb5 as int, cb4 as int, cb5 as int);
                assert(region(fin, c0, self.element_count()).subrange((self.0.element_count() + self.1.element_count() + self.2.element_count() + self.3.element_count()) as int, (self.0.element_count() + self.1.element_count() + self.2.element_count() + self.3.element_count() + self.4.element_count()) as int) =~= fin.subrange(cb4 as int, cb5 as int));
                assert(region(a, c0, prev.element_count()).subrange((prev.0.element_count() + prev.1.element_count() + prev.2.element_count() + prev.3.element_count()) as int, (prev.0.element_count() + prev.1.element_count() + prev.2.element_count() + prev.3.element_count() + prev.4.element_count()) as int) =~= a.subrange(c0 + (prev.0.element_count() + prev.1.element_count() + prev.2.element_count() + prev.3.element_count()) as int, c0 + (prev.0.element_count() + prev.1.element_count() + prev.2.element_count() + prev.3.element_count() + prev.4.element_count()) as int));
            }
            assert(self.5.seq_rebuilds(
                &prev.5,
                region(a, c0, prev.element_count()).subrange((prev.0.element_count() + prev.1.element_count() + prev.2.element_count() + prev.3.element_count() + prev.4.element_count()) as int, (prev.0.element_count() + prev.1.element_count() + prev.2.element_count() + prev.3.element_count() + prev.4.element_count() + prev.5.element_count()) as int),
                region(fin, c0, self.element_count()).subrange((self.0.element_count() + self.1.element_count() + self.2.element_count() + self.3.element_count() + self.4.element_count()) as int, (self.0.element_count() + self.1.element_count() + self.2.element_count() + self.3.element_count() + self.4.element_count() + self.5.element_count()) as int),
            )) by {
                lemma_sub_stable(fin, f5, cb6 as int, cb5 as int, cb6 as int);
                assert(region(fin, c0, self.element_count()).subrange((self.0.element_count() + self.1.element_count() + self.2.element_count() + self.3.element_count() + self.4.element_count()) as int, (self.0.element_count() + self.1.element_count() + self.2.element_count() + self.3.element_count() + self.4.element_count() + self.5.element_count()) as int) =~= fin.subrange(cb5 as int, cb6 as int));
                assert(region(a, c0, prev.element_count()).subrange((prev.0.element_count() + prev.1.element_count() + prev.2.element_count() + prev.3.element_count() + prev.4.element_count()) as int, (prev.0.element_count() + prev.1.element_count() + prev.2.element_count() + prev.3.element_count() + prev.4.element_count() + prev.5.element_count()) as int) =~= a.subrange(c0 + (prev.0.element_count() + prev.1.element_count() + prev.2.element_count() + prev.3.element_count() + prev.4.element_count()) as int, c0 + (prev.0.element_count() + prev.1.element_count() + prev.2.element_count() + prev.3.element_count() + prev.4.element_count() + prev.5.element_count()) as int));
            }
            assert(self.6.seq_rebuilds(
                &prev.6,
                region(a, c0, prev.element_count()).subrange((prev.0.element_count() + prev.1.element_count() + prev.2.element_count() + prev.3.element_count() + prev.4.element_count() + prev.5.element_count()) as int, (prev.0.element_count() + prev.1.element_count() + prev.2.element_count() + prev.3.element_count() + prev.4.element_count() + prev.5.element_count() + prev.6.element_count()) as int),
                region(fin, c0, self.element_count()).subrange((self.0.element_count() + self.1.element_count() + self.2.element_count() + self.3.element_count() + self.4.element_count() + self.5.element_count()) as int, (self.0.element_count() + self.1.element_count() + self.2.element_count() + self.3.element_count() + self.4.element_count() + self.5.element_count() + self.6.element_count()) as int),
            )) by {
                lemma_sub_stable(fin, f6, cb7 as int, cb6 as int, cb7 as int);
                assert(region(fin, c0, self.element_count()).subrange((self.0.element_count() + self.1.element_count() + self.2.element_count() + self.3.element_count() + self.4.element_count() + self.5.element_count()) as int, (self.0.element_count() + self.1.element_count() + self.2.element_count() + self.3.element_count() + self.4.element_count() + self.5.element_count() + self.6.element_count()) as int) =~= fin.subrange(cb6 as int, cb7 as int));
                assert(region(a, c0, prev.element_count()).subrange((prev.0.element_count() + prev.1.element_count() + prev.2.element_count() + prev.3.element_count() + prev.4.element_count() + prev.5.element_count()) as int, (prev.0.element_count() + prev.1.element_count() + prev.2.element_count() + prev.3.element_count() + prev.4.element_count() + prev.5.element_count() + prev.6.element_count()) as int) =~= a.subrange(c0 + (prev.0.element_count() + prev.1.element_count() + prev.2.element_count() + prev.3.element_count() + prev.4.element_count() + prev.5.element_count()) as int, c0 + (prev.0.element_count() + prev.1.element_count() + prev.2.element_count() + prev.3.element_count() + prev.4.element_count() + prev.5.element_count() + prev.6.element_count()) as int));
            }
            assert(self.7.seq_rebuilds(
                &prev.7,
                region(a, c0, prev.element_count()).subrange((prev.0.element_count() + prev.1.element_count() + prev.2.element_count() + prev.3.element_count() + prev.4.element_count() + prev.5.element_count() + prev.6.element_count()) as int, (prev.0.element_count() + prev.1.element_count() + prev.2.element_count() + prev.3.element_count() + prev.4.element_count() + prev.5.element_count() + prev.6.element_count() + prev.7.element_count()) as int),
                region(fin, c0, self.element_count()).subrange((self.0.element_count() + self.1.element_count() + self.2.element_count() + self.3.element_count() + self.4.element_count() + self.5.element_count() + self.6.element_count()) as int, (self.0.element_count() + self.1.element_count() + self.2.element_count() + self.3.element_count() + self.4.element_count() + self.5.element_count() + self.6.element_count() + self.7.element_count()) as int),
            )) by {
                lemma_sub_stable(fin, f7, cb8 as int, cb7 as int, cb8 as int);
                assert(region(fin, c0, self.element_count()).subrange((self.0.element_count() + self.1.element_count() + self.2.element_count() + self.3.element_count() + self.4.element_count() + self.5.element_count() + self.6.element_count()) as int, (self.0.element_count() + self.1.element_count() + self.2.element_count() + self.3.element_count() + self.4.element_count() + self.5.element_count() + self.6.element_count() + self.7.element_count()) as int) =~= fin.subrange(cb7 as int, cb8 as int));
                assert(region(a, c0, prev.element_count()).subrange((prev.0.element_count() + prev.1.element_count() + prev.2.element_count() + prev.3.element_count() + prev.4.element_count() + prev.5.element_count() + prev.6.element_count()) as int, (prev.0.element_count() + prev.1.element_count() + prev.2.element_count() + prev.3.element_count() + prev.4.element_count() + prev.5.element_count() + prev.6.element_count() + prev.7.element_count()) as int) =~= a.subrange(c0 + (prev.0.element_count() + prev.1.element_count() + prev.2.element_count() + prev.3.element_count() + prev.4.element_count() + prev.5.element_count() + prev.6.element_count()) as int, c0 + (prev.0.element_count() + prev.1.element_count() + prev.2.element_count() + prev.3.element_count() + prev.4.element_count() + prev.5.element_count() + prev.6.element_count() + prev.7.element_count()) as int));
            }
            assert(self.8.seq_rebuilds(
                &prev.8,
                region(a, c0, prev.element_count()).subrange((prev.0.element_count() + prev.1.element_count() + prev.2.element_count() + prev.3.element_count() + prev.4.element_count() + prev.5.element_count() + prev.6.element_count() + prev.7.element_count()) as int, (prev.0.element_count() + prev.1.element_count() + prev.2.element_count() + prev.3.element_count() + prev.4.element_count() + prev.5.element_count() + prev.6.element_count() + prev.7.element_count() + prev.8.element_count()) as int),
                region(fin, c0, self.element_count()).subrange((self.0.element_count() + self.1.element_count() + self.2.element_count() + self.3.element_count() + self.4.element_count() + self.5.element_count() + self.6.element_count() + self.7.element_count()) as int, (self.0.element_count() + self.1.element_count() + self.2.element_count() + self.3.element_count() + self.4.element_count() + self.5.element_count() + self.6.element_count() + self.7.element_count() + self.8.element_count()) as int),
            )) by {
                lemma_sub_stable(fin, f8, cb9 as int, cb8 as int, cb9 as int);
                assert(region(fin, c0, self.element_count()).subrange((self.0.element_count() + self.1.element_count() + self.2.element_count() + self.3.element_count() + self.4.element_count() + self.5.element_count() + self.6.element_count() + self.7.element_count()) as int, (self.0.element_count() + self.1.element_count() + self.2.element_count() + self.3.element_count() + self.4.element_count() + self.5.element_count() + self.6.element_count() + self.7.element_count() + self.8.element_count()) as int) =~= fin.subrange(cb8 as int, cb9 as int));
                assert(region(a, c0, prev.element_count()).subrange((prev.0.element_count() + prev.1.element_count() + prev.2.element_count() + prev.3.element_count() + prev.4.element_count() + prev.5.element_count() + prev.6.element_count() + prev.7.element_count()) as int, (prev.0.element_count() + prev.1.element_count() + prev.2.element_count() + prev.3.element_count() + prev.4.element_count() + prev.5.element_count() + prev.6.element_count() + prev.7.element_count() + prev.8.element_count()) as int) =~= a.subrange(c0 + (prev.0.element_count() + prev.1.element_count() + prev.2.element_count() + prev.3.element_count() + prev.4.element_count() + prev.5.element_count() + prev.6.element_count() + prev.7.element_count()) as int, c0 + (prev.0.element_count() + prev.1.element_count() + prev.2.element_count() + prev.3.element_count() + prev.4.element_count() + prev.5.element_count() + prev.6.element_count() + prev.7.element_count() + prev.8.element_count()) as int));
            }
            assert(self.9.seq_rebuilds(
                &prev.9,
                region(a, c0, prev.element_count()).subrange((prev.0.element_count() + prev.1.element_count() + prev.2.element_count() + prev.3.element_count() + prev.4.element_count() + prev.5.element_count() + prev.6.element_count() + prev.7.element_count() + prev.8.element_count()) as int, (prev.0.element_count() + prev.1.element_count() + prev.2.element_count() + prev.3.element_count() + prev.4.element_count() + prev.5.element_count() + prev.6.element_count() + prev.7.element_count() + prev.8.element_count() + prev.9.element_count()) as int),
                region(fin, c0, self.element_count()).subrange((self.0.element_count() + self.1.element_count() + self.2.element_count() + self.3.element_count() + self.4.element_count() + self.5.element_count() + self.6.element_count() + self.7.element_count() + self.8.element_count()) as int, (self.0.element_count() + self.1.element_count() + self.2.element_count() + self.3.element_count() + self.4.element_count() + self.5.element_count() + self.6.element_count() + self.7.element_count() + self.8.element_count() + self.9.element_count()) as int),
            )) by {
                lemma_sub_stable(fin, f9, cb10 as int, cb9 as int, cb10 as int);
                assert(region(fin, c0, self.element_count()).subrange((self.0.element_count() + self.1.element_count() + self.2.element_count() + self.3.element_count() + self.4.element_count() + self.5.element_count() + self.6.element_count() + self.7.element_count() + self.8.element_count()) as int, (self.0.element_count() + self.1.element_count() + self.2.element_count() + self.3.element_count() + self.4.element_count() + self.5.element_count() + self.6.element_count() + self.7.element_count() + self.8.element_count() + self.9.element_count()) as int) =~= fin.subrange(cb9 as int, cb10 as int));
                assert(region(a, c0, prev.element_count()).subrange((prev.0.element_count() + prev.1.element_count() + prev.2.element_count() + prev.3.element_count() + prev.4.element_count() + prev.5.element_count() + prev.6.element_count() + prev.7.element_count() + prev.8.element_count()) as int, (prev.0.element_count() + prev.1.element_count() + prev.2.element_count() + prev.3.element_count() + prev.4.element_count() + prev.5.element_count() + prev.6.element_count() + prev.7.element_count() + prev.8.element_count() + prev.9.element_count()) as int) =~= a.subrange(c0 + (prev.0.element_count() + prev.1.element_count() + prev.2.element_count() + prev.3.element_count() + prev.4.element_count() + prev.5.element_count() + prev.6.element_count() + prev.7.element_count() + prev.8.element_count()) as int, c0 + (prev.0.element_count() + prev.1.element_count() + prev.2.element_count() + prev.3.element_count() + prev.4.element_count() + prev.5.element_count() + prev.6.element_count() + prev.7.element_count() + prev.8.element_count() + prev.9.element_count()) as int));
            }
            assert(self.10.seq_rebuilds(
                &prev.10,
                region(a, c0, prev.element_count()).subrange((prev.0.element_count() + prev.1.element_count() + prev.2.element_count() + prev.3.element_count() + prev.4.element_count() + prev.5.element_count() + prev.6.element_count() + prev.7.element_count() + prev.8.element_count() + prev.9.element_count()) as int, (prev.0.element_count() + prev.1.element_count() + prev.2.element_count() + prev.3.element_count() + prev.4.element_count() + prev.5.element_count() + prev.6.element_count() + prev.7.element_count() + prev.8.element_count() + prev.9.element_count() + prev.10.element_count()) as int),
                region(fin, c0, self.element_count()).subrange((self.0.element_count() + self.1.element_count() + self.2.element_count() + self.3.element_count() + self.4.element_count() + self.5.element_count() + self.6.element_count() + self.7.element_count() + self.8.element_count() + self.9.element_count()) as int, (self.0.element_count() + self.1.element_count() + self.2.element_count() + self.3.element_count() + self.4.element_count() + self.5.element_count() + self.6.element_count() + self.7.element_count() + self.8.element_count() + self.9.element_count() + self.10.element_count()) as int),
            )) by {
                assert(region(fin, c0, self.element_count()).subrange((self.0.element_count() + self.1.element_count() + self.2.element_count() + self.3.element_count() + self.4.element_count() + self.5.element_count() + self.6.element_count() + self.7.element_count() + self.8.element_count() + self.9.element_count()) as int, (self.0.element_count() + self.1.element_count() + self.2.element_count() + self.3.element_count() + self.4.element_count() + self.5.element_count() + self.6.element_count() + self.7.element_count() + self.8.element_count() + self.9.element_count() + self.10.element_count()) as int) =~= fin.subrange(cb10 as int, ce as int));
                assert(region(a, c0, prev.element_count()).subrange((prev.0.element_count() + prev.1.element_count() + prev.2.element_count() + prev.3.element_count() + prev.4.element_count() + prev.5.element_count() + prev.6.element_count() + prev.7.element_count() + prev.8.element_count() + prev.9.element_count()) as int, (prev.0.element_count() + prev.1.element_count() + prev.2.element_count() + prev.3.element_count() + prev.4.element_count() + prev.5.element_count() + prev.6.element_count() + prev.7.element_count() + prev.8.element_count() + prev.9.element_count() + prev.10.element_count()) as int) =~= a.subrange(c0 + (prev.0.element_count() + prev.1.element_count() + prev.2.element_count() + prev.3.element_count() + prev.4.element_count() + prev.5.element_count() + prev.6.element_count() + prev.7.element_count() + prev.8.element_count() + prev.9.element_count()) as int, c0 + (prev.0.element_count() + prev.1.element_count() + prev.2.element_count() + prev.3.element_count() + prev.4.element_count() + prev.5.element_count() + prev.6.element_count() + prev.7.element_count() + prev.8.element_count() + prev.9.element_count() + prev.10.element_count()) as int));
            }
        }
    }

    #[verifier::spinoff_prover]
    #[verifier::rlimit(100)]
    fn seq_teardown<Splice: ElementSplice<Element>>(&self, elements: &mut Splice) {
        let ghost a = elements.items();
        let ghost c0 = elements.cursor();
        proof {
            lemma_kept_refl(a, c0);
        }
        let ghost b0 = elements.items();
        let ghost cb0 = elements.cursor();
        proof {
            assert(b0.skip(cb0 as int).len() == a.skip((c0 + 0) as int).len());
        }
        self.0.seq_teardown(elements);
        proof {
            assert(self.0.seq_tears_down(region(a, c0, self.element_count()).subrange(0int, (self.0.element_count()) as int))) by {
                lemma_sub_shift(a, b0, (c0 + 0) as int, cb0 as int, self.0.element_count() as int);
                assert(region(a, c0, self.element_count()).subrange(0int, (self.0.element_count()) as int) =~= a.subrange(c0 + 0int, c0 + (self.0.element_count()) as int));
            }
            lemma_kept_compose(a, c0, 0, b0, cb0, self.0.element_count(), elements.items(), elements.cursor());
        }
        let ghost b1 = elements.items();
        let ghost cb1 = elements.cursor();
        proof {
            assert(b1.skip(cb1 as int).len() == a.skip((c0 + (self.0.element_count())) as int).len());
        }
        self.1.seq_teardown(elements);
        proof {
            assert(self.1.seq_tears_down(region(a, c0, self.element_count()).subrange((self.0.element_count()) as int, (self.0.element_count() + self.1.element_count()) as int))) by {
                lemma_sub_shift(a, b1, (c0 + (self.0.element_count())) as int, cb1 as int, self.1.element_count() as int);
                assert(region(a, c0, self.element_count()).subrange((self.0.element_count()) as int, (self.0.element_count() + self.1.element_count()) as int) =~= a.subrange(c0 + (self.0.element_count()) as int, c0 + (self.0.element_count() + self.1.element_count()) as int));
            }
            lemma_kept_compose(a, c0, (self.0.element_count()), b1, cb1, self.1.element_count(), elements.items(), elements.cursor());
        }
        let ghost b2 = elements.items();
        let ghost cb2 = elements.cursor();
        proof {
            assert(b2.skip(cb2 as int).len() == a.skip((c0 + (self.0.element_count() + self.1.element_count())) as int).len());
        }
        self.2.seq_teardown(elements);
        proof {
            assert(self.2.seq_tears_down(region(a, c0, self.element_count()).subrange((self.0.element_count() + self.1.element_count()) as int, (self.0.element_count() + self.1.element_count() + self.2.element_count()) as int))) by {
                lemma_sub_shift(a, b2, (c0 + (self.0.element_count() + self.1.element_count())) as int, cb2 as int, self.2.element_count() as int);
                assert(region(a, c0, self.element_count()).subrange((self.0.element_count() + self.1.element_count()) as int, (self.0.element_count() + self.1.element_count() + self.2.element_count()) as int) =~= a.subrange(c0 + (self.0.element_count() + self.1.element_count()) as int, c0 + (self.0.element_count() + self.1.element_count() + self.2.element_count()) as int));
            }
            lemma_kept_compose(a, c0, (self.0.element_count() + self.1.element_count()), b2, cb2, self.2.element_count(), elements.items(), elements.cursor());
        }
        let ghost b3 = elements.items();
        let ghost cb3 = elements.cursor();
        proof {
            assert(b3.skip(cb3 as int).len() == a.skip((c0 + (self.0.element_count() + self.1.element_count() + self.2.element_count())) as int).len());
        }
        self.3.seq_teardown(elements);
        proof {
            assert(self.3.seq_tears_down(region(a, c0, self.element_count()).subrange((self.0.element_count() + self.1.element_count() + self.2.element_count()) as int, (self.0.element_count() + self.1.element_count() + self.2.element_count() + self.3.element_count()) as int))) by {
                lemma_sub_shift(a, b3, (c0 + (self.0.element_count() + self.1.element_count() + self.2.element_count())) as int, cb3 as int, self.3.element_count() as int);
                assert(region(a, c0, self.element_count()).subrange((self.0.element_count() + self.1.element_count() + self.2.element_count()) as int, (self.0.element_count() + self.1.element_count() + self.2.element_count() + self.3.element_count()) as int) =~= a.subrange(c0 + (self.0.element_count() + self.1.element_count() + self.2.element_count()) as int, c0 + (self.0.element_count() + self.1.element_count() + self.2.element_count() + self.3.element_count()) as int));
            }
            lemma_kept_compose(a, c0, (self.0.element_count() + self.1.element_count() + self.2.element_count()), b3, cb3, self.3.element_count(), elements.items(), elements.cursor());
        }
        let ghost b4 = elements.items();
        let ghost cb4 = elements.cursor();
        proof {
            assert(b4.skip(cb4 as int).len() == a.skip((c0 + (self.0.element_count() + self.1.element_count() + self.2.element_count() + self.3.element_count())) as int).len());
        }
        self.4.seq_teardown(elements);
        proof {
            assert(self.4.seq_tears_down(region(a, c0, self.element_count()).subrange((self.0.element_count() + self.1.element_count() + self.2.element_count() + self.3.element_count()) as int, (self.0.element_count() + self.1.element_count() + self.2.element_count() + self.3.element_count() + self.4.element_count()) as int))) by {
                lemma_sub_shift(a, b4, (c0 + (self.0.element_count() + self.1.element_count() + self.2.element_count() + self.3.element_count())) as int, cb4 as int, self.4.element_count() as int);
                assert(region(a, c0, self.element_count()).subrange((self.0.element_count() + self.1.element_count() + self.2.element_count() + self.3.element_count()) as int, (self.0.element_count() + self.1.element_count() + self.2.element_count() + self.3.element_count() + self.4.element_count()) as int) =~= a.subrange(c0 + (self.0.element_count() + self.1.element_count() + self.2.element_count() + self.3.element_count()) as int, c0 + (self.0.element_count() + self.1.element_count() + self.2.element_count() + self.3.element_count() + self.4.element_count()) as int));
            }
            lemma_kept_compose(a, c0, (self.0.element_count() + self.1.element_count() + self.2.element_count() + self.3.element_count()), b4, cb4, self.4.element_count(), elements.items(), elements.cursor());
        }
        let ghost b5 = elements.items();
        let ghost cb5 = elements.cursor();
        proof {
            assert(b5.skip(cb5 as int).len() == a.skip((c0 + (self.0.element_count() + self.1.element_count() + self.2.element_count() + self.3.element_count() + self.4.element_count())) as int).len());
        }
        self.5.seq_teardown(elements);
        proof {
            assert(self.5.seq_tears_down(region(a, c0, self.element_count()).subrange((self.0.element_count() + self.1.element_count() + self.2.element_count() + self.3.element_count() + self.4.element_count()) as int, (self.0.element_count() + self.1.element_count() + self.2.element_count() + self.3.element_count() + self.4.element_count() + self.5.element_count()) as int))) by {
                lemma_sub_shift(a, b5, (c0 + (self.0.element_count() + self.1.element_count() + self.2.element_count() + self.3.element_count() + self.4.element_count())) as int, cb5 as int, self.5.element_count() as int);
                assert(region(a, c0, self.element_count()).subrange((self.0.element_count() + self.1.element_count() + self.2.element_count() + self.3.element_count() + self.4.element_count()) as int, (self.0.element_count() + self.1.element_count() + self.2.element_count() + self.3.element_count() + self.4.element_count() + self.5.element_count()) as int) =~= a.subrange(c0 + (self.0.element_count() + self.1.element_count() + self.2.element_count() + self.3.element_count() + self.4.element_count()) as int, c0 + (self.0.element_count() + self.1.element_count() + self.2.element_count() + self.3.element_count() + self.4.element_count() + self.5.element_count()) as int));
            }
            lemma_kept_compose(a, c0, (self.0.element_count() + self.1.element_count() + self.2.element_count() + self.3.element_count() + self.4.element_count()), b5, cb5, self.5.element_count(), elements.items(), elements.cursor());
        }
        let ghost b6 = elements.items();
        let ghost cb6 = elements.cursor();
        proof {
            assert(b6.skip(cb6 as int).len() == a.skip((c0 + (self.0.element_count() + self.1.element_count() + self.2.element_count() + self.3.element_count() + self.4.element_count() + self.5.element_count())) as int).len());
        }
        self.6.seq_teardown(elements);
        proof {
            assert(self.6.seq_tears_down(region(a, c0, self.element_count()).subrange((self.0.element_count() + self.1.element_count() + self.2.element_count() + self.3.element_count() + self.4.element_count() + self.5.element_count()) as int, (self.0.element_count() + self.1.element_count() + self.2.element_count() + self.3.element_count() + self.4.element_count() + self.5.element_count() + self.6.element_count()) as int))) by {
                lemma_sub_shift(a, b6, (c0 + (self.0.element_count() + self.1.element_count() + self.2.element_count() + self.3.element_count() + self.4.element_count() + self.5.element_count())) as int, cb6 as int, self.6.element_count() as int);
                assert(region(a, c0, self.element_count()).subrange((self.0.element_count() + self.1.element_count() + self.2.element_count() + self.3.element_count() + self.4.element_count() + self.5.element_count()) as int, (self.0.element_count() + self.1.element_count() + self.2.element_count() + self.3.element_count() + self.4.element_count() + self.5.element_count() + self.6.element_count()) as int) =~= a.subrange(c0 + (self.0.element_count() + self.1.element_count() + self.2.element_count() + self.3.element_count() + self.4.element_count() + self.5.element_count()) as int, c0 + (self.0.element_count() + self.1.element_count() + self.2.element_count() + self.3.element_count() + self.4.element_count() + self.5.element_count() + self.6.element_count()) as int));
            }
            lemma_kept_compose(a, c0, (self.0.element_count() + self.1.element_count() + self.2.element_count() + self.3.element_count() + self.4.element_count() + self.5.element_count()), b6, cb6, self.6.element_count(), elements.items(), elements.cursor());
        }
        let ghost b7 = elements.items();
        let ghost cb7 = elements.cursor();
        proof {
            assert(b7.skip(cb7 as int).len() == a.skip((c0 + (self.0.element_count() + self.1.element_count() + self.2.element_count() + self.3.element_count() + self.4.element_count() + self.5.element_count() + self.6.element_count())) as int).len());
        }
        self.7.seq_teardown(elements);
        proof {
            assert(self.7.seq_tears_down(region(a, c0, self.element_count()).subrange((self.0.element_count() + self.1.element_count() + self.2.element_count() + self.3.element_count() + self.4.element_count() + self.5.element_count() + self.6.element_count()) as int, (self.0.element_count() + self.1.element_count() + self.2.element_count() + self.3.element_count() + self.4.element_count() + self.5.element_count() + self.6.element_count() + self.7.element_count()) as int))) by {
                lemma_sub_shift(a, b7, (c0 + (self.0.element_count() + self.1.element_count() + self.2.element_count() + self.3.element_count() + self.4.element_count() + self.5.element_count() + self.6.element_count())) as int, cb7 as int, self.7.element_count() as int);
                assert(region(a, c0, self.element_count()).subrange((self.0.element_count() + self.1.element_count() + self.2.element_count() + self.3.element_count() + self.4.element_count() + self.5.element_count() + self.6.element_count()) as int, (self.0.element_count() + self.1.element_count() + self.2.element_count() + self.3.element_count() + self.4.element_count() + self.5.element_count() + self.6.element_count() + self.7.element_count()) as int) =~= a.subrange(c0 + (self.0.element_count() + self.1.element_count() + self.2.element_count() + self.3.element_count() + self.4.element_count() + self.5.element_count() + self.6.element_count()) as int, c0 + (self.0.element_count() + self.1.element_count() + self.2.element_count() + self.3.element_count() + self.4.element_count() + self.5.element_count() + self.6.element_count() + self.7.element_count()) as int));
            }
            lemma_kept_compose(a, c0, (self.0.element_count() + self.1.element_count() + self.2.element_count() + self.3.element_count() + self.4.element_count() + self.5.element_count() + self.6.element_count()), b7, cb7, self.7.element_count(), elements.items(), elements.cursor());
        }
        let ghost b8 = elements.items();
        let ghost cb8 = elements.cursor();
        proof {
            assert(b8.skip(cb8 as int).len() == a.skip((c0 + (self.0.element_count() + self.1.element_count() + self.2.element_count() + self.3.element_count() + self.4.element_count() + self.5.element_count() + self.6.element_count() + self.7.element_count())) as int).len());
        }
        self.8.seq_teardown(elements);
        proof {
            assert(self.8.seq_tears_down(region(a, c0, self.element_count()).subrange((self.0.element_count() + self.1.element_count() + self.2.element_count() + self.3.element_count() + self.4.element_count() + self.5.element_count() + self.6.element_count() + self.7.element_count()) as int, (self.0.element_count() + self.1.element_count() + self.2.element_count() + self.3.element_count() + self.4.element_count() + self.5.element_count() + self.6.element_count() + self.7.element_count() + self.8.element_count()) as int))) by {
                lemma_sub_shift(a, b8, (c0 + (self.0.element_count() + self.1.element_count() + self.2.element_count() + self.3.element_count() + self.4.element_count() + self.5.element_count() + self.6.element_count() + self.7.element_count())) as int, cb8 as int, self.8.element_count() as int);
                assert(region(a, c0, self.element_count()).subrange((self.0.element_count() + self.1.element_count() + self.2.element_count() + self.3.element_count() + self.4.element_count() + self.5.element_count() + self.6.element_count() + self.7.element_count()) as int, (self.0.element_count() + self.1.element_count() + self.2.element_count() + self.3.element_count() + self.4.element_count() + self.5.element_count() + self.6.element_count() + self.7.element_count() + self.8.element_count()) as int) =~= a.subrange(c0 + (self.0.element_count() + self.1.element_count() + self.2.element_count() + self.3.element_count() + self.4.element_count() + self.5.element_count() + self.6.element_count() + self.7.element_count()) as int, c0 + (self.0.element_count() + self.1.element_count() + self.2.element_count() + self.3.element_count() + self.4.element_count() + self.5.element_count() + self.6.element_count() + self.7.element_count() + self.8.element_count()) as int));
            }
            lemma_kept_compose(a, c0, (self.0.element_count() + self.1.element_count() + self.2.element_count() + self.3.element_count() + self.4.element_count() + self.5.element_count() + self.6.element_count() + self.7.element_count()), b8, cb8, self.8.element_count(), elements.items(), elements.cursor());
        }
        let ghost b9 = elements.items();
        let ghost cb9 = elements.cursor();
        proof {
            assert(b9.skip(cb9 as int).len() == a.skip((c0 + (self.0.element_count() + self.1.element_count() + self.2.element_count() + self.3.element_count() + self.4.element_count() + self.5.element_count() + self.6.element_count() + self.7.element_count() + self.8.element_count())) as int).len());
        }
        self.9.seq_teardown(elements);
        proof {
            assert(self.9.seq_tears_down(region(a, c0, self.element_count()).subrange((self.0.element_count() + self.1.element_count() + self.2.element_count() + self.3.element_count() + self.4.element_count() + self.5.element_count() + self.6.element_count() + self.7.element_count() + self.8.element_count()) as int, (self.0.element_count() + self.1.element_count() + self.2.element_count() + self.3.element_count() + self.4.element_count() + self.5.element_count() + self.6.element_count() + self.7.element_count() + self.8.element_count() + self.9.element_count()) as int))) by {
                lemma_sub_shift(a, b9, (c0 + (self.0.element_count() + self.1.element_count() + self.2.element_count() + self.3.element_count() + self.4.element_count() + self.5.element_count() + self.6.element_count() + self.7.element_count() + self.8.element_count())) as int, cb9 as int, self.9.element_count() as int);
                assert(region(a, c0, self.element_count()).subrange((self.0.element_count() + self.1.element_count() + self.2.element_count() + self.3.element_count() + self.4.element_count() + self.5.element_count() + self.6.element_count() + self.7.element_count() + self.8.element_count()) as int, (self.0.element_count() + self.1.element_count() + self.2.element_count() + self.3.element_count() + self.4.element_count() + self.5.element_count() + self.6.element_count() + self.7.element_count() + self.8.element_count() + self.9.element_count()) as int) =~= a.subrange(c0 + (self.0.element_count() + self.1.element_count() + self.2.element_count() + self.3.element_count() + self.4.element_count() + self.5.element_count() + self.6.element_count() + self.7.element_count() + self.8.element_count()) as int, c0 + (self.0.element_count() + self.1.element_count() + self.2.element_count() + self.3.element_count() + self.4.element_count() + self.5.element_count() + self.6.element_count() + self.7.element_count() + self.8.element_count() + self.9.element_count()) as int));
            }
            lemma_kept_compose(a, c0, (self.0.element_count() + self.1.element_count() + self.2.element_count() + self.3.element_count() + self.4.element_count() + self.5.element_count() + self.6.element_count() + self.7.element_count() + self.8.element_count()), b9, cb9, self.9.element_count(), elements.items(), elements.cursor());
        }
        let ghost b10 = elements.items();
        let ghost cb10 = elements.cursor();
        proof {
            assert(b10.skip(cb10 as int).len() == a.skip((c0 + (self.0.element_count() + self.1.element_count() + self.2.element_count() + self.3.element_count() + self.4.element_count() + self.5.element_count() + self.6.element_count() + self.7.element_count() + self.8.element_count() + self.9.element_count())) as int).len());
        }
        self.10.seq_teardown(elements);
        proof {
            assert(self.10.seq_tears_down(region(a, c0, self.element_count()).subrange((self.0.element_count() + self.1.element_count() + self.2.element_count() + self.3.element_count() + self.4.element_count() + self.5.element_count() + self.6.element_count() + self.7.element_count() + self.8.element_count() + self.9.element_count()) as int, (self.0.element_count() + self.1.element_count() + self.2.element_count() + self.3.element_count() + self.4.element_count() + self.5.element_count() + self.6.element_count() + self.7.element_count() + self.8.element_count() + self.9.element_count() + self.10.element_count()) as int))) by {
                lemma_sub_shift(a, b10, (c0 + (self.0.element_count() + self.1.element_count() + self.2.element_count() + self.3.element_count() + self.4.element_count() + self.5.element_count() + self.6.element_count() + self.7.element_count() + self.8.element_count() + self.9.element_count())) as int, cb10 as int, self.10.element_count() as int);
                assert(region(a, c0, self.element_count()).subrange((self.0.element_count() + self.1.element_count() + self.2.element_count() + self.3.element_count() + self.4.element_count() + self.5.element_count() + self.6.element_count() + self.7.element_count() + self.8.element_count() + self.9.element_count()) as int, (self.0.element_count() + self.1.element_count() + self.2.element_count() + self.3.element_count() + self.4.element_count() + self.5.element_count() + self.6.element_count() + self.7.element_count() + self.8.element_count() + self.9.element_count() + self.10.element_count()) as int) =~= a.subrange(c0 + (self.0.element_count() + self.1.element_count() + self.2.element_count() + self.3.element_count() + self.4.element_count() + self.5.element_count() + self.6.element_count() + self.7.element_count() + self.8.element_count() + self.9.element_count()) as int, c0 + (self.0.element_count() + self.1.element_count() + self.2.element_count() + self.3.element_count() + self.4.element_count() + self.5.element_count() + self.6.element_count() + self.7.element_count() + self.8.element_count() + self.9.element_count() + self.10.element_count()) as int));
            }
            lemma_kept_compose(a, c0, (self.0.element_count() + self.1.element_count() + self.2.element_count() + self.3.element_count() + self.4.element_count() + self.5.element_count() + self.6.element_count() + self.7.element_count() + self.8.element_count() + self.9.element_count()), b10, cb10, self.10.element_count(), elements.items(), elements.cursor());
        }
    }
}

/// A tuple of 12 sequences builds the elements of each, in order.
impl<State, Element, S0, S1, S2, S3, S4, S5, S6, S7, S8, S9, S10, S11> ViewSequence<State, Element> for (S0, S1, S2, S3, S4, S5, S6, S7, S8, S9, S10, S11,) where
    S0: ViewSequence<State, Element>,
    S1: ViewSequence<State, Element>,
    S2: ViewSequence<State, Element>,
    S3: ViewSequence<State, Element>,
    S4: ViewSequence<State, Element>,
    S5: ViewSequence<State, Element>,
    S6: ViewSequence<State, Element>,
    S7: ViewSequence<State, Element>,
    S8: ViewSequence<State, Element>,
    S9: ViewSequence<State, Element>,
    S10: ViewSequence<State, Element>,
    S11: ViewSequence<State, Element>,
 {
    open spec fn element_count(&self) -> nat {
        self.0.element_count() + self.1.element_count() + self.2.element_count() + self.3.element_count() + self.4.element_count() + self.5.element_count() + self.6.element_count() + self.7.element_count() + self.8.element_count() + self.9.element_count() + self.10.element_count() + self.11.element_count()
    }

    open spec fn seq_builds(&self, out: Seq<Element>) -> bool {
        &&& out.len() == self.element_count()
        &&& self.0.seq_builds(out.subrange(0int, (self.0.element_count()) as int))
        &&& self.1.seq_builds(out.subrange((self.0.element_count()) as int, (self.0.element_count() + self.1.element_count()) as int))
        &&& self.2.seq_builds(out.subrange((self.0.element_count() + self.1.element_count()) as int, (self.0.element_count() + self.1.element_count() + self.2.element_count()) as int))
        &&& self.3.seq_builds(out.subrange((self.0.element_count() + self.1.element_count() + self.2.element_count()) as int, (self.0.element_count() + self.1.element_count() + self.2.element_count() + self.3.element_count()) as int))
        &&& self.4.seq_builds(out.subrange((self.0.element_count() + self.1.element_count() + self.2.element_count() + self.3.element_count()) as int, (self.0.element_count() + self.1.element_count() + self.2.element_count() + self.3.element_count() + self.4.element_count()) as int))
        &&& self.5.seq_builds(out.subrange((self.0.element_count() + self.1.element_count() + self.2.element_count() + self.3.element_count() + self.4.element_count()) as int, (self.0.element_count() + self.1.element_count() + self.2.element_count() + self.3.element_count() + self.4.element_count() + self.5.element_count()) as int))
        &&& self.6.seq_builds(out.subrange((self.0.element_count() + self.1.element_count() + self.2.element_count() + self.3.element_count() + self.4.element_count() + self.5.element_count()) as int, (self.0.element_count() + self.1.element_count() + self.2.element_count() + self.3.element_count() + self.4.element_count() + self.5.element_count() + self.6.element_count()) as int))
        &&& self.7.seq_builds(out.subrange((self.0.element_count() + self.1.element_count() + self.2.element_count() + self.3.element_count() + self.4.element_count() + self.5.element_count() + self.6.element_count()) as int, (self.0.element_count() + self.1.element_count() + self.2.element_count() + self.3.element_count() + self.4.element_count() + self.5.element_count() + self.6.element_count() + self.7.element_count()) as int))
        &&& self.8.seq_builds(out.subrange((self.0.element_count() + self.1.element_count() + self.2.element_count() + self.3.element_count() + self.4.element_count() + self.5.element_count() + self.6.element_count() + self.7.element_count()) as int, (self.0.element_count() + self.1.element_count() + self.2.element_count() + self.3.element_count() + self.4.element_count() + self.5.element_count() + self.6.element_count() + self.7.element_count() + self.8.element_count()) as int))
        &&& self.9.seq_builds(out.subrange((self.0.element_count() + self.1.element_count() + self.2.element_count() + self.3.element_count() + self.4.element_count() + self.5.element_count() + self.6.element_count() + self.7.element_count() + self.8.element_count()) as int, (self.0.element_count() + self.1.element_count() + self.2.element_count() + self.3.element_count() + self.4.element_count() + self.5.element_count() + self.6.element_count() + self.7.element_count() + self.8.element_count() + self.9.element_count()) as int))
        &&& self.10.seq_builds(out.subrange((self.0.element_count() + self.1.element_count() + self.2.element_count() + self.3.element_count() + self.4.element_count() + self.5.element_count() + self.6.element_count() + self.7.element_count() + self.8.element_count() + self.9.element_count()) as int, (self.0.element_count() + self.1.element_count() + self.2.element_count() + self.3.element_count() + self.4.element_count() + self.5.element_count() + self.6.element_count() + self.7.element_count() + self.8.element_count() + self.9.element_count() + self.10.element_count()) as int))
        &&& self.11.seq_builds(out.subrange((self.0.element_count() + self.1.element_count() + self.2.element_count() + self.3.element_count() + self.4.element_count() + self.5.element_count() + self.6.element_count() + self.7.element_count() + self.8.element_count() + self.9.element_count() + self.10.element_count()) as int, (self.0.element_count() + self.1.element_count() + self.2.element_count() + self.3.element_count() + self.4.element_count() + self.5.element_count() + self.6.element_count() + self.7.element_count() + self.8.element_count() + self.9.element_count() + self.10.element_count() + self.11.element_count()) as int))
    }

    open spec fn seq_rebuilds(&self, prev: &Self, before: Seq<Element>, after: Seq<Element>) -> bool {
        &&& before.len() == prev.element_count()
        &&& after.len() == self.element_count()
        &&& self.0.seq_rebuilds(
            &prev.0,
            before.subrange(0int, (prev.0.element_count()) as int),
            after.subrange(0int, (self.0.element_count()) as int),
        )
        &&& self.1.seq_rebuilds(
            &prev.1,
            before.subrange((prev.0.element_count()) as int, (prev.0.element_count() + prev.1.element_count()) as int),
            after.subrange((self.0.element_count()) as int, (self.0.element_count() + self.1.element_count()) as int),
        )
        &&& self.2.seq_rebuilds(
            &prev.2,
            before.subrange((prev.0.element_count() + prev.1.element_count()) as int, (prev.0.element_count() + prev.1.element_count() + prev.2.element_count()) as int),
            after.subrange((self.0.element_count() + self.1.element_count()) as int, (self.0.element_count() + self.1.element_count() + self.2.element_count()) as int),
        )
        &&& self.3.seq_rebuilds(
            &prev.3,
            before.subrange((prev.0.element_count() + prev.1.element_count() + prev.2.element_count()) as int, (prev.0.element_count() + prev.1.element_count() + prev.2.element_count() + prev.3.element_count()) as int),
            after.subrange((self.0.element_count() + self.1.element_count() + self.2.element_count()) as int, (self.0.element_count() + self.1.element_count() + self.2.element_count() + self.3.element_count()) as int),
        )
        &&& self.4.seq_rebuilds(
            &prev.4,
            before.subrange((prev.0.element_count() + prev.1.element_count() + prev.2.element_count() + prev.3.element_count()) as int, (prev.0.element_count() + prev.1.element_count() + prev.2.element_count() + prev.3.element_count() + prev.4.element_count()) as int),
            after.subrange((self.0.element_count() + self.1.element_count() + self.2.element_count() + self.3.element_count()) as int, (self.0.element_count() + self.1.element_count() + self.2.element_count() + self.3.element_count() + self.4.element_count()) as int),
        )
        &&& self.5.seq_rebuilds(
            &prev.5,
            before.subrange((prev.0.element_count() + prev.1.element_count() + prev.2.element_count() + prev.3.element_count() + prev.4.element_count()) as int, (prev.0.element_count() + prev.1.element_count() + prev.2.element_count() + prev.3.element_count() + prev.4.element_count() + prev.5.element_count()) as int),
            after.subrange((self.0.element_count() + self.1.element_count() + self.2.element_count() + self.3.element_count() + self.4.element_count()) as int, (self.0.element_count() + self.1.element_count() + self.2.element_count() + self.3.element_count() + self.4.element_count() + self.5.element_count()) as int),
        )
        &&& self.6.seq_rebuilds(
            &prev.6,
            before.subrange((prev.0.element_count() + prev.1.element_count() + prev.2.element_count() + prev.3.element_count() + prev.4.element_count() + prev.5.element_count()) as int, (prev.0.element_count() + prev.1.element_count() + prev.2.element_count() + prev.3.element_count() + prev.4.element_count() + prev.5.element_count() + prev.6.element_count()) as int),
            after.subrange((self.0.element_count() + self.1.element_count() + self.2.element_count() + self.3.element_count() + self.4.element_count() + self.5.element_count()) as int, (self.0.element_count() + self.1.element_count() + self.2.element_count() + self.3.element_count() + self.4.element_count() + self.5.element_count() + self.6.element_count()) as int),
        )
        &&& self.7.seq_rebuilds(
            &prev.7,
            before.subrange((prev.0.element_count() + prev.1.element_count() + prev.2.element_count() + prev.3.element_count() + prev.4.element_count() + prev.5.element_count() + prev.6.element_count()) as int, (prev.0.element_count() + prev.1.element_count() + prev.2.element_count() + prev.3.element_count() + prev.4.element_count() + prev.5.element_count() + prev.6.element_count() + prev.7.element_count()) as int),
            after.subrange((self.0.element_count() + self.1.element_count() + self.2.element_count() + self.3.element_count() + self.4.element_count() + self.5.element_count() + self.6.element_count()) as int, (self.0.element_count() + self.1.element_count() + self.2.element_count() + self.3.element_count() + self.4.element_count() + self.5.element_count() + self.6.element_count() + self.7.element_count()) as int),
        )
        &&& self.8.seq_rebuilds(
            &prev.8,
            before.subrange((prev.0.element_count() + prev.1.element_count() + prev.2.element_count() + prev.3.element_count() + prev.4.element_count() + prev.5.element_count() + prev.6.element_count() + prev.7.element_count()) as int, (prev.0.element_count() + prev.1.element_count() + prev.2.element_count() + prev.3.element_count() + prev.4.element_count() + prev.5.element_count() + prev.6.element_count() + prev.7.element_count() + prev.8.element_count()) as int),
            after.subrange((self.0.element_count() + self.1.element_count() + self.2.element_count() + self.3.element_count() + self.4.element_count() + self.5.element_count() + self.6.element_count() + self.7.element_count()) as int, (self.0.element_count() + self.1.element_count() + self.2.element_count() + self.3.element_count() + self.4.element_count() + self.5.element_count() + self.6.element_count() + self.7.element_count() + self.8.element_count()) as int),
        )
        &&& self.9.seq_rebuilds(
            &prev.9,
            before.subrange((prev.0.element_count() + prev.1.element_count() + prev.2.element_count() + prev.3.element_count() + prev.4.element_count() + prev.5.element_count() + prev.6.element_count() + prev.7.element_count() + prev.8.element_count()) as int, (prev.0.element_count() + prev.1.element_count() + prev.2.element_count() + prev.3.element_count() + prev.4.element_count() + prev.5.element_count() + prev.6.element_count() + prev.7.element_count() + prev.8.element_count() + prev.9.element_count()) as int),
            after.subrange((self.0.element_count() + self.1.element_count() + self.2.element_count() + self.3.element_count() + self.4.element_count() + self.5.element_count() + self.6.element_count() + self.7.element_count() + self.8.element_count()) as int, (self.0.element_count() + self.1.element_count() + self.2.element_count() + self.3.element_count() + self.4.element_count() + self.5.element_count() + self.6.element_count() + self.7.element_count() + self.8.element_count() + self.9.element_count()) as int),
        )
        &&& self.10.seq_rebuilds(
            &prev.10,
            before.subrange((prev.0.element_count() + prev.1.element_count() + prev.2.element_count() + prev.3.element_count() + prev.4.element_count() + prev.5.element_count() + prev.6.element_count() + prev.7.element_count() + prev.8.element_count() + prev.9.element_count()) as int, (prev.0.element_count() + prev.1.element_count() + prev.2.element_count() + prev.3.element_count() + prev.4.element_count() + prev.5.element_count() + prev.6.element_count() + prev.7.element_count() + prev.8.element_count() + prev.9.element_count() + prev.10.element_count()) as int),
            after.subrange((self.0.element_count() + self.1.element_count() + self.2.element_count() + self.3.element_count() + self.4.element_count() + self.5.element_count() + self.6.element_count() + self.7.element_count() + self.8.element_count() + self.9.element_count()) as int, (self.0.element_count() + self.1.element_count() + self.2.element_count() + self.3.element_count() + self.4.element_count() + self.5.element_count() + self.6.element_count() + self.7.element_count() + self.8.element_count() + self.9.element_count() + self.10.element_count()) as int),
        )
        &&& self.11.seq_rebuilds(
            &prev.11,
            before.subrange((prev.0.element_count() + prev.1.element_count() + prev.2.element_count() + prev.3.element_count() + prev.4.element_count() + prev.5.element_count() + prev.6.element_count() + prev.7.element_count() + prev.8.element_count() + prev.9.element_count() + prev.10.element_count()) as int, (prev.0.element_count() + prev.1.element_count() + prev.2.element_count() + prev.3.element_count() + prev.4.element_count() + prev.5.element_count() + prev.6.element_count() + prev.7.element_count() + prev.8.element_count() + prev.9.element_count() + prev.10.element_count() + prev.11.element_count()) as int),
            after.subrange((self.0.element_count() + self.1.element_count() + self.2.element_count() + self.3.element_count() + self.4.element_count() + self.5.element_count() + self.6.element_count() + self.7.element_count() + self.8.element_count() + self.9.element_count() + self.10.element_count()) as int, (self.0.element_count() + self.1.element_count() + self.2.element_count() + self.3.element_count() + self.4.element_count() + self.5.element_count() + self.6.element_count() + self.7.element_count() + self.8.element_count() + self.9.element_count() + self.10.element_count() + self.11.element_count()) as int),
        )
    }

    open spec fn seq_tears_down(&self, before: Seq<Element>) -> bool {
        &&& before.len() == self.element_count()
        &&& self.0.seq_tears_down(before.subrange(0int, (self.0.element_count()) as int))
        &&& self.1.seq_tears_down(before.subrange((self.0.element_count()) as int, (self.0.element_count() + self.1.element_count()) as int))
        &&& self.2.seq_tears_down(before.subrange((self.0.element_count() + self.1.element_count()) as int, (self.0.element_count() + self.1.element_count() + self.2.element_count()) as int))
        &&& self.3.seq_tears_down(before.subrange((self.0.element_count() + self.1.element_count() + self.2.element_count()) as int, (self.0.element_count() + self.1.element_count() + self.2.element_count() + self.3.element_count()) as int))
        &&& self.4.seq_tears_down(before.subrange((self.0.element_count() + self.1.element_count() + self.2.element_count() + self.3.element_count()) as int, (self.0.element_count() + self.1.element_count() + self.2.element_count() + self.3.element_count() + self.4.element_count()) as int))
        &&& self.5.seq_tears_down(before.subrange((self.0.element_count() + self.1.element_count() + self.2.element_count() + self.3.element_count() + self.4.element_count()) as int, (self.0.element_count() + self.1.element_count() + self.2.element_count() + self.3.element_count() + self.4.element_count() + self.5.element_count()) as int))
        &&& self.6.seq_tears_down(before.subrange((self.0.element_count() + self.1.element_count() + self.2.element_count() + self.3.element_count() + self.4.element_count() + self.5.element_count()) as int, (self.0.element_count() + self.1.element_count() + self.2.element_count() + self.3.element_count() + self.4.element_count() + self.5.element_count() + self.6.element_count()) as int))
        &&& self.7.seq_tears_down(before.subrange((self.0.element_count() + self.1.element_count() + self.2.element_count() + self.3.element_count() + self.4.element_count() + self.5.element_count() + self.6.element_count()) as int, (self.0.element_count() + self.1.element_count() + self.2.element_count() + self.3.element_count() + self.4.element_count() + self.5.element_count() + self.6.element_count() + self.7.element_count()) as int))
        &&& self.8.seq_tears_down(before.subrange((self.0.element_count() + self.1.element_count() + self.2.element_count() + self.3.element_count() + self.4.element_count() + self.5.element_count() + self.6.element_count() + self.7.element_count()) as int, (self.0.element_count() + self.1.element_count() + self.2.element_count() + self.3.element_count() + self.4.element_count() + self.5.element_count() + self.6.element_count() + self.7.element_count() + self.8.element_count()) as int))
        &&& self.9.seq_tears_down(before.subrange((self.0.element_count() + self.1.element_count() + self.2.element_count() + self.3.element_count() + self.4.element_count() + self.5.element_count() + self.6.element_count() + self.7.element_count() + self.8.element_count()) as int, (self.0.element_count() + self.1.element_count() + self.2.element_count() + self.3.element_count() + self.4.element_count() + self.5.element_count() + self.6.element_count() + self.7.element_count() + self.8.element_count() + self.9.element_count()) as int))
        &&& self.10.seq_tears_down(before.subrange((self.0.element_count() + self.1.element_count() + self.2.element_count() + self.3.element_count() + self.4.element_count() + self.5.element_count() + self.6.element_count() + self.7.element_count() + self.8.element_count() + self.9.element_count()) as int, (self.0.element_count() + self.1.element_count() + self.2.element_count() + self.3.element_count() + self.4.element_count() + self.5.element_count() + self.6.element_count() + self.7.element_count() + self.8.element_count() + self.9.element_count() + self.10.element_count()) as int))
        &&& self.11.seq_tears_down(before.subrange((self.0.element_count() + self.1.element_count() + self.2.element_count() + self.3.element_count() + self.4.element_count() + self.5.element_count() + self.6.element_count() + self.7.element_count() + self.8.element_count() + self.9.element_count() + self.10.element_count()) as int, (self.0.element_count() + self.1.element_count() + self.2.element_count() + self.3.element_count() + self.4.element_count() + self.5.element_count() + self.6.element_count() + self.7.element_count() + self.8.element_count() + self.9.element_count() + self.10.element_count() + self.11.element_count()) as int))
    }

    #[verifier::spinoff_prover]
    #[verifier::rlimit(100)]
    fn seq_build(&self, elements: &mut Vec<Element>) {
        let ghost start = elements@;
        let ghost sl = start.len() as int;
        let ghost b0 = elements@;
        self.0.seq_build(elements);
        let ghost f0 = elements@;
        let ghost b1 = elements@;
        self.1.seq_build(elements);
        let ghost f1 = elements@;
        proof {
            lemma_prefix_kept(start, b1, elements@);
        }
        let ghost b2 = elements@;
        self.2.seq_build(elements);
        let ghost f2 = elements@;
        proof {
            lemma_prefix_kept(start, b2, elements@);
        }
        let ghost b3 = elements@;
        self.3.seq_build(elements);
        let ghost f3 = elements@;
        proof {
            lemma_prefix_kept(start, b3, elements@);
        }
        let ghost b4 = elements@;
        self.4.seq_build(elements);
        let ghost f4 = elements@;
        proof {
            lemma_prefix_kept(start, b4, elements@);
        }
        let ghost b5 = elements@;
        self.5.seq_build(elements);
        let ghost f5 = elements@;
        proof {
            lemma_prefix_kept(start, b5, elements@);
        }
        let ghost b6 = elements@;
        self.6.seq_build(elements);
        let ghost f6 = elements@;
        proof {
            lemma_prefix_kept(start, b6, elements@);
        }
        let ghost b7 = elements@;
        self.7.seq_build(elements);
        let ghost f7 = elements@;
        proof {
            lemma_prefix_kept(start, b7, elements@);
        }
        let ghost b8 = elements@;
        self.8.seq_build(elements);
        let ghost f8 = elements@;
        proof {
            lemma_prefix_kept(start, b8, elements@);
        }
        let ghost b9 = elements@;
        self.9.seq_build(elements);
        let ghost f9 = elements@;
        proof {
            lemma_prefix_kept(start, b9, elements@);
        }
        let ghost b10 = elements@;
        self.10.seq_build(elements);
        let ghost f10 = elements@;
        proof {
            lemma_prefix_kept(start, b10, elements@);
        }
        let ghost b11 = elements@;
        self.11.seq_build(elements);
        let ghost f11 = elements@;
        proof {
            lemma_prefix_kept(start, b11, elements@);
        }
        proof {
            let fin = elements@;
            assert(fin.take(fin.len() as int) =~= f11.take(fin.len() as int));
            assert(f11.take(b11.len() as int) == b11);
            assert(b11.take(b11.len() as int) =~= b11);
            lemma_take_link(fin, f11, b11, b11.len() as int, fin.len() as int);
            assert(b10.take(b10.len() as int) =~= b10);
            lemma_take_link(fin, f10, b10, b10.len() as int, b11.len() as int);
            assert(b9.take(b9.len() as int) =~= b9);
            lemma_take_link(fin, f9, b9, b9.len() as int, b10.len() as int);
            assert(b8.take(b8.len() as int) =~= b8);
            lemma_take_link(fin, f8, b8, b8.len() as int, b9.len() as int);
            assert(b7.take(b7.len() as int) =~= b7);
            lemma_take_link(fin, f7, b7, b7.len() as int, b8.len() as int);
            assert(b6.take(b6.len() as int) =~= b6);
            lemma_take_link(fin, f6, b6, b6.len() as int, b7.len() as int);
            assert(b5.take(b5.len() as int) =~= b5);
            lemma_take_link(fin, f5, b5, b5.len() as int, b6.len() as int);
            assert(b4.take(b4.len() as int) =~= b4);
            lemma_take_link(fin, f4, b4, b4.len() as int, b5.len() as int);
            assert(b3.take(b3.len() as int) =~= b3);
            lemma_take_link(fin, f3, b3, b3.len() as int, b4.len() as int);
            assert(b2.take(b2.len() as int) =~= b2);
            lemma_take_link(fin, f2, b2, b2.len() as int, b3.len() as int);
            assert(b1.take(b1.len() as int) =~= b1);
            lemma_take_link(fin, f1, b1, b1.len() as int, b2.len() as int);
            assert(self.0.seq_builds(fin.skip(sl).subrange(0int, (self.0.element_count()) as int))) by {
                lemma_sub_stable(fin, f0, b1.len() as int, sl + 0int, sl + (self.0.element_count()) as int);
                assert(f0.skip(b0.len() as int) =~= f0.subrange(sl + 0int, sl + (self.0.element_count()) as int));
                assert(fin.skip(sl).subrange(0int, (self.0.element_count()) as int) =~= fin.subrange(sl + 0int, sl + (self.0.element_count()) as int));
            }
            assert(self.1.seq_builds(fin.skip(sl).subrange((self.0.element_count()) as int, (self.0.element_count() + self.1.element_count()) as int))) by {
                lemma_sub_stable(fin, f1, b2.len() as int, sl + (self.0.element_count()) as int, sl + (self.0.element_count() + self.1.element_count()) as int);
                assert(f1.skip(b1.len() as int) =~= f1.subrange(sl + (self.0.element_count()) as int, sl + (self.0.element_count() + self.1.element_count()) as int));
                assert(fin.skip(sl).subrange((self.0.element_count()) as int, (self.0.element_count() + self.1.element_count()) as int) =~= fin.subrange(sl + (self.0.element_count()) as int, sl + (self.0.element_count() + self.1.element_count()) as int));
            }
            assert(self.2.seq_builds(fin.skip(sl).subrange((self.0.element_count() + self.1.element_count()) as int, (self.0.element_count() + self.1.element_count() + self.2.element_count()) as int))) by {
                lemma_sub_stable(fin, f2, b3.len() as int, sl + (self.0.element_count() + self.1.element_count()) as int, sl + (self.0.element_count() + self.1.element_count() + self.2.element_count()) as int);
                assert(f2.skip(b2.len() as int) =~= f2.subrange(sl + (self.0.element_count() + self.1.element_count()) as int, sl + (self.0.element_count() + self.1.element_count() + self.2.element_count()) as int));
                assert(fin.skip(sl).subrange((self.0.element_count() + self.1.element_count()) as int, (self.0.element_count() + self.1.element_count() + self.2.element_count()) as int) =~= fin.subrange(sl + (self.0.element_count() + self.1.element_count()) as int, sl + (self.0.element_count() + self.1.element_count() + self.2.element_count()) as int));
            }
            assert(self.3.seq_builds(fin.skip(sl).subrange((self.0.element_count() + self.1.element_count() + self.2.element_count()) as int, (self.0.element_count() + self.1.element_count() + self.2.element_count() + self.3.element_count()) as int))) by {
                lemma_sub_stable(fin, f3, b4.len() as int, sl + (self.0.element_count() + self.1.element_count() + self.2.element_count()) as int, sl + (self.0.element_count() + self.1.element_count() + self.2.element_count() + self.3.element_count()) as int);
                assert(f3.skip(b3.len() as int) =~= f3.subrange(sl + (self.0.element_count() + self.1.element_count() + self.2.element_count()) as int, sl + (self.0.element_count() + self.1.element_count() + self.2.element_count() + self.3.element_count()) as int));
                assert(fin.skip(sl).subrange((self.0.element_count() + self.1.element_count() + self.2.element_count()) as int, (self.0.element_count() + self.1.element_count() + self.2.element_count() + self.3.element_count()) as int) =~= fin.subrange(sl + (self.0.element_count() + self.1.element_count() + self.2.element_count()) as int, sl + (self.0.element_count() + self.1.element_count() + self.2.element_count() + self.3.element_count()) as int));
            }
            assert(self.4.seq_builds(fin.skip(sl).subrange((self.0.element_count() + self.1.element_count() + self.2.element_count() + self.3.element_count()) as int, (self.0.element_count() + self.1.element_count() + self.2.element_count() + self.3.element_count() + self.4.element_count()) as int))) by {
                lemma_sub_stable(fin, f4, b5.len() as int, sl + (self.0.element_count() + self.1.element_count() + self.2.element_count() + self.3.element_count()) as int, sl + (self.0.element_count() + self.1.element_count() + self.2.element_count() + self.3.element_count() + self.4.element_count()) as int);
                assert(f4.skip(b4.len() as int) =~= f4.subrange(sl + (self.0.element_count() + self.1.element_count() + self.2.element_count() + self.3.element_count()) as int, sl + (self.0.element_count() + self.1.element_count() + self.2.element_count() + self.3.element_count() + self.4.element_count()) as int));
                assert(fin.skip(sl).subrange((self.0.element_count() + self.1.element_count() + self.2.element_count() + self.3.element_count()) as int, (self.0.element_count() + self.1.element_count() + self.2.element_count() + self.3.element_count() + self.4.element_count()) as int) =~= fin.subrange(sl + (self.0.element_count() + self.1.element_count() + self.2.element_count() + self.3.element_count()) as int, sl + (self.0.element_count() + self.1.element_count() + self.2.element_count() + self.3.element_count() + self.4.element_count()) as int));
            }
            assert(self.5.seq_builds(fin.skip(sl).subrange((self.0.element_count() + self.1.element_count() + self.2.element_count() + self.3.element_count() + self.4.element_count()) as int, (self.0.element_count() + self.1.element_count() + self.2.element_count() + self.3.element_count() + self.4.element_count() + self.5.element_count()) as int))) by {
                lemma_sub_stable(fin, f5, b6.len() as int, sl + (self.0.element_count() + self.1.element_count() + self.2.element_count() + self.3.element_count() + self.4.element_count()) as int, sl + (self.0.element_count() + self.1.element_count() + self.2.element_count() + self.3.element_count() + self.4.element_count() + self.5.element_count()) as int);
                assert(f5.skip(b5.len() as int) =~= f5.subrange(sl + (self.0.element_count() + self.1.element_count() + self.2.element_count() + self.3.element_count() + self.4.element_count()) as int, sl + (self.0.element_count() + self.1.element_count() + self.2.element_count() + self.3.element_count() + self.4.element_count() + self.5.element_count()) as int));
                assert(fin.skip(sl).subrange((self.0.element_count() + self.1.element_count() + self.2.element_count() + self.3.element_count() + self.4.element_count()) as int, (self.0.element_count() + self.1.element_count() + self.2.element_count() + self.3.element_count() + self.4.element_count() + self.5.element_count()) as int) =~= fin.subrange(sl + (self.0.element_count() + self.1.element_count() + self.2.element_count() + self.3.element_count() + self.4.element_count()) as int, sl + (self.0.element_count() + self.1.element_count() + self.2.element_count() + self.3.element_count() + self.4.element_count() + self.5.element_count()) as int));
            }
            assert(self.6.seq_builds(fin.skip(sl).subrange((self.0.element_count() + self.1.element_count() + self.2.element_count() + self.3.element_count() + self.4.element_count() + self.5.element_count()) as int, (self.0.element_count() + self.1.element_count() + self.2.element_count() + self.3.element_count() + self.4.element_count() + self.5.element_count() + self.6.element_count()) as int))) by {
                lemma_sub_stable(fin, f6, b7.len() as int, sl + (self.0.element_count() + self.1.element_count() + self.2.element_count() + self.3.element_count() + self.4.element_count() + self.5.element_count()) as int, sl + (self.0.element_count() + self.1.element_count() + self.2.element_count() + self.3.element_count() + self.4.element_count() + self.5.element_count() + self.6.element_count()) as int);
                assert(f6.skip(b6.len() as int) =~= f6.subrange(sl + (self.0.element_count() + self.1.element_count() + self.2.element_count() + self.3.element_count() + self.4.element_count() + self.5.element_count()) as int, sl + (self.0.element_count() + self.1.element_count() + self.2.element_count() + self.3.element_count() + self.4.element_count() + self.5.element_count() + self.6.element_count()) as int));
                assert(fin.skip(sl).subrange((self.0.element_count() + self.1.element_count() + self.2.element_count() + self.3.element_count() + self.4.element_count() + self.5.element_count()) as int, (self.0.element_count() + self.1.element_count() + self.2.element_count() + self.3.element_count() + self.4.element_count() + self.5.element_count() + self.6.element_count()) as int) =~= fin.subrange(sl + (self.0.element_count() + self.1.element_count() + self.2.element_count() + self.3.element_count() + self.4.element_count() + self.5.element_count()) as int, sl + (self.0.element_count() + self.1.element_count() + self.2.element_count() + self.3.element_count() + self.4.element_count() + self.5.element_count() + self.6.element_count()) as int));
            }
            assert(self.7.seq_builds(fin.skip(sl).subrange((self.0.element_count() + self.1.element_count() + self.2.element_count() + self.3.element_count() + self.4.element_count() + self.5.element_count() + self.6.element_count()) as int, (self.0.element_count() + self.1.element_count() + self.2.element_count() + self.3.element_count() + self.4.element_count() + self.5.element_count() + self.6.element_count() + self.7.element_count()) as int))) by {
                lemma_sub_stable(fin, f7, b8.len() as int, sl + (self.0.element_count() + self.1.element_count() + self.2.element_count() + self.3.element_count() + self.4.element_count() + self.5.element_count() + self.6.element_count()) as int, sl + (self.0.element_count() + self.1.element_count() + self.2.element_count() + self.3.element_count() + self.4.element_count() + self.5.element_count() + self.6.element_count() + self.7.element_count()) as int);
                assert(f7.skip(b7.len() as int) =~= f7.subrange(sl + (self.0.element_count() + self.1.element_count() + self.2.element_count() + self.3.element_count() + self.4.element_count() + self.5.element_count() + self.6.element_count()) as int, sl + (self.0.element_count() + self.1.element_count() + self.2.element_count() + self.3.element_count() + self.4.element_count() + self.5.element_count() + self.6.element_count() + self.7.element_count()) as int));
                assert(fin.skip(sl).subrange((self.0.element_count() + self.1.element_count() + self.2.element_count() + self.3.element_count() + self.4.element_count() + self.5.element_count() + self.6.element_count()) as int, (self.0.element_count() + self.1.element_count() + self.2.element_count() + self.3.element_count() + self.4.element_count() + self.5.element_count() + self.6.element_count() + self.7.element_count()) as int) =~= fin.subrange(sl + (self.0.element_count() + self.1.element_count() + self.2.element_count() + self.3.element_count() + self.4.element_count() + self.5.element_count() + self.6.element_count()) as int, sl + (self.0.element_count() + self.1.element_count() + self.2.element_count() + self.3.element_count() + self.4.element_count() + self.5.element_count() + self.6.element_count() + self.7.element_count()) as int));
            }
            assert(self.8.seq_builds(fin.skip(sl).subrange((self.0.element_count() + self.1.element_count() + self.2.element_count() + self.3.element_count() + self.4.element_count() + self.5.element_count() + self.6.element_count() + self.7.element_count()) as int, (self.0.element_count() + self.1.element_count() + self.2.element_count() + self.3.element_count() + self.4.element_count() + self.5.element_count() + self.6.element_count() + self.7.element_count() + self.8.element_count()) as int))) by {
                lemma_sub_stable(fin, f8, b9.len() as int, sl + (self.0.element_count() + self.1.element_count() + self.2.element_count() + self.3.element_count() + self.4.element_count() + self.5.element_count() + self.6.element_count() + self.7.element_count()) as int, sl + (self.0.element_count() + self.1.element_count() + self.2.element_count() + self.3.element_count() + self.4.element_count() + self.5.element_count() + self.6.element_count() + self.7.element_count() + self.8.element_count()) as int);
                assert(f8.skip(b8.len() as int) =~= f8.subrange(sl + (self.0.element_count() + self.1.element_count() + self.2.element_count() + self.3.element_count() + self.4.element_count() + self.5.element_count() + self.6.element_count() + self.7.element_count()) as int, sl + (self.0.element_count() + self.1.element_count() + self.2.element_count() + self.3.element_count() + self.4.element_count() + self.5.element_count() + self.6.element_count() + self.7.element_count() + self.8.element_count()) as int));
                assert(fin.skip(sl).subrange((self.0.element_count() + self.1.element_count() + self.2.element_count() + self.3.element_count() + self.4.element_count() + self.5.element_count() + self.6.element_count() + self.7.element_count()) as int, (self.0.element_count() + self.1.element_count() + self.2.element_count() + self.3.element_count() + self.4.element_count() + self.5.element_count() + self.6.element_count() + self.7.element_count() + self.8.element_count()) as int) =~= fin.subrange(sl + (self.0.element_count() + self.1.element_count() + self.2.element_count() + self.3.element_count() + self.4.element_count() + self.5.element_count() + self.6.element_count() + self.7.element_count()) as int, sl + (self.0.element_count() + self.1.element_count() + self.2.element_count() + self.3.element_count() + self.4.element_count() + self.5.element_count() + self.6.element_count() + self.7.element_count() + self.8.element_count()) as int));
            }
            assert(self.9.seq_builds(fin.skip(sl).subrange((self.0.element_count() + self.1.element_count() + self.2.element_count() + self.3.element_count() + self.4.element_count() + self.5.element_count() + self.6.element_count() + self.7.element_count() + self.8.element_count()) as int, (self.0.element_count() + self.1.element_count() + self.2.element_count() + self.3.element_count() + self.4.element_count() + self.5.element_count() + self.6.element_count() + self.7.element_count() + self.8.element_count() + self.9.element_count()) as int))) by {
                lemma_sub_stable(fin, f9, b10.len() as int, sl + (self.0.element_count() + self.1.element_count() + self.2.element_count() + self.3.element_count() + self.4.element_count() + self.5.element_count() + self.6.element_count() + self.7.element_count() + self.8.element_count()) as int, sl + (self.0.element_count() + self.1.element_count() + self.2.element_count() + self.3.element_count() + self.4.element_count() + self.5.element_count() + self.6.element_count() + self.7.element_count() + self.8.element_count() + self.9.element_count()) as int);
                assert(f9.skip(b9.len() as int) =~= f9.subrange(sl + (self.0.element_count() + self.1.element_count() + self.2.element_count() + self.3.element_count() + self.4.element_count() + self.5.element_count() + self.6.element_count() + self.7.element_count() + self.8.element_count()) as int, sl + (self.0.element_count() + self.1.element_count() + self.2.element_count() + self.3.element_count() + self.4.element_count() + self.5.element_count() + self.6.element_count() + self.7.element_count() + self.8.element_count() + self.9.element_count()) as int));
                assert(fin.skip(sl).subrange((self.0.element_count() + self.1.element_count() + self.2.element_count() + self.3.element_count() + self.4.element_count() + self.5.element_count() + self.6.element_count() + self.7.element_count() + self.8.element_count()) as int, (self.0.element_count() + self.1.element_count() + self.2.element_count() + self.3.element_count() + self.4.element_count() + self.5.element_count() + self.6.element_count() + self.7.element_count() + self.8.element_count() + self.9.element_count()) as int) =~= fin.subrange(sl + (self.0.element_count() + self.1.element_count() + self.2.element_count() + self.3.element_count() + self.4.element_count() + self.5.element_count() + self.6.element_count() + self.7.element_count() + self.8.element_count()) as int, sl + (self.0.element_count() + self.1.element_count() + self.2.element_count() + self.3.element_count() + self.4.element_count() + self.5.element_count() + self.6.element_count() + self.7.element_count() + self.8.element_count() + self.9.element_count()) as int));
            }
            assert(self.10.seq_builds(fin.skip(sl).subrange((self.0.element_count() + self.1.element_count() + self.2.element_count() + self.3.element_count() + self.4.element_count() + self.5.element_count() + self.6.element_count() + self.7.element_count() + self.8.element_count() + self.9.element_count()) as int, (self.0.element_count() + self.1.element_count() + self.2.element_count() + self.3.element_count() + self.4.element_count() + self.5.element_count() + self.6.element_count() + self.7.element_count() + self.8.element_count() + self.9.element_count() + self.10.element_count()) as int))) by {
                lemma_sub_stable(fin, f10, b11.len() as int, sl + (self.0.element_count() + self.1.element_count() + self.2.element_count() + self.3.element_count() + self.4.element_count() + self.5.element_count() + self.6.element_count() + self.7.element_count() + self.8.element_count() + self.9.element_count()) as int, sl + (self.0.element_count() + self.1.element_count() + self.2.element_count() + self.3.element_count() + self.4.element_count() + self.5.element_count() + self.6.element_count() + self.7.element_count() + self.8.element_count() + self.9.element_count() + self.10.element_count()) as int);
                assert(f10.skip(b10.len() as int) =~= f10.subrange(sl + (self.0.element_count() + self.1.element_count() + self.2.element_count() + self.3.element_count() + self.4.element_count() + self.5.element_count() + self.6.element_count() + self.7.element_count() + self.8.element_count() + self.9.element_count()) as int, sl + (self.0.element_count() + self.1.element_count() + self.2.element_count() + self.3.element_count() + self.4.element_count() + self.5.element_count() + self.6.element_count() + self.7.element_count() + self.8.element_count() + self.9.element_count() + self.10.element_count()) as int));
                assert(fin.skip(sl).subrange((self.0.element_count() + self.1.element_count() + self.2.element_count() + self.3.element_count() + self.4.element_count() + self.5.element_count() + self.6.element_count() + self.7.element_count() + self.8.element_count() + self.9.element_count()) as int, (self.0.element_count() + self.1.element_count() + self.2.element_count() + self.3.element_count() + self.4.element_count() + self.5.element_count() + self.6.element_count() + self.7.element_count() + self.8.element_count() + self.9.element_count() + self.10.element_count()) as int) =~= fin.subrange(sl + (self.0.element_count() + self.1.element_count() + self.2.element_count() + self.3.element_count() + self.4.element_count() + self.5.element_count() + self.6.element_count() + self.7.element_count() + self.8.element_count() + self.9.element_count()) as int, sl + (self.0.element_count() + self.1.element_count() + self.2.element_count() + self.3.element_count() + self.4.element_count() + self.5.element_count() + self.6.element_count() + self.7.element_count() + self.8.element_count() + self.9.element_count() + self.10.element_count()) as int));
            }
            assert(self.11.seq_builds(fin.skip(sl).subrange((self.0.element_count() + self.1.element_count() + self.2.element_count() + self.3.element_count() + self.4.element_count() + self.5.element_count() + self.6.element_count() + self.7.element_count() + self.8.element_count() + self.9.element_count() + self.10.element_count()) as int, (self.0.element_count() + self.1.element_count() + self.2.element_count() + self.3.element_count() + self.4.element_count() + self.5.element_count() + self.6.element_count() + self.7.element_count() + self.8.element_count() + self.9.element_count() + self.10.element_count() + self.11.element_count()) as int))) by {
                assert(f11.skip(b11.len() as int) =~= f11.subrange(sl + (self.0.element_count() + self.1.element_count() + self.2.element_count() + self.3.element_count() + self.4.element_count() + self.5.element_count() + self.6.element_count() + self.7.element_count() + self.8.element_count() + self.9.element_count() + self.10.element_count()) as int, sl + (self.0.element_count() + self.1.element_count() + self.2.element_count() + self.3.element_count() + self.4.element_count() + self.5.element_count() + self.6.element_count() + self.7.element_count() + self.8.element_count() + self.9.element_count() + self.10.element_count() + self.11.element_count()) as int));
                assert(fin.skip(sl).subrange((self.0.element_count() + self.1.element_count() + self.2.element_count() + self.3.element_count() + self.4.element_count() + self.5.element_count() + self.6.element_count() + self.7.element_count() + self.8.element_count() + self.9.element_count() + self.10.element_count()) as int, (self.0.element_count() + self.1.element_count() + self.2.element_count() + self.3.element_count() + self.4.element_count() + self.5.element_count() + self.6.element_count() + self.7.element_count() + self.8.element_count() + self.9.element_count() + self.10.element_count() + self.11.element_count()) as int) =~= fin.subrange(sl + (self.0.element_count() + self.1.element_count() + self.2.element_count() + self.3.element_count() + self.4.element_count() + self.5.element_count() + self.6.element_count() + self.7.element_count() + self.8.element_count() + self.9.element_count() + self.10.element_count()) as int, sl + (self.0.element_count() + self.1.element_count() + self.2.element_count() + self.3.element_count() + self.4.element_count() + self.5.element_count() + self.6.element_count() + self.7.element_count() + self.8.element_count() + self.9.element_count() + self.10.element_count() + self.11.element_count()) as int));
            }
        }
    }

    #[verifier::spinoff_prover]
    #[verifier::rlimit(100)]
    fn seq_rebuild<Splice: ElementSplice<Element>>(&self, prev: &Self, elements: &mut Splice) {
        let ghost a = elements.items();
        let ghost c0 = elements.cursor();
        proof {
            lemma_kept_refl(a, c0);
        }
        let ghost b0 = elements.items();
        let ghost cb0 = elements.cursor();
        proof {
            assert(b0.skip(cb0 as int).len() == a.skip((c0 + 0) as int).len());
        }
        self.0.seq_rebuild(&prev.0, elements);
        let ghost f0 = elements.items();
        proof {
            assert(self.0.seq_rebuilds(
                &prev.0,
                a.subrange(c0 + 0int, c0 + (prev.0.element_count()) as int),
                f0.subrange(cb0 as int, (cb0 + self.0.element_count()) as int),
            )) by {
                lemma_sub_shift(a, b0, (c0 + 0) as int, cb0 as int, prev.0.element_count() as int);
            }
            lemma_kept_compose(a, c0, 0, b0, cb0, prev.0.element_count(), elements.items(), elements.cursor());
        }
        let ghost b1 = elements.items();
        let ghost cb1 = elements.cursor();
        proof {
            assert(b1.skip(cb1 as int).len() == a.skip((c0 + (prev.0.element_count())) as int).len());
        }
        self.1.seq_rebuild(&prev.1, elements);
        let ghost f1 = elements.items();
        proof {
            assert(self.1.seq_rebuilds(
                &prev.1,
                a.subrange(c0 + (prev.0.element_count()) as int, c0 + (prev.0.element_count() + prev.1.element_count()) as int),
                f1.subrange(cb1 as int, (cb1 + self.1.element_count()) as int),
            )) by {
                lemma_sub_shift(a, b1, (c0 + (prev.0.element_count())) as int, cb1 as int, prev.1.element_count() as int);
            }
            lemma_kept_compose(a, c0, (prev.0.element_count()), b1, cb1, prev.1.element_count(), elements.items(), elements.cursor());
        }
        let ghost b2 = elements.items();
        let ghost cb2 = elements.cursor();
        proof {
            assert(b2.skip(cb2 as int).len() == a.skip((c0 + (prev.0.element_count() + prev.1.element_count())) as int).len());
        }
        self.2.seq_rebuild(&prev.2, elements);
        let ghost f2 = elements.items();
        proof {
            assert(self.2.seq_rebuilds(
                &prev.2,
                a.subrange(c0 + (prev.0.element_count() + prev.1.element_count()) as int, c0 + (prev.0.element_count() + prev.1.element_count() + prev.2.element_count()) as int),
                f2.subrange(cb2 as int, (cb2 + self.2.element_count()) as int),
            )) by {
                lemma_sub_shift(a, b2, (c0 + (prev.0.element_count() + prev.1.element_count())) as int, cb2 as int, prev.2.element_count() as int);
            }
            lemma_kept_compose(a, c0, (prev.0.element_count() + prev.1.element_count()), b2, cb2, prev.2.element_count(), elements.items(), elements.cursor());
        }
        let ghost b3 = elements.items();
        let ghost cb3 = elements.cursor();
        proof {
            assert(b3.skip(cb3 as int).len() == a.skip((c0 + (prev.0.element_count() + prev.1.element_count() + prev.2.element_count())) as int).len());
        }
        self.3.seq_rebuild(&prev.3, elements);
        let ghost f3 = elements.items();
        proof {
            assert(self.3.seq_rebuilds(
                &prev.3,
                a.subrange(c0 + (prev.0.element_count() + prev.1.element_count() + prev.2.element_count()) as int, c0 + (prev.0.element_count() + prev.1.element_count() + prev.2.element_count() + prev.3.element_count()) as int),
                f3.subrange(cb3 as int, (cb3 + self.3.element_count()) as int),
            )) by {
                lemma_sub_shift(a, b3, (c0 + (prev.0.element_count() + prev.1.element_count() + prev.2.element_count())) as int, cb3 as int, prev.3.element_count() as int);
            }
            lemma_kept_compose(a, c0, (prev.0.element_count() + prev.1.element_count() + prev.2.element_count()), b3, cb3, prev.3.element_count(), elements.items(), elements.cursor());
        }
        let ghost b4 = elements.items();
        let ghost cb4 = elements.cursor();
        proof {
            assert(b4.skip(cb4 as int).len() == a.skip((c0 + (prev.0.element_count() + prev.1.element_count() + prev.2.element_count() + prev.3.element_count())) as int).len());
        }
        self.4.seq_rebuild(&prev.4, elements);
        let ghost f4 = elements.items();
        proof {
            assert(self.4.seq_rebuilds(
                &prev.4,
                a.subrange(c0 + (prev.0.element_count() + prev.1.element_count() + prev.2.element_count() + prev.3.element_count()) as int, c0 + (prev.0.element_count() + prev.1.element_count() + prev.2.element_count() + prev.3.element_count() + prev.4.element_count()) as int),
                f4.subrange(cb4 as int, (cb4 + self.4.element_count()) as int),
            )) by {
                lemma_sub_shift(a, b4, (c0 + (prev.0.element_count() + prev.1.element_count() + prev.2.element_count() + prev.3.element_count())) as int, cb4 as int, prev.4.element_count() as int);
            }
            lemma_kept_compose(a, c0, (prev.0.element_count() + prev.1.element_count() + prev.2.element_count() + prev.3.element_count()), b4, cb4, prev.4.element_count(), elements.items(), elements.cursor());
        }
        let ghost b5 = elements.items();
        let ghost cb5 = elements.cursor();
        proof {
            assert(b5.skip(cb5 as int).len() == a.skip((c0 + (prev.0.element_count() + prev.1.element_count() + prev.2.element_count() + prev.3.element_count() + prev.4.element_count())) as int).len());
        }
        self.5.seq_rebuild(&prev.5, elements);
        let ghost f5 = elements.items();
        proof {
            assert(self.5.seq_rebuilds(
                &prev.5,
                a.subrange(c0 + (prev.0.element_count() + prev.1.element_count() + prev.2.element_count() + prev.3.element_count() + prev.4.element_count()) as int, c0 + (prev.0.element_count() + prev.1.element_count() + prev.2.element_count() + prev.3.element_count() + prev.4.element_count() + prev.5.element_count()) as int),
                f5.subrange(cb5 as int, (cb5 + self.5.element_count()) as int),
            )) by {
                lemma_sub_shift(a, b5, (c0 + (prev.0.element_count() + prev.1.element_count() + prev.2.element_count() + prev.3.element_count() + prev.4.element_count())) as int, cb5 as int, prev.5.element_count() as int);
            }
            lemma_kept_compose(a, c0, (prev.0.element_count() + prev.1.element_count() + prev.2.element_count() + prev.3.element_count() + prev.4.element_count()), b5, cb5, prev.5.element_count(), elements.items(), elements.cursor());
        }
        let ghost b6 = elements.items();
        let ghost cb6 = elements.cursor();
        proof {
            assert(b6.skip(cb6 as int).len() == a.skip((c0 + (prev.0.element_count() + prev.1.element_count() + prev.2.element_count() + prev.3.element_count() + prev.4.element_count() + prev.5.element_count())) as int).len());
        }
        self.6.seq_rebuild(&prev.6, elements);
        let ghost f6 = elements.items();
        proof {
            assert(self.6.seq_rebuilds(
                &prev.6,
                a.subrange(c0 + (prev.0.element_count() + prev.1.element_count() + prev.2.element_count() + prev.3.element_count() + prev.4.element_count() + prev.5.element_count()) as int, c0 + (prev.0.element_count() + prev.1.element_count() + prev.2.element_count() + prev.3.element_count() + prev.4.element_count() + prev.5.element_count() + prev.6.element_count()) as int),
                f6.subrange(cb6 as int, (cb6 + self.6.element_count()) as int),
            )) by {
                lemma_sub_shift(a, b6, (c0 + (prev.0.element_count() + prev.1.element_count() + prev.2.element_count() + prev.3.element_count() + prev.4.element_count() + prev.5.element_count())) as int, cb6 as int, prev.6.element_count() as int);
            }
            lemma_kept_compose(a, c0, (prev.0.element_count() + prev.1.element_count() + prev.2.element_count() + prev.3.element_count() + prev.4.element_count() + prev.5.element_count()), b6, cb6, prev.6.element_count(), elements.items(), elements.cursor());
        }
        let ghost b7 = elements.items();
        let ghost cb7 = elements.cursor();
        proof {
            assert(b7.skip(cb7 as int).len() == a.skip((c0 + (prev.0.element_count() + prev.1.element_count() + prev.2.element_count() + prev.3.element_count() + prev.4.element_count() + prev.5.element_count() + prev.6.element_count())) as int).len());
        }
        self.7.seq_rebuild(&prev.7, elements);
        let ghost f7 = elements.items();
        proof {
            assert(self.7.seq_rebuilds(
                &prev.7,
                a.subrange(c0 + (prev.0.element_count() + prev.1.element_count() + prev.2.element_count() + prev.3.element_count() + prev.4.element_count() + prev.5.element_count() + prev.6.element_count()) as int, c0 + (prev.0.element_count() + prev.1.element_count() + prev.2.element_count() + prev.3.element_count() + prev.4.element_count() + prev.5.element_count() + prev.6.element_count() + prev.7.element_count()) as int),
                f7.subrange(cb7 as int, (cb7 + self.7.element_count()) as int),
            )) by {
                lemma_sub_shift(a, b7, (c0 + (prev.0.element_count() + prev.1.element_count() + prev.2.element_count() + prev.3.element_count() + prev.4.element_count() + prev.5.element_count() + prev.6.element_count())) as int, cb7 as int, prev.7.element_count() as int);
            }
            lemma_kept_compose(a, c0, (prev.0.element_count() + prev.1.element_count() + prev.2.element_count() + prev.3.element_count() + prev.4.element_count() + prev.5.element_count() + prev.6.element_count()), b7, cb7, prev.7.element_count(), elements.items(), elements.cursor());
        }
        let ghost b8 = elements.items();
        let ghost cb8 = elements.cursor();
        proof {
            assert(b8.skip(cb8 as int).len() == a.skip((c0 + (prev.0.element_count() + prev.1.element_count() + prev.2.element_count() + prev.3.element_count() + prev.4.element_count() + prev.5.element_count() + prev.6.element_count() + prev.7.element_count())) as int).len());
        }
        self.8.seq_rebuild(&prev.8, elements);
        let ghost f8 = elements.items();
        proof {
            assert(self.8.seq_rebuilds(
                &prev.8,
                a.subrange(c0 + (prev.0.element_count() + prev.1.element_count() + prev.2.element_count() + prev.3.element_count() + prev.4.element_count() + prev.5.element_count() + prev.6.element_count() + prev.7.element_count()) as int, c0 + (prev.0.element_count() + prev.1.element_count() + prev.2.element_count() + prev.3.element_count() + prev.4.element_count() + prev.5.element_count() + prev.6.element_count() + prev.7.element_count() + prev.8.element_count()) as int),
                f8.subrange(cb8 as int, (cb8 + self.8.element_count()) as int),
            )) by {
                lemma_sub_shift(a, b8, (c0 + (prev.0.element_count() + prev.1.element_count() + prev.2.element_count() + prev.3.element_count() + prev.4.element_count() + prev.5.element_count() + prev.6.element_count() + prev.7.element_count())) as int, cb8 as int, prev.8.element_count() as int);
            }
            lemma_kept_compose(a, c0, (prev.0.element_count() + prev.1.element_count() + prev.2.element_count() + prev.3.element_count() + prev.4.element_count() + prev.5.element_count() + prev.6.element_count() + prev.7.element_count()), b8, cb8, prev.8.element_count(), elements.items(), elements.cursor());
        }
        let ghost b9 = elements.items();
        let ghost cb9 = elements.cursor();
        proof {
            assert(b9.skip(cb9 as int).len() == a.skip((c0 + (prev.0.element_count() + prev.1.element_count() + prev.2.element_count() + prev.3.element_count() + prev.4.element_count() + prev.5.element_count() + prev.6.element_count() + prev.7.element_count() + prev.8.element_count())) as int).len());
        }
        self.9.seq_rebuild(&prev.9, elements);
        let ghost f9 = elements.items();
        proof {
            assert(self.9.seq_rebuilds(
                &prev.9,
                a.subrange(c0 + (prev.0.element_count() + prev.1.element_count() + prev.2.element_count() + prev.3.element_count() + prev.4.element_count() + prev.5.element_count() + prev.6.element_count() + prev.7.element_count() + prev.8.element_count()) as int, c0 + (prev.0.element_count() + prev.1.element_count() + prev.2.element_count() + prev.3.element_count() + prev.4.element_count() + prev.5.element_count() + prev.6.element_count() + prev.7.element_count() + prev.8.element_count() + prev.9.element_count()) as int),
                f9.subrange(cb9 as int, (cb9 + self.9.element_count()) as int),
            )) by {
                lemma_sub_shift(a, b9, (c0 + (prev.0.element_count() + prev.1.element_count() + prev.2.element_count() + prev.3.element_count() + prev.4.element_count() + prev.5.element_count() + prev.6.element_count() + prev.7.element_count() + prev.8.element_count())) as int, cb9 as int, prev.9.element_count() as int);
            }
            lemma_kept_compose(a, c0, (prev.0.element_count() + prev.1.element_count() + prev.2.element_count() + prev.3.element_count() + prev.4.element_count() + prev.5.element_count() + prev.6.element_count() + prev.7.element_count() + prev.8.element_count()), b9, cb9, prev.9.element_count(), elements.items(), elements.cursor());
        }
        let ghost b10 = elements.items();
        let ghost cb10 = elements.cursor();
        proof {
            assert(b10.skip(cb10 as int).len() == a.skip((c0 + (prev.0.element_count() + prev.1.element_count() + prev.2.element_count() + prev.3.element_count() + prev.4.element_count() + prev.5.element_count() + prev.6.element_count() + prev.7.element_count() + prev.8.element_count() + prev.9.element_count())) as int).len());
        }
        self.10.seq_rebuild(&prev.10, elements);
        let ghost f10 = elements.items();
        proof {
            assert(self.10.seq_rebuilds(
                &prev.10,
                a.subrange(c0 + (prev.0.element_count() + prev.1.element_count() + prev.2.element_count() + prev.3.element_count() + prev.4.element_count() + prev.5.element_count() + prev.6.element_count() + prev.7.element_count() + prev.8.element_count() + prev.9.element_count()) as int, c0 + (prev.0.element_count() + prev.1.element_count() + prev.2.element_count() + prev.3.element_count() + prev.4.element_count() + prev.5.element_count() + prev.6.element_count() + prev.7.element_count() + prev.8.element_count() + prev.9.element_count() + prev.10.element_count()) as int),
                f10.subrange(cb10 as int, (cb10 + self.10.element_count()) as int),
            )) by {
                lemma_sub_shift(a, b10, (c0 + (prev.0.element_count() + prev.1.element_count() + prev.2.element_count() + prev.3.element_count() + prev.4.element_count() + prev.5.element_count() + prev.6.element_count() + prev.7.element_count() + prev.8.element_count() + prev.9.element_count())) as int, cb10 as int, prev.10.element_count() as int);
            }
            lemma_kept_compose(a, c0, (prev.0.element_count() + prev.1.element_count() + prev.2.element_count() + prev.3.element_count() + prev.4.element_count() + prev.5.element_count() + prev.6.element_count() + prev.7.element_count() + prev.8.element_count() + prev.9.element_count()), b10, cb10, prev.10.element_count(), elements.items(), elements.cursor());
        }
        let ghost b11 = elements.items();
        let ghost cb11 = elements.cursor();
        proof {
            assert(b11.skip(cb11 as int).len() == a.skip((c0 + (prev.0.element_count() + prev.1.element_count() + prev.2.element_count() + prev.3.element_count() + prev.4.element_count() + prev.5.element_count() + prev.6.element_count() + prev.7.element_count() + prev.8.element_count() + prev.9.element_count() + prev.10.element_count())) as int).len());
        }
        self.11.seq_rebuild(&prev.11, elements);
        let ghost f11 = elements.items();
        proof {
            assert(self.11.seq_rebuilds(
                &prev.11,
                a.subrange(c0 + (prev.0.element_count() + prev.1.element_count() + prev.2.element_count() + prev.3.element_count() + prev.4.element_count() + prev.5.element_count() + prev.6.element_count() + prev.7.element_count() + prev.8.element_count() + prev.9.element_count() + prev.10.element_count()) as int, c0 + (prev.0.element_count() + prev.1.element_count() + prev.2.element_count() + prev.3.element_count() + prev.4.element_count() + prev.5.element_count() + prev.6.element_count() + prev.7.element_count() + prev.8.element_count() + prev.9.element_count() + prev.10.element_count() + prev.11.element_count()) as int),
                f11.subrange(cb11 as int, (cb11 + self.11.element_count()) as int),
            )) by {
                lemma_sub_shift(a, b11, (c0 + (prev.0.element_count() + prev.1.element_count() + prev.2.element_count() + prev.3.element_count() + prev.4.element_count() + prev.5.element_count() + prev.6.element_count() + prev.7.element_count() + prev.8.element_count() + prev.9.element_count() + prev.10.element_count())) as int, cb11 as int, prev.11.element_count() as int);
            }
            lemma_kept_compose(a, c0, (prev.0.element_count() + prev.1.element_count() + prev.2.element_count() + prev.3.element_count() + prev.4.element_count() + prev.5.element_count() + prev.6.element_count() + prev.7.element_count() + prev.8.element_count() + prev.9.element_count() + prev.10.element_count()), b11, cb11, prev.11.element_count(), elements.items(), elements.cursor());
        }
        let ghost ce = elements.cursor();
        proof {
            let fin = elements.items();
            assert(fin.take(ce as int) =~= f11.take(ce as int));
            lemma_take_link(fin, f11, f10, cb11 as int, ce as int);
            lemma_take_link(fin, f10, f9, cb10 as int, cb11 as int);
            lemma_take_link(fin, f9, f8, cb9 as int, cb10 as int);
            lemma_take_link(fin, f8, f7, cb8 as int, cb9 as int);
            lemma_take_link(fin, f7, f6, cb7 as int, cb8 as int);
            lemma_take_link(fin, f6, f5, cb6 as int, cb7 as int);
            lemma_take_link(fin, f5, f4, cb5 as int, cb6 as int);
            lemma_take_link(fin, f4, f3, cb4 as int, cb5 as int);
            lemma_take_link(fin, f3, f2, cb3 as int, cb4 as int);
            lemma_take_link(fin, f2, f1, cb2 as int, cb3 as int);
            lemma_take_link(fin, f1, f0, cb1 as int, cb2 as int);
            assert(self.0.seq_rebuilds(
                &prev.0,
                region(a, c0, prev.element_count()).subrange(0int, (prev.0.element_count()) as int),
                region(fin, c0, self.element_count()).subrange(0int, (self.0.element_count()) as int),
            )) by {
                lemma_sub_stable(fin, f0, cb1 as int, cb0 as int, cb1 as int);
                assert(region(fin, c0, self.element_count()).subrange(0int, (self.0.element_count()) as int) =~= fin.subrange(cb0 as int, cb1 as int));
                assert(region(a, c0, prev.element_count()).subrange(0int, (prev.0.element_count()) as int) =~= a.subrange(c0 + 0int, c0 + (prev.0.element_count()) as int));
            }
            assert(self.1.seq_rebuilds(
                &prev.1,
                region(a, c0, prev.element_count()).subrange((prev.0.element_count()) as int, (prev.0.element_count() + prev.1.element_count()) as int),
                region(fin, c0, self.element_count()).subrange((self.0.element_count()) as int, (self.0.element_count() + self.1.element_count()) as int),
            )) by {
                lemma_sub_stable(fin, f1, cb2 as int, cb1 as int, cb2 as int);
                assert(region(fin, c0, self.element_count()).subrange((self.0.element_count()) as int, (self.0.element_count() + self.1.element_count()) as int) =~= fin.subrange(cb1 as int, cb2 as int));
                assert(region(a, c0, prev.element_count()).subrange((prev.0.element_count()) as int, (prev.0.element_count() + prev.1.element_count()) as int) =~= a.subrange(c0 + (prev.0.element_count()) as int, c0 + (prev.0.element_count() + prev.1.element_count()) as int));
            }
            assert(self.2.seq_rebuilds(
                &prev.2,
                region(a, c0, prev.element_count()).subrange((prev.0.element_count() + prev.1.element_count()) as int, (prev.0.element_count() + prev.1.element_count() + prev.2.element_count()) as int),
                region(fin, c0, self.element_count()).subrange((self.0.element_count() + self.1.element_count()) as int, (self.0.element_count() + self.1.element_count() + self.2.element_count()) as int),
            )) by {
                lemma_sub_stable(fin, f2, cb3 as int, cb2 as int, cb3 as int);
                assert(region(fin, c0, self.element_count()).subrange((self.0.element_count() + self.1.element_count()) as int, (self.0.element_count() + self.1.element_count() + self.2.element_count()) as int) =~= fin.subrange(cb2 as int, cb3 as int));
                assert(region(a, c0, prev.element_count()).subrange((prev.0.element_count() + prev.1.element_count()) as int, (prev.0.element_count() + prev.1.element_count() + prev.2.element_count()) as int) =~= a.subrange(c0 + (prev.0.element_count() + prev.1.element_count()) as int, c0 + (prev.0.element_count() + prev.1.element_count() + prev.2.element_count()) as int));
            }
            assert(self.3.seq_rebuilds(
                &prev.3,
                region(a, c0, prev.element_count()).subrange((prev.0.element_count() + prev.1.element_count() + prev.2.element_count()) as int, (prev.0.element_count() + prev.1.element_count() + prev.2.element_count() + prev.3.element_count()) as int),
                region(fin, c0, self.element_count()).subrange((self.0.element_count() + self.1.element_count() + self.2.element_count()) as int, (self.0.element_count() + self.1.element_count() + self.2.element_count() + self.3.element_count()) as int),
            )) by {
                lemma_sub_stable(fin, f3, cb4 as int, cb3 as int, cb4 as int);
                assert(region(fin, c0, self.element_count()).subrange((self.0.element_count() + self.1.element_count() + self.2.element_count()) as int, (self.0.element_count() + self.1.element_count() + self.2.element_count() + self.3.element_count()) as int) =~= fin.subrange(cb3 as int, cb4 as int));
                assert(region(a, c0, prev.element_count()).subrange((prev.0.element_count() + prev.1.element_count() + prev.2.element_count()) as int, (prev.0.element_count() + prev.1.element_count() + prev.2.element_count() + prev.3.element_count()) as int) =~= a.subrange(c0 + (prev.0.element_count() + prev.1.element_count() + prev.2.element_count()) as int, c0 + (prev.0.element_count() + prev.1.element_count() + prev.2.element_count() + prev.3.element_count()) as int));
            }
            assert(self.4.seq_rebuilds(
                &prev.4,
                region(a, c0, prev.element_count()).subrange((prev.0.element_count() + prev.1.element_count() + prev.2.element_count() + prev.3.element_count()) as int, (prev.0.element_count() + prev.1.element_count() + prev.2.element_count() + prev.3.element_count() + prev.4.element_count()) as int),
                region(fin, c0, self.element_count()).subrange((self.0.element_count() + self.1.element_count() + self.2.element_count() + self.3.element_count()) as int, (self.0.element_count() + self.1.element_count() + self.2.element_count() + self.3.element_count() + self.4.element_count()) as int),
            )) by {
                lemma_sub_stable(fin, f4, cb5 as int, cb4 as int, cb5 as int);
                assert(region(fin, c0, self.element_count()).subrange((self.0.element_count() + self.1.element_count() + self.2.element_count() + self.3.element_count()) as int, (self.0.element_count() + self.1.element_count() + self.2.element_count() + self.3.element_count() + self.4.element_count()) as int) =~= fin.subrange(cb4 as int, cb5 as int));
                assert(region(a, c0, prev.element_count()).subrange((prev.0.element_count() + prev.1.element_count() + prev.2.element_count() + prev.3.element_count()) as int, (prev.0.element_count() + prev.1.element_count() + prev.2.element_count() + prev.3.element_count() + prev.4.element_count()) as int) =~= a.subrange(c0 + (prev.0.element_count() + prev.1.element_count() + prev.2.element_count() + prev.3.element_count()) as int, c0 + (prev.0.element_count() + prev.1.element_count() + prev.2.element_count() + prev.3.element_count() + prev.4.element_count()) as int));
            }
            assert(self.5.seq_rebuilds(
                &prev.5,
                region(a, c0, prev.element_count()).subrange((prev.0.element_count() + prev.1.element_count() + prev.2.element_count() + prev.3.element_count() + prev.4.element_count()) as int, (prev.0.element_count() + prev.1.element_count() + prev.2.element_count() + prev.3.element_count() + prev.4.element_count() + prev.5.element_count()) as int),
                region(fin, c0, self.element_count()).subrange((self.0.element_count() + self.1.element_count() + self.2.element_count() + self.3.element_count() + self.4.element_count()) as int, (self.0.element_count() + self.1.element_count() + self.2.element_count() + self.3.element_count() + self.4.element_count() + self.5.element_count()) as int),
            )) by {
                lemma_sub_stable(fin, f5, cb6 as int, cb5 as int, cb6 as int);
                assert(region(fin, c0, self.element_count()).subrange((self.0.element_count() + self.1.element_count() + self.2.element_count() + self.3.element_count() + self.4.element_count()) as int, (self.0.element_count() + self.1.element_count() + self.2.element_count() + self.3.element_count() + self.4.element_count() + self.5.element_count()) as int) =~= fin.subrange(cb5 as int, cb6 as int));
                assert(region(a, c0, prev.element_count()).subrange((prev.0.element_count() + prev.1.element_count() + prev.2.element_count() + prev.3.element_count() + prev.4.element_count()) as int, (prev.0.element_count() + prev.1.element_count() + prev.2.element_count() + prev.3.element_count() + prev.4.element_count() + prev.5.element_count()) as int) =~= a.subrange(c0 + (prev.0.element_count() + prev.1.element_count() + prev.2.element_count() + prev.3.element_count() + prev.4.element_count()) as int, c0 + (prev.0.element_count() + prev.1.element_count() + prev.2.element_count() + prev.3.element_count() + prev.4.element_count() + prev.5.element_count()) as int));
            }
            assert(self.6.seq_rebuilds(
                &prev.6,
                region(a, c0, prev.element_count()).subrange((prev.0.element_count() + prev.1.element_count() + prev.2.element_count() + prev.3.element_count() + prev.4.element_count() + prev.5.element_count()) as int, (prev.0.element_count() + prev.1.element_count() + prev.2.element_count() + prev.3.element_count() + prev.4.element_count() + prev.5.element_count() + prev.6.element_count()) as int),
                region(fin, c0, self.element_count()).subrange((self.0.element_count() + self.1.element_count() + self.2.element_count() + self.3.element_count() + self.4.element_count() + self.5.element_count()) as int, (self.0.element_count() + self.1.element_count() + self.2.element_count() + self.3.element_count() + self.4.element_count() + self.5.element_count() + self.6.element_count()) as int),
            )) by {
                lemma_sub_stable(fin, f6, cb7 as int, cb6 as int, cb7 as int);
                assert(region(fin, c0, self.element_count()).subrange((self.0.element_count() + self.1.element_count() + self.2.element_count() + self.3.element_count() + self.4.element_count() + self.5.element_count()) as int, (self.0.element_count() + self.1.element_count() + self.2.element_count() + self.3.element_count() + self.4.element_count() + self.5.element_count() + self.6.element_count()) as int) =~= fin.subrange(cb6 as int, cb7 as int));
                assert(region(a, c0, prev.element_count()).subrange((prev.0.element_count() + prev.1.element_count() + prev.2.element_count() + prev.3.element_count() + prev.4.element_count() + prev.5.element_count()) as int, (prev.0.element_count() + prev.1.element_count() + prev.2.element_count() + prev.3.element_count() + prev.4.element_count() + prev.5.element_count() + prev.6.element_count()) as int) =~= a.subrange(c0 + (prev.0.element_count() + prev.1.element_count() + prev.2.element_count() + prev.3.element_count() + prev.4.element_count() + prev.5.element_count()) as int, c0 + (prev.0.element_count() + prev.1.element_count() + prev.2.element_count() + prev.3.element_count() + prev.4.element_count() + prev.5.element_count() + prev.6.element_count()) as int));
            }
            assert(self.7.seq_rebuilds(
                &prev.7,
                region(a, c0, prev.element_count()).subrange((prev.0.element_count() + prev.1.element_count() + prev.2.element_count() + prev.3.element_count() + prev.4.element_count() + prev.5.element_count() + prev.6.element_count()) as int, (prev.0.element_count() + prev.1.element_count() + prev.2.element_count() + prev.3.element_count() + prev.4.element_count() + prev.5.element_count() + prev.6.element_count() + prev.7.element_count()) as int),
                region(fin, c0, self.element_count()).subrange((self.0.element_count() + self.1.element_count() + self.2.element_count() + self.3.element_count() + self.4.element_count() + self.5.element_count() + self.6.element_count()) as int, (self.0.element_count() + self.1.element_count() + self.2.element_count() + self.3.element_count() + self.4.element_count() + self.5.element_count() + self.6.element_count() + self.7.element_count()) as int),
            )) by {
                lemma_sub_stable(fin, f7, cb8 as int, cb7 as int, cb8 as int);
                assert(region(fin, c0, self.element_count()).subrange((self.0.element_count() + self.1.element_count() + self.2.element_count() + self.3.element_count() + self.4.element_count() + self.5.element_count() + self.6.element_count()) as int, (self.0.element_count() + self.1.element_count() + self.2.element_count() + self.3.element_count() + self.4.element_count() + self.5.element_count() + self.6.element_count() + self.7.element_count()) as int) =~= fin.subrange(cb7 as int, cb8 as int));
                assert(region(a, c0, prev.element_count()).subrange((prev.0.element_count() + prev.1.element_count() + prev.2.element_count() + prev.3.element_count() + prev.4.element_count() + prev.5.element_count() + prev.6.element_count()) as int, (prev.0.element_count() + prev.1.element_count() + prev.2.element_count() + prev.3.element_count() + prev.4.element_count() + prev.5.element_count() + prev.6.element_count() + prev.7.element_count()) as int) =~= a.subrange(c0 + (prev.0.element_count() + prev.1.element_count() + prev.2.element_count() + prev.3.element_count() + prev.4.element_count() + prev.5.element_count() + prev.6.element_count()) as int, c0 + (prev.0.element_count() + prev.1.element_count() + prev.2.element_count() + prev.3.element_count() + prev.4.element_count() + prev.5.element_count() + prev.6.element_count() + prev.7.element_count()) as int));
            }
            assert(self.8.seq_rebuilds(
                &prev.8,
                region(a, c0, prev.element_count()).subrange((prev.0.element_count() + prev.1.element_count() + prev.2.element_count() + prev.3.element_count() + prev.4.element_count() + prev.5.element_count() + prev.6.element_count() + prev.7.element_count()) as int, (prev.0.element_count() + prev.1.element_count() + prev.2.element_count() + prev.3.element_count() + prev.4.element_count() + prev.5.element_count() + prev.6.element_count() + prev.7.element_count() + prev.8.element_count()) as int),
                region(fin, c0, self.element_count()).subrange((self.0.element_count() + self.1.element_count() + self.2.element_count() + self.3.element_count() + self.4.element_count() + self.5.element_count() + self.6.element_count() + self.7.element_count()) as int, (self.0.element_count() + self.1.element_count() + self.2.element_count() + self.3.element_count() + self.4.element_count() + self.5.element_count() + self.6.element_count() + self.7.element_count() + self.8.element_count()) as int),
            )) by {
                lemma_sub_stable(fin, f8, cb9 as int, cb8 as int, cb9 as int);
                assert(region(fin, c0, self.element_count()).subrange((self.0.element_count() + self.1.element_count() + self.2.element_count() + self.3.element_count() + self.4.element_count() + self.5.element_count() + self.6.element_count() + self.7.element_count()) as int, (self.0.element_count() + self.1.element_count() + self.2.element_count() + self.3.element_count() + self.4.element_count() + self.5.element_count() + self.6.element_count() + self.7.element_count() + self.8.element_count()) as int) =~= fin.subrange(cb8 as int, cb9 as int));
                assert(region(a, c0, prev.element_count()).subrange((prev.0.element_count() + prev.1.element_count() + prev.2.element_count() + prev.3.element_count() + prev.4.element_count() + prev.5.element_count() + prev.6.element_count() + prev.7.element_count()) as int, (prev.0.element_count() + prev.1.element_count() + prev.2.element_count() + prev.3.element_count() + prev.4.element_count() + prev.5.element_count() + prev.6.element_count() + prev.7.element_count() + prev.8.element_count()) as int) =~= a.subrange(c0 + (prev.0.element_count() + prev.1.element_count() + prev.2.element_count() + prev.3.element_count() + prev.4.element_count() + prev.5.element_count() + prev.6.element_count() + prev.7.element_count()) as int, c0 + (prev.0.element_count() + prev.1.element_count() + prev.2.element_count() + prev.3.element_count() + prev.4.element_count() + prev.5.element_count() + prev.6.element_count() + prev.7.element_count() + prev.8.element_count()) as int));
            }
            assert(self.9.seq_rebuilds(
                &prev.9,
                region(a, c0, prev.element_count()).subrange((prev.0.element_count() + prev.1.element_count() + prev.2.element_count() + prev.3.element_count() + prev.4.element_count() + prev.5.element_count() + prev.6.element_count() + prev.7.element_count() + prev.8.element_count()) as int, (prev.0.element_count() + prev.1.element_count() + prev.2.element_count() + prev.3.element_count() + prev.4.element_count() + prev.5.element_count() + prev.6.element_count() + prev.7.element_count() + prev.8.element_count() + prev.9.element_count()) as int),
                region(fin, c0, self.element_count()).subrange((self.0.element_count() + self.1.element_count() + self.2.element_count() + self.3.element_count() + self.4.element_count() + self.5.element_count() + self.6.element_count() + self.7.element_count() + self.8.element_count()) as int, (self.0.element_count() + self.1.element_count() + self.2.element_count() + self.3.element_count() + self.4.element_count() + self.5.element_count() + self.6.element_count() + self.7.element_count() + self.8.element_count() + self.9.element_count()) as int),
            )) by {
                lemma_sub_stable(fin, f9, cb10 as int, cb9 as int, cb10 as int);
                assert(region(fin, c0, self.element_count()).subrange((self.0.element_count() + self.1.element_count() + self.2.element_count() + self.3.element_count() + self.4.element_count() + self.5.element_count() + self.6.element_count() + self.7.element_count() + self.8.element_count()) as int, (self.0.element_count() + self.1.element_count() + self.2.element_count() + self.3.element_count() + self.4.element_count() + self.5.element_count() + self.6.element_count() + self.7.element_count() + self.8.element_count() + self.9.element_count()) as int) =~= fin.subrange(cb9 as int, cb10 as int));
                assert(region(a, c0, prev.element_count()).subrange((prev.0.element_count() + prev.1.element_count() + prev.2.element_count() + prev.3.element_count() + prev.4.element_count() + prev.5.element_count() + prev.6.element_count() + prev.7.element_count() + prev.8.element_count()) as int, (prev.0.element_count() + prev.1.element_count() + prev.2.element_count() + prev.3.element_count() + prev.4.element_count() + prev.5.element_count() + prev.6.element_count() + prev.7.element_count() + prev.8.element_count() + prev.9.element_count()) as int) =~= a.subrange(c0 + (prev.0.element_count() + prev.1.element_count() + prev.2.element_count() + prev.3.element_count() + prev.4.element_count() + prev.5.element_count() + prev.6.element_count() + prev.7.element_count() + prev.8.element_count()) as int, c0 + (prev.0.element_count() + prev.1.element_count() + prev.2.element_count() + prev.3.element_count() + prev.4.element_count() + prev.5.element_count() + prev.6.element_count() + prev.7.element_count() + prev.8.element_count() + prev.9.element_count()) as int));
            }
            assert(self.10.seq_rebuilds(
                &prev.10,
                region(a, c0, prev.element_count()).subrange((prev.0.element_count() + prev.1.element_count() + prev.2.element_count() + prev.3.element_count() + prev.4.element_count() + prev.5.element_count() + prev.6.element_count() + prev.7.element_count() + prev.8.element_count() + prev.9.element_count()) as int, (prev.0.element_count() + prev.1.element_count() + prev.2.element_count() + prev.3.element_count() + prev.4.element_count() + prev.5.element_count() + prev.6.element_count() + prev.7.element_count() + prev.8.element_count() + prev.9.element_count() + prev.10.element_count()) as int),
                region(fin, c0, self.element_count()).subrange((self.0.element_count() + self.1.element_count() + self.2.element_count() + self.3.element_count() + self.4.element_count() + self.5.element_count() + self.6.element_count() + self.7.element_count() + self.8.element_count() + self.9.element_count()) as int, (self.0.element_count() + self.1.element_count() + self.2.element_count() + self.3.element_count() + self.4.element_count() + self.5.element_count() + self.6.element_count() + self.7.element_count() + self.8.element_count() + self.9.element_count() + self.10.element_count()) as int),
            )) by {
                lemma_sub_stable(fin, f10, cb11 as int, cb10 as int, cb11 as int);
                assert(region(fin, c0, self.element_count()).subrange((self.0.element_count() + self.1.element_count() + self.2.element_count() + self.3.element_count() + self.4.element_count() + self.5.element_count() + self.6.element_count() + self.7.element_count() + self.8.element_count() + self.9.element_count()) as int, (self.0.element_count() + self.1.element_count() + self.2.element_count() + self.3.element_count() + self.4.element_count() + self.5.element_count() + self.6.element_count() + self.7.element_count() + self.8.element_count() + self.9.element_count() + self.10.element_count()) as int) =~= fin.subrange(cb10 as int, cb11 as int));
                assert(region(a, c0, prev.element_count()).subrange((prev.0.element_count() + prev.1.element_count() + prev.2.element_count() + prev.3.element_count() + prev.4.element_count() + prev.5.element_count() + prev.6.element_count() + prev.7.element_count() + prev.8.element_count() + prev.9.element_count()) as int, (prev.0.element_count() + prev.1.element_count() + prev.2.element_count() + prev.3.element_count() + prev.4.element_count() + prev.5.element_count() + prev.6.element_count() + prev.7.element_count() + prev.8.element_count() + prev.9.element_count() + prev.10.element_count()) as int) =~= a.subrange(c0 + (prev.0.element_count() + prev.1.element_count() + prev.2.element_count() + prev.3.element_count() + prev.4.element_count() + prev.5.element_count() + prev.6.element_count() + prev.7.element_count() + prev.8.element_count() + prev.9.element_count()) as int, c0 + (prev.0.element_count() + prev.1.element_count() + prev.2.element_count() + prev.3.element_count() + prev.4.element_count() + prev.5.element_count() + prev.6.element_count() + prev.7.element_count() + prev.8.element_count() + prev.9.element_count() + prev.10.element_count()) as int));
            }
            assert(self.11.seq_rebuilds(
                &prev.11,
                region(a, c0, prev.element_count()).subrange((prev.0.element_count() + prev.1.element_count() + prev.2.element_count() + prev.3.element_count() + prev.4.element_count() + prev.5.element_count() + prev.6.element_count() + prev.7.element_count() + prev.8.element_count() + prev.9.element_count() + prev.10.element_count()) as int, (prev.0.element_count() + prev.1.element_count() + prev.2.element_count() + prev.3.element_count() + prev.4.element_count() + prev.5.element_count() + prev.6.element_count() + prev.7.element_count() + prev.8.element_count() + prev.9.element_count() + prev.10.element_count() + prev.11.element_count()) as int),
                region(fin, c0, self.element_count()).subrange((self.0.element_count() + self.1.element_count() + self.2.element_count() + self.3.element_count() + self.4.element_count() + self.5.element_count() + self.6.element_count() + self.7.element_count() + self.8.element_count() + self.9.element_count() + self.10.element_count()) as int, (self.0.element_count() + self.1.element_count() + self.2.element_count() + self.3.element_count() + self.4.element_count() + self.5.element_count() + self.6.element_count() + self.7.element_count() + self.8.element_count() + self.9.element_count() + self.10.element_count() + self.11.element_count()) as int),
            )) by {
                assert(region(fin, c0, self.element_count()).subrange((self.0.element_count() + self.1.element_count() + self.2.element_count() + self.3.element_count() + self.4.element_count() + self.5.element_count() + self.6.element_count() + self.7.element_count() + self.8.element_count() + self.9.element_count() + self.10.element_count()) as int, (self.0.element_count() + self.1.element_count() + self.2.element_count() + self.3.element_count() + self.4.element_count() + self.5.element_count() + self.6.element_count() + self.7.element_count() + self.8.element_count() + self.9.element_count() + self.10.element_count() + self.11.element_count()) as int) =~= fin.subrange(cb11 as int, ce as int));
                assert(region(a, c0, prev.element_count()).subrange((prev.0.element_count() + prev.1.element_count() + prev.2.element_count() + prev.3.element_count() + prev.4.element_count() + prev.5.element_count() + prev.6.element_count() + prev.7.element_count() + prev.8.element_count() + prev.9.element_count() + prev.10.element_count()) as int, (prev.0.element_count() + prev.1.element_count() + prev.2.element_count() + prev.3.element_count() + prev.4.element_count() + prev.5.element_count() + prev.6.element_count() + prev.7.element_count() + prev.8.element_count() + prev.9.element_count() + prev.10.element_count() + prev.11.element_count()) as int) =~= a.subrange(c0 + (prev.0.element_count() + prev.1.element_count() + prev.2.element_count() + prev.3.element_count() + prev.4.element_count() + prev.5.element_count() + prev.6.element_count() + prev.7.element_count() + prev.8.element_count() + prev.9.element_count() + prev.10.element_count()) as int, c0 + (prev.0.element_count() + prev.1.element_count() + prev.2.element_count() + prev.3.element_count() + prev.4.element_count() + prev.5.element_count() + prev.6.element_count() + prev.7.element_count() + prev.8.element_count() + prev.9.element_count() + prev.10.element_count() + prev.11.element_count()) as int));
            }
        }
    }

    #[verifier::spinoff_prover]
    #[verifier::rlimit(100)]
    fn seq_teardown<Splice: ElementSplice<Element>>(&self, elements: &mut Splice) {
        let ghost a = elements.items();
        let ghost c0 = elements.cursor();
        proof {
            lemma_kept_refl(a, c0);
        }
        let ghost b0 = elements.items();
        let ghost cb0 = elements.cursor();
        proof {
            assert(b0.skip(cb0 as int).len() == a.skip((c0 + 0) as int).len());
        }
        self.0.seq_teardown(elements);
        proof {
            assert(self.0.seq_tears_down(region(a, c0, self.element_count()).subrange(0int, (self.0.element_count()) as int))) by {
                lemma_sub_shift(a, b0, (c0 + 0) as int, cb0 as int, self.0.element_count() as int);
                assert(region(a, c0, self.element_count()).subrange(0int, (self.0.element_count()) as int) =~= a.subrange(c0 + 0int, c0 + (self.0.element_count()) as int));
            }
            lemma_kept_compose(a, c0, 0, b0, cb0, self.0.element_count(), elements.items(), elements.cursor());
        }
        let ghost b1 = elements.items();
        let ghost cb1 = elements.cursor();
        proof {
            assert(b1.skip(cb1 as int).len() == a.skip((c0 + (self.0.element_count())) as int).len());
        }
        self.1.seq_teardown(elements);
        proof {
            assert(self.1.seq_tears_down(region(a, c0, self.element_count()).subrange((self.0.element_count()) as int, (self.0.element_count() + self.1.element_count()) as int))) by {
                lemma_sub_shift(a, b1, (c0 + (self.0.element_count())) as int, cb1 as int, self.1.element_count() as int);
                assert(region(a, c0, self.element_count()).subrange((self.0.element_count()) as int, (self.0.element_count() + self.1.element_count()) as int) =~= a.subrange(c0 + (self.0.element_count()) as int, c0 + (self.0.element_count() + self.1.element_count()) as int));
            }
            lemma_kept_compose(a, c0, (self.0.element_count()), b1, cb1, self.1.element_count(), elements.items(), elements.cursor());
        }
        let ghost b2 = elements.items();
        let ghost cb2 = elements.cursor();
        proof {
            assert(b2.skip(cb2 as int).len() == a.skip((c0 + (self.0.element_count() + self.1.element_count())) as int).len());
        }
        self.2.seq_teardown(elements);
        proof {
            assert(self.2.seq_tears_down(region(a, c0, self.element_count()).subrange((self.0.element_count() + self.1.element_count()) as int, (self.0.element_count() + self.1.element_count() + self.2.element_count()) as int))) by {
                lemma_sub_shift(a, b2, (c0 + (self.0.element_count() + self.1.element_count())) as int, cb2 as int, self.2.element_count() as int);
                assert(region(a, c0, self.element_count()).subrange((self.0.element_count() + self.1.element_count()) as int, (self.0.element_count() + self.1.element_count() + self.2.element_count()) as int) =~= a.subrange(c0 + (self.0.element_count() + self.1.element_count()) as int, c0 + (self.0.element_count() + self.1.element_count() + self.2.element_count()) as int));
            }
            lemma_kept_compose(a, c0, (self.0.element_count() + self.1.element_count()), b2, cb2, self.2.element_count(), elements.items(), elements.cursor());
        }
        let ghost b3 = elements.items();
        let ghost cb3 = elements.cursor();
        proof {
            assert(b3.skip(cb3 as int).len() == a.skip((c0 + (self.0.element_count() + self.1.element_count() + self.2.element_count())) as int).len());
        }
        self.3.seq_teardown(elements);
        proof {
            assert(self.3.seq_tears_down(region(a, c0, self.element_count()).subrange((self.0.element_count() + self.1.element_count() + self.2.element_count()) as int, (self.0.element_count() + self.1.element_count() + self.2.element_count() + self.3.element_count()) as int))) by {
                lemma_sub_shift(a, b3, (c0 + (self.0.element_count() + self.1.element_count() + self.2.element_count())) as int, cb3 as int, self.3.element_count() as int);
                assert(region(a, c0, self.element_count()).subrange((self.0.element_count() + self.1.element_count() + self.2.element_count()) as int, (self.0.element_count() + self.1.element_count() + self.2.element_count() + self.3.element_count()) as int) =~= a.subrange(c0 + (self.0.element_count() + self.1.element_count() + self.2.element_count()) as int, c0 + (self.0.element_count() + self.1.element_count() + self.2.element_count() + self.3.element_count()) as int));
            }
            lemma_kept_compose(a, c0, (self.0.element_count() + self.1.element_count() + self.2.element_count()), b3, cb3, self.3.element_count(), elements.items(), elements.cursor());
        }
        let ghost b4 = elements.items();
        let ghost cb4 = elements.cursor();
        proof {
            assert(b4.skip(cb4 as int).len() == a.skip((c0 + (self.0.element_count() + self.1.element_count() + self.2.element_count() + self.3.element_count())) as int).len());
        }
        self.4.seq_teardown(elements);
        proof {
            assert(self.4.seq_tears_down(region(a, c0, self.element_count()).subrange((self.0.element_count() + self.1.element_count() + self.2.element_count() + self.3.element_count()) as int, (self.0.element_count() + self.1.element_count() + self.2.element_count() + self.3.element_count() + self.4.element_count()) as int))) by {
                lemma_sub_shift(a, b4, (c0 + (self.0.element_count() + self.1.element_count() + self.2.element_count() + self.3.element_count())) as int, cb4 as int, self.4.element_count() as int);
                assert(region(a, c0, self.element_count()).subrange((self.0.element_count() + self.1.element_count() + self.2.element_count() + self.3.element_count()) as int, (self.0.element_count() + self.1.element_count() + self.2.element_count() + self.3.element_count() + self.4.element_count()) as int) =~= a.subrange(c0 + (self.0.element_count() + self.1.element_count() + self.2.element_count() + self.3.element_count()) as int, c0 + (self.0.element_count() + self.1.element_count() + self.2.element_count() + self.3.element_count() + self.4.element_count()) as int));
            }
            lemma_kept_compose(a, c0, (self.0.element_count() + self.1.element_count() + self.2.element_count() + self.3.element_count()), b4, cb4, self.4.element_count(), elements.items(), elements.cursor());
        }
        let ghost b5 = elements.items();
        let ghost cb5 = elements.cursor();
        proof {
            assert(b5.skip(cb5 as int).len() == a.skip((c0 + (self.0.element_count() + self.1.element_count() + self.2.element_count() + self.3.element_count() + self.4.element_count())) as int).len());
        }
        self.5.seq_teardown(elements);
        proof {
            assert(self.5.seq_tears_down(region(a, c0, self.element_count()).subrange((self.0.element_count() + self.1.element_count() + self.2.element_count() + self.3.element_count() + self.4.element_count()) as int, (self.0.element_count() + self.1.element_count() + self.2.element_count() + self.3.element_count() + self.4.element_count() + self.5.element_count()) as int))) by {
                lemma_sub_shift(a, b5, (c0 + (self.0.element_count() + self.1.element_count() + self.2.element_count() + self.3.element_count() + self.4.element_count())) as int, cb5 as int, self.5.element_count() as int);
                assert(region(a, c0, self.element_count()).subrange((self.0.element_count() + self.1.element_count() + self.2.element_count() + self.3.element_count() + self.4.element_count()) as int, (self.0.element_count() + self.1.element_count() + self.2.element_count() + self.3.element_count() + self.4.element_count() + self.5.element_count()) as int) =~= a.subrange(c0 + (self.0.element_count() + self.1.element_count() + self.2.element_count() + self.3.element_count() + self.4.element_count()) as int, c0 + (self.0.element_count() + self.1.element_count() + self.2.element_count() + self.3.element_count() + self.4.element_count() + self.5.element_count()) as int));
            }
            lemma_kept_compose(a, c0, (self.0.element_count() + self.1.element_count() + self.2.element_count() + self.3.element_count() + self.4.element_count()), b5, cb5, self.5.element_count(), elements.items(), elements.cursor());
        }
        let ghost b6 = elements.items();
        let ghost cb6 = elements.cursor();
        proof {
            assert(b6.skip(cb6 as int).len() == a.skip((c0 + (self.0.element_count() + self.1.element_count() + self.2.element_count() + self.3.element_count() + self.4.element_count() + self.5.element_count())) as int).len());
        }
        self.6.seq_teardown(elements);
        proof {
            assert(self.6.seq_tears_down(region(a, c0, self.element_count()).subrange((self.0.element_count() + self.1.element_count() + self.2.element_count() + self.3.element_count() + self.4.element_count() + self.5.element_count()) as int, (self.0.element_count() + self.1.element_count() + self.2.element_count() + self.3.element_count() + self.4.element_count() + self.5.element_count() + self.6.element_count()) as int))) by {
                lemma_sub_shift(a, b6, (c0 + (self.0.element_count() + self.1.element_count() + self.2.element_count() + self.3.element_count() + self.4.element_count() + self.5.element_count())) as int, cb6 as int, self.6.element_count() as int);
                assert(region(a, c0, self.element_count()).subrange((self.0.element_count() + self.1.element_count() + self.2.element_count() + self.3.element_count() + self.4.element_count() + self.5.element_count()) as int, (self.0.element_count() + self.1.element_count() + self.2.element_count() + self.3.element_count() + self.4.element_count() + self.5.element_count() + self.6.element_count()) as int) =~= a.subrange(c0 + (self.0.element_count() + self.1.element_count() + self.2.element_count() + self.3.element_count() + self.4.element_count() + self.5.element_count()) as int, c0 + (self.0.element_count() + self.1.element_count() + self.2.element_count() + self.3.element_count() + self.4.element_count() + self.5.element_count() + self.6.element_count()) as int));
            }
            lemma_kept_compose(a, c0, (self.0.element_count() + self.1.element_count() + self.2.element_count() + self.3.element_count() + self.4.element_count() + self.5.element_count()), b6, cb6, self.6.element_count(), elements.items(), elements.cursor());
        }
        let ghost b7 = elements.items();
        let ghost cb7 = elements.cursor();
        proof {
            assert(b7.skip(cb7 as int).len() == a.skip((c0 + (self.0.element_count() + self.1.element_count() + self.2.element_count() + self.3.element_count() + self.4.element_count() + self.5.element_count() + self.6.element_count())) as int).len());
        }
        self.7.seq_teardown(elements);
        proof {
            assert(self.7.seq_tears_down(region(a, c0, self.element_count()).subrange((self.0.element_count() + self.1.element_count() + self.2.element_count() + self.3.element_count() + self.4.element_count() + self.5.element_count() + self.6.element_count()) as int, (self.0.element_count() + self.1.element_count() + self.2.element_count() + self.3.element_count() + self.4.element_count() + self.5.element_count() + self.6.element_count() + self.7.element_count()) as int))) by {
                lemma_sub_shift(a, b7, (c0 + (self.0.element_count() + self.1.element_count() + self.2.element_count() + self.3.element_count() + self.4.element_count() + self.5.element_count() + self.6.element_count())) as int, cb7 as int, self.7.element_count() as int);
                assert(region(a, c0, self.element_count()).subrange((self.0.element_count() + self.1.element_count() + self.2.element_count() + self.3.element_count() + self.4.element_count() + self.5.element_count() + self.6.element_count()) as int, (self.0.element_count() + self.1.element_count() + self.2.element_count() + self.3.element_count() + self.4.element_count() + self.5.element_count() + self.6.element_count() + self.7.element_count()) as int) =~= a.subrange(c0 + (self.0.element_count() + self.1.element_count() + self.2.element_count() + self.3.element_count() + self.4.element_count() + self.5.element_count() + self.6.element_count()) as int, c0 + (self.0.element_count() + self.1.element_count() + self.2.element_count() + self.3.element_count() + self.4.element_count() + self.5.element_count() + self.6.element_count() + self.7.element_count()) as int));
            }
            lemma_kept_compose(a, c0, (self.0.element_count() + self.1.element_count() + self.2.element_count() + self.3.element_count() + self.4.element_count() + self.5.element_count() + self.6.element_count()), b7, cb7, self.7.element_count(), elements.items(), elements.cursor());
        }
        let ghost b8 = elements.items();
        let ghost cb8 = elements.cursor();
        proof {
            assert(b8.skip(cb8 as int).len() == a.skip((c0 + (self.0.element_count() + self.1.element_count() + self.2.element_count() + self.3.element_count() + self.4.element_count() + self.5.element_count() + self.6.element_count() + self.7.element_count())) as int).len());
        }
        self.8.seq_teardown(elements);
        proof {
            assert(self.8.seq_tears_down(region(a, c0, self.element_count()).subrange((self.0.element_count() + self.1.element_count() + self.2.element_count() + self.3.element_count() + self.4.element_count() + self.5.element_count() + self.6.element_count() + self.7.element_count()) as int, (self.0.element_count() + self.1.element_count() + self.2.element_count() + self.3.element_count() + self.4.element_count() + self.5.element_count() + self.6.element_count() + self.7.element_count() + self.8.element_count()) as int))) by {
                lemma_sub_shift(a, b8, (c0 + (self.0.element_count() + self.1.element_count() + self.2.element_count() + self.3.element_count() + self.4.element_count() + self.5.element_count() + self.6.element_count() + self.7.element_count())) as int, cb8 as int, self.8.element_count() as int);
                assert(region(a, c0, self.element_count()).subrange((self.0.element_count() + self.1.element_count() + self.2.element_count() + self.3.element_count() + self.4.element_count() + self.5.element_count() + self.6.element_count() + self.7.element_count()) as int, (self.0.element_count() + self.1.element_count() + self.2.element_count() + self.3.element_count() + self.4.element_count() + self.5.element_count() + self.6.element_count() + self.7.element_count() + self.8.element_count()) as int) =~= a.subrange(c0 + (self.0.element_count() + self.1.element_count() + self.2.element_count() + self.3.element_count() + self.4.element_count() + self.5.element_count() + self.6.element_count() + self.7.element_count()) as int, c0 + (self.0.element_count() + self.1.element_count() + self.2.element_count() + self.3.element_count() + self.4.element_count() + self.5.element_count() + self.6.element_count() + self.7.element_count() + self.8.element_count()) as int));
            }
            lemma_kept_compose(a, c0, (self.0.element_count() + self.1.element_count() + self.2.element_count() + self.3.element_count() + self.4.element_count() + self.5.element_count() + self.6.element_count() + self.7.element_count()), b8, cb8, self.8.element_count(), elements.items(), elements.cursor());
        }
        let ghost b9 = elements.items();
        let ghost cb9 = elements.cursor();
        proof {
            assert(b9.skip(cb9 as int).len() == a.skip((c0 + (self.0.element_count() + self.1.element_count() + self.2.element_count() + self.3.element_count() + self.4.element_count() + self.5.element_count() + self.6.element_count() + self.7.element_count() + self.8.element_count())) as int).len());
        }
        self.9.seq_teardown(elements);
        proof {
            assert(self.9.seq_tears_down(region(a, c0, self.element_count()).subrange((self.0.element_count() + self.1.element_count() + self.2.element_count() + self.3.element_count() + self.4.element_count() + self.5.element_count() + self.6.element_count() + self.7.element_count() + self.8.element_count()) as int, (self.0.element_count() + self.1.element_count() + self.2.element_count() + self.3.element_count() + self.4.element_count() + self.5.element_count() + self.6.element_count() + self.7.element_count() + self.8.element_count() + self.9.element_count()) as int))) by {
                lemma_sub_shift(a, b9, (c0 + (self.0.element_count() + self.1.element_count() + self.2.element_count() + self.3.element_count() + self.4.element_count() + self.5.element_count() + self.6.element_count() + self.7.element_count() + self.8.element_count())) as int, cb9 as int, self.9.element_count() as int);
                assert(region(a, c0, self.element_count()).subrange((self.0.element_count() + self.1.element_count() + self.2.element_count() + self.3.element_count() + self.4.element_count() + self.5.element_count() + self.6.element_count() + self.7.element_count() + self.8.element_count()) as int, (self.0.element_count() + self.1.element_count() + self.2.element_count() + self.3.element_count() + self.4.element_count() + self.5.element_count() + self.6.element_count() + self.7.element_count() + self.8.element_count() + self.9.element_count()) as int) =~= a.subrange(c0 + (self.0.element_count() + self.1.element_count() + self.2.element_count() + self.3.element_count() + self.4.element_count() + self.5.element_count() + self.6.element_count() + self.7.element_count() + self.8.element_count()) as int, c0 + (self.0.element_count() + self.1.element_count() + self.2.element_count() + self.3.element_count() + self.4.element_count() + self.5.element_count() + self.6.element_count() + self.7.element_count() + self.8.element_count() + self.9.element_count()) as int));
            }
            lemma_kept_compose(a, c0, (self.0.element_count() + self.1.element_count() + self.2.element_count() + self.3.element_count() + self.4.element_count() + self.5.element_count() + self.6.element_count() + self.7.element_count() + self.8.element_count()), b9, cb9, self.9.element_count(), elements.items(), elements.cursor());
        }
        let ghost b10 = elements.items();
        let ghost cb10 = elements.cursor();
        proof {
            assert(b10.skip(cb10 as int).len() == a.skip((c0 + (self.0.element_count() + self.1.element_count() + self.2.element_count() + self.3.element_count() + self.4.element_count() + self.5.element_count() + self.6.element_count() + self.7.element_count() + self.8.element_count() + self.9.element_count())) as int).len());
        }
        self.10.seq_teardown(elements);
        proof {
            assert(self.10.seq_tears_down(region(a, c0, self.element_count()).subrange((self.0.element_count() + self.1.element_count() + self.2.element_count() + self.3.element_count() + self.4.element_count() + self.5.element_count() + self.6.element_count() + self.7.element_count() + self.8.element_count() + self.9.element_count()) as int, (self.0.element_count() + self.1.element_count() + self.2.element_count() + self.3.element_count() + self.4.element_count() + self.5.element_count() + self.6.element_count() + self.7.element_count() + self.8.element_count() + self.9.element_count() + self.10.element_count()) as int))) by {
                lemma_sub_shift(a, b10, (c0 + (self.0.element_count() + self.1.element_count() + self.2.element_count() + self.3.element_count() + self.4.element_count() + self.5.element_count() + self.6.element_count() + self.7.element_count() + self.8.element_count() + self.9.element_count())) as int, cb10 as int, self.10.element_count() as int);
                assert(region(a, c0, self.element_count()).subrange((self.0.element_count() + self.1.element_count() + self.2.element_count() + self.3.element_count() + self.4.element_count() + self.5.element_count() + self.6.element_count() + self.7.element_count() + self.8.element_count() + self.9.element_count()) as int, (self.0.element_count() + self.1.element_count() + self.2.element_count() + self.3.element_count() + self.4.element_count() + self.5.element_count() + self.6.element_count() + self.7.element_count() + self.8.element_count() + self.9.element_count() + self.10.element_count()) as int) =~= a.subrange(c0 + (self.0.element_count() + self.1.element_count() + self.2.element_count() + self.3.element_count() + self.4.element_count() + self.5.element_count() + self.6.element_count() + self.7.element_count() + self.8.element_count() + self.9.element_count()) as int, c0 + (self.0.element_count() + self.1.element_count() + self.2.element_count() + self.3.element_count() + self.4.element_count() + self.5.element_count() + self.6.element_count() + self.7.element_count() + self.8.element_count() + self.9.element_count() + self.10.element_count()) as int));
            }
            lemma_kept_compose(a, c0, (self.0.element_count() + self.1.element_count() + self.2.element_count() + self.3.element_count() + self.4.element_count() + self.5.element_count() + self.6.element_count() + self.7.element_count() + self.8.element_count() + self.9.element_count()), b10, cb10, self.10.element_count(), elements.items(), elements.cursor());
        }
        let ghost b11 = elements.items();
        let ghost cb11 = elements.cursor();
        proof {
            assert(b11.skip(cb11 as int).len() == a.skip((c0 + (self.0.element_count() + self.1.element_count() + self.2.element_count() + self.3.element_count() + self.4.element_count() + self.5.element_count() + self.6.element_count() + self.7.element_count() + self.8.element_count() + self.9.element_count() + self.10.element_count())) as int).len());
        }
        self.11.seq_teardown(elements);
        proof {
            assert(self.11.seq_tears_down(region(a, c0, self.element_count()).subrange((self.0.element_count() + self.1.element_count() + self.2.element_count() + self.3.element_count() + self.4.element_count() + self.5.element_count() + self.6.element_count() + self.7.element_count() + self.8.element_count() + self.9.element_count() + self.10.element_count()) as int, (self.0.element_count() + self.1.element_count() + self.2.element_count() + self.3.element_count() + self.4.element_count() + self.5.element_count() + self.6.element_count() + self.7.element_count() + self.8.element_count() + self.9.element_count() + self.10.element_count() + self.11.element_count()) as int))) by {
                lemma_sub_shift(a, b11, (c0 + (self.0.element_count() + self.1.element_count() + self.2.element_count() + self.3.element_count() + self.4.element_count() + self.5.element_count() + self.6.element_count() + self.7.element_count() + self.8.element_count() + self.9.element_count() + self.10.element_count())) as int, cb11 as int, self.11.element_count() as int);
                assert(region(a, c0, self.element_count()).subrange((self.0.element_count() + self.1.element_count() + self.2.element_count() + self.3.element_count() + self.4.element_count() + self.5.element_count() + self.6.element_count() + self.7.element_count() + self.8.element_count() + self.9.element_count() + self.10.element_count()) as int, (self.0.element_count() + self.1.element_count() + self.2.element_count() + self.3.element_count() + self.4.element_count() + self.5.element_count() + self.6.element_count() + self.7.element_count() + self.8.element_count() + self.9.element_count() + self.10.element_count() + self.11.element_count()) as int) =~= a.subrange(c0 + (self.0.element_count() + self.1.element_count() + self.2.element_count() + self.3.element_count() + self.4.element_count() + self.5.element_count() + self.6.element_count() + self.7.element_count() + self.8.element_count() + self.9.element_count() + self.10.element_count()) as int, c0 + (self.0.element_count() + self.1.element_count() + self.2.element_count() + self.3.element_count() + self.4.element_count() + self.5.element_count() + self.6.element_count() + self.7.element_count() + self.8.element_count() + self.9.element_count() + self.10.element_count() + self.11.element_count()) as int));
            }
            lemma_kept_compose(a, c0, (self.0.element_count() + self.1.element_count() + self.2.element_count() + self.3.element_count() + self.4.element_count() + self.5.element_count() + self.6.element_count() + self.7.element_count() + self.8.element_count() + self.9.element_count() + self.10.element_count()), b11, cb11, self.11.element_count(), elements.items(), elements.cursor());
        }
    }
}

/// A tuple of 13 sequences builds the elements of each, in order.
impl<State, Element, S0, S1, S2, S3, S4, S5, S6, S7, S8, S9, S10, S11, S12> ViewSequence<State, Element> for (S0, S1, S2, S3, S4, S5, S6, S7, S8, S9, S10, S11, S12,) where
    S0: ViewSequence<State, Element>,
    S1: ViewSequence<State, Element>,
    S2: ViewSequence<State, Element>,
    S3: ViewSequence<State, Element>,
    S4: ViewSequence<State, Element>,
    S5: ViewSequence<State, Element>,
    S6: ViewSequence<State, Element>,
    S7: ViewSequence<State, Element>,
    S8: ViewSequence<State, Element>,
    S9: ViewSequence<State, Element>,
    S10: ViewSequence<State, Element>,
    S11: ViewSequence<State, Element>,
    S12: ViewSequence<State, Element>,
 {
    open spec fn element_count(&self) -> nat {
        self.0.element_count() + self.1.element_count() + self.2.element_count() + self.3.element_count() + self.4.element_count() + self.5.element_count() + self.6.element_count() + self.7.element_count() + self.8.element_count() + self.9.element_count() + self.10.element_count() + self.11.element_count() + self.12.element_count()
    }

    open spec fn seq_builds(&self, out: Seq<Element>) -> bool {
        &&& out.len() == self.element_count()
        &&& self.0.seq_builds(out.subrange(0int, (self.0.element_count()) as int))
        &&& self.1.seq_builds(out.subrange((self.0.element_count()) as int, (self.0.element_count() + self.1.element_count()) as int))
        &&& self.2.seq_builds(out.subrange((self.0.element_count() + self.1.element_count()) as int, (self.0.element_count() + self.1.element_count() + self.2.element_count()) as int))
        &&& self.3.seq_builds(out.subrange((self.0.element_count() + self.1.element_count() + self.2.element_count()) as int, (self.0.element_count() + self.1.element_count() + self.2.element_count() + self.3.element_count()) as int))
        &&& self.4.seq_builds(out.subrange((self.0.element_count() + self.1.element_count() + self.2.element_count() + self.3.element_count()) as int, (self.0.element_count() + self.1.element_count() + self.2.element_count() + self.3.element_count() + self.4.element_count()) as int))
        &&& self.5.seq_builds(out.subrange((self.0.element_count() + self.1.element_count() + self.2.element_count() + self.3.element_count() + self.4.element_count()) as int, (self.0.element_count() + self.1.element_count() + self.2.element_count() + self.3.element_count() + self.4.element_count() + self.5.element_count()) as int))
        &&& self.6.seq_builds(out.subrange((self.0.element_count() + self.1.element_count() + self.2.element_count() + self.3.element_count() + self.4.element_count() + self.5.element_count()) as int, (self.0.element_count() + self.1.element_count() + self.2.element_count() + self.3.element_count() + self.4.element_count() + self.5.element_count() + self.6.element_count()) as int))
        &&& self.7.seq_builds(out.subrange((self.0.element_count() + self.1.element_count() + self.2.element_count() + self.3.element_count() + self.4.element_count() + self.5.element_count() + self.6.element_count()) as int, (self.0.element_count() + self.1.element_count() + self.2.element_count() + self.3.element_count() + self.4.element_count() + self.5.element_count() + self.6.element_count() + self.7.element_count()) as int))
        &&& self.8.seq_builds(out.subrange((self.0.element_count() + self.1.element_count() + self.2.element_count() + self.3.element_count() + self.4.element_count() + self.5.element_count() + self.6.element_count() + self.7.element_count()) as int, (self.0.element_count() + self.1.element_count() + self.2.element_count() + self.3.element_count() + self.4.element_count() + self.5.element_count() + self.6.element_count() + self.7.element_count() + self.8.element_count()) as int))
        &&& self.9.seq_builds(out.subrange((self.0.element_count() + self.1.element_count() + self.2.element_count() + self.3.element_count() + self.4.element_count() + self.5.element_count() + self.6.element_count() + self.7.element_count() + self.8.element_count()) as int, (self.0.element_count() + self.1.element_count() + self.2.element_count() + self.3.element_count() + self.4.element_count() + self.5.element_count() + self.6.element_count() + self.7.element_count() + self.8.element_count() + self.9.element_count()) as int))
        &&& self.10.seq_builds(out.subrange((self.0.element_count() + self.1.element_count() + self.2.element_count() + self.3.element_count() + self.4.element_count() + self.5.element_count() + self.6.element_count() + self.7.element_count() + self.8.element_count() + self.9.element_count()) as int, (self.0.element_count() + self.1.element_count() + self.2.element_count() + self.3.element_count() + self.4.element_count() + self.5.element_count() + self.6.element_count() + self.7.element_count() + self.8.element_count() + self.9.element_count() + self.10.element_count()) as int))
        &&& self.11.seq_builds(out.subrange((self.0.element_count() + self.1.element_count() + self.2.element_count() + self.3.element_count() + self.4.element_count() + self.5.element_count() + self.6.element_count() + self.7.element_count() + self.8.element_count() + self.9.element_count() + self.10.element_count()) as int, (self.0.element_count() + self.1.element_count() + self.2.element_count() + self.3.element_count() + self.4.element_count() + self.5.element_count() + self.6.element_count() + self.7.element_count() + self.8.element_count() + self.9.element_count() + self.10.element_count() + self.11.element_count()) as int))
        &&& self.12.seq_builds(out.subrange((self.0.element_count() + self.1.element_count() + self.2.element_count() + self.3.element_count() + self.4.element_count() + self.5.element_count() + self.6.element_count() + self.7.element_count() + self.8.element_count() + self.9.element_count() + self.10.element_count() + self.11.element_count()) as int, (self.0.element_count() + self.1.element_count() + self.2.element_count() + self.3.element_count() + self.4.element_count() + self.5.element_count() + self.6.element_count() + self.7.element_count() + self.8.element_count() + self.9.element_count() + self.10.element_count() + self.11.element_count() + self.12.element_count()) as int))
    }

    open spec fn seq_rebuilds(&self, prev: &Self, before: Seq<Element>, after: Seq<Element>) -> bool {
        &&& before.len() == prev.element_count()
        &&& after.len() == self.element_count()
        &&& self.0.seq_rebuilds(
            &prev.0,
            before.subrange(0int, (prev.0.element_count()) as int),
            after.subrange(0int, (self.0.element_count()) as int),
        )
        &&& self.1.seq_rebuilds(
            &prev.1,
            before.subrange((prev.0.element_count()) as int, (prev.0.element_count() + prev.1.element_count()) as int),
            after.subrange((self.0.element_count()) as int, (self.0.element_count() + self.1.element_count()) as int),
        )
        &&& self.2.seq_rebuilds(
            &prev.2,
            before.subrange((prev.0.element_count() + prev.1.element_count()) as int, (prev.0.element_count() + prev.1.element_count() + prev.2.element_count()) as int),
            after.subrange((self.0.element_count() + self.1.element_count()) as int, (self.0.element_count() + self.1.element_count() + self.2.element_count()) as int),
        )
        &&& self.3.seq_rebuilds(
            &prev.3,
            before.subrange((prev.0.element_count() + prev.1.element_count() + prev.2.element_count()) as int, (prev.0.element_count() + prev.1.element_count() + prev.2.element_count() + prev.3.element_count()) as int),
            after.subrange((self.0.element_count() + self.1.element_count() + self.2.element_count()) as int, (self.0.element_count() + self.1.element_count() + self.2.element_count() + self.3.element_count()) as int),
        )
        &&& self.4.seq_rebuilds(
            &prev.4,
            before.subrange((prev.0.element_count() + prev.1.element_count() + prev.2.element_count() + prev.3.element_count()) as int, (prev.0.element_count() + prev.1.element_count() + prev.2.element_count() + prev.3.element_count() + prev.4.element_count()) as int),
            after.subrange((self.0.element_count() + self.1.element_count() + self.2.element_count() + self.3.element_count()) as int, (self.0.element_count() + self.1.element_count() + self.2.element_count() + self.3.element_count() + self.4.element_count()) as int),
        )
        &&& self.5.seq_rebuilds(
            &prev.5,
            before.subrange((prev.0.element_count() + prev.1.element_count() + prev.2.element_count() + prev.3.element_count() + prev.4.element_count()) as int, (prev.0.element_count() + prev.1.element_count() + prev.2.element_count() + prev.3.element_count() + prev.4.element_count() + prev.5.element_count()) as int),
            after.subrange((self.0.element_count() + self.1.element_count() + self.2.element_count() + self.3.element_count() + self.4.element_count()) as int, (self.0.element_count() + self.1.element_count() + self.2.element_count() + self.3.element_count() + self.4.element_count() + self.5.element_count()) as int),
        )
        &&& self.6.seq_rebuilds(
            &prev.6,
            before.subrange((prev.0.element_count() + prev.1.element_count() + prev.2.element_count() + prev.3.element_count() + prev.4.element_count() + prev.5.element_count()) as int, (prev.0.element_count() + prev.1.element_count() + prev.2.element_count() + prev.3.element_count() + prev.4.element_count() + prev.5.element_count() + prev.6.element_count()) as int),
            after.subrange((self.0.element_count() + self.1.element_count() + self.2.element_count() + self.3.element_count() + self.4.element_count() + self.5.element_count()) as int, (self.0.element_count() + self.1.element_count() + self.2.element_count() + self.3.element_count() + self.4.element_count() + self.5.element_count() + self.6.element_count()) as int),
        )
        &&& self.7.seq_rebuilds(
            &prev.7,
            before.subrange((prev.0.element_count() + prev.1.element_count() + prev.2.element_count() + prev.3.element_count() + prev.4.element_count() + prev.5.element_count() + prev.6.element_count()) as int, (prev.0.element_count() + prev.1.element_count() + prev.2.element_count() + prev.3.element_count() + prev.4.element_count() + prev.5.element_count() + prev.6.element_count() + prev.7.element_count()) as int),
            after.subrange((self.0.element_count() + self.1.element_count() + self.2.element_count() + self.3.element_count() + self.4.element_count() + self.5.element_count() + self.6.element_count()) as int, (self.0.element_count() + self.1.element_count() + self.2.element_count() + self.3.element_count() + self.4.element_count() + self.5.element_count() + self.6.element_count() + self.7.element_count()) as int),
        )
        &&& self.8.seq_rebuilds(
            &prev.8,
            before.subrange((prev.0.element_count() + prev.1.element_count() + prev.2.element_count() + prev.3.element_count() + prev.4.element_count() + prev.5.element_count() + prev.6.element_count() + prev.7.element_count()) as int, (prev.0.element_count() + prev.1.element_count() + prev.2.element_count() + prev.3.element_count() + prev.4.element_count() + prev.5.element_count() + prev.6.element_count() + prev.7.element_count() + prev.8.element_count()) as int),
            after.subrange((self.0.element_count() + self.1.element_count() + self.2.element_count() + self.3.element_count() + self.4.element_count() + self.5.element_count() + self.6.element_count() + self.7.element_count()) as int, (self.0.element_count() + self.1.element_count() + self.2.element_count() + self.3.element_count() + self.4.element_count() + self.5.element_count() + self.6.element_count() + self.7.element_count() + self.8.element_count()) as int),
        )
        &&& self.9.seq_rebuilds(
            &prev.9,
            before.subrange((prev.0.element_count() + prev.1.element_count() + prev.2.element_count() + prev.3.element_count() + prev.4.element_count() + prev.5.element_count() + prev.6.element_count() + prev.7.element_count() + prev.8.element_count()) as int, (prev.0.element_count() + prev.1.element_count() + prev.2.element_count() + prev.3.element_count() + prev.4.element_count() + prev.5.element_count() + prev.6.element_count() + prev.7.element_count() + prev.8.element_count() + prev.9.element_count()) as int),
            after.subrange((self.0.element_count() + self.1.element_count() + self.2.element_count() + self.3.element_count() + self.4.element_count() + self.5.element_count() + self.6.element_count() + self.7.element_count() + self.8.element_count()) as int, (self.0.element_count() + self.1.element_count() + self.2.element_count() + self.3.element_count() + self.4.element_count() + self.5.element_count() + self.6.element_count() + self.7.element_count() + self.8.element_count() + self.9.element_count()) as int),
        )
        &&& self.10.seq_rebuilds(
            &prev.10,
            before.subrange((prev.0.element_count() + prev.1.element_count() + prev.2.element_count() + prev.3.element_count() + prev.4.element_count() + prev.5.element_count() + prev.6.element_count() + prev.7.element_count() + prev.8.element_count() + prev.9.element_count()) as int, (prev.0.element_count() + prev.1.element_count() + prev.2.element_count() + prev.3.element_count() + prev.4.element_count() + prev.5.element_count() + prev.6.element_count() + prev.7.element_count() + prev.8.element_count() + prev.9.element_count() + prev.10.element_count()) as int),
            after.subrange((self.0.element_count() + self.1.element_count() + self.2.element_count() + self.3.element_count() + self.4.element_count() + self.5.element_count() + self.6.element_count() + self.7.element_count() + self.8.element_count() + self.9.element_count()) as int, (self.0.element_count() + self.1.element_count() + self.2.element_count() + self.3.element_count() + self.4.element_count() + self.5.element_count() + self.6.element_count() + self.7.element_count() + self.8.element_count() + self.9.element_count() + self.10.element_count()) as int),
        )
        &&& self.11.seq_rebuilds(
            &prev.11,
            before.subrange((prev.0.element_count() + prev.1.element_count() + prev.2.element_count() + prev.3.element_count() + prev.4.element_count() + prev.5.element_count() + prev.6.element_count() + prev.7.element_count() + prev.8.element_count() + prev.9.element_count() + prev.10.element_count()) as int, (prev.0.element_count() + prev.1.element_count() + prev.2.element_count() + prev.3.element_count() + prev.4.element_count() + prev.5.element_count() + prev.6.element_count() + prev.7.element_count() + prev.8.element_count() + prev.9.element_count() + prev.10.element_count() + prev.11.element_count()) as int),
            after.subrange((self.0.element_count() + self.1.element_count() + self.2.element_count() + self.3.element_count() + self.4.element_count() + self.5.element_count() + self.6.element_count() + self.7.element_count() + self.8.element_count() + self.9.element_count() + self.10.element_count()) as int, (self.0.element_count() + self.1.element_count() + self.2.element_count() + self.3.element_count() + self.4.element_count() + self.5.element_count() + self.6.element_count() + self.7.element_count() + self.8.element_count() + self.9.element_count() + self.10.element_count() + self.11.element_count()) as int),
        )
        &&& self.12.seq_rebuilds(
            &prev.12,
            before.subrange((prev.0.element_count() + prev.1.element_count() + prev.2.element_count() + prev.3.element_count() + prev.4.element_count() + prev.5.element_count() + prev.6.element_count() + prev.7.element_count() + prev.8.element_count() + prev.9.element_count() + prev.10.element_count() + prev.11.element_count()) as int, (prev.0.element_count() + prev.1.element_count() + prev.2.element_count() + prev.3.element_count() + prev.4.element_count() + prev.5.element_count() + prev.6.element_count() + prev.7.element_count() + prev.8.element_count() + prev.9.element_count() + prev.10.element_count() + prev.11.element_count() + prev.12.element_count()) as int),
            after.subrange((self.0.element_count() + self.1.element_count() + self.2.element_count() + self.3.element_count() + self.4.element_count() + self.5.element_count() + self.6.element_count() + self.7.element_count() + self.8.element_count() + self.9.element_count() + self.10.element_count() + self.11.element_count()) as int, (self.0.element_count() + self.1.element_count() + self.2.element_count() + self.3.element_count() + self.4.element_count() + self.5.element_count() + self.6.element_count() + self.7.element_count() + self.8.element_count() + self.9.element_count() + self.10.element_count() + self.11.element_count() + self.12.element_count()) as int),
        )
    }

    open spec fn seq_tears_down(&self, before: Seq<Element>) -> bool {
        &&& before.len() == self.element_count()
        &&& self.0.seq_tears_down(before.subrange(0int, (self.0.element_count()) as int))
        &&& self.1.seq_tears_down(before.subrange((self.0.element_count()) as int, (self.0.element_count() + self.1.element_count()) as int))
        &&& self.2.seq_tears_down(before.subrange((self.0.element_count() + self.1.element_count()) as int, (self.0.element_count() + self.1.element_count() + self.2.element_count()) as int))
        &&& self.3.seq_tears_down(before.subrange((self.0.element_count() + self.1.element_count() + self.2.element_count()) as int, (self.0.element_count() + self.1.element_count() + self.2.element_count() + self.3.element_count()) as int))
        &&& self.4.seq_tears_down(before.subrange((self.0.element_count() + self.1.element_count() + self.2.element_count() + self.3.element_count()) as int, (self.0.element_count() + self.1.element_count() + self.2.element_count() + self.3.element_count() + self.4.element_count()) as int))
        &&& self.5.seq_tears_down(before.subrange((self.0.element_count() + self.1.element_count() + self.2.element_count() + self.3.element_count() + self.4.element_count()) as int, (self.0.element_count() + self.1.element_count() + self.2.element_count() + self.3.element_count() + self.4.element_count() + self.5.element_count()) as int))
        &&& self.6.seq_tears_down(before.subrange((self.0.element_count() + self.1.element_count() + self.2.element_count() + self.3.element_count() + self.4.element_count() + self.5.element_count()) as int, (self.0.element_count() + self.1.element_count() + self.2.element_count() + self.3.element_count() + self.4.element_count() + self.5.element_count() + self.6.element_count()) as int))
        &&& self.7.seq_tears_down(before.subrange((self.0.element_count() + self.1.element_count() + self.2.element_count() + self.3.element_count() + self.4.element_count() + self.5.element_count() + self.6.element_count()) as int, (self.0.element_count() + self.1.element_count() + self.2.element_count() + self.3.element_count() + self.4.element_count() + self.5.element_count() + self.6.element_count() + self.7.element_count()) as int))
        &&& self.8.seq_tears_down(before.subrange((self.0.element_count() + self.1.element_count() + self.2.element_count() + self.3.element_count() + self.4.element_count() + self.5.element_count() + self.6.element_count() + self.7.element_count()) as int, (self.0.element_count() + self.1.element_count() + self.2.element_count() + self.3.element_count() + self.4.element_count() + self.5.element_count() + self.6.element_count() + self.7.element_count() + self.8.element_count()) as int))
        &&& self.9.seq_tears_down(before.subrange((self.0.element_count() + self.1.element_count() + self.2.element_count() + self.3.element_count() + self.4.element_count() + self.5.element_count() + self.6.element_count() + self.7.element_count() + self.8.element_count()) as int, (self.0.element_count() + self.1.element_count() + self.2.element_count() + self.3.element_count() + self.4.element_count() + self.5.element_count() + self.6.element_count() + self.7.element_count() + self.8.element_count() + self.9.element_count()) as int))
        &&& self.10.seq_tears_down(before.subrange((self.0.element_count() + self.1.element_count() + self.2.element_count() + self.3.element_count() + self.4.element_count() + self.5.element_count() + self.6.element_count() + self.7.element_count() + self.8.element_count() + self.9.element_count()) as int, (self.0.element_count() + self.1.element_count() + self.2.element_count() + self.3.element_count() + self.4.element_count() + self.5.element_count() + self.6.element_count() + self.7.element_count() + self.8.element_count() + self.9.element_count() + self.10.element_count()) as int))
        &&& self.11.seq_tears_down(before.subrange((self.0.element_count() + self.1.element_count() + self.2.element_count() + self.3.element_count() + self.4.element_count() + self.5.element_count() + self.6.element_count() + self.7.element_count() + self.8.element_count() + self.9.element_count() + self.10.element_count()) as int, (self.0.element_count() + self.1.element_count() + self.2.element_count() + self.3.element_count() + self.4.element_count() + self.5.element_count() + self.6.element_count() + self.7.element_count() + self.8.element_count() + self.9.element_count() + self.10.element_count() + self.11.element_count()) as int))
        &&& self.12.seq_tears_down(before.subrange((self.0.element_count() + self.1.element_count() + self.2.element_count() + self.3.element_count() + self.4.element_count() + self.5.element_count() + self.6.element_count() + self.7.element_count() + self.8.element_count() + self.9.element_count() + self.10.element_count() + self.11.element_count()) as int, (self.0.element_count() + self.1.element_count() + self.2.element_count() + self.3.element_count() + self.4.element_count() + self.5.element_count() + self.6.element_count() + self.7.element_count() + self.8.element_count() + self.9.element_count() + self.10.element_count() + self.11.element_count() + self.12.element_count()) as int))
    }

    #[verifier::spinoff_prover]
    #[verifier::rlimit(100)]
    fn seq_build(&self, elements: &mut Vec<Element>) {
        let ghost start = elements@;
        let ghost sl = start.len() as int;
        let ghost b0 = elements@;
        self.0.seq_build(elements);
        let ghost f0 = elements@;
        let ghost b1 = elements@;
        self.1.seq_build(elements);
        let ghost f1 = elements@;
        proof {
            lemma_prefix_kept(start, b1, elements@);
        }
        let ghost b2 = elements@;
        self.2.seq_build(elements);
        let ghost f2 = elements@;
        proof {
            lemma_prefix_kept(start, b2, elements@);
        }
        let ghost b3 = elements@;
        self.3.seq_build(elements);
        let ghost f3 = elements@;
        proof {
            lemma_prefix_kept(start, b3, elements@);
        }
        let ghost b4 = elements@;
        self.4.seq_build(elements);
        let ghost f4 = elements@;
        proof {
            lemma_prefix_kept(start, b4, elements@);
        }
        let ghost b5 = elements@;
        self.5.seq_build(elements);
        let ghost f5 = elements@;
        proof {
            lemma_prefix_kept(start, b5, elements@);
        }
        let ghost b6 = elements@;
        self.6.seq_build(elements);
        let ghost f6 = elements@;
        proof {
            lemma_prefix_kept(start, b6, elements@);
        }
        let ghost b7 = elements@;
        self.7.seq_build(elements);
        let ghost f7 = elements@;
        proof {
            lemma_prefix_kept(start, b7, elements@);
        }
        let ghost b8 = elements@;
        self.8.seq_build(elements);
        let ghost f8 = elements@;
        proof {
            lemma_prefix_kept(start, b8, elements@);
        }
        let ghost b9 = elements@;
        self.9.seq_build(elements);
        let ghost f9 = elements@;
        proof {
            lemma_prefix_kept(start, b9, elements@);
        }
        let ghost b10 = elements@;
        self.10.seq_build(elements);
        let ghost f10 = elements@;
        proof {
            lemma_prefix_kept(start, b10, elements@);
        }
        let ghost b11 = elements@;
        self.11.seq_build(elements);
        let ghost f11 = elements@;
        proof {
            lemma_prefix_kept(start, b11, elements@);
        }
        let ghost b12 = elements@;
        self.12.seq_build(elements);
        let ghost f12 = elements@;
        proof {
            lemma_prefix_kept(start, b12, elements@);
        }
        proof {
            let fin = elements@;
            assert(fin.take(fin.len() as int) =~= f12.take(fin.len() as int));
            assert(f12.take(b12.len() as int) == b12);
            assert(b12.take(b12.len() as int) =~= b12);
            lemma_take_link(fin, f12, b12, b12.len() as int, fin.len() as int);
            assert(b11.take(b11.len() as int) =~= b11);
            lemma_take_link(fin, f11, b11, b11.len() as int, b12.len() as int);
            assert(b10.take(b10.len() as int) =~= b10);
            lemma_take_link(fin, f10, b10, b10.len() as int, b11.len() as int);
            assert(b9.take(b9.len() as int) =~= b9);
            lemma_take_link(fin, f9, b9, b9.len() as int, b10.len() as int);
            assert(b8.take(b8.len() as int) =~= b8);
            lemma_take_link(fin, f8, b8, b8.len() as int, b9.len() as int);
            assert(b7.take(b7.len() as int) =~= b7);
            lemma_take_link(fin, f7, b7, b7.len() as int, b8.len() as int);
            assert(b6.take(b6.len() as int) =~= b6);
            lemma_take_link(fin, f6, b6, b6.len() as int, b7.len() as int);
            assert(b5.take(b5.len() as int) =~= b5);
            lemma_take_link(fin, f5, b5, b5.len() as int, b6.len() as int);
            assert(b4.take(b4.len() as int) =~= b4);
            lemma_take_link(fin, f4, b4, b4.len() as int, b5.len() as int);
            assert(b3.take(b3.len() as int) =~= b3);
            lemma_take_link(fin, f3, b3, b3.len() as int, b4.len() as int);
            assert(b2.take(b2.len() as int) =~= b2);
            lemma_take_link(fin, f2, b2, b2.len() as int, b3.len() as int);
            assert(b1.take(b1.len() as int) =~= b1);
            lemma_take_link(fin, f1, b1, b1.len() as int, b2.len() as int);
            assert(self.0.seq_builds(fin.skip(sl).subrange(0int, (self.0.element_count()) as int))) by {
                lemma_sub_stable(fin, f0, b1.len() as int, sl + 0int, sl + (self.0.element_count()) as int);
                assert(f0.skip(b0.len() as int) =~= f0.subrange(sl + 0int, sl + (self.0.element_count()) as int));
                assert(fin.skip(sl).subrange(0int, (self.0.element_count()) as int) =~= fin.subrange(sl + 0int, sl + (self.0.element_count()) as int));
            }
            assert(self.1.seq_builds(fin.skip(sl).subrange((self.0.element_count()) as int, (self.0.element_count() + self.1.element_count()) as int))) by {
                lemma_sub_stable(fin, f1, b2.len() as int, sl + (self.0.element_count()) as int, sl + (self.0.element_count() + self.1.element_count()) as int);
                assert(f1.skip(b1.len() as int) =~= f1.subrange(sl + (self.0.element_count()) as int, sl + (self.0.element_count() + self.1.element_count()) as int));
                assert(fin.skip(sl).subrange((self.0.element_count()) as int, (self.0.element_count() + self.1.element_count()) as int) =~= fin.subrange(sl + (self.0.element_count()) as int, sl + (self.0.element_count() + self.1.element_count()) as int));
            }
            assert(self.2.seq_builds(fin.skip(sl).subrange((self.0.element_count() + self.1.element_count()) as int, (self.0.element_count() + self.1.element_count() + self.2.element_count()) as int))) by {
                lemma_sub_stable(fin, f2, b3.len() as int, sl + (self.0.element_count() + self.1.element_count()) as int, sl + (self.0.element_count() + self.1.element_count() + self.2.element_count()) as int);
                assert(f2.skip(b2.len() as int) =~= f2.subrange(sl + (self.0.element_count() + self.1.element_count()) as int, sl + (self.0.element_count() + self.1.element_count() + self.2.element_count()) as int));
                assert(fin.skip(sl).subrange((self.0.element_count() + self.1.element_count()) as int, (self.0.element_count() + self.1.element_count() + self.2.element_count()) as int) =~= fin.subrange(sl + (self.0.element_count() + self.1.element_count()) as int, sl + (self.0.element_count() + self.1.element_count() + self.2.element_count()) as int));
            }
            assert(self.3.seq_builds(fin.skip(sl).subrange((self.0.element_count() + self.1.element_count() + self.2.element_count()) as int, (self.0.element_count() + self.1.element_count() + self.2.element_count() + self.3.element_count()) as int))) by {
                lemma_sub_stable(fin, f3, b4.len() as int, sl + (self.0.element_count() + self.1.element_count() + self.2.element_count()) as int, sl + (self.0.element_count() + self.1.element_count() + self.2.element_count() + self.3.element_count()) as int);
                assert(f3.skip(b3.len() as int) =~= f3.subrange(sl + (self.0.element_count() + self.1.element_count() + self.2.element_count()) as int, sl + (self.0.element_count() + self.1.element_count() + self.2.element_count() + self.3.element_count()) as int));
                assert(fin.skip(sl).subrange((self.0.element_count() + self.1.element_count() + self.2.element_count()) as int, (self.0.element_count() + self.1.element_count() + self.2.element_count() + self.3.element_count()) as int) =~= fin.subrange(sl + (self.0.element_count() + self.1.element_count() + self.2.element_count()) as int, sl + (self.0.element_count() + self.1.element_count() + self.2.element_count() + self.3.element_count()) as int));
            }
            assert(self.4.seq_builds(fin.skip(sl).subrange((self.0.element_count() + self.1.element_count() + self.2.element_count() + self.3.element_count()) as int, (self.0.element_count() + self.1.element_count() + self.2.element_count() + self.3.element_count() + self.4.element_count()) as int))) by {
                lemma_sub_stable(fin, f4, b5.len() as int, sl + (self.0.element_count() + self.1.element_count() + self.2.element_count() + self.3.element_count()) as int, sl + (self.0.element_count() + self.1.element_count() + self.2.element_count() + self.3.element_count() + self.4.element_count()) as int);
                assert(f4.skip(b4.len() as int) =~= f4.subrange(sl + (self.0.element_count() + self.1.element_count() + self.2.element_count() + self.3.element_count()) as int, sl + (self.0.element_count() + self.1.element_count() + self.2.element_count() + self.3.element_count() + self.4.element_count()) as int));
                assert(fin.skip(sl).subrange((self.0.element_count() + self.1.element_count() + self.2.element_count() + self.3.element_count()) as int, (self.0.element_count() + self.1.element_count() + self.2.element_count() + self.3.element_count() + self.4.element_count()) as int) =~= fin.subrange(sl + (self.0.element_count() + self.1.element_count() + self.2.element_count() + self.3.element_count()) as int, sl + (self.0.element_count() + self.1.element_count() + self.2.element_count() + self.3.element_count() + self.4.element_count()) as int));
            }
            assert(self.5.seq_builds(fin.skip(sl).subrange((self.0.element_count() + self.1.element_count() + self.2.element_count() + self.3.element_count() + self.4.element_count()) as int, (self.0.element_count() + self.1.element_count() + self.2.element_count() + self.3.element_count() + self.4.element_count() + self.5.element_count()) as int))) by {
                lemma_sub_stable(fin, f5, b6.len() as int, sl + (self.0.element_count() + self.1.element_count() + self.2.element_count() + self.3.element_count() + self.4.element_count()) as int, sl + (self.0.element_count() + self.1.element_count() + self.2.element_count() + self.3.element_count() + self.4.element_count() + self.5.element_count()) as int);
                assert(f5.skip(b5.len() as int) =~= f5.subrange(sl + (self.0.element_count() + self.1.element_count() + self.2.element_count() + self.3.element_count() + self.4.element_count()) as int, sl + (self.0.element_count() + self.1.element_count() + self.2.element_count() + self.3.element_count() + self.4.element_count() + self.5.element_count()) as int));
                assert(fin.skip(sl).subrange((self.0.element_count() + self.1.element_count() + self.2.element_count() + self.3.element_count() + self.4.element_count()) as int, (self.0.element_count() + self.1.element_count() + self.2.element_count() + self.3.element_count() + self.4.element_count() + self.5.element_count()) as int) =~= fin.subrange(sl + (self.0.element_count() + self.1.element_count() + self.2.element_count() + self.3.element_count() + self.4.element_count()) as int, sl + (self.0.element_count() + self.1.element_count() + self.2.element_count() + self.3.element_count() + self.4.element_count() + self.5.element_count()) as int));
            }
            assert(self.6.seq_builds(fin.skip(sl).subrange((self.0.element_count() + self.1.element_count() + self.2.element_count() + self.3.element_count() + self.4.element_count() + self.5.element_count()) as int, (self.0.element_count() + self.1.element_count() + self.2.element_count() + self.3.element_count() + self.4.element_count() + self.5.element_count() + self.6.element_count()) as int))) by {
                lemma_sub_stable(fin, f6, b7.len() as int, sl + (self.0.element_count() + self.1.element_count() + self.2.element_count() + self.3.element_count() + self.4.element_count() + self.5.element_count()) as int, sl + (self.0.element_count() + self.1.element_count() + self.2.element_count() + self.3.element_count() + self.4.element_count() + self.5.element_count() + self.6.element_count()) as int);
                assert(f6.skip(b6.len() as int) =~= f6.subrange(sl + (self.0.element_count() + self.1.element_count() + self.2.element_count() + self.3.element_count() + self.4.element_count() + self.5.element_count()) as int, sl + (self.0.element_count() + self.1.element_count() + self.2.element_count() + self.3.element_count() + self.4.element_count() + self.5.element_count() + self.6.element_count()) as int));
                assert(fin.skip(sl).subrange((self.0.element_count() + self.1.element_count() + self.2.element_count() + self.3.element_count() + self.4.element_count() + self.5.element_count()) as int, (self.0.element_count() + self.1.element_count() + self.2.element_count() + self.3.element_count() + self.4.element_count() + self.5.element_count() + self.6.element_count()) as int) =~= fin.subrange(sl + (self.0.element_count() + self.1.element_count() + self.2.element_count() + self.3.element_count() + self.4.element_count() + self.5.element_count()) as int, sl + (self.0.element_count() + self.1.element_count() + self.2.element_count() + self.3.element_count() + self.4.element_count() + self.5.element_count() + self.6.element_count()) as int));
            }
            assert(self.7.seq_builds(fin.skip(sl).subrange((self.0.element_count() + self.1.element_count() + self.2.element_count() + self.3.element_count() + self.4.element_count() + self.5.element_count() + self.6.element_count()) as int, (self.0.element_count() + self.1.element_count() + self.2.element_count() + self.3.element_count() + self.4.element_count() + self.5.element_count() + self.6.element_count() + self.7.element_count()) as int))) by {
                lemma_sub_stable(fin, f7, b8.len() as int, sl + (self.0.element_count() + self.1.element_count() + self.2.element_count() + self.3.element_count() + self.4.element_count() + self.5.element_count() + self.6.element_count()) as int, sl + (self.0.element_count() + self.1.element_count() + self.2.element_count() + self.3.element_count() + self.4.element_count() + self.5.element_count() + self.6.element_count() + self.7.element_count()) as int);
                assert(f7.skip(b7.len() as int) =~= f7.subrange(sl + (self.0.element_count() + self.1.element_count() + self.2.element_count() + self.3.element_count() + self.4.element_count() + self.5.element_count() + self.6.element_count()) as int, sl + (self.0.element_count() + self.1.element_count() + self.2.element_count() + self.3.element_count() + self.4.element_count() + self.5.element_count() + self.6.element_count() + self.7.element_count()) as int));
                assert(fin.skip(sl).subrange((self.0.element_count() + self.1.element_count() + self.2.element_count() + self.3.element_count() + self.4.element_count() + self.5.element_count() + self.6.element_count()) as int, (self.0.element_count() + self.1.element_count() + self.2.element_count() + self.3.element_count() + self.4.element_count() + self.5.element_count() + self.6.element_count() + self.7.element_count()) as int) =~= fin.subrange(sl + (self.0.element_count() + self.1.element_count() + self.2.element_count() + self.3.element_count() + self.4.element_count() + self.5.element_count() + self.6.element_count()) as int, sl + (self.0.element_count() + self.1.element_count() + self.2.element_count() + self.3.element_count() + self.4.element_count() + self.5.element_count() + self.6.element_count() + self.7.element_count()) as int));
            }
            assert(self.8.seq_builds(fin.skip(sl).subrange((self.0.element_count() + self.1.element_count() + self.2.element_count() + self.3.element_count() + self.4.element_count() + self.5.element_count() + self.6.element_count() + self.7.element_count()) as int, (self.0.element_count() + self.1.element_count() + self.2.element_count() + self.3.element_count() + self.4.element_count() + self.5.element_count() + self.6.element_count() + self.7.element_count() + self.8.element_count()) as int))) by {
                lemma_sub_stable(fin, f8, b9.len() as int, sl + (self.0.element_count() + self.1.element_count() + self.2.element_count() + self.3.element_count() + self.4.element_count() + self.5.element_count() + self.6.element_count() + self.7.element_count()) as int, sl + (self.0.element_count() + self.1.element_count() + self.2.element_count() + self.3.element_count() + self.4.element_count() + self.5.element_count() + self.6.element_count() + self.7.element_count() + self.8.element_count()) as int);
                assert(f8.skip(b8.len() as int) =~= f8.subrange(sl + (self.0.element_count() + self.1.element_count() + self.2.element_count() + self.3.element_count() + self.4.element_count() + self.5.element_count() + self.6.element_count() + self.7.element_count()) as int, sl + (self.0.element_count() + self.1.element_count() + self.2.element_count() + self.3.element_count() + self.4.element_count() + self.5.element_count() + self.6.element_count() + self.7.element_count() + self.8.element_count()) as int));
                assert(fin.skip(sl).subrange((self.0.element_count() + self.1.element_count() + self.2.element_count() + self.3.element_count() + self.4.element_count() + self.5.element_count() + self.6.element_count() + self.7.element_count()) as int, (self.0.element_count() + self.1.element_count() + self.2.element_count() + self.3.element_count() + self.4.element_count() + self.5.element_count() + self.6.element_count() + self.7.element_count() + self.8.element_count()) as int) =~= fin.subrange(sl + (self.0.element_count() + self.1.element_count() + self.2.element_count() + self.3.element_count() + self.4.element_count() + self.5.element_count() + self.6.element_count() + self.7.element_count()) as int, sl + (self.0.element_count() + self.1.element_count() + self.2.element_count() + self.3.element_count() + self.4.element_count() + self.5.element_count() + self.6.element_count() + self.7.element_count() + self.8.element_count()) as int));
            }
            assert(self.9.seq_builds(fin.skip(sl).subrange((self.0.element_count() + self.1.element_count() + self.2.element_count() + self.3.element_count() + self.4.element_count() + self.5.element_count() + self.6.element_count() + self.7.element_count() + self.8.element_count()) as int, (self.0.element_count() + self.1.element_count() + self.2.element_count() + self.3.element_count() + self.4.element_count() + self.5.element_count() + self.6.element_count() + self.7.element_count() + self.8.element_count() + self.9.element_count()) as int))) by {
                lemma_sub_stable(fin, f9, b10.len() as int, sl + (self.0.element_count() + self.1.element_count() + self.2.element_count() + self.3.element_count() + self.4.element_count() + self.5.element_count() + self.6.element_count() + self.7.element_count() + self.8.element_count()) as int, sl + (self.0.element_count() + self.1.element_count() + self.2.element_count() + self.3.element_count() + self.4.element_count() + self.5.element_count() + self.6.element_count() + self.7.element_count() + self.8.element_count() + self.9.element_count()) as int);
                assert(f9.skip(b9.len() as int) =~= f9.subrange(sl + (self.0.element_count() + self.1.element_count() + self.2.element_count() + self.3.element_count() + self.4.element_count() + self.5.element_count() + self.6.element_count() + self.7.element_count() + self.8.element_count()) as int, sl + (self.0.element_count() + self.1.element_count() + self.2.element_count() + self.3.element_count() + self.4.element_count() + self.5.element_count() + self.6.element_count() + self.7.element_count() + self.8.element_count() + self.9.element_count()) as int));
                assert(fin.skip(sl).subrange((self.0.element_count() + self.1.element_count() + self.2.element_count() + self.3.element_count() + self.4.element_count() + self.5.element_count() + self.6.element_count() + self.7.element_count() + self.8.element_count()) as int, (self.0.element_count() + self.1.element_count() + self.2.element_count() + self.3.element_count() + self.4.element_count() + self.5.element_count() + self.6.element_count() + self.7.element_count() + self.8.element_count() + self.9.element_count()) as int) =~= fin.subrange(sl + (self.0.element_count() + self.1.element_count() + self.2.element_count() + self.3.element_count() + self.4.element_count() + self.5.element_count() + self.6.element_count() + self.7.element_count() + self.8.element_count()) as int, sl + (self.0.element_count() + self.1.element_count() + self.2.element_count() + self.3.element_count() + self.4.element_count() + self.5.element_count() + self.6.element_count() + self.7.element_count() + self.8.element_count() + self.9.element_count()) as int));
            }
            assert(self.10.seq_builds(fin.skip(sl).subrange((self.0.element_count() + self.1.element_count() + self.2.element_count() + self.3.element_count() + self.4.element_count() + self.5.element_count() + self.6.element_count() + self.7.element_count() + self.8.element_count() + self.9.element_count()) as int, (self.0.element_count() + self.1.element_count() + self.2.element_count() + self.3.element_count() + self.4.element_count() + self.5.element_count() + self.6.element_count() + self.7.element_count() + self.8.element_count() + self.9.element_count() + self.10.element_count()) as int))) by {
                lemma_sub_stable(fin, f10, b11.len() as int, sl + (self.0.element_count() + self.1.element_count() + self.2.element_count() + self.3.element_count() + self.4.element_count() + self.5.element_count() + self.6.element_count() + self.7.element_count() + self.8.element_count() + self.9.element_count()) as int, sl + (self.0.element_count() + self.1.element_count() + self.2.element_count() + self.3.element_count() + self.4.element_count() + self.5.element_count() + self.6.element_count() + self.7.element_count() + self.8.element_count() + self.9.element_count() + self.10.element_count()) as int);
                assert(f10.skip(b10.len() as int) =~= f10.subrange(sl + (self.0.element_count() + self.1.element_count() + self.2.element_count() + self.3.element_count() + self.4.element_count() + self.5.element_count() + self.6.element_count() + self.7.element_count() + self.8.element_count() + self.9.element_count()) as int, sl + (self.0.element_count() + self.1.element_count() + self.2.element_count() + self.3.element_count() + self.4.element_count() + self.5.element_count() + self.6.element_count() + self.7.element_count() + self.8.element_count() + self.9.element_count() + self.10.element_count()) as int));
                assert(fin.skip(sl).subrange((self.0.element_count() + self.1.element_count() + self.2.element_count() + self.3.element_count() + self.4.element_count() + self.5.element_count() + self.6.element_count() + self.7.element_count() + self.8.element_count() + self.9.element_count()) as int, (self.0.element_count() + self.1.element_count() + self.2.element_count() + self.3.element_count() + self.4.element_count() + self.5.element_count() + self.6.element_count() + self.7.element_count() + self.8.element_count() + self.9.element_count() + self.10.element_count()) as int) =~= fin.subrange(sl + (self.0.element_count() + self.1.element_count() + self.2.element_count() + self.3.element_count() + self.4.element_count() + self.5.element_count() + self.6.element_count() + self.7.element_count() + self.8.element_count() + self.9.element_count()) as int, sl + (self.0.element_count() + self.1.element_count() + self.2.element_count() + self.3.element_count() + self.4.element_count() + self.5.element_count() + self.6.element_count() + self.7.element_count() + self.8.element_count() + self.9.element_count() + self.10.element_count()) as int));
            }
            assert(self.11.seq_builds(fin.skip(sl).subrange((self.0.element_count() + self.1.element_count() + self.2.element_count() + self.3.element_count() + self.4.element_count() + self.5.element_count() + self.6.element_count() + self.7.element_count() + self.8.element_count() + self.9.element_count() + self.10.element_count()) as int, (self.0.element_count() + self.1.element_count() + self.2.element_count() + self.3.element_count() + self.4.element_count() + self.5.element_count() + self.6.element_count() + self.7.element_count() + self.8.element_count() + self.9.element_count() + self.10.element_count() + self.11.element_count()) as int))) by {
                lemma_sub_stable(fin, f11, b12.len() as int, sl + (self.0.element_count() + self.1.element_count() + self.2.element_count() + self.3.element_count() + self.4.element_count() + self.5.element_count() + self.6.element_count() + self.7.element_count() + self.8.element_count() + self.9.element_count() + self.10.element_count()) as int, sl + (self.0.element_count() + self.1.element_count() + self.2.element_count() + self.3.element_count() + self.4.element_count() + self.5.element_count() + self.6.element_count() + self.7.element_count() + self.8.element_count() + self.9.element_count() + self.10.element_count() + self.11.element_count()) as int);
                assert(f11.skip(b11.len() as int) =~= f11.subrange(sl + (self.0.element_count() + self.1.element_count() + self.2.element_count() + self.3.element_count() + self.4.element_count() + self.5.element_count() + self.6.element_count() + self.7.element_count() + self.8.element_count() + self.9.element_count() + self.10.element_count()) as int, sl + (self.0.element_count() + self.1.element_count() + self.2.element_count() + self.3.element_count() + self.4.element_count() + self.5.element_count() + self.6.element_count() + self.7.element_count() + self.8.element_count() + self.9.element_count() + self.10.element_count() + self.11.element_count()) as int));
                assert(fin.skip(sl).subrange((self.0.element_count() + self.1.element_count() + self.2.element_count() + self.3.element_count() + self.4.element_count() + self.5.element_count() + self.6.element_count() + self.7.element_count() + self.8.element_count() + self.9.element_count() + self.10.element_count()) as int, (self.0.element_count() + self.1.element_count() + self.2.element_count() + self.3.element_count() + self.4.element_count() + self.5.element_count() + self.6.element_count() + self.7.element_count() + self.8.element_count() + self.9.element_count() + self.10.element_count() + self.11.element_count()) as int) =~= fin.subrange(sl + (self.0.element_count() + self.1.element_count() + self.2.element_count() + self.3.element_count() + self.4.element_count() + self.5.element_count() + self.6.element_count() + self.7.element_count() + self.8.element_count() + self.9.element_count() + self.10.element_count()) as int, sl + (self.0.element_count() + self.1.element_count() + self.2.element_count() + self.3.element_count() + self.4.element_count() + self.5.element_count() + self.6.element_count() + self.7.element_count() + self.8.element_count() + self.9.element_count() + self.10.element_count() + self.11.element_count()) as int));
            }
            assert(self.12.seq_builds(fin.skip(sl).subrange((self.0.element_count() + self.1.element_count() + self.2.element_count() + self.3.element_count() + self.4.element_count() + self.5.element_count() + self.6.element_count() + self.7.element_count() + self.8.element_count() + self.9.element_count() + self.10.element_count() + self.11.element_count()) as int, (self.0.element_count() + self.1.element_count() + self.2.element_count() + self.3.element_count() + self.4.element_count() + self.5.element_count() + self.6.element_count() + self.7.element_count() + self.8.element_count() + self.9.element_count() + self.10.element_count() + self.11.element_count() + self.12.element_count()) as int))) by {
                assert(f12.skip(b12.len() as int) =~= f12.subrange(sl + (self.0.element_count() + self.1.element_count() + self.2.element_count() + self.3.element_count() + self.4.element_count() + self.5.element_count() + self.6.element_count() + self.7.element_count() + self.8.element_count() + self.9.element_count() + self.10.element_count() + self.11.element_count()) as int, sl + (self.0.element_count() + self.1.element_count() + self.2.element_count() + self.3.element_count() + self.4.element_count() + self.5.element_count() + self.6.element_count() + self.7.element_count() + self.8.element_count() + self.9.element_count() + self.10.element_count() + self.11.element_count() + self.12.element_count()) as int));
                assert(fin.skip(sl).subrange((self.0.element_count() + self.1.element_count() + self.2.element_count() + self.3.element_count() + self.4.element_count() + self.5.element_count() + self.6.element_count() + self.7.element_count() + self.8.element_count() + self.9.element_count() + self.10.element_count() + self.11.element_count()) as int, (self.0.element_count() + self.1.element_count() + self.2.element_count() + self.3.element_count() + self.4.element_count() + self.5.element_count() + self.6.element_count() + self.7.element_count() + self.8.element_count() + self.9.element_count() + self.10.element_count() + self.11.element_count() + self.12.element_count()) as int) =~= fin.subrange(sl + (self.0.element_count() + self.1.element_count() + self.2.element_count() + self.3.element_count() + self.4.element_count() + self.5.element_count() + self.6.element_count() + self.7.element_count() + self.8.element_count() + self.9.element_count() + self.10.element_count() + self.11.element_count()) as int, sl + (self.0.element_count() + self.1.element_count() + self.2.element_count() + self.3.element_count() + self.4.element_count() + self.5.element_count() + self.6.element_count() + self.7.element_count() + self.8.element_count() + self.9.element_count() + self.10.element_count() + self.11.element_count() + self.12.element_count()) as int));
            }
        }
    }

    #[verifier::spinoff_prover]
    #[verifier::rlimit(100)]
    fn seq_rebuild<Splice: ElementSplice<Element>>(&self, prev: &Self, elements: &mut Splice) {
        let ghost a = elements.items();
        let ghost c0 = elements.cursor();
        proof {
            lemma_kept_refl(a, c0);
        }
        let ghost b0 = elements.items();
        let ghost cb0 = elements.cursor();
        proof {
            assert(b0.skip(cb0 as int).len() == a.skip((c0 + 0) as int).len());
        }
        self.0.seq_rebuild(&prev.0, elements);
        let ghost f0 = elements.items();
        proof {
            assert(self.0.seq_rebuilds(
                &prev.0,
                a.subrange(c0 + 0int, c0 + (prev.0.element_count()) as int),
                f0.subrange(cb0 as int, (cb0 + self.0.element_count()) as int),
            )) by {
                lemma_sub_shift(a, b0, (c0 + 0) as int, cb0 as int, prev.0.element_count() as int);
            }
            lemma_kept_compose(a, c0, 0, b0, cb0, prev.0.element_count(), elements.items(), elements.cursor());
        }
        let ghost b1 = elements.items();
        let ghost cb1 = elements.cursor();
        proof {
            assert(b1.skip(cb1 as int).len() == a.skip((c0 + (prev.0.element_count())) as int).len());
        }
        self.1.seq_rebuild(&prev.1, elements);
        let ghost f1 = elements.items();
        proof {
            assert(self.1.seq_rebuilds(
                &prev.1,
                a.subrange(c0 + (prev.0.element_count()) as int, c0 + (prev.0.element_count() + prev.1.element_count()) as int),
                f1.subrange(cb1 as int, (cb1 + self.1.element_count()) as int),
            )) by {
                lemma_sub_shift(a, b1, (c0 + (prev.0.element_count())) as int, cb1 as int, prev.1.element_count() as int);
            }
            lemma_kept_compose(a, c0, (prev.0.element_count()), b1, cb1, prev.1.element_count(), elements.items(), elements.cursor());
        }
        let ghost b2 = elements.items();
        let ghost cb2 = elements.cursor();
        proof {
            assert(b2.skip(cb2 as int).len() == a.skip((c0 + (prev.0.element_count() + prev.1.element_count())) as int).len());
        }
        self.2.seq_rebuild(&prev.2, elements);
        let ghost f2 = elements.items();
        proof {
            assert(self.2.seq_rebuilds(
                &prev.2,
                a.subrange(c0 + (prev.0.element_count() + prev.1.element_count()) as int, c0 + (prev.0.element_count() + prev.1.element_count() + prev.2.element_count()) as int),
                f2.subrange(cb2 as int, (cb2 + self.2.element_count()) as int),
            )) by {
                lemma_sub_shift(a, b2, (c0 + (prev.0.element_count() + prev.1.element_count())) as int, cb2 as int, prev.2.element_count() as int);
            }
            lemma_kept_compose(a, c0, (prev.0.element_count() + prev.1.element_count()), b2, cb2, prev.2.element_count(), elements.items(), elements.cursor());
        }
        let ghost b3 = elements.items();
        let ghost cb3 = elements.cursor();
        proof {
            assert(b3.skip(cb3 as int).len() == a.skip((c0 + (prev.0.element_count() + prev.1.element_count() + prev.2.element_count())) as int).len());
        }
        self.3.seq_rebuild(&prev.3, elements);
        let ghost f3 = elements.items();
        proof {
            assert(self.3.seq_rebuilds(
                &prev.3,
                a.subrange(c0 + (prev.0.element_count() + prev.1.element_count() + prev.2.element_count()) as int, c0 + (prev.0.element_count() + prev.1.element_count() + prev.2.element_count() + prev.3.element_count()) as int),
                f3.subrange(cb3 as int, (cb3 + self.3.element_count()) as int),
            )) by {
                lemma_sub_shift(a, b3, (c0 + (prev.0.element_count() + prev.1.element_count() + prev.2.element_count())) as int, cb3 as int, prev.3.element_count() as int);
            }
            lemma_kept_compose(a, c0, (prev.0.element_count() + prev.1.element_count() + prev.2.element_count()), b3, cb3, prev.3.element_count(), elements.items(), elements.cursor());
        }
        let ghost b4 = elements.items();
        let ghost cb4 = elements.cursor();
        proof {
            assert(b4.skip(cb4 as int).len() == a.skip((c0 + (prev.0.element_count() + prev.1.element_count() + prev.2.element_count() + prev.3.element_count())) as int).len());
        }
        self.4.seq_rebuild(&prev.4, elements);
        let ghost f4 = elements.items();
        proof {
            assert(self.4.seq_rebuilds(
                &prev.4,
                a.subrange(c0 + (prev.0.element_count() + prev.1.element_count() + prev.2.element_count() + prev.3.element_count()) as int, c0 + (prev.0.element_count() + prev.1.element_count() + prev.2.element_count() + prev.3.element_count() + prev.4.element_count()) as int),
                f4.subrange(cb4 as int, (cb4 + self.4.element_count()) as int),
            )) by {
                lemma_sub_shift(a, b4, (c0 + (prev.0.element_count() + prev.1.element_count() + prev.2.element_count() + prev.3.element_count())) as int, cb4 as int, prev.4.element_count() as int);
            }
            lemma_kept_compose(a, c0, (prev.0.element_count() + prev.1.element_count() + prev.2.element_count() + prev.3.element_count()), b4, cb4, prev.4.element_count(), elements.items(), elements.cursor());
        }
        let ghost b5 = elements.items();
        let ghost cb5 = elements.cursor();
        proof {
            assert(b5.skip(cb5 as int).len() == a.skip((c0 + (prev.0.element_count() + prev.1.element_count() + prev.2.element_count() + prev.3.element_count() + prev.4.element_count())) as int).len());
        }
        self.5.seq_rebuild(&prev.5, elements);
        let ghost f5 = elements.items();
        proof {
            assert(self.5.seq_rebuilds(
                &prev.5,
                a.subrange(c0 + (prev.0.element_count() + prev.1.element_count() + prev.2.element_count() + prev.3.element_count() + prev.4.element_count()) as int, c0 + (prev.0.element_count() + prev.1.element_count() + prev.2.element_count() + prev.3.element_count() + prev.4.element_count() + prev.5.element_count()) as int),
                f5.subrange(cb5 as int, (cb5 + self.5.element_count()) as int),
            )) by {
                lemma_sub_shift(a, b5, (c0 + (prev.0.element_count() + prev.1.element_count() + prev.2.element_count() + prev.3.element_count() + prev.4.element_count())) as int, cb5 as int, prev.5.element_count() as int);
            }
            lemma_kept_compose(a, c0, (prev.0.element_count() + prev.1.element_count() + prev.2.element_count() + prev.3.element_count() + prev.4.element_count()), b5, cb5, prev.5.element_count(), elements.items(), elements.cursor());
        }
        let ghost b6 = elements.items();
        let ghost cb6 = elements.cursor();
        proof {
            assert(b6.skip(cb6 as int).len() == a.skip((c0 + (prev.0.element_count() + prev.1.element_count() + prev.2.element_count() + prev.3.element_count() + prev.4.element_count() + prev.5.element_count())) as int).len());
        }
        self.6.seq_rebuild(&prev.6, elements);
        let ghost f6 = elements.items();
        proof {
            assert(self.6.seq_rebuilds(
                &prev.6,
                a.subrange(c0 + (prev.0.element_count() + prev.1.element_count() + prev.2.element_count() + prev.3.element_count() + prev.4.element_count() + prev.5.element_count()) as int, c0 + (prev.0.element_count() + prev.1.element_count() + prev.2.element_count() + prev.3.element_count() + prev.4.element_count() + prev.5.element_count() + prev.6.element_count()) as int),
                f6.subrange(cb6 as int, (cb6 + self.6.element_count()) as int),
            )) by {
                lemma_sub_shift(a, b6, (c0 + (prev.0.element_count() + prev.1.element_count() + prev.2.element_count() + prev.3.element_count() + prev.4.element_count() + prev.5.element_count())) as int, cb6 as int, prev.6.element_count() as int);
            }
            lemma_kept_compose(a, c0, (prev.0.element_count() + prev.1.element_count() + prev.2.element_count() + prev.3.element_count() + prev.4.element_count() + prev.5.element_count()), b6, cb6, prev.6.element_count(), elements.items(), elements.cursor());
        }
        let ghost b7 = elements.items();
        let ghost cb7 = elements.cursor();
        proof {
            assert(b7.skip(cb7 as int).len() == a.skip((c0 + (prev.0.element_count() + prev.1.element_count() + prev.2.element_count() + prev.3.element_count() + prev.4.element_count() + prev.5.element_count() + prev.6.element_count())) as int).len());
        }
        self.7.seq_rebuild(&prev.7, elements);
        let ghost f7 = elements.items();
        proof {
            assert(self.7.seq_rebuilds(
                &prev.7,
                a.subrange(c0 + (prev.0.element_count() + prev.1.element_count() + prev.2.element_count() + prev.3.element_count() + prev.4.element_count() + prev.5.element_count() + prev.6.element_count()) as int, c0 + (prev.0.element_count() + prev.1.element_count() + prev.2.element_count() + prev.3.element_count() + prev.4.element_count() + prev.5.element_count() + prev.6.element_count() + prev.7.element_count()) as int),
                f7.subrange(cb7 as int, (cb7 + self.7.element_count()) as int),
            )) by {
                lemma_sub_shift(a, b7, (c0 + (prev.0.element_count() + prev.1.element_count() + prev.2.element_count() + prev.3.element_count() + prev.4.element_count() + prev.5.element_count() + prev.6.element_count())) as int, cb7 as int, prev.7.element_count() as int);
            }
            lemma_kept_compose(a, c0, (prev.0.element_count() + prev.1.element_count() + prev.2.element_count() + prev.3.element_count() + prev.4.element_count() + prev.5.element_count() + prev.6.element_count()), b7, cb7, prev.7.element_count(), elements.items(), elements.cursor());
        }
        let ghost b8 = elements.items();
        let ghost cb8 = elements.cursor();
        proof {
            assert(b8.skip(cb8 as int).len() == a.skip((c0 + (prev.0.element_count() + prev.1.element_count() + prev.2.element_count() + prev.3.element_count() + prev.4.element_count() + prev.5.element_count() + prev.6.element_count() + prev.7.element_count())) as int).len());
        }
        self.8.seq_rebuild(&prev.8, elements);
        let ghost f8 = elements.items();
        proof {
            assert(self.8.seq_rebuilds(
                &prev.8,
                a.subrange(c0 + (prev.0.element_count() + prev.1.element_count() + prev.2.element_count() + prev.3.element_count() + prev.4.element_count() + prev.5.element_count() + prev.6.element_count() + prev.7.element_count()) as int, c0 + (prev.0.element_count() + prev.1.element_count() + prev.2.element_count() + prev.3.element_count() + prev.4.element_count() + prev.5.element_count() + prev.6.element_count() + prev.7.element_count() + prev.8.element_count()) as int),
                f8.subrange(cb8 as int, (cb8 + self.8.element_count()) as int),
            )) by {
                lemma_sub_shift(a, b8, (c0 + (prev.0.element_count() + prev.1.element_count() + prev.2.element_count() + prev.3.element_count() + prev.4.element_count() + prev.5.element_count() + prev.6.element_count() + prev.7.element_count())) as int, cb8 as int, prev.8.element_count() as int);
            }
            lemma_kept_compose(a, c0, (prev.0.element_count() + prev.1.element_count() + prev.2.element_count() + prev.3.element_count() + prev.4.element_count() + prev.5.element_count() + prev.6.element_count() + prev.7.element_count()), b8, cb8, prev.8.element_count(), elements.items(), elements.cursor());
        }
        let ghost b9 = elements.items();
        let ghost cb9 = elements.cursor();
        proof {
            assert(b9.skip(cb9 as int).len() == a.skip((c0 + (prev.0.element_count() + prev.1.element_count() + prev.2.element_count() + prev.3.element_count() + prev.4.element_count() + prev.5.element_count() + prev.6.element_count() + prev.7.element_count() + prev.8.element_count())) as int).len());
        }
        self.9.seq_rebuild(&prev.9, elements);
        let ghost f9 = elements.items();
        proof {
            assert(self.9.seq_rebuilds(
                &prev.9,
                a.subrange(c0 + (prev.0.element_count() + prev.1.element_count() + prev.2.element_count() + prev.3.element_count() + prev.4.element_count() + prev.5.element_count() + prev.6.element_count() + prev.7.element_count() + prev.8.element_count()) as int, c0 + (prev.0.element_count() + prev.1.element_count() + prev.2.element_count() + prev.3.element_count() + prev.4.element_count() + prev.5.element_count() + prev.6.element_count() + prev.7.element_count() + prev.8.element_count() + prev.9.element_count()) as int),
                f9.subrange(cb9 as int, (cb9 + self.9.element_count()) as int),
            )) by {
                lemma_sub_shift(a, b9, (c0 + (prev.0.element_count() + prev.1.element_count() + prev.2.element_count() + prev.3.element_count() + prev.4.element_count() + prev.5.element_count() + prev.6.element_count() + prev.7.element_count() + prev.8.element_count())) as int, cb9 as int, prev.9.element_count() as int);
            }
            lemma_kept_compose(a, c0, (prev.0.element_count() + prev.1.element_count() + prev.2.element_count() + prev.3.element_count() + prev.4.element_count() + prev.5.element_count() + prev.6.element_count() + prev.7.element_count() + prev.8.element_count()), b9, cb9, prev.9.element_count(), elements.items(), elements.cursor());
        }
        let ghost b10 = elements.items();
        let ghost cb10 = elements.cursor();
        proof {
            assert(b10.skip(cb10 as int).len() == a.skip((c0 + (prev.0.element_count() + prev.1.element_count() + prev.2.element_count() + prev.3.element_count() + prev.4.element_count() + prev.5.element_count() + prev.6.element_count() + prev.7.element_count() + prev.8.element_count() + prev.9.element_count())) as int).len());
        }
        self.10.seq_rebuild(&prev.10, elements);
        let ghost f10 = elements.items();
        proof {
            assert(self.10.seq_rebuilds(
                &prev.10,
                a.subrange(c0 + (prev.0.element_count() + prev.1.element_count() + prev.2.element_count() + prev.3.element_count() + prev.4.element_count() + prev.5.element_count() + prev.6.element_count() + prev.7.element_count() + prev.8.element_count() + prev.9.element_count()) as int, c0 + (prev.0.element_count() + prev.1.element_count() + prev.2.element_count() + prev.3.element_count() + prev.4.element_count() + prev.5.element_count() + prev.6.element_count() + prev.7.element_count() + prev.8.element_count() + prev.9.element_count() + prev.10.element_count()) as int),
                f10.subrange(cb10 as int, (cb10 + self.10.element_count()) as int),
            )) by {
                lemma_sub_shift(a, b10, (c0 + (prev.0.element_count() + prev.1.element_count() + prev.2.element_count() + prev.3.element_count() + prev.4.element_count() + prev.5.element_count() + prev.6.element_count() + prev.7.element_count() + prev.8.element_count() + prev.9.element_count())) as int, cb10 as int, prev.10.element_count() as int);
            }
            lemma_kept_compose(a, c0, (prev.0.element_count() + prev.1.element_count() + prev.2.element_count() + prev.3.element_count() + prev.4.element_count() + prev.5.element_count() + prev.6.element_count() + prev.7.element_count() + prev.8.element_count() + prev.9.element_count()), b10, cb10, prev.10.element_count(), elements.items(), elements.cursor());
        }
        let ghost b11 = elements.items();
        let ghost cb11 = elements.cursor();
        proof {
            assert(b11.skip(cb11 as int).len() == a.skip((c0 + (prev.0.element_count() + prev.1.element_count() + prev.2.element_count() + prev.3.element_count() + prev.4.element_count() + prev.5.element_count() + prev.6.element_count() + prev.7.element_count() + prev.8.element_count() + prev.9.element_count() + prev.10.element_count())) as int).len());
        }
        self.11.seq_rebuild(&prev.11, elements);
        let ghost f11 = elements.items();
        proof {
            assert(self.11.seq_rebuilds(
                &prev.11,
                a.subrange(c0 + (prev.0.element_count() + prev.1.element_count() + prev.2.element_count() + prev.3.element_count() + prev.4.element_count() + prev.5.element_count() + prev.6.element_count() + prev.7.element_count() + prev.8.element_count() + prev.9.element_count() + prev.10.element_count()) as int, c0 + (prev.0.element_count() + prev.1.element_count() + prev.2.element_count() + prev.3.element_count() + prev.4.element_count() + prev.5.element_count() + prev.6.element_count() + prev.7.element_count() + prev.8.element_count() + prev.9.element_count() + prev.10.element_count() + prev.11.element_count()) as int),
                f11.subrange(cb11 as int, (cb11 + self.11.element_count()) as int),
            )) by {
                lemma_sub_shift(a, b11, (c0 + (prev.0.element_count() + prev.1.element_count() + prev.2.element_count() + prev.3.element_count() + prev.4.element_count() + prev.5.element_count() + prev.6.element_count() + prev.7.element_count() + prev.8.element_count() + prev.9.element_count() + prev.10.element_count())) as int, cb11 as int, prev.11.element_count() as int);
            }
            lemma_kept_compose(a, c0, (prev.0.element_count() + prev.1.element_count() + prev.2.element_count() + prev.3.element_count() + prev.4.element_count() + prev.5.element_count() + prev.6.element_count() + prev.7.element_count() + prev.8.element_count() + prev.9.element_count() + prev.10.element_count()), b11, cb11, prev.11.element_count(), elements.items(), elements.cursor());
        }
        let ghost b12 = elements.items();
        let ghost cb12 = elements.cursor();
        proof {
            assert(b12.skip(cb12 as int).len() == a.skip((c0 + (prev.0.element_count() + prev.1.element_count() + prev.2.element_count() + prev.3.element_count() + prev.4.element_count() + prev.5.element_count() + prev.6.element_count() + prev.7.element_count() + prev.8.element_count() + prev.9.element_count() + prev.10.element_count() + prev.11.element_count())) as int).len());
        }
        self.12.seq_rebuild(&prev.12, elements);
        let ghost f12 = elements.items();
        proof {
            assert(self.12.seq_rebuilds(
                &prev.12,
                a.subrange(c0 + (prev.0.element_count() + prev.1.element_count() + prev.2.element_count() + prev.3.element_count() + prev.4.element_count() + prev.5.element_count() + prev.6.element_count() + prev.7.element_count() + prev.8.element_count() + prev.9.element_count() + prev.10.element_count() + prev.11.element_count()) as int, c0 + (prev.0.element_count() + prev.1.element_count() + prev.2.element_count() + prev.3.element_count() + prev.4.element_count() + prev.5.element_count() + prev.6.element_count() + prev.7.element_count() + prev.8.element_count() + prev.9.element_count() + prev.10.element_count() + prev.11.element_count() + prev.12.element_count()) as int),
                f12.subrange(cb12 as int, (cb12 + self.12.element_count()) as int),
            )) by {
                lemma_sub_shift(a, b12, (c0 + (prev.0.element_count() + prev.1.element_count() + prev.2.element_count() + prev.3.element_count() + prev.4.element_count() + prev.5.element_count() + prev.6.element_count() + prev.7.element_count() + prev.8.element_count() + prev.9.element_count() + prev.10.element_count() + prev.11.element_count())) as int, cb12 as int, prev.12.element_count() as int);
            }
            lemma_kept_compose(a, c0, (prev.0.element_count() + prev.1.element_count() + prev.2.element_count() + prev.3.element_count() + prev.4.element_count() + prev.5.element_count() + prev.6.element_count() + prev.7.element_count() + prev.8.element_count() + prev.9.element_count() + prev.10.element_count() + prev.11.element_count()), b12, cb12, prev.12.element_count(), elements.items(), elements.cursor());
        }
        let ghost ce = elements.cursor();
        proof {
            let fin = elements.items();
            assert(fin.take(ce as int) =~= f12.take(ce as int));
            lemma_take_link(fin, f12, f11, cb12 as int, ce as int);
            lemma_take_link(fin, f11, f10, cb11 as int, cb12 as int);
            lemma_take_link(fin, f10, f9, cb10 as int, cb11 as int);
            lemma_take_link(fin, f9, f8, cb9 as int, cb10 as int);
            lemma_take_link(fin, f8, f7, cb8 as int, cb9 as int);
            lemma_take_link(fin, f7, f6, cb7 as int, cb8 as int);
            lemma_take_link(fin, f6, f5, cb6 as int, cb7 as int);
            lemma_take_link(fin, f5, f4, cb5 as int, cb6 as int);
            lemma_take_link(fin, f4, f3, cb4 as int, cb5 as int);
            lemma_take_link(fin, f3, f2, cb3 as int, cb4 as int);
            lemma_take_link(fin, f2, f1, cb2 as int, cb3 as int);
            lemma_take_link(fin, f1, f0, cb1 as int, cb2 as int);
            assert(self.0.seq_rebuilds(
                &prev.0,
                region(a, c0, prev.element_count()).subrange(0int, (prev.0.element_count()) as int),
                region(fin, c0, self.element_count()).subrange(0int, (self.0.element_count()) as int),
            )) by {
                lemma_sub_stable(fin, f0, cb1 as int, cb0 as int, cb1 as int);
                assert(region(fin, c0, self.element_count()).subrange(0int, (self.0.element_count()) as int) =~= fin.subrange(cb0 as int, cb1 as int));
                assert(region(a, c0, prev.element_count()).subrange(0int, (prev.0.element_count()) as int) =~= a.subrange(c0 + 0int, c0 + (prev.0.element_count()) as int));
            }
            assert(self.1.seq_rebuilds(
                &prev.1,
                region(a, c0, prev.element_count()).subrange((prev.0.element_count()) as int, (prev.0.element_count() + prev.1.element_count()) as int),
                region(fin, c0, self.element_count()).subrange((self.0.element_count()) as int, (self.0.element_count() + self.1.element_count()) as int),
            )) by {
                lemma_sub_stable(fin, f1, cb2 as int, cb1 as int, cb2 as int);
                assert(region(fin, c0, self.element_count()).subrange((self.0.element_count()) as int, (self.0.element_count() + self.1.element_count()) as int) =~= fin.subrange(cb1 as int, cb2 as int));
                assert(region(a, c0, prev.element_count()).subrange((prev.0.element_count()) as int, (prev.0.element_count() + prev.1.element_count()) as int) =~= a.subrange(c0 + (prev.0.element_count()) as int, c0 + (prev.0.element_count() + prev.1.element_count()) as int));
            }
            assert(self.2.seq_rebuilds(
                &prev.2,
                region(a, c0, prev.element_count()).subrange((prev.0.element_count() + prev.1.element_count()) as int, (prev.0.element_count() + prev.1.element_count() + prev.2.element_count()) as int),
                region(fin, c0, self.element_count()).subrange((self.0.element_count() + self.1.element_count()) as int, (self.0.element_count() + self.1.element_count() + self.2.element_count()) as int),
            )) by {
                lemma_sub_stable(fin, f2, cb3 as int, cb2 as int, cb3 as int);
                assert(region(fin, c0, self.element_count()).subrange((self.0.element_count() + self.1.element_count()) as int, (self.0.element_count() + self.1.element_count() + self.2.element_count()) as int) =~= fin.subrange(cb2 as int, cb3 as int));
                assert(region(a, c0, prev.element_count()).subrange((prev.0.element_count() + prev.1.element_count()) as int, (prev.0.element_count() + prev.1.element_count() + prev.2.element_count()) as int) =~= a.subrange(c0 + (prev.0.element_count() + prev.1.element_count()) as int, c0 + (prev.0.element_count() + prev.1.element_count() + prev.2.element_count()) as int));
            }
            assert(self.3.seq_rebuilds(
                &prev.3,
                region(a, c0, prev.element_count()).subrange((prev.0.element_count() + prev.1.element_count() + prev.2.element_count()) as int, (prev.0.element_count() + prev.1.element_count() + prev.2.element_count() + prev.3.element_count()) as int),
                region(fin, c0, self.element_count()).subrange((self.0.element_count() + self.1.element_count() + self.2.element_count()) as int, (self.0.element_count() + self.1.element_count() + self.2.element_count() + self.3.element_count()) as int),
            )) by {
                lemma_sub_stable(fin, f3, cb4 as int, cb3 as int, cb4 as int);
                assert(region(fin, c0, self.element_count()).subrange((self.0.element_count() + self.1.element_count() + self.2.element_count()) as int, (self.0.element_count() + self.1.element_count() + self.2.element_count() + self.3.element_count()) as int) =~= fin.subrange(cb3 as int, cb4 as int));
                assert(region(a, c0, prev.element_count()).subrange((prev.0.element_count() + prev.1.element_count() + prev.2.element_count()) as int, (prev.0.element_count() + prev.1.element_count() + prev.2.element_count() + prev.3.element_count()) as int) =~= a.subrange(c0 + (prev.0.element_count() + prev.1.element_count() + prev.2.element_count()) as int, c0 + (prev.0.element_count() + prev.1.element_count() + prev.2.element_count() + prev.3.element_count()) as int));
            }
            assert(self.4.seq_rebuilds(
                &prev.4,
                region(a, c0, prev.element_count()).subrange((prev.0.element_count() + prev.1.element_count() + prev.2.element_count() + prev.3.element_count()) as int, (prev.0.element_count() + prev.1.element_count() + prev.2.element_count() + prev.3.element_count() + prev.4.element_count()) as int),
                region(fin, c0, self.element_count()).subrange((self.0.element_count() + self.1.element_count() + self.2.element_count() + self.3.element_count()) as int, (self.0.element_count() + self.1.element_count() + self.2.element_count() + self.3.element_count() + self.4.element_count()) as int),
            )) by {
                lemma_sub_stable(fin, f4, cb5 as int, cb4 as int, cb5 as int);
                assert(region(fin, c0, self.element_count()).subrange((self.0.element_count() + self.1.element_count() + self.2.element_count() + self.3.element_count()) as int, (self.0.element_count() + self.1.element_count() + self.2.element_count() + self.3.element_count() + self.4.element_count()) as int) =~= fin.subrange(cb4 as int, cb5 as int));
                assert(region(a, c0, prev.element_count()).subrange((prev.0.element_count() + prev.1.element_count() + prev.2.element_count() + prev.3.element_count()) as int, (prev.0.element_count() + prev.1.element_count() + prev.2.element_count() + prev.3.element_count() + prev.4.element_count()) as int) =~= a.subrange(c0 + (prev.0.element_count() + prev.1.element_count() + prev.2.element_count() + prev.3.element_count()) as int, c0 + (prev.0.element_count() + prev.1.element_count() + prev.2.element_count() + prev.3.element_count() + prev.4.element_count()) as int));
            }
            assert(self.5.seq_rebuilds(
                &prev.5,
                region(a, c0, prev.element_count()).subrange((prev.0.element_count() + prev.1.element_count() + prev.2.element_count() + prev.3.element_count() + prev.4.element_count()) as int, (prev.0.element_count() + prev.1.element_count() + prev.2.element_count() + prev.3.element_count() + prev.4.element_count() + prev.5.element_count()) as int),
                region(fin, c0, self.element_count()).subrange((self.0.element_count() + self.1.element_count() + self.2.element_count() + self.3.element_count() + self.4.element_count()) as int, (self.0.element_count() + self.1.element_count() + self.2.element_count() + self.3.element_count() + self.4.element_count() + self.5.element_count()) as int),
            )) by {
                lemma_sub_stable(fin, f5, cb6 as int, cb5 as int, cb6 as int);
                assert(region(fin, c0, self.element_count()).subrange((self.0.element_count() + self.1.element_count() + self.2.element_count() + self.3.element_count() + self.4.element_count()) as int, (self.0.element_count() + self.1.element_count() + self.2.element_count() + self.3.element_count() + self.4.element_count() + self.5.element_count()) as int) =~= fin.subrange(cb5 as int, cb6 as int));
                assert(region(a, c0, prev.element_count()).subrange((prev.0.element_count() + prev.1.element_count() + prev.2.element_count() + prev.3.element_count() + prev.4.element_count()) as int, (prev.0.element_count() + prev.1.element_count() + prev.2.element_count() + prev.3.element_count() + prev.4.element_count() + prev.5.element_count()) as int) =~= a.subrange(c0 + (prev.0.element_count() + prev.1.element_count() + prev.2.element_count() + prev.3.element_count() + prev.4.element_count()) as int, c0 + (prev.0.element_count() + prev.1.element_count() + prev.2.element_count() + prev.3.element_count() + prev.4.element_count() + prev.5.element_count()) as int));
            }
            assert(self.6.seq_rebuilds(
                &prev.6,
                region(a, c0, prev.element_count()).subrange((prev.0.element_count() + prev.1.element_count() + prev.2.element_count() + prev.3.element_count() + prev.4.element_count() + prev.5.element_count()) as int, (prev.0.element_count() + prev.1.element_count() + prev.2.element_count() + prev.3.element_count() + prev.4.element_count() + prev.5.element_count() + prev.6.element_count()) as int),
                region(fin, c0, self.element_count()).subrange((self.0.element_count() + self.1.element_count() + self.2.element_count() + self.3.element_count() + self.4.element_count() + self.5.element_count()) as int, (self.0.element_count() + self.1.element_count() + self.2.element_count() + self.3.element_count() + self.4.element_count() + self.5.element_count() + self.6.element_count()) as int),
            )) by {
                lemma_sub_stable(fin, f6, cb7 as int, cb6 as int, cb7 as int);
                assert(region(fin, c0, self.element_count()).subrange((self.0.element_count() + self.1.element_count() + self.2.element_count() + self.3.element_count() + self.4.element_count() + self.5.element_count()) as int, (self.0.element_count() + self.1.element_count() + self.2.element_count() + self.3.element_count() + self.4.element_count() + self.5.element_count() + self.6.element_count()) as int) =~= fin.subrange(cb6 as int, cb7 as int));
                assert(region(a, c0, prev.element_count()).subrange((prev.0.element_count() + prev.1.element_count() + prev.2.element_count() + prev.3.element_count() + prev.4.element_count() + prev.5.element_count()) as int, (prev.0.element_count() + prev.1.element_count() + prev.2.element_count() + prev.3.element_count() + prev.4.element_count() + prev.5.element_count() + prev.6.element_count()) as int) =~= a.subrange(c0 + (prev.0.element_count() + prev.1.element_count() + prev.2.element_count() + prev.3.element_count() + prev.4.element_count() + prev.5.element_count()) as int, c0 + (prev.0.element_count() + prev.1.element_count() + prev.2.element_count() + prev.3.element_count() + prev.4.element_count() + prev.5.element_count() + prev.6.element_count()) as int));
            }
            assert(self.7.seq_rebuilds(
                &prev.7,
                region(a, c0, prev.element_count()).subrange((prev.0.element_count() + prev.1.element_count() + prev.2.element_count() + prev.3.element_count() + prev.4.element_count() + prev.5.element_count() + prev.6.element_count()) as int, (prev.0.element_count() + prev.1.element_count() + prev.2.element_count() + prev.3.element_count() + prev.4.element_count() + prev.5.element_count() + prev.6.element_count() + prev.7.element_count()) as int),
                region(fin, c0, self.element_count()).subrange((self.0.element_count() + self.1.element_count() + self.2.element_count() + self.3.element_count() + self.4.element_count() + self.5.element_count() + self.6.element_count()) as int, (self.0.element_count() + self.1.element_count() + self.2.element_count() + self.3.element_count() + self.4.element_count() + self.5.element_count() + self.6.element_count() + self.7.element_count()) as int),
            )) by {
                lemma_sub_stable(fin, f7, cb8 as int, cb7 as int, cb8 as int);
                assert(region(fin, c0, self.element_count()).subrange((self.0.element_count() + self.1.element_count() + self.2.element_count() + self.3.element_count() + self.4.element_count() + self.5.element_count() + self.6.element_count()) as int, (self.0.element_count() + self.1.element_count() + self.2.element_count() + self.3.element_count() + self.4.element_count() + self.5.element_count() + self.6.element_count() + self.7.element_count()) as int) =~= fin.subrange(cb7 as int, cb8 as int));
                assert(region(a, c0, prev.element_count()).subrange((prev.0.element_count() + prev.1.element_count() + prev.2.element_count() + prev.3.element_count() + prev.4.element_count() + prev.5.element_count() + prev.6.element_count()) as int, (prev.0.element_count() + prev.1.element_count() + prev.2.element_count() + prev.3.element_count() + prev.4.element_count() + prev.5.element_count() + prev.6.element_count() + prev.7.element_count()) as int) =~= a.subrange(c0 + (prev.0.element_count() + prev.1.element_count() + prev.2.element_count() + prev.3.element_count() + prev.4.element_count() + prev.5.element_count() + prev.6.element_count()) as int, c0 + (prev.0.element_count() + prev.1.element_count() + prev.2.element_count() + prev.3.element_count() + prev.4.element_count() + prev.5.element_count() + prev.6.element_count() + prev.7.element_count()) as int));
            }
            assert(self.8.seq_rebuilds(
                &prev.8,
                region(a, c0, prev.element_count()).subrange((prev.0.element_count() + prev.1.element_count() + prev.2.element_count() + prev.3.element_count() + prev.4.element_count() + prev.5.element_count() + prev.6.element_count() + prev.7.element_count()) as int, (prev.0.element_count() + prev.1.element_count() + prev.2.element_count() + prev.3.element_count() + prev.4.element_count() + prev.5.element_count() + prev.6.element_count() + prev.7.element_count() + prev.8.element_count()) as int),
                region(fin, c0, self.element_count()).subrange((self.0.element_count() + self.1.element_count() + self.2.element_count() + self.3.element_count() + self.4.element_count() + self.5.element_count() + self.6.element_count() + self.7.element_count()) as int, (self.0.element_count() + self.1.element_count() + self.2.element_count() + self.3.element_count() + self.4.element_count() + self.5.element_count() + self.6.element_count() + self.7.element_count() + self.8.element_count()) as int),
            )) by {
                lemma_sub_stable(fin, f8, cb9 as int, cb8 as int, cb9 as int);
                assert(region(fin, c0, self.element_count()).subrange((self.0.element_count() + self.1.element_count() + self.2.element_count() + self.3.element_count() + self.4.element_count() + self.5.element_count() + self.6.element_count() + self.7.element_count()) as int, (self.0.element_count() + self.1.element_count() + self.2.element_count() + self.3.element_count() + self.4.element_count() + self.5.element_count() + self.6.element_count() + self.7.element_count() + self.8.element_count()) as int) =~= fin.subrange(cb8 as int, cb9 as int));
                assert(region(a, c0, prev.element_count()).subrange((prev.0.element_count() + prev.1.element_count() + prev.2.element_count() + prev.3.element_count() + prev.4.element_count() + prev.5.element_count() + prev.6.element_count() + prev.7.element_count()) as int, (prev.0.element_count() + prev.1.element_count() + prev.2.element_count() + prev.3.element_count() + prev.4.element_count() + prev.5.element_count() + prev.6.element_count() + prev.7.element_count() + prev.8.element_count()) as int) =~= a.subrange(c0 + (prev.0.element_count() + prev.1.element_count() + prev.2.element_count() + prev.3.element_count() + prev.4.element_count() + prev.5.element_count() + prev.6.element_count() + prev.7.element_count()) as int, c0 + (prev.0.element_count() + prev.1.element_count() + prev.2.element_count() + prev.3.element_count() + prev.4.element_count() + prev.5.element_count() + prev.6.element_count() + prev.7.element_count() + prev.8.element_count()) as int));
            }
            assert(self.9.seq_rebuilds(
                &prev.9,
                region(a, c0, prev.element_count()).subrange((prev.0.element_count() + prev.1.element_count() + prev.2.element_count() + prev.3.element_count() + prev.4.element_count() + prev.5.element_count() + prev.6.element_count() + prev.7.element_count() + prev.8.element_count()) as int, (prev.0.element_count() + prev.1.element_count() + prev.2.element_count() + prev.3.element_count() + prev.4.element_count() + prev.5.element_count() + prev.6.element_count() + prev.7.element_count() + prev.8.element_count() + prev.9.element_count()) as int),
                region(fin, c0, self.element_count()).subrange((self.0.element_count() + self.1.element_count() + self.2.element_count() + self.3.element_count() + self.4.element_count() + self.5.element_count() + self.6.element_count() + self.7.element_count() + self.8.element_count()) as int, (self.0.element_count() + self.1.element_count() + self.2.element_count() + self.3.element_count() + self.4.element_count() + self.5.element_count() + self.6.element_count() + self.7.element_count() + self.8.element_count() + self.9.element_count()) as int),
            )) by {
                lemma_sub_stable(fin, f9, cb10 as int, cb9 as int, cb10 as int);
                assert(region(fin, c0, self.element_count()).subrange((self.0.element_count() + self.1.element_count() + self.2.element_count() + self.3.element_count() + self.4.element_count() + self.5.element_count() + self.6.element_count() + self.7.element_count() + self.8.element_count()) as int, (self.0.element_count() + self.1.element_count() + self.2.element_count() + self.3.element_count() + self.4.element_count() + self.5.element_count() + self.6.element_count() + self.7.element_count() + self.8.element_count() + self.9.element_count()) as int) =~= fin.subrange(cb9 as int, cb10 as int));
                assert(region(a, c0, prev.element_count()).subrange((prev.0.element_count() + prev.1.element_count() + prev.2.element_count() + prev.3.element_count() + prev.4.element_count() + prev.5.element_count() + prev.6.element_count() + prev.7.element_count() + prev.8.element_count()) as int, (prev.0.element_count() + prev.1.element_count() + prev.2.element_count() + prev.3.element_count() + prev.4.element_count() + prev.5.element_count() + prev.6.element_count() + prev.7.element_count() + prev.8.element_count() + prev.9.element_count()) as int) =~= a.subrange(c0 + (prev.0.element_count() + prev.1.element_count() + prev.2.element_count() + prev.3.element_count() + prev.4.element_count() + prev.5.element_count() + prev.6.element_count() + prev.7.element_count() + prev.8.element_count()) as int, c0 + (prev.0.element_count() + prev.1.element_count() + prev.2.element_count() + prev.3.element_count() + prev.4.element_count() + prev.5.element_count() + prev.6.element_count() + prev.7.element_count() + prev.8.element_count() + prev.9.element_count()) as int));
            }
            assert(self.10.seq_rebuilds(
                &prev.10,
                region(a, c0, prev.element_count()).subrange((prev.0.element_count() + prev.1.element_count() + prev.2.element_count() + prev.3.element_count() + prev.4.element_count() + prev.5.element_count() + prev.6.element_count() + prev.7.element_count() + prev.8.element_count() + prev.9.element_count()) as int, (prev.0.element_count() + prev.1.element_count() + prev.2.element_count() + prev.3.element_count() + prev.4.element_count() + prev.5.element_count() + prev.6.element_count() + prev.7.element_count() + prev.8.element_count() + prev.9.element_count() + prev.10.element_count()) as int),
                region(fin, c0, self.element_count()).subrange((self.0.element_count() + self.1.element_count() + self.2.element_count() + self.3.element_count() + self.4.element_count() + self.5.element_count() + self.6.element_count() + self.7.element_count() + self.8.element_count() + self.9.element_count()) as int, (self.0.element_count() + self.1.element_count() + self.2.element_count() + self.3.element_count() + self.4.element_count() + self.5.element_count() + self.6.element_count() + self.7.element_count() + self.8.element_count() + self.9.element_count() + self.10.element_count()) as int),
            )) by {
                lemma_sub_stable(fin, f10, cb11 as int, cb10 as int, cb11 as int);
                assert(region(fin, c0, self.element_count()).subrange((self.0.element_count() + self.1.element_count() + self.2.element_count() + self.3.element_count() + self.4.element_count() + self.5.element_count() + self.6.element_count() + self.7.element_count() + self.8.element_count() + self.9.element_count()) as int, (self.0.element_count() + self.1.element_count() + self.2.element_count() + self.3.element_count() + self.4.element_count() + self.5.element_count() + self.6.element_count() + self.7.element_count() + self.8.element_count() + self.9.element_count() + self.10.element_count()) as int) =~= fin.subrange(cb10 as int, cb11 as int));
                assert(region(a, c0, prev.element_count()).subrange((prev.0.element_count() + prev.1.element_count() + prev.2.element_count() + prev.3.element_count() + prev.4.element_count() + prev.5.element_count() + prev.6.element_count() + prev.7.element_count() + prev.8.element_count() + prev.9.element_count()) as int, (prev.0.element_count() + prev.1.element_count() + prev.2.element_count() + prev.3.element_count() + prev.4.element_count() + prev.5.element_count() + prev.6.element_count() + prev.7.element_count() + prev.8.element_count() + prev.9.element_count() + prev.10.element_count()) as int) =~= a.subrange(c0 + (prev.0.element_count() + prev.1.element_count() + prev.2.element_count() + prev.3.element_count() + prev.4.element_count() + prev.5.element_count() + prev.6.element_count() + prev.7.element_count() + prev.8.element_count() + prev.9.element_count()) as int, c0 + (prev.0.element_count() + prev.1.element_count() + prev.2.element_count() + prev.3.element_count() + prev.4.element_count() + prev.5.element_count() + prev.6.element_count() + prev.7.element_count() + prev.8.element_count() + prev.9.element_count() + prev.10.element_count()) as int));
            }
            assert(self.11.seq_rebuilds(
                &prev.11,
                region(a, c0, prev.element_count()).subrange((prev.0.element_count() + prev.1.element_count() + prev.2.element_count() + prev.3.element_count() + prev.4.element_count() + prev.5.element_count() + prev.6.element_count() + prev.7.element_count() + prev.8.element_count() + prev.9.element_count() + prev.10.element_count()) as int, (prev.0.element_count() + prev.1.element_count() + prev.2.element_count() + prev.3.element_count() + prev.4.element_count() + prev.5.element_count() + prev.6.element_count() + prev.7.element_count() + prev.8.element_count() + prev.9.element_count() + prev.10.element_count() + prev.11.element_count()) as int),
                region(fin, c0, self.element_count()).subrange((self.0.element_count() + self.1.element_count() + self.2.element_count() + self.3.element_count() + self.4.element_count() + self.5.element_count() + self.6.element_count() + self.7.element_count() + self.8.element_count() + self.9.element_count() + self.10.element_count()) as int, (self.0.element_count() + self.1.element_count() + self.2.element_count() + self.3.element_count() + self.4.element_count() + self.5.element_count() + self.6.element_count() + self.7.element_count() + self.8.element_count() + self.9.element_count() + self.10.element_count() + self.11.element_count()) as int),
            )) by {
                lemma_sub_stable(fin, f11, cb12 as int, cb11 as int, cb12 as int);
                assert(region(fin, c0, self.element_count()).subrange((self.0.element_count() + self.1.element_count() + self.2.element_count() + self.3.element_count() + self.4.element_count() + self.5.element_count() + self.6.element_count() + self.7.element_count() + self.8.element_count() + self.9.element_count() + self.10.element_count()) as int, (self.0.element_count() + self.1.element_count() + self.2.element_count() + self.3.element_count() + self.4.element_count() + self.5.element_count() + self.6.element_count() + self.7.element_count() + self.8.element_count() + self.9.element_count() + self.10.element_count() + self.11.element_count()) as int) =~= fin.subrange(cb11 as int, cb12 as int));
                assert(region(a, c0, prev.element_count()).subrange((prev.0.element_count() + prev.1.element_count() + prev.2.element_count() + prev.3.element_count() + prev.4.element_count() + prev.5.element_count() + prev.6.element_count() + prev.7.element_count() + prev.8.element_count() + prev.9.element_count() + prev.10.element_count()) as int, (prev.0.element_count() + prev.1.element_count() + prev.2.element_count() + prev.3.element_count() + prev.4.element_count() + prev.5.element_count() + prev.6.element_count() + prev.7.element_count() + prev.8.element_count() + prev.9.element_count() + prev.10.element_count() + prev.11.element_count()) as int) =~= a.subrange(c0 + (prev.0.element_count() + prev.1.element_count() + prev.2.element_count() + prev.3.element_count() + prev.4.element_count() + prev.5.element_count() + prev.6.element_count() + prev.7.element_count() + prev.8.element_count() + prev.9.element_count() + prev.10.element_count()) as int, c0 + (prev.0.element_count() + prev.1.element_count() + prev.2.element_count() + prev.3.element_count() + prev.4.element_count() + prev.5.element_count() + prev.6.element_count() + prev.7.element_count() + prev.8.element_count() + prev.9.element_count() + prev.10.element_count() + prev.11.element_count()) as int));
            }
            assert(self.12.seq_rebuilds(
                &prev.12,
                region(a, c0, prev.element_count()).subrange((prev.0.element_count() + prev.1.element_count() + prev.2.element_count() + prev.3.element_count() + prev.4.element_count() + prev.5.element_count() + prev.6.element_count() + prev.7.element_count() + prev.8.element_count() + prev.9.element_count() + prev.10.element_count() + prev.11.element_count()) as int, (prev.0.element_count() + prev.1.element_count() + prev.2.element_count() + prev.3.element_count() + prev.4.element_count() + prev.5.element_count() + prev.6.element_count() + prev.7.element_count() + prev.8.element_count() + prev.9.element_count() + prev.10.element_count() + prev.11.element_count() + prev.12.element_count()) as int),
                region(fin, c0, self.element_count()).subrange((self.0.element_count() + self.1.element_count() + self.2.element_count() + self.3.element_count() + self.4.element_count() + self.5.element_count() + self.6.element_count() + self.7.element_count() + self.8.element_count() + self.9.element_count() + self.10.element_count() + self.11.element_count()) as int, (self.0.element_count() + self.1.element_count() + self.2.element_count() + self.3.element_count() + self.4.element_count() + self.5.element_count() + self.6.element_count() + self.7.element_count() + self.8.element_count() + self.9.element_count() + self.10.element_count() + self.11.element_count() + self.12.element_count()) as int),
            )) by {
                assert(region(fin, c0, self.element_count()).subrange((self.0.element_count() + self.1.element_count() + self.2.element_count() + self.3.element_count() + self.4.element_count() + self.5.element_count() + self.6.element_count() + self.7.element_count() + self.8.element_count() + self.9.element_count() + self.10.element_count() + self.11.element_count()) as int, (self.0.element_count() + self.1.element_count() + self.2.element_count() + self.3.element_count() + self.4.element_count() + self.5.element_count() + self.6.element_count() + self.7.element_count() + self.8.element_count() + self.9.element_count() + self.10.element_count() + self.11.element_count() + self.12.element_count()) as int) =~= fin.subrange(cb12 as int, ce as int));
                assert(region(a, c0, prev.element_count()).subrange((prev.0.element_count() + prev.1.element_count() + prev.2.element_count() + prev.3.element_count() + prev.4.element_count() + prev.5.element_count() + prev.6.element_count() + prev.7.element_count() + prev.8.element_count() + prev.9.element_count() + prev.10.element_count() + prev.11.element_count()) as int, (prev.0.element_count() + prev.1.element_count() + prev.2.element_count() + prev.3.element_count() + prev.4.element_count() + prev.5.element_count() + prev.6.element_count() + prev.7.element_count() + prev.8.element_count() + prev.9.element_count() + prev.10.element_count() + prev.11.element_count() + prev.12.element_count()) as int) =~= a.subrange(c0 + (prev.0.element_count() + prev.1.element_count() + prev.2.element_count() + prev.3.element_count() + prev.4.element_count() + prev.5.element_count() + prev.6.element_count() + prev.7.element_count() + prev.8.element_count() + prev.9.element_count() + prev.10.element_count() + prev.11.element_count()) as int, c0 + (prev.0.element_count() + prev.1.element_count() + prev.2.element_count() + prev.3.element_count() + prev.4.element_count() + prev.5.element_count() + prev.6.element_count() + prev.7.element_count() + prev.8.element_count() + prev.9.element_count() + prev.10.element_count() + prev.11.element_count() + prev.12.element_count()) as int));
            }
        }
    }

    #[verifier::spinoff_prover]
    #[verifier::rlimit(100)]
    fn seq_teardown<Splice: ElementSplice<Element>>(&self, elements: &mut Splice) {
        let ghost a = elements.items();
        let ghost c0 = elements.cursor();
        proof {
            lemma_kept_refl(a, c0);
        }
        let ghost b0 = elements.items();
        let ghost cb0 = elements.cursor();
        proof {
            assert(b0.skip(cb0 as int).len() == a.skip((c0 + 0) as int).len());
        }
        self.0.seq_teardown(elements);
        proof {
            assert(self.0.seq_tears_down(region(a, c0, self.element_count()).subrange(0int, (self.0.element_count()) as int))) by {
                lemma_sub_shift(a, b0, (c0 + 0) as int, cb0 as int, self.0.element_count() as int);
                assert(region(a, c0, self.element_count()).subrange(0int, (self.0.element_count()) as int) =~= a.subrange(c0 + 0int, c0 + (self.0.element_count()) as int));
            }
            lemma_kept_compose(a, c0, 0, b0, cb0, self.0.element_count(), elements.items(), elements.cursor());
        }
        let ghost b1 = elements.items();
        let ghost cb1 = elements.cursor();
        proof {
            assert(b1.skip(cb1 as int).len() == a.skip((c0 + (self.0.element_count())) as int).len());
        }
        self.1.seq_teardown(elements);
        proof {
            assert(self.1.seq_tears_down(region(a, c0, self.element_count()).subrange((self.0.element_count()) as int, (self.0.element_count() + self.1.element_count()) as int))) by {
                lemma_sub_shift(a, b1, (c0 + (self.0.element_count())) as int, cb1 as int, self.1.element_count() as int);
                assert(region(a, c0, self.element_count()).subrange((self.0.element_count()) as int, (self.0.element_count() + self.1.element_count()) as int) =~= a.subrange(c0 + (self.0.element_count()) as int, c0 + (self.0.element_count() + self.1.element_count()) as int));
            }
            lemma_kept_compose(a, c0, (self.0.element_count()), b1, cb1, self.1.element_count(), elements.items(), elements.cursor());
        }
        let ghost b2 = elements.items();
        let ghost cb2 = elements.cursor();
        proof {
            assert(b2.skip(cb2 as int).len() == a.skip((c0 + (self.0.element_count() + self.1.element_count())) as int).len());
        }
        self.2.seq_teardown(elements);
        proof {
            assert(self.2.seq_tears_down(region(a, c0, self.element_count()).subrange((self.0.element_count() + self.1.element_count()) as int, (self.0.element_count() + self.1.element_count() + self.2.element_count()) as int))) by {
                lemma_sub_shift(a, b2, (c0 + (self.0.element_count() + self.1.element_count())) as int, cb2 as int, self.2.element_count() as int);
                assert(region(a, c0, self.element_count()).subrange((self.0.element_count() + self.1.element_count()) as int, (self.0.element_count() + self.1.element_count() + self.2.element_count()) as int) =~= a.subrange(c0 + (self.0.element_count() + self.1.element_count()) as int, c0 + (self.0.element_count() + self.1.element_count() + self.2.element_count()) as int));
            }
            lemma_kept_compose(a, c0, (self.0.element_count() + self.1.element_count()), b2, cb2, self.2.element_count(), elements.items(), elements.cursor());
        }
        let ghost b3 = elements.items();
        let ghost cb3 = elements.cursor();
        proof {
            assert(b3.skip(cb3 as int).len() == a.skip((c0 + (self.0.element_count() + self.1.element_count() + self.2.element_count())) as int).len());
        }
        self.3.seq_teardown(elements);
        proof {
            assert(self.3.seq_tears_down(region(a, c0, self.element_count()).subrange((self.0.element_count() + self.1.element_count() + self.2.element_count()) as int, (self.0.element_count() + self.1.element_count() + self.2.element_count() + self.3.element_count()) as int))) by {
                lemma_sub_shift(a, b3, (c0 + (self.0.element_count() + self.1.element_count() + self.2.element_count())) as int, cb3 as int, self.3.element_count() as int);
                assert(region(a, c0, self.element_count()).subrange((self.0.element_count() + self.1.element_count() + self.2.element_count()) as int, (self.0.element_count() + self.1.element_count() + self.2.element_count() + self.3.element_count()) as int) =~= a.subrange(c0 + (self.0.element_count() + self.1.element_count() + self.2.element_count()) as int, c0 + (self.0.element_count() + self.1.element_count() + self.2.element_count() + self.3.element_count()) as int));
            }
            lemma_kept_compose(a, c0, (self.0.element_count() + self.1.element_count() + self.2.element_count()), b3, cb3, self.3.element_count(), elements.items(), elements.cursor());
        }
        let ghost b4 = elements.items();
        let ghost cb4 = elements.cursor();
        proof {
            assert(b4.skip(cb4 as int).len() == a.skip((c0 + (self.0.element_count() + self.1.element_count() + self.2.element_count() + self.3.element_count())) as int).len());
        }
        self.4.seq_teardown(elements);
        proof {
            assert(self.4.seq_tears_down(region(a, c0, self.element_count()).subrange((self.0.element_count() + self.1.element_count() + self.2.element_count() + self.3.element_count()) as int, (self.0.element_count() + self.1.element_count() + self.2.element_count() + self.3.element_count() + self.4.element_count()) as int))) by {
                lemma_sub_shift(a, b4, (c0 + (self.0.element_count() + self.1.element_count() + self.2.element_count() + self.3.element_count())) as int, cb4 as int, self.4.element_count() as int);
                assert(region(a, c0, self.element_count()).subrange((self.0.element_count() + self.1.element_count() + self.2.element_count() + self.3.element_count()) as int, (self.0.element_count() + self.1.element_count() + self.2.element_count() + self.3.element_count() + self.4.element_count()) as int) =~= a.subrange(c0 + (self.0.element_count() + self.1.element_count() + self.2.element_count() + self.3.element_count()) as int, c0 + (self.0.element_count() + self.1.element_count() + self.2.element_count() + self.3.element_count() + self.4.element_count()) as int));
            }
            lemma_kept_compose(a, c0, (self.0.element_count() + self.1.element_count() + self.2.element_count() + self.3.element_count()), b4, cb4, self.4.element_count(), elements.items(), elements.cursor());
        }
        let ghost b5 = elements.items();
        let ghost cb5 = elements.cursor();
        proof {
            assert(b5.skip(cb5 as int).len() == a.skip((c0 + (self.0.element_count() + self.1.element_count() + self.2.element_count() + self.3.element_count() + self.4.element_count())) as int).len());
        }
        self.5.seq_teardown(elements);
        proof {
            assert(self.5.seq_tears_down(region(a, c0, self.element_count()).subrange((self.0.element_count() + self.1.element_count() + self.2.element_count() + self.3.element_count() + self.4.element_count()) as int, (self.0.element_count() + self.1.element_count() + self.2.element_count() + self.3.element_count() + self.4.element_count() + self.5.element_count()) as int))) by {
                lemma_sub_shift(a, b5, (c0 + (self.0.element_count() + self.1.element_count() + self.2.element_count() + self.3.element_count() + self.4.element_count())) as int, cb5 as int, self.5.element_count() as int);
                assert(region(a, c0, self.element_count()).subrange((self.0.element_count() + self.1.element_count() + self.2.element_count() + self.3.element_count() + self.4.element_count()) as int, (self.0.element_count() + self.1.element_count() + self.2.element_count() + self.3.element_count() + self.4.element_count() + self.5.element_count()) as int) =~= a.subrange(c0 + (self.0.element_count() + self.1.element_count() + self.2.element_count() + self.3.element_count() + self.4.element_count()) as int, c0 + (self.0.element_count() + self.1.element_count() + self.2.element_count() + self.3.element_count() + self.4.element_count() + self.5.element_count()) as int));
            }
            lemma_kept_compose(a, c0, (self.0.element_count() + self.1.element_count() + self.2.element_count() + self.3.element_count() + self.4.element_count()), b5, cb5, self.5.element_count(), elements.items(), elements.cursor());
        }
        let ghost b6 = elements.items();
        let ghost cb6 = elements.cursor();
        proof {
            assert(b6.skip(cb6 as int).len() == a.skip((c0 + (self.0.element_count() + self.1.element_count() + self.2.element_count() + self.3.element_count() + self.4.element_count() + self.5.element_count())) as int).len());
        }
        self.6.seq_teardown(elements);
        proof {
            assert(self.6.seq_tears_down(region(a, c0, self.element_count()).subrange((self.0.element_count() + self.1.element_count() + self.2.element_count() + self.3.element_count() + self.4.element_count() + self.5.element_count()) as int, (self.0.element_count() + self.1.element_count() + self.2.element_count() + self.3.element_count() + self.4.element_count() + self.5.element_count() + self.6.element_count()) as int))) by {
                lemma_sub_shift(a, b6, (c0 + (self.0.element_count() + self.1.element_count() + self.2.element_count() + self.3.element_count() + self.4.element_count() + self.5.element_count())) as int, cb6 as int, self.6.element_count() as int);
                assert(region(a, c0, self.element_count()).subrange((self.0.element_count() + self.1.element_count() + self.2.element_count() + self.3.element_count() + self.4.element_count() + self.5.element_count()) as int, (self.0.element_count() + self.1.element_count() + self.2.element_count() + self.3.element_count() + self.4.element_count() + self.5.element_count() + self.6.element_count()) as int) =~= a.subrange(c0 + (self.0.element_count() + self.1.element_count() + self.2.element_count() + self.3.element_count() + self.4.element_count() + self.5.element_count()) as int, c0 + (self.0.element_count() + self.1.element_count() + self.2.element_count() + self.3.element_count() + self.4.element_count() + self.5.element_count() + self.6.element_count()) as int));
            }
            lemma_kept_compose(a, c0, (self.0.element_count() + self.1.element_count() + self.2.element_count() + self.3.element_count() + self.4.element_count() + self.5.element_count()), b6, cb6, self.6.element_count(), elements.items(), elements.cursor());
        }
        let ghost b7 = elements.items();
        let ghost cb7 = elements.cursor();
        proof {
            assert(b7.skip(cb7 as int).len() == a.skip((c0 + (self.0.element_count() + self.1.element_count() + self.2.element_count() + self.3.element_count() + self.4.element_count() + self.5.element_count() + self.6.element_count())) as int).len());
        }
        self.7.seq_teardown(elements);
        proof {
            assert(self.7.seq_tears_down(region(a, c0, self.element_count()).subrange((self.0.element_count() + self.1.element_count() + self.2.element_count() + self.3.element_count() + self.4.element_count() + self.5.element_count() + self.6.element_count()) as int, (self.0.element_count() + self.1.element_count() + self.2.element_count() + self.3.element_count() + self.4.element_count() + self.5.element_count() + self.6.element_count() + self.7.element_count()) as int))) by {
                lemma_sub_shift(a, b7, (c0 + (self.0.element_count() + self.1.element_count() + self.2.element_count() + self.3.element_count() + self.4.element_count() + self.5.element_count() + self.6.element_count())) as int, cb7 as int, self.7.element_count() as int);
                assert(region(a, c0, self.element_count()).subrange((self.0.element_count() + self.1.element_count() + self.2.element_count() + self.3.element_count() + self.4.element_count() + self.5.element_count() + self.6.element_count()) as int, (self.0.element_count() + self.1.element_count() + self.2.element_count() + self.3.element_count() + self.4.element_count() + self.5.element_count() + self.6.element_count() + self.7.element_count()) as int) =~= a.subrange(c0 + (self.0.element_count() + self.1.element_count() + self.2.element_count() + self.3.element_count() + self.4.element_count() + self.5.element_count() + self.6.element_count()) as int, c0 + (self.0.element_count() + self.1.element_count() + self.2.element_count() + self.3.element_count() + self.4.element_count() + self.5.element_count() + self.6.element_count() + self.7.element_count()) as int));
            }
            lemma_kept_compose(a, c0, (self.0.element_count() + self.1.element_count() + self.2.element_count() + self.3.element_count() + self.4.element_count() + self.5.element_count() + self.6.element_count()), b7, cb7, self.7.element_count(), elements.items(), elements.cursor());
        }
        let ghost b8 = elements.items();
        let ghost cb8 = elements.cursor();
        proof {
            assert(b8.skip(cb8 as int).len() == a.skip((c0 + (self.0.element_count() + self.1.element_count() + self.2.element_count() + self.3.element_count() + self.4.element_count() + self.5.element_count() + self.6.element_count() + self.7.element_count())) as int).len());
        }
        self.8.seq_teardown(elements);
        proof {
            assert(self.8.seq_tears_down(region(a, c0, self.element_count()).subrange((self.0.element_count() + self.1.element_count() + self.2.element_count() + self.3.element_count() + self.4.element_count() + self.5.element_count() + self.6.element_count() + self.7.element_count()) as int, (self.0.element_count() + self.1.element_count() + self.2.element_count() + self.3.element_count() + self.4.element_count() + self.5.element_count() + self.6.element_count() + self.7.element_count() + self.8.element_count()) as int))) by {
                lemma_sub_shift(a, b8, (c0 + (self.0.element_count() + self.1.element_count() + self.2.element_count() + self.3.element_count() + self.4.element_count() + self.5.element_count() + self.6.element_count() + self.7.element_count())) as int, cb8 as int, self.8.element_count() as int);
                assert(region(a, c0, self.element_count()).subrange((self.0.element_count() + self.1.element_count() + self.2.element_count() + self.3.element_count() + self.4.element_count() + self.5.element_count() + self.6.element_count() + self.7.element_count()) as int, (self.0.element_count() + self.1.element_count() + self.2.element_count() + self.3.element_count() + self.4.element_count() + self.5.element_count() + self.6.element_count() + self.7.element_count() + self.8.element_count()) as int) =~= a.subrange(c0 + (self.0.element_count() + self.1.element_count() + self.2.element_count() + self.3.element_count() + self.4.element_count() + self.5.element_count() + self.6.element_count() + self.7.element_count()) as int, c0 + (self.0.element_count() + self.1.element_count() + self.2.element_count() + self.3.element_count() + self.4.element_count() + self.5.element_count() + self.6.element_count() + self.7.element_count() + self.8.element_count()) as int));
            }
            lemma_kept_compose(a, c0, (self.0.element_count() + self.1.element_count() + self.2.element_count() + self.3.element_count() + self.4.element_count() + self.5.element_count() + self.6.element_count() + self.7.element_count()), b8, cb8, self.8.element_count(), elements.items(), elements.cursor());
        }
        let ghost b9 = elements.items();
        let ghost cb9 = elements.cursor();
        proof {
            assert(b9.skip(cb9 as int).len() == a.skip((c0 + (self.0.element_count() + self.1.element_count() + self.2.element_count() + self.3.element_count() + self.4.element_count() + self.5.element_count() + self.6.element_count() + self.7.element_count() + self.8.element_count())) as int).len());
        }
        self.9.seq_teardown(elements);
        proof {
            assert(self.9.seq_tears_down(region(a, c0, self.element_count()).subrange((self.0.element_count() + self.1.element_count() + self.2.element_count() + self.3.element_count() + self.4.element_count() + self.5.element_count() + self.6.element_count() + self.7.element_count() + self.8.element_count()) as int, (self.0.element_count() + self.1.element_count() + self.2.element_count() + self.3.element_count() + self.4.element_count() + self.5.element_count() + self.6.element_count() + self.7.element_count() + self.8.element_count() + self.9.element_count()) as int))) by {
                lemma_sub_shift(a, b9, (c0 + (self.0.element_count() + self.1.element_count() + self.2.element_count() + self.3.element_count() + self.4.element_count() + self.5.element_count() + self.6.element_count() + self.7.element_count() + self.8.element_count())) as int, cb9 as int, self.9.element_count() as int);
                assert(region(a, c0, self.element_count()).subrange((self.0.element_count() + self.1.element_count() + self.2.element_count() + self.3.element_count() + self.4.element_count() + self.5.element_count() + self.6.element_count() + self.7.element_count() + self.8.element_count()) as int, (self.0.element_count() + self.1.element_count() + self.2.element_count() + self.3.element_count() + self.4.element_count() + self.5.element_count() + self.6.element_count() + self.7.element_count() + self.8.element_count() + self.9.element_count()) as int) =~= a.subrange(c0 + (self.0.element_count() + self.1.element_count() + self.2.element_count() + self.3.element_count() + self.4.element_count() + self.5.element_count() + self.6.element_count() + self.7.element_count() + self.8.element_count()) as int, c0 + (self.0.element_count() + self.1.element_count() + self.2.element_count() + self.3.element_count() + self.4.element_count() + self.5.element_count() + self.6.element_count() + self.7.element_count() + self.8.element_count() + self.9.element_count()) as int));
            }
            lemma_kept_compose(a, c0, (self.0.element_count() + self.1.element_count() + self.2.element_count() + self.3.element_count() + self.4.element_count() + self.5.element_count() + self.6.element_count() + self.7.element_count() + self.8.element_count()), b9, cb9, self.9.element_count(), elements.items(), elements.cursor());
        }
        let ghost b10 = elements.items();
        let ghost cb10 = elements.cursor();
        proof {
            assert(b10.skip(cb10 as int).len() == a.skip((c0 + (self.0.element_count() + self.1.element_count() + self.2.element_count() + self.3.element_count() + self.4.element_count() + self.5.element_count() + self.6.element_count() + self.7.element_count() + self.8.element_count() + self.9.element_count())) as int).len());
        }
        self.10.seq_teardown(elements);
        proof {
            assert(self.10.seq_tears_down(region(a, c0, self.element_count()).subrange((self.0.element_count() + self.1.element_count() + self.2.element_count() + self.3.element_count() + self.4.element_count() + self.5.element_count() + self.6.element_count() + self.7.element_count() + self.8.element_count() + self.9.element_count()) as int, (self.0.element_count() + self.1.element_count() + self.2.element_count() + self.3.element_count() + self.4.element_count() + self.5.element_count() + self.6.element_count() + self.7.element_count() + self.8.element_count() + self.9.element_count() + self.10.element_count()) as int))) by {
                lemma_sub_shift(a, b10, (c0 + (self.0.element_count() + self.1.element_count() + self.2.element_count() + self.3.element_count() + self.4.element_count() + self.5.element_count() + self.6.element_count() + self.7.element_count() + self.8.element_count() + self.9.element_count())) as int, cb10 as int, self.10.element_count() as int);
                assert(region(a, c0, self.element_count()).subrange((self.0.element_count() + self.1.element_count() + self.2.element_count() + self.3.element_count() + self.4.element_count() + self.5.element_count() + self.6.element_count() + self.7.element_count() + self.8.element_count() + self.9.element_count()) as int, (self.0.element_count() + self.1.element_count() + self.2.element_count() + self.3.element_count() + self.4.element_count() + self.5.element_count() + self.6.element_count() + self.7.element_count() + self.8.element_count() + self.9.element_count() + self.10.element_count()) as int) =~= a.subrange(c0 + (self.0.element_count() + self.1.element_count() + self.2.element_count() + self.3.element_count() + self.4.element_count() + self.5.element_count() + self.6.element_count() + self.7.element_count() + self.8.element_count() + self.9.element_count()) as int, c0 + (self.0.element_count() + self.1.element_count() + self.2.element_count() + self.3.element_count() + self.4.element_count() + self.5.element_count() + self.6.element_count() + self.7.element_count() + self.8.element_count() + self.9.element_count() + self.10.element_count()) as int));
            }
            lemma_kept_compose(a, c0, (self.0.element_count() + self.1.element_count() + self.2.element_count() + self.3.element_count() + self.4.element_count() + self.5.element_count() + self.6.element_count() + self.7.element_count() + self.8.element_count() + self.9.element_count()), b10, cb10, self.10.element_count(), elements.items(), elements.cursor());
        }
        let ghost b11 = elements.items();
        let ghost cb11 = elements.cursor();
        proof {
            assert(b11.skip(cb11 as int).len() == a.skip((c0 + (self.0.element_count() + self.1.element_count() + self.2.element_count() + self.3.element_count() + self.4.element_count() + self.5.element_count() + self.6.element_count() + self.7.element_count() + self.8.element_count() + self.9.element_count() + self.10.element_count())) as int).len());
        }
        self.11.seq_teardown(elements);
        proof {
            assert(self.11.seq_tears_down(region(a, c0, self.element_count()).subrange((self.0.element_count() + self.1.element_count() + self.2.element_count() + self.3.element_count() + self.4.element_count() + self.5.element_count() + self.6.element_count() + self.7.element_count() + self.8.element_count() + self.9.element_count() + self.10.element_count()) as int, (self.0.element_count() + self.1.element_count() + self.2.element_count() + self.3.element_count() + self.4.element_count() + self.5.element_count() + self.6.element_count() + self.7.element_count() + self.8.element_count() + self.9.element_count() + self.10.element_count() + self.11.element_count()) as int))) by {
                lemma_sub_shift(a, b11, (c0 + (self.0.element_count() + self.1.element_count() + self.2.element_count() + self.3.element_count() + self.4.element_count() + self.5.element_count() + self.6.element_count() + self.7.element_count() + self.8.element_count() + self.9.element_count() + self.10.element_count())) as int, cb11 as int, self.11.element_count() as int);
                assert(region(a, c0, self.element_count()).subrange((self.0.element_count() + self.1.element_count() + self.2.element_count() + self.3.element_count() + self.4.element_count() + self.5.element_count() + self.6.element_count() + self.7.element_count() + self.8.element_count() + self.9.element_count() + self.10.element_count()) as int, (self.0.element_count() + self.1.element_count() + self.2.element_count() + self.3.element_count() + self.4.element_count() + self.5.element_count() + self.6.element_count() + self.7.element_count() + self.8.element_count() + self.9.element_count() + self.10.element_count() + self.11.element_count()) as int) =~= a.subrange(c0 + (self.0.element_count() + self.1.element_count() + self.2.element_count() + self.3.element_count() + self.4.element_count() + self.5.element_count() + self.6.element_count() + self.7.element_count() + self.8.element_count() + self.9.element_count() + self.10.element_count()) as int, c0 + (self.0.element_count() + self.1.element_count() + self.2.element_count() + self.3.element_count() + self.4.element_count() + self.5.element_count() + self.6.element_count() + self.7.element_count() + self.8.element_count() + self.9.element_count() + self.10.element_count() + self.11.element_count()) as int));
            }
            lemma_kept_compose(a, c0, (self.0.element_count() + self.1.element_count() + self.2.element_count() + self.3.element_count() + self.4.element_count() + self.5.element_count() + self.6.element_count() + self.7.element_count() + self.8.element_count() + self.9.element_count() + self.10.element_count()), b11, cb11, self.11.element_count(), elements.items(), elements.cursor());
        }
        let ghost b12 = elements.items();
        let ghost cb12 = elements.cursor();
        proof {
            assert(b12.skip(cb12 as int).len() == a.skip((c0 + (self.0.element_count() + self.1.element_count() + self.2.element_count() + self.3.element_count() + self.4.element_count() + self.5.element_count() + self.6.element_count() + self.7.element_count() + self.8.element_count() + self.9.element_count() + self.10.element_count() + self.11.element_count())) as int).len());
        }
        self.12.seq_teardown(elements);
        proof {
            assert(self.12.seq_tears_down(region(a, c0, self.element_count()).subrange((self.0.element_count() + self.1.element_count() + self.2.element_count() + self.3.element_count() + self.4.element_count() + self.5.element_count() + self.6.element_count() + self.7.element_count() + self.8.element_count() + self.9.element_count() + self.10.element_count() + self.11.element_count()) as int, (self.0.element_count() + self.1.element_count() + self.2.element_count() + self.3.element_count() + self.4.element_count() + self.5.element_count() + self.6.element_count() + self.7.element_count() + self.8.element_count() + self.9.element_count() + self.10.element_count() + self.11.element_count() + self.12.element_count()) as int))) by {
                lemma_sub_shift(a, b12, (c0 + (self.0.element_count() + self.1.element_count() + self.2.element_count() + self.3.element_count() + self.4.element_count() + self.5.element_count() + self.6.element_count() + self.7.element_count() + self.8.element_count() + self.9.element_count() + self.10.element_count() + self.11.element_count())) as int, cb12 as int, self.12.element_count() as int);
                assert(region(a, c0, self.element_count()).subrange((self.0.element_count() + self.1.element_count() + self.2.element_count() + self.3.element_count() + self.4.element_count() + self.5.element_count() + self.6.element_count() + self.7.element_count() + self.8.element_count() + self.9.element_count() + self.10.element_count() + self.11.element_count()) as int, (self.0.element_count() + self.1.element_count() + self.2.element_count() + self.3.element_count() + self.4.element_count() + self.5.element_count() + self.6.element_count() + self.7.element_count() + self.8.element_count() + self.9.element_count() + self.10.element_count() + self.11.element_count() + self.12.element_count()) as int) =~= a.subrange(c0 + (self.0.element_count() + self.1.element_count() + self.2.element_count() + self.3.element_count() + self.4.element_count() + self.5.element_count() + self.6.element_count() + self.7.element_count() + self.8.element_count() + self.9.element_count() + self.10.element_count() + self.11.element_count()) as int, c0 + (self.0.element_count() + self.1.element_count() + self.2.element_count() + self.3.element_count() + self.4.element_count() + self.5.element_count() + self.6.element_count() + self.7.element_count() + self.8.element_count() + self.9.element_count() + self.10.element_count() + self.11.element_count() + self.12.element_count()) as int));
            }
            lemma_kept_compose(a, c0, (self.0.element_count() + self.1.element_count() + self.2.element_count() + self.3.element_count() + self.4.element_count() + self.5.element_count() + self.6.element_count() + self.7.element_count() + self.8.element_count() + self.9.element_count() + self.10.element_count() + self.11.element_count()), b12, cb12, self.12.element_count(), elements.items(), elements.cursor());
        }
    }
}

/// A tuple of 14 sequences builds the elements of each, in order.
impl<State, Element, S0, S1, S2, S3, S4, S5, S6, S7, S8, S9, S10, S11, S12, S13> ViewSequence<State, Element> for (S0, S1, S2, S3, S4, S5, S6, S7, S8, S9, S10, S11, S12, S13,) where
    S0: ViewSequence<State, Element>,
    S1: ViewSequence<State, Element>,
    S2: ViewSequence<State, Element>,
    S3: ViewSequence<State, Element>,
    S4: ViewSequence<State, Element>,
    S5: ViewSequence<State, Element>,
    S6: ViewSequence<State, Element>,
    S7: ViewSequence<State, Element>,
    S8: ViewSequence<State, Element>,
    S9: ViewSequence<State, Element>,
    S10: ViewSequence<State, Element>,
    S11: ViewSequence<State, Element>,
    S12: ViewSequence<State, Element>,
    S13: ViewSequence<State, Element>,
 {
    open spec fn element_count(&self) -> nat {
        self.0.element_count() + self.1.element_count() + self.2.element_count() + self.3.element_count() + self.4.element_count() + self.5.element_count() + self.6.element_count() + self.7.element_count() + self.8.element_count() + self.9.element_count() + self.10.element_count() + self.11.element_count() + self.12.element_count() + self.13.element_count()
    }

    open spec fn seq_builds(&self, out: Seq<Element>) -> bool {
        &&& out.len() == self.element_count()
        &&& self.0.seq_builds(out.subrange(0int, (self.0.element_count()) as int))
        &&& self.1.seq_builds(out.subrange((self.0.element_count()) as int, (self.0.element_count() + self.1.element_count()) as int))
        &&& self.2.seq_builds(out.subrange((self.0.element_count() + self.1.element_count()) as int, (self.0.element_count() + self.1.element_count() + self.2.element_count()) as int))
        &&& self.3.seq_builds(out.subrange((self.0.element_count() + self.1.element_count() + self.2.element_count()) as int, (self.0.element_count() + self.1.element_count() + self.2.element_count() + self.3.element_count()) as int))
        &&& self.4.seq_builds(out.subrange((self.0.element_count() + self.1.element_count() + self.2.element_count() + self.3.element_count()) as int, (self.0.element_count() + self.1.element_count() + self.2.element_count() + self.3.element_count() + self.4.element_count()) as int))
        &&& self.5.seq_builds(out.subrange((self.0.element_count() + self.1.element_count() + self.2.element_count() + self.3.element_count() + self.4.element_count()) as int, (self.0.element_count() + self.1.element_count() + self.2.element_count() + self.3.element_count() + self.4.element_count() + self.5.element_count()) as int))
        &&& self.6.seq_builds(out.subrange((self.0.element_count() + self.1.element_count() + self.2.element_count() + self.3.element_count() + self.4.element_count() + self.5.element_count()) as int, (self.0.element_count() + self.1.element_count() + self.2.element_count() + self.3.element_count() + self.4.element_count() + self.5.element_count() + self.6.element_count()) as int))
        &&& self.7.seq_builds(out.subrange((self.0.element_count() + self.1.element_count() + self.2.element_count() + self.3.element_count() + self.4.element_count() + self.5.element_count() + self.6.element_count()) as int, (self.0.element_count() + self.1.element_count() + self.2.element_count() + self.3.element_count() + self.4.element_count() + self.5.element_count() + self.6.element_count() + self.7.element_count()) as int))
        &&& self.8.seq_builds(out.subrange((self.0.element_count() + self.1.element_count() + self.2.element_count() + self.3.element_count() + self.4.element_count() + self.5.element_count() + self.6.element_count() + self.7.element_count()) as int, (self.0.element_count() + self.1.element_count() + self.2.element_count() + self.3.element_count() + self.4.element_count() + self.5.element_count() + self.6.element_count() + self.7.element_count() + self.8.element_count()) as int))
        &&& self.9.seq_builds(out.subrange((self.0.element_count() + self.1.element_count() + self.2.element_count() + self.3.element_count() + self.4.element_count() + self.5.element_count() + self.6.element_count() + self.7.element_count() + self.8.element_count()) as int, (self.0.element_count() + self.1.element_count() + self.2.element_count() + self.3.element_count() + self.4.element_count() + self.5.element_count() + self.6.element_count() + self.7.element_count() + self.8.element_count() + self.9.element_count()) as int))
        &&& self.10.seq_builds(out.subrange((self.0.element_count() + self.1.element_count() + self.2.element_count() + self.3.element_count() + self.4.element_count() + self.5.element_count() + self.6.element_count() + self.7.element_count() + self.8.element_count() + self.9.element_count()) as int, (self.0.element_count() + self.1.element_count() + self.2.element_count() + self.3.element_count() + self.4.element_count() + self.5.element_count() + self.6.element_count() + self.7.element_count() + self.8.element_count() + self.9.element_count() + self.10.element_count()) as int))
        &&& self.11.seq_builds(out.subrange((self.0.element_count() + self.1.element_count() + self.2.element_count() + self.3.element_count() + self.4.element_count() + self.5.element_count() + self.6.element_count() + self.7.element_count() + self.8.element_count() + self.9.element_count() + self.10.element_count()) as int, (self.0.element_count() + self.1.element_count() + self.2.element_count() + self.3.element_count() + self.4.element_count() + self.5.element_count() + self.6.element_count() + self.7.element_count() + self.8.element_count() + self.9.element_count() + self.10.element_count() + self.11.element_count()) as int))
        &&& self.12.seq_builds(out.subrange((self.0.element_count() + self.1.element_count() + self.2.element_count() + self.3.element_count() + self.4.element_count() + self.5.element_count() + self.6.element_count() + self.7.element_count() + self.8.element_count() + self.9.element_count() + self.10.element_count() + self.11.element_count()) as int, (self.0.element_count() + self.1.element_count() + self.2.element_count() + self.3.element_count() + self.4.element_count() + self.5.element_count() + self.6.element_count() + self.7.element_count() + self.8.element_count() + self.9.element_count() + self.10.element_count() + self.11.element_count() + self.12.element_count()) as int))
        &&& self.13.seq_builds(out.subrange((self.0.element_count() + self.1.element_count() + self.2.element_count() + self.3.element_count() + self.4.element_count() + self.5.element_count() + self.6.element_count() + self.7.element_count() + self.8.element_count() + self.9.element_count() + self.10.element_count() + self.11.element_count() + self.12.element_count()) as int, (self.0.element_count() + self.1.element_count() + self.2.element_count() + self.3.element_count() + self.4.element_count() + self.5.element_count() + self.6.element_count() + self.7.element_count() + self.8.element_count() + self.9.element_count() + self.10.element_count() + self.11.element_count() + self.12.element_count() + self.13.element_count()) as int))
    }

    open spec fn seq_rebuilds(&self, prev: &Self, before: Seq<Element>, after: Seq<Element>) -> bool {
        &&& before.len() == prev.element_count()
        &&& after.len() == self.element_count()
        &&& self.0.seq_rebuilds(
            &prev.0,
            before.subrange(0int, (prev.0.element_count()) as int),
            after.subrange(0int, (self.0.element_count()) as int),
        )
        &&& self.1.seq_rebuilds(
            &prev.1,
            before.subrange((prev.0.element_count()) as int, (prev.0.element_count() + prev.1.element_count()) as int),
            after.subrange((self.0.element_count()) as int, (self.0.element_count() + self.1.element_count()) as int),
        )
        &&& self.2.seq_rebuilds(
            &prev.2,
            before.subrange((prev.0.element_count() + prev.1.element_count()) as int, (prev.0.element_count() + prev.1.element_count() + prev.2.element_count()) as int),
            after.subrange((self.0.element_count() + self.1.element_count()) as int, (self.0.element_count() + self.1.element_count() + self.2.element_count()) as int),
        )
        &&& self.3.seq_rebuilds(
            &prev.3,
            before.subrange((prev.0.element_count() + prev.1.element_count() + prev.2.element_count()) as int, (prev.0.element_count() + prev.1.element_count() + prev.2.element_count() + prev.3.element_count()) as int),
            after.subrange((self.0.element_count() + self.1.element_count() + self.2.element_count()) as int, (self.0.element_count() + self.1.element_count() + self.2.element_count() + self.3.element_count()) as int),
        )
        &&& self.4.seq_rebuilds(
            &prev.4,
            before.subrange((prev.0.element_count() + prev.1.element_count() + prev.2.element_count() + prev.3.element_count()) as int, (prev.0.element_count() + prev.1.element_count() + prev.2.element_count() + prev.3.element_count() + prev.4.element_count()) as int),
            after.subrange((self.0.element_count() + self.1.element_count() + self.2.element_count() + self.3.element_count()) as int, (self.0.element_count() + self.1.element_count() + self.2.element_count() + self.3.element_count() + self.4.element_count()) as int),
        )
        &&& self.5.seq_rebuilds(
            &prev.5,
            before.subrange((prev.0.element_count() + prev.1.element_count() + prev.2.element_count() + prev.3.element_count() + prev.4.element_count()) as int, (prev.0.element_count() + prev.1.element_count() + prev.2.element_count() + prev.3.element_count() + prev.4.element_count() + prev.5.element_count()) as int),
            after.subrange((self.0.element_count() + self.1.element_count() + self.2.element_count() + self.3.element_count() + self.4.element_count()) as int, (self.0.element_count() + self.1.element_count() + self.2.element_count() + self.3.element_count() + self.4.element_count() + self.5.element_count()) as int),
        )
        &&& self.6.seq_rebuilds(
            &prev.6,
            before.subrange((prev.0.element_count() + prev.1.element_count() + prev.2.element_count() + prev.3.element_count() + prev.4.element_count() + prev.5.element_count()) as int, (prev.0.element_count() + prev.1.element_count() + prev.2.element_count() + prev.3.element_count() + prev.4.element_count() + prev.5.element_count() + prev.6.element_count()) as int),
            after.subrange((self.0.element_count() + self.1.element_count() + self.2.element_count() + self.3.element_count() + self.4.element_count() + self.5.element_count()) as int, (self.0.element_count() + self.1.element_count() + self.2.element_count() + self.3.element_count() + self.4.element_count() + self.5.element_count() + self.6.element_count()) as int),
        )
        &&& self.7.seq_rebuilds(
            &prev.7,
            before.subrange((prev.0.element_count() + prev.1.element_count() + prev.2.element_count() + prev.3.element_count() + prev.4.element_count() + prev.5.element_count() + prev.6.element_count()) as int, (prev.0.element_count() + prev.1.element_count() + prev.2.element_count() + prev.3.element_count() + prev.4.element_count() + prev.5.element_count() + prev.6.element_count() + prev.7.element_count()) as int),
            after.subrange((self.0.element_count() + self.1.element_count() + self.2.element_count() + self.3.element_count() + self.4.element_count() + self.5.element_count() + self.6.element_count()) as int, (self.0.element_count() + self.1.element_count() + self.2.element_count() + self.3.element_count() + self.4.element_count() + self.5.element_count() + self.6.element_count() + self.7.element_count()) as int),
        )
        &&& self.8.seq_rebuilds(
            &prev.8,
            before.subrange((prev.0.element_count() + prev.1.element_count() + prev.2.element_count() + prev.3.element_count() + prev.4.element_count() + prev.5.element_count() + prev.6.element_count() + prev.7.element_count()) as int, (prev.0.element_count() + prev.1.element_count() + prev.2.element_count() + prev.3.element_count() + prev.4.element_count() + prev.5.element_count() + prev.6.element_count() + prev.7.element_count() + prev.8.element_count()) as int),
            after.subrange((self.0.element_count() + self.1.element_count() + self.2.element_count() + self.3.element_count() + self.4.element_count() + self.5.element_count() + self.6.element_count() + self.7.element_count()) as int, (self.0.element_count() + self.1.element_count() + self.2.element_count() + self.3.element_count() + self.4.element_count() + self.5.element_count() + self.6.element_count() + self.7.element_count() + self.8.element_count()) as int),
        )
        &&& self.9.seq_rebuilds(
            &prev.9,
            before.subrange((prev.0.element_count() + prev.1.element_count() + prev.2.element_count() + prev.3.element_count() + prev.4.element_count() + prev.5.element_count() + prev.6.element_count() + prev.7.element_count() + prev.8.element_count()) as int, (prev.0.element_count() + prev.1.element_count() + prev.2.element_count() + prev.3.element_count() + prev.4.element_count() + prev.5.element_count() + prev.6.element_count() + prev.7.element_count() + prev.8.element_count() + prev.9.element_count()) as int),
            after.subrange((self.0.element_count() + self.1.element_count() + self.2.element_count() + self.3.element_count() + self.4.element_count() + self.5.element_count() + self.6.element_count() + self.7.element_count() + self.8.element_count()) as int, (self.0.element_count() + self.1.element_count() + self.2.element_count() + self.3.element_count() + self.4.element_count() + self.5.element_count() + self.6.element_count() + self.7.element_count() + self.8.element_count() + self.9.element_count()) as int),
        )
        &&& self.10.seq_rebuilds(
            &prev.10,
            before.subrange((prev.0.element_count() + prev.1.element_count() + prev.2.element_count() + prev.3.element_count() + prev.4.element_count() + prev.5.element_count() + prev.6.element_count() + prev.7.element_count() + prev.8.element_count() + prev.9.element_count()) as int, (prev.0.element_count() + prev.1.element_count() + prev.2.element_count() + prev.3.element_count() + prev.4.element_count() + prev.5.element_count() + prev.6.element_count() + prev.7.element_count() + prev.8.element_count() + prev.9.element_count() + prev.10.element_count()) as int),
            after.subrange((self.0.element_count() + self.1.element_count() + self.2.element_count() + self.3.element_count() + self.4.element_count() + self.5.element_count() + self.6.element_count() + self.7.element_count() + self.8.element_count() + self.9.element_count()) as int, (self.0.element_count() + self.1.element_count() + self.2.element_count() + self.3.element_count() + self.4.element_count() + self.5.element_count() + self.6.element_count() + self.7.element_count() + self.8.element_count() + self.9.element_count() + self.10.element_count()) as int),
        )
        &&& self.11.seq_rebuilds(
            &prev.11,
            before.subrange((prev.0.element_count() + prev.1.element_count() + prev.2.element_count() + prev.3.element_count() + prev.4.element_count() + prev.5.element_count() + prev.6.element_count() + prev.7.element_count() + prev.8.element_count() + prev.9.element_count() + prev.10.element_count()) as int, (prev.0.element_count() + prev.1.element_count() + prev.2.element_count() + prev.3.element_count() + prev.4.element_count() + prev.5.element_count() + prev.6.element_count() + prev.7.element_count() + prev.8.element_count() + prev.9.element_count() + prev.10.element_count() + prev.11.element_count()) as int),
            after.subrange((self.0.element_count() + self.1.element_count() + self.2.element_count() + self.3.element_count() + self.4.element_count() + self.5.element_count() + self.6.element_count() + self.7.element_count() + self.8.element_count() + self.9.element_count() + self.10.element_count()) as int, (self.0.element_count() + self.1.element_count() + self.2.element_count() + self.3.element_count() + self.4.element_count() + self.5.element_count() + self.6.element_count() + self.7.element_count() + self.8.element_count() + self.9.element_count() + self.10.element_count() + self.11.element_count()) as int),
        )
        &&& self.12.seq_rebuilds(
            &prev.12,
            before.subrange((prev.0.element_count() + prev.1.element_count() + prev.2.element_count() + prev.3.element_count() + prev.4.element_count() + prev.5.element_count() + prev.6.element_count() + prev.7.element_count() + prev.8.element_count() + prev.9.element_count() + prev.10.element_count() + prev.11.element_count()) as int, (prev.0.element_count() + prev.1.element_count() + prev.2.element_count() + prev.3.element_count() + prev.4.element_count() + prev.5.element_count() + prev.6.element_count() + prev.7.element_count() + prev.8.element_count() + prev.9.element_count() + prev.10.element_count() + prev.11.element_count() + prev.12.element_count()) as int),
            after.subrange((self.0.element_count() + self.1.element_count() + self.2.element_count() + self.3.element_count() + self.4.element_count() + self.5.element_count() + self.6.element_count() + self.7.element_count() + self.8.element_count() + self.9.element_count() + self.10.element_count() + self.11.element_count()) as int, (self.0.element_count() + self.1.element_count() + self.2.element_count() + self.3.element_count() + self.4.element_count() + self.5.element_count() + self.6.element_count() + self.7.element_count() + self.8.element_count() + self.9.element_count() + self.10.element_count() + self.11.element_count() + self.12.element_count()) as int),
        )
        &&& self.13.seq_rebuilds(
            &prev.13,
            before.subrange((prev.0.element_count() + prev.1.element_count() + prev.2.element_count() + prev.3.element_count() + prev.4.element_count() + prev.5.element_count() + prev.6.element_count() + prev.7.element_count() + prev.8.element_count() + prev.9.element_count() + prev.10.element_count() + prev.11.element_count() + prev.12.element_count()) as int, (prev.0.element_count() + prev.1.element_count() + prev.2.element_count() + prev.3.element_count() + prev.4.element_count() + prev.5.element_count() + prev.6.element_count() + prev.7.element_count() + prev.8.element_count() + prev.9.element_count() + prev.10.element_count() + prev.11.element_count() + prev.12.element_count() + prev.13.element_count()) as int),
            after.subrange((self.0.element_count() + self.1.element_count() + self.2.element_count() + self.3.element_count() + self.4.element_count() + self.5.element_count() + self.6.element_count() + self.7.element_count() + self.8.element_count() + self.9.element_count() + self.10.element_count() + self.11.element_count() + self.12.element_count()) as int, (self.0.element_count() + self.1.element_count() + self.2.element_count() + self.3.element_count() + self.4.element_count() + self.5.element_count() + self.6.element_count() + self.7.element_count() + self.8.element_count() + self.9.element_count() + self.10.element_count() + self.11.element_count() + self.12.element_count() + self.13.element_count()) as int),
        )
    }

    open spec fn seq_tears_down(&self, before: Seq<Element>) -> bool {
        &&& before.len() == self.element_count()
        &&& self.0.seq_tears_down(before.subrange(0int, (self.0.element_count()) as int))
        &&& self.1.seq_tears_down(before.subrange((self.0.element_count()) as int, (self.0.element_count() + self.1.element_count()) as int))
        &&& self.2.seq_tears_down(before.subrange((self.0.element_count() + self.1.element_count()) as int, (self.0.element_count() + self.1.element_count() + self.2.element_count()) as int))
        &&& self.3.seq_tears_down(before.subrange((self.0.element_count() + self.1.element_count() + self.2.element_count()) as int, (self.0.element_count() + self.1.element_count() + self.2.element_count() + self.3.element_count()) as int))
        &&& self.4.seq_tears_down(before.subrange((self.0.element_count() + self.1.element_count() + self.2.element_count() + self.3.element_count()) as int, (self.0.element_count() + self.1.element_count() + self.2.element_count() + self.3.element_count() + self.4.element_count()) as int))
        &&& self.5.seq_tears_down(before.subrange((self.0.element_count() + self.1.element_count() + self.2.element_count() + self.3.element_count() + self.4.element_count()) as int, (self.0.element_count() + self.1.element_count() + self.2.element_count() + self.3.element_count() + self.4.element_count() + self.5.element_count()) as int))
        &&& self.6.seq_tears_down(before.subrange((self.0.element_count() + self.1.element_count() + self.2.element_count() + self.3.element_count() + self.4.element_count() + self.5.element_count()) as int, (self.0.element_count() + self.1.element_count() + self.2.element_count() + self.3.element_count() + self.4.element_count() + self.5.element_count() + self.6.element_count()) as int))
        &&& self.7.seq_tears_down(before.subrange((self.0.element_count() + self.1.element_count() + self.2.element_count() + self.3.element_count() + self.4.element_count() + self.5.element_count() + self.6.element_count()) as int, (self.0.element_count() + self.1.element_count() + self.2.element_count() + self.3.element_count() + self.4.element_count() + self.5.element_count() + self.6.element_count() + self.7.element_count()) as int))
        &&& self.8.seq_tears_down(before.subrange((self.0.element_count() + self.1.element_count() + self.2.element_count() + self.3.element_count() + self.4.element_count() + self.5.element_count() + self.6.element_count() + self.7.element_count()) as int, (self.0.element_count() + self.1.element_count() + self.2.element_count() + self.3.element_count() + self.4.element_count() + self.5.element_count() + self.6.element_count() + self.7.element_count() + self.8.element_count()) as int))
        &&& self.9.seq_tears_down(before.subrange((self.0.element_count() + self.1.element_count() + self.2.element_count() + self.3.element_count() + self.4.element_count() + self.5.element_count() + self.6.element_count() + self.7.element_count() + self.8.element_count()) as int, (self.0.element_count() + self.1.element_count() + self.2.element_count() + self.3.element_count() + self.4.element_count() + self.5.element_count() + self.6.element_count() + self.7.element_count() + self.8.element_count() + self.9.element_count()) as int))
        &&& self.10.seq_tears_down(before.subrange((self.0.element_count() + self.1.element_count() + self.2.element_count() + self.3.element_count() + self.4.element_count() + self.5.element_count() + self.6.element_count() + self.7.element_count() + self.8.element_count() + self.9.element_count()) as int, (self.0.element_count() + self.1.element_count() + self.2.element_count() + self.3.element_count() + self.4.element_count() + self.5.element_count() + self.6.element_count() + self.7.element_count() + self.8.element_count() + self.9.element_count() + self.10.element_count()) as int))
        &&& self.11.seq_tears_down(before.subrange((self.0.element_count() + self.1.element_count() + self.2.element_count() + self.3.element_count() + self.4.element_count() + self.5.element_count() + self.6.element_count() + self.7.element_count() + self.8.element_count() + self.9.element_count() + self.10.element_count()) as int, (self.0.element_count() + self.1.element_count() + self.2.element_count() + self.3.element_count() + self.4.element_count() + self.5.element_count() + self.6.element_count() + self.7.element_count() + self.8.element_count() + self.9.element_count() + self.10.element_count() + self.11.element_count()) as int))
        &&& self.12.seq_tears_down(before.subrange((self.0.element_count() + self.1.element_count() + self.2.element_count() + self.3.element_count() + self.4.element_count() + self.5.element_count() + self.6.element_count() + self.7.element_count() + self.8.element_count() + self.9.element_count() + self.10.element_count() + self.11.element_count()) as int, (self.0.element_count() + self.1.element_count() + self.2.element_count() + self.3.element_count() + self.4.element_count() + self.5.element_count() + self.6.element_count() + self.7.element_count() + self.8.element_count() + self.9.element_count() + self.10.element_count() + self.11.element_count() + self.12.element_count()) as int))
        &&& self.13.seq_tears_down(before.subrange((self.0.element_count() + self.1.element_count() + self.2.element_count() + self.3.element_count() + self.4.element_count() + self.5.element_count() + self.6.element_count() + self.7.element_count() + self.8.element_count() + self.9.element_count() + self.10.element_count() + self.11.element_count() + self.12.element_count()) as int, (self.0.element_count() + self.1.element_count() + self.2.element_count() + self.3.element_count() + self.4.element_count() + self.5.element_count() + self.6.element_count() + self.7.element_count() + self.8.element_count() + self.9.element_count() + self.10.element_count() + self.11.element_count() + self.12.element_count() + self.13.element_count()) as int))
    }

    #[verifier::spinoff_prover]
    #[verifier::rlimit(100)]
    fn seq_build(&self, elements: &mut Vec<Element>) {
        let ghost start = elements@;
        let ghost sl = start.len() as int;
        let ghost b0 = elements@;
        self.0.seq_build(elements);
        let ghost f0 = elements@;
        let ghost b1 = elements@;
        self.1.seq_build(elements);
        let ghost f1 = elements@;
        proof {
            lemma_prefix_kept(start, b1, elements@);
        }
        let ghost b2 = elements@;
        self.2.seq_build(elements);
        let ghost f2 = elements@;
        proof {
            lemma_prefix_kept(start, b2, elements@);
        }
        let ghost b3 = elements@;
        self.3.seq_build(elements);
        let ghost f3 = elements@;
        proof {
            lemma_prefix_kept(start, b3, elements@);
        }
        let ghost b4 = elements@;
        self.4.seq_build(elements);
        let ghost f4 = elements@;
        proof {
            lemma_prefix_kept(start, b4, elements@);
        }
        let ghost b5 = elements@;
        self.5.seq_build(elements);
        let ghost f5 = elements@;
        proof {
            lemma_prefix_kept(start, b5, elements@);
        }
        let ghost b6 = elements@;
        self.6.seq_build(elements);
        let ghost f6 = elements@;
        proof {
            lemma_prefix_kept(start, b6, elements@);
        }
        let ghost b7 = elements@;
        self.7.seq_build(elements);
        let ghost f7 = elements@;
        proof {
            lemma_prefix_kept(start, b7, elements@);
        }
        let ghost b8 = elements@;
        self.8.seq_build(elements);
        let ghost f8 = elements@;
        proof {
            lemma_prefix_kept(start, b8, elements@);
        }
        let ghost b9 = elements@;
        self.9.seq_build(elements);
        let ghost f9 = elements@;
        proof {
            lemma_prefix_kept(start, b9, elements@);
        }
        let ghost b10 = elements@;
        self.10.seq_build(elements);
        let ghost f10 = elements@;
        proof {
            lemma_prefix_kept(start, b10, elements@);
        }
        let ghost b11 = elements@;
        self.11.seq_build(elements);
        let ghost f11 = elements@;
        proof {
            lemma_prefix_kept(start, b11, elements@);
        }
        let ghost b12 = elements@;
        self.12.seq_build(elements);
        let ghost f12 = elements@;
        proof {
            lemma_prefix_kept(start, b12, elements@);
        }
        let ghost b13 = elements@;
        self.13.seq_build(elements);
        let ghost f13 = elements@;
        proof {
            lemma_prefix_kept(start, b13, elements@);
        }
        proof {
            let fin = elements@;
            assert(fin.take(fin.len() as int) =~= f13.take(fin.len() as int));
            assert(f13.take(b13.len() as int) == b13);
            assert(b13.take(b13.len() as int) =~= b13);
            lemma_take_link(fin, f13, b13, b13.len() as int, fin.len() as int);
            assert(b12.take(b12.len() as int) =~= b12);
            lemma_take_link(fin, f12, b12, b12.len() as int, b13.len() as int);
            assert(b11.take(b11.len() as int) =~= b11);
            lemma_take_link(fin, f11, b11, b11.len() as int, b12.len() as int);
            assert(b10.take(b10.len() as int) =~= b10);
            lemma_take_link(fin, f10, b10, b10.len() as int, b11.len() as int);
            assert(b9.take(b9.len() as int) =~= b9);
            lemma_take_link(fin, f9, b9, b9.len() as int, b10.len() as int);
            assert(b8.take(b8.len() as int) =~= b8);
            lemma_take_link(fin, f8, b8, b8.len() as int, b9.len() as int);
            assert(b7.take(b7.len() as int) =~= b7);
            lemma_take_link(fin, f7, b7, b7.len() as int, b8.len() as int);
            assert(b6.take(b6.len() as int) =~= b6);
            lemma_take_link(fin, f6, b6, b6.len() as int, b7.len() as int);
            assert(b5.take(b5.len() as int) =~= b5);
            lemma_take_link(fin, f5, b5, b5.len() as int, b6.len() as int);
            assert(b4.take(b4.len() as int) =~= b4);
            lemma_take_link(fin, f4, b4, b4.len() as int, b5.len() as int);
            assert(b3.take(b3.len() as int) =~= b3);
            lemma_take_link(fin, f3, b3, b3.len() as int, b4.len() as int);
            assert(b2.take(b2.len() as int) =~= b2);
            lemma_take_link(fin, f2, b2, b2.len() as int, b3.len() as int);
            assert(b1.take(b1.len() as int) =~= b1);
            lemma_take_link(fin, f1, b1, b1.len() as int, b2.len() as int);
            assert(self.0.seq_builds(fin.skip(sl).subrange(0int, (self.0.element_count()) as int))) by {
                lemma_sub_stable(fin, f0, b1.len() as int, sl + 0int, sl + (self.0.element_count()) as int);
                assert(f0.skip(b0.len() as int) =~= f0.subrange(sl + 0int, sl + (self.0.element_count()) as int));
                assert(fin.skip(sl).subrange(0int, (self.0.element_count()) as int) =~= fin.subrange(sl + 0int, sl + (self.0.element_count()) as int));
            }
            assert(self.1.seq_builds(fin.skip(sl).subrange((self.0.element_count()) as int, (self.0.element_count() + self.1.element_count()) as int))) by {
                lemma_sub_stable(fin, f1, b2.len() as int, sl + (self.0.element_count()) as int, sl + (self.0.element_count() + self.1.element_count()) as int);
                assert(f1.skip(b1.len() as int) =~= f1.subrange(sl + (self.0.element_count()) as int, sl + (self.0.element_count() + self.1.element_count()) as int));
                assert(fin.skip(sl).subrange((self.0.element_count()) as int, (self.0.element_count() + self.1.element_count()) as int) =~= fin.subrange(sl + (self.0.element_count()) as int, sl + (self.0.element_count() + self.1.element_count()) as int));
            }
            assert(self.2.seq_builds(fin.skip(sl).subrange((self.0.element_count() + self.1.element_count()) as int, (self.0.element_count() + self.1.element_count() + self.2.element_count()) as int))) by {
                lemma_sub_stable(fin, f2, b3.len() as int, sl + (self.0.element_count() + self.1.element_count()) as int, sl + (self.0.element_count() + self.1.element_count() + self.2.element_count()) as int);
                assert(f2.skip(b2.len() as int) =~= f2.subrange(sl + (self.0.element_count() + self.1.element_count()) as int, sl + (self.0.element_count() + self.1.element_count() + self.2.element_count()) as int));
                assert(fin.skip(sl).subrange((self.0.element_count() + self.1.element_count()) as int, (self.0.element_count() + self.1.element_count() + self.2.element_count()) as int) =~= fin.subrange(sl + (self.0.element_count() + self.1.element_count()) as int, sl + (self.0.element_count() + self.1.element_count() + self.2.element_count()) as int));
            }
            assert(self.3.seq_builds(fin.skip(sl).subrange((self.0.element_count() + self.1.element_count() + self.2.element_count()) as int, (self.0.element_count() + self.1.element_count() + self.2.element_count() + self.3.element_count()) as int))) by {
                lemma_sub_stable(fin, f3, b4.len() as int, sl + (self.0.element_count() + self.1.element_count() + self.2.element_count()) as int, sl + (self.0.element_count() + self.1.element_count() + self.2.element_count() + self.3.element_count()) as int);
                assert(f3.skip(b3.len() as int) =~= f3.subrange(sl + (self.0.element_count() + self.1.element_count() + self.2.element_count()) as int, sl + (self.0.element_count() + self.1.element_count() + self.2.element_count() + self.3.element_count()) as int));
                assert(fin.skip(sl).subrange((self.0.element_count() + self.1.element_count() + self.2.element_count()) as int, (self.0.element_count() + self.1.element_count() + self.2.element_count() + self.3.element_count()) as int) =~= fin.subrange(sl + (self.0.element_count() + self.1.element_count() + self.2.element_count()) as int, sl + (self.0.element_count() + self.1.element_count() + self.2.element_count() + self.3.element_count()) as int));
            }
            assert(self.4.seq_builds(fin.skip(sl).subrange((self.0.element_count() + self.1.element_count() + self.2.element_count() + self.3.element_count()) as int, (self.0.element_count() + self.1.element_count() + self.2.element_count() + self.3.element_count() + self.4.element_count()) as int))) by {
                lemma_sub_stable(fin, f4, b5.len() as int, sl + (self.0.element_count() + self.1.element_count() + self.2.element_count() + self.3.element_count()) as int, sl + (self.0.element_count() + self.1.element_count() + self.2.element_count() + self.3.element_count() + self.4.element_count()) as int);
                assert(f4.skip(b4.len() as int) =~= f4.subrange(sl + (self.0.element_count() + self.1.element_count() + self.2.element_count() + self.3.element_count()) as int, sl + (self.0.element_count() + self.1.element_count() + self.2.element_count() + self.3.element_count() + self.4.element_count()) as int));
                assert(fin.skip(sl).subrange((self.0.element_count() + self.1.element_count() + self.2.element_count() + self.3.element_count()) as int, (self.0.element_count() + self.1.element_count() + self.2.element_count() + self.3.element_count() + self.4.element_count()) as int) =~= fin.subrange(sl + (self.0.element_count() + self.1.element_count() + self.2.element_count() + self.3.element_count()) as int, sl + (self.0.element_count() + self.1.element_count() + self.2.element_count() + self.3.element_count() + self.4.element_count()) as int));
            }
            assert(self.5.seq_builds(fin.skip(sl).subrange((self.0.element_count() + self.1.element_count() + self.2.element_count() + self.3.element_count() + self.4.element_count()) as int, (self.0.element_count() + self.1.element_count() + self.2.element_count() + self.3.element_count() + self.4.element_count() + self.5.element_count()) as int))) by {
                lemma_sub_stable(fin, f5, b6.len() as int, sl + (self.0.element_count() + self.1.element_count() + self.2.element_count() + self.3.element_count() + self.4.element_count()) as int, sl + (self.0.element_count() + self.1.element_count() + self.2.element_count() + self.3.element_count() + self.4.element_count() + self.5.element_count()) as int);
                assert(f5.skip(b5.len() as int) =~= f5.subrange(sl + (self.0.element_count() + self.1.element_count() + self.2.element_count() + self.3.element_count() + self.4.element_count()) as int, sl + (self.0.element_count() + self.1.element_count() + self.2.element_count() + self.3.element_count() + self.4.element_count() + self.5.element_count()) as int));
                assert(fin.skip(sl).subrange((self.0.element_count() + self.1.element_count() + self.2.element_count() + self.3.element_count() + self.4.element_count()) as int, (self.0.element_count() + self.1.element_count() + self.2.element_count() + self.3.element_count() + self.4.element_count() + self.5.element_count()) as int) =~= fin.subrange(sl + (self.0.element_count() + self.1.element_count() + self.2.element_count() + self.3.element_count() + self.4.element_count()) as int, sl + (self.0.element_count() + self.1.element_count() + self.2.element_count() + self.3.element_count() + self.4.element_count() + self.5.element_count()) as int));
            }
            assert(self.6.seq_builds(fin.skip(sl).subrange((self.0.element_count() + self.1.element_count() + self.2.element_count() + self.3.element_count() + self.4.element_count() + self.5.element_count()) as int, (self.0.element_count() + self.1.element_count() + self.2.element_count() + self.3.element_count() + self.4.element_count() + self.5.element_count() + self.6.element_count()) as int))) by {
                lemma_sub_stable(fin, f6, b7.len() as int, sl + (self.0.element_count() + self.1.element_count() + self.2.element_count() + self.3.element_count() + self.4.element_count() + self.5.element_count()) as int, sl + (self.0.element_count() + self.1.element_count() + self.2.element_count() + self.3.element_count() + self.4.element_count() + self.5.element_count() + self.6.element_count()) as int);
                assert(f6.skip(b6.len() as int) =~= f6.subrange(sl + (self.0.element_count() + self.1.element_count() + self.2.element_count() + self.3.element_count() + self.4.element_count() + self.5.element_count()) as int, sl + (self.0.element_count() + self.1.element_count() + self.2.element_count() + self.3.element_count() + self.4.element_count() + self.5.element_count() + self.6.element_count()) as int));
                assert(fin.skip(sl).subrange((self.0.element_count() + self.1.element_count() + self.2.element_count() + self.3.element_count() + self.4.element_count() + self.5.element_count()) as int, (self.0.element_count() + self.1.element_count() + self.2.element_count() + self.3.element_count() + self.4.element_count() + self.5.element_count() + self.6.element_count()) as int) =~= fin.subrange(sl + (self.0.element_count() + self.1.element_count() + self.2.element_count() + self.3.element_count() + self.4.element_count() + self.5.element_count()) as int, sl + (self.0.element_count() + self.1.element_count() + self.2.element_count() + self.3.element_count() + self.4.element_count() + self.5.element_count() + self.6.element_count()) as int));
            }
            assert(self.7.seq_builds(fin.skip(sl).subrange((self.0.element_count() + self.1.element_count() + self.2.element_count() + self.3.element_count() + self.4.element_count() + self.5.element_count() + self.6.element_count()) as int, (self.0.element_count() + self.1.element_count() + self.2.element_count() + self.3.element_count() + self.4.element_count() + self.5.element_count() + self.6.element_count() + self.7.element_count()) as int))) by {
                lemma_sub_stable(fin, f7, b8.len() as int, sl + (self.0.element_count() + self.1.element_count() + self.2.element_count() + self.3.element_count() + self.4.element_count() + self.5.element_count() + self.6.element_count()) as int, sl + (self.0.element_count() + self.1.element_count() + self.2.element_count() + self.3.element_count() + self.4.element_count() + self.5.element_count() + self.6.element_count() + self.7.element_count()) as int);
                assert(f7.skip(b7.len() as int) =~= f7.subrange(sl + (self.0.element_count() + self.1.element_count() + self.2.element_count() + self.3.element_count() + self.4.element_count() + self.5.element_count() + self.6.element_count()) as int, sl + (self.0.element_count() + self.1.element_count() + self.2.element_count() + self.3.element_count() + self.4.element_count() + self.5.element_count() + self.6.element_count() + self.7.element_count()) as int));
                assert(fin.skip(sl).subrange((self.0.element_count() + self.1.element_count() + self.2.element_count() + self.3.element_count() + self.4.element_count() + self.5.element_count() + self.6.element_count()) as int, (self.0.element_count() + self.1.element_count() + self.2.element_count() + self.3.element_count() + self.4.element_count() + self.5.element_count() + self.6.element_count() + self.7.element_count()) as int) =~= fin.subrange(sl + (self.0.element_count() + self.1.element_count() + self.2.element_count() + self.3.element_count() + self.4.element_count() + self.5.element_count() + self.6.element_count()) as int, sl + (self.0.element_count() + self.1.element_count() + self.2.element_count() + self.3.element_count() + self.4.element_count() + self.5.element_count() + self.6.element_count() + self.7.element_count()) as int));
            }
            assert(self.8.seq_builds(fin.skip(sl).subrange((self.0.element_count() + self.1.element_count() + self.2.element_count() + self.3.element_count() + self.4.element_count() + self.5.element_count() + self.6.element_count() + self.7.element_count()) as int, (self.0.element_count() + self.1.element_count() + self.2.element_count() + self.3.element_count() + self.4.element_count() + self.5.element_count() + self.6.element_count() + self.7.element_count() + self.8.element_count()) as int))) by {
                lemma_sub_stable(fin, f8, b9.len() as int, sl + (self.0.element_count() + self.1.element_count() + self.2.element_count() + self.3.element_count() + self.4.element_count() + self.5.element_count() + self.6.element_count() + self.7.element_count()) as int, sl + (self.0.element_count() + self.1.element_count() + self.2.element_count() + self.3.element_count() + self.4.element_count() + self.5.element_count() + self.6.element_count() + self.7.element_count() + self.8.element_count()) as int);
                assert(f8.skip(b8.len() as int) =~= f8.subrange(sl + (self.0.element_count() + self.1.element_count() + self.2.element_count() + self.3.element_count() + self.4.element_count() + self.5.element_count() + self.6.element_count() + self.7.element_count()) as int, sl + (self.0.element_count() + self.1.element_count() + self.2.element_count() + self.3.element_count() + self.4.element_count() + self.5.element_count() + self.6.element_count() + self.7.element_count() + self.8.element_count()) as int));
                assert(fin.skip(sl).subrange((self.0.element_count() + self.1.element_count() + self.2.element_count() + self.3.element_count() + self.4.element_count() + self.5.element_count() + self.6.element_count() + self.7.element_count()) as int, (self.0.element_count() + self.1.element_count() + self.2.element_count() + self.3.element_count() + self.4.element_count() + self.5.element_count() + self.6.element_count() + self.7.element_count() + self.8.element_count()) as int) =~= fin.subrange(sl + (self.0.element_count() + self.1.element_count() + self.2.element_count() + self.3.element_count() + self.4.element_count() + self.5.element_count() + self.6.element_count() + self.7.element_count()) as int, sl + (self.0.element_count() + self.1.element_count() + self.2.element_count() + self.3.element_count() + self.4.element_count() + self.5.element_count() + self.6.element_count() + self.7.element_count() + self.8.element_count()) as int));
            }
            assert(self.9.seq_builds(fin.skip(sl).subrange((self.0.element_count() + self.1.element_count() + self.2.element_count() + self.3.element_count() + self.4.element_count() + self.5.element_count() + self.6.element_count() + self.7.element_count() + self.8.element_count()) as int, (self.0.element_count() + self.1.element_count() + self.2.element_count() + self.3.element_count() + self.4.element_count() + self.5.element_count() + self.6.element_count() + self.7.element_count() + self.8.element_count() + self.9.element_count()) as int))) by {
                lemma_sub_stable(fin, f9, b10.len() as int, sl + (self.0.element_count() + self.1.element_count() + self.2.element_count() + self.3.element_count() + self.4.element_count() + self.5.element_count() + self.6.element_count() + self.7.element_count() + self.8.element_count()) as int, sl + (self.0.element_count() + self.1.element_count() + self.2.element_count() + self.3.element_count() + self.4.element_count() + self.5.element_count() + self.6.element_count() + self.7.element_count() + self.8.element_count() + self.9.element_count()) as int);
                assert(f9.skip(b9.len() as int) =~= f9.subrange(sl + (self.0.element_count() + self.1.element_count() + self.2.element_count() + self.3.element_count() + self.4.element_count() + self.5.element_count() + self.6.element_count() + self.7.element_count() + self.8.element_count()) as int, sl + (self.0.element_count() + self.1.element_count() + self.2.element_count() + self.3.element_count() + self.4.element_count() + self.5.element_count() + self.6.element_count() + self.7.element_count() + self.8.element_count() + self.9.element_count()) as int));
                assert(fin.skip(sl).subrange((self.0.element_count() + self.1.element_count() + self.2.element_count() + self.3.element_count() + self.4.element_count() + self.5.element_count() + self.6.element_count() + self.7.element_count() + self.8.element_count()) as int, (self.0.element_count() + self.1.element_count() + self.2.element_count() + self.3.element_count() + self.4.element_count() + self.5.element_count() + self.6.element_count() + self.7.element_count() + self.8.element_count() + self.9.element_count()) as int) =~= fin.subrange(sl + (self.0.element_count() + self.1.element_count() + self.2.element_count() + self.3.element_count() + self.4.element_count() + self.5.element_count() + self.6.element_count() + self.7.element_count() + self.8.element_count()) as int, sl + (self.0.element_count() + self.1.element_count() + self.2.element_count() + self.3.element_count() + self.4.element_count() + self.5.element_count() + self.6.element_count() + self.7.element_count() + self.8.element_count() + self.9.element_count()) as int));
            }
            assert(self.10.seq_builds(fin.skip(sl).subrange((self.0.element_count() + self.1.element_count() + self.2.element_count() + self.3.element_count() + self.4.element_count() + self.5.element_count() + self.6.element_count() + self.7.element_count() + self.8.element_count() + self.9.element_count()) as int, (self.0.element_count() + self.1.element_count() + self.2.element_count() + self.3.element_count() + self.4.element_count() + self.5.element_count() + self.6.element_count() + self.7.element_count() + self.8.element_count() + self.9.element_count() + self.10.element_count()) as int))) by {
                lemma_sub_stable(fin, f10, b11.len() as int, sl + (self.0.element_count() + self.1.element_count() + self.2.element_count() + self.3.element_count() + self.4.element_count() + self.5.element_count() + self.6.element_count() + self.7.element_count() + self.8.element_count() + self.9.element_count()) as int, sl + (self.0.element_count() + self.1.element_count() + self.2.element_count() + self.3.element_count() + self.4.element_count() + self.5.element_count() + self.6.element_count() + self.7.element_count() + self.8.element_count() + self.9.element_count() + self.10.element_count()) as int);
                assert(f10.skip(b10.len() as int) =~= f10.subrange(sl + (self.0.element_count() + self.1.element_count() + self.2.element_count() + self.3.element_count() + self.4.element_count() + self.5.element_count() + self.6.element_count() + self.7.element_count() + self.8.element_count() + self.9.element_count()) as int, sl + (self.0.element_count() + self.1.element_count() + self.2.element_count() + self.3.element_count() + self.4.element_count() + self.5.element_count() + self.6.element_count() + self.7.element_count() + self.8.element_count() + self.9.element_count() + self.10.element_count()) as int));
                assert(fin.skip(sl).subrange((self.0.element_count() + self.1.element_count() + self.2.element_count() + self.3.element_count() + self.4.element_count() + self.5.element_count() + self.6.element_count() + self.7.element_count() + self.8.element_count() + self.9.element_count()) as int, (self.0.element_count() + self.1.element_count() + self.2.element_count() + self.3.element_count() + self.4.element_count() + self.5.element_count() + self.6.element_count() + self.7.element_count() + self.8.element_count() + self.9.element_count() + self.10.element_count()) as int) =~= fin.subrange(sl + (self.0.element_count() + self.1.element_count() + self.2.element_count() + self.3.element_count() + self.4.element_count() + self.5.element_count() + self.6.element_count() + self.7.element_count() + self.8.element_count() + self.9.element_count()) as int, sl + (self.0.element_count() + self.1.element_count() + self.2.element_count() + self.3.element_count() + self.4.element_count() + self.5.element_count() + self.6.element_count() + self.7.element_count() + self.8.element_count() + self.9.element_count() + self.10.element_count()) as int));
            }
            assert(self.11.seq_builds(fin.skip(sl).subrange((self.0.element_count() + self.1.element_count() + self.2.element_count() + self.3.element_count() + self.4.element_count() + self.5.element_count() + self.6.element_count() + self.7.element_count() + self.8.element_count() + self.9.element_count() + self.10.element_count()) as int, (self.0.element_count() + self.1.element_count() + self.2.element_count() + self.3.element_count() + self.4.element_count() + self.5.element_count() + self.6.element_count() + self.7.element_count() + self.8.element_count() + self.9.element_count() + self.10.element_count() + self.11.element_count()) as int))) by {
                lemma_sub_stable(fin, f11, b12.len() as int, sl + (self.0.element_count() + self.1.element_count() + self.2.element_count() + self.3.element_count() + self.4.element_count() + self.5.element_count() + self.6.element_count() + self.7.element_count() + self.8.element_count() + self.9.element_count() + self.10.element_count()) as int, sl + (self.0.element_count() + self.1.element_count() + self.2.element_count() + self.3.element_count() + self.4.element_count() + self.5.element_count() + self.6.element_count() + self.7.element_count() + self.8.element_count() + self.9.element_count() + self.10.element_count() + self.11.element_count()) as int);
                assert(f11.skip(b11.len() as int) =~= f11.subrange(sl + (self.0.element_count() + self.1.element_count() + self.2.element_count() + self.3.element_count() + self.4.element_count() + self.5.element_count() + self.6.element_count() + self.7.element_count() + self.8.element_count() + self.9.element_count() + self.10.element_count()) as int, sl + (self.0.element_count() + self.1.element_count() + self.2.element_count() + self.3.element_count() + self.4.element_count() + self.5.element_count() + self.6.element_count() + self.7.element_count() + self.8.element_count() + self.9.element_count() + self.10.element_count() + self.11.element_count()) as int));
                assert(fin.skip(sl).subrange((self.0.element_count() + self.1.element_count() + self.2.element_count() + self.3.element_count() + self.4.element_count() + self.5.element_count() + self.6.element_count() + self.7.element_count() + self.8.element_count() + self.9.element_count() + self.10.element_count()) as int, (self.0.element_count() + self.1.element_count() + self.2.element_count() + self.3.element_count() + self.4.element_count() + self.5.element_count() + self.6.element_count() + self.7.element_count() + self.8.element_count() + self.9.element_count() + self.10.element_count() + self.11.element_count()) as int) =~= fin.subrange(sl + (self.0.element_count() + self.1.element_count() + self.2.element_count() + self.3.element_count() + self.4.element_count() + self.5.element_count() + self.6.element_count() + self.7.element_count() + self.8.element_count() + self.9.element_count() + self.10.element_count()) as int, sl + (self.0.element_count() + self.1.element_count() + self.2.element_count() + self.3.element_count() + self.4.element_count() + self.5.element_count() + self.6.element_count() + self.7.element_count() + self.8.element_count() + self.9.element_count() + self.10.element_count() + self.11.element_count()) as int));
            }
            assert(self.12.seq_builds(fin.skip(sl).subrange((self.0.element_count() + self.1.element_count() + self.2.element_count() + self.3.element_count() + self.4.element_count() + self.5.element_count() + self.6.element_count() + self.7.element_count() + self.8.element_count() + self.9.element_count() + self.10.element_count() + self.11.element_count()) as int, (self.0.element_count() + self.1.element_count() + self.2.element_count() + self.3.element_count() + self.4.element_count() + self.5.element_count() + self.6.element_count() + self.7.element_count() + self.8.element_count() + self.9.element_count() + self.10.element_count() + self.11.element_count() + self.12.element_count()) as int))) by {
                lemma_sub_stable(fin, f12, b13.len() as int, sl + (self.0.element_count() + self.1.element_count() + self.2.element_count() + self.3.element_count() + self.4.element_count() + self.5.element_count() + self.6.element_count() + self.7.element_count() + self.8.element_count() + self.9.element_count() + self.10.element_count() + self.11.element_count()) as int, sl + (self.0.element_count() + self.1.element_count() + self.2.element_count() + self.3.element_count() + self.4.element_count() + self.5.element_count() + self.6.element_count() + self.7.element_count() + self.8.element_count() + self.9.element_count() + self.10.element_count() + self.11.element_count() + self.12.element_count()) as int);
                assert(f12.skip(b12.len() as int) =~= f12.subrange(sl + (self.0.element_count() + self.1.element_count() + self.2.element_count() + self.3.element_count() + self.4.element_count() + self.5.element_count() + self.6.element_count() + self.7.element_count() + self.8.element_count() + self.9.element_count() + self.10.element_count() + self.11.element_count()) as int, sl + (self.0.element_count() + self.1.element_count() + self.2.element_count() + self.3.element_count() + self.4.element_count() + self.5.element_count() + self.6.element_count() + self.7.element_count() + self.8.element_count() + self.9.element_count() + self.10.element_count() + self.11.element_count() + self.12.element_count()) as int));
                assert(fin.skip(sl).subrange((self.0.element_count() + self.1.element_count() + self.2.element_count() + self.3.element_count() + self.4.element_count() + self.5.element_count() + self.6.element_count() + self.7.element_count() + self.8.element_count() + self.9.element_count() + self.10.element_count() + self.11.element_count()) as int, (self.0.element_count() + self.1.element_count() + self.2.element_count() + self.3.element_count() + self.4.element_count() + self.5.element_count() + self.6.element_count() + self.7.element_count() + self.8.element_count() + self.9.element_count() + self.10.element_count() + self.11.element_count() + self.12.element_count()) as int) =~= fin.subrange(sl + (self.0.element_count() + self.1.element_count() + self.2.element_count() + self.3.element_count() + self.4.element_count() + self.5.element_count() + self.6.element_count() + self.7.element_count() + self.8.element_count() + self.9.element_count() + self.10.element_count() + self.11.element_count()) as int, sl + (self.0.element_count() + self.1.element_count() + self.2.element_count() + self.3.element_count() + self.4.element_count() + self.5.element_count() + self.6.element_count() + self.7.element_count() + self.8.element_count() + self.9.element_count() + self.10.element_count() + self.11.element_count() + self.12.element_count()) as int));
            }
            assert(self.13.seq_builds(fin.skip(sl).subrange((self.0.element_count() + self.1.element_count() + self.2.element_count() + self.3.element_count() + self.4.element_count() + self.5.element_count() + self.6.element_count() + self.7.element_count() + self.8.element_count() + self.9.element_count() + self.10.element_count() + self.11.element_count() + self.12.element_count()) as int, (self.0.element_count() + self.1.element_count() + self.2.element_count() + self.3.element_count() + self.4.element_count() + self.5.element_count() + self.6.element_count() + self.7.element_count() + self.8.element_count() + self.9.element_count() + self.10.element_count() + self.11.element_count() + self.12.element_count() + self.13.element_count()) as int))) by {
                assert(f13.skip(b13.len() as int) =~= f13.subrange(sl + (self.0.element_count() + self.1.element_count() + self.2.element_count() + self.3.element_count() + self.4.element_count() + self.5.element_count() + self.6.element_count() + self.7.element_count() + self.8.element_count() + self.9.element_count() + self.10.element_count() + self.11.element_count() + self.12.element_count()) as int, sl + (self.0.element_count() + self.1.element_count() + self.2.element_count() + self.3.element_count() + self.4.element_count() + self.5.element_count() + self.6.element_count() + self.7.element_count() + self.8.element_count() + self.9.element_count() + self.10.element_count() + self.11.element_count() + self.12.element_count() + self.13.element_count()) as int));
                assert(fin.skip(sl).subrange((self.0.element_count() + self.1.element_count() + self.2.element_count() + self.3.element_count() + self.4.element_count() + self.5.element_count() + self.6.element_count() + self.7.element_count() + self.8.element_count() + self.9.element_count() + self.10.element_count() + self.11.element_count() + self.12.element_count()) as int, (self.0.element_count() + self.1.element_count() + self.2.element_count() + self.3.element_count() + self.4.element_count() + self.5.element_count() + self.6.element_count() + self.7.element_count() + self.8.element_count() + self.9.element_count() + self.10.element_count() + self.11.element_count() + self.12.element_count() + self.13.element_count()) as int) =~= fin.subrange(sl + (self.0.element_count() + self.1.element_count() + self.2.element_count() + self.3.element_count() + self.4.element_count() + self.5.element_count() + self.6.element_count() + self.7.element_count() + self.8.element_count() + self.9.element_count() + self.10.element_count() + self.11.element_count() + self.12.element_count()) as int, sl + (self.0.element_count() + self.1.element_count() + self.2.element_count() + self.3.element_count() + self.4.element_count() + self.5.element_count() + self.6.element_count() + self.7.element_count() + self.8.element_count() + self.9.element_count() + self.10.element_count() + self.11.element_count() + self.12.element_count() + self.13.element_count()) as int));
            }
        }
    }

    #[verifier::spinoff_prover]
    #[verifier::rlimit(100)]
    fn seq_rebuild<Splice: ElementSplice<Element>>(&self, prev: &Self, elements: &mut Splice) {
        let ghost a = elements.items();
        let ghost c0 = elements.cursor();
        proof {
            lemma_kept_refl(a, c0);
        }
        let ghost b0 = elements.items();
        let ghost cb0 = elements.cursor();
        proof {
            assert(b0.skip(cb0 as int).len() == a.skip((c0 + 0) as int).len());
        }
        self.0.seq_rebuild(&prev.0, elements);
        let ghost f0 = elements.items();
        proof {
            assert(self.0.seq_rebuilds(
                &prev.0,
                a.subrange(c0 + 0int, c0 + (prev.0.element_count()) as int),
                f0.subrange(cb0 as int, (cb0 + self.0.element_count()) as int),
            )) by {
                lemma_sub_shift(a, b0, (c0 + 0) as int, cb0 as int, prev.0.element_count() as int);
            }
            lemma_kept_compose(a, c0, 0, b0, cb0, prev.0.element_count(), elements.items(), elements.cursor());
        }
        let ghost b1 = elements.items();
        let ghost cb1 = elements.cursor();
        proof {
            assert(b1.skip(cb1 as int).len() == a.skip((c0 + (prev.0.element_count())) as int).len());
        }
        self.1.seq_rebuild(&prev.1, elements);
        let ghost f1 = elements.items();
        proof {
            assert(self.1.seq_rebuilds(
                &prev.1,
                a.subrange(c0 + (prev.0.element_count()) as int, c0 + (prev.0.element_count() + prev.1.element_count()) as int),
                f1.subrange(cb1 as int, (cb1 + self.1.element_count()) as int),
            )) by {
                lemma_sub_shift(a, b1, (c0 + (prev.0.element_count())) as int, cb1 as int, prev.1.element_count() as int);
            }
            lemma_kept_compose(a, c0, (prev.0.element_count()), b1, cb1, prev.1.element_count(), elements.items(), elements.cursor());
        }
        let ghost b2 = elements.items();
        let ghost cb2 = elements.cursor();
        proof {
            assert(b2.skip(cb2 as int).len() == a.skip((c0 + (prev.0.element_count() + prev.1.element_count())) as int).len());
        }
        self.2.seq_rebuild(&prev.2, elements);
        let ghost f2 = elements.items();
        proof {
            assert(self.2.seq_rebuilds(
                &prev.2,
                a.subrange(c0 + (prev.0.element_count() + prev.1.element_count()) as int, c0 + (prev.0.element_count() + prev.1.element_count() + prev.2.element_count()) as int),
                f2.subrange(cb2 as int, (cb2 + self.2.element_count()) as int),
            )) by {
                lemma_sub_shift(a, b2, (c0 + (prev.0.element_count() + prev.1.element_count())) as int, cb2 as int, prev.2.element_count() as int);
            }
            lemma_kept_compose(a, c0, (prev.0.element_count() + prev.1.element_count()), b2, cb2, prev.2.element_count(), elements.items(), elements.cursor());
        }
        let ghost b3 = elements.items();
        let ghost cb3 = elements.cursor();
        proof {
            assert(b3.skip(cb3 as int).len() == a.skip((c0 + (prev.0.element_count() + prev.1.element_count() + prev.2.element_count())) as int).len());
        }
        self.3.seq_rebuild(&prev.3, elements);
        let ghost f3 = elements.items();
        proof {
            assert(self.3.seq_rebuilds(
                &prev.3,
                a.subrange(c0 + (prev.0.element_count() + prev.1.element_count() + prev.2.element_count()) as int, c0 + (prev.0.element_count() + prev.1.element_count() + prev.2.element_count() + prev.3.element_count()) as int),
                f3.subrange(cb3 as int, (cb3 + self.3.element_count()) as int),
            )) by {
                lemma_sub_shift(a, b3, (c0 + (prev.0.element_count() + prev.1.element_count() + prev.2.element_count())) as int, cb3 as int, prev.3.element_count() as int);
            }
            lemma_kept_compose(a, c0, (prev.0.element_count() + prev.1.element_count() + prev.2.element_count()), b3, cb3, prev.3.element_count(), elements.items(), elements.cursor());
        }
        let ghost b4 = elements.items();
        let ghost cb4 = elements.cursor();
        proof {
            assert(b4.skip(cb4 as int).len() == a.skip((c0 + (prev.0.element_count() + prev.1.element_count() + prev.2.element_count() + prev.3.element_count())) as int).len());
        }
        self.4.seq_rebuild(&prev.4, elements);
        let ghost f4 = elements.items();
        proof {
            assert(self.4.seq_rebuilds(
                &prev.4,
                a.subrange(c0 + (prev.0.element_count() + prev.1.element_count() + prev.2.element_count() + prev.3.element_count()) as int, c0 + (prev.0.element_count() + prev.1.element_count() + prev.2.element_count() + prev.3.element_count() + prev.4.element_count()) as int),
                f4.subrange(cb4 as int, (cb4 + self.4.element_count()) as int),
            )) by {
                lemma_sub_shift(a, b4, (c0 + (prev.0.element_count() + prev.1.element_count() + prev.2.element_count() + prev.3.element_count())) as int, cb4 as int, prev.4.element_count() as int);
            }
            lemma_kept_compose(a, c0, (prev.0.element_count() + prev.1.element_count() + prev.2.element_count() + prev.3.element_count()), b4, cb4, prev.4.element_count(), elements.items(), elements.cursor());
        }
        let ghost b5 = elements.items();
        let ghost cb5 = elements.cursor();
        proof {
            assert(b5.skip(cb5 as int).len() == a.skip((c0 + (prev.0.element_count() + prev.1.element_count() + prev.2.element_count() + prev.3.element_count() + prev.4.element_count())) as int).len());
        }
        self.5.seq_rebuild(&prev.5, elements);
        let ghost f5 = elements.items();
        proof {
            assert(self.5.seq_rebuilds(
                &prev.5,
                a.subrange(c0 + (prev.0.element_count() + prev.1.element_count() + prev.2.element_count() + prev.3.element_count() + prev.4.element_count()) as int, c0 + (prev.0.element_count() + prev.1.element_count() + prev.2.element_count() + prev.3.element_count() + prev.4.element_count() + prev.5.element_count()) as int),
                f5.subrange(cb5 as int, (cb5 + self.5.element_count()) as int),
            )) by {
                lemma_sub_shift(a, b5, (c0 + (prev.0.element_count() + prev.1.element_count() + prev.2.element_count() + prev.3.element_count() + prev.4.element_count())) as int, cb5 as int, prev.5.element_count() as int);
            }
            lemma_kept_compose(a, c0, (prev.0.element_count() + prev.1.element_count() + prev.2.element_count() + prev.3.element_count() + prev.4.element_count()), b5, cb5, prev.5.element_count(), elements.items(), elements.cursor());
        }
        let ghost b6 = elements.items();
        let ghost cb6 = elements.cursor();
        proof {
            assert(b6.skip(cb6 as int).len() == a.skip((c0 + (prev.0.element_count() + prev.1.element_count() + prev.2.element_count() + prev.3.element_count() + prev.4.element_count() + prev.5.element_count())) as int).len());
        }
        self.6.seq_rebuild(&prev.6, elements);
        let ghost f6 = elements.items();
        proof {
            assert(self.6.seq_rebuilds(
                &prev.6,
                a.subrange(c0 + (prev.0.element_count() + prev.1.element_count() + prev.2.element_count() + prev.3.element_count() + prev.4.element_count() + prev.5.element_count()) as int, c0 + (prev.0.element_count() + prev.1.element_count() + prev.2.element_count() + prev.3.element_count() + prev.4.element_count() + prev.5.element_count() + prev.6.element_count()) as int),
                f6.subrange(cb6 as int, (cb6 + self.6.element_count()) as int),
            )) by {
                lemma_sub_shift(a, b6, (c0 + (prev.0.element_count() + prev.1.element_count() + prev.2.element_count() + prev.3.element_count() + prev.4.element_count() + prev.5.element_count())) as int, cb6 as int, prev.6.element_count() as int);
            }
            lemma_kept_compose(a, c0, (prev.0.element_count() + prev.1.element_count() + prev.2.element_count() + prev.3.element_count() + prev.4.element_count() + prev.5.element_count()), b6, cb6, prev.6.element_count(), elements.items(), elements.cursor());
        }
        let ghost b7 = elements.items();
        let ghost cb7 = elements.cursor();
        proof {
            assert(b7.skip(cb7 as int).len() == a.skip((c0 + (prev.0.element_count() + prev.1.element_count() + prev.2.element_count() + prev.3.element_count() + prev.4.element_count() + prev.5.element_count() + prev.6.element_count())) as int).len());
        }
        self.7.seq_rebuild(&prev.7, elements);
        let ghost f7 = elements.items();
        proof {
            assert(self.7.seq_rebuilds(
                &prev.7,
                a.subrange(c0 + (prev.0.element_count() + prev.1.element_count() + prev.2.element_count() + prev.3.element_count() + prev.4.element_count() + prev.5.element_count() + prev.6.element_count()) as int, c0 + (prev.0.element_count() + prev.1.element_count() + prev.2.element_count() + prev.3.element_count() + prev.4.element_count() + prev.5.element_count() + prev.6.element_count() + prev.7.element_count()) as int),
                f7.subrange(cb7 as int, (cb7 + self.7.element_count()) as int),
            )) by {
                lemma_sub_shift(a, b7, (c0 + (prev.0.element_count() + prev.1.element_count() + prev.2.element_count() + prev.3.element_count() + prev.4.element_count() + prev.5.element_count() + prev.6.element_count())) as int, cb7 as int, prev.7.element_count() as int);
            }
            lemma_kept_compose(a, c0, (prev.0.element_count() + prev.1.element_count() + prev.2.element_count() + prev.3.element_count() + prev.4.element_count() + prev.5.element_count() + prev.6.element_count()), b7, cb7, prev.7.element_count(), elements.items(), elements.cursor());
        }
        let ghost b8 = elements.items();
        let ghost cb8 = elements.cursor();
        proof {
            assert(b8.skip(cb8 as int).len() == a.skip((c0 + (prev.0.element_count() + prev.1.element_count() + prev.2.element_count() + prev.3.element_count() + prev.4.element_count() + prev.5.element_count() + prev.6.element_count() + prev.7.element_count())) as int).len());
        }
        self.8.seq_rebuild(&prev.8, elements);
        let ghost f8 = elements.items();
        proof {
            assert(self.8.seq_rebuilds(
                &prev.8,
                a.subrange(c0 + (prev.0.element_count() + prev.1.element_count() + prev.2.element_count() + prev.3.element_count() + prev.4.element_count() + prev.5.element_count() + prev.6.element_count() + prev.7.element_count()) as int, c0 + (prev.0.element_count() + prev.1.element_count() + prev.2.element_count() + prev.3.element_count() + prev.4.element_count() + prev.5.element_count() + prev.6.element_count() + prev.7.element_count() + prev.8.element_count()) as int),
                f8.subrange(cb8 as int, (cb8 + self.8.element_count()) as int),
            )) by {
                lemma_sub_shift(a, b8, (c0 + (prev.0.element_count() + prev.1.element_count() + prev.2.element_count() + prev.3.element_count() + prev.4.element_count() + prev.5.element_count() + prev.6.element_count() + prev.7.element_count())) as int, cb8 as int, prev.8.element_count() as int);
            }
            lemma_kept_compose(a, c0, (prev.0.element_count() + prev.1.element_count() + prev.2.element_count() + prev.3.element_count() + prev.4.element_count() + prev.5.element_count() + prev.6.element_count() + prev.7.element_count()), b8, cb8, prev.8.element_count(), elements.items(), elements.cursor());
        }
        let ghost b9 = elements.items();
        let ghost cb9 = elements.cursor();
        proof {
            assert(b9.skip(cb9 as int).len() == a.skip((c0 + (prev.0.element_count() + prev.1.element_count() + prev.2.element_count() + prev.3.element_count() + prev.4.element_count() + prev.5.element_count() + prev.6.element_count() + prev.7.element_count() + prev.8.element_count())) as int).len());
        }
        self.9.seq_rebuild(&prev.9, elements);
        let ghost f9 = elements.items();
        proof {
            assert(self.9.seq_rebuilds(
                &prev.9,
                a.subrange(c0 + (prev.0.element_count() + prev.1.element_count() + prev.2.element_count() + prev.3.element_count() + prev.4.element_count() + prev.5.element_count() + prev.6.element_count() + prev.7.element_count() + prev.8.element_count()) as int, c0 + (prev.0.element_count() + prev.1.element_count() + prev.2.element_count() + prev.3.element_count() + prev.4.element_count() + prev.5.element_count() + prev.6.element_count() + prev.7.element_count() + prev.8.element_count() + prev.9.element_count()) as int),
                f9.subrange(cb9 as int, (cb9 + self.9.element_count()) as int),
            )) by {
                lemma_sub_shift(a, b9, (c0 + (prev.0.element_count() + prev.1.element_count() + prev.2.element_count() + prev.3.element_count() + prev.4.element_count() + prev.5.element_count() + prev.6.element_count() + prev.7.element_count() + prev.8.element_count())) as int, cb9 as int, prev.9.element_count() as int);
            }
            lemma_kept_compose(a, c0, (prev.0.element_count() + prev.1.element_count() + prev.2.element_count() + prev.3.element_count() + prev.4.element_count() + prev.5.element_count() + prev.6.element_count() + prev.7.element_count() + prev.8.element_count()), b9, cb9, prev.9.element_count(), elements.items(), elements.cursor());
        }
        let ghost b10 = elements.items();
        let ghost cb10 = elements.cursor();
        proof {
            assert(b10.skip(cb10 as int).len() == a.skip((c0 + (prev.0.element_count() + prev.1.element_count() + prev.2.element_count() + prev.3.element_count() + prev.4.element_count() + prev.5.element_count() + prev.6.element_count() + prev.7.element_count() + prev.8.element_count() + prev.9.element_count())) as int).len());
        }
        self.10.seq_rebuild(&prev.10, elements);
        let ghost f10 = elements.items();
        proof {
            assert(self.10.seq_rebuilds(
                &prev.10,
                a.subrange(c0 + (prev.0.element_count() + prev.1.element_count() + prev.2.element_count() + prev.3.element_count() + prev.4.element_count() + prev.5.element_count() + prev.6.element_count() + prev.7.element_count() + prev.8.element_count() + prev.9.element_count()) as int, c0 + (prev.0.element_count() + prev.1.element_count() + prev.2.element_count() + prev.3.element_count() + prev.4.element_count() + prev.5.element_count() + prev.6.element_count() + prev.7.element_count() + prev.8.element_count() + prev.9.element_count() + prev.10.element_count()) as int),
                f10.subrange(cb10 as int, (cb10 + self.10.element_count()) as int),
            )) by {
                lemma_sub_shift(a, b10, (c0 + (prev.0.element_count() + prev.1.element_count() + prev.2.element_count() + prev.3.element_count() + prev.4.element_count() + prev.5.element_count() + prev.6.element_count() + prev.7.element_count() + prev.8.element_count() + prev.9.element_count())) as int, cb10 as int, prev.10.element_count() as int);
            }
            lemma_kept_compose(a, c0, (prev.0.element_count() + prev.1.element_count() + prev.2.element_count() + prev.3.element_count() + prev.4.element_count() + prev.5.element_count() + prev.6.element_count() + prev.7.element_count() + prev.8.element_count() + prev.9.element_count()), b10, cb10, prev.10.element_count(), elements.items(), elements.cursor());
        }
        let ghost b11 = elements.items();
        let ghost cb11 = elements.cursor();
        proof {
            assert(b11.skip(cb11 as int).len() == a.skip((c0 + (prev.0.element_count() + prev.1.element_count() + prev.2.element_count() + prev.3.element_count() + prev.4.element_count() + prev.5.element_count() + prev.6.element_count() + prev.7.element_count() + prev.8.element_count() + prev.9.element_count() + prev.10.element_count())) as int).len());
        }
        self.11.seq_rebuild(&prev.11, elements);
        let ghost f11 = elements.items();
        proof {
            assert(self.11.seq_rebuilds(
                &prev.11,
                a.subrange(c0 + (prev.0.element_count() + prev.1.element_count() + prev.2.element_count() + prev.3.element_count() + prev.4.element_count() + prev.5.element_count() + prev.6.element_count() + prev.7.element_count() + prev.8.element_count() + prev.9.element_count() + prev.10.element_count()) as int, c0 + (prev.0.element_count() + prev.1.element_count() + prev.2.element_count() + prev.3.element_count() + prev.4.element_count() + prev.5.element_count() + prev.6.element_count() + prev.7.element_count() + prev.8.element_count() + prev.9.element_count() + prev.10.element_count() + prev.11.element_count()) as int),
                f11.subrange(cb11 as int, (cb11 + self.11.element_count()) as int),
            )) by {
                lemma_sub_shift(a, b11, (c0 + (prev.0.element_count() + prev.1.element_count() + prev.2.element_count() + prev.3.element_count() + prev.4.element_count() + prev.5.element_count() + prev.6.element_count() + prev.7.element_count() + prev.8.element_count() + prev.9.element_count() + prev.10.element_count())) as int, cb11 as int, prev.11.element_count() as int);
            }
            lemma_kept_compose(a, c0, (prev.0.element_count() + prev.1.element_count() + prev.2.element_count() + prev.3.element_count() + prev.4.element_count() + prev.5.element_count() + prev.6.element_count() + prev.7.element_count() + prev.8.element_count() + prev.9.element_count() + prev.10.element_count()), b11, cb11, prev.11.element_count(), elements.items(), elements.cursor());
        }
        let ghost b12 = elements.items();
        let ghost cb12 = elements.cursor();
        proof {
            assert(b12.skip(cb12 as int).len() == a.skip((c0 + (prev.0.element_count() + prev.1.element_count() + prev.2.element_count() + prev.3.element_count() + prev.4.element_count() + prev.5.element_count() + prev.6.element_count() + prev.7.element_count() + prev.8.element_count() + prev.9.element_count() + prev.10.element_count() + prev.11.element_count())) as int).len());
        }
        self.12.seq_rebuild(&prev.12, elements);
        let ghost f12 = elements.items();
        proof {
            assert(self.12.seq_rebuilds(
                &prev.12,
                a.subrange(c0 + (prev.0.element_count() + prev.1.element_count() + prev.2.element_count() + prev.3.element_count() + prev.4.element_count() + prev.5.element_count() + prev.6.element_count() + prev.7.element_count() + prev.8.element_count() + prev.9.element_count() + prev.10.element_count() + prev.11.element_count()) as int, c0 + (prev.0.element_count() + prev.1.element_count() + prev.2.element_count() + prev.3.element_count() + prev.4.element_count() + prev.5.element_count() + prev.6.element_count() + prev.7.element_count() + prev.8.element_count() + prev.9.element_count() + prev.10.element_count() + prev.11.element_count() + prev.12.element_count()) as int),
                f12.subrange(cb12 as int, (cb12 + self.12.element_count()) as int),
            )) by {
                lemma_sub_shift(a, b12, (c0 + (prev.0.element_count() + prev.1.element_count() + prev.2.element_count() + prev.3.element_count() + prev.4.element_count() + prev.5.element_count() + prev.6.element_count() + prev.7.element_count() + prev.8.element_count() + prev.9.element_count() + prev.10.element_count() + prev.11.element_count())) as int, cb12 as int, prev.12.element_count() as int);
            }
            lemma_kept_compose(a, c0, (prev.0.element_count() + prev.1.element_count() + prev.2.element_count() + prev.3.element_count() + prev.4.element_count() + prev.5.element_count() + prev.6.element_count() + prev.7.element_count() + prev.8.element_count() + prev.9.element_count() + prev.10.element_count() + prev.11.element_count()), b12, cb12, prev.12.element_count(), elements.items(), elements.cursor());
        }
        let ghost b13 = elements.items();
        let ghost cb13 = elements.cursor();
        proof {
            assert(b13.skip(cb13 as int).len() == a.skip((c0 + (prev.0.element_count() + prev.1.element_count() + prev.2.element_count() + prev.3.element_count() + prev.4.element_count() + prev.5.element_count() + prev.6.element_count() + prev.7.element_count() + prev.8.element_count() + prev.9.element_count() + prev.10.element_count() + prev.11.element_count() + prev.12.element_count())) as int).len());
        }
        self.13.seq_rebuild(&prev.13, elements);
        let ghost f13 = elements.items();
        proof {
            assert(self.13.seq_rebuilds(
                &prev.13,
                a.subrange(c0 + (prev.0.element_count() + prev.1.element_count() + prev.2.element_count() + prev.3.element_count() + prev.4.element_count() + prev.5.element_count() + prev.6.element_count() + prev.7.element_count() + prev.8.element_count() + prev.9.element_count() + prev.10.element_count() + prev.11.element_count() + prev.12.element_count()) as int, c0 + (prev.0.element_count() + prev.1.element_count() + prev.2.element_count() + prev.3.element_count() + prev.4.element_count() + prev.5.element_count() + prev.6.element_count() + prev.7.element_count() + prev.8.element_count() + prev.9.element_count() + prev.10.element_count() + prev.11.element_count() + prev.12.element_count() + prev.13.element_count()) as int),
                f13.subrange(cb13 as int, (cb13 + self.13.element_count()) as int),
            )) by {
                lemma_sub_shift(a, b13, (c0 + (prev.0.element_count() + prev.1.element_count() + prev.2.element_count() + prev.3.element_count() + prev.4.element_count() + prev.5.element_count() + prev.6.element_count() + prev.7.element_count() + prev.8.element_count() + prev.9.element_count() + prev.10.element_count() + prev.11.element_count() + prev.12.element_count())) as int, cb13 as int, prev.13.element_count() as int);
            }
            lemma_kept_compose(a, c0, (prev.0.element_count() + prev.1.element_count() + prev.2.element_count() + prev.3.element_count() + prev.4.element_count() + prev.5.element_count() + prev.6.element_count() + prev.7.element_count() + prev.8.element_count() + prev.9.element_count() + prev.10.element_count() + prev.11.element_count() + prev.12.element_count()), b13, cb13, prev.13.element_count(), elements.items(), elements.cursor());
        }
        let ghost ce = elements.cursor();
        proof {
            let fin = elements.items();
            assert(fin.take(ce as int) =~= f13.take(ce as int));
            lemma_take_link(fin, f13, f12, cb13 as int, ce as int);
            lemma_take_link(fin, f12, f11, cb12 as int, cb13 as int);
            lemma_take_link(fin, f11, f10, cb11 as int, cb12 as int);
            lemma_take_link(fin, f10, f9, cb10 as int, cb11 as int);
            lemma_take_link(fin, f9, f8, cb9 as int, cb10 as int);
            lemma_take_link(fin, f8, f7, cb8 as int, cb9 as int);
            lemma_take_link(fin, f7, f6, cb7 as int, cb8 as int);
            lemma_take_link(fin, f6, f5, cb6 as int, cb7 as int);
            lemma_take_link(fin, f5, f4, cb5 as int, cb6 as int);
            lemma_take_link(fin, f4, f3, cb4 as int, cb5 as int);
            lemma_take_link(fin, f3, f2, cb3 as int, cb4 as int);
            lemma_take_link(fin, f2, f1, cb2 as int, cb3 as int);
            lemma_take_link(fin, f1, f0, cb1 as int, cb2 as int);
            assert(self.0.seq_rebuilds(
                &prev.0,
                region(a, c0, prev.element_count()).subrange(0int, (prev.0.element_count()) as int),
                region(fin, c0, self.element_count()).subrange(0int, (self.0.element_count()) as int),
            )) by {
                lemma_sub_stable(fin, f0, cb1 as int, cb0 as int, cb1 as int);
                assert(region(fin, c0, self.element_count()).subrange(0int, (self.0.element_count()) as int) =~= fin.subrange(cb0 as int, cb1 as int));
                assert(region(a, c0, prev.element_count()).subrange(0int, (prev.0.element_count()) as int) =~= a.subrange(c0 + 0int, c0 + (prev.0.element_count()) as int));
            }
            assert(self.1.seq_rebuilds(
                &prev.1,
                region(a, c0, prev.element_count()).subrange((prev.0.element_count()) as int, (prev.0.element_count() + prev.1.element_count()) as int),
                region(fin, c0, self.element_count()).subrange((self.0.element_count()) as int, (self.0.element_count() + self.1.element_count()) as int),
            )) by {
                lemma_sub_stable(fin, f1, cb2 as int, cb1 as int, cb2 as int);
                assert(region(fin, c0, self.element_count()).subrange((self.0.element_count()) as int, (self.0.element_count() + self.1.element_count()) as int) =~= fin.subrange(cb1 as int, cb2 as int));
                assert(region(a, c0, prev.element_count()).subrange((prev.0.element_count()) as int, (prev.0.element_count() + prev.1.element_count()) as int) =~= a.subrange(c0 + (prev.0.element_count()) as int, c0 + (prev.0.element_count() + prev.1.element_count()) as int));
            }
            assert(self.2.seq_rebuilds(
                &prev.2,
                region(a, c0, prev.element_count()).subrange((prev.0.element_count() + prev.1.element_count()) as int, (prev.0.element_count() + prev.1.element_count() + prev.2.element_count()) as int),
                region(fin, c0, self.element_count()).subrange((self.0.element_count() + self.1.element_count()) as int, (self.0.element_count() + self.1.element_count() + self.2.element_count()) as int),
            )) by {
                lemma_sub_stable(fin, f2, cb3 as int, cb2 as int, cb3 as int);
                assert(region(fin, c0, self.element_count()).subrange((self.0.element_count() + self.1.element_count()) as int, (self.0.element_count() + self.1.element_count() + self.2.element_count()) as int) =~= fin.subrange(cb2 as int, cb3 as int));
                assert(region(a, c0, prev.element_count()).subrange((prev.0.element_count() + prev.1.element_count()) as int, (prev.0.element_count() + prev.1.element_count() + prev.2.element_count()) as int) =~= a.subrange(c0 + (prev.0.element_count() + prev.1.element_count()) as int, c0 + (prev.0.element_count() + prev.1.element_count() + prev.2.element_count()) as int));
            }
            assert(self.3.seq_rebuilds(
                &prev.3,
                region(a, c0, prev.element_count()).subrange((prev.0.element_count() + prev.1.element_count() + prev.2.element_count()) as int, (prev.0.element_count() + prev.1.element_count() + prev.2.element_count() + prev.3.element_count()) as int),
                region(fin, c0, self.element_count()).subrange((self.0.element_count() + self.1.element_count() + self.2.element_count()) as int, (self.0.element_count() + self.1.element_count() + self.2.element_count() + self.3.element_count()) as int),
            )) by {
                lemma_sub_stable(fin, f3, cb4 as int, cb3 as int, cb4 as int);
                assert(region(fin, c0, self.element_count()).subrange((self.0.element_count() + self.1.element_count() + self.2.element_count()) as int, (self.0.element_count() + self.1.element_count() + self.2.element_count() + self.3.element_count()) as int) =~= fin.subrange(cb3 as int, cb4 as int));
                assert(region(a, c0, prev.element_count()).subrange((prev.0.element_count() + prev.1.element_count() + prev.2.element_count()) as int, (prev.0.element_count() + prev.1.element_count() + prev.2.element_count() + prev.3.element_count()) as int) =~= a.subrange(c0 + (prev.0.element_count() + prev.1.element_count() + prev.2.element_count()) as int, c0 + (prev.0.element_count() + prev.1.element_count() + prev.2.element_count() + prev.3.element_count()) as int));
            }
            assert(self.4.seq_rebuilds(
                &prev.4,
                region(a, c0, prev.element_count()).subrange((prev.0.element_count() + prev.1.element_count() + prev.2.element_count() + prev.3.element_count()) as int, (prev.0.element_count() + prev.1.element_count() + prev.2.element_count() + prev.3.element_count() + prev.4.element_count()) as int),
                region(fin, c0, self.element_count()).subrange((self.0.element_count() + self.1.element_count() + self.2.element_count() + self.3.element_count()) as int, (self.0.element_count() + self.1.element_count() + self.2.element_count() + self.3.element_count() + self.4.element_count()) as int),
            )) by {
                lemma_sub_stable(fin, f4, cb5 as int, cb4 as int, cb5 as int);
                assert(region(fin, c0, self.element_count()).subrange((self.0.element_count() + self.1.element_count() + self.2.element_count() + self.3.element_count()) as int, (self.0.element_count() + self.1.element_count() + self.2.element_count() + self.3.element_count() + self.4.element_count()) as int) =~= fin.subrange(cb4 as int, cb5 as int));
                assert(region(a, c0, prev.element_count()).subrange((prev.0.element_count() + prev.1.element_count() + prev.2.element_count() + prev.3.element_count()) as int, (prev.0.element_count() + prev.1.element_count() + prev.2.element_count() + prev.3.element_count() + prev.4.element_count()) as int) =~= a.subrange(c0 + (prev.0.element_count() + prev.1.element_count() + prev.2.element_count() + prev.3.element_count()) as int, c0 + (prev.0.element_count() + prev.1.element_count() + prev.2.element_count() + prev.3.element_count() + prev.4.element_count()) as int));
            }
            assert(self.5.seq_rebuilds(
                &prev.5,
                region(a, c0, prev.element_count()).subrange((prev.0.element_count() + prev.1.element_count() + prev.2.element_count() + prev.3.element_count() + prev.4.element_count()) as int, (prev.0.element_count() + prev.1.element_count() + prev.2.element_count() + prev.3.element_count() + prev.4.element_count() + prev.5.element_count()) as int),
                region(fin, c0, self.element_count()).subrange((self.0.element_count() + self.1.element_count() + self.2.element_count() + self.3.element_count() + self.4.element_count()) as int, (self.0.element_count() + self.1.element_count() + self.2.element_count() + self.3.element_count() + self.4.element_count() + self.5.element_count()) as int),
            )) by {
                lemma_sub_stable(fin, f5, cb6 as int, cb5 as int, cb6 as int);
                assert(region(fin, c0, self.element_count()).subrange((self.0.element_count() + self.1.element_count() + self.2.element_count() + self.3.element_count() + self.4.element_count()) as int, (self.0.element_count() + self.1.element_count() + self.2.element_count() + self.3.element_count() + self.4.element_count() + self.5.element_count()) as int) =~= fin.subrange(cb5 as int, cb6 as int));
                assert(region(a, c0, prev.element_count()).subrange((prev.0.element_count() + prev.1.element_count() + prev.2.element_count() + prev.3.element_count() + prev.4.element_count()) as int, (prev.0.element_count() + prev.1.element_count() + prev.2.element_count() + prev.3.element_count() + prev.4.element_count() + prev.5.element_count()) as int) =~= a.subrange(c0 + (prev.0.element_count() + prev.1.element_count() + prev.2.element_count() + prev.3.element_count() + prev.4.element_count()) as int, c0 + (prev.0.element_count() + prev.1.element_count() + prev.2.element_count() + prev.3.element_count() + prev.4.element_count() + prev.5.element_count()) as int));
            }
            assert(self.6.seq_rebuilds(
                &prev.6,
                region(a, c0, prev.element_count()).subrange((prev.0.element_count() + prev.1.element_count() + prev.2.element_count() + prev.3.element_count() + prev.4.element_count() + prev.5.element_count()) as int, (prev.0.element_count() + prev.1.element_count() + prev.2.element_count() + prev.3.element_count() + prev.4.element_count() + prev.5.element_count() + prev.6.element_count()) as int),
                region(fin, c0, self.element_count()).subrange((self.0.element_count() + self.1.element_count() + self.2.element_count() + self.3.element_count() + self.4.element_count() + self.5.element_count()) as int, (self.0.element_count() + self.1.element_count() + self.2.element_count() + self.3.element_count() + self.4.element_count() + self.5.element_count() + self.6.element_count()) as int),
            )) by {
                lemma_sub_stable(fin, f6, cb7 as int, cb6 as int, cb7 as int);
                assert(region(fin, c0, self.element_count()).subrange((self.0.element_count() + self.1.element_count() + self.2.element_count() + self.3.element_count() + self.4.element_count() + self.5.element_count()) as int, (self.0.element_count() + self.1.element_count() + self.2.element_count() + self.3.element_count() + self.4.element_count() + self.5.element_count() + self.6.element_count()) as int) =~= fin.subrange(cb6 as int, cb7 as int));
                assert(region(a, c0, prev.element_count()).subrange((prev.0.element_count() + prev.1.element_count() + prev.2.element_count() + prev.3.element_count() + prev.4.element_count() + prev.5.element_count()) as int, (prev.0.element_count() + prev.1.element_count() + prev.2.element_count() + prev.3.element_count() + prev.4.element_count() + prev.5.element_count() + prev.6.element_count()) as int) =~= a.subrange(c0 + (prev.0.element_count() + prev.1.element_count() + prev.2.element_count() + prev.3.element_count() + prev.4.element_count() + prev.5.element_count()) as int, c0 + (prev.0.element_count() + prev.1.element_count() + prev.2.element_count() + prev.3.element_count() + prev.4.element_count() + prev.5.element_count() + prev.6.element_count()) as int));
            }
            assert(self.7.seq_rebuilds(
                &prev.7,
                region(a, c0, prev.element_count()).subrange((prev.0.element_count() + prev.1.element_count() + prev.2.element_count() + prev.3.element_count() + prev.4.element_count() + prev.5.element_count() + prev.6.element_count()) as int, (prev.0.element_count() + prev.1.element_count() + prev.2.element_count() + prev.3.element_count() + prev.4.element_count() + prev.5.element_count() + prev.6.element_count() + prev.7.element_count()) as int),
                region(fin, c0, self.element_count()).subrange((self.0.element_count() + self.1.element_count() + self.2.element_count() + self.3.element_count() + self.4.element_count() + self.5.element_count() + self.6.element_count()) as int, (self.0.element_count() + self.1.element_count() + self.2.element_count() + self.3.element_count() + self.4.element_count() + self.5.element_count() + self.6.element_count() + self.7.element_count()) as int),
            )) by {
                lemma_sub_stable(fin, f7, cb8 as int, cb7 as int, cb8 as int);
                assert(region(fin, c0, self.element_count()).subrange((self.0.element_count() + self.1.element_count() + self.2.element_count() + self.3.element_count() + self.4.element_count() + self.5.element_count() + self.6.element_count()) as int, (self.0.element_count() + self.1.element_count() + self.2.element_count() + self.3.element_count() + self.4.element_count() + self.5.element_count() + self.6.element_count() + self.7.element_count()) as int) =~= fin.subrange(cb7 as int, cb8 as int));
                assert(region(a, c0, prev.element_count()).subrange((prev.0.element_count() + prev.1.element_count() + prev.2.element_count() + prev.3.element_count() + prev.4.element_count() + prev.5.element_count() + prev.6.element_count()) as int, (prev.0.element_count() + prev.1.element_count() + prev.2.element_count() + prev.3.element_count() + prev.4.element_count() + prev.5.element_count() + prev.6.element_count() + prev.7.element_count()) as int) =~= a.subrange(c0 + (prev.0.element_count() + prev.1.element_count() + prev.2.element_count() + prev.3.element_count() + prev.4.element_count() + prev.5.element_count() + prev.6.element_count()) as int, c0 + (prev.0.element_count() + prev.1.element_count() + prev.2.element_count() + prev.3.element_count() + prev.4.element_count() + prev.5.element_count() + prev.6.element_count() + prev.7.element_count()) as int));
            }
            assert(self.8.seq_rebuilds(
                &prev.8,
                region(a, c0, prev.element_count()).subrange((prev.0.element_count() + prev.1.element_count() + prev.2.element_count() + prev.3.element_count() + prev.4.element_count() + prev.5.element_count() + prev.6.element_count() + prev.7.element_count()) as int, (prev.0.element_count() + prev.1.element_count() + prev.2.element_count() + prev.3.element_count() + prev.4.element_count() + prev.5.element_count() + prev.6.element_count() + prev.7.element_count() + prev.8.element_count()) as int),
                region(fin, c0, self.element_count()).subrange((self.0.element_count() + self.1.element_count() + self.2.element_count() + self.3.element_count() + self.4.element_count() + self.5.element_count() + self.6.element_count() + self.7.element_count()) as int, (self.0.element_count() + self.1.element_count() + self.2.element_count() + self.3.element_count() + self.4.element_count() + self.5.element_count() + self.6.element_count() + self.7.element_count() + self.8.element_count()) as int),
            )) by {
                lemma_sub_stable(fin, f8, cb9 as int, cb8 as int, cb9 as int);
                assert(region(fin, c0, self.element_count()).subrange((self.0.element_count() + self.1.element_count() + self.2.element_count() + self.3.element_count() + self.4.element_count() + self.5.element_count() + self.6.element_count() + self.7.element_count()) as int, (self.0.element_count() + self.1.element_count() + self.2.element_count() + self.3.element_count() + self.4.element_count() + self.5.element_count() + self.6.element_count() + self.7.element_count() + self.8.element_count()) as int) =~= fin.subrange(cb8 as int, cb9 as int));
                assert(region(a, c0, prev.element_count()).subrange((prev.0.element_count() + prev.1.element_count() + prev.2.element_count() + prev.3.element_count() + prev.4.element_count() + prev.5.element_count() + prev.6.element_count() + prev.7.element_count()) as int, (prev.0.element_count() + prev.1.element_count() + prev.2.element_count() + prev.3.element_count() + prev.4.element_count() + prev.5.element_count() + prev.6.element_count() + prev.7.element_count() + prev.8.element_count()) as int) =~= a.subrange(c0 + (prev.0.element_count() + prev.1.element_count() + prev.2.element_count() + prev.3.element_count() + prev.4.element_count() + prev.5.element_count() + prev.6.element_count() + prev.7.element_count()) as int, c0 + (prev.0.element_count() + prev.1.element_count() + prev.2.element_count() + prev.3.element_count() + prev.4.element_count() + prev.5.element_count() + prev.6.element_count() + prev.7.element_count() + prev.8.element_count()) as int));
            }
            assert(self.9.seq_rebuilds(
                &prev.9,
                region(a, c0, prev.element_count()).subrange((prev.0.element_count() + prev.1.element_count() + prev.2.element_count() + prev.3.element_count() + prev.4.element_count() + prev.5.element_count() + prev.6.element_count() + prev.7.element_count() + prev.8.element_count()) as int, (prev.0.element_count() + prev.1.element_count() + prev.2.element_count() + prev.3.element_count() + prev.4.element_count() + prev.5.element_count() + prev.6.element_count() + prev.7.element_count() + prev.8.element_count() + prev.9.element_count()) as int),
                region(fin, c0, self.element_count()).subrange((self.0.element_count() + self.1.element_count() + self.2.element_count() + self.3.element_count() + self.4.element_count() + self.5.element_count() + self.6.element_count() + self.7.element_count() + self.8.element_count()) as int, (self.0.element_count() + self.1.element_count() + self.2.element_count() + self.3.element_count() + self.4.element_count() + self.5.element_count() + self.6.element_count() + self.7.element_count() + self.8.element_count() + self.9.element_count()) as int),
            )) by {
                lemma_sub_stable(fin, f9, cb10 as int, cb9 as int, cb10 as int);
                assert(region(fin, c0, self.element_count()).subrange((self.0.element_count() + self.1.element_count() + self.2.element_count() + self.3.element_count() + self.4.element_count() + self.5.element_count() + self.6.element_count() + self.7.element_count() + self.8.element_count()) as int, (self.0.element_count() + self.1.element_count() + self.2.element_count() + self.3.element_count() + self.4.element_count() + self.5.element_count() + self.6.element_count() + self.7.element_count() + self.8.element_count() + self.9.element_count()) as int) =~= fin.subrange(cb9 as int, cb10 as int));
                assert(region(a, c0, prev.element_count()).subrange((prev.0.element_count() + prev.1.element_count() + prev.2.element_count() + prev.3.element_count() + prev.4.element_count() + prev.5.element_count() + prev.6.element_count() + prev.7.element_count() + prev.8.element_count()) as int, (prev.0.element_count() + prev.1.element_count() + prev.2.element_count() + prev.3.element_count() + prev.4.element_count() + prev.5.element_count() + prev.6.element_count() + prev.7.element_count() + prev.8.element_count() + prev.9.element_count()) as int) =~= a.subrange(c0 + (prev.0.element_count() + prev.1.element_count() + prev.2.element_count() + prev.3.element_count() + prev.4.element_count() + prev.5.element_count() + prev.6.element_count() + prev.7.element_count() + prev.8.element_count()) as int, c0 + (prev.0.element_count() + prev.1.element_count() + prev.2.element_count() + prev.3.element_count() + prev.4.element_count() + prev.5.element_count() + prev.6.element_count() + prev.7.element_count() + prev.8.element_count() + prev.9.element_count()) as int));
            }
            assert(self.10.seq_rebuilds(
                &prev.10,
                region(a, c0, prev.element_count()).subrange((prev.0.element_count() + prev.1.element_count() + prev.2.element_count() + prev.3.element_count() + prev.4.element_count() + prev.5.element_count() + prev.6.element_count() + prev.7.element_count() + prev.8.element_count() + prev.9.element_count()) as int, (prev.0.element_count() + prev.1.element_count() + prev.2.element_count() + prev.3.element_count() + prev.4.element_count() + prev.5.element_count() + prev.6.element_count() + prev.7.element_count() + prev.8.element_count() + prev.9.element_count() + prev.10.element_count()) as int),
                region(fin, c0, self.element_count()).subrange((self.0.element_count() + self.1.element_count() + self.2.element_count() + self.3.element_count() + self.4.element_count() + self.5.element_count() + self.6.element_count() + self.7.element_count() + self.8.element_count() + self.9.element_count()) as int, (self.0.element_count() + self.1.element_count() + self.2.element_count() + self.3.element_count() + self.4.element_count() + self.5.element_count() + self.6.element_count() + self.7.element_count() + self.8.element_count() + self.9.element_count() + self.10.element_count()) as int),
            )) by {
                lemma_sub_stable(fin, f10, cb11 as int, cb10 as int, cb11 as int);
                assert(region(fin, c0, self.element_count()).subrange((self.0.element_count() + self.1.element_count() + self.2.element_count() + self.3.element_count() + self.4.element_count() + self.5.element_count() + self.6.element_count() + self.7.element_count() + self.8.element_count() + self.9.element_count()) as int, (self.0.element_count() + self.1.element_count() + self.2.element_count() + self.3.element_count() + self.4.element_count() + self.5.element_count() + self.6.element_count() + self.7.element_count() + self.8.element_count() + self.9.element_count() + self.10.element_count()) as int) =~= fin.subrange(cb10 as int, cb11 as int));
                assert(region(a, c0, prev.element_count()).subrange((prev.0.element_count() + prev.1.element_count() + prev.2.element_count() + prev.3.element_count() + prev.4.element_count() + prev.5.element_count() + prev.6.element_count() + prev.7.element_count() + prev.8.element_count() + prev.9.element_count()) as int, (prev.0.element_count() + prev.1.element_count() + prev.2.element_count() + prev.3.element_count() + prev.4.element_count() + prev.5.element_count() + prev.6.element_count() + prev.7.element_count() + prev.8.element_count() + prev.9.element_count() + prev.10.element_count()) as int) =~= a.subrange(c0 + (prev.0.element_count() + prev.1.element_count() + prev.2.element_count() + prev.3.element_count() + prev.4.element_count() + prev.5.element_count() + prev.6.element_count() + prev.7.element_count() + prev.8.element_count() + prev.9.element_count()) as int, c0 + (prev.0.element_count() + prev.1.element_count() + prev.2.element_count() + prev.3.element_count() + prev.4.element_count() + prev.5.element_count() + prev.6.element_count() + prev.7.element_count() + prev.8.element_count() + prev.9.element_count() + prev.10.element_count()) as int));
            }
            assert(self.11.seq_rebuilds(
                &prev.11,
                region(a, c0, prev.element_count()).subrange((prev.0.element_count() + prev.1.element_count() + prev.2.element_count() + prev.3.element_count() + prev.4.element_count() + prev.5.element_count() + prev.6.element_count() + prev.7.element_count() + prev.8.element_count() + prev.9.element_count() + prev.10.element_count()) as int, (prev.0.element_count() + prev.1.element_count() + prev.2.element_count() + prev.3.element_count() + prev.4.element_count() + prev.5.element_count() + prev.6.element_count() + prev.7.element_count() + prev.8.element_count() + prev.9.element_count() + prev.10.element_count() + prev.11.element_count()) as int),
                region(fin, c0, self.element_count()).subrange((self.0.element_count() + self.1.element_count() + self.2.element_count() + self.3.element_count() + self.4.element_count() + self.5.element_count() + self.6.element_count() + self.7.element_count() + self.8.element_count() + self.9.element_count() + self.10.element_count()) as int, (self.0.element_count() + self.1.element_count() + self.2.element_count() + self.3.element_count() + self.4.element_count() + self.5.element_count() + self.6.element_count() + self.7.element_count() + self.8.element_count() + self.9.element_count() + self.10.element_count() + self.11.element_count()) as int),
            )) by {
                lemma_sub_stable(fin, f11, cb12 as int, cb11 as int, cb12 as int);
                assert(region(fin, c0, self.element_count()).subrange((self.0.element_count() + self.1.element_count() + self.2.element_count() + self.3.element_count() + self.4.element_count() + self.5.element_count() + self.6.element_count() + self.7.element_count() + self.8.element_count() + self.9.element_count() + self.10.element_count()) as int, (self.0.element_count() + self.1.element_count() + self.2.element_count() + self.3.element_count() + self.4.element_count() + self.5.element_count() + self.6.element_count() + self.7.element_count() + self.8.element_count() + self.9.element_count() + self.10.element_count() + self.11.element_count()) as int) =~= fin.subrange(cb11 as int, cb12 as int));
                assert(region(a, c0, prev.element_count()).subrange((prev.0.element_count() + prev.1.element_count() + prev.2.element_count() + prev.3.element_count() + prev.4.element_count() + prev.5.element_count() + prev.6.element_count() + prev.7.element_count() + prev.8.element_count() + prev.9.element_count() + prev.10.element_count()) as int, (prev.0.element_count() + prev.1.element_count() + prev.2.element_count() + prev.3.element_count() + prev.4.element_count() + prev.5.element_count() + prev.6.element_count() + prev.7.element_count() + prev.8.element_count() + prev.9.element_count() + prev.10.element_count() + prev.11.element_count()) as int) =~= a.subrange(c0 + (prev.0.element_count() + prev.1.element_count() + prev.2.element_count() + prev.3.element_count() + prev.4.element_count() + prev.5.element_count() + prev.6.element_count() + prev.7.element_count() + prev.8.element_count() + prev.9.element_count() + prev.10.element_count()) as int, c0 + (prev.0.element_count() + prev.1.element_count() + prev.2.element_count() + prev.3.element_count() + prev.4.element_count() + prev.5.element_count() + prev.6.element_count() + prev.7.element_count() + prev.8.element_count() + prev.9.element_count() + prev.10.element_count() + prev.11.element_count()) as int));
            }
            assert(self.12.seq_rebuilds(
                &prev.12,
                region(a, c0, prev.element_count()).subrange((prev.0.element_count() + prev.1.element_count() + prev.2.element_count() + prev.3.element_count() + prev.4.element_count() + prev.5.element_count() + prev.6.element_count() + prev.7.element_count() + prev.8.element_count() + prev.9.element_count() + prev.10.element_count() + prev.11.element_count()) as int, (prev.0.element_count() + prev.1.element_count() + prev.2.element_count() + prev.3.element_count() + prev.4.element_count() + prev.5.element_count() + prev.6.element_count() + prev.7.element_count() + prev.8.element_count() + prev.9.element_count() + prev.10.element_count() + prev.11.element_count() + prev.12.element_count()) as int),
                region(fin, c0, self.element_count()).subrange((self.0.element_count() + self.1.element_count() + self.2.element_count() + self.3.element_count() + self.4.element_count() + self.5.element_count() + self.6.element_count() + self.7.element_count() + self.8.element_count() + self.9.element_count() + self.10.element_count() + self.11.element_count()) as int, (self.0.element_count() + self.1.element_count() + self.2.element_count() + self.3.element_count() + self.4.element_count() + self.5.element_count() + self.6.element_count() + self.7.element_count() + self.8.element_count() + self.9.element_count() + self.10.element_count() + self.11.element_count() + self.12.element_count()) as int),
            )) by {
                lemma_sub_stable(fin, f12, cb13 as int, cb12 as int, cb13 as int);
                assert(region(fin, c0, self.element_count()).subrange((self.0.element_count() + self.1.element_count() + self.2.element_count() + self.3.element_count() + self.4.element_count() + self.5.element_count() + self.6.element_count() + self.7.element_count() + self.8.element_count() + self.9.element_count() + self.10.element_count() + self.11.element_count()) as int, (self.0.element_count() + self.1.element_count() + self.2.element_count() + self.3.element_count() + self.4.element_count() + self.5.element_count() + self.6.element_count() + self.7.element_count() + self.8.element_count() + self.9.element_count() + self.10.element_count() + self.11.element_count() + self.12.element_count()) as int) =~= fin.subrange(cb12 as int, cb13 as int));
                assert(region(a, c0, prev.element_count()).subrange((prev.0.element_count() + prev.1.element_count() + prev.2.element_count() + prev.3.element_count() + prev.4.element_count() + prev.5.element_count() + prev.6.element_count() + prev.7.element_count() + prev.8.element_count() + prev.9.element_count() + prev.10.element_count() + prev.11.element_count()) as int, (prev.0.element_count() + prev.1.element_count() + prev.2.element_count() + prev.3.element_count() + prev.4.element_count() + prev.5.element_count() + prev.6.element_count() + prev.7.element_count() + prev.8.element_count() + prev.9.element_count() + prev.10.element_count() + prev.11.element_count() + prev.12.element_count()) as int) =~= a.subrange(c0 + (prev.0.element_count() + prev.1.element_count() + prev.2.element_count() + prev.3.element_count() + prev.4.element_count() + prev.5.element_count() + prev.6.element_count() + prev.7.element_count() + prev.8.element_count() + prev.9.element_count() + prev.10.element_count() + prev.11.element_count()) as int, c0 + (prev.0.element_count() + prev.1.element_count() + prev.2.element_count() + prev.3.element_count() + prev.4.element_count() + prev.5.element_count() + prev.6.element_count() + prev.7.element_count() + prev.8.element_count() + prev.9.element_count() + prev.10.element_count() + prev.11.element_count() + prev.12.element_count()) as int));
            }
            assert(self.13.seq_rebuilds(
                &prev.13,
                region(a, c0, prev.element_count()).subrange((prev.0.element_count() + prev.1.element_count() + prev.2.element_count() + prev.3.element_count() + prev.4.element_count() + prev.5.element_count() + prev.6.element_count() + prev.7.element_count() + prev.8.element_count() + prev.9.element_count() + prev.10.element_count() + prev.11.element_count() + prev.12.element_count()) as int, (prev.0.element_count() + prev.1.element_count() + prev.2.element_count() + prev.3.element_count() + prev.4.element_count() + prev.5.element_count() + prev.6.element_count() + prev.7.element_count() + prev.8.element_count() + prev.9.element_count() + prev.10.element_count() + prev.11.element_count() + prev.12.element_count() + prev.13.element_count()) as int),
                region(fin, c0, self.element_count()).subrange((self.0.element_count() + self.1.element_count() + self.2.element_count() + self.3.element_count() + self.4.element_count() + self.5.element_count() + self.6.element_count() + self.7.element_count() + self.8.element_count() + self.9.element_count() + self.10.element_count() + self.11.element_count() + self.12.element_count()) as int, (self.0.element_count() + self.1.element_count() + self.2.element_count() + self.3.element_count() + self.4.element_count() + self.5.element_count() + self.6.element_count() + self.7.element_count() + self.8.element_count() + self.9.element_count() + self.10.element_count() + self.11.element_count() + self.12.element_count() + self.13.element_count()) as int),
            )) by {
                assert(region(fin, c0, self.element_count()).subrange((self.0.element_count() + self.1.element_count() + self.2.element_count() + self.3.element_count() + self.4.element_count() + self.5.element_count() + self.6.element_count() + self.7.element_count() + self.8.element_count() + self.9.element_count() + self.10.element_count() + self.11.element_count() + self.12.element_count()) as int, (self.0.element_count() + self.1.element_count() + self.2.element_count() + self.3.element_count() + self.4.element_count() + self.5.element_count() + self.6.element_count() + self.7.element_count() + self.8.element_count() + self.9.element_count() + self.10.element_count() + self.11.element_count() + self.12.element_count() + self.13.element_count()) as int) =~= fin.subrange(cb13 as int, ce as int));
                assert(region(a, c0, prev.element_count()).subrange((prev.0.element_count() + prev.1.element_count() + prev.2.element_count() + prev.3.element_count() + prev.4.element_count() + prev.5.element_count() + prev.6.element_count() + prev.7.element_count() + prev.8.element_count() + prev.9.element_count() + prev.10.element_count() + prev.11.element_count() + prev.12.element_count()) as int, (prev.0.element_count() + prev.1.element_count() + prev.2.element_count() + prev.3.element_count() + prev.4.element_count() + prev.5.element_count() + prev.6.element_count() + prev.7.element_count() + prev.8.element_count() + prev.9.element_count() + prev.10.element_count() + prev.11.element_count() + prev.12.element_count() + prev.13.element_count()) as int) =~= a.subrange(c0 + (prev.0.element_count() + prev.1.element_count() + prev.2.element_count() + prev.3.element_count() + prev.4.element_count() + prev.5.element_count() + prev.6.element_count() + prev.7.element_count() + prev.8.element_count() + prev.9.element_count() + prev.10.element_count() + prev.11.element_count() + prev.12.element_count()) as int, c0 + (prev.0.element_count() + prev.1.element_count() + prev.2.element_count() + prev.3.element_count() + prev.4.element_count() + prev.5.element_count() + prev.6.element_count() + prev.7.element_count() + prev.8.element_count() + prev.9.element_count() + prev.10.element_count() + prev.11.element_count() + prev.12.element_count() + prev.13.element_count()) as int));
            }
        }
    }

    #[verifier::spinoff_prover]
    #[verifier::rlimit(100)]
    fn seq_teardown<Splice: ElementSplice<Element>>(&self, elements: &mut Splice) {
        let ghost a = elements.items();
        let ghost c0 = elements.cursor();
        proof {
            lemma_kept_refl(a, c0);
        }
        let ghost b0 = elements.items();
        let ghost cb0 = elements.cursor();
        proof {
            assert(b0.skip(cb0 as int).len() == a.skip((c0 + 0) as int).len());
        }
        self.0.seq_teardown(elements);
        proof {
            assert(self.0.seq_tears_down(region(a, c0, self.element_count()).subrange(0int, (self.0.element_count()) as int))) by {
                lemma_sub_shift(a, b0, (c0 + 0) as int, cb0 as int, self.0.element_count() as int);
                assert(region(a, c0, self.element_count()).subrange(0int, (self.0.element_count()) as int) =~= a.subrange(c0 + 0int, c0 + (self.0.element_count()) as int));
            }
            lemma_kept_compose(a, c0, 0, b0, cb0, self.0.element_count(), elements.items(), elements.cursor());
        }
        let ghost b1 = elements.items();
        let ghost cb1 = elements.cursor();
        proof {
            assert(b1.skip(cb1 as int).len() == a.skip((c0 + (self.0.element_count())) as int).len());
        }
        self.1.seq_teardown(elements);
        proof {
            assert(self.1.seq_tears_down(region(a, c0, self.element_count()).subrange((self.0.element_count()) as int, (self.0.element_count() + self.1.element_count()) as int))) by {
                lemma_sub_shift(a, b1, (c0 + (self.0.element_count())) as int, cb1 as int, self.1.element_count() as int);
                assert(region(a, c0, self.element_count()).subrange((self.0.element_count()) as int, (self.0.element_count() + self.1.element_count()) as int) =~= a.subrange(c0 + (self.0.element_count()) as int, c0 + (self.0.element_count() + self.1.element_count()) as int));
            }
            lemma_kept_compose(a, c0, (self.0.element_count()), b1, cb1, self.1.element_count(), elements.items(), elements.cursor());
        }
        let ghost b2 = elements.items();
        let ghost cb2 = elements.cursor();
        proof {
            assert(b2.skip(cb2 as int).len() == a.skip((c0 + (self.0.element_count() + self.1.element_count())) as int).len());
        }
        self.2.seq_teardown(elements);
        proof {
            assert(self.2.seq_tears_down(region(a, c0, self.element_count()).subrange((self.0.element_count() + self.1.element_count()) as int, (self.0.element_count() + self.1.element_count() + self.2.element_count()) as int))) by {
                lemma_sub_shift(a, b2, (c0 + (self.0.element_count() + self.1.element_count())) as int, cb2 as int, self.2.element_count() as int);
                assert(region(a, c0, self.element_count()).subrange((self.0.element_count() + self.1.element_count()) as int, (self.0.element_count() + self.1.element_count() + self.2.element_count()) as int) =~= a.subrange(c0 + (self.0.element_count() + self.1.element_count()) as int, c0 + (self.0.element_count() + self.1.element_count() + self.2.element_count()) as int));
            }
            lemma_kept_compose(a, c0, (self.0.element_count() + self.1.element_count()), b2, cb2, self.2.element_count(), elements.items(), elements.cursor());
        }
        let ghost b3 = elements.items();
        let ghost cb3 = elements.cursor();
        proof {
            assert(b3.skip(cb3 as int).len() == a.skip((c0 + (self.0.element_count() + self.1.element_count() + self.2.element_count())) as int).len());
        }
        self.3.seq_teardown(elements);
        proof {
            assert(self.3.seq_tears_down(region(a, c0, self.element_count()).subrange((self.0.element_count() + self.1.element_count() + self.2.element_count()) as int, (self.0.element_count() + self.1.element_count() + self.2.element_count() + self.3.element_count()) as int))) by {
                lemma_sub_shift(a, b3, (c0 + (self.0.element_count() + self.1.element_count() + self.2.element_count())) as int, cb3 as int, self.3.element_count() as int);
                assert(region(a, c0, self.element_count()).subrange((self.0.element_count() + self.1.element_count() + self.2.element_count()) as int, (self.0.element_count() + self.1.element_count() + self.2.element_count() + self.3.element_count()) as int) =~= a.subrange(c0 + (self.0.element_count() + self.1.element_count() + self.2.element_count()) as int, c0 + (self.0.element_count() + self.1.element_count() + self.2.element_count() + self.3.element_count()) as int));
            }
            lemma_kept_compose(a, c0, (self.0.element_count() + self.1.element_count() + self.2.element_count()), b3, cb3, self.3.element_count(), elements.items(), elements.cursor());
        }
        let ghost b4 = elements.items();
        let ghost cb4 = elements.cursor();
        proof {
            assert(b4.skip(cb4 as int).len() == a.skip((c0 + (self.0.element_count() + self.1.element_count() + self.2.element_count() + self.3.element_count())) as int).len());
        }
        self.4.seq_teardown(elements);
        proof {
            assert(self.4.seq_tears_down(region(a, c0, self.element_count()).subrange((self.0.element_count() + self.1.element_count() + self.2.element_count() + self.3.element_count()) as int, (self.0.element_count() + self.1.element_count() + self.2.element_count() + self.3.element_count() + self.4.element_count()) as int))) by {
                lemma_sub_shift(a, b4, (c0 + (self.0.element_count() + self.1.element_count() + self.2.element_count() + self.3.element_count())) as int, cb4 as int, self.4.element_count() as int);
                assert(region(a, c0, self.element_count()).subrange((self.0.element_count() + self.1.element_count() + self.2.element_count() + self.3.element_count()) as int, (self.0.element_count() + self.1.element_count() + self.2.element_count() + self.3.element_count() + self.4.element_count()) as int) =~= a.subrange(c0 + (self.0.element_count() + self.1.element_count() + self.2.element_count() + self.3.element_count()) as int, c0 + (self.0.element_count() + self.1.element_count() + self.2.element_count() + self.3.element_count() + self.4.element_count()) as int));
            }
            lemma_kept_compose(a, c0, (self.0.element_count() + self.1.element_count() + self.2.element_count() + self.3.element_count()), b4, cb4, self.4.element_count(), elements.items(), elements.cursor());
        }
        let ghost b5 = elements.items();
        let ghost cb5 = elements.cursor();
        proof {
            assert(b5.skip(cb5 as int).len() == a.skip((c0 + (self.0.element_count() + self.1.element_count() + self.2.element_count() + self.3.element_count() + self.4.element_count())) as int).len());
        }
        self.5.seq_teardown(elements);
        proof {
            assert(self.5.seq_tears_down(region(a, c0, self.element_count()).subrange((self.0.element_count() + self.1.element_count() + self.2.element_count() + self.3.element_count() + self.4.element_count()) as int, (self.0.element_count() + self.1.element_count() + self.2.element_count() + self.3.element_count() + self.4.element_count() + self.5.element_count()) as int))) by {
                lemma_sub_shift(a, b5, (c0 + (self.0.element_count() + self.1.element_count() + self.2.element_count() + self.3.element_count() + self.4.element_count())) as int, cb5 as int, self.5.element_count() as int);
                assert(region(a, c0, self.element_count()).subrange((self.0.element_count() + self.1.element_count() + self.2.element_count() + self.3.element_count() + self.4.element_count()) as int, (self.0.element_count() + self.1.element_count() + self.2.element_count() + self.3.element_count() + self.4.element_count() + self.5.element_count()) as int) =~= a.subrange(c0 + (self.0.element_count() + self.1.element_count() + self.2.element_count() + self.3.element_count() + self.4.element_count()) as int, c0 + (self.0.element_count() + self.1.element_count() + self.2.element_count() + self.3.element_count() + self.4.element_count() + self.5.element_count()) as int));
            }
            lemma_kept_compose(a, c0, (self.0.element_count() + self.1.element_count() + self.2.element_count() + self.3.element_count() + self.4.element_count()), b5, cb5, self.5.element_count(), elements.items(), elements.cursor());
        }
        let ghost b6 = elements.items();
        let ghost cb6 = elements.cursor();
        proof {
            assert(b6.skip(cb6 as int).len() == a.skip((c0 + (self.0.element_count() + self.1.element_count() + self.2.element_count() + self.3.element_count() + self.4.element_count() + self.5.element_count())) as int).len());
        }
        self.6.seq_teardown(elements);
        proof {
            assert(self.6.seq_tears_down(region(a, c0, self.element_count()).subrange((self.0.element_count() + self.1.element_count() + self.2.element_count() + self.3.element_count() + self.4.element_count() + self.5.element_count()) as int, (self.0.element_count() + self.1.element_count() + self.2.element_count() + self.3.element_count() + self.4.element_count() + self.5.element_count() + self.6.element_count()) as int))) by {
                lemma_sub_shift(a, b6, (c0 + (self.0.element_count() + self.1.element_count() + self.2.element_count() + self.3.element_count() + self.4.element_count() + self.5.element_count())) as int, cb6 as int, self.6.element_count() as int);
                assert(region(a, c0, self.element_count()).subrange((self.0.element_count() + self.1.element_count() + self.2.element_count() + self.3.element_count() + self.4.element_count() + self.5.element_count()) as int, (self.0.element_count() + self.1.element_count() + self.2.element_count() + self.3.element_count() + self.4.element_count() + self.5.element_count() + self.6.element_count()) as int) =~= a.subrange(c0 + (self.0.element_count() + self.1.element_count() + self.2.element_count() + self.3.element_count() + self.4.element_count() + self.5.element_count()) as int, c0 + (self.0.element_count() + self.1.element_count() + self.2.element_count() + self.3.element_count() + self.4.element_count() + self.5.element_count() + self.6.element_count()) as int));
            }
            lemma_kept_compose(a, c0, (self.0.element_count() + self.1.element_count() + self.2.element_count() + self.3.element_count() + self.4.element_count() + self.5.element_count()), b6, cb6, self.6.element_count(), elements.items(), elements.cursor());
        }
        let ghost b7 = elements.items();
        let ghost cb7 = elements.cursor();
        proof {
            assert(b7.skip(cb7 as int).len() == a.skip((c0 + (self.0.element_count() + self.1.element_count() + self.2.element_count() + self.3.element_count() + self.4.element_count() + self.5.element_count() + self.6.element_count())) as int).len());
        }
        self.7.seq_teardown(elements);
        proof {
            assert(self.7.seq_tears_down(region(a, c0, self.element_count()).subrange((self.0.element_count() + self.1.element_count() + self.2.element_count() + self.3.element_count() + self.4.element_count() + self.5.element_count() + self.6.element_count()) as int, (self.0.element_count() + self.1.element_count() + self.2.element_count() + self.3.element_count() + self.4.element_count() + self.5.element_count() + self.6.element_count() + self.7.element_count()) as int))) by {
                lemma_sub_shift(a, b7, (c0 + (self.0.element_count() + self.1.element_count() + self.2.element_count() + self.3.element_count() + self.4.element_count() + self.5.element_count() + self.6.element_count())) as int, cb7 as int, self.7.element_count() as int);
                assert(region(a, c0, self.element_count()).subrange((self.0.element_count() + self.1.element_count() + self.2.element_count() + self.3.element_count() + self.4.element_count() + self.5.element_count() + self.6.element_count()) as int, (self.0.element_count() + self.1.element_count() + self.2.element_count() + self.3.element_count() + self.4.element_count() + self.5.element_count() + self.6.element_count() + self.7.element_count()) as int) =~= a.subrange(c0 + (self.0.element_count() + self.1.element_count() + self.2.element_count() + self.3.element_count() + self.4.element_count() + self.5.element_count() + self.6.element_count()) as int, c0 + (self.0.element_count() + self.1.element_count() + self.2.element_count() + self.3.element_count() + self.4.element_count() + self.5.element_count() + self.6.element_count() + self.7.element_count()) as int));
            }
            lemma_kept_compose(a, c0, (self.0.element_count() + self.1.element_count() + self.2.element_count() + self.3.element_count() + self.4.element_count() + self.5.element_count() + self.6.element_count()), b7, cb7, self.7.element_count(), elements.items(), elements.cursor());
        }
        let ghost b8 = elements.items();
        let ghost cb8 = elements.cursor();
        proof {
            assert(b8.skip(cb8 as int).len() == a.skip((c0 + (self.0.element_count() + self.1.element_count() + self.2.element_count() + self.3.element_count() + self.4.element_count() + self.5.element_count() + self.6.element_count() + self.7.element_count())) as int).len());
        }
        self.8.seq_teardown(elements);
        proof {
            assert(self.8.seq_tears_down(region(a, c0, self.element_count()).subrange((self.0.element_count() + self.1.element_count() + self.2.element_count() + self.3.element_count() + self.4.element_count() + self.5.element_count() + self.6.element_count() + self.7.element_count()) as int, (self.0.element_count() + self.1.element_count() + self.2.element_count() + self.3.element_count() + self.4.element_count() + self.5.element_count() + self.6.element_count() + self.7.element_count() + self.8.element_count()) as int))) by {
                lemma_sub_shift(a, b8, (c0 + (self.0.element_count() + self.1.element_count() + self.2.element_count() + self.3.element_count() + self.4.element_count() + self.5.element_count() + self.6.element_count() + self.7.element_count())) as int, cb8 as int, self.8.element_count() as int);
                assert(region(a, c0, self.element_count()).subrange((self.0.element_count() + self.1.element_count() + self.2.element_count() + self.3.element_count() + self.4.element_count() + self.5.element_count() + self.6.element_count() + self.7.element_count()) as int, (self.0.element_count() + self.1.element_count() + self.2.element_count() + self.3.element_count() + self.4.element_count() + self.5.element_count() + self.6.element_count() + self.7.element_count() + self.8.element_count()) as int) =~= a.subrange(c0 + (self.0.element_count() + self.1.element_count() + self.2.element_count() + self.3.element_count() + self.4.element_count() + self.5.element_count() + self.6.element_count() + self.7.element_count()) as int, c0 + (self.0.element_count() + self.1.element_count() + self.2.element_count() + self.3.element_count() + self.4.element_count() + self.5.element_count() + self.6.element_count() + self.7.element_count() + self.8.element_count()) as int));
            }
            lemma_kept_compose(a, c0, (self.0.element_count() + self.1.element_count() + self.2.element_count() + self.3.element_count() + self.4.element_count() + self.5.element_count() + self.6.element_count() + self.7.element_count()), b8, cb8, self.8.element_count(), elements.items(), elements.cursor());
        }
        let ghost b9 = elements.items();
        let ghost cb9 = elements.cursor();
        proof {
            assert(b9.skip(cb9 as int).len() == a.skip((c0 + (self.0.element_count() + self.1.element_count() + self.2.element_count() + self.3.element_count() + self.4.element_count() + self.5.element_count() + self.6.element_count() + self.7.element_count() + self.8.element_count())) as int).len());
        }
        self.9.seq_teardown(elements);
        proof {
            assert(self.9.seq_tears_down(region(a, c0, self.element_count()).subrange((self.0.element_count() + self.1.element_count() + self.2.element_count() + self.3.element_count() + self.4.element_count() + self.5.element_count() + self.6.element_count() + self.7.element_count() + self.8.element_count()) as int, (self.0.element_count() + self.1.element_count() + self.2.element_count() + self.3.element_count() + self.4.element_count() + self.5.element_count() + self.6.element_count() + self.7.element_count() + self.8.element_count() + self.9.element_count()) as int))) by {
                lemma_sub_shift(a, b9, (c0 + (self.0.element_count() + self.1.element_count() + self.2.element_count() + self.3.element_count() + self.4.element_count() + self.5.element_count() + self.6.element_count() + self.7.element_count() + self.8.element_count())) as int, cb9 as int, self.9.element_count() as int);
                assert(region(a, c0, self.element_count()).subrange((self.0.element_count() + self.1.element_count() + self.2.element_count() + self.3.element_count() + self.4.element_count() + self.5.element_count() + self.6.element_count() + self.7.element_count() + self.8.element_count()) as int, (self.0.element_count() + self.1.element_count() + self.2.element_count() + self.3.element_count() + self.4.element_count() + self.5.element_count() + self.6.element_count() + self.7.element_count() + self.8.element_count() + self.9.element_count()) as int) =~= a.subrange(c0 + (self.0.element_count() + self.1.element_count() + self.2.element_count() + self.3.element_count() + self.4.element_count() + self.5.element_count() + self.6.element_count() + self.7.element_count() + self.8.element_count()) as int, c0 + (self.0.element_count() + self.1.element_count() + self.2.element_count() + self.3.element_count() + self.4.element_count() + self.5.element_count() + self.6.element_count() + self.7.element_count() + self.8.element_count() + self.9.element_count()) as int));
            }
            lemma_kept_compose(a, c0, (self.0.element_count() + self.1.element_count() + self.2.element_count() + self.3.element_count() + self.4.element_count() + self.5.element_count() + self.6.element_count() + self.7.element_count() + self.8.element_count()), b9, cb9, self.9.element_count(), elements.items(), elements.cursor());
        }
        let ghost b10 = elements.items();
        let ghost cb10 = elements.cursor();
        proof {
            assert(b10.skip(cb10 as int).len() == a.skip((c0 + (self.0.element_count() + self.1.element_count() + self.2.element_count() + self.3.element_count() + self.4.element_count() + self.5.element_count() + self.6.element_count() + self.7.element_count() + self.8.element_count() + self.9.element_count())) as int).len());
        }
        self.10.seq_teardown(elements);
        proof {
            assert(self.10.seq_tears_down(region(a, c0, self.element_count()).subrange((self.0.element_count() + self.1.element_count() + self.2.element_count() + self.3.element_count() + self.4.element_count() + self.5.element_count() + self.6.element_count() + self.7.element_count() + self.8.element_count() + self.9.element_count()) as int, (self.0.element_count() + self.1.element_count() + self.2.element_count() + self.3.element_count() + self.4.element_count() + self.5.element_count() + self.6.element_count() + self.7.element_count() + self.8.element_count() + self.9.element_count() + self.10.element_count()) as int))) by {
                lemma_sub_shift(a, b10, (c0 + (self.0.element_count() + self.1.element_count() + self.2.element_count() + self.3.element_count() + self.4.element_count() + self.5.element_count() + self.6.element_count() + self.7.element_count() + self.8.element_count() + self.9.element_count())) as int, cb10 as int, self.10.element_count() as int);
                assert(region(a, c0, self.element_count()).subrange((self.0.element_count() + self.1.element_count() + self.2.element_count() + self.3.element_count() + self.4.element_count() + self.5.element_count() + self.6.element_count() + self.7.element_count() + self.8.element_count() + self.9.element_count()) as int, (self.0.element_count() + self.1.element_count() + self.2.element_count() + self.3.element_count() + self.4.element_count() + self.5.element_count() + self.6.element_count() + self.7.element_count() + self.8.element_count() + self.9.element_count() + self.10.element_count()) as int) =~= a.subrange(c0 + (self.0.element_count() + self.1.element_count() + self.2.element_count() + self.3.element_count() + self.4.element_count() + self.5.element_count() + self.6.element_count() + self.7.element_count() + self.8.element_count() + self.9.element_count()) as int, c0 + (self.0.element_count() + self.1.element_count() + self.2.element_count() + self.3.element_count() + self.4.element_count() + self.5.element_count() + self.6.element_count() + self.7.element_count() + self.8.element_count() + self.9.element_count() + self.10.element_count()) as int));
            }
            lemma_kept_compose(a, c0, (self.0.element_count() + self.1.element_count() + self.2.element_count() + self.3.element_count() + self.4.element_count() + self.5.element_count() + self.6.element_count() + self.7.element_count() + self.8.element_count() + self.9.element_count()), b10, cb10, self.10.element_count(), elements.items(), elements.cursor());
        }
        let ghost b11 = elements.items();
        let ghost cb11 = elements.cursor();
        proof {
            assert(b11.skip(cb11 as int).len() == a.skip((c0 + (self.0.element_count() + self.1.element_count() + self.2.element_count() + self.3.element_count() + self.4.element_count() + self.5.element_count() + self.6.element_count() + self.7.element_count() + self.8.element_count() + self.9.element_count() + self.10.element_count())) as int).len());
        }
        self.11.seq_teardown(elements);
        proof {
            assert(self.11.seq_tears_down(region(a, c0, self.element_count()).subrange((self.0.element_count() + self.1.element_count() + self.2.element_count() + self.3.element_count() + self.4.element_count() + self.5.element_count() + self.6.element_count() + self.7.element_count() + self.8.element_count() + self.9.element_count() + self.10.element_count()) as int, (self.0.element_count() + self.1.element_count() + self.2.element_count() + self.3.element_count() + self.4.element_count() + self.5.element_count() + self.6.element_count() + self.7.element_count() + self.8.element_count() + self.9.element_count() + self.10.element_count() + self.11.element_count()) as int))) by {
                lemma_sub_shift(a, b11, (c0 + (self.0.element_count() + self.1.element_count() + self.2.element_count() + self.3.element_count() + self.4.element_count() + self.5.element_count() + self.6.element_count() + self.7.element_count() + self.8.element_count() + self.9.element_count() + self.10.element_count())) as int, cb11 as int, self.11.element_count() as int);
                assert(region(a, c0, self.element_count()).subrange((self.0.element_count() + self.1.element_count() + self.2.element_count() + self.3.element_count() + self.4.element_count() + self.5.element_count() + self.6.element_count() + self.7.element_count() + self.8.element_count() + self.9.element_count() + self.10.element_count()) as int, (self.0.element_count() + self.1.element_count() + self.2.element_count() + self.3.element_count() + self.4.element_count() + self.5.element_count() + self.6.element_count() + self.7.element_count() + self.8.element_count() + self.9.element_count() + self.10.element_count() + self.11.element_count()) as int) =~= a.subrange(c0 + (self.0.element_count() + self.1.element_count() + self.2.element_count() + self.3.element_count() + self.4.element_count() + self.5.element_count() + self.6.element_count() + self.7.element_count() + self.8.element_count() + self.9.element_count() + self.10.element_count()) as int, c0 + (self.0.element_count() + self.1.element_count() + self.2.element_count() + self.3.element_count() + self.4.element_count() + self.5.element_count() + self.6.element_count() + self.7.element_count() + self.8.element_count() + self.9.element_count() + self.10.element_count() + self.11.element_count()) as int));
            }
            lemma_kept_compose(a, c0, (self.0.element_count() + self.1.element_count() + self.2.element_count() + self.3.element_count() + self.4.element_count() + self.5.element_count() + self.6.element_count() + self.7.element_count() + self.8.element_count() + self.9.element_count() + self.10.element_count()), b11, cb11, self.11.element_count(), elements.items(), elements.cursor());
        }
        let ghost b12 = elements.items();
        let ghost cb12 = elements.cursor();
        proof {
            assert(b12.skip(cb12 as int).len() == a.skip((c0 + (self.0.element_count() + self.1.element_count() + self.2.element_count() + self.3.element_count() + self.4.element_count() + self.5.element_count() + self.6.element_count() + self.7.element_count() + self.8.element_count() + self.9.element_count() + self.10.element_count() + self.11.element_count())) as int).len());
        }
        self.12.seq_teardown(elements);
        proof {
            assert(self.12.seq_tears_down(region(a, c0, self.element_count()).subrange((self.0.element_count() + self.1.element_count() + self.2.element_count() + self.3.element_count() + self.4.element_count() + self.5.element_count() + self.6.element_count() + self.7.element_count() + self.8.element_count() + self.9.element_count() + self.10.element_count() + self.11.element_count()) as int, (self.0.element_count() + self.1.element_count() + self.2.element_count() + self.3.element_count() + self.4.element_count() + self.5.element_count() + self.6.element_count() + self.7.element_count() + self.8.element_count() + self.9.element_count() + self.10.element_count() + self.11.element_count() + self.12.element_count()) as int))) by {
                lemma_sub_shift(a, b12, (c0 + (self.0.element_count() + self.1.element_count() + self.2.element_count() + self.3.element_count() + self.4.element_count() + self.5.element_count() + self.6.element_count() + self.7.element_count() + self.8.element_count() + self.9.element_count() + self.10.element_count() + self.11.element_count())) as int, cb12 as int, self.12.element_count() as int);
                assert(region(a, c0, self.element_count()).subrange((self.0.element_count() + self.1.element_count() + self.2.element_count() + self.3.element_count() + self.4.element_count() + self.5.element_count() + self.6.element_count() + self.7.element_count() + self.8.element_count() + self.9.element_count() + self.10.element_count() + self.11.element_count()) as int, (self.0.element_count() + self.1.element_count() + self.2.element_count() + self.3.element_count() + self.4.element_count() + self.5.element_count() + self.6.element_count() + self.7.element_count() + self.8.element_count() + self.9.element_count() + self.10.element_count() + self.11.element_count() + self.12.element_count()) as int) =~= a.subrange(c0 + (self.0.element_count() + self.1.element_count() + self.2.element_count() + self.3.element_count() + self.4.element_count() + self.5.element_count() + self.6.element_count() + self.7.element_count() + self.8.element_count() + self.9.element_count() + self.10.element_count() + self.11.element_count()) as int, c0 + (self.0.element_count() + self.1.element_count() + self.2.element_count() + self.3.element_count() + self.4.element_count() + self.5.element_count() + self.6.element_count() + self.7.element_count() + self.8.element_count() + self.9.element_count() + self.10.element_count() + self.11.element_count() + self.12.element_count()) as int));
            }
            lemma_kept_compose(a, c0, (self.0.element_count() + self.1.element_count() + self.2.element_count() + self.3.element_count() + self.4.element_count() + self.5.element_count() + self.6.element_count() + self.7.element_count() + self.8.element_count() + self.9.element_count() + self.10.element_count() + self.11.element_count()), b12, cb12, self.12.element_count(), elements.items(), elements.cursor());
        }
        let ghost b13 = elements.items();
        let ghost cb13 = elements.cursor();
        proof {
            assert(b13.skip(cb13 as int).len() == a.skip((c0 + (self.0.element_count() + self.1.element_count() + self.2.element_count() + self.3.element_count() + self.4.element_count() + self.5.element_count() + self.6.element_count() + self.7.element_count() + self.8.element_count() + self.9.element_count() + self.10.element_count() + self.11.element_count() + self.12.element_count())) as int).len());
        }
        self.13.seq_teardown(elements);
        proof {
            assert(self.13.seq_tears_down(region(a, c0, self.element_count()).subrange((self.0.element_count() + self.1.element_count() + self.2.element_count() + self.3.element_count() + self.4.element_count() + self.5.element_count() + self.6.element_count() + self.7.element_count() + self.8.element_count() + self.9.element_count() + self.10.element_count() + self.11.element_count() + self.12.element_count()) as int, (self.0.element_count() + self.1.element_count() + self.2.element_count() + self.3.element_count() + self.4.element_count() + self.5.element_count() + self.6.element_count() + self.7.element_count() + self.8.element_count() + self.9.element_count() + self.10.element_count() + self.11.element_count() + self.12.element_count() + self.13.element_count()) as int))) by {
                lemma_sub_shift(a, b13, (c0 + (self.0.element_count() + self.1.element_count() + self.2.element_count() + self.3.element_count() + self.4.element_count() + self.5.element_count() + self.6.element_count() + self.7.element_count() + self.8.element_count() + self.9.element_count() + self.10.element_count() + self.11.element_count() + self.12.element_count())) as int, cb13 as int, self.13.element_count() as int);
                assert(region(a, c0, self.element_count()).subrange((self.0.element_count() + self.1.element_count() + self.2.element_count() + self.3.element_count() + self.4.element_count() + self.5.element_count() + self.6.element_count() + self.7.element_count() + self.8.element_count() + self.9.element_count() + self.10.element_count() + self.11.element_count() + self.12.element_count()) as int, (self.0.element_count() + self.1.element_count() + self.2.element_count() + self.3.element_count() + self.4.element_count() + self.5.element_count() + self.6.element_count() + self.7.element_count() + self.8.element_count() + self.9.element_count() + self.10.element_count() + self.11.element_count() + self.12.element_count() + self.13.element_count()) as int) =~= a.subrange(c0 + (self.0.element_count() + self.1.element_count() + self.2.element_count() + self.3.element_count() + self.4.element_count() + self.5.element_count() + self.6.element_count() + self.7.element_count() + self.8.element_count() + self.9.element_count() + self.10.element_count() + self.11.element_count() + self.12.element_count()) as int, c0 + (self.0.element_count() + self.1.element_count() + self.2.element_count() + self.3.element_count() + self.4.element_count() + self.5.element_count() + self.6.element_count() + self.7.element_count() + self.8.element_count() + self.9.element_count() + self.10.element_count() + self.11.element_count() + self.12.element_count() + self.13.element_count()) as int));
            }
            lemma_kept_compose(a, c0, (self.0.element_count() + self.1.element_count() + self.2.element_count() + self.3.element_count() + self.4.element_count() + self.5.element_count() + self.6.element_count() + self.7.element_count() + self.8.element_count() + self.9.element_count() + self.10.element_count() + self.11.element_count() + self.12.element_count()), b13, cb13, self.13.element_count(), elements.items(), elements.cursor());
        }
    }
}

/// A tuple of 15 sequences builds the elements of each, in order.
impl<State, Element, S0, S1, S2, S3, S4, S5, S6, S7, S8, S9, S10, S11, S12, S13, S14> ViewSequence<State, Element> for (S0, S1, S2, S3, S4, S5, S6, S7, S8, S9, S10, S11, S12, S13, S14,) where
    S0: ViewSequence<State, Element>,
    S1: ViewSequence<State, Element>,
    S2: ViewSequence<State, Element>,
    S3: ViewSequence<State, Element>,
    S4: ViewSequence<State, Element>,
    S5: ViewSequence<State, Element>,
    S6: ViewSequence<State, Element>,
    S7: ViewSequence<State, Element>,
    S8: ViewSequence<State, Element>,
    S9: ViewSequence<State, Element>,
    S10: ViewSequence<State, Element>,
    S11: ViewSequence<State, Element>,
    S12: ViewSequence<State, Element>,
    S13: ViewSequence<State, Element>,
    S14: ViewSequence<State, Element>,
 {
    open spec fn element_count(&self) -> nat {
        self.0.element_count() + self.1.element_count() + self.2.element_count() + self.3.element_count() + self.4.element_count() + self.5.element_count() + self.6.element_count() + self.7.element_count() + self.8.element_count() + self.9.element_count() + self.10.element_count() + self.11.element_count() + self.12.element_count() + self.13.element_count() + self.14.element_count()
    }

    open spec fn seq_builds(&self, out: Seq<Element>) -> bool {
        &&& out.len() == self.element_count()
        &&& self.0.seq_builds(out.subrange(0int, (self.0.element_count()) as int))
        &&& self.1.seq_builds(out.subrange((self.0.element_count()) as int, (self.0.element_count() + self.1.element_count()) as int))
        &&& self.2.seq_builds(out.subrange((self.0.element_count() + self.1.element_count()) as int, (self.0.element_count() + self.1.element_count() + self.2.element_count()) as int))
        &&& self.3.seq_builds(out.subrange((self.0.element_count() + self.1.element_count() + self.2.element_count()) as int, (self.0.element_count() + self.1.element_count() + self.2.element_count() + self.3.element_count()) as int))
        &&& self.4.seq_builds(out.subrange((self.0.element_count() + self.1.element_count() + self.2.element_count() + self.3.element_count()) as int, (self.0.element_count() + self.1.element_count() + self.2.element_count() + self.3.element_count() + self.4.element_count()) as int))
        &&& self.5.seq_builds(out.subrange((self.0.element_count() + self.1.element_count() + self.2.element_count() + self.3.element_count() + self.4.element_count()) as int, (self.0.element_count() + self.1.element_count() + self.2.element_count() + self.3.element_count() + self.4.element_count() + self.5.element_count()) as int))
        &&& self.6.seq_builds(out.subrange((self.0.element_count() + self.1.element_count() + self.2.element_count() + self.3.element_count() + self.4.element_count() + self.5.element_count()) as int, (self.0.element_count() + self.1.element_count() + self.2.element_count() + self.3.element_count() + self.4.element_count() + self.5.element_count() + self.6.element_count()) as int))
        &&& self.7.seq_builds(out.subrange((self.0.element_count() + self.1.element_count() + self.2.element_count() + self.3.element_count() + self.4.element_count() + self.5.element_count() + self.6.element_count()) as int, (self.0.element_count() + self.1.element_count() + self.2.element_count() + self.3.element_count() + self.4.element_count() + self.5.element_count() + self.6.element_count() + self.7.element_count()) as int))
        &&& self.8.seq_builds(out.subrange((self.0.element_count() + self.1.element_count() + self.2.element_count() + self.3.element_count() + self.4.element_count() + self.5.element_count() + self.6.element_count() + self.7.element_count()) as int, (self.0.element_count() + self.1.element_count() + self.2.element_count() + self.3.element_count() + self.4.element_count() + self.5.element_count() + self.6.element_count() + self.7.element_count() + self.8.element_count()) as int))
        &&& self.9.seq_builds(out.subrange((self.0.element_count() + self.1.element_count() + self.2.element_count() + self.3.element_count() + self.4.element_count() + self.5.element_count() + self.6.element_count() + self.7.element_count() + self.8.element_count()) as int, (self.0.element_count() + self.1.element_count() + self.2.element_count() + self.3.element_count() + self.4.element_count() + self.5.element_count() + self.6.element_count() + self.7.element_count() + self.8.element_count() + self.9.element_count()) as int))
        &&& self.10.seq_builds(out.subrange((self.0.element_count() + self.1.element_count() + self.2.element_count() + self.3.element_count() + self.4.element_count() + self.5.element_count() + self.6.element_count() + self.7.element_count() + self.8.element_count() + self.9.element_count()) as int, (self.0.element_count() + self.1.element_count() + self.2.element_count() + self.3.element_count() + self.4.element_count() + self.5.element_count() + self.6.element_count() + self.7.element_count() + self.8.element_count() + self.9.element_count() + self.10.element_count()) as int))
        &&& self.11.seq_builds(out.subrange((self.0.element_count() + self.1.element_count() + self.2.element_count() + self.3.element_count() + self.4.element_count() + self.5.element_count() + self.6.element_count() + self.7.element_count() + self.8.element_count() + self.9.element_count() + self.10.element_count()) as int, (self.0.element_count() + self.1.element_count() + self.2.element_count() + self.3.element_count() + self.4.element_count() + self.5.element_count() + self.6.element_count() + self.7.element_count() + self.8.element_count() + self.9.element_count() + self.10.element_count() + self.11.element_count()) as int))
        &&& self.12.seq_builds(out.subrange((self.0.element_count() + self.1.element_count() + self.2.element_count() + self.3.element_count() + self.4.element_count() + self.5.element_count() + self.6.element_count() + self.7.element_count() + self.8.element_count() + self.9.element_count() + self.10.element_count() + self.11.element_count()) as int, (self.0.element_count() + self.1.element_count() + self.2.element_count() + self.3.element_count() + self.4.element_count() + self.5.element_count() + self.6.element_count() + self.7.element_count() + self.8.element_count() + self.9.element_count() + self.10.element_count() + self.11.element_count() + self.12.element_count()) as int))
        &&& self.13.seq_builds(out.subrange((self.0.element_count() + self.1.element_count() + self.2.element_count() + self.3.element_count() + self.4.element_count() + self.5.element_count() + self.6.element_count() + self.7.element_count() + self.8.element_count() + self.9.element_count() + self.10.element_count() + self.11.element_count() + self.12.element_count()) as int, (self.0.element_count() + self.1.element_count() + self.2.element_count() + self.3.element_count() + self.4.element_count() + self.5.element_count() + self.6.element_count() + self.7.element_count() + self.8.element_count() + self.9.element_count() + self.10.element_count() + self.11.element_count() + self.12.element_count() + self.13.element_count()) as int))
        &&& self.14.seq_builds(out.subrange((self.0.element_count() + self.1.element_count() + self.2.element_count() + self.3.element_count() + self.4.element_count() + self.5.element_count() + self.6.element_count() + self.7.element_count() + self.8.element_count() + self.9.element_count() + self.10.element_count() + self.11.element_count() + self.12.element_count() + self.13.element_count()) as int, (self.0.element_count() + self.1.element_count() + self.2.element_count() + self.3.element_count() + self.4.element_count() + self.5.element_count() + self.6.element_count() + self.7.element_count() + self.8.element_count() + self.9.element_count() + self.10.element_count() + self.11.element_count() + self.12.element_count() + self.13.element_count() + self.14.element_count()) as int))
    }

    open spec fn seq_rebuilds(&self, prev: &Self, before: Seq<Element>, after: Seq<Element>) -> bool {
        &&& before.len() == prev.element_count()
        &&& after.len() == self.element_count()
        &&& self.0.seq_rebuilds(
            &prev.0,
            before.subrange(0int, (prev.0.element_count()) as int),
            after.subrange(0int, (self.0.element_count()) as int),
        )
        &&& self.1.seq_rebuilds(
            &prev.1,
            before.subrange((prev.0.element_count()) as int, (prev.0.element_count() + prev.1.element_count()) as int),
            after.subrange((self.0.element_count()) as int, (self.0.element_count() + self.1.element_count()) as int),
        )
        &&& self.2.seq_rebuilds(
            &prev.2,
            before.subrange((prev.0.element_count() + prev.1.element_count()) as int, (prev.0.element_count() + prev.1.element_count() + prev.2.element_count()) as int),
            after.subrange((self.0.element_count() + self.1.element_count()) as int, (self.0.element_count() + self.1.element_count() + self.2.element_count()) as int),
        )
        &&& self.3.seq_rebuilds(
            &prev.3,
            before.subrange((prev.0.element_count() + prev.1.element_count() + prev.2.element_count()) as int, (prev.0.element_count() + prev.1.element_count() + prev.2.element_count() + prev.3.element_count()) as int),
            after.subrange((self.0.element_count() + self.1.element_count() + self.2.element_count()) as int, (self.0.element_count() + self.1.element_count() + self.2.element_count() + self.3.element_count()) as int),
        )
        &&& self.4.seq_rebuilds(
            &prev.4,
            before.subrange((prev.0.element_count() + prev.1.element_count() + prev.2.element_count() + prev.3.element_count()) as int, (prev.0.element_count() + prev.1.element_count() + prev.2.element_count() + prev.3.element_count() + prev.4.element_count()) as int),
            after.subrange((self.0.element_count() + self.1.element_count() + self.2.element_count() + self.3.element_count()) as int, (self.0.element_count() + self.1.element_count() + self.2.element_count() + self.3.element_count() + self.4.element_count()) as int),
        )
        &&& self.5.seq_rebuilds(
            &prev.5,
            before.subrange((prev.0.element_count() + prev.1.element_count() + prev.2.element_count() + prev.3.element_count() + prev.4.element_count()) as int, (prev.0.element_count() + prev.1.element_count() + prev.2.element_count() + prev.3.element_count() + prev.4.element_count() + prev.5.element_count()) as int),
            after.subrange((self.0.element_count() + self.1.element_count() + self.2.element_count() + self.3.element_count() + self.4.element_count()) as int, (self.0.element_count() + self.1.element_count() + self.2.element_count() + self.3.element_count() + self.4.element_count() + self.5.element_count()) as int),
        )
        &&& self.6.seq_rebuilds(
            &prev.6,
            before.subrange((prev.0.element_count() + prev.1.element_count() + prev.2.element_count() + prev.3.element_count() + prev.4.element_count() + prev.5.element_count()) as int, (prev.0.element_count() + prev.1.element_count() + prev.2.element_count() + prev.3.element_count() + prev.4.element_count() + prev.5.element_count() + prev.6.element_count()) as int),
            after.subrange((self.0.element_count() + self.1.element_count() + self.2.element_count() + self.3.element_count() + self.4.element_count() + self.5.element_count()) as int, (self.0.element_count() + self.1.element_count() + self.2.element_count() + self.3.element_count() + self.4.element_count() + self.5.element_count() + self.6.element_count()) as int),
        )
        &&& self.7.seq_rebuilds(
            &prev.7,
            before.subrange((prev.0.element_count() + prev.1.element_count() + prev.2.element_count() + prev.3.element_count() + prev.4.element_count() + prev.5.element_count() + prev.6.element_count()) as int, (prev.0.element_count() + prev.1.element_count() + prev.2.element_count() + prev.3.element_count() + prev.4.element_count() + prev.5.element_count() + prev.6.element_count() + prev.7.element_count()) as int),
            after.subrange((self.0.element_count() + self.1.element_count() + self.2.element_count() + self.3.element_count() + self.4.element_count() + self.5.element_count() + self.6.element_count()) as int, (self.0.element_count() + self.1.element_count() + self.2.element_count() + self.3.element_count() + self.4.element_count() + self.5.element_count() + self.6.element_count() + self.7.element_count()) as int),
        )
        &&& self.8.seq_rebuilds(
            &prev.8,
            before.subrange((prev.0.element_count() + prev.1.element_count() + prev.2.element_count() + prev.3.element_count() + prev.4.element_count() + prev.5.element_count() + prev.6.element_count() + prev.7.element_count()) as int, (prev.0.element_count() + prev.1.element_count() + prev.2.element_count() + prev.3.element_count() + prev.4.element_count() + prev.5.element_count() + prev.6.element_count() + prev.7.element_count() + prev.8.element_count()) as int),
            after.subrange((self.0.element_count() + self.1.element_count() + self.2.element_count() + self.3.element_count() + self.4.element_count() + self.5.element_count() + self.6.element_count() + self.7.element_count()) as int, (self.0.element_count() + self.1.element_count() + self.2.element_count() + self.3.element_count() + self.4.element_count() + self.5.element_count() + self.6.element_count() + self.7.element_count() + self.8.element_count()) as int),
        )
        &&& self.9.seq_rebuilds(
            &prev.9,
            before.subrange((prev.0.element_count() + prev.1.element_count() + prev.2.element_count() + prev.3.element_count() + prev.4.element_count() + prev.5.element_count() + prev.6.element_count() + prev.7.element_count() + prev.8.element_count()) as int, (prev.0.element_count() + prev.1.element_count() + prev.2.element_count() + prev.3.element_count() + prev.4.element_count() + prev.5.element_count() + prev.6.element_count() + prev.7.element_count() + prev.8.element_count() + prev.9.element_count()) as int),
            after.subrange((self.0.element_count() + self.1.element_count() + self.2.element_count() + self.3.element_count() + self.4.element_count() + self.5.element_count() + self.6.element_count() + self.7.element_count() + self.8.element_count()) as int, (self.0.element_count() + self.1.element_count() + self.2.element_count() + self.3.element_count() + self.4.element_count() + self.5.element_count() + self.6.element_count() + self.7.element_count() + self.8.element_count() + self.9.element_count()) as int),
        )
        &&& self.10.seq_rebuilds(
            &prev.10,
            before.subrange((prev.0.element_count() + prev.1.element_count() + prev.2.element_count() + prev.3.element_count() + prev.4.element_count() + prev.5.element_count() + prev.6.element_count() + prev.7.element_count() + prev.8.element_count() + prev.9.element_count()) as int, (prev.0.element_count() + prev.1.element_count() + prev.2.element_count() + prev.3.element_count() + prev.4.element_count() + prev.5.element_count() + prev.6.element_count() + prev.7.element_count() + prev.8.element_count() + prev.9.element_count() + prev.10.element_count()) as int),
            after.subrange((self.0.element_count() + self.1.element_count() + self.2.element_count() + self.3.element_count() + self.4.element_count() + self.5.element_count() + self.6.element_count() + self.7.element_count() + self.8.element_count() + self.9.element_count()) as int, (self.0.element_count() + self.1.element_count() + self.2.element_count() + self.3.element_count() + self.4.element_count() + self.5.element_count() + self.6.element_count() + self.7.element_count() + self.8.element_count() + self.9.element_count() + self.10.element_count()) as int),
        )
        &&& self.11.seq_rebuilds(
            &prev.11,
            before.subrange((prev.0.element_count() + prev.1.element_count() + prev.2.element_count() + prev.3.element_count() + prev.4.element_count() + prev.5.element_count() + prev.6.element_count() + prev.7.element_count() + prev.8.element_count() + prev.9.element_count() + prev.10.element_count()) as int, (prev.0.element_count() + prev.1.element_count() + prev.2.element_count() + prev.3.element_count() + prev.4.element_count() + prev.5.element_count() + prev.6.element_count() + prev.7.element_count() + prev.8.element_count() + prev.9.element_count() + prev.10.element_count() + prev.11.element_count()) as int),
            after.subrange((self.0.element_count() + self.1.element_count() + self.2.element_count() + self.3.element_count() + self.4.element_count() + self.5.element_count() + self.6.element_count() + self.7.element_count() + self.8.element_count() + self.9.element_count() + self.10.element_count()) as int, (self.0.element_count() + self.1.element_count() + self.2.element_count() + self.3.element_count() + self.4.element_count() + self.5.element_count() + self.6.element_count() + self.7.element_count() + self.8.element_count() + self.9.element_count() + self.10.element_count() + self.11.element_count()) as int),
        )
        &&& self.12.seq_rebuilds(
            &prev.12,
            before.subrange((prev.0.element_count() + prev.1.element_count() + prev.2.element_count() + prev.3.element_count() + prev.4.element_count() + prev.5.element_count() + prev.6.element_count() + prev.7.element_count() + prev.8.element_count() + prev.9.element_count() + prev.10.element_count() + prev.11.element_count()) as int, (prev.0.element_count() + prev.1.element_count() + prev.2.element_count() + prev.3.element_count() + prev.4.element_count() + prev.5.element_count() + prev.6.element_count() + prev.7.element_count() + prev.8.element_count() + prev.9.element_count() + prev.10.element_count() + prev.11.element_count() + prev.12.element_count()) as int),
            after.subrange((self.0.element_count() + self.1.element_count() + self.2.element_count() + self.3.element_count() + self.4.element_count() + self.5.element_count() + self.6.element_count() + self.7.element_count() + self.8.element_count() + self.9.element_count() + self.10.element_count() + self.11.element_count()) as int, (self.0.element_count() + self.1.element_count() + self.2.element_count() + self.3.element_count() + self.4.element_count() + self.5.element_count() + self.6.element_count() + self.7.element_count() + self.8.element_count() + self.9.element_count() + self.10.element_count() + self.11.element_count() + self.12.element_count()) as int),
        )
        &&& self.13.seq_rebuilds(
            &prev.13,
            before.subrange((prev.0.element_count() + prev.1.element_count() + prev.2.element_count() + prev.3.element_count() + prev.4.element_count() + prev.5.element_count() + prev.6.element_count() + prev.7.element_count() + prev.8.element_count() + prev.9.element_count() + prev.10.element_count() + prev.11.element_count() + prev.12.element_count()) as int, (prev.0.element_count() + prev.1.element_count() + prev.2.element_count() + prev.3.element_count() + prev.4.element_count() + prev.5.element_count() + prev.6.element_count() + prev.7.element_count() + prev.8.element_count() + prev.9.element_count() + prev.10.element_count() + prev.11.element_count() + prev.12.element_count() + prev.13.element_count()) as int),
            after.subrange((self.0.element_count() + self.1.element_count() + self.2.element_count() + self.3.element_count() + self.4.element_count() + self.5.element_count() + self.6.element_count() + self.7.element_count() + self.8.element_count() + self.9.element_count() + self.10.element_count() + self.11.element_count() + self.12.element_count()) as int, (self.0.element_count() + self.1.element_count() + self.2.element_count() + self.3.element_count() + self.4.element_count() + self.5.element_count() + self.6.element_count() + self.7.element_count() + self.8.element_count() + self.9.element_count() + self.10.element_count() + self.11.element_count() + self.12.element_count() + self.13.element_count()) as int),
        )
        &&& self.14.seq_rebuilds(
            &prev.14,
            before.subrange((prev.0.element_count() + prev.1.element_count() + prev.2.element_count() + prev.3.element_count() + prev.4.element_count() + prev.5.element_count() + prev.6.element_count() + prev.7.element_count() + prev.8.element_count() + prev.9.element_count() + prev.10.element_count() + prev.11.element_count() + prev.12.element_count() + prev.13.element_count()) as int, (prev.0.element_count() + prev.1.element_count() + prev.2.element_count() + prev.3.element_count() + prev.4.element_count() + prev.5.element_count() + prev.6.element_count() + prev.7.element_count() + prev.8.element_count() + prev.9.element_count() + prev.10.element_count() + prev.11.element_count() + prev.12.element_count() + prev.13.element_count() + prev.14.element_count()) as int),
            after.subrange((self.0.element_count() + self.1.element_count() + self.2.element_count() + self.3.element_count() + self.4.element_count() + self.5.element_count() + self.6.element_count() + self.7.element_count() + self.8.element_count() + self.9.element_count() + self.10.element_count() + self.11.element_count() + self.12.element_count() + self.13.element_count()) as int, (self.0.element_count() + self.1.element_count() + self.2.element_count() + self.3.element_count() + self.4.element_count() + self.5.element_count() + self.6.element_count() + self.7.element_count() + self.8.element_count() + self.9.element_count() + self.10.element_count() + self.11.element_count() + self.12.element_count() + self.13.element_count() + self.14.element_count()) as int),
        )
    }

    open spec fn seq_tears_down(&self, before: Seq<Element>) -> bool {
        &&& before.len() == self.element_count()
        &&& self.0.seq_tears_down(before.subrange(0int, (self.0.element_count()) as int))
        &&& self.1.seq_tears_down(before.subrange((self.0.element_count()) as int, (self.0.element_count() + self.1.element_count()) as int))
        &&& self.2.seq_tears_down(before.subrange((self.0.element_count() + self.1.element_count()) as int, (self.0.element_count() + self.1.element_count() + self.2.element_count()) as int))
        &&& self.3.seq_tears_down(before.subrange((self.0.element_count() + self.1.element_count() + self.2.element_count()) as int, (self.0.element_count() + self.1.element_count() + self.2.element_count() + self.3.element_count()) as int))
        &&& self.4.seq_tears_down(before.subrange((self.0.element_count() + self.1.element_count() + self.2.element_count() + self.3.element_count()) as int, (self.0.element_count() + self.1.element_count() + self.2.element_count() + self.3.element_count() + self.4.element_count()) as int))
        &&& self.5.seq_tears_down(before.subrange((self.0.element_count() + self.1.element_count() + self.2.element_count() + self.3.element_count() + self.4.element_count()) as int, (self.0.element_count() + self.1.element_count() + self.2.element_count() + self.3.element_count() + self.4.element_count() + self.5.element_count()) as int))
        &&& self.6.seq_tears_down(before.subrange((self.0.element_count() + self.1.element_count() + self.2.element_count() + self.3.element_count() + self.4.element_count() + self.5.element_count()) as int, (self.0.element_count() + self.1.element_count() + self.2.element_count() + self.3.element_count() + self.4.element_count() + self.5.element_count() + self.6.element_count()) as int))
        &&& self.7.seq_tears_down(before.subrange((self.0.element_count() + self.1.element_count() + self.2.element_count() + self.3.element_count() + self.4.element_count() + self.5.element_count() + self.6.element_count()) as int, (self.0.element_count() + self.1.element_count() + self.2.element_count() + self.3.element_count() + self.4.element_count() + self.5.element_count() + self.6.element_count() + self.7.element_count()) as int))
        &&& self.8.seq_tears_down(before.subrange((self.0.element_count() + self.1.element_count() + self.2.element_count() + self.3.element_count() + self.4.element_count() + self.5.element_count() + self.6.element_count() + self.7.element_count()) as int, (self.0.element_count() + self.1.element_count() + self.2.element_count() + self.3.element_count() + self.4.element_count() + self.5.element_count() + self.6.element_count() + self.7.element_count() + self.8.element_count()) as int))
        &&& self.9.seq_tears_down(before.subrange((self.0.element_count() + self.1.element_count() + self.2.element_count() + self.3.element_count() + self.4.element_count() + self.5.element_count() + self.6.element_count() + self.7.element_count() + self.8.element_count()) as int, (self.0.element_count() + self.1.element_count() + self.2.element_count() + self.3.element_count() + self.4.element_count() + self.5.element_count() + self.6.element_count() + self.7.element_count() + self.8.element_count() + self.9.element_count()) as int))
        &&& self.10.seq_tears_down(before.subrange((self.0.element_count() + self.1.element_count() + self.2.element_count() + self.3.element_count() + self.4.element_count() + self.5.element_count() + self.6.element_count() + self.7.element_count() + self.8.element_count() + self.9.element_count()) as int, (self.0.element_count() + self.1.element_count() + self.2.element_count() + self.3.element_count() + self.4.element_count() + self.5.element_count() + self.6.element_count() + self.7.element_count() + self.8.element_count() + self.9.element_count() + self.10.element_count()) as int))
        &&& self.11.seq_tears_down(before.subrange((self.0.element_count() + self.1.element_count() + self.2.element_count() + self.3.element_count() + self.4.element_count() + self.5.element_count() + self.6.element_count() + self.7.element_count() + self.8.element_count() + self.9.element_count() + self.10.element_count()) as int, (self.0.element_count() + self.1.element_count() + self.2.element_count() + self.3.element_count() + self.4.element_count() + self.5.element_count() + self.6.element_count() + self.7.element_count() + self.8.element_count() + self.9.element_count() + self.10.element_count() + self.11.element_count()) as int))
        &&& self.12.seq_tears_down(before.subrange((self.0.element_count() + self.1.element_count() + self.2.element_count() + self.3.element_count() + self.4.element_count() + self.5.element_count() + self.6.element_count() + self.7.element_count() + self.8.element_count() + self.9.element_count() + self.10.element_count() + self.11.element_count()) as int, (self.0.element_count() + self.1.element_count() + self.2.element_count() + self.3.element_count() + self.4.element_count() + self.5.element_count() + self.6.element_count() + self.7.element_count() + self.8.element_count() + self.9.element_count() + self.10.element_count() + self.11.element_count() + self.12.element_count()) as int))
        &&& self.13.seq_tears_down(before.subrange((self.0.element_count() + self.1.element_count() + self.2.element_count() + self.3.element_count() + self.4.element_count() + self.5.element_count() + self.6.element_count() + self.7.element_count() + self.8.element_count() + self.9.element_count() + self.10.element_count() + self.11.element_count() + self.12.element_count()) as int, (self.0.element_count() + self.1.element_count() + self.2.element_count() + self.3.element_count() + self.4.element_count() + self.5.element_count() + self.6.element_count() + self.7.element_count() + self.8.element_count() + self.9.element_count() + self.10.element_count() + self.11.element_count() + self.12.element_count() + self.13.element_count()) as int))
        &&& self.14.seq_tears_down(before.subrange((self.0.element_count() + self.1.element_count() + self.2.element_count() + self.3.element_count() + self.4.element_count() + self.5.element_count() + self.6.element_count() + self.7.element_count() + self.8.element_count() + self.9.element_count() + self.10.element_count() + self.11.element_count() + self.12.element_count() + self.13.element_count()) as int, (self.0.element_count() + self.1.element_count() + self.2.element_count() + self.3.element_count() + self.4.element_count() + self.5.element_count() + self.6.element_count() + self.7.element_count() + self.8.element_count() + self.9.element_count() + self.10.element_count() + self.11.element_count() + self.12.element_count() + self.13.element_count() + self.14.element_count()) as int))
    }

    #[verifier::spinoff_prover]
    #[verifier::rlimit(100)]
    fn seq_build(&self, elements: &mut Vec<Element>) {
        let ghost start = elements@;
        let ghost sl = start.len() as int;
        let ghost b0 = elements@;
        self.0.seq_build(elements);
        let ghost f0 = elements@;
        let ghost b1 = elements@;
        self.1.seq_build(elements);
        let ghost f1 = elements@;
        proof {
            lemma_prefix_kept(start, b1, elements@);
        }
        let ghost b2 = elements@;
        self.2.seq_build(elements);
        let ghost f2 = elements@;
        proof {
            lemma_prefix_kept(start, b2, elements@);
        }
        let ghost b3 = elements@;
        self.3.seq_build(elements);
        let ghost f3 = elements@;
        proof {
            lemma_prefix_kept(start, b3, elements@);
        }
        let ghost b4 = elements@;
        self.4.seq_build(elements);
        let ghost f4 = elements@;
        proof {
            lemma_prefix_kept(start, b4, elements@);
        }
        let ghost b5 = elements@;
        self.5.seq_build(elements);
        let ghost f5 = elements@;
        proof {
            lemma_prefix_kept(start, b5, elements@);
        }
        let ghost b6 = elements@;
        self.6.seq_build(elements);
        let ghost f6 = elements@;
        proof {
            lemma_prefix_kept(start, b6, elements@);
        }
        let ghost b7 = elements@;
        self.7.seq_build(elements);
        let ghost f7 = elements@;
        proof {
            lemma_prefix_kept(start, b7, elements@);
        }
        let ghost b8 = elements@;
        self.8.seq_build(elements);
        let ghost f8 = elements@;
        proof {
            lemma_prefix_kept(start, b8, elements@);
        }
        let ghost b9 = elements@;
        self.9.seq_build(elements);
        let ghost f9 = elements@;
        proof {
            lemma_prefix_kept(start, b9, elements@);
        }
        let ghost b10 = elements@;
        self.10.seq_build(elements);
        let ghost f10 = elements@;
        proof {
            lemma_prefix_kept(start, b10, elements@);
        }
        let ghost b11 = elements@;
        self.11.seq_build(elements);
        let ghost f11 = elements@;
        proof {
            lemma_prefix_kept(start, b11, elements@);
        }
        let ghost b12 = elements@;
        self.12.seq_build(elements);
        let ghost f12 = elements@;
        proof {
            lemma_prefix_kept(start, b12, elements@);
        }
        let ghost b13 = elements@;
        self.13.seq_build(elements);
        let ghost f13 = elements@;
        proof {
            lemma_prefix_kept(start, b13, elements@);
        }
        let ghost b14 = elements@;
        self.14.seq_build(elements);
        let ghost f14 = elements@;
        proof {
            lemma_prefix_kept(start, b14, elements@);
        }
        proof {
            let fin = elements@;
            assert(fin.take(fin.len() as int) =~= f14.take(fin.len() as int));
            assert(f14.take(b14.len() as int) == b14);
            assert(b14.take(b14.len() as int) =~= b14);
            lemma_take_link(fin, f14, b14, b14.len() as int, fin.len() as int);
            assert(b13.take(b13.len() as int) =~= b13);
            lemma_take_link(fin, f13, b13, b13.len() as int, b14.len() as int);
            assert(b12.take(b12.len() as int) =~= b12);
            lemma_take_link(fin, f12, b12, b12.len() as int, b13.len() as int);
            assert(b11.take(b11.len() as int) =~= b11);
            lemma_take_link(fin, f11, b11, b11.len() as int, b12.len() as int);
            assert(b10.take(b10.len() as int) =~= b10);
            lemma_take_link(fin, f10, b10, b10.len() as int, b11.len() as int);
            assert(b9.take(b9.len() as int) =~= b9);
            lemma_take_link(fin, f9, b9, b9.len() as int, b10.len() as int);
            assert(b8.take(b8.len() as int) =~= b8);
            lemma_take_link(fin, f8, b8, b8.len() as int, b9.len() as int);
            assert(b7.take(b7.len() as int) =~= b7);
            lemma_take_link(fin, f7, b7, b7.len() as int, b8.len() as int);
            assert(b6.take(b6.len() as int) =~= b6);
            lemma_take_link(fin, f6, b6, b6.len() as int, b7.len() as int);
            assert(b5.take(b5.len() as int) =~= b5);
            lemma_take_link(fin, f5, b5, b5.len() as int, b6.len() as int);
            assert(b4.take(b4.len() as int) =~= b4);
            lemma_take_link(fin, f4, b4, b4.len() as int, b5.len() as int);
            assert(b3.take(b3.len() as int) =~= b3);
            lemma_take_link(fin, f3, b3, b3.len() as int, b4.len() as int);
            assert(b2.take(b2.len() as int) =~= b2);
            lemma_take_link(fin, f2, b2, b2.len() as int, b3.len() as int);
            assert(b1.take(b1.len() as int) =~= b1);
            lemma_take_link(fin, f1, b1, b1.len() as int, b2.len() as int);
            assert(self.0.seq_builds(fin.skip(sl).subrange(0int, (self.0.element_count()) as int))) by {
                lemma_sub_stable(fin, f0, b1.len() as int, sl + 0int, sl + (self.0.element_count()) as int);
                assert(f0.skip(b0.len() as int) =~= f0.subrange(sl + 0int, sl + (self.0.element_count()) as int));
                assert(fin.skip(sl).subrange(0int, (self.0.element_count()) as int) =~= fin.subrange(sl + 0int, sl + (self.0.element_count()) as int));
            }
            assert(self.1.seq_builds(fin.skip(sl).subrange((self.0.element_count()) as int, (self.0.element_count() + self.1.element_count()) as int))) by {
                lemma_sub_stable(fin, f1, b2.len() as int, sl + (self.0.element_count()) as int, sl + (self.0.element_count() + self.1.element_count()) as int);
                assert(f1.skip(b1.len() as int) =~= f1.subrange(sl + (self.0.element_count()) as int, sl + (self.0.element_count() + self.1.element_count()) as int));
                assert(fin.skip(sl).subrange((self.0.element_count()) as int, (self.0.element_count() + self.1.element_count()) as int) =~= fin.subrange(sl + (self.0.element_count()) as int, sl + (self.0.element_count() + self.1.element_count()) as int));
            }
            assert(self.2.seq_builds(fin.skip(sl).subrange((self.0.element_count() + self.1.element_count()) as int, (self.0.element_count() + self.1.element_count() + self.2.element_count()) as int))) by {
                lemma_sub_stable(fin, f2, b3.len() as int, sl + (self.0.element_count() + self.1.element_count()) as int, sl + (self.0.element_count() + self.1.element_count() + self.2.element_count()) as int);
                assert(f2.skip(b2.len() as int) =~= f2.subrange(sl + (self.0.element_count() + self.1.element_count()) as int, sl + (self.0.element_count() + self.1.element_count() + self.2.element_count()) as int));
                assert(fin.skip(sl).subrange((self.0.element_count() + self.1.element_count()) as int, (self.0.element_count() + self.1.element_count() + self.2.element_count()) as int) =~= fin.subrange(sl + (self.0.element_count() + self.1.element_count()) as int, sl + (self.0.element_count() + self.1.element_count() + self.2.element_count()) as int));
            }
            assert(self.3.seq_builds(fin.skip(sl).subrange((self.0.element_count() + self.1.element_count() + self.2.element_count()) as int, (self.0.element_count() + self.1.element_count() + self.2.element_count() + self.3.element_count()) as int))) by {
                lemma_sub_stable(fin, f3, b4.len() as int, sl + (self.0.element_count() + self.1.element_count() + self.2.element_count()) as int, sl + (self.0.element_count() + self.1.element_count() + self.2.element_count() + self.3.element_count()) as int);
                assert(f3.skip(b3.len() as int) =~= f3.subrange(sl + (self.0.element_count() + self.1.element_count() + self.2.element_count()) as int, sl + (self.0.element_count() + self.1.element_count() + self.2.element_count() + self.3.element_count()) as int));
                assert(fin.skip(sl).subrange((self.0.element_count() + self.1.element_count() + self.2.element_count()) as int, (self.0.element_count() + self.1.element_count() + self.2.element_count() + self.3.element_count()) as int) =~= fin.subrange(sl + (self.0.element_count() + self.1.element_count() + self.2.element_count()) as int, sl + (self.0.element_count() + self.1.element_count() + self.2.element_count() + self.3.element_count()) as int));
            }
            assert(self.4.seq_builds(fin.skip(sl).subrange((self.0.element_count() + self.1.element_count() + self.2.element_count() + self.3.element_count()) as int, (self.0.element_count() + self.1.element_count() + self.2.element_count() + self.3.element_count() + self.4.element_count()) as int))) by {
                lemma_sub_stable(fin, f4, b5.len() as int, sl + (self.0.element_count() + self.1.element_count() + self.2.element_count() + self.3.element_count()) as int, sl + (self.0.element_count() + self.1.element_count() + self.2.element_count() + self.3.element_count() + self.4.element_count()) as int);
                assert(f4.skip(b4.len() as int) =~= f4.subrange(sl + (self.0.element_count() + self.1.element_count() + self.2.element_count() + self.3.element_count()) as int, sl + (self.0.element_count() + self.1.element_count() + self.2.element_count() + self.3.element_count() + self.4.element_count()) as int));
                assert(fin.skip(sl).subrange((self.0.element_count() + self.1.element_count() + self.2.element_count() + self.3.element_count()) as int, (self.0.element_count() + self.1.element_count() + self.2.element_count() + self.3.element_count() + self.4.element_count()) as int) =~= fin.subrange(sl + (self.0.element_count() + self.1.element_count() + self.2.element_count() + self.3.element_count()) as int, sl + (self.0.element_count() + self.1.element_count() + self.2.element_count() + self.3.element_count() + self.4.element_count()) as int));
            }
            assert(self.5.seq_builds(fin.skip(sl).subrange((self.0.element_count() + self.1.element_count() + self.2.element_count() + self.3.element_count() + self.4.element_count()) as int, (self.0.element_count() + self.1.element_count() + self.2.element_count() + self.3.element_count() + self.4.element_count() + self.5.element_count()) as int))) by {
                lemma_sub_stable(fin, f5, b6.len() as int, sl + (self.0.element_count() + self.1.element_count() + self.2.element_count() + self.3.element_count() + self.4.element_count()) as int, sl + (self.0.element_count() + self.1.element_count() + self.2.element_count() + self.3.element_count() + self.4.element_count() + self.5.element_count()) as int);
                assert(f5.skip(b5.len() as int) =~= f5.subrange(sl + (self.0.element_count() + self.1.element_count() + self.2.element_count() + self.3.element_count() + self.4.element_count()) as int, sl + (self.0.element_count() + self.1.element_count() + self.2.element_count() + self.3.element_count() + self.4.element_count() + self.5.element_count()) as int));
                assert(fin.skip(sl).subrange((self.0.element_count() + self.1.element_count() + self.2.element_count() + self.3.element_count() + self.4.element_count()) as int, (self.0.element_count() + self.1.element_count() + self.2.element_count() + self.3.element_count() + self.4.element_count() + self.5.element_count()) as int) =~= fin.subrange(sl + (self.0.element_count() + self.1.element_count() + self.2.element_count() + self.3.element_count() + self.4.element_count()) as int, sl + (self.0.element_count() + self.1.element_count() + self.2.element_count() + self.3.element_count() + self.4.element_count() + self.5.element_count()) as int));
            }
            assert(self.6.seq_builds(fin.skip(sl).subrange((self.0.element_count() + self.1.element_count() + self.2.element_count() + self.3.element_count() + self.4.element_count() + self.5.element_count()) as int, (self.0.element_count() + self.1.element_count() + self.2.element_count() + self.3.element_count() + self.4.element_count() + self.5.element_count() + self.6.element_count()) as int))) by {
                lemma_sub_stable(fin, f6, b7.len() as int, sl + (self.0.element_count() + self.1.element_count() + self.2.element_count() + self.3.element_count() + self.4.element_count() + self.5.element_count()) as int, sl + (self.0.element_count() + self.1.element_count() + self.2.element_count() + self.3.element_count() + self.4.element_count() + self.5.element_count() + self.6.element_count()) as int);
                assert(f6.skip(b6.len() as int) =~= f6.subrange(sl + (self.0.element_count() + self.1.element_count() + self.2.element_count() + self.3.element_count() + self.4.element_count() + self.5.element_count()) as int, sl + (self.0.element_count() + self.1.element_count() + self.2.element_count() + self.3.element_count() + self.4.element_count() + self.5.element_count() + self.6.element_count()) as int));
                assert(fin.skip(sl).subrange((self.0.element_count() + self.1.element_count() + self.2.element_count() + self.3.element_count() + self.4.element_count() + self.5.element_count()) as int, (self.0.element_count() + self.1.element_count() + self.2.element_count() + self.3.element_count() + self.4.element_count() + self.5.element_count() + self.6.element_count()) as int) =~= fin.subrange(sl + (self.0.element_count() + self.1.element_count() + self.2.element_count() + self.3.element_count() + self.4.element_count() + self.5.element_count()) as int, sl + (self.0.element_count() + self.1.element_count() + self.2.element_count() + self.3.element_count() + self.4.element_count() + self.5.element_count() + self.6.element_count()) as int));
            }
            assert(self.7.seq_builds(fin.skip(sl).subrange((self.0.element_count() + self.1.element_count() + self.2.element_count() + self.3.element_count() + self.4.element_count() + self.5.element_count() + self.6.element_count()) as int, (self.0.element_count() + self.1.element_count() + self.2.element_count() + self.3.element_count() + self.4.element_count() + self.5.element_count() + self.6.element_count() + self.7.element_count()) as int))) by {
                lemma_sub_stable(fin, f7, b8.len() as int, sl + (self.0.element_count() + self.1.element_count() + self.2.element_count() + self.3.element_count() + self.4.element_count() + self.5.element_count() + self.6.element_count()) as int, sl + (self.0.element_count() + self.1.element_count() + self.2.element_count() + self.3.element_count() + self.4.element_count() + self.5.element_count() + self.6.element_count() + self.7.element_count()) as int);
                assert(f7.skip(b7.len() as int) =~= f7.subrange(sl + (self.0.element_count() + self.1.element_count() + self.2.element_count() + self.3.element_count() + self.4.element_count() + self.5.element_count() + self.6.element_count()) as int, sl + (self.0.element_count() + self.1.element_count() + self.2.element_count() + self.3.element_count() + self.4.element_count() + self.5.element_count() + self.6.element_count() + self.7.element_count()) as int));
                assert(fin.skip(sl).subrange((self.0.element_count() + self.1.element_count() + self.2.element_count() + self.3.element_count() + self.4.element_count() + self.5.element_count() + self.6.element_count()) as int, (self.0.element_count() + self.1.element_count() + self.2.element_count() + self.3.element_count() + self.4.element_count() + self.5.element_count() + self.6.element_count() + self.7.element_count()) as int) =~= fin.subrange(sl + (self.0.element_count() + self.1.element_count() + self.2.element_count() + self.3.element_count() + self.4.element_count() + self.5.element_count() + self.6.element_count()) as int, sl + (self.0.element_count() + self.1.element_count() + self.2.element_count() + self.3.element_count() + self.4.element_count() + self.5.element_count() + self.6.element_count() + self.7.element_count()) as int));
            }
            assert(self.8.seq_builds(fin.skip(sl).subrange((self.0.element_count() + self.1.element_count() + self.2.element_count() + self.3.element_count() + self.4.element_count() + self.5.element_count() + self.6.element_count() + self.7.element_count()) as int, (self.0.element_count() + self.1.element_count() + self.2.element_count() + self.3.element_count() + self.4.element_count() + self.5.element_count() + self.6.element_count() + self.7.element_count() + self.8.element_count()) as int))) by {
                lemma_sub_stable(fin, f8, b9.len() as int, sl + (self.0.element_count() + self.1.element_count() + self.2.element_count() + self.3.element_count() + self.4.element_count() + self.5.element_count() + self.6.element_count() + self.7.element_count()) as int, sl + (self.0.element_count() + self.1.element_count() + self.2.element_count() + self.3.element_count() + self.4.element_count() + self.5.element_count() + self.6.element_count() + self.7.element_count() + self.8.element_count()) as int);
                assert(f8.skip(b8.len() as int) =~= f8.subrange(sl + (self.0.element_count() + self.1.element_count() + self.2.element_count() + self.3.element_count() + self.4.element_count() + self.5.element_count() + self.6.element_count() + self.7.element_count()) as int, sl + (self.0.element_count() + self.1.element_count() + self.2.element_count() + self.3.element_count() + self.4.element_count() + self.5.element_count() + self.6.element_count() + self.7.element_count() + self.8.element_count()) as int));
                assert(fin.skip(sl).subrange((self.0.element_count() + self.1.element_count() + self.2.element_count() + self.3.element_count() + self.4.element_count() + self.5.element_count() + self.6.element_count() + self.7.element_count()) as int, (self.0.element_count() + self.1.element_count() + self.2.element_count() + self.3.element_count() + self.4.element_count() + self.5.element_count() + self.6.element_count() + self.7.element_count() + self.8.element_count()) as int) =~= fin.subrange(sl + (self.0.element_count() + self.1.element_count() + self.2.element_count() + self.3.element_count() + self.4.element_count() + self.5.element_count() + self.6.element_count() + self.7.element_count()) as int, sl + (self.0.element_count() + self.1.element_count() + self.2.element_count() + self.3.element_count() + self.4.element_count() + self.5.element_count() + self.6.element_count() + self.7.element_count() + self.8.element_count()) as int));
            }
            assert(self.9.seq_builds(fin.skip(sl).subrange((self.0.element_count() + self.1.element_count() + self.2.element_count() + self.3.element_count() + self.4.element_count() + self.5.element_count() + self.6.element_count() + self.7.element_count() + self.8.element_count()) as int, (self.0.element_count() + self.1.element_count() + self.2.element_count() + self.3.element_count() + self.4.element_count() + self.5.element_count() + self.6.element_count() + self.7.element_count() + self.8.element_count() + self.9.element_count()) as int))) by {
                lemma_sub_stable(fin, f9, b10.len() as int, sl + (self.0.element_count() + self.1.element_count() + self.2.element_count() + self.3.element_count() + self.4.element_count() + self.5.element_count() + self.6.element_count() + self.7.element_count() + self.8.element_count()) as int, sl + (self.0.element_count() + self.1.element_count() + self.2.element_count() + self.3.element_count() + self.4.element_count() + self.5.element_count() + self.6.element_count() + self.7.element_count() + self.8.element_count() + self.9.element_count()) as int);
                assert(f9.skip(b9.len() as int) =~= f9.subrange(sl + (self.0.element_count() + self.1.element_count() + self.2.element_count() + self.3.element_count() + self.4.element_count() + self.5.element_count() + self.6.element_count() + self.7.element_count() + self.8.element_count()) as int, sl + (self.0.element_count() + self.1.element_count() + self.2.element_count() + self.3.element_count() + self.4.element_count() + self.5.element_count() + self.6.element_count() + self.7.element_count() + self.8.element_count() + self.9.element_count()) as int));
                assert(fin.skip(sl).subrange((self.0.element_count() + self.1.element_count() + self.2.element_count() + self.3.element_count() + self.4.element_count() + self.5.element_count() + self.6.element_count() + self.7.element_count() + self.8.element_count()) as int, (self.0.element_count() + self.1.element_count() + self.2.element_count() + self.3.element_count() + self.4.element_count() + self.5.element_count() + self.6.element_count() + self.7.element_count() + self.8.element_count() + self.9.element_count()) as int) =~= fin.subrange(sl + (self.0.element_count() + self.1.element_count() + self.2.element_count() + self.3.element_count() + self.4.element_count() + self.5.element_count() + self.6.element_count() + self.7.element_count() + self.8.element_count()) as int, sl + (self.0.element_count() + self.1.element_count() + self.2.element_count() + self.3.element_count() + self.4.element_count() + self.5.element_count() + self.6.element_count() + self.7.element_count() + self.8.element_count() + self.9.element_count()) as int));
            }
            assert(self.10.seq_builds(fin.skip(sl).subrange((self.0.element_count() + self.1.element_count() + self.2.element_count() + self.3.element_count() + self.4.element_count() + self.5.element_count() + self.6.element_count() + self.7.element_count() + self.8.element_count() + self.9.element_count()) as int, (self.0.element_count() + self.1.element_count() + self.2.element_count() + self.3.element_count() + self.4.element_count() + self.5.element_count() + self.6.element_count() + self.7.element_count() + self.8.element_count() + self.9.element_count() + self.10.element_count()) as int))) by {
                lemma_sub_stable(fin, f10, b11.len() as int, sl + (self.0.element_count() + self.1.element_count() + self.2.element_count() + self.3.element_count() + self.4.element_count() + self.5.element_count() + self.6.element_count() + self.7.element_count() + self.8.element_count() + self.9.element_count()) as int, sl + (self.0.element_count() + self.1.element_count() + self.2.element_count() + self.3.element_count() + self.4.element_count() + self.5.element_count() + self.6.element_count() + self.7.element_count() + self.8.element_count() + self.9.element_count() + self.10.element_count()) as int);
                assert(f10.skip(b10.len() as int) =~= f10.subrange(sl + (self.0.element_count() + self.1.element_count() + self.2.element_count() + self.3.element_count() + self.4.element_count() + self.5.element_count() + self.6.element_count() + self.7.element_count() + self.8.element_count() + self.9.element_count()) as int, sl + (self.0.element_count() + self.1.element_count() + self.2.element_count() + self.3.element_count() + self.4.element_count() + self.5.element_count() + self.6.element_count() + self.7.element_count() + self.8.element_count() + self.9.element_count() + self.10.element_count()) as int));
                assert(fin.skip(sl).subrange((self.0.element_count() + self.1.element_count() + self.2.element_count() + self.3.element_count() + self.4.element_count() + self.5.element_count() + self.6.element_count() + self.7.element_count() + self.8.element_count() + self.9.element_count()) as int, (self.0.element_count() + self.1.element_count() + self.2.element_count() + self.3.element_count() + self.4.element_count() + self.5.element_count() + self.6.element_count() + self.7.element_count() + self.8.element_count() + self.9.element_count() + self.10.element_count()) as int) =~= fin.subrange(sl + (self.0.element_count() + self.1.element_count() + self.2.element_count() + self.3.element_count() + self.4.element_count() + self.5.element_count() + self.6.element_count() + self.7.element_count() + self.8.element_count() + self.9.element_count()) as int, sl + (self.0.element_count() + self.1.element_count() + self.2.element_count() + self.3.element_count() + self.4.element_count() + self.5.element_count() + self.6.element_count() + self.7.element_count() + self.8.element_count() + self.9.element_count() + self.10.element_count()) as int));
            }
            assert(self.11.seq_builds(fin.skip(sl).subrange((self.0.element_count() + self.1.element_count() + self.2.element_count() + self.3.element_count() + self.4.element_count() + self.5.element_count() + self.6.element_count() + self.7.element_count() + self.8.element_count() + self.9.element_count() + self.10.element_count()) as int, (self.0.element_count() + self.1.element_count() + self.2.element_count() + self.3.element_count() + self.4.element_count() + self.5.element_count() + self.6.element_count() + self.7.element_count() + self.8.element_count() + self.9.element_count() + self.10.element_count() + self.11.element_count()) as int))) by {
                lemma_sub_stable(fin, f11, b12.len() as int, sl + (self.0.element_count() + self.1.element_count() + self.2.element_count() + self.3.element_count() + self.4.element_count() + self.5.element_count() + self.6.element_count() + self.7.element_count() + self.8.element_count() + self.9.element_count() + self.10.element_count()) as int, sl + (self.0.element_count() + self.1.element_count() + self.2.element_count() + self.3.element_count() + self.4.element_count() + self.5.element_count() + self.6.element_count() + self.7.element_count() + self.8.element_count() + self.9.element_count() + self.10.element_count() + self.11.element_count()) as int);
                assert(f11.skip(b11.len() as int) =~= f11.subrange(sl + (self.0.element_count() + self.1.element_count() + self.2.element_count() + self.3.element_count() + self.4.element_count() + self.5.element_count() + self.6.element_count() + self.7.element_count() + self.8.element_count() + self.9.element_count() + self.10.element_count()) as int, sl + (self.0.element_count() + self.1.element_count() + self.2.element_count() + self.3.element_count() + self.4.element_count() + self.5.element_count() + self.6.element_count() + self.7.element_count() + self.8.element_count() + self.9.element_count() + self.10.element_count() + self.11.element_count()) as int));
                assert(fin.skip(sl).subrange((self.0.element_count() + self.1.element_count() + self.2.element_count() + self.3.element_count() + self.4.element_count() + self.5.element_count() + self.6.element_count() + self.7.element_count() + self.8.element_count() + self.9.element_count() + self.10.element_count()) as int, (self.0.element_count() + self.1.element_count() + self.2.element_count() + self.3.element_count() + self.4.element_count() + self.5.element_count() + self.6.element_count() + self.7.element_count() + self.8.element_count() + self.9.element_count() + self.10.element_count() + self.11.element_count()) as int) =~= fin.subrange(sl + (self.0.element_count() + self.1.element_count() + self.2.element_count() + self.3.element_count() + self.4.element_count() + self.5.element_count() + self.6.element_count() + self.7.element_count() + self.8.element_count() + self.9.element_count() + self.10.element_count()) as int, sl + (self.0.element_count() + self.1.element_count() + self.2.element_count() + self.3.element_count() + self.4.element_count() + self.5.element_count() + self.6.element_count() + self.7.element_count() + self.8.element_count() + self.9.element_count() + self.10.element_count() + self.11.element_count()) as int));
            }
            assert(self.12.seq_builds(fin.skip(sl).subrange((self.0.element_count() + self.1.element_count() + self.2.element_count() + self.3.element_count() + self.4.element_count() + self.5.element_count() + self.6.element_count() + self.7.element_count() + self.8.element_count() + self.9.element_count() + self.10.element_count() + self.11.element_count()) as int, (self.0.element_count() + self.1.element_count() + self.2.element_count() + self.3.element_count() + self.4.element_count() + self.5.element_count() + self.6.element_count() + self.7.element_count() + self.8.element_count() + self.9.element_count() + self.10.element_count() + self.11.element_count() + self.12.element_count()) as int))) by {
                lemma_sub_stable(fin, f12, b13.len() as int, sl + (self.0.element_count() + self.1.element_count() + self.2.element_count() + self.3.element_count() + self.4.element_count() + self.5.element_count() + self.6.element_count() + self.7.element_count() + self.8.element_count() + self.9.element_count() + self.10.element_count() + self.11.element_count()) as int, sl + (self.0.element_count() + self.1.element_count() + self.2.element_count() + self.3.element_count() + self.4.element_count() + self.5.element_count() + self.6.element_count() + self.7.element_count() + self.8.element_count() + self.9.element_count() + self.10.element_count() + self.11.element_count() + self.12.element_count()) as int);
                assert(f12.skip(b12.len() as int) =~= f12.subrange(sl + (self.0.element_count() + self.1.element_count() + self.2.element_count() + self.3.element_count() + self.4.element_count() + self.5.element_count() + self.6.element_count() + self.7.element_count() + self.8.element_count() + self.9.element_count() + self.10.element_count() + self.11.element_count()) as int, sl + (self.0.element_count() + self.1.element_count() + self.2.element_count() + self.3.element_count() + self.4.element_count() + self.5.element_count() + self.6.element_count() + self.7.element_count() + self.8.element_count() + self.9.element_count() + self.10.element_count() + self.11.element_count() + self.12.element_count()) as int));
                assert(fin.skip(sl).subrange((self.0.element_count() + self.1.element_count() + self.2.element_count() + self.3.element_count() + self.4.element_count() + self.5.element_count() + self.6.element_count() + self.7.element_count() + self.8.element_count() + self.9.element_count() + self.10.element_count() + self.11.element_count()) as int, (self.0.element_count() + self.1.element_count() + self.2.element_count() + self.3.element_count() + self.4.element_count() + self.5.element_count() + self.6.element_count() + self.7.element_count() + self.8.element_count() + self.9.element_count() + self.10.element_count() + self.11.element_count() + self.12.element_count()) as int) =~= fin.subrange(sl + (self.0.element_count() + self.1.element_count() + self.2.element_count() + self.3.element_count() + self.4.element_count() + self.5.element_count() + self.6.element_count() + self.7.element_count() + self.8.element_count() + self.9.element_count() + self.10.element_count() + self.11.element_count()) as int, sl + (self.0.element_count() + self.1.element_count() + self.2.element_count() + self.3.element_count() + self.4.element_count() + self.5.element_count() + self.6.element_count() + self.7.element_count() + self.8.element_count() + self.9.element_count() + self.10.element_count() + self.11.element_count() + self.12.element_count()) as int));
            }
            assert(self.13.seq_builds(fin.skip(sl).subrange((self.0.element_count() + self.1.element_count() + self.2.element_count() + self.3.element_count() + self.4.element_count() + self.5.element_count() + self.6.element_count() + self.7.element_count() + self.8.element_count() + self.9.element_count() + self.10.element_count() + self.11.element_count() + self.12.element_count()) as int, (self.0.element_count() + self.1.element_count() + self.2.element_count() + self.3.element_count() + self.4.element_count() + self.5.element_count() + self.6.element_count() + self.7.element_count() + self.8.element_count() + self.9.element_count() + self.10.element_count() + self.11.element_count() + self.12.element_count() + self.13.element_count()) as int))) by {
                lemma_sub_stable(fin, f13, b14.len() as int, sl + (self.0.element_count() + self.1.element_count() + self.2.element_count() + self.3.element_count() + self.4.element_count() + self.5.element_count() + self.6.element_count() + self.7.element_count() + self.8.element_count() + self.9.element_count() + self.10.element_count() + self.11.element_count() + self.12.element_count()) as int, sl + (self.0.element_count() + self.1.element_count() + self.2.element_count() + self.3.element_count() + self.4.element_count() + self.5.element_count() + self.6.element_count() + self.7.element_count() + self.8.element_count() + self.9.element_count() + self.10.element_count() + self.11.element_count() + self.12.element_count() + self.13.element_count()) as int);
                assert(f13.skip(b13.len() as int) =~= f13.subrange(sl + (self.0.element_count() + self.1.element_count() + self.2.element_count() + self.3.element_count() + self.4.element_count() + self.5.element_count() + self.6.element_count() + self.7.element_count() + self.8.element_count() + self.9.element_count() + self.10.element_count() + self.11.element_count() + self.12.element_count()) as int, sl + (self.0.element_count() + self.1.element_count() + self.2.element_count() + self.3.element_count() + self.4.element_count() + self.5.element_count() + self.6.element_count() + self.7.element_count() + self.8.element_count() + self.9.element_count() + self.10.element_count() + self.11.element_count() + self.12.element_count() + self.13.element_count()) as int));
                assert(fin.skip(sl).subrange((self.0.element_count() + self.1.element_count() + self.2.element_count() + self.3.element_count() + self.4.element_count() + self.5.element_count() + self.6.element_count() + self.7.element_count() + self.8.element_count() + self.9.element_count() + self.10.element_count() + self.11.element_count() + self.12.element_count()) as int, (self.0.element_count() + self.1.element_count() + self.2.element_count() + self.3.element_count() + self.4.element_count() + self.5.element_count() + self.6.element_count() + self.7.element_count() + self.8.element_count() + self.9.element_count() + self.10.element_count() + self.11.element_count() + self.12.element_count() + self.13.element_count()) as int) =~= fin.subrange(sl + (self.0.element_count() + self.1.element_count() + self.2.element_count() + self.3.element_count() + self.4.element_count() + self.5.element_count() + self.6.element_count() + self.7.element_count() + self.8.element_count() + self.9.element_count() + self.10.element_count() + self.11.element_count() + self.12.element_count()) as int, sl + (self.0.element_count() + self.1.element_count() + self.2.element_count() + self.3.element_count() + self.4.element_count() + self.5.element_count() + self.6.element_count() + self.7.element_count() + self.8.element_count() + self.9.element_count() + self.10.element_count() + self.11.element_count() + self.12.element_count() + self.13.element_count()) as int));
            }
            assert(self.14.seq_builds(fin.skip(sl).subrange((self.0.element_count() + self.1.element_count() + self.2.element_count() + self.3.element_count() + self.4.element_count() + self.5.element_count() + self.6.element_count() + self.7.element_count() + self.8.element_count() + self.9.element_count() + self.10.element_count() + self.11.element_count() + self.12.element_count() + self.13.element_count()) as int, (self.0.element_count() + self.1.element_count() + self.2.element_count() + self.3.element_count() + self.4.element_count() + self.5.element_count() + self.6.element_count() + self.7.element_count() + self.8.element_count() + self.9.element_count() + self.10.element_count() + self.11.element_count() + self.12.element_count() + self.13.element_count() + self.14.element_count()) as int))) by {
                assert(f14.skip(b14.len() as int) =~= f14.subrange(sl + (self.0.element_count() + self.1.element_count() + self.2.element_count() + self.3.element_count() + self.4.element_count() + self.5.element_count() + self.6.element_count() + self.7.element_count() + self.8.element_count() + self.9.element_count() + self.10.element_count() + self.11.element_count() + self.12.element_count() + self.13.element_count()) as int, sl + (self.0.element_count() + self.1.element_count() + self.2.element_count() + self.3.element_count() + self.4.element_count() + self.5.element_count() + self.6.element_count() + self.7.element_count() + self.8.element_count() + self.9.element_count() + self.10.element_count() + self.11.element_count() + self.12.element_count() + self.13.element_count() + self.14.element_count()) as int));
                assert(fin.skip(sl).subrange((self.0.element_count() + self.1.element_count() + self.2.element_count() + self.3.element_count() + self.4.element_count() + self.5.element_count() + self.6.element_count() + self.7.element_count() + self.8.element_count() + self.9.element_count() + self.10.element_count() + self.11.element_count() + self.12.element_count() + self.13.element_count()) as int, (self.0.element_count() + self.1.element_count() + self.2.element_count() + self.3.element_count() + self.4.element_count() + self.5.element_count() + self.6.element_count() + self.7.element_count() + self.8.element_count() + self.9.element_count() + self.10.element_count() + self.11.element_count() + self.12.element_count() + self.13.element_count() + self.14.element_count()) as int) =~= fin.subrange(sl + (self.0.element_count() + self.1.element_count() + self.2.element_count() + self.3.element_count() + self.4.element_count() + self.5.element_count() + self.6.element_count() + self.7.element_count() + self.8.element_count() + self.9.element_count() + self.10.element_count() + self.11.element_count() + self.12.element_count() + self.13.element_count()) as int, sl + (self.0.element_count() + self.1.element_count() + self.2.element_count() + self.3.element_count() + self.4.element_count() + self.5.element_count() + self.6.element_count() + self.7.element_count() + self.8.element_count() + self.9.element_count() + self.10.element_count() + self.11.element_count() + self.12.element_count() + self.13.element_count() + self.14.element_count()) as int));
            }
        }
    }

    #[verifier::spinoff_prover]
    #[verifier::rlimit(100)]
    fn seq_rebuild<Splice: ElementSplice<Element>>(&self, prev: &Self, elements: &mut Splice) {
        let ghost a = elements.items();
        let ghost c0 = elements.cursor();
        proof {
            lemma_kept_refl(a, c0);
        }
        let ghost b0 = elements.items();
        let ghost cb0 = elements.cursor();
        proof {
            assert(b0.skip(cb0 as int).len() == a.skip((c0 + 0) as int).len());
        }
        self.0.seq_rebuild(&prev.0, elements);
        let ghost f0 = elements.items();
        proof {
            assert(self.0.seq_rebuilds(
                &prev.0,
                a.subrange(c0 + 0int, c0 + (prev.0.element_count()) as int),
                f0.subrange(cb0 as int, (cb0 + self.0.element_count()) as int),
            )) by {
                lemma_sub_shift(a, b0, (c0 + 0) as int, cb0 as int, prev.0.element_count() as int);
            }
            lemma_kept_compose(a, c0, 0, b0, cb0, prev.0.element_count(), elements.items(), elements.cursor());
        }
        let ghost b1 = elements.items();
        let ghost cb1 = elements.cursor();
        proof {
            assert(b1.skip(cb1 as int).len() == a.skip((c0 + (prev.0.element_count())) as int).len());
        }
        self.1.seq_rebuild(&prev.1, elements);
        let ghost f1 = elements.items();
        proof {
            assert(self.1.seq_rebuilds(
                &prev.1,
                a.subrange(c0 + (prev.0.element_count()) as int, c0 + (prev.0.element_count() + prev.1.element_count()) as int),
                f1.subrange(cb1 as int, (cb1 + self.1.element_count()) as int),
            )) by {
                lemma_sub_shift(a, b1, (c0 + (prev.0.element_count())) as int, cb1 as int, prev.1.element_count() as int);
            }
            lemma_kept_compose(a, c0, (prev.0.element_count()), b1, cb1, prev.1.element_count(), elements.items(), elements.cursor());
        }
        let ghost b2 = elements.items();
        let ghost cb2 = elements.cursor();
        proof {
            assert(b2.skip(cb2 as int).len() == a.skip((c0 + (prev.0.element_count() + prev.1.element_count())) as int).len());
        }
        self.2.seq_rebuild(&prev.2, elements);
        let ghost f2 = elements.items();
        proof {
            assert(self.2.seq_rebuilds(
                &prev.2,
                a.subrange(c0 + (prev.0.element_count() + prev.1.element_count()) as int, c0 + (prev.0.element_count() + prev.1.element_count() + prev.2.element_count()) as int),
                f2.subrange(cb2 as int, (cb2 + self.2.element_count()) as int),
            )) by {
                lemma_sub_shift(a, b2, (c0 + (prev.0.element_count() + prev.1.element_count())) as int, cb2 as int, prev.2.element_count() as int);
            }
            lemma_kept_compose(a, c0, (prev.0.element_count() + prev.1.element_count()), b2, cb2, prev.2.element_count(), elements.items(), elements.cursor());
        }
        let ghost b3 = elements.items();
        let ghost cb3 = elements.cursor();
        proof {
            assert(b3.skip(cb3 as int).len() == a.skip((c0 + (prev.0.element_count() + prev.1.element_count() + prev.2.element_count())) as int).len());
        }
        self.3.seq_rebuild(&prev.3, elements);
        let ghost f3 = elements.items();
        proof {
            assert(self.3.seq_rebuilds(
                &prev.3,
                a.subrange(c0 + (prev.0.element_count() + prev.1.element_count() + prev.2.element_count()) as int, c0 + (prev.0.element_count() + prev.1.element_count() + prev.2.element_count() + prev.3.element_count()) as int),
                f3.subrange(cb3 as int, (cb3 + self.3.element_count()) as int),
            )) by {
                lemma_sub_shift(a, b3, (c0 + (prev.0.element_count() + prev.1.element_count() + prev.2.element_count())) as int, cb3 as int, prev.3.element_count() as int);
            }
            lemma_kept_compose(a, c0, (prev.0.element_count() + prev.1.element_count() + prev.2.element_count()), b3, cb3, prev.3.element_count(), elements.items(), elements.cursor());
        }
        let ghost b4 = elements.items();
        let ghost cb4 = elements.cursor();
        proof {
            assert(b4.skip(cb4 as int).len() == a.skip((c0 + (prev.0.element_count() + prev.1.element_count() + prev.2.element_count() + prev.3.element_count())) as int).len());
        }
        self.4.seq_rebuild(&prev.4, elements);
        let ghost f4 = elements.items();
        proof {
            assert(self.4.seq_rebuilds(
                &prev.4,
                a.subrange(c0 + (prev.0.element_count() + prev.1.element_count() + prev.2.element_count() + prev.3.element_count()) as int, c0 + (prev.0.element_count() + prev.1.element_count() + prev.2.element_count() + prev.3.element_count() + prev.4.element_count()) as int),
                f4.subrange(cb4 as int, (cb4 + self.4.element_count()) as int),
            )) by {
                lemma_sub_shift(a, b4, (c0 + (prev.0.element_count() + prev.1.element_count() + prev.2.element_count() + prev.3.element_count())) as int, cb4 as int, prev.4.element_count() as int);
            }
            lemma_kept_compose(a, c0, (prev.0.element_count() + prev.1.element_count() + prev.2.element_count() + prev.3.element_count()), b4, cb4, prev.4.element_count(), elements.items(), elements.cursor());
        }
        let ghost b5 = elements.items();
        let ghost cb5 = elements.cursor();
        proof {
            assert(b5.skip(cb5 as int).len() == a.skip((c0 + (prev.0.element_count() + prev.1.element_count() + prev.2.element_count() + prev.3.element_count() + prev.4.element_count())) as int).len());
        }
        self.5.seq_rebuild(&prev.5, elements);
        let ghost f5 = elements.items();
        proof {
            assert(self.5.seq_rebuilds(
                &prev.5,
                a.subrange(c0 + (prev.0.element_count() + prev.1.element_count() + prev.2.element_count() + prev.3.element_count() + prev.4.element_count()) as int, c0 + (prev.0.element_count() + prev.1.element_count() + prev.2.element_count() + prev.3.element_count() + prev.4.element_count() + prev.5.element_count()) as int),
                f5.subrange(cb5 as int, (cb5 + self.5.element_count()) as int),
            )) by {
                lemma_sub_shift(a, b5, (c0 + (prev.0.element_count() + prev.1.element_count() + prev.2.element_count() + prev.3.element_count() + prev.4.element_count())) as int, cb5 as int, prev.5.element_count() as int);
            }
            lemma_kept_compose(a, c0, (prev.0.element_count() + prev.1.element_count() + prev.2.element_count() + prev.3.element_count() + prev.4.element_count()), b5, cb5, prev.5.element_count(), elements.items(), elements.cursor());
        }
        let ghost b6 = elements.items();
        let ghost cb6 = elements.cursor();
        proof {
            assert(b6.skip(cb6 as int).len() == a.skip((c0 + (prev.0.element_count() + prev.1.element_count() + prev.2.element_count() + prev.3.element_count() + prev.4.element_count() + prev.5.element_count())) as int).len());
        }
        self.6.seq_rebuild(&prev.6, elements);
        let ghost f6 = elements.items();
        proof {
            assert(self.6.seq_rebuilds(
                &prev.6,
                a.subrange(c0 + (prev.0.element_count() + prev.1.element_count() + prev.2.element_count() + prev.3.element_count() + prev.4.element_count() + prev.5.element_count()) as int, c0 + (prev.0.element_count() + prev.1.element_count() + prev.2.element_count() + prev.3.element_count() + prev.4.element_count() + prev.5.element_count() + prev.6.element_count()) as int),
                f6.subrange(cb6 as int, (cb6 + self.6.element_count()) as int),
            )) by {
                lemma_sub_shift(a, b6, (c0 + (prev.0.element_count() + prev.1.element_count() + prev.2.element_count() + prev.3.element_count() + prev.4.element_count() + prev.5.element_count())) as int, cb6 as int, prev.6.element_count() as int);
            }
            lemma_kept_compose(a, c0, (prev.0.element_count() + prev.1.element_count() + prev.2.element_count() + prev.3.element_count() + prev.4.element_count() + prev.5.element_count()), b6, cb6, prev.6.element_count(), elements.items(), elements.cursor());
        }
        let ghost b7 = elements.items();
        let ghost cb7 = elements.cursor();
        proof {
            assert(b7.skip(cb7 as int).len() == a.skip((c0 + (prev.0.element_count() + prev.1.element_count() + prev.2.element_count() + prev.3.element_count() + prev.4.element_count() + prev.5.element_count() + prev.6.element_count())) as int).len());
        }
        self.7.seq_rebuild(&prev.7, elements);
        let ghost f7 = elements.items();
        proof {
            assert(self.7.seq_rebuilds(
                &prev.7,
                a.subrange(c0 + (prev.0.element_count() + prev.1.element_count() + prev.2.element_count() + prev.3.element_count() + prev.4.element_count() + prev.5.element_count() + prev.6.element_count()) as int, c0 + (prev.0.element_count() + prev.1.element_count() + prev.2.element_count() + prev.3.element_count() + prev.4.element_count() + prev.5.element_count() + prev.6.element_count() + prev.7.element_count()) as int),
                f7.subrange(cb7 as int, (cb7 + self.7.element_count()) as int),
            )) by {
                lemma_sub_shift(a, b7, (c0 + (prev.0.element_count() + prev.1.element_count() + prev.2.element_count() + prev.3.element_count() + prev.4.element_count() + prev.5.element_count() + prev.6.element_count())) as int, cb7 as int, prev.7.element_count() as int);
            }
            lemma_kept_compose(a, c0, (prev.0.element_count() + prev.1.element_count() + prev.2.element_count() + prev.3.element_count() + prev.4.element_count() + prev.5.element_count() + prev.6.element_count()), b7, cb7, prev.7.element_count(), elements.items(), elements.cursor());
        }
        let ghost b8 = elements.items();
        let ghost cb8 = elements.cursor();
        proof {
            assert(b8.skip(cb8 as int).len() == a.skip((c0 + (prev.0.element_count() + prev.1.element_count() + prev.2.element_count() + prev.3.element_count() + prev.4.element_count() + prev.5.element_count() + prev.6.element_count() + prev.7.element_count())) as int).len());
        }
        self.8.seq_rebuild(&prev.8, elements);
        let ghost f8 = elements.items();
        proof {
            assert(self.8.seq_rebuilds(
                &prev.8,
                a.subrange(c0 + (prev.0.element_count() + prev.1.element_count() + prev.2.element_count() + prev.3.element_count() + prev.4.element_count() + prev.5.element_count() + prev.6.element_count() + prev.7.element_count()) as int, c0 + (prev.0.element_count() + prev.1.element_count() + prev.2.element_count() + prev.3.element_count() + prev.4.element_count() + prev.5.element_count() + prev.6.element_count() + prev.7.element_count() + prev.8.element_count()) as int),
                f8.subrange(cb8 as int, (cb8 + self.8.element_count()) as int),
            )) by {
                lemma_sub_shift(a, b8, (c0 + (prev.0.element_count() + prev.1.element_count() + prev.2.element_count() + prev.3.element_count() + prev.4.element_count() + prev.5.element_count() + prev.6.element_count() + prev.7.element_count())) as int, cb8 as int, prev.8.element_count() as int);
            }
            lemma_kept_compose(a, c0, (prev.0.element_count() + prev.1.element_count() + prev.2.element_count() + prev.3.element_count() + prev.4.element_count() + prev.5.element_count() + prev.6.element_count() + prev.7.element_count()), b8, cb8, prev.8.element_count(), elements.items(), elements.cursor());
        }
        let ghost b9 = elements.items();
        let ghost cb9 = elements.cursor();
        proof {
            assert(b9.skip(cb9 as int).len() == a.skip((c0 + (prev.0.element_count() + prev.1.element_count() + prev.2.element_count() + prev.3.element_count() + prev.4.element_count() + prev.5.element_count() + prev.6.element_count() + prev.7.element_count() + prev.8.element_count())) as int).len());
        }
        self.9.seq_rebuild(&prev.9, elements);
        let ghost f9 = elements.items();
        proof {
            assert(self.9.seq_rebuilds(
                &prev.9,
                a.subrange(c0 + (prev.0.element_count() + prev.1.element_count() + prev.2.element_count() + prev.3.element_count() + prev.4.element_count() + prev.5.element_count() + prev.6.element_count() + prev.7.element_count() + prev.8.element_count()) as int, c0 + (prev.0.element_count() + prev.1.element_count() + prev.2.element_count() + prev.3.element_count() + prev.4.element_count() + prev.5.element_count() + prev.6.element_count() + prev.7.element_count() + prev.8.element_count() + prev.9.element_count()) as int),
                f9.subrange(cb9 as int, (cb9 + self.9.element_count()) as int),
            )) by {
                lemma_sub_shift(a, b9, (c0 + (prev.0.element_count() + prev.1.element_count() + prev.2.element_count() + prev.3.element_count() + prev.4.element_count() + prev.5.element_count() + prev.6.element_count() + prev.7.element_count() + prev.8.element_count())) as int, cb9 as int, prev.9.element_count() as int);
            }
            lemma_kept_compose(a, c0, (prev.0.element_count() + prev.1.element_count() + prev.2.element_count() + prev.3.element_count() + prev.4.element_count() + prev.5.element_count() + prev.6.element_count() + prev.7.element_count() + prev.8.element_count()), b9, cb9, prev.9.element_count(), elements.items(), elements.cursor());
        }
        let ghost b10 = elements.items();
        let ghost cb10 = elements.cursor();
        proof {
            assert(b10.skip(cb10 as int).len() == a.skip((c0 + (prev.0.element_count() + prev.1.element_count() + prev.2.element_count() + prev.3.element_count() + prev.4.element_count() + prev.5.element_count() + prev.6.element_count() + prev.7.element_count() + prev.8.element_count() + prev.9.element_count())) as int).len());
        }
        self.10.seq_rebuild(&prev.10, elements);
        let ghost f10 = elements.items();
        proof {
            assert(self.10.seq_rebuilds(
                &prev.10,
                a.subrange(c0 + (prev.0.element_count() + prev.1.element_count() + prev.2.element_count() + prev.3.element_count() + prev.4.element_count() + prev.5.element_count() + prev.6.element_count() + prev.7.element_count() + prev.8.element_count() + prev.9.element_count()) as int, c0 + (prev.0.element_count() + prev.1.element_count() + prev.2.element_count() + prev.3.element_count() + prev.4.element_count() + prev.5.element_count() + prev.6.element_count() + prev.7.element_count() + prev.8.element_count() + prev.9.element_count() + prev.10.element_count()) as int),
                f10.subrange(cb10 as int, (cb10 + self.10.element_count()) as int),
            )) by {
                lemma_sub_shift(a, b10, (c0 + (prev.0.element_count() + prev.1.element_count() + prev.2.element_count() + prev.3.element_count() + prev.4.element_count() + prev.5.element_count() + prev.6.element_count() + prev.7.element_count() + prev.8.element_count() + prev.9.element_count())) as int, cb10 as int, prev.10.element_count() as int);
            }
            lemma_kept_compose(a, c0, (prev.0.element_count() + prev.1.element_count() + prev.2.element_count() + prev.3.element_count() + prev.4.element_count() + prev.5.element_count() + prev.6.element_count() + prev.7.element_count() + prev.8.element_count() + prev.9.element_count()), b10, cb10, prev.10.element_count(), elements.items(), elements.cursor());
        }
        let ghost b11 = elements.items();
        let ghost cb11 = elements.cursor();
        proof {
            assert(b11.skip(cb11 as int).len() == a.skip((c0 + (prev.0.element_count() + prev.1.element_count() + prev.2.element_count() + prev.3.element_count() + prev.4.element_count() + prev.5.element_count() + prev.6.element_count() + prev.7.element_count() + prev.8.element_count() + prev.9.element_count() + prev.10.element_count())) as int).len());
        }
        self.11.seq_rebuild(&prev.11, elements);
        let ghost f11 = elements.items();
        proof {
            assert(self.11.seq_rebuilds(
                &prev.11,
                a.subrange(c0 + (prev.0.element_count() + prev.1.element_count() + prev.2.element_count() + prev.3.element_count() + prev.4.element_count() + prev.5.element_count() + prev.6.element_count() + prev.7.element_count() + prev.8.element_count() + prev.9.element_count() + prev.10.element_count()) as int, c0 + (prev.0.element_count() + prev.1.element_count() + prev.2.element_count() + prev.3.element_count() + prev.4.element_count() + prev.5.element_count() + prev.6.element_count() + prev.7.element_count() + prev.8.element_count() + prev.9.element_count() + prev.10.element_count() + prev.11.element_count()) as int),
                f11.subrange(cb11 as int, (cb11 + self.11.element_count()) as int),
            )) by {
                lemma_sub_shift(a, b11, (c0 + (prev.0.element_count() + prev.1.element_count() + prev.2.element_count() + prev.3.element_count() + prev.4.element_count() + prev.5.element_count() + prev.6.element_count() + prev.7.element_count() + prev.8.element_count() + prev.9.element_count() + prev.10.element_count())) as int, cb11 as int, prev.11.element_count() as int);
            }
            lemma_kept_compose(a, c0, (prev.0.element_count() + prev.1.element_count() + prev.2.element_count() + prev.3.element_count() + prev.4.element_count() + prev.5.element_count() + prev.6.element_count() + prev.7.element_count() + prev.8.element_count() + prev.9.element_count() + prev.10.element_count()), b11, cb11, prev.11.element_count(), elements.items(), elements.cursor());
        }
        let ghost b12 = elements.items();
        let ghost cb12 = elements.cursor();
        proof {
            assert(b12.skip(cb12 as int).len() == a.skip((c0 + (prev.0.element_count() + prev.1.element_count() + prev.2.element_count() + prev.3.element_count() + prev.4.element_count() + prev.5.element_count() + prev.6.element_count() + prev.7.element_count() + prev.8.element_count() + prev.9.element_count() + prev.10.element_count() + prev.11.element_count())) as int).len());
        }
        self.12.seq_rebuild(&prev.12, elements);
        let ghost f12 = elements.items();
        proof {
            assert(self.12.seq_rebuilds(
                &prev.12,
                a.subrange(c0 + (prev.0.element_count() + prev.1.element_count() + prev.2.element_count() + prev.3.element_count() + prev.4.element_count() + prev.5.element_count() + prev.6.element_count() + prev.7.element_count() + prev.8.element_count() + prev.9.element_count() + prev.10.element_count() + prev.11.element_count()) as int, c0 + (prev.0.element_count() + prev.1.element_count() + prev.2.element_count() + prev.3.element_count() + prev.4.element_count() + prev.5.element_count() + prev.6.element_count() + prev.7.element_count() + prev.8.element_count() + prev.9.element_count() + prev.10.element_count() + prev.11.element_count() + prev.12.element_count()) as int),
                f12.subrange(cb12 as int, (cb12 + self.12.element_count()) as int),
            )) by {
                lemma_sub_shift(a, b12, (c0 + (prev.0.element_count() + prev.1.element_count() + prev.2.element_count() + prev.3.element_count() + prev.4.element_count() + prev.5.element_count() + prev.6.element_count() + prev.7.element_count() + prev.8.element_count() + prev.9.element_count() + prev.10.element_count() + prev.11.element_count())) as int, cb12 as int, prev.12.element_count() as int);
            }
            lemma_kept_compose(a, c0, (prev.0.element_count() + prev.1.element_count() + prev.2.element_count() + prev.3.element_count() + prev.4.element_count() + prev.5.element_count() + prev.6.element_count() + prev.7.element_count() + prev.8.element_count() + prev.9.element_count() + prev.10.element_count() + prev.11.element_count()), b12, cb12, prev.12.element_count(), elements.items(), elements.cursor());
        }
        let ghost b13 = elements.items();
        let ghost cb13 = elements.cursor();
        proof {
            assert(b13.skip(cb13 as int).len() == a.skip((c0 + (prev.0.element_count() + prev.1.element_count() + prev.2.element_count() + prev.3.element_count() + prev.4.element_count() + prev.5.element_count() + prev.6.element_count() + prev.7.element_count() + prev.8.element_count() + prev.9.element_count() + prev.10.element_count() + prev.11.element_count() + prev.12.element_count())) as int).len());
        }
        self.13.seq_rebuild(&prev.13, elements);
        let ghost f13 = elements.items();
        proof {
            assert(self.13.seq_rebuilds(
                &prev.13,
                a.subrange(c0 + (prev.0.element_count() + prev.1.element_count() + prev.2.element_count() + prev.3.element_count() + prev.4.element_count() + prev.5.element_count() + prev.6.element_count() + prev.7.element_count() + prev.8.element_count() + prev.9.element_count() + prev.10.element_count() + prev.11.element_count() + prev.12.element_count()) as int, c0 + (prev.0.element_count() + prev.1.element_count() + prev.2.element_count() + prev.3.element_count() + prev.4.element_count() + prev.5.element_count() + prev.6.element_count() + prev.7.element_count() + prev.8.element_count() + prev.9.element_count() + prev.10.element_count() + prev.11.element_count() + prev.12.element_count() + prev.13.element_count()) as int),
                f13.subrange(cb13 as int, (cb13 + self.13.element_count()) as int),
            )) by {
                lemma_sub_shift(a, b13, (c0 + (prev.0.element_count() + prev.1.element_count() + prev.2.element_count() + prev.3.element_count() + prev.4.element_count() + prev.5.element_count() + prev.6.element_count() + prev.7.element_count() + prev.8.element_count() + prev.9.element_count() + prev.10.element_count() + prev.11.element_count() + prev.12.element_count())) as int, cb13 as int, prev.13.element_count() as int);
            }
            lemma_kept_compose(a, c0, (prev.0.element_count() + prev.1.element_count() + prev.2.element_count() + prev.3.element_count() + prev.4.element_count() + prev.5.element_count() + prev.6.element_count() + prev.7.element_count() + prev.8.element_count() + prev.9.element_count() + prev.10.element_count() + prev.11.element_count() + prev.12.element_count()), b13, cb13, prev.13.element_count(), elements.items(), elements.cursor());
        }
        let ghost b14 = elements.items();
        let ghost cb14 = elements.cursor();
        proof {
            assert(b14.skip(cb14 as int).len() == a.skip((c0 + (prev.0.element_count() + prev.1.element_count() + prev.2.element_count() + prev.3.element_count() + prev.4.element_count() + prev.5.element_count() + prev.6.element_count() + prev.7.element_count() + prev.8.element_count() + prev.9.element_count() + prev.10.element_count() + prev.11.element_count() + prev.12.element_count() + prev.13.element_count())) as int).len());
        }
        self.14.seq_rebuild(&prev.14, elements);
        let ghost f14 = elements.items();
        proof {
            assert(self.14.seq_rebuilds(
                &prev.14,
                a.subrange(c0 + (prev.0.element_count() + prev.1.element_count() + prev.2.element_count() + prev.3.element_count() + prev.4.element_count() + prev.5.element_count() + prev.6.element_count() + prev.7.element_count() + prev.8.element_count() + prev.9.element_count() + prev.10.element_count() + prev.11.element_count() + prev.12.element_count() + prev.13.element_count()) as int, c0 + (prev.0.element_count() + prev.1.element_count() + prev.2.element_count() + prev.3.element_count() + prev.4.element_count() + prev.5.element_count() + prev.6.element_count() + prev.7.element_count() + prev.8.element_count() + prev.9.element_count() + prev.10.element_count() + prev.11.element_count() + prev.12.element_count() + prev.13.element_count() + prev.14.element_count()) as int),
                f14.subrange(cb14 as int, (cb14 + self.14.element_count()) as int),
            )) by {
                lemma_sub_shift(a, b14, (c0 + (prev.0.element_count() + prev.1.element_count() + prev.2.element_count() + prev.3.element_count() + prev.4.element_count() + prev.5.element_count() + prev.6.element_count() + prev.7.element_count() + prev.8.element_count() + prev.9.element_count() + prev.10.element_count() + prev.11.element_count() + prev.12.element_count() + prev.13.element_count())) as int, cb14 as int, prev.14.element_count() as int);
            }
            lemma_kept_compose(a, c0, (prev.0.element_count() + prev.1.element_count() + prev.2.element_count() + prev.3.element_count() + prev.4.element_count() + prev.5.element_count() + prev.6.element_count() + prev.7.element_count() + prev.8.element_count() + prev.9.element_count() + prev.10.element_count() + prev.11.element_count() + prev.12.element_count() + prev.13.element_count()), b14, cb14, prev.14.element_count(), elements.items(), elements.cursor());
        }
        let ghost ce = elements.cursor();
        proof {
            let fin = elements.items();
            assert(fin.take(ce as int) =~= f14.take(ce as int));
            lemma_take_link(fin, f14, f13, cb14 as int, ce as int);
            lemma_take_link(fin, f13, f12, cb13 as int, cb14 as int);
            lemma_take_link(fin, f12, f11, cb12 as int, cb13 as int);
            lemma_take_link(fin, f11, f10, cb11 as int, cb12 as int);
            lemma_take_link(fin, f10, f9, cb10 as int, cb11 as int);
            lemma_take_link(fin, f9, f8, cb9 as int, cb10 as int);
            lemma_take_link(fin, f8, f7, cb8 as int, cb9 as int);
            lemma_take_link(fin, f7, f6, cb7 as int, cb8 as int);
            lemma_take_link(fin, f6, f5, cb6 as int, cb7 as int);
            lemma_take_link(fin, f5, f4, cb5 as int, cb6 as int);
            lemma_take_link(fin, f4, f3, cb4 as int, cb5 as int);
            lemma_take_link(fin, f3, f2, cb3 as int, cb4 as int);
            lemma_take_link(fin, f2, f1, cb2 as int, cb3 as int);
            lemma_take_link(fin, f1, f0, cb1 as int, cb2 as int);
            assert(self.0.seq_rebuilds(
                &prev.0,
                region(a, c0, prev.element_count()).subrange(0int, (prev.0.element_count()) as int),
                region(fin, c0, self.element_count()).subrange(0int, (self.0.element_count()) as int),
            )) by {
                lemma_sub_stable(fin, f0, cb1 as int, cb0 as int, cb1 as int);
                assert(region(fin, c0, self.element_count()).subrange(0int, (self.0.element_count()) as int) =~= fin.subrange(cb0 as int, cb1 as int));
                assert(region(a, c0, prev.element_count()).subrange(0int, (prev.0.element_count()) as int) =~= a.subrange(c0 + 0int, c0 + (prev.0.element_count()) as int));
            }
            assert(self.1.seq_rebuilds(
                &prev.1,
                region(a, c0, prev.element_count()).subrange((prev.0.element_count()) as int, (prev.0.element_count() + prev.1.element_count()) as int),
                region(fin, c0, self.element_count()).subrange((self.0.element_count()) as int, (self.0.element_count() + self.1.element_count()) as int),
            )) by {
                lemma_sub_stable(fin, f1, cb2 as int, cb1 as int, cb2 as int);
                assert(region(fin, c0, self.element_count()).subrange((self.0.element_count()) as int, (self.0.element_count() + self.1.element_count()) as int) =~= fin.subrange(cb1 as int, cb2 as int));
                assert(region(a, c0, prev.element_count()).subrange((prev.0.element_count()) as int, (prev.0.element_count() + prev.1.element_count()) as int) =~= a.subrange(c0 + (prev.0.element_count()) as int, c0 + (prev.0.element_count() + prev.1.element_count()) as int));
            }
            assert(self.2.seq_rebuilds(
                &prev.2,
                region(a, c0, prev.element_count()).subrange((prev.0.element_count() + prev.1.element_count()) as int, (prev.0.element_count() + prev.1.element_count() + prev.2.element_count()) as int),
                region(fin, c0, self.element_count()).subrange((self.0.element_count() + self.1.element_count()) as int, (self.0.element_count() + self.1.element_count() + self.2.element_count()) as int),
            )) by {
                lemma_sub_stable(fin, f2, cb3 as int, cb2 as int, cb3 as int);
                assert(region(fin, c0, self.element_count()).subrange((self.0.element_count() + self.1.element_count()) as int, (self.0.element_count() + self.1.element_count() + self.2.element_count()) as int) =~= fin.subrange(cb2 as int, cb3 as int));
                assert(region(a, c0, prev.element_count()).subrange((prev.0.element_count() + prev.1.element_count()) as int, (prev.0.element_count() + prev.1.element_count() + prev.2.element_count()) as int) =~= a.subrange(c0 + (prev.0.element_count() + prev.1.element_count()) as int, c0 + (prev.0.element_count() + prev.1.element_count() + prev.2.element_count()) as int));
            }
            assert(self.3.seq_rebuilds(
                &prev.3,
                region(a, c0, prev.element_count()).subrange((prev.0.element_count() + prev.1.element_count() + prev.2.element_count()) as int, (prev.0.element_count() + prev.1.element_count() + prev.2.element_count() + prev.3.element_count()) as int),
                region(fin, c0, self.element_count()).subrange((self.0.element_count() + self.1.element_count() + self.2.element_count()) as int, (self.0.element_count() + self.1.element_count() + self.2.element_count() + self.3.element_count()) as int),
            )) by {
                lemma_sub_stable(fin, f3, cb4 as int, cb3 as int, cb4 as int);
                assert(region(fin, c0, self.element_count()).subrange((self.0.element_count() + self.1.element_count() + self.2.element_count()) as int, (self.0.element_count() + self.1.element_count() + self.2.element_count() + self.3.element_count()) as int) =~= fin.subrange(cb3 as int, cb4 as int));
                assert(region(a, c0, prev.element_count()).subrange((prev.0.element_count() + prev.1.element_count() + prev.2.element_count()) as int, (prev.0.element_count() + prev.1.element_count() + prev.2.element_count() + prev.3.element_count()) as int) =~= a.subrange(c0 + (prev.0.element_count() + prev.1.element_count() + prev.2.element_count()) as int, c0 + (prev.0.element_count() + prev.1.element_count() + prev.2.element_count() + prev.3.element_count()) as int));
            }
            assert(self.4.seq_rebuilds(
                &prev.4,
                region(a, c0, prev.element_count()).subrange((prev.0.element_count() + prev.1.element_count() + prev.2.element_count() + prev.3.element_count()) as int, (prev.0.element_count() + prev.1.element_count() + prev.2.element_count() + prev.3.element_count() + prev.4.element_count()) as int),
                region(fin, c0, self.element_count()).subrange((self.0.element_count() + self.1.element_count() + self.2.element_count() + self.3.element_count()) as int, (self.0.element_count() + self.1.element_count() + self.2.element_count() + self.3.element_count() + self.4.element_count()) as int),
            )) by {
                lemma_sub_stable(fin, f4, cb5 as int, cb4 as int, cb5 as int);
                assert(region(fin, c0, self.element_count()).subrange((self.0.element_count() + self.1.element_count() + self.2.element_count() + self.3.element_count()) as int, (self.0.element_count() + self.1.element_count() + self.2.element_count() + self.3.element_count() + self.4.element_count()) as int) =~= fin.subrange(cb4 as int, cb5 as int));
                assert(region(a, c0, prev.element_count()).subrange((prev.0.element_count() + prev.1.element_count() + prev.2.element_count() + prev.3.element_count()) as int, (prev.0.element_count() + prev.1.element_count() + prev.2.element_count() + prev.3.element_count() + prev.4.element_count()) as int) =~= a.subrange(c0 + (prev.0.element_count() + prev.1.element_count() + prev.2.element_count() + prev.3.element_count()) as int, c0 + (prev.0.element_count() + prev.1.element_count() + prev.2.element_count() + prev.3.element_count() + prev.4.element_count()) as int));
            }
            assert(self.5.seq_rebuilds(
                &prev.5,
                region(a, c0, prev.element_count()).subrange((prev.0.element_count() + prev.1.element_count() + prev.2.element_count() + prev.3.element_count() + prev.4.element_count()) as int, (prev.0.element_count() + prev.1.element_count() + prev.2.element_count() + prev.3.element_count() + prev.4.element_count() + prev.5.element_count()) as int),
                region(fin, c0, self.element_count()).subrange((self.0.element_count() + self.1.element_count() + self.2.element_count() + self.3.element_count() + self.4.element_count()) as int, (self.0.element_count() + self.1.element_count() + self.2.element_count() + self.3.element_count() + self.4.element_count() + self.5.element_count()) as int),
            )) by {
                lemma_sub_stable(fin, f5, cb6 as int, cb5 as int, cb6 as int);
                assert(region(fin, c0, self.element_count()).subrange((self.0.element_count() + self.1.element_count() + self.2.element_count() + self.3.element_count() + self.4.element_count()) as int, (self.0.element_count() + self.1.element_count() + self.2.element_count() + self.3.element_count() + self.4.element_count() + self.5.element_count()) as int) =~= fin.subrange(cb5 as int, cb6 as int));
                assert(region(a, c0, prev.element_count()).subrange((prev.0.element_count() + prev.1.element_count() + prev.2.element_count() + prev.3.element_count() + prev.4.element_count()) as int, (prev.0.element_count() + prev.1.element_count() + prev.2.element_count() + prev.3.element_count() + prev.4.element_count() + prev.5.element_count()) as int) =~= a.subrange(c0 + (prev.0.element_count() + prev.1.element_count() + prev.2.element_count() + prev.3.element_count() + prev.4.element_count()) as int, c0 + (prev.0.element_count() + prev.1.element_count() + prev.2.element_count() + prev.3.element_count() + prev.4.element_count() + prev.5.element_count()) as int));
            }
            assert(self.6.seq_rebuilds(
                &prev.6,
                region(a, c0, prev.element_count()).subrange((prev.0.element_count() + prev.1.element_count() + prev.2.element_count() + prev.3.element_count() + prev.4.element_count() + prev.5.element_count()) as int, (prev.0.element_count() + prev.1.element_count() + prev.2.element_count() + prev.3.element_count() + prev.4.element_count() + prev.5.element_count() + prev.6.element_count()) as int),
                region(fin, c0, self.element_count()).subrange((self.0.element_count() + self.1.element_count() + self.2.element_count() + self.3.element_count() + self.4.element_count() + self.5.element_count()) as int, (self.0.element_count() + self.1.element_count() + self.2.element_count() + self.3.element_count() + self.4.element_count() + self.5.element_count() + self.6.element_count()) as int),
            )) by {
                lemma_sub_stable(fin, f6, cb7 as int, cb6 as int, cb7 as int);
                assert(region(fin, c0, self.element_count()).subrange((self.0.element_count() + self.1.element_count() + self.2.element_count() + self.3.element_count() + self.4.element_count() + self.5.element_count()) as int, (self.0.element_count() + self.1.element_count() + self.2.element_count() + self.3.element_count() + self.4.element_count() + self.5.element_count() + self.6.element_count()) as int) =~= fin.subrange(cb6 as int, cb7 as int));
                assert(region(a, c0, prev.element_count()).subrange((prev.0.element_count() + prev.1.element_count() + prev.2.element_count() + prev.3.element_count() + prev.4.element_count() + prev.5.element_count()) as int, (prev.0.element_count() + prev.1.element_count() + prev.2.element_count() + prev.3.element_count() + prev.4.element_count() + prev.5.element_count() + prev.6.element_count()) as int) =~= a.subrange(c0 + (prev.0.element_count() + prev.1.element_count() + prev.2.element_count() + prev.3.element_count() + prev.4.element_count() + prev.5.element_count()) as int, c0 + (prev.0.element_count() + prev.1.element_count() + prev.2.element_count() + prev.3.element_count() + prev.4.element_count() + prev.5.element_count() + prev.6.element_count()) as int));
            }
            assert(self.7.seq_rebuilds(
                &prev.7,
                region(a, c0, prev.element_count()).subrange((prev.0.element_count() + prev.1.element_count() + prev.2.element_count() + prev.3.element_count() + prev.4.element_count() + prev.5.element_count() + prev.6.element_count()) as int, (prev.0.element_count() + prev.1.element_count() + prev.2.element_count() + prev.3.element_count() + prev.4.element_count() + prev.5.element_count() + prev.6.element_count() + prev.7.element_count()) as int),
                region(fin, c0, self.element_count()).subrange((self.0.element_count() + self.1.element_count() + self.2.element_count() + self.3.element_count() + self.4.element_count() + self.5.element_count() + self.6.element_count()) as int, (self.0.element_count() + self.1.element_count() + self.2.element_count() + self.3.element_count() + self.4.element_count() + self.5.element_count() + self.6.element_count() + self.7.element_count()) as int),
            )) by {
                lemma_sub_stable(fin, f7, cb8 as int, cb7 as int, cb8 as int);
                assert(region(fin, c0, self.element_count()).subrange((self.0.element_count() + self.1.element_count() + self.2.element_count() + self.3.element_count() + self.4.element_count() + self.5.element_count() + self.6.element_count()) as int, (self.0.element_count() + self.1.element_count() + self.2.element_count() + self.3.element_count() + self.4.element_count() + self.5.element_count() + self.6.element_count() + self.7.element_count()) as int) =~= fin.subrange(cb7 as int, cb8 as int));
                assert(region(a, c0, prev.element_count()).subrange((prev.0.element_count() + prev.1.element_count() + prev.2.element_count() + prev.3.element_count() + prev.4.element_count() + prev.5.element_count() + prev.6.element_count()) as int, (prev.0.element_count() + prev.1.element_count() + prev.2.element_count() + prev.3.element_count() + prev.4.element_count() + prev.5.element_count() + prev.6.element_count() + prev.7.element_count()) as int) =~= a.subrange(c0 + (prev.0.element_count() + prev.1.element_count() + prev.2.element_count() + prev.3.element_count() + prev.4.element_count() + prev.5.element_count() + prev.6.element_count()) as int, c0 + (prev.0.element_count() + prev.1.element_count() + prev.2.element_count() + prev.3.element_count() + prev.4.element_count() + prev.5.element_count() + prev.6.element_count() + prev.7.element_count()) as int));
            }
            assert(self.8.seq_rebuilds(
                &prev.8,
                region(a, c0, prev.element_count()).subrange((prev.0.element_count() + prev.1.element_count() + prev.2.element_count() + prev.3.element_count() + prev.4.element_count() + prev.5.element_count() + prev.6.element_count() + prev.7.element_count()) as int, (prev.0.element_count() + prev.1.element_count() + prev.2.element_count() + prev.3.element_count() + prev.4.element_count() + prev.5.element_count() + prev.6.element_count() + prev.7.element_count() + prev.8.element_count()) as int),
                region(fin, c0, self.element_count()).subrange((self.0.element_count() + self.1.element_count() + self.2.element_count() + self.3.element_count() + self.4.element_count() + self.5.element_count() + self.6.element_count() + self.7.element_count()) as int, (self.0.element_count() + self.1.element_count() + self.2.element_count() + self.3.element_count() + self.4.element_count() + self.5.element_count() + self.6.element_count() + self.7.element_count() + self.8.element_count()) as int),
            )) by {
                lemma_sub_stable(fin, f8, cb9 as int, cb8 as int, cb9 as int);
                assert(region(fin, c0, self.element_count()).subrange((self.0.element_count() + self.1.element_count() + self.2.element_count() + self.3.element_count() + self.4.element_count() + self.5.element_count() + self.6.element_count() + self.7.element_count()) as int, (self.0.element_count() + self.1.element_count() + self.2.element_count() + self.3.element_count() + self.4.element_count() + self.5.element_count() + self.6.element_count() + self.7.element_count() + self.8.element_count()) as int) =~= fin.subrange(cb8 as int, cb9 as int));
                assert(region(a, c0, prev.element_count()).subrange((prev.0.element_count() + prev.1.element_count() + prev.2.element_count() + prev.3.element_count() + prev.4.element_count() + prev.5.element_count() + prev.6.element_count() + prev.7.element_count()) as int, (prev.0.element_count() + prev.1.element_count() + prev.2.element_count() + prev.3.element_count() + prev.4.element_count() + prev.5.element_count() + prev.6.element_count() + prev.7.element_count() + prev.8.element_count()) as int) =~= a.subrange(c0 + (prev.0.element_count() + prev.1.element_count() + prev.2.element_count() + prev.3.element_count() + prev.4.element_count() + prev.5.element_count() + prev.6.element_count() + prev.7.element_count()) as int, c0 + (prev.0.element_count() + prev.1.element_count() + prev.2.element_count() + prev.3.element_count() + prev.4.element_count() + prev.5.element_count() + prev.6.element_count() + prev.7.element_count() + prev.8.element_count()) as int));
            }
            assert(self.9.seq_rebuilds(
                &prev.9,
                region(a, c0, prev.element_count()).subrange((prev.0.element_count() + prev.1.element_count() + prev.2.element_count() + prev.3.element_count() + prev.4.element_count() + prev.5.element_count() + prev.6.element_count() + prev.7.element_count() + prev.8.element_count()) as int, (prev.0.element_count() + prev.1.element_count() + prev.2.element_count() + prev.3.element_count() + prev.4.element_count() + prev.5.element_count() + prev.6.element_count() + prev.7.element_count() + prev.8.element_count() + prev.9.element_count()) as int),
                region(fin, c0, self.element_count()).subrange((self.0.element_count() + self.1.element_count() + self.2.element_count() + self.3.element_count() + self.4.element_count() + self.5.element_count() + self.6.element_count() + self.7.element_count() + self.8.element_count()) as int, (self.0.element_count() + self.1.element_count() + self.2.element_count() + self.3.element_count() + self.4.element_count() + self.5.element_count() + self.6.element_count() + self.7.element_count() + self.8.element_count() + self.9.element_count()) as int),
            )) by {
                lemma_sub_stable(fin, f9, cb10 as int, cb9 as int, cb10 as int);
                assert(region(fin, c0, self.element_count()).subrange((self.0.element_count() + self.1.element_count() + self.2.element_count() + self.3.element_count() + self.4.element_count() + self.5.element_count() + self.6.element_count() + self.7.element_count() + self.8.element_count()) as int, (self.0.element_count() + self.1.element_count() + self.2.element_count() + self.3.element_count() + self.4.element_count() + self.5.element_count() + self.6.element_count() + self.7.element_count() + self.8.element_count() + self.9.element_count()) as int) =~= fin.subrange(cb9 as int, cb10 as int));
                assert(region(a, c0, prev.element_count()).subrange((prev.0.element_count() + prev.1.element_count() + prev.2.element_count() + prev.3.element_count() + prev.4.element_count() + prev.5.element_count() + prev.6.element_count() + prev.7.element_count() + prev.8.element_count()) as int, (prev.0.element_count() + prev.1.element_count() + prev.2.element_count() + prev.3.element_count() + prev.4.element_count() + prev.5.element_count() + prev.6.element_count() + prev.7.element_count() + prev.8.element_count() + prev.9.element_count()) as int) =~= a.subrange(c0 + (prev.0.element_count() + prev.1.element_count() + prev.2.element_count() + prev.3.element_count() + prev.4.element_count() + prev.5.element_count() + prev.6.element_count() + prev.7.element_count() + prev.8.element_count()) as int, c0 + (prev.0.element_count() + prev.1.element_count() + prev.2.element_count() + prev.3.element_count() + prev.4.element_count() + prev.5.element_count() + prev.6.element_count() + prev.7.element_count() + prev.8.element_count() + prev.9.element_count()) as int));
            }
            assert(self.10.seq_rebuilds(
                &prev.10,
                region(a, c0, prev.element_count()).subrange((prev.0.element_count() + prev.1.element_count() + prev.2.element_count() + prev.3.element_count() + prev.4.element_count() + prev.5.element_count() + prev.6.element_count() + prev.7.element_count() + prev.8.element_count() + prev.9.element_count()) as int, (prev.0.element_count() + prev.1.element_count() + prev.2.element_count() + prev.3.element_count() + prev.4.element_count() + prev.5.element_count() + prev.6.element_count() + prev.7.element_count() + prev.8.element_count() + prev.9.element_count() + prev.10.element_count()) as int),
                region(fin, c0, self.element_count()).subrange((self.0.element_count() + self.1.element_count() + self.2.element_count() + self.3.element_count() + self.4.element_count() + self.5.element_count() + self.6.element_count() + self.7.element_count() + self.8.element_count() + self.9.element_count()) as int, (self.0.element_count() + self.1.element_count() + self.2.element_count() + self.3.element_count() + self.4.element_count() + self.5.element_count() + self.6.element_count() + self.7.element_count() + self.8.element_count() + self.9.element_count() + self.10.element_count()) as int),
            )) by {
                lemma_sub_stable(fin, f10, cb11 as int, cb10 as int, cb11 as int);
                assert(region(fin, c0, self.element_count()).subrange((self.0.element_count() + self.1.element_count() + self.2.element_count() + self.3.element_count() + self.4.element_count() + self.5.element_count() + self.6.element_count() + self.7.element_count() + self.8.element_count() + self.9.element_count()) as int, (self.0.element_count() + self.1.element_count() + self.2.element_count() + self.3.element_count() + self.4.element_count() + self.5.element_count() + self.6.element_count() + self.7.element_count() + self.8.element_count() + self.9.element_count() + self.10.element_count()) as int) =~= fin.subrange(cb10 as int, cb11 as int));
                assert(region(a, c0, prev.element_count()).subrange((prev.0.element_count() + prev.1.element_count() + prev.2.element_count() + prev.3.element_count() + prev.4.element_count() + prev.5.element_count() + prev.6.element_count() + prev.7.element_count() + prev.8.element_count() + prev.9.element_count()) as int, (prev.0.element_count() + prev.1.element_count() + prev.2.element_count() + prev.3.element_count() + prev.4.element_count() + prev.5.element_count() + prev.6.element_count() + prev.7.element_count() + prev.8.element_count() + prev.9.element_count() + prev.10.element_count()) as int) =~= a.subrange(c0 + (prev.0.element_count() + prev.1.element_count() + prev.2.element_count() + prev.3.element_count() + prev.4.element_count() + prev.5.element_count() + prev.6.element_count() + prev.7.element_count() + prev.8.element_count() + prev.9.element_count()) as int, c0 + (prev.0.element_count() + prev.1.element_count() + prev.2.element_count() + prev.3.element_count() + prev.4.element_count() + prev.5.element_count() + prev.6.element_count() + prev.7.element_count() + prev.8.element_count() + prev.9.element_count() + prev.10.element_count()) as int));
            }
            assert(self.11.seq_rebuilds(
                &prev.11,
                region(a, c0, prev.element_count()).subrange((prev.0.element_count() + prev.1.element_count() + prev.2.element_count() + prev.3.element_count() + prev.4.element_count() + prev.5.element_count() + prev.6.element_count() + prev.7.element_count() + prev.8.element_count() + prev.9.element_count() + prev.10.element_count()) as int, (prev.0.element_count() + prev.1.element_count() + prev.2.element_count() + prev.3.element_count() + prev.4.element_count() + prev.5.element_count() + prev.6.element_count() + prev.7.element_count() + prev.8.element_count() + prev.9.element_count() + prev.10.element_count() + prev.11.element_count()) as int),
                region(fin, c0, self.element_count()).subrange((self.0.element_count() + self.1.element_count() + self.2.element_count() + self.3.element_count() + self.4.element_count() + self.5.element_count() + self.6.element_count() + self.7.element_count() + self.8.element_count() + self.9.element_count() + self.10.element_count()) as int, (self.0.element_count() + self.1.element_count() + self.2.element_count() + self.3.element_count() + self.4.element_count() + self.5.element_count() + self.6.element_count() + self.7.element_count() + self.8.element_count() + self.9.element_count() + self.10.element_count() + self.11.element_count()) as int),
            )) by {
                lemma_sub_stable(fin, f11, cb12 as int, cb11 as int, cb12 as int);
                assert(region(fin, c0, self.element_count()).subrange((self.0.element_count() + self.1.element_count() + self.2.element_count() + self.3.element_count() + self.4.element_count() + self.5.element_count() + self.6.element_count() + self.7.element_count() + self.8.element_count() + self.9.element_count() + self.10.element_count()) as int, (self.0.element_count() + self.1.element_count() + self.2.element_count() + self.3.element_count() + self.4.element_count() + self.5.element_count() + self.6.element_count() + self.7.element_count() + self.8.element_count() + self.9.element_count() + self.10.element_count() + self.11.element_count()) as int) =~= fin.subrange(cb11 as int, cb12 as int));
                assert(region(a, c0, prev.element_count()).subrange((prev.0.element_count() + prev.1.element_count() + prev.2.element_count() + prev.3.element_count() + prev.4.element_count() + prev.5.element_count() + prev.6.element_count() + prev.7.element_count() + prev.8.element_count() + prev.9.element_count() + prev.10.element_count()) as int, (prev.0.element_count() + prev.1.element_count() + prev.2.element_count() + prev.3.element_count() + prev.4.element_count() + prev.5.element_count() + prev.6.element_count() + prev.7.element_count() + prev.8.element_count() + prev.9.element_count() + prev.10.element_count() + prev.11.element_count()) as int) =~= a.subrange(c0 + (prev.0.element_count() + prev.1.element_count() + prev.2.element_count() + prev.3.element_count() + prev.4.element_count() + prev.5.element_count() + prev.6.element_count() + prev.7.element_count() + prev.8.element_count() + prev.9.element_count() + prev.10.element_count()) as int, c0 + (prev.0.element_count() + prev.1.element_count() + prev.2.element_count() + prev.3.element_count() + prev.4.element_count() + prev.5.element_count() + prev.6.element_count() + prev.7.element_count() + prev.8.element_count() + prev.9.element_count() + prev.10.element_count() + prev.11.element_count()) as int));
            }
            assert(self.12.seq_rebuilds(
                &prev.12,
                region(a, c0, prev.element_count()).subrange((prev.0.element_count() + prev.1.element_count() + prev.2.element_count() + prev.3.element_count() + prev.4.element_count() + prev.5.element_count() + prev.6.element_count() + prev.7.element_count() + prev.8.element_count() + prev.9.element_count() + prev.10.element_count() + prev.11.element_count()) as int, (prev.0.element_count() + prev.1.element_count() + prev.2.element_count() + prev.3.element_count() + prev.4.element_count() + prev.5.element_count() + prev.6.element_count() + prev.7.element_count() + prev.8.element_count() + prev.9.element_count() + prev.10.element_count() + prev.11.element_count() + prev.12.element_count()) as int),
                region(fin, c0, self.element_count()).subrange((self.0.element_count() + self.1.element_count() + self.2.element_count() + self.3.element_count() + self.4.element_count() + self.5.element_count() + self.6.element_count() + self.7.element_count() + self.8.element_count() + self.9.element_count() + self.10.element_count() + self.11.element_count()) as int, (self.0.element_count() + self.1.element_count() + self.2.element_count() + self.3.element_count() + self.4.element_count() + self.5.element_count() + self.6.element_count() + self.7.element_count() + self.8.element_count() + self.9.element_count() + self.10.element_count() + self.11.element_count() + self.12.element_count()) as int),
            )) by {
                lemma_sub_stable(fin, f12, cb13 as int, cb12 as int, cb13 as int);
                assert(region(fin, c0, self.element_count()).subrange((self.0.element_count() + self.1.element_count() + self.2.element_count() + self.3.element_count() + self.4.element_count() + self.5.element_count() + self.6.element_count() + self.7.element_count() + self.8.element_count() + self.9.element_count() + self.10.element_count() + self.11.element_count()) as int, (self.0.element_count() + self.1.element_count() + self.2.element_count() + self.3.element_count() + self.4.element_count() + self.5.element_count() + self.6.element_count() + self.7.element_count() + self.8.element_count() + self.9.element_count() + self.10.element_count() + self.11.element_count() + self.12.element_count()) as int) =~= fin.subrange(cb12 as int, cb13 as int));
                assert(region(a, c0, prev.element_count()).subrange((prev.0.element_count() + prev.1.element_count() + prev.2.element_count() + prev.3.element_count() + prev.4.element_count() + prev.5.element_count() + prev.6.element_count() + prev.7.element_count() + prev.8.element_count() + prev.9.element_count() + prev.10.element_count() + prev.11.element_count()) as int, (prev.0.element_count() + prev.1.element_count() + prev.2.element_count() + prev.3.element_count() + prev.4.element_count() + prev.5.element_count() + prev.6.element_count() + prev.7.element_count() + prev.8.element_count() + prev.9.element_count() + prev.10.element_count() + prev.11.element_count() + prev.12.element_count()) as int) =~= a.subrange(c0 + (prev.0.element_count() + prev.1.element_count() + prev.2.element_count() + prev.3.element_count() + prev.4.element_count() + prev.5.element_count() + prev.6.element_count() + prev.7.element_count() + prev.8.element_count() + prev.9.element_count() + prev.10.element_count() + prev.11.element_count()) as int, c0 + (prev.0.element_count() + prev.1.element_count() + prev.2.element_count() + prev.3.element_count() + prev.4.element_count() + prev.5.element_count() + prev.6.element_count() + prev.7.element_count() + prev.8.element_count() + prev.9.element_count() + prev.10.element_count() + prev.11.element_count() + prev.12.element_count()) as int));
            }
            assert(self.13.seq_rebuilds(
                &prev.13,
                region(a, c0, prev.element_count()).subrange((prev.0.element_count() + prev.1.element_count() + prev.2.element_count() + prev.3.element_count() + prev.4.element_count() + prev.5.element_count() + prev.6.element_count() + prev.7.element_count() + prev.8.element_count() + prev.9.element_count() + prev.10.element_count() + prev.11.element_count() + prev.12.element_count()) as int, (prev.0.element_count() + prev.1.element_count() + prev.2.element_count() + prev.3.element_count() + prev.4.element_count() + prev.5.element_count() + prev.6.element_count() + prev.7.element_count() + prev.8.element_count() + prev.9.element_count() + prev.10.element_count() + prev.11.element_count() + prev.12.element_count() + prev.13.element_count()) as int),
                region(fin, c0, self.element_count()).subrange((self.0.element_count() + self.1.element_count() + self.2.element_count() + self.3.element_count() + self.4.element_count() + self.5.element_count() + self.6.element_count() + self.7.element_count() + self.8.element_count() + self.9.element_count() + self.10.element_count() + self.11.element_count() + self.12.element_count()) as int, (self.0.element_count() + self.1.element_count() + self.2.element_count() + self.3.element_count() + self.4.element_count() + self.5.element_count() + self.6.element_count() + self.7.element_count() + self.8.element_count() + self.9.element_count() + self.10.element_count() + self.11.element_count() + self.12.element_count() + self.13.element_count()) as int),
            )) by {
                lemma_sub_stable(fin, f13, cb14 as int, cb13 as int, cb14 as int);
                assert(region(fin, c0, self.element_count()).subrange((self.0.element_count() + self.1.element_count() + self.2.element_count() + self.3.element_count() + self.4.element_count() + self.5.element_count() + self.6.element_count() + self.7.element_count() + self.8.element_count() + self.9.element_count() + self.10.element_count() + self.11.element_count() + self.12.element_count()) as int, (self.0.element_count() + self.1.element_count() + self.2.element_count() + self.3.element_count() + self.4.element_count() + self.5.element_count() + self.6.element_count() + self.7.element_count() + self.8.element_count() + self.9.element_count() + self.10.element_count() + self.11.element_count() + self.12.element_count() + self.13.element_count()) as int) =~= fin.subrange(cb13 as int, cb14 as int));
                assert(region(a, c0, prev.element_count()).subrange((prev.0.element_count() + prev.1.element_count() + prev.2.element_count() + prev.3.element_count() + prev.4.element_count() + prev.5.element_count() + prev.6.element_count() + prev.7.element_count() + prev.8.element_count() + prev.9.element_count() + prev.10.element_count() + prev.11.element_count() + prev.12.element_count()) as int, (prev.0.element_count() + prev.1.element_count() + prev.2.element_count() + prev.3.element_count() + prev.4.element_count() + prev.5.element_count() + prev.6.element_count() + prev.7.element_count() + prev.8.element_count() + prev.9.element_count() + prev.10.element_count() + prev.11.element_count() + prev.12.element_count() + prev.13.element_count()) as int) =~= a.subrange(c0 + (prev.0.element_count() + prev.1.element_count() + prev.2.element_count() + prev.3.element_count() + prev.4.element_count() + prev.5.element_count() + prev.6.element_count() + prev.7.element_count() + prev.8.element_count() + prev.9.element_count() + prev.10.element_count() + prev.11.element_count() + prev.12.element_count()) as int, c0 + (prev.0.element_count() + prev.1.element_count() + prev.2.element_count() + prev.3.element_count() + prev.4.element_count() + prev.5.element_count() + prev.6.element_count() + prev.7.element_count() + prev.8.element_count() + prev.9.element_count() + prev.10.element_count() + prev.11.element_count() + prev.12.element_count() + prev.13.element_count()) as int));
            }
            assert(self.14.seq_rebuilds(
                &prev.14,
                region(a, c0, prev.element_count()).subrange((prev.0.element_count() + prev.1.element_count() + prev.2.element_count() + prev.3.element_count() + prev.4.element_count() + prev.5.element_count() + prev.6.element_count() + prev.7.element_count() + prev.8.element_count() + prev.9.element_count() + prev.10.element_count() + prev.11.element_count() + prev.12.element_count() + prev.13.element_count()) as int, (prev.0.element_count() + prev.1.element_count() + prev.2.element_count() + prev.3.element_count() + prev.4.element_count() + prev.5.element_count() + prev.6.element_count() + prev.7.element_count() + prev.8.element_count() + prev.9.element_count() + prev.10.element_count() + prev.11.element_count() + prev.12.element_count() + prev.13.element_count() + prev.14.element_count()) as int),
                region(fin, c0, self.element_count()).subrange((self.0.element_count() + self.1.element_count() + self.2.element_count() + self.3.element_count() + self.4.element_count() + self.5.element_count() + self.6.element_count() + self.7.element_count() + self.8.element_count() + self.9.element_count() + self.10.element_count() + self.11.element_count() + self.12.element_count() + self.13.element_count()) as int, (self.0.element_count() + self.1.element_count() + self.2.element_count() + self.3.element_count() + self.4.element_count() + self.5.element_count() + self.6.element_count() + self.7.element_count() + self.8.element_count() + self.9.element_count() + self.10.element_count() + self.11.element_count() + self.12.element_count() + self.13.element_count() + self.14.element_count()) as int),
            )) by {
                assert(region(fin, c0, self.element_count()).subrange((self.0.element_count() + self.1.element_count() + self.2.element_count() + self.3.element_count() + self.4.element_count() + self.5.element_count() + self.6.element_count() + self.7.element_count() + self.8.element_count() + self.9.element_count() + self.10.element_count() + self.11.element_count() + self.12.element_count() + self.13.element_count()) as int, (self.0.element_count() + self.1.element_count() + self.2.element_count() + self.3.element_count() + self.4.element_count() + self.5.element_count() + self.6.element_count() + self.7.element_count() + self.8.element_count() + self.9.element_count() + self.10.element_count() + self.11.element_count() + self.12.element_count() + self.13.element_count() + self.14.element_count()) as int) =~= fin.subrange(cb14 as int, ce as int));
                assert(region(a, c0, prev.element_count()).subrange((prev.0.element_count() + prev.1.element_count() + prev.2.element_count() + prev.3.element_count() + prev.4.element_count() + prev.5.element_count() + prev.6.element_count() + prev.7.element_count() + prev.8.element_count() + prev.9.element_count() + prev.10.element_count() + prev.11.element_count() + prev.12.element_count() + prev.13.element_count()) as int, (prev.0.element_count() + prev.1.element_count() + prev.2.element_count() + prev.3.element_count() + prev.4.element_count() + prev.5.element_count() + prev.6.element_count() + prev.7.element_count() + prev.8.element_count() + prev.9.element_count() + prev.10.element_count() + prev.11.element_count() + prev.12.element_count() + prev.13.element_count() + prev.14.element_count()) as int) =~= a.subrange(c0 + (prev.0.element_count() + prev.1.element_count() + prev.2.element_count() + prev.3.element_count() + prev.4.element_count() + prev.5.element_count() + prev.6.element_count() + prev.7.element_count() + prev.8.element_count() + prev.9.element_count() + prev.10.element_count() + prev.11.element_count() + prev.12.element_count() + prev.13.element_count()) as int, c0 + (prev.0.element_count() + prev.1.element_count() + prev.2.element_count() + prev.3.element_count() + prev.4.element_count() + prev.5.element_count() + prev.6.element_count() + prev.7.element_count() + prev.8.element_count() + prev.9.element_count() + prev.10.element_count() + prev.11.element_count() + prev.12.element_count() + prev.13.element_count() + prev.14.element_count()) as int));
            }
        }
    }

    #[verifier::spinoff_prover]
    #[verifier::rlimit(100)]
    fn seq_teardown<Splice: ElementSplice<Element>>(&self, elements: &mut Splice) {
        let ghost a = elements.items();
        let ghost c0 = elements.cursor();
        proof {
            lemma_kept_refl(a, c0);
        }
        let ghost b0 = elements.items();
        let ghost cb0 = elements.cursor();
        proof {
            assert(b0.skip(cb0 as int).len() == a.skip((c0 + 0) as int).len());
        }
        self.0.seq_teardown(elements);
        proof {
            assert(self.0.seq_tears_down(region(a, c0, self.element_count()).subrange(0int, (self.0.element_count()) as int))) by {
                lemma_sub_shift(a, b0, (c0 + 0) as int, cb0 as int, self.0.element_count() as int);
                assert(region(a, c0, self.element_count()).subrange(0int, (self.0.element_count()) as int) =~= a.subrange(c0 + 0int, c0 + (self.0.element_count()) as int));
            }
            lemma_kept_compose(a, c0, 0, b0, cb0, self.0.element_count(), elements.items(), elements.cursor());
        }
        let ghost b1 = elements.items();
        let ghost cb1 = elements.cursor();
        proof {
            assert(b1.skip(cb1 as int).len() == a.skip((c0 + (self.0.element_count())) as int).len());
        }
        self.1.seq_teardown(elements);
        proof {
            assert(self.1.seq_tears_down(region(a, c0, self.element_count()).subrange((self.0.element_count()) as int, (self.0.element_count() + self.1.element_count()) as int))) by {
                lemma_sub_shift(a, b1, (c0 + (self.0.element_count())) as int, cb1 as int, self.1.element_count() as int);
                assert(region(a, c0, self.element_count()).subrange((self.0.element_count()) as int, (self.0.element_count() + self.1.element_count()) as int) =~= a.subrange(c0 + (self.0.element_count()) as int, c0 + (self.0.element_count() + self.1.element_count()) as int));
            }
            lemma_kept_compose(a, c0, (self.0.element_count()), b1, cb1, self.1.element_count(), elements.items(), elements.cursor());
        }
        let ghost b2 = elements.items();
        let ghost cb2 = elements.cursor();
        proof {
            assert(b2.skip(cb2 as int).len() == a.skip((c0 + (self.0.element_count() + self.1.element_count())) as int).len());
        }
        self.2.seq_teardown(elements);
        proof {
            assert(self.2.seq_tears_down(region(a, c0, self.element_count()).subrange((self.0.element_count() + self.1.element_count()) as int, (self.0.element_count() + self.1.element_count() + self.2.element_count()) as int))) by {
                lemma_sub_shift(a, b2, (c0 + (self.0.element_count() + self.1.element_count())) as int, cb2 as int, self.2.element_count() as int);
                assert(region(a, c0, self.element_count()).subrange((self.0.element_count() + self.1.element_count()) as int, (self.0.element_count() + self.1.element_count() + self.2.element_count()) as int) =~= a.subrange(c0 + (self.0.element_count() + self.1.element_count()) as int, c0 + (self.0.element_count() + self.1.element_count() + self.2.element_count()) as int));
            }
            lemma_kept_compose(a, c0, (self.0.element_count() + self.1.element_count()), b2, cb2, self.2.element_count(), elements.items(), elements.cursor());
        }
        let ghost b3 = elements.items();
        let ghost cb3 = elements.cursor();
        proof {
            assert(b3.skip(cb3 as int).len() == a.skip((c0 + (self.0.element_count() + self.1.element_count() + self.2.element_count())) as int).len());
        }
        self.3.seq_teardown(elements);
        proof {
            assert(self.3.seq_tears_down(region(a, c0, self.element_count()).subrange((self.0.element_count() + self.1.element_count() + self.2.element_count()) as int, (self.0.element_count() + self.1.element_count() + self.2.element_count() + self.3.element_count()) as int))) by {
                lemma_sub_shift(a, b3, (c0 + (self.0.element_count() + self.1.element_count() + self.2.element_count())) as int, cb3 as int, self.3.element_count() as int);
                assert(region(a, c0, self.element_count()).subrange((self.0.element_count() + self.1.element_count() + self.2.element_count()) as int, (self.0.element_count() + self.1.element_count() + self.2.element_count() + self.3.element_count()) as int) =~= a.subrange(c0 + (self.0.element_count() + self.1.element_count() + self.2.element_count()) as int, c0 + (self.0.element_count() + self.1.element_count() + self.2.element_count() + self.3.element_count()) as int));
            }
            lemma_kept_compose(a, c0, (self.0.element_count() + self.1.element_count() + self.2.element_count()), b3, cb3, self.3.element_count(), elements.items(), elements.cursor());
        }
        let ghost b4 = elements.items();
        let ghost cb4 = elements.cursor();
        proof {
            assert(b4.skip(cb4 as int).len() == a.skip((c0 + (self.0.element_count() + self.1.element_count() + self.2.element_count() + self.3.element_count())) as int).len());
        }
        self.4.seq_teardown(elements);
        proof {
            assert(self.4.seq_tears_down(region(a, c0, self.element_count()).subrange((self.0.element_count() + self.1.element_count() + self.2.element_count() + self.3.element_count()) as int, (self.0.element_count() + self.1.element_count() + self.2.element_count() + self.3.element_count() + self.4.element_count()) as int))) by {
                lemma_sub_shift(a, b4, (c0 + (self.0.element_count() + self.1.element_count() + self.2.element_count() + self.3.element_count())) as int, cb4 as int, self.4.element_count() as int);
                assert(region(a, c0, self.element_count()).subrange((self.0.element_count() + self.1.element_count() + self.2.element_count() + self.3.element_count()) as int, (self.0.element_count() + self.1.element_count() + self.2.element_count() + self.3.element_count() + self.4.element_count()) as int) =~= a.subrange(c0 + (self.0.element_count() + self.1.element_count() + self.2.element_count() + self.3.element_count()) as int, c0 + (self.0.element_count() + self.1.element_count() + self.2.element_count() + self.3.element_count() + self.4.element_count()) as int));
            }
            lemma_kept_compose(a, c0, (self.0.element_count() + self.1.element_count() + self.2.element_count() + self.3.element_count()), b4, cb4, self.4.element_count(), elements.items(), elements.cursor());
        }
        let ghost b5 = elements.items();
        let ghost cb5 = elements.cursor();
        proof {
            assert(b5.skip(cb5 as int).len() == a.skip((c0 + (self.0.element_count() + self.1.element_count() + self.2.element_count() + self.3.element_count() + self.4.element_count())) as int).len());
        }
        self.5.seq_teardown(elements);
        proof {
            assert(self.5.seq_tears_down(region(a, c0, self.element_count()).subrange((self.0.element_count() + self.1.element_count() + self.2.element_count() + self.3.element_count() + self.4.element_count()) as int, (self.0.element_count() + self.1.element_count() + self.2.element_count() + self.3.element_count() + self.4.element_count() + self.5.element_count()) as int))) by {
                lemma_sub_shift(a, b5, (c0 + (self.0.element_count() + self.1.element_count() + self.2.element_count() + self.3.element_count() + self.4.element_count())) as int, cb5 as int, self.5.element_count() as int);
                assert(region(a, c0, self.element_count()).subrange((self.0.element_count() + self.1.element_count() + self.2.element_count() + self.3.element_count() + self.4.element_count()) as int, (self.0.element_count() + self.1.element_count() + self.2.element_count() + self.3.element_count() + self.4.element_count() + self.5.element_count()) as int) =~= a.subrange(c0 + (self.0.element_count() + self.1.element_count() + self.2.element_count() + self.3.element_count() + self.4.element_count()) as int, c0 + (self.0.element_count() + self.1.element_count() + self.2.element_count() + self.3.element_count() + self.4.element_count() + self.5.element_count()) as int));
            }
            lemma_kept_compose(a, c0, (self.0.element_count() + self.1.element_count() + self.2.element_count() + self.3.element_count() + self.4.element_count()), b5, cb5, self.5.element_count(), elements.items(), elements.cursor());
        }
        let ghost b6 = elements.items();
        let ghost cb6 = elements.cursor();
        proof {
            assert(b6.skip(cb6 as int).len() == a.skip((c0 + (self.0.element_count() + self.1.element_count() + self.2.element_count() + self.3.element_count() + self.4.element_count() + self.5.element_count())) as int).len());
        }
        self.6.seq_teardown(elements);
        proof {
            assert(self.6.seq_tears_down(region(a, c0, self.element_count()).subrange((self.0.element_count() + self.1.element_count() + self.2.element_count() + self.3.element_count() + self.4.element_count() + self.5.element_count()) as int, (self.0.element_count() + self.1.element_count() + self.2.element_count() + self.3.element_count() + self.4.element_count() + self.5.element_count() + self.6.element_count()) as int))) by {
                lemma_sub_shift(a, b6, (c0 + (self.0.element_count() + self.1.element_count() + self.2.element_count() + self.3.element_count() + self.4.element_count() + self.5.element_count())) as int, cb6 as int, self.6.element_count() as int);
                assert(region(a, c0, self.element_count()).subrange((self.0.element_count() + self.1.element_count() + self.2.element_count() + self.3.element_count() + self.4.element_count() + self.5.element_count()) as int, (self.0.element_count() + self.1.element_count() + self.2.element_count() + self.3.element_count() + self.4.element_count() + self.5.element_count() + self.6.element_count()) as int) =~= a.subrange(c0 + (self.0.element_count() + self.1.element_count() + self.2.element_count() + self.3.element_count() + self.4.element_count() + self.5.element_count()) as int, c0 + (self.0.element_count() + self.1.element_count() + self.2.element_count() + self.3.element_count() + self.4.element_count() + self.5.element_count() + self.6.element_count()) as int));
            }
            lemma_kept_compose(a, c0, (self.0.element_count() + self.1.element_count() + self.2.element_count() + self.3.element_count() + self.4.element_count() + self.5.element_count()), b6, cb6, self.6.element_count(), elements.items(), elements.cursor());
        }
        let ghost b7 = elements.items();
        let ghost cb7 = elements.cursor();
        proof {
            assert(b7.skip(cb7 as int).len() == a.skip((c0 + (self.0.element_count() + self.1.element_count() + self.2.element_count() + self.3.element_count() + self.4.element_count() + self.5.element_count() + self.6.element_count())) as int).len());
        }
        self.7.seq_teardown(elements);
        proof {
            assert(self.7.seq_tears_down(region(a, c0, self.element_count()).subrange((self.0.element_count() + self.1.element_count() + self.2.element_count() + self.3.element_count() + self.4.element_count() + self.5.element_count() + self.6.element_count()) as int, (self.0.element_count() + self.1.element_count() + self.2.element_count() + self.3.element_count() + self.4.element_count() + self.5.element_count() + self.6.element_count() + self.7.element_count()) as int))) by {
                lemma_sub_shift(a, b7, (c0 + (self.0.element_count() + self.1.element_count() + self.2.element_count() + self.3.element_count() + self.4.element_count() + self.5.element_count() + self.6.element_count())) as int, cb7 as int, self.7.element_count() as int);
                assert(region(a, c0, self.element_count()).subrange((self.0.element_count() + self.1.element_count() + self.2.element_count() + self.3.element_count() + self.4.element_count() + self.5.element_count() + self.6.element_count()) as int, (self.0.element_count() + self.1.element_count() + self.2.element_count() + self.3.element_count() + self.4.element_count() + self.5.element_count() + self.6.element_count() + self.7.element_count()) as int) =~= a.subrange(c0 + (self.0.element_count() + self.1.element_count() + self.2.element_count() + self.3.element_count() + self.4.element_count() + self.5.element_count() + self.6.element_count()) as int, c0 + (self.0.element_count() + self.1.element_count() + self.2.element_count() + self.3.element_count() + self.4.element_count() + self.5.element_count() + self.6.element_count() + self.7.element_count()) as int));
            }
            lemma_kept_compose(a, c0, (self.0.element_count() + self.1.element_count() + self.2.element_count() + self.3.element_count() + self.4.element_count() + self.5.element_count() + self.6.element_count()), b7, cb7, self.7.element_count(), elements.items(), elements.cursor());
        }
        let ghost b8 = elements.items();
        let ghost cb8 = elements.cursor();
        proof {
            assert(b8.skip(cb8 as int).len() == a.skip((c0 + (self.0.element_count() + self.1.element_count() + self.2.element_count() + self.3.element_count() + self.4.element_count() + self.5.element_count() + self.6.element_count() + self.7.element_count())) as int).len());
        }
        self.8.seq_teardown(elements);
        proof {
            assert(self.8.seq_tears_down(region(a, c0, self.element_count()).subrange((self.0.element_count() + self.1.element_count() + self.2.element_count() + self.3.element_count() + self.4.element_count() + self.5.element_count() + self.6.element_count() + self.7.element_count()) as int, (self.0.element_count() + self.1.element_count() + self.2.element_count() + self.3.element_count() + self.4.element_count() + self.5.element_count() + self.6.element_count() + self.7.element_count() + self.8.element_count()) as int))) by {
                lemma_sub_shift(a, b8, (c0 + (self.0.element_count() + self.1.element_count() + self.2.element_count() + self.3.element_count() + self.4.element_count() + self.5.element_count() + self.6.element_count() + self.7.element_count())) as int, cb8 as int, self.8.element_count() as int);
                assert(region(a, c0, self.element_count()).subrange((self.0.element_count() + self.1.element_count() + self.2.element_count() + self.3.element_count() + self.4.element_count() + self.5.element_count() + self.6.element_count() + self.7.element_count()) as int, (self.0.element_count() + self.1.element_count() + self.2.element_count() + self.3.element_count() + self.4.element_count() + self.5.element_count() + self.6.element_count() + self.7.element_count() + self.8.element_count()) as int) =~= a.subrange(c0 + (self.0.element_count() + self.1.element_count() + self.2.element_count() + self.3.element_count() + self.4.element_count() + self.5.element_count() + self.6.element_count() + self.7.element_count()) as int, c0 + (self.0.element_count() + self.1.element_count() + self.2.element_count() + self.3.element_count() + self.4.element_count() + self.5.element_count() + self.6.element_count() + self.7.element_count() + self.8.element_count()) as int));
            }
            lemma_kept_compose(a, c0, (self.0.element_count() + self.1.element_count() + self.2.element_count() + self.3.element_count() + self.4.element_count() + self.5.element_count() + self.6.element_count() + self.7.element_count()), b8, cb8, self.8.element_count(), elements.items(), elements.cursor());
        }
        let ghost b9 = elements.items();
        let ghost cb9 = elements.cursor();
        proof {
            assert(b9.skip(cb9 as int).len() == a.skip((c0 + (self.0.element_count() + self.1.element_count() + self.2.element_count() + self.3.element_count() + self.4.element_count() + self.5.element_count() + self.6.element_count() + self.7.element_count() + self.8.element_count())) as int).len());
        }
        self.9.seq_teardown(elements);
        proof {
            assert(self.9.seq_tears_down(region(a, c0, self.element_count()).subrange((self.0.element_count() + self.1.element_count() + self.2.element_count() + self.3.element_count() + self.4.element_count() + self.5.element_count() + self.6.element_count() + self.7.element_count() + self.8.element_count()) as int, (self.0.element_count() + self.1.element_count() + self.2.element_count() + self.3.element_count() + self.4.element_count() + self.5.element_count() + self.6.element_count() + self.7.element_count() + self.8.element_count() + self.9.element_count()) as int))) by {
                lemma_sub_shift(a, b9, (c0 + (self.0.element_count() + self.1.element_count() + self.2.element_count() + self.3.element_count() + self.4.element_count() + self.5.element_count() + self.6.element_count() + self.7.element_count() + self.8.element_count())) as int, cb9 as int, self.9.element_count() as int);
                assert(region(a, c0, self.element_count()).subrange((self.0.element_count() + self.1.element_count() + self.2.element_count() + self.3.element_count() + self.4.element_count() + self.5.element_count() + self.6.element_count() + self.7.element_count() + self.8.element_count()) as int, (self.0.element_count() + self.1.element_count() + self.2.element_count() + self.3.element_count() + self.4.element_count() + self.5.element_count() + self.6.element_count() + self.7.element_count() + self.8.element_count() + self.9.element_count()) as int) =~= a.subrange(c0 + (self.0.element_count() + self.1.element_count() + self.2.element_count() + self.3.element_count() + self.4.element_count() + self.5.element_count() + self.6.element_count() + self.7.element_count() + self.8.element_count()) as int, c0 + (self.0.element_count() + self.1.element_count() + self.2.element_count() + self.3.element_count() + self.4.element_count() + self.5.element_count() + self.6.element_count() + self.7.element_count() + self.8.element_count() + self.9.element_count()) as int));
            }
            lemma_kept_compose(a, c0, (self.0.element_count() + self.1.element_count() + self.2.element_count() + self.3.element_count() + self.4.element_count() + self.5.element_count() + self.6.element_count() + self.7.element_count() + self.8.element_count()), b9, cb9, self.9.element_count(), elements.items(), elements.cursor());
        }
        let ghost b10 = elements.items();
        let ghost cb10 = elements.cursor();
        proof {
            assert(b10.skip(cb10 as int).len() == a.skip((c0 + (self.0.element_count() + self.1.element_count() + self.2.element_count() + self.3.element_count() + self.4.element_count() + self.5.element_count() + self.6.element_count() + self.7.element_count() + self.8.element_count() + self.9.element_count())) as int).len());
        }
        self.10.seq_teardown(elements);
        proof {
            assert(self.10.seq_tears_down(region(a, c0, self.element_count()).subrange((self.0.element_count() + self.1.element_count() + self.2.element_count() + self.3.element_count() + self.4.element_count() + self.5.element_count() + self.6.element_count() + self.7.element_count() + self.8.element_count() + self.9.element_count()) as int, (self.0.element_count() + self.1.element_count() + self.2.element_count() + self.3.element_count() + self.4.element_count() + self.5.element_count() + self.6.element_count() + self.7.element_count() + self.8.element_count() + self.9.element_count() + self.10.element_count()) as int))) by {
                lemma_sub_shift(a, b10, (c0 + (self.0.element_count() + self.1.element_count() + self.2.element_count() + self.3.element_count() + self.4.element_count() + self.5.element_count() + self.6.element_count() + self.7.element_count() + self.8.element_count() + self.9.element_count())) as int, cb10 as int, self.10.element_count() as int);
                assert(region(a, c0, self.element_count()).subrange((self.0.element_count() + self.1.element_count() + self.2.element_count() + self.3.element_count() + self.4.element_count() + self.5.element_count() + self.6.element_count() + self.7.element_count() + self.8.element_count() + self.9.element_count()) as int, (self.0.element_count() + self.1.element_count() + self.2.element_count() + self.3.element_count() + self.4.element_count() + self.5.element_count() + self.6.element_count() + self.7.element_count() + self.8.element_count() + self.9.element_count() + self.10.element_count()) as int) =~= a.subrange(c0 + (self.0.element_count() + self.1.element_count() + self.2.element_count() + self.3.element_count() + self.4.element_count() + self.5.element_count() + self.6.element_count() + self.7.element_count() + self.8.element_count() + self.9.element_count()) as int, c0 + (self.0.element_count() + self.1.element_count() + self.2.element_count() + self.3.element_count() + self.4.element_count() + self.5.element_count() + self.6.element_count() + self.7.element_count() + self.8.element_count() + self.9.element_count() + self.10.element_count()) as int));
            }
            lemma_kept_compose(a, c0, (self.0.element_count() + self.1.element_count() + self.2.element_count() + self.3.element_count() + self.4.element_count() + self.5.element_count() + self.6.element_count() + self.7.element_count() + self.8.element_count() + self.9.element_count()), b10, cb10, self.10.element_count(), elements.items(), elements.cursor());
        }
        let ghost b11 = elements.items();
        let ghost cb11 = elements.cursor();
        proof {
            assert(b11.skip(cb11 as int).len() == a.skip((c0 + (self.0.element_count() + self.1.element_count() + self.2.element_count() + self.3.element_count() + self.4.element_count() + self.5.element_count() + self.6.element_count() + self.7.element_count() + self.8.element_count() + self.9.element_count() + self.10.element_count())) as int).len());
        }
        self.11.seq_teardown(elements);
        proof {
            assert(self.11.seq_tears_down(region(a, c0, self.element_count()).subrange((self.0.element_count() + self.1.element_count() + self.2.element_count() + self.3.element_count() + self.4.element_count() + self.5.element_count() + self.6.element_count() + self.7.element_count() + self.8.element_count() + self.9.element_count() + self.10.element_count()) as int, (self.0.element_count() + self.1.element_count() + self.2.element_count() + self.3.element_count() + self.4.element_count() + self.5.element_count() + self.6.element_count() + self.7.element_count() + self.8.element_count() + self.9.element_count() + self.10.element_count() + self.11.element_count()) as int))) by {
                lemma_sub_shift(a, b11, (c0 + (self.0.element_count() + self.1.element_count() + self.2.element_count() + self.3.element_count() + self.4.element_count() + self.5.element_count() + self.6.element_count() + self.7.element_count() + self.8.element_count() + self.9.element_count() + self.10.element_count())) as int, cb11 as int, self.11.element_count() as int);
                assert(region(a, c0, self.element_count()).subrange((self.0.element_count() + self.1.element_count() + self.2.element_count() + self.3.element_count() + self.4.element_count() + self.5.element_count() + self.6.element_count() + self.7.element_count() + self.8.element_count() + self.9.element_count() + self.10.element_count()) as int, (self.0.element_count() + self.1.element_count() + self.2.element_count() + self.3.element_count() + self.4.element_count() + self.5.element_count() + self.6.element_count() + self.7.element_count() + self.8.element_count() + self.9.element_count() + self.10.element_count() + self.11.element_count()) as int) =~= a.subrange(c0 + (self.0.element_count() + self.1.element_count() + self.2.element_count() + self.3.element_count() + self.4.element_count() + self.5.element_count() + self.6.element_count() + self.7.element_count() + self.8.element_count() + self.9.element_count() + self.10.element_count()) as int, c0 + (self.0.element_count() + self.1.element_count() + self.2.element_count() + self.3.element_count() + self.4.element_count() + self.5.element_count() + self.6.element_count() + self.7.element_count() + self.8.element_count() + self.9.element_count() + self.10.element_count() + self.11.element_count()) as int));
            }
            lemma_kept_compose(a, c0, (self.0.element_count() + self.1.element_count() + self.2.element_count() + self.3.element_count() + self.4.element_count() + self.5.element_count() + self.6.element_count() + self.7.element_count() + self.8.element_count() + self.9.element_count() + self.10.element_count()), b11, cb11, self.11.element_count(), elements.items(), elements.cursor());
        }
        let ghost b12 = elements.items();
        let ghost cb12 = elements.cursor();
        proof {
            assert(b12.skip(cb12 as int).len() == a.skip((c0 + (self.0.element_count() + self.1.element_count() + self.2.element_count() + self.3.element_count() + self.4.element_count() + self.5.element_count() + self.6.element_count() + self.7.element_count() + self.8.element_count() + self.9.element_count() + self.10.element_count() + self.11.element_count())) as int).len());
        }
        self.12.seq_teardown(elements);
        proof {
            assert(self.12.seq_tears_down(region(a, c0, self.element_count()).subrange((self.0.element_count() + self.1.element_count() + self.2.element_count() + self.3.element_count() + self.4.element_count() + self.5.element_count() + self.6.element_count() + self.7.element_count() + self.8.element_count() + self.9.element_count() + self.10.element_count() + self.11.element_count()) as int, (self.0.element_count() + self.1.element_count() + self.2.element_count() + self.3.element_count() + self.4.element_count() + self.5.element_count() + self.6.element_count() + self.7.element_count() + self.8.element_count() + self.9.element_count() + self.10.element_count() + self.11.element_count() + self.12.element_count()) as int))) by {
                lemma_sub_shift(a, b12, (c0 + (self.0.element_count() + self.1.element_count() + self.2.element_count() + self.3.element_count() + self.4.element_count() + self.5.element_count() + self.6.element_count() + self.7.element_count() + self.8.element_count() + self.9.element_count() + self.10.element_count() + self.11.element_count())) as int, cb12 as int, self.12.element_count() as int);
                assert(region(a, c0, self.element_count()).subrange((self.0.element_count() + self.1.element_count() + self.2.element_count() + self.3.element_count() + self.4.element_count() + self.5.element_count() + self.6.element_count() + self.7.element_count() + self.8.element_count() + self.9.element_count() + self.10.element_count() + self.11.element_count()) as int, (self.0.element_count() + self.1.element_count() + self.2.element_count() + self.3.element_count() + self.4.element_count() + self.5.element_count() + self.6.element_count() + self.7.element_count() + self.8.element_count() + self.9.element_count() + self.10.element_count() + self.11.element_count() + self.12.element_count()) as int) =~= a.subrange(c0 + (self.0.element_count() + self.1.element_count() + self.2.element_count() + self.3.element_count() + self.4.element_count() + self.5.element_count() + self.6.element_count() + self.7.element_count() + self.8.element_count() + self.9.element_count() + self.10.element_count() + self.11.element_count()) as int, c0 + (self.0.element_count() + self.1.element_count() + self.2.element_count() + self.3.element_count() + self.4.element_count() + self.5.element_count() + self.6.element_count() + self.7.element_count() + self.8.element_count() + self.9.element_count() + self.10.element_count() + self.11.element_count() + self.12.element_count()) as int));
            }
            lemma_kept_compose(a, c0, (self.0.element_count() + self.1.element_count() + self.2.element_count() + self.3.element_count() + self.4.element_count() + self.5.element_count() + self.6.element_count() + self.7.element_count() + self.8.element_count() + self.9.element_count() + self.10.element_count() + self.11.element_count()), b12, cb12, self.12.element_count(), elements.items(), elements.cursor());
        }
        let ghost b13 = elements.items();
        let ghost cb13 = elements.cursor();
        proof {
            assert(b13.skip(cb13 as int).len() == a.skip((c0 + (self.0.element_count() + self.1.element_count() + self.2.element_count() + self.3.element_count() + self.4.element_count() + self.5.element_count() + self.6.element_count() + self.7.element_count() + self.8.element_count() + self.9.element_count() + self.10.element_count() + self.11.element_count() + self.12.element_count())) as int).len());
        }
        self.13.seq_teardown(elements);
        proof {
            assert(self.13.seq_tears_down(region(a, c0, self.element_count()).subrange((self.0.element_count() + self.1.element_count() + self.2.element_count() + self.3.element_count() + self.4.element_count() + self.5.element_count() + self.6.element_count() + self.7.element_count() + self.8.element_count() + self.9.element_count() + self.10.element_count() + self.11.element_count() + self.12.element_count()) as int, (self.0.element_count() + self.1.element_count() + self.2.element_count() + self.3.element_count() + self.4.element_count() + self.5.element_count() + self.6.element_count() + self.7.element_count() + self.8.element_count() + self.9.element_count() + self.10.element_count() + self.11.element_count() + self.12.element_count() + self.13.element_count()) as int))) by {
                lemma_sub_shift(a, b13, (c0 + (self.0.element_count() + self.1.element_count() + self.2.element_count() + self.3.element_count() + self.4.element_count() + self.5.element_count() + self.6.element_count() + self.7.element_count() + self.8.element_count() + self.9.element_count() + self.10.element_count() + self.11.element_count() + self.12.element_count())) as int, cb13 as int, self.13.element_count() as int);
                assert(region(a, c0, self.element_count()).subrange((self.0.element_count() + self.1.element_count() + self.2.element_count() + self.3.element_count() + self.4.element_count() + self.5.element_count() + self.6.element_count() + self.7.element_count() + self.8.element_count() + self.9.element_count() + self.10.element_count() + self.11.element_count() + self.12.element_count()) as int, (self.0.element_count() + self.1.element_count() + self.2.element_count() + self.3.element_count() + self.4.element_count() + self.5.element_count() + self.6.element_count() + self.7.element_count() + self.8.element_count() + self.9.element_count() + self.10.element_count() + self.11.element_count() + self.12.element_count() + self.13.element_count()) as int) =~= a.subrange(c0 + (self.0.element_count() + self.1.element_count() + self.2.element_count() + self.3.element_count() + self.4.element_count() + self.5.element_count() + self.6.element_count() + self.7.element_count() + self.8.element_count() + self.9.element_count() + self.10.element_count() + self.11.element_count() + self.12.element_count()) as int, c0 + (self.0.element_count() + self.1.element_count() + self.2.element_count() + self.3.element_count() + self.4.element_count() + self.5.element_count() + self.6.element_count() + self.7.element_count() + self.8.element_count() + self.9.element_count() + self.10.element_count() + self.11.element_count() + self.12.element_count() + self.13.element_count()) as int));
            }
            lemma_kept_compose(a, c0, (self.0.element_count() + self.1.element_count() + self.2.element_count() + self.3.element_count() + self.4.element_count() + self.5.element_count() + self.6.element_count() + self.7.element_count() + self.8.element_count() + self.9.element_count() + self.10.element_count() + self.11.element_count() + self.12.element_count()), b13, cb13, self.13.element_count(), elements.items(), elements.cursor());
        }
        let ghost b14 = elements.items();
        let ghost cb14 = elements.cursor();
        proof {
            assert(b14.skip(cb14 as int).len() == a.skip((c0 + (self.0.element_count() + self.1.element_count() + self.2.element_count() + self.3.element_count() + self.4.element_count() + self.5.element_count() + self.6.element_count() + self.7.element_count() + self.8.element_count() + self.9.element_count() + self.10.element_count() + self.11.element_count() + self.12.element_count() + self.13.element_count())) as int).len());
        }
        self.14.seq_teardown(elements);
        proof {
            assert(self.14.seq_tears_down(region(a, c0, self.element_count()).subrange((self.0.element_count() + self.1.element_count() + self.2.element_count() + self.3.element_count() + self.4.element_count() + self.5.element_count() + self.6.element_count() + self.7.element_count() + self.8.element_count() + self.9.element_count() + self.10.element_count() + self.11.element_count() + self.12.element_count() + self.13.element_count()) as int, (self.0.element_count() + self.1.element_count() + self.2.element_count() + self.3.element_count() + self.4.element_count() + self.5.element_count() + self.6.element_count() + self.7.element_count() + self.8.element_count() + self.9.element_count() + self.10.element_count() + self.11.element_count() + self.12.element_count() + self.13.element_count() + self.14.element_count()) as int))) by {
                lemma_sub_shift(a, b14, (c0 + (self.0.element_count() + self.1.element_count() + self.2.element_count() + self.3.element_count() + self.4.element_count() + self.5.element_count() + self.6.element_count() + self.7.element_count() + self.8.element_count() + self.9.element_count() + self.10.element_count() + self.11.element_count() + self.12.element_count() + self.13.element_count())) as int, cb14 as int, self.14.element_count() as int);
                assert(region(a, c0, self.element_count()).subrange((self.0.element_count() + self.1.element_count() + self.2.element_count() + self.3.element_count() + self.4.element_count() + self.5.element_count() + self.6.element_count() + self.7.element_count() + self.8.element_count() + self.9.element_count() + self.10.element_count() + self.11.element_count() + self.12.element_count() + self.13.element_count()) as int, (self.0.element_count() + self.1.element_count() + self.2.element_count() + self.3.element_count() + self.4.element_count() + self.5.element_count() + self.6.element_count() + self.7.element_count() + self.8.element_count() + self.9.element_count() + self.10.element_count() + self.11.element_count() + self.12.element_count() + self.13.element_count() + self.14.element_count()) as int) =~= a.subrange(c0 + (self.0.element_count() + self.1.element_count() + self.2.element_count() + self.3.element_count() + self.4.element_count() + self.5.element_count() + self.6.element_count() + self.7.element_count() + self.8.element_count() + self.9.element_count() + self.10.element_count() + self.11.element_count() + self.12.element_count() + self.13.element_count()) as int, c0 + (self.0.element_count() + self.1.element_count() + self.2.element_count() + self.3.element_count() + self.4.element_count() + self.5.element_count() + self.6.element_count() + self.7.element_count() + self.8.element_count() + self.9.element_count() + self.10.element_count() + self.11.element_count() + self.12.element_count() + self.13.element_count() + self.14.element_count()) as int));
            }
            lemma_kept_compose(a, c0, (self.0.element_count() + self.1.element_count() + self.2.element_count() + self.3.element_count() + self.4.element_count() + self.5.element_count() + self.6.element_count() + self.7.element_count() + self.8.element_count() + self.9.element_count() + self.10.element_count() + self.11.element_count() + self.12.element_count() + self.13.element_count()), b14, cb14, self.14.element_count(), elements.items(), elements.cursor());
        }
    }
}

/// A tuple of 16 sequences builds the elements of each, in order.
impl<State, Element, S0, S1, S2, S3, S4, S5, S6, S7, S8, S9, S10, S11, S12, S13, S14, S15> ViewSequence<State, Element> for (S0, S1, S2, S3, S4, S5, S6, S7, S8, S9, S10, S11, S12, S13, S14, S15,) where
    S0: ViewSequence<State, Element>,
    S1: ViewSequence<State, Element>,
    S2: ViewSequence<State, Element>,
    S3: ViewSequence<State, Element>,
    S4: ViewSequence<State, Element>,
    S5: ViewSequence<State, Element>,
    S6: ViewSequence<State, Element>,
    S7: ViewSequence<State, Element>,
    S8: ViewSequence<State, Element>,
    S9: ViewSequence<State, Element>,
    S10: ViewSequence<State, Element>,
    S11: ViewSequence<State, Element>,
    S12: ViewSequence<State, Element>,
    S13: ViewSequence<State, Element>,
    S14: ViewSequence<State, Element>,
    S15: ViewSequence<State, Element>,
 {
    open spec fn element_count(&self) -> nat {
        self.0.element_count() + self.1.element_count() + self.2.element_count() + self.3.element_count() + self.4.element_count() + self.5.element_count() + self.6.element_count() + self.7.element_count() + self.8.element_count() + self.9.element_count() + self.10.element_count() + self.11.element_count() + self.12.element_count() + self.13.element_count() + self.14.element_count() + self.15.element_count()
    }

    open spec fn seq_builds(&self, out: Seq<Element>) -> bool {
        &&& out.len() == self.element_count()
        &&& self.0.seq_builds(out.subrange(0int, (self.0.element_count()) as int))
        &&& self.1.seq_builds(out.subrange((self.0.element_count()) as int, (self.0.element_count() + self.1.element_count()) as int))
        &&& self.2.seq_builds(out.subrange((self.0.element_count() + self.1.element_count()) as int, (self.0.element_count() + self.1.element_count() + self.2.element_count()) as int))
        &&& self.3.seq_builds(out.subrange((self.0.element_count() + self.1.element_count() + self.2.element_count()) as int, (self.0.element_count() + self.1.element_count() + self.2.element_count() + self.3.element_count()) as int))
        &&& self.4.seq_builds(out.subrange((self.0.element_count() + self.1.element_count() + self.2.element_count() + self.3.element_count()) as int, (self.0.element_count() + self.1.element_count() + self.2.element_count() + self.3.element_count() + self.4.element_count()) as int))
        &&& self.5.seq_builds(out.subrange((self.0.element_count() + self.1.element_count() + self.2.element_count() + self.3.element_count() + self.4.element_count()) as int, (self.0.element_count() + self.1.element_count() + self.2.element_count() + self.3.element_count() + self.4.element_count() + self.5.element_count()) as int))
        &&& self.6.seq_builds(out.subrange((self.0.element_count() + self.1.element_count() + self.2.element_count() + self.3.element_count() + self.4.element_count() + self.5.element_count()) as int, (self.0.element_count() + self.1.element_count() + self.2.element_count() + self.3.element_count() + self.4.element_count() + self.5.element_count() + self.6.element_count()) as int))
        &&& self.7.seq_builds(out.subrange((self.0.element_count() + self.1.element_count() + self.2.element_count() + self.3.element_count() + self.4.element_count() + self.5.element_count() + self.6.element_count()) as int, (self.0.element_count() + self.1.element_count() + self.2.element_count() + self.3.element_count() + self.4.element_count() + self.5.element_count() + self.6.element_count() + self.7.element_count()) as int))
        &&& self.8.seq_builds(out.subrange((self.0.element_count() + self.1.element_count() + self.2.element_count() + self.3.element_count() + self.4.element_count() + self.5.element_count() + self.6.element_count() + self.7.element_count()) as int, (self.0.element_count() + self.1.element_count() + self.2.element_count() + self.3.element_count() + self.4.element_count() + self.5.element_count() + self.6.element_count() + self.7.element_count() + self.8.element_count()) as int))
        &&& self.9.seq_builds(out.subrange((self.0.element_count() + self.1.element_count() + self.2.element_count() + self.3.element_count() + self.4.element_count() + self.5.element_count() + self.6.element_count() + self.7.element_count() + self.8.element_count()) as int, (self.0.element_count() + self.1.element_count() + self.2.element_count() + self.3.element_count() + self.4.element_count() + self.5.element_count() + self.6.element_count() + self.7.element_count() + self.8.element_count() + self.9.element_count()) as int))
        &&& self.10.seq_builds(out.subrange((self.0.element_count() + self.1.element_count() + self.2.element_count() + self.3.element_count() + self.4.element_count() + self.5.element_count() + self.6.element_count() + self.7.element_count() + self.8.element_count() + self.9.element_count()) as int, (self.0.element_count() + self.1.element_count() + self.2.element_count() + self.3.element_count() + self.4.element_count() + self.5.element_count() + self.6.element_count() + self.7.element_count() + self.8.element_count() + self.9.element_count() + self.10.element_count()) as int))
        &&& self.11.seq_builds(out.subrange((self.0.element_count() + self.1.element_count() + self.2.element_count() + self.3.element_count() + self.4.element_count() + self.5.element_count() + self.6.element_count() + self.7.element_count() + self.8.element_count() + self.9.element_count() + self.10.element_count()) as int, (self.0.element_count() + self.1.element_count() + self.2.element_count() + self.3.element_count() + self.4.element_count() + self.5.element_count() + self.6.element_count() + self.7.element_count() + self.8.element_count() + self.9.element_count() + self.10.element_count() + self.11.element_count()) as int))
        &&& self.12.seq_builds(out.subrange((self.0.element_count() + self.1.element_count() + self.2.element_count() + self.3.element_count() + self.4.element_count() + self.5.element_count() + self.6.element_count() + self.7.element_count() + self.8.element_count() + self.9.element_count() + self.10.element_count() + self.11.element_count()) as int, (self.0.element_count() + self.1.element_count() + self.2.element_count() + self.3.element_count() + self.4.element_count() + self.5.element_count() + self.6.element_count() + self.7.element_count() + self.8.element_count() + self.9.element_count() + self.10.element_count() + self.11.element_count() + self.12.element_count()) as int))
        &&& self.13.seq_builds(out.subrange((self.0.element_count() + self.1.element_count() + self.2.element_count() + self.3.element_count() + self.4.element_count() + self.5.element_count() + self.6.element_count() + self.7.element_count() + self.8.element_count() + self.9.element_count() + self.10.element_count() + self.11.element_count() + self.12.element_count()) as int, (self.0.element_count() + self.1.element_count() + self.2.element_count() + self.3.element_count() + self.4.element_count() + self.5.element_count() + self.6.element_count() + self.7.element_count() + self.8.element_count() + self.9.element_count() + self.10.element_count() + self.11.element_count() + self.12.element_count() + self.13.element_count()) as int))
        &&& self.14.seq_builds(out.subrange((self.0.element_count() + self.1.element_count() + self.2.element_count() + self.3.element_count() + self.4.element_count() + self.5.element_count() + self.6.element_count() + self.7.element_count() + self.8.element_count() + self.9.element_count() + self.10.element_count() + self.11.element_count() + self.12.element_count() + self.13.element_count()) as int, (self.0.element_count() + self.1.element_count() + self.2.element_count() + self.3.element_count() + self.4.element_count() + self.5.element_count() + self.6.element_count() + self.7.element_count() + self.8.element_count() + self.9.element_count() + self.10.element_count() + self.11.element_count() + self.12.element_count() + self.13.element_count() + self.14.element_count()) as int))
        &&& self.15.seq_builds(out.subrange((self.0.element_count() + self.1.element_count() + self.2.element_count() + self.3.element_count() + self.4.element_count() + self.5.element_count() + self.6.element_count() + self.7.element_count() + self.8.element_count() + self.9.element_count() + self.10.element_count() + self.11.element_count() + self.12.element_count() + self.13.element_count() + self.14.element_count()) as int, (self.0.element_count() + self.1.element_count() + self.2.element_count() + self.3.element_count() + self.4.element_count() + self.5.element_count() + self.6.element_count() + self.7.element_count() + self.8.element_count() + self.9.element_count() + self.10.element_count() + self.11.element_count() + self.12.element_count() + self.13.element_count() + self.14.element_count() + self.15.element_count()) as int))
    }

    open spec fn seq_rebuilds(&self, prev: &Self, before: Seq<Element>, after: Seq<Element>) -> bool {
        &&& before.len() == prev.element_count()
        &&& after.len() == self.element_count()
        &&& self.0.seq_rebuilds(
            &prev.0,
            before.subrange(0int, (prev.0.element_count()) as int),
            after.subrange(0int, (self.0.element_count()) as int),
        )
        &&& self.1.seq_rebuilds(
            &prev.1,
            before.subrange((prev.0.element_count()) as int, (prev.0.element_count() + prev.1.element_count()) as int),
            after.subrange((self.0.element_count()) as int, (self.0.element_count() + self.1.element_count()) as int),
        )
        &&& self.2.seq_rebuilds(
            &prev.2,
            before.subrange((prev.0.element_count() + prev.1.element_count()) as int, (prev.0.element_count() + prev.1.element_count() + prev.2.element_count()) as int),
            after.subrange((self.0.element_count() + self.1.element_count()) as int, (self.0.element_count() + self.1.element_count() + self.2.element_count()) as int),
        )
        &&& self.3.seq_rebuilds(
            &prev.3,
            before.subrange((prev.0.element_count() + prev.1.element_count() + prev.2.element_count()) as int, (prev.0.element_count() + prev.1.element_count() + prev.2.element_count() + prev.3.element_count()) as int),
            after.subrange((self.0.element_count() + self.1.element_count() + self.2.element_count()) as int, (self.0.element_count() + self.1.element_count() + self.2.element_count() + self.3.element_count()) as int),
        )
        &&& self.4.seq_rebuilds(
            &prev.4,
            before.subrange((prev.0.element_count() + prev.1.element_count() + prev.2.element_count() + prev.3.element_count()) as int, (prev.0.element_count() + prev.1.element_count() + prev.2.element_count() + prev.3.element_count() + prev.4.element_count()) as int),
            after.subrange((self.0.element_count() + self.1.element_count() + self.2.element_count() + self.3.element_count()) as int, (self.0.element_count() + self.1.element_count() + self.2.element_count() + self.3.element_count() + self.4.element_count()) as int),
        )
        &&& self.5.seq_rebuilds(
            &prev.5,
            before.subrange((prev.0.element_count() + prev.1.element_count() + prev.2.element_count() + prev.3.element_count() + prev.4.element_count()) as int, (prev.0.element_count() + prev.1.element_count() + prev.2.element_count() + prev.3.element_count() + prev.4.element_count() + prev.5.element_count()) as int),
            after.subrange((self.0.element_count() + self.1.element_count() + self.2.element_count() + self.3.element_count() + self.4.element_count()) as int, (self.0.element_count() + self.1.element_count() + self.2.element_count() + self.3.element_count() + self.4.element_count() + self.5.element_count()) as int),
        )
        &&& self.6.seq_rebuilds(
            &prev.6,
            before.subrange((prev.0.element_count() + prev.1.element_count() + prev.2.element_count() + prev.3.element_count() + prev.4.element_count() + prev.5.element_count()) as int, (prev.0.element_count() + prev.1.element_count() + prev.2.element_count() + prev.3.element_count() + prev.4.element_count() + prev.5.element_count() + prev.6.element_count()) as int),
            after.subrange((self.0.element_count() + self.1.element_count() + self.2.element_count() + self.3.element_count() + self.4.element_count() + self.5.element_count()) as int, (self.0.element_count() + self.1.element_count() + self.2.element_count() + self.3.element_count() + self.4.element_count() + self.5.element_count() + self.6.element_count()) as int),
        )
        &&& self.7.seq_rebuilds(
            &prev.7,
            before.subrange((prev.0.element_count() + prev.1.element_count() + prev.2.element_count() + prev.3.element_count() + prev.4.element_count() + prev.5.element_count() + prev.6.element_count()) as int, (prev.0.element_count() + prev.1.element_count() + prev.2.element_count() + prev.3.element_count() + prev.4.element_count() + prev.5.element_count() + prev.6.element_count() + prev.7.element_count()) as int),
            after.subrange((self.0.element_count() + self.1.element_count() + self.2.element_count() + self.3.element_count() + self.4.element_count() + self.5.element_count() + self.6.element_count()) as int, (self.0.element_count() + self.1.element_count() + self.2.element_count() + self.3.element_count() + self.4.element_count() + self.5.element_count() + self.6.element_count() + self.7.element_count()) as int),
        )
        &&& self.8.seq_rebuilds(
            &prev.8,
            before.subrange((prev.0.element_count() + prev.1.element_count() + prev.2.element_count() + prev.3.element_count() + prev.4.element_count() + prev.5.element_count() + prev.6.element_count() + prev.7.element_count()) as int, (prev.0.element_count() + prev.1.element_count() + prev.2.element_count() + prev.3.element_count() + prev.4.element_count() + prev.5.element_count() + prev.6.element_count() + prev.7.element_count() + prev.8.element_count()) as int),
            after.subrange((self.0.element_count() + self.1.element_count() + self.2.element_count() + self.3.element_count() + self.4.element_count() + self.5.element_count() + self.6.element_count() + self.7.element_count()) as int, (self.0.element_count() + self.1.element_count() + self.2.element_count() + self.3.element_count() + self.4.element_count() + self.5.element_count() + self.6.element_count() + self.7.element_count() + self.8.element_count()) as int),
        )
        &&& self.9.seq_rebuilds(
            &prev.9,
            before.subrange((prev.0.element_count() + prev.1.element_count() + prev.2.element_count() + prev.3.element_count() + prev.4.element_count() + prev.5.element_count() + prev.6.element_count() + prev.7.element_count() + prev.8.element_count()) as int, (prev.0.element_count() + prev.1.element_count() + prev.2.element_count() + prev.3.element_count() + prev.4.element_count() + prev.5.element_count() + prev.6.element_count() + prev.7.element_count() + prev.8.element_count() + prev.9.element_count()) as int),
            after.subrange((self.0.element_count() + self.1.element_count() + self.2.element_count() + self.3.element_count() + self.4.element_count() + self.5.element_count() + self.6.element_count() + self.7.element_count() + self.8.element_count()) as int, (self.0.element_count() + self.1.element_count() + self.2.element_count() + self.3.element_count() + self.4.element_count() + self.5.element_count() + self.6.element_count() + self.7.element_count() + self.8.element_count() + self.9.element_count()) as int),
        )
        &&& self.10.seq_rebuilds(
            &prev.10,
            before.subrange((prev.0.element_count() + prev.1.element_count() + prev.2.element_count() + prev.3.element_count() + prev.4.element_count() + prev.5.element_count() + prev.6.element_count() + prev.7.element_count() + prev.8.element_count() + prev.9.element_count()) as int, (prev.0.element_count() + prev.1.element_count() + prev.2.element_count() + prev.3.element_count() + prev.4.element_count() + prev.5.element_count() + prev.6.element_count() + prev.7.element_count() + prev.8.element_count() + prev.9.element_count() + prev.10.element_count()) as int),
            after.subrange((self.0.element_count() + self.1.element_count() + self.2.element_count() + self.3.element_count() + self.4.element_count() + self.5.element_count() + self.6.element_count() + self.7.element_count() + self.8.element_count() + self.9.element_count()) as int, (self.0.element_count() + self.1.element_count() + self.2.element_count() + self.3.element_count() + self.4.element_count() + self.5.element_count() + self.6.element_count() + self.7.element_count() + self.8.element_count() + self.9.element_count() + self.10.element_count()) as int),
        )
        &&& self.11.seq_rebuilds(
            &prev.11,
            before.subrange((prev.0.element_count() + prev.1.element_count() + prev.2.element_count() + prev.3.element_count() + prev.4.element_count() + prev.5.element_count() + prev.6.element_count() + prev.7.element_count() + prev.8.element_count() + prev.9.element_count() + prev.10.element_count()) as int, (prev.0.element_count() + prev.1.element_count() + prev.2.element_count() + prev.3.element_count() + prev.4.element_count() + prev.5.element_count() + prev.6.element_count() + prev.7.element_count() + prev.8.element_count() + prev.9.element_count() + prev.10.element_count() + prev.11.element_count()) as int),
            after.subrange((self.0.element_count() + self.1.element_count() + self.2.element_count() + self.3.element_count() + self.4.element_count() + self.5.element_count() + self.6.element_count() + self.7.element_count() + self.8.element_count() + self.9.element_count() + self.10.element_count()) as int, (self.0.element_count() + self.1.element_count() + self.2.element_count() + self.3.element_count() + self.4.element_count() + self.5.element_count() + self.6.element_count() + self.7.element_count() + self.8.element_count() + self.9.element_count() + self.10.element_count() + self.11.element_count()) as int),
        )
        &&& self.12.seq_rebuilds(
            &prev.12,
            before.subrange((prev.0.element_count() + prev.1.element_count() + prev.2.element_count() + prev.3.element_count() + prev.4.element_count() + prev.5.element_count() + prev.6.element_count() + prev.7.element_count() + prev.8.element_count() + prev.9.element_count() + prev.10.element_count() + prev.11.element_count()) as int, (prev.0.element_count() + prev.1.element_count() + prev.2.element_count() + prev.3.element_count() + prev.4.element_count() + prev.5.element_count() + prev.6.element_count() + prev.7.element_count() + prev.8.element_count() + prev.9.element_count() + prev.10.element_count() + prev.11.element_count() + prev.12.element_count()) as int),
            after.subrange((self.0.element_count() + self.1.element_count() + self.2.element_count() + self.3.element_count() + self.4.element_count() + self.5.element_count() + self.6.element_count() + self.7.element_count() + self.8.element_count() + self.9.element_count() + self.10.element_count() + self.11.element_count()) as int, (self.0.element_count() + self.1.element_count() + self.2.element_count() + self.3.element_count() + self.4.element_count() + self.5.element_count() + self.6.element_count() + self.7.element_count() + self.8.element_count() + self.9.element_count() + self.10.element_count() + self.11.element_count() + self.12.element_count()) as int),
        )
        &&& self.13.seq_rebuilds(
            &prev.13,
            before.subrange((prev.0.element_count() + prev.1.element_count() + prev.2.element_count() + prev.3.element_count() + prev.4.element_count() + prev.5.element_count() + prev.6.element_count() + prev.7.element_count() + prev.8.element_count() + prev.9.element_count() + prev.10.element_count() + prev.11.element_count() + prev.12.element_count()) as int, (prev.0.element_count() + prev.1.element_count() + prev.2.element_count() + prev.3.element_count() + prev.4.element_count() + prev.5.element_count() + prev.6.element_count() + prev.7.element_count() + prev.8.element_count() + prev.9.element_count() + prev.10.element_count() + prev.11.element_count() + prev.12.element_count() + prev.13.element_count()) as int),
            after.subrange((self.0.element_count() + self.1.element_count() + self.2.element_count() + self.3.element_count() + self.4.element_count() + self.5.element_count() + self.6.element_count() + self.7.element_count() + self.8.element_count() + self.9.element_count() + self.10.element_count() + self.11.element_count() + self.12.element_count()) as int, (self.0.element_count() + self.1.element_count() + self.2.element_count() + self.3.element_count() + self.4.element_count() + self.5.element_count() + self.6.element_count() + self.7.element_count() + self.8.element_count() + self.9.element_count() + self.10.element_count() + self.11.element_count() + self.12.element_count() + self.13.element_count()) as int),
        )
        &&& self.14.seq_rebuilds(
            &prev.14,
            before.subrange((prev.0.element_count() + prev.1.element_count() + prev.2.element_count() + prev.3.element_count() + prev.4.element_count() + prev.5.element_count() + prev.6.element_count() + prev.7.element_count() + prev.8.element_count() + prev.9.element_count() + prev.10.element_count() + prev.11.element_count() + prev.12.element_count() + prev.13.element_count()) as int, (prev.0.element_count() + prev.1.element_count() + prev.2.element_count() + prev.3.element_count() + prev.4.element_count() + prev.5.element_count() + prev.6.element_count() + prev.7.element_count() + prev.8.element_count() + prev.9.element_count() + prev.10.element_count() + prev.11.element_count() + prev.12.element_count() + prev.13.element_count() + prev.14.element_count()) as int),
            after.subrange((self.0.element_count() + self.1.element_count() + self.2.element_count() + self.3.element_count() + self.4.element_count() + self.5.element_count() + self.6.element_count() + self.7.element_count() + self.8.element_count() + self.9.element_count() + self.10.element_count() + self.11.element_count() + self.12.element_count() + self.13.element_count()) as int, (self.0.element_count() + self.1.element_count() + self.2.element_count() + self.3.element_count() + self.4.element_count() + self.5.element_count() + self.6.element_count() + self.7.element_count() + self.8.element_count() + self.9.element_count() + self.10.element_count() + self.11.element_count() + self.12.element_count() + self.13.element_count() + self.14.element_count()) as int),
        )
        &&& self.15.seq_rebuilds(
            &prev.15,
            before.subrange((prev.0.element_count() + prev.1.element_count() + prev.2.element_count() + prev.3.element_count() + prev.4.element_count() + prev.5.element_count() + prev.6.element_count() + prev.7.element_count() + prev.8.element_count() + prev.9.element_count() + prev.10.element_count() + prev.11.element_count() + prev.12.element_count() + prev.13.element_count() + prev.14.element_count()) as int, (prev.0.element_count() + prev.1.element_count() + prev.2.element_count() + prev.3.element_count() + prev.4.element_count() + prev.5.element_count() + prev.6.element_count() + prev.7.element_count() + prev.8.element_count() + prev.9.element_count() + prev.10.element_count() + prev.11.element_count() + prev.12.element_count() + prev.13.element_count() + prev.14.element_count() + prev.15.element_count()) as int),
            after.subrange((self.0.element_count() + self.1.element_count() + self.2.element_count() + self.3.element_count() + self.4.element_count() + self.5.element_count() + self.6.element_count() + self.7.element_count() + self.8.element_count() + self.9.element_count() + self.10.element_count() + self.11.element_count() + self.12.element_count() + self.13.element_count() + self.14.element_count()) as int, (self.0.element_count() + self.1.element_count() + self.2.element_count() + self.3.element_count() + self.4.element_count() + self.5.element_count() + self.6.element_count() + self.7.element_count() + self.8.element_count() + self.9.element_count() + self.10.element_count() + self.11.element_count() + self.12.element_count() + self.13.element_count() + self.14.element_count() + self.15.element_count()) as int),
        )
    }

    open spec fn seq_tears_down(&self, before: Seq<Element>) -> bool {
        &&& before.len() == self.element_count()
        &&& self.0.seq_tears_down(before.subrange(0int, (self.0.element_count()) as int))
        &&& self.1.seq_tears_down(before.subrange((self.0.element_count()) as int, (self.0.element_count() + self.1.element_count()) as int))
        &&& self.2.seq_tears_down(before.subrange((self.0.element_count() + self.1.element_count()) as int, (self.0.element_count() + self.1.element_count() + self.2.element_count()) as int))
        &&& self.3.seq_tears_down(before.subrange((self.0.element_count() + self.1.element_count() + self.2.element_count()) as int, (self.0.element_count() + self.1.element_count() + self.2.element_count() + self.3.element_count()) as int))
        &&& self.4.seq_tears_down(before.subrange((self.0.element_count() + self.1.element_count() + self.2.element_count() + self.3.element_count()) as int, (self.0.element_count() + self.1.element_count() + self.2.element_count() + self.3.element_count() + self.4.element_count()) as int))
        &&& self.5.seq_tears_down(before.subrange((self.0.element_count() + self.1.element_count() + self.2.element_count() + self.3.element_count() + self.4.element_count()) as int, (self.0.element_count() + self.1.element_count() + self.2.element_count() + self.3.element_count() + self.4.element_count() + self.5.element_count()) as int))
        &&& self.6.seq_tears_down(before.subrange((self.0.element_count() + self.1.element_count() + self.2.element_count() + self.3.element_count() + self.4.element_count() + self.5.element_count()) as int, (self.0.element_count() + self.1.element_count() + self.2.element_count() + self.3.element_count() + self.4.element_count() + self.5.element_count() + self.6.element_count()) as int))
        &&& self.7.seq_tears_down(before.subrange((self.0.element_count() + self.1.element_count() + self.2.element_count() + self.3.element_count() + self.4.element_count() + self.5.element_count() + self.6.element_count()) as int, (self.0.element_count() + self.1.element_count() + self.2.element_count() + self.3.element_count() + self.4.element_count() + self.5.element_count() + self.6.element_count() + self.7.element_count()) as int))
        &&& self.8.seq_tears_down(before.subrange((self.0.element_count() + self.1.element_count() + self.2.element_count() + self.3.element_count() + self.4.element_count() + self.5.element_count() + self.6.element_count() + self.7.element_count()) as int, (self.0.element_count() + self.1.element_count() + self.2.element_count() + self.3.element_count() + self.4.element_count() + self.5.element_count() + self.6.element_count() + self.7.element_count() + self.8.element_count()) as int))
        &&& self.9.seq_tears_down(before.subrange((self.0.element_count() + self.1.element_count() + self.2.element_count() + self.3.element_count() + self.4.element_count() + self.5.element_count() + self.6.element_count() + self.7.element_count() + self.8.element_count()) as int, (self.0.element_count() + self.1.element_count() + self.2.element_count() + self.3.element_count() + self.4.element_count() + self.5.element_count() + self.6.element_count() + self.7.element_count() + self.8.element_count() + self.9.element_count()) as int))
        &&& self.10.seq_tears_down(before.subrange((self.0.element_count() + self.1.element_count() + self.2.element_count() + self.3.element_count() + self.4.element_count() + self.5.element_count() + self.6.element_count() + self.7.element_count() + self.8.element_count() + self.9.element_count()) as int, (self.0.element_count() + self.1.element_count() + self.2.element_count() + self.3.element_count() + self.4.element_count() + self.5.element_count() + self.6.element_count() + self.7.element_count() + self.8.element_count() + self.9.element_count() + self.10.element_count()) as int))
        &&& self.11.seq_tears_down(before.subrange((self.0.element_count() + self.1.element_count() + self.2.element_count() + self.3.element_count() + self.4.element_count() + self.5.element_count() + self.6.element_count() + self.7.element_count() + self.8.element_count() + self.9.element_count() + self.10.element_count()) as int, (self.0.element_count() + self.1.element_count() + self.2.element_count() + self.3.element_count() + self.4.element_count() + self.5.element_count() + self.6.element_count() + self.7.element_count() + self.8.element_count() + self.9.element_count() + self.10.element_count() + self.11.element_count()) as int))
        &&& self.12.seq_tears_down(before.subrange((self.0.element_count() + self.1.element_count() + self.2.element_count() + self.3.element_count() + self.4.element_count() + self.5.element_count() + self.6.element_count() + self.7.element_count() + self.8.element_count() + self.9.element_count() + self.10.element_count() + self.11.element_count()) as int, (self.0.element_count() + self.1.element_count() + self.2.element_count() + self.3.element_count() + self.4.element_count() + self.5.element_count() + self.6.element_count() + self.7.element_count() + self.8.element_count() + self.9.element_count() + self.10.element_count() + self.11.element_count() + self.12.element_count()) as int))
        &&& self.13.seq_tears_down(before.subrange((self.0.element_count() + self.1.element_count() + self.2.element_count() + self.3.element_count() + self.4.element_count() + self.5.element_count() + self.6.element_count() + self.7.element_count() + self.8.element_count() + self.9.element_count() + self.10.element_count() + self.11.element_count() + self.12.element_count()) as int, (self.0.element_count() + self.1.element_count() + self.2.element_count() + self.3.element_count() + self.4.element_count() + self.5.element_count() + self.6.element_count() + self.7.element_count() + self.8.element_count() + self.9.element_count() + self.10.element_count() + self.11.element_count() + self.12.element_count() + self.13.element_count()) as int))
        &&& self.14.seq_tears_down(before.subrange((self.0.element_count() + self.1.element_count() + self.2.element_count() + self.3.element_count() + self.4.element_count() + self.5.element_count() + self.6.element_count() + self.7.element_count() + self.8.element_count() + self.9.element_count() + self.10.element_count() + self.11.element_count() + self.12.element_count() + self.13.element_count()) as int, (self.0.element_count() + self.1.element_count() + self.2.element_count() + self.3.element_count() + self.4.element_count() + self.5.element_count() + self.6.element_count() + self.7.element_count() + self.8.element_count() + self.9.element_count() + self.10.element_count() + self.11.element_count() + self.12.element_count() + self.13.element_count() + self.14.element_count()) as int))
        &&& self.15.seq_tears_down(before.subrange((self.0.element_count() + self.1.element_count() + self.2.element_count() + self.3.element_count() + self.4.element_count() + self.5.element_count() + self.6.element_count() + self.7.element_count() + self.8.element_count() + self.9.element_count() + self.10.element_count() + self.11.element_count() + self.12.element_count() + self.13.element_count() + self.14.element_count()) as int, (self.0.element_count() + self.1.element_count() + self.2.element_count() + self.3.element_count() + self.4.element_count() + self.5.element_count() + self.6.element_count() + self.7.element_count() + self.8.element_count() + self.9.element_count() + self.10.element_count() + self.11.element_count() + self.12.element_count() + self.13.element_count() + self.14.element_count() + self.15.element_count()) as int))
    }

    #[verifier::spinoff_prover]
    #[verifier::rlimit(100)]
    fn seq_build(&self, elements: &mut Vec<Element>) {
        let ghost start = elements@;
        let ghost sl = start.len() as int;
        let ghost b0 = elements@;
        self.0.seq_build(elements);
        let ghost f0 = elements@;
        let ghost b1 = elements@;
        self.1.seq_build(elements);
        let ghost f1 = elements@;
        proof {
            lemma_prefix_kept(start, b1, elements@);
        }
        let ghost b2 = elements@;
        self.2.seq_build(elements);
        let ghost f2 = elements@;
        proof {
            lemma_prefix_kept(start, b2, elements@);
        }
        let ghost b3 = elements@;
        self.3.seq_build(elements);
        let ghost f3 = elements@;
        proof {
            lemma_prefix_kept(start, b3, elements@);
        }
        let ghost b4 = elements@;
        self.4.seq_build(elements);
        let ghost f4 = elements@;
        proof {
            lemma_prefix_kept(start, b4, elements@);
        }
        let ghost b5 = elements@;
        self.5.seq_build(elements);
        let ghost f5 = elements@;
        proof {
            lemma_prefix_kept(start, b5, elements@);
        }
        let ghost b6 = elements@;
        self.6.seq_build(elements);
        let ghost f6 = elements@;
        proof {
            lemma_prefix_kept(start, b6, elements@);
        }
        let ghost b7 = elements@;
        self.7.seq_build(elements);
        let ghost f7 = elements@;
        proof {
            lemma_prefix_kept(start, b7, elements@);
        }
        let ghost b8 = elements@;
        self.8.seq_build(elements);
        let ghost f8 = elements@;
        proof {
            lemma_prefix_kept(start, b8, elements@);
        }
        let ghost b9 = elements@;
        self.9.seq_build(elements);
        let ghost f9 = elements@;
        proof {
            lemma_prefix_kept(start, b9, elements@);
        }
        let ghost b10 = elements@;
        self.10.seq_build(elements);
        let ghost f10 = elements@;
        proof {
            lemma_prefix_kept(start, b10, elements@);
        }
        let ghost b11 = elements@;
        self.11.seq_build(elements);
        let ghost f11 = elements@;
        proof {
            lemma_prefix_kept(start, b11, elements@);
        }
        let ghost b12 = elements@;
        self.12.seq_build(elements);
        let ghost f12 = elements@;
        proof {
            lemma_prefix_kept(start, b12, elements@);
        }
        let ghost b13 = elements@;
        self.13.seq_build(elements);
        let ghost f13 = elements@;
        proof {
            lemma_prefix_kept(start, b13, elements@);
        }
        let ghost b14 = elements@;
        self.14.seq_build(elements);
        let ghost f14 = elements@;
        proof {
            lemma_prefix_kept(start, b14, elements@);
        }
        let ghost b15 = elements@;
        self.15.seq_build(elements);
        let ghost f15 = elements@;
        proof {
            lemma_prefix_kept(start, b15, elements@);
        }
        proof {
            let fin = elements@;
            assert(fin.take(fin.len() as int) =~= f15.take(fin.len() as int));
            assert(f15.take(b15.len() as int) == b15);
            assert(b15.take(b15.len() as int) =~= b15);
            lemma_take_link(fin, f15, b15, b15.len() as int, fin.len() as int);
            assert(b14.take(b14.len() as int) =~= b14);
            lemma_take_link(fin, f14, b14, b14.len() as int, b15.len() as int);
            assert(b13.take(b13.len() as int) =~= b13);
            lemma_take_link(fin, f13, b13, b13.len() as int, b14.len() as int);
            assert(b12.take(b12.len() as int) =~= b12);
            lemma_take_link(fin, f12, b12, b12.len() as int, b13.len() as int);
            assert(b11.take(b11.len() as int) =~= b11);
            lemma_take_link(fin, f11, b11, b11.len() as int, b12.len() as int);
            assert(b10.take(b10.len() as int) =~= b10);
            lemma_take_link(fin, f10, b10, b10.len() as int, b11.len() as int);
            assert(b9.take(b9.len() as int) =~= b9);
            lemma_take_link(fin, f9, b9, b9.len() as int, b10.len() as int);
            assert(b8.take(b8.len() as int) =~= b8);
            lemma_take_link(fin, f8, b8, b8.len() as int, b9.len() as int);
            assert(b7.take(b7.len() as int) =~= b7);
            lemma_take_link(fin, f7, b7, b7.len() as int, b8.len() as int);
            assert(b6.take(b6.len() as int) =~= b6);
            lemma_take_link(fin, f6, b6, b6.len() as int, b7.len() as int);
            assert(b5.take(b5.len() as int) =~= b5);
            lemma_take_link(fin, f5, b5, b5.len() as int, b6.len() as int);
            assert(b4.take(b4.len() as int) =~= b4);
            lemma_take_link(fin, f4, b4, b4.len() as int, b5.len() as int);
            assert(b3.take(b3.len() as int) =~= b3);
            lemma_take_link(fin, f3, b3, b3.len() as int, b4.len() as int);
            assert(b2.take(b2.len() as int) =~= b2);
            lemma_take_link(fin, f2, b2, b2.len() as int, b3.len() as int);
            assert(b1.take(b1.len() as int) =~= b1);
            lemma_take_link(fin, f1, b1, b1.len() as int, b2.len() as int);
            assert(self.0.seq_builds(fin.skip(sl).subrange(0int, (self.0.element_count()) as int))) by {
                lemma_sub_stable(fin, f0, b1.len() as int, sl + 0int, sl + (self.0.element_count()) as int);
                assert(f0.skip(b0.len() as int) =~= f0.subrange(sl + 0int, sl + (self.0.element_count()) as int));
                assert(fin.skip(sl).subrange(0int, (self.0.element_count()) as int) =~= fin.subrange(sl + 0int, sl + (self.0.element_count()) as int));
            }
            assert(self.1.seq_builds(fin.skip(sl).subrange((self.0.element_count()) as int, (self.0.element_count() + self.1.element_count()) as int))) by {
                lemma_sub_stable(fin, f1, b2.len() as int, sl + (self.0.element_count()) as int, sl + (self.0.element_count() + self.1.element_count()) as int);
                assert(f1.skip(b1.len() as int) =~= f1.subrange(sl + (self.0.element_count()) as int, sl + (self.0.element_count() + self.1.element_count()) as int));
                assert(fin.skip(sl).subrange((self.0.element_count()) as int, (self.0.element_count() + self.1.element_count()) as int) =~= fin.subrange(sl + (self.0.element_count()) as int, sl + (self.0.element_count() + self.1.element_count()) as int));
            }
            assert(self.2.seq_builds(fin.skip(sl).subrange((self.0.element_count() + self.1.element_count()) as int, (self.0.element_count() + self.1.element_count() + self.2.element_count()) as int))) by {
                lemma_sub_stable(fin, f2, b3.len() as int, sl + (self.0.element_count() + self.1.element_count()) as int, sl + (self.0.element_count() + self.1.element_count() + self.2.element_count()) as int);
                assert(f2.skip(b2.len() as int) =~= f2.subrange(sl + (self.0.element_count() + self.1.element_count()) as int, sl + (self.0.element_count() + self.1.element_count() + self.2.element_count()) as int));
                assert(fin.skip(sl).subrange((self.0.element_count() + self.1.element_count()) as int, (self.0.element_count() + self.1.element_count() + self.2.element_count()) as int) =~= fin.subrange(sl + (self.0.element_count() + self.1.element_count()) as int, sl + (self.0.element_count() + self.1.element_count() + self.2.element_count()) as int));
            }
            assert(self.3.seq_builds(fin.skip(sl).subrange((self.0.element_count() + self.1.element_count() + self.2.element_count()) as int, (self.0.element_count() + self.1.element_count() + self.2.element_count() + self.3.element_count()) as int))) by {
                lemma_sub_stable(fin, f3, b4.len() as int, sl + (self.0.element_count() + self.1.element_count() + self.2.element_count()) as int, sl + (self.0.element_count() + self.1.element_count() + self.2.element_count() + self.3.element_count()) as int);
                assert(f3.skip(b3.len() as int) =~= f3.subrange(sl + (self.0.element_count() + self.1.element_count() + self.2.element_count()) as int, sl + (self.0.element_count() + self.1.element_count() + self.2.element_count() + self.3.element_count()) as int));
                assert(fin.skip(sl).subrange((self.0.element_count() + self.1.element_count() + self.2.element_count()) as int, (self.0.element_count() + self.1.element_count() + self.2.element_count() + self.3.element_count()) as int) =~= fin.subrange(sl + (self.0.element_count() + self.1.element_count() + self.2.element_count()) as int, sl + (self.0.element_count() + self.1.element_count() + self.2.element_count() + self.3.element_count()) as int));
            }
            assert(self.4.seq_builds(fin.skip(sl).subrange((self.0.element_count() + self.1.element_count() + self.2.element_count() + self.3.element_count()) as int, (self.0.element_count() + self.1.element_count() + self.2.element_count() + self.3.element_count() + self.4.element_count()) as int))) by {
                lemma_sub_stable(fin, f4, b5.len() as int, sl + (self.0.element_count() + self.1.element_count() + self.2.element_count() + self.3.element_count()) as int, sl + (self.0.element_count() + self.1.element_count() + self.2.element_count() + self.3.element_count() + self.4.element_count()) as int);
                assert(f4.skip(b4.len() as int) =~= f4.subrange(sl + (self.0.element_count() + self.1.element_count() + self.2.element_count() + self.3.element_count()) as int, sl + (self.0.element_count() + self.1.element_count() + self.2.element_count() + self.3.element_count() + self.4.element_count()) as int));
                assert(fin.skip(sl).subrange((self.0.element_count() + self.1.element_count() + self.2.element_count() + self.3.element_count()) as int, (self.0.element_count() + self.1.element_count() + self.2.element_count() + self.3.element_count() + self.4.element_count()) as int) =~= fin.subrange(sl + (self.0.element_count() + self.1.element_count() + self.2.element_count() + self.3.element_count()) as int, sl + (self.0.element_count() + self.1.element_count() + self.2.element_count() + self.3.element_count() + self.4.element_count()) as int));
            }
            assert(self.5.seq_builds(fin.skip(sl).subrange((self.0.element_count() + self.1.element_count() + self.2.element_count() + self.3.element_count() + self.4.element_count()) as int, (self.0.element_count() + self.1.element_count() + self.2.element_count() + self.3.element_count() + self.4.element_count() + self.5.element_count()) as int))) by {
                lemma_sub_stable(fin, f5, b6.len() as int, sl + (self.0.element_count() + self.1.element_count() + self.2.element_count() + self.3.element_count() + self.4.element_count()) as int, sl + (self.0.element_count() + self.1.element_count() + self.2.element_count() + self.3.element_count() + self.4.element_count() + self.5.element_count()) as int);
                assert(f5.skip(b5.len() as int) =~= f5.subrange(sl + (self.0.element_count() + self.1.element_count() + self.2.element_count() + self.3.element_count() + self.4.element_count()) as int, sl + (self.0.element_count() + self.1.element_count() + self.2.element_count() + self.3.element_count() + self.4.element_count() + self.5.element_count()) as int));
                assert(fin.skip(sl).subrange((self.0.element_count() + self.1.element_count() + self.2.element_count() + self.3.element_count() + self.4.element_count()) as int, (self.0.element_count() + self.1.element_count() + self.2.element_count() + self.3.element_count() + self.4.element_count() + self.5.element_count()) as int) =~= fin.subrange(sl + (self.0.element_count() + self.1.element_count() + self.2.element_count() + self.3.element_count() + self.4.element_count()) as int, sl + (self.0.element_count() + self.1.element_count() + self.2.element_count() + self.3.element_count() + self.4.element_count() + self.5.element_count()) as int));
            }
            assert(self.6.seq_builds(fin.skip(sl).subrange((self.0.element_count() + self.1.element_count() + self.2.element_count() + self.3.element_count() + self.4.element_count() + self.5.element_count()) as int, (self.0.element_count() + self.1.element_count() + self.2.element_count() + self.3.element_count() + self.4.element_count() + self.5.element_count() + self.6.element_count()) as int))) by {
                lemma_sub_stable(fin, f6, b7.len() as int, sl + (self.0.element_count() + self.1.element_count() + self.2.element_count() + self.3.element_count() + self.4.element_count() + self.5.element_count()) as int, sl + (self.0.element_count() + self.1.element_count() + self.2.element_count() + self.3.element_count() + self.4.element_count() + self.5.element_count() + self.6.element_count()) as int);
                assert(f6.skip(b6.len() as int) =~= f6.subrange(sl + (self.0.element_count() + self.1.element_count() + self.2.element_count() + self.3.element_count() + self.4.element_count() + self.5.element_count()) as int, sl + (self.0.element_count() + self.1.element_count() + self.2.element_count() + self.3.element_count() + self.4.element_count() + self.5.element_count() + self.6.element_count()) as int));
                assert(fin.skip(sl).subrange((self.0.element_count() + self.1.element_count() + self.2.element_count() + self.3.element_count() + self.4.element_count() + self.5.element_count()) as int, (self.0.element_count() + self.1.element_count() + self.2.element_count() + self.3.element_count() + self.4.element_count() + self.5.element_count() + self.6.element_count()) as int) =~= fin.subrange(sl + (self.0.element_count() + self.1.element_count() + self.2.element_count() + self.3.element_count() + self.4.element_count() + self.5.element_count()) as int, sl + (self.0.element_count() + self.1.element_count() + self.2.element_count() + self.3.element_count() + self.4.element_count() + self.5.element_count() + self.6.element_count()) as int));
            }
            assert(self.7.seq_builds(fin.skip(sl).subrange((self.0.element_count() + self.1.element_count() + self.2.element_count() + self.3.element_count() + self.4.element_count() + self.5.element_count() + self.6.element_count()) as int, (self.0.element_count() + self.1.element_count() + self.2.element_count() + self.3.element_count() + self.4.element_count() + self.5.element_count() + self.6.element_count() + self.7.element_count()) as int))) by {
                lemma_sub_stable(fin, f7, b8.len() as int, sl + (self.0.element_count() + self.1.element_count() + self.2.element_count() + self.3.element_count() + self.4.element_count() + self.5.element_count() + self.6.element_count()) as int, sl + (self.0.element_count() + self.1.element_count() + self.2.element_count() + self.3.element_count() + self.4.element_count() + self.5.element_count() + self.6.element_count() + self.7.element_count()) as int);
                assert(f7.skip(b7.len() as int) =~= f7.subrange(sl + (self.0.element_count() + self.1.element_count() + self.2.element_count() + self.3.element_count() + self.4.element_count() + self.5.element_count() + self.6.element_count()) as int, sl + (self.0.element_count() + self.1.element_count() + self.2.element_count() + self.3.element_count() + self.4.element_count() + self.5.element_count() + self.6.element_count() + self.7.element_count()) as int));
                assert(fin.skip(sl).subrange((self.0.element_count() + self.1.element_count() + self.2.element_count() + self.3.element_count() + self.4.element_count() + self.5.element_count() + self.6.element_count()) as int, (self.0.element_count() + self.1.element_count() + self.2.element_count() + self.3.element_count() + self.4.element_count() + self.5.element_count() + self.6.element_count() + self.7.element_count()) as int) =~= fin.subrange(sl + (self.0.element_count() + self.1.element_count() + self.2.element_count() + self.3.element_count() + self.4.element_count() + self.5.element_count() + self.6.element_count()) as int, sl + (self.0.element_count() + self.1.element_count() + self.2.element_count() + self.3.element_count() + self.4.element_count() + self.5.element_count() + self.6.element_count() + self.7.element_count()) as int));
            }
            assert(self.8.seq_builds(fin.skip(sl).subrange((self.0.element_count() + self.1.element_count() + self.2.element_count() + self.3.element_count() + self.4.element_count() + self.5.element_count() + self.6.element_count() + self.7.element_count()) as int, (self.0.element_count() + self.1.element_count() + self.2.element_count() + self.3.element_count() + self.4.element_count() + self.5.element_count() + self.6.element_count() + self.7.element_count() + self.8.element_count()) as int))) by {
                lemma_sub_stable(fin, f8, b9.len() as int, sl + (self.0.element_count() + self.1.element_count() + self.2.element_count() + self.3.element_count() + self.4.element_count() + self.5.element_count() + self.6.element_count() + self.7.element_count()) as int, sl + (self.0.element_count() + self.1.element_count() + self.2.element_count() + self.3.element_count() + self.4.element_count() + self.5.element_count() + self.6.element_count() + self.7.element_count() + self.8.element_count()) as int);
                assert(f8.skip(b8.len() as int) =~= f8.subrange(sl + (self.0.element_count() + self.1.element_count() + self.2.element_count() + self.3.element_count() + self.4.element_count() + self.5.element_count() + self.6.element_count() + self.7.element_count()) as int, sl + (self.0.element_count() + self.1.element_count() + self.2.element_count() + self.3.element_count() + self.4.element_count() + self.5.element_count() + self.6.element_count() + self.7.element_count() + self.8.element_count()) as int));
                assert(fin.skip(sl).subrange((self.0.element_count() + self.1.element_count() + self.2.element_count() + self.3.element_count() + self.4.element_count() + self.5.element_count() + self.6.element_count() + self.7.element_count()) as int, (self.0.element_count() + self.1.element_count() + self.2.element_count() + self.3.element_count() + self.4.element_count() + self.5.element_count() + self.6.element_count() + self.7.element_count() + self.8.element_count()) as int) =~= fin.subrange(sl + (self.0.element_count() + self.1.element_count() + self.2.element_count() + self.3.element_count() + self.4.element_count() + self.5.element_count() + self.6.element_count() + self.7.element_count()) as int, sl + (self.0.element_count() + self.1.element_count() + self.2.element_count() + self.3.element_count() + self.4.element_count() + self.5.element_count() + self.6.element_count() + self.7.element_count() + self.8.element_count()) as int));
            }
            assert(self.9.seq_builds(fin.skip(sl).subrange((self.0.element_count() + self.1.element_count() + self.2.element_count() + self.3.element_count() + self.4.element_count() + self.5.element_count() + self.6.element_count() + self.7.element_count() + self.8.element_count()) as int, (self.0.element_count() + self.1.element_count() + self.2.element_count() + self.3.element_count() + self.4.element_count() + self.5.element_count() + self.6.element_count() + self.7.element_count() + self.8.element_count() + self.9.element_count()) as int))) by {
                lemma_sub_stable(fin, f9, b10.len() as int, sl + (self.0.element_count() + self.1.element_count() + self.2.element_count() + self.3.element_count() + self.4.element_count() + self.5.element_count() + self.6.element_count() + self.7.element_count() + self.8.element_count()) as int, sl + (self.0.element_count() + self.1.element_count() + self.2.element_count() + self.3.element_count() + self.4.element_count() + self.5.element_count() + self.6.element_count() + self.7.element_count() + self.8.element_count() + self.9.element_count()) as int);
                assert(f9.skip(b9.len() as int) =~= f9.subrange(sl + (self.0.element_count() + self.1.element_count() + self.2.element_count() + self.3.element_count() + self.4.element_count() + self.5.element_count() + self.6.element_count() + self.7.element_count() + self.8.element_count()) as int, sl + (self.0.element_count() + self.1.element_count() + self.2.element_count() + self.3.element_count() + self.4.element_count() + self.5.element_count() + self.6.element_count() + self.7.element_count() + self.8.element_count() + self.9.element_count()) as int));
                assert(fin.skip(sl).subrange((self.0.element_count() + self.1.element_count() + self.2.element_count() + self.3.element_count() + self.4.element_count() + self.5.element_count() + self.6.element_count() + self.7.element_count() + self.8.element_count()) as int, (self.0.element_count() + self.1.element_count() + self.2.element_count() + self.3.element_count() + self.4.element_count() + self.5.element_count() + self.6.element_count() + self.7.element_count() + self.8.element_count() + self.9.element_count()) as int) =~= fin.subrange(sl + (self.0.element_count() + self.1.element_count() + self.2.element_count() + self.3.element_count() + self.4.element_count() + self.5.element_count() + self.6.element_count() + self.7.element_count() + self.8.element_count()) as int, sl + (self.0.element_count() + self.1.element_count() + self.2.element_count() + self.3.element_count() + self.4.element_count() + self.5.element_count() + self.6.element_count() + self.7.element_count() + self.8.element_count() + self.9.element_count()) as int));
            }
            assert(self.10.seq_builds(fin.skip(sl).subrange((self.0.element_count() + self.1.element_count() + self.2.element_count() + self.3.element_count() + self.4.element_count() + self.5.element_count() + self.6.element_count() + self.7.element_count() + self.8.element_count() + self.9.element_count()) as int, (self.0.element_count() + self.1.element_count() + self.2.element_count() + self.3.element_count() + self.4.element_count() + self.5.element_count() + self.6.element_count() + self.7.element_count() + self.8.element_count() + self.9.element_count() + self.10.element_count()) as int))) by {
                lemma_sub_stable(fin, f10, b11.len() as int, sl + (self.0.element_count() + self.1.element_count() + self.2.element_count() + self.3.element_count() + self.4.element_count() + self.5.element_count() + self.6.element_count() + self.7.element_count() + self.8.element_count() + self.9.element_count()) as int, sl + (self.0.element_count() + self.1.element_count() + self.2.element_count() + self.3.element_count() + self.4.element_count() + self.5.element_count() + self.6.element_count() + self.7.element_count() + self.8.element_count() + self.9.element_count() + self.10.element_count()) as int);
                assert(f10.skip(b10.len() as int) =~= f10.subrange(sl + (self.0.element_count() + self.1.element_count() + self.2.element_count() + self.3.element_count() + self.4.element_count() + self.5.element_count() + self.6.element_count() + self.7.element_count() + self.8.element_count() + self.9.element_count()) as int, sl + (self.0.element_count() + self.1.element_count() + self.2.element_count() + self.3.element_count() + self.4.element_count() + self.5.element_count() + self.6.element_count() + self.7.element_count() + self.8.element_count() + self.9.element_count() + self.10.element_count()) as int));
                assert(fin.skip(sl).subrange((self.0.element_count() + self.1.element_count() + self.2.element_count() + self.3.element_count() + self.4.element_count() + self.5.element_count() + self.6.element_count() + self.7.element_count() + self.8.element_count() + self.9.element_count()) as int, (self.0.element_count() + self.1.element_count() + self.2.element_count() + self.3.element_count() + self.4.element_count() + self.5.element_count() + self.6.element_count() + self.7.element_count() + self.8.element_count() + self.9.element_count() + self.10.element_count()) as int) =~= fin.subrange(sl + (self.0.element_count() + self.1.element_count() + self.2.element_count() + self.3.element_count() + self.4.element_count() + self.5.element_count() + self.6.element_count() + self.7.element_count() + self.8.element_count() + self.9.element_count()) as int, sl + (self.0.element_count() + self.1.element_count() + self.2.element_count() + self.3.element_count() + self.4.element_count() + self.5.element_count() + self.6.element_count() + self.7.element_count() + self.8.element_count() + self.9.element_count() + self.10.element_count()) as int));
            }
            assert(self.11.seq_builds(fin.skip(sl).subrange((self.0.element_count() + self.1.element_count() + self.2.element_count() + self.3.element_count() + self.4.element_count() + self.5.element_count() + self.6.element_count() + self.7.element_count() + self.8.element_count() + self.9.element_count() + self.10.element_count()) as int, (self.0.element_count() + self.1.element_count() + self.2.element_count() + self.3.element_count() + self.4.element_count() + self.5.element_count() + self.6.element_count() + self.7.element_count() + self.8.element_count() + self.9.element_count() + self.10.element_count() + self.11.element_count()) as int))) by {
                lemma_sub_stable(fin, f11, b12.len() as int, sl + (self.0.element_count() + self.1.element_count() + self.2.element_count() + self.3.element_count() + self.4.element_count() + self.5.element_count() + self.6.element_count() + self.7.element_count() + self.8.element_count() + self.9.element_count() + self.10.element_count()) as int, sl + (self.0.element_count() + self.1.element_count() + self.2.element_count() + self.3.element_count() + self.4.element_count() + self.5.element_count() + self.6.element_count() + self.7.element_count() + self.8.element_count() + self.9.element_count() + self.10.element_count() + self.11.element_count()) as int);
                assert(f11.skip(b11.len() as int) =~= f11.subrange(sl + (self.0.element_count() + self.1.element_count() + self.2.element_count() + self.3.element_count() + self.4.element_count() + self.5.element_count() + self.6.element_count() + self.7.element_count() + self.8.element_count() + self.9.element_count() + self.10.element_count()) as int, sl + (self.0.element_count() + self.1.element_count() + self.2.element_count() + self.3.element_count() + self.4.element_count() + self.5.element_count() + self.6.element_count() + self.7.element_count() + self.8.element_count() + self.9.element_count() + self.10.element_count() + self.11.element_count()) as int));
                assert(fin.skip(sl).subrange((self.0.element_count() + self.1.element_count() + self.2.element_count() + self.3.element_count() + self.4.element_count() + self.5.element_count() + self.6.element_count() + self.7.element_count() + self.8.element_count() + self.9.element_count() + self.10.element_count()) as int, (self.0.element_count() + self.1.element_count() + self.2.element_count() + self.3.element_count() + self.4.element_count() + self.5.element_count() + self.6.element_count() + self.7.element_count() + self.8.element_count() + self.9.element_count() + self.10.element_count() + self.11.element_count()) as int) =~= fin.subrange(sl + (self.0.element_count() + self.1.element_count() + self.2.element_count() + self.3.element_count() + self.4.element_count() + self.5.element_count() + self.6.element_count() + self.7.element_count() + self.8.element_count() + self.9.element_count() + self.10.element_count()) as int, sl + (self.0.element_count() + self.1.element_count() + self.2.element_count() + self.3.element_count() + self.4.element_count() + self.5.element_count() + self.6.element_count() + self.7.element_count() + self.8.element_count() + self.9.element_count() + self.10.element_count() + self.11.element_count()) as int));
            }
            assert(self.12.seq_builds(fin.skip(sl).subrange((self.0.element_count() + self.1.element_count() + self.2.element_count() + self.3.element_count() + self.4.element_count() + self.5.element_count() + self.6.element_count() + self.7.element_count() + self.8.element_count() + self.9.element_count() + self.10.element_count() + self.11.element_count()) as int, (self.0.element_count() + self.1.element_count() + self.2.element_count() + self.3.element_count() + self.4.element_count() + self.5.element_count() + self.6.element_count() + self.7.element_count() + self.8.element_count() + self.9.element_count() + self.10.element_count() + self.11.element_count() + self.12.element_count()) as int))) by {
                lemma_sub_stable(fin, f12, b13.len() as int, sl + (self.0.element_count() + self.1.element_count() + self.2.element_count() + self.3.element_count() + self.4.element_count() + self.5.element_count() + self.6.element_count() + self.7.element_count() + self.8.element_count() + self.9.element_count() + self.10.element_count() + self.11.element_count()) as int, sl + (self.0.element_count() + self.1.element_count() + self.2.element_count() + self.3.element_count() + self.4.element_count() + self.5.element_count() + self.6.element_count() + self.7.element_count() + self.8.element_count() + self.9.element_count() + self.10.element_count() + self.11.element_count() + self.12.element_count()) as int);
                assert(f12.skip(b12.len() as int) =~= f12.subrange(sl + (self.0.element_count() + self.1.element_count() + self.2.element_count() + self.3.element_count() + self.4.element_count() + self.5.element_count() + self.6.element_count() + self.7.element_count() + self.8.element_count() + self.9.element_count() + self.10.element_count() + self.11.element_count()) as int, sl + (self.0.element_count() + self.1.element_count() + self.2.element_count() + self.3.element_count() + self.4.element_count() + self.5.element_count() + self.6.element_count() + self.7.element_count() + self.8.element_count() + self.9.element_count() + self.10.element_count() + self.11.element_count() + self.12.element_count()) as int));
                assert(fin.skip(sl).subrange((self.0.element_count() + self.1.element_count() + self.2.element_count() + self.3.element_count() + self.4.element_count() + self.5.element_count() + self.6.element_count() + self.7.element_count() + self.8.element_count() + self.9.element_count() + self.10.element_count() + self.11.element_count()) as int, (self.0.element_count() + self.1.element_count() + self.2.element_count() + self.3.element_count() + self.4.element_count() + self.5.element_count() + self.6.element_count() + self.7.element_count() + self.8.element_count() + self.9.element_count() + self.10.element_count() + self.11.element_count() + self.12.element_count()) as int) =~= fin.subrange(sl + (self.0.element_count() + self.1.element_count() + self.2.element_count() + self.3.element_count() + self.4.element_count() + self.5.element_count() + self.6.element_count() + self.7.element_count() + self.8.element_count() + self.9.element_count() + self.10.element_count() + self.11.element_count()) as int, sl + (self.0.element_count() + self.1.element_count() + self.2.element_count() + self.3.element_count() + self.4.element_count() + self.5.element_count() + self.6.element_count() + self.7.element_count() + self.8.element_count() + self.9.element_count() + self.10.element_count() + self.11.element_count() + self.12.element_count()) as int));
            }
            assert(self.13.seq_builds(fin.skip(sl).subrange((self.0.element_count() + self.1.element_count() + self.2.element_count() + self.3.element_count() + self.4.element_count() + self.5.element_count() + self.6.element_count() + self.7.element_count() + self.8.element_count() + self.9.element_count() + self.10.element_count() + self.11.element_count() + self.12.element_count()) as int, (self.0.element_count() + self.1.element_count() + self.2.element_count() + self.3.element_count() + self.4.element_count() + self.5.element_count() + self.6.element_count() + self.7.element_count() + self.8.element_count() + self.9.element_count() + self.10.element_count() + self.11.element_count() + self.12.element_count() + self.13.element_count()) as int))) by {
                lemma_sub_stable(fin, f13, b14.len() as int, sl + (self.0.element_count() + self.1.element_count() + self.2.element_count() + self.3.element_count() + self.4.element_count() + self.5.element_count() + self.6.element_count() + self.7.element_count() + self.8.element_count() + self.9.element_count() + self.10.element_count() + self.11.element_count() + self.12.element_count()) as int, sl + (self.0.element_count() + self.1.element_count() + self.2.element_count() + self.3.element_count() + self.4.element_count() + self.5.element_count() + self.6.element_count() + self.7.element_count() + self.8.element_count() + self.9.element_count() + self.10.element_count() + self.11.element_count() + self.12.element_count() + self.13.element_count()) as int);
                assert(f13.skip(b13.len() as int) =~= f13.subrange(sl + (self.0.element_count() + self.1.element_count() + self.2.element_count() + self.3.element_count() + self.4.element_count() + self.5.element_count() + self.6.element_count() + self.7.element_count() + self.8.element_count() + self.9.element_count() + self.10.element_count() + self.11.element_count() + self.12.element_count()) as int, sl + (self.0.element_count() + self.1.element_count() + self.2.element_count() + self.3.element_count() + self.4.element_count() + self.5.element_count() + self.6.element_count() + self.7.element_count() + self.8.element_count() + self.9.element_count() + self.10.element_count() + self.11.element_count() + self.12.element_count() + self.13.element_count()) as int));
                assert(fin.skip(sl).subrange((self.0.element_count() + self.1.element_count() + self.2.element_count() + self.3.element_count() + self.4.element_count() + self.5.element_count() + self.6.element_count() + self.7.element_count() + self.8.element_count() + self.9.element_count() + self.10.element_count() + self.11.element_count() + self.12.element_count()) as int, (self.0.element_count() + self.1.element_count() + self.2.element_count() + self.3.element_count() + self.4.element_count() + self.5.element_count() + self.6.element_count() + self.7.element_count() + self.8.element_count() + self.9.element_count() + self.10.element_count() + self.11.element_count() + self.12.element_count() + self.13.element_count()) as int) =~= fin.subrange(sl + (self.0.element_count() + self.1.element_count() + self.2.element_count() + self.3.element_count() + self.4.element_count() + self.5.element_count() + self.6.element_count() + self.7.element_count() + self.8.element_count() + self.9.element_count() + self.10.element_count() + self.11.element_count() + self.12.element_count()) as int, sl + (self.0.element_count() + self.1.element_count() + self.2.element_count() + self.3.element_count() + self.4.element_count() + self.5.element_count() + self.6.element_count() + self.7.element_count() + self.8.element_count() + self.9.element_count() + self.10.element_count() + self.11.element_count() + self.12.element_count() + self.13.element_count()) as int));
            }
            assert(self.14.seq_builds(fin.skip(sl).subrange((self.0.element_count() + self.1.element_count() + self.2.element_count() + self.3.element_count() + self.4.element_count() + self.5.element_count() + self.6.element_count() + self.7.element_count() + self.8.element_count() + self.9.element_count() + self.10.element_count() + self.11.element_count() + self.12.element_count() + self.13.element_count()) as int, (self.0.element_count() + self.1.element_count() + self.2.element_count() + self.3.element_count() + self.4.element_count() + self.5.element_count() + self.6.element_count() + self.7.element_count() + self.8.element_count() + self.9.element_count() + self.10.element_count() + self.11.element_count() + self.12.element_count() + self.13.element_count() + self.14.element_count()) as int))) by {
                lemma_sub_stable(fin, f14, b15.len() as int, sl + (self.0.element_count() + self.1.element_count() + self.2.element_count() + self.3.element_count() + self.4.element_count() + self.5.element_count() + self.6.element_count() + self.7.element_count() + self.8.element_count() + self.9.element_count() + self.10.element_count() + self.11.element_count() + self.12.element_count() + self.13.element_count()) as int, sl + (self.0.element_count() + self.1.element_count() + self.2.element_count() + self.3.element_count() + self.4.element_count() + self.5.element_count() + self.6.element_count() + self.7.element_count() + self.8.element_count() + self.9.element_count() + self.10.element_count() + self.11.element_count() + self.12.element_count() + self.13.element_count() + self.14.element_count()) as int);
                assert(f14.skip(b14.len() as int) =~= f14.subrange(sl + (self.0.element_count() + self.1.element_count() + self.2.element_count() + self.3.element_count() + self.4.element_count() + self.5.element_count() + self.6.element_count() + self.7.element_count() + self.8.element_count() + self.9.element_count() + self.10.element_count() + self.11.element_count() + self.12.element_count() + self.13.element_count()) as int, sl + (self.0.element_count() + self.1.element_count() + self.2.element_count() + self.3.element_count() + self.4.element_count() + self.5.element_count() + self.6.element_count() + self.7.element_count() + self.8.element_count() + self.9.element_count() + self.10.element_count() + self.11.element_count() + self.12.element_count() + self.13.element_count() + self.14.element_count()) as int));
                assert(fin.skip(sl).subrange((self.0.element_count() + self.1.element_count() + self.2.element_count() + self.3.element_count() + self.4.element_count() + self.5.element_count() + self.6.element_count() + self.7.element_count() + self.8.element_count() + self.9.element_count() + self.10.element_count() + self.11.element_count() + self.12.element_count() + self.13.element_count()) as int, (self.0.element_count() + self.1.element_count() + self.2.element_count() + self.3.element_count() + self.4.element_count() + self.5.element_count() + self.6.element_count() + self.7.element_count() + self.8.element_count() + self.9.element_count() + self.10.element_count() + self.11.element_count() + self.12.element_count() + self.13.element_count() + self.14.element_count()) as int) =~= fin.subrange(sl + (self.0.element_count() + self.1.element_count() + self.2.element_count() + self.3.element_count() + self.4.element_count() + self.5.element_count() + self.6.element_count() + self.7.element_count() + self.8.element_count() + self.9.element_count() + self.10.element_count() + self.11.element_count() + self.12.element_count() + self.13.element_count()) as int, sl + (self.0.element_count() + self.1.element_count() + self.2.element_count() + self.3.element_count() + self.4.element_count() + self.5.element_count() + self.6.element_count() + self.7.element_count() + self.8.element_count() + self.9.element_count() + self.10.element_count() + self.11.element_count() + self.12.element_count() + self.13.element_count() + self.14.element_count()) as int));
            }
            assert(self.15.seq_builds(fin.skip(sl).subrange((self.0.element_count() + self.1.element_count() + self.2.element_count() + self.3.element_count() + self.4.element_count() + self.5.element_count() + self.6.element_count() + self.7.element_count() + self.8.element_count() + self.9.element_count() + self.10.element_count() + self.11.element_count() + self.12.element_count() + self.13.element_count() + self.14.element_count()) as int, (self.0.element_count() + self.1.element_count() + self.2.element_count() + self.3.element_count() + self.4.element_count() + self.5.element_count() + self.6.element_count() + self.7.element_count() + self.8.element_count() + self.9.element_count() + self.10.element_count() + self.11.element_count() + self.12.element_count() + self.13.element_count() + self.14.element_count() + self.15.element_count()) as int))) by {
                assert(f15.skip(b15.len() as int) =~= f15.subrange(sl + (self.0.element_count() + self.1.element_count() + self.2.element_count() + self.3.element_count() + self.4.element_count() + self.5.element_count() + self.6.element_count() + self.7.element_count() + self.8.element_count() + self.9.element_count() + self.10.element_count() + self.11.element_count() + self.12.element_count() + self.13.element_count() + self.14.element_count()) as int, sl + (self.0.element_count() + self.1.element_count() + self.2.element_count() + self.3.element_count() + self.4.element_count() + self.5.element_count() + self.6.element_count() + self.7.element_count() + self.8.element_count() + self.9.element_count() + self.10.element_count() + self.11.element_count() + self.12.element_count() + self.13.element_count() + self.14.element_count() + self.15.element_count()) as int));
                assert(fin.skip(sl).subrange((self.0.element_count() + self.1.element_count() + self.2.element_count() + self.3.element_count() + self.4.element_count() + self.5.element_count() + self.6.element_count() + self.7.element_count() + self.8.element_count() + self.9.element_count() + self.10.element_count() + self.11.element_count() + self.12.element_count() + self.13.element_count() + self.14.element_count()) as int, (self.0.element_count() + self.1.element_count() + self.2.element_count() + self.3.element_count() + self.4.element_count() + self.5.element_count() + self.6.element_count() + self.7.element_count() + self.8.element_count() + self.9.element_count() + self.10.element_count() + self.11.element_count() + self.12.element_count() + self.13.element_count() + self.14.element_count() + self.15.element_count()) as int) =~= fin.subrange(sl + (self.0.element_count() + self.1.element_count() + self.2.element_count() + self.3.element_count() + self.4.element_count() + self.5.element_count() + self.6.element_count() + self.7.element_count() + self.8.element_count() + self.9.element_count() + self.10.element_count() + self.11.element_count() + self.12.element_count() + self.13.element_count() + self.14.element_count()) as int, sl + (self.0.element_count() + self.1.element_count() + self.2.element_count() + self.3.element_count() + self.4.element_count() + self.5.element_count() + self.6.element_count() + self.7.element_count() + self.8.element_count() + self.9.element_count() + self.10.element_count() + self.11.element_count() + self.12.element_count() + self.13.element_count() + self.14.element_count() + self.15.element_count()) as int));
            }
        }
    }

    #[verifier::spinoff_prover]
    #[verifier::rlimit(100)]
    fn seq_rebuild<Splice: ElementSplice<Element>>(&self, prev: &Self, elements: &mut Splice) {
        let ghost a = elements.items();
        let ghost c0 = elements.cursor();
        proof {
            lemma_kept_refl(a, c0);
        }
        let ghost b0 = elements.items();
        let ghost cb0 = elements.cursor();
        proof {
            assert(b0.skip(cb0 as int).len() == a.skip((c0 + 0) as int).len());
        }
        self.0.seq_rebuild(&prev.0, elements);
        let ghost f0 = elements.items();
        proof {
            assert(self.0.seq_rebuilds(
                &prev.0,
                a.subrange(c0 + 0int, c0 + (prev.0.element_count()) as int),
                f0.subrange(cb0 as int, (cb0 + self.0.element_count()) as int),
            )) by {
                lemma_sub_shift(a, b0, (c0 + 0) as int, cb0 as int, prev.0.element_count() as int);
            }
            lemma_kept_compose(a, c0, 0, b0, cb0, prev.0.element_count(), elements.items(), elements.cursor());
        }
        let ghost b1 = elements.items();
        let ghost cb1 = elements.cursor();
        proof {
            assert(b1.skip(cb1 as int).len() == a.skip((c0 + (prev.0.element_count())) as int).len());
        }
        self.1.seq_rebuild(&prev.1, elements);
        let ghost f1 = elements.items();
        proof {
            assert(self.1.seq_rebuilds(
                &prev.1,
                a.subrange(c0 + (prev.0.element_count()) as int, c0 + (prev.0.element_count() + prev.1.element_count()) as int),
                f1.subrange(cb1 as int, (cb1 + self.1.element_count()) as int),
            )) by {
                lemma_sub_shift(a, b1, (c0 + (prev.0.element_count())) as int, cb1 as int, prev.1.element_count() as int);
            }
            lemma_kept_compose(a, c0, (prev.0.element_count()), b1, cb1, prev.1.element_count(), elements.items(), elements.cursor());
        }
        let ghost b2 = elements.items();
        let ghost cb2 = elements.cursor();
        proof {
            assert(b2.skip(cb2 as int).len() == a.skip((c0 + (prev.0.element_count() + prev.1.element_count())) as int).len());
        }
        self.2.seq_rebuild(&prev.2, elements);
        let ghost f2 = elements.items();
        proof {
            assert(self.2.seq_rebuilds(
                &prev.2,
                a.subrange(c0 + (prev.0.element_count() + prev.1.element_count()) as int, c0 + (prev.0.element_count() + prev.1.element_count() + prev.2.element_count()) as int),
                f2.subrange(cb2 as int, (cb2 + self.2.element_count()) as int),
            )) by {
                lemma_sub_shift(a, b2, (c0 + (prev.0.element_count() + prev.1.element_count())) as int, cb2 as int, prev.2.element_count() as int);
            }
            lemma_kept_compose(a, c0, (prev.0.element_count() + prev.1.element_count()), b2, cb2, prev.2.element_count(), elements.items(), elements.cursor());
        }
        let ghost b3 = elements.items();
        let ghost cb3 = elements.cursor();
        proof {
            assert(b3.skip(cb3 as int).len() == a.skip((c0 + (prev.0.element_count() + prev.1.element_count() + prev.2.element_count())) as int).len());
        }
        self.3.seq_rebuild(&prev.3, elements);
        let ghost f3 = elements.items();
        proof {
            assert(self.3.seq_rebuilds(
                &prev.3,
                a.subrange(c0 + (prev.0.element_count() + prev.1.element_count() + prev.2.element_count()) as int, c0 + (prev.0.element_count() + prev.1.element_count() + prev.2.element_count() + prev.3.element_count()) as int),
                f3.subrange(cb3 as int, (cb3 + self.3.element_count()) as int),
            )) by {
                lemma_sub_shift(a, b3, (c0 + (prev.0.element_count() + prev.1.element_count() + prev.2.element_count())) as int, cb3 as int, prev.3.element_count() as int);
            }
            lemma_kept_compose(a, c0, (prev.0.element_count() + prev.1.element_count() + prev.2.element_count()), b3, cb3, prev.3.element_count(), elements.items(), elements.cursor());
        }
        let ghost b4 = elements.items();
        let ghost cb4 = elements.cursor();
        proof {
            assert(b4.skip(cb4 as int).len() == a.skip((c0 + (prev.0.element_count() + prev.1.element_count() + prev.2.element_count() + prev.3.element_count())) as int).len());
        }
        self.4.seq_rebuild(&prev.4, elements);
        let ghost f4 = elements.items();
        proof {
            assert(self.4.seq_rebuilds(
                &prev.4,
                a.subrange(c0 + (prev.0.element_count() + prev.1.element_count() + prev.2.element_count() + prev.3.element_count()) as int, c0 + (prev.0.element_count() + prev.1.element_count() + prev.2.element_count() + prev.3.element_count() + prev.4.element_count()) as int),
                f4.subrange(cb4 as int, (cb4 + self.4.element_count()) as int),
            )) by {
                lemma_sub_shift(a, b4, (c0 + (prev.0.element_count() + prev.1.element_count() + prev.2.element_count() + prev.3.element_count())) as int, cb4 as int, prev.4.element_count() as int);
            }
            lemma_kept_compose(a, c0, (prev.0.element_count() + prev.1.element_count() + prev.2.element_count() + prev.3.element_count()), b4, cb4, prev.4.element_count(), elements.items(), elements.cursor());
        }
        let ghost b5 = elements.items();
        let ghost cb5 = elements.cursor();
        proof {
            assert(b5.skip(cb5 as int).len() == a.skip((c0 + (prev.0.element_count() + prev.1.element_count() + prev.2.element_count() + prev.3.element_count() + prev.4.element_count())) as int).len());
        }
        self.5.seq_rebuild(&prev.5, elements);
        let ghost f5 = elements.items();
        proof {
            assert(self.5.seq_rebuilds(
                &prev.5,
                a.subrange(c0 + (prev.0.element_count() + prev.1.element_count() + prev.2.element_count() + prev.3.element_count() + prev.4.element_count()) as int, c0 + (prev.0.element_count() + prev.1.element_count() + prev.2.element_count() + prev.3.element_count() + prev.4.element_count() + prev.5.element_count()) as int),
                f5.subrange(cb5 as int, (cb5 + self.5.element_count()) as int),
            )) by {
                lemma_sub_shift(a, b5, (c0 + (prev.0.element_count() + prev.1.element_count() + prev.2.element_count() + prev.3.element_count() + prev.4.element_count())) as int, cb5 as int, prev.5.element_count() as int);
            }
            lemma_kept_compose(a, c0, (prev.0.element_count() + prev.1.element_count() + prev.2.element_count() + prev.3.element_count() + prev.4.element_count()), b5, cb5, prev.5.element_count(), elements.items(), elements.cursor());
        }
        let ghost b6 = elements.items();
        let ghost cb6 = elements.cursor();
        proof {
            assert(b6.skip(cb6 as int).len() == a.skip((c0 + (prev.0.element_count() + prev.1.element_count() + prev.2.element_count() + prev.3.element_count() + prev.4.element_count() + prev.5.element_count())) as int).len());
        }
        self.6.seq_rebuild(&prev.6, elements);
        let ghost f6 = elements.items();
        proof {
            assert(self.6.seq_rebuilds(
                &prev.6,
                a.subrange(c0 + (prev.0.element_count() + prev.1.element_count() + prev.2.element_count() + prev.3.element_count() + prev.4.element_count() + prev.5.element_count()) as int, c0 + (prev.0.element_count() + prev.1.element_count() + prev.2.element_count() + prev.3.element_count() + prev.4.element_count() + prev.5.element_count() + prev.6.element_count()) as int),
                f6.subrange(cb6 as int, (cb6 + self.6.element_count()) as int),
            )) by {
                lemma_sub_shift(a, b6, (c0 + (prev.0.element_count() + prev.1.element_count() + prev.2.element_count() + prev.3.element_count() + prev.4.element_count() + prev.5.element_count())) as int, cb6 as int, prev.6.element_count() as int);
            }
            lemma_kept_compose(a, c0, (prev.0.element_count() + prev.1.element_count() + prev.2.element_count() + prev.3.element_count() + prev.4.element_count() + prev.5.element_count()), b6, cb6, prev.6.element_count(), elements.items(), elements.cursor());
        }
        let ghost b7 = elements.items();
        let ghost cb7 = elements.cursor();
        proof {
            assert(b7.skip(cb7 as int).len() == a.skip((c0 + (prev.0.element_count() + prev.1.element_count() + prev.2.element_count() + prev.3.element_count() + prev.4.element_count() + prev.5.element_count() + prev.6.element_count())) as int).len());
        }
        self.7.seq_rebuild(&prev.7, elements);
        let ghost f7 = elements.items();
        proof {
            assert(self.7.seq_rebuilds(
                &prev.7,
                a.subrange(c0 + (prev.0.element_count() + prev.1.element_count() + prev.2.element_count() + prev.3.element_count() + prev.4.element_count() + prev.5.element_count() + prev.6.element_count()) as int, c0 + (prev.0.element_count() + prev.1.element_count() + prev.2.element_count() + prev.3.element_count() + prev.4.element_count() + prev.5.element_count() + prev.6.element_count() + prev.7.element_count()) as int),
                f7.subrange(cb7 as int, (cb7 + self.7.element_count()) as int),
            )) by {
                lemma_sub_shift(a, b7, (c0 + (prev.0.element_count() + prev.1.element_count() + prev.2.element_count() + prev.3.element_count() + prev.4.element_count() + prev.5.element_count() + prev.6.element_count())) as int, cb7 as int, prev.7.element_count() as int);
            }
            lemma_kept_compose(a, c0, (prev.0.element_count() + prev.1.element_count() + prev.2.element_count() + prev.3.element_count() + prev.4.element_count() + prev.5.element_count() + prev.6.element_count()), b7, cb7, prev.7.element_count(), elements.items(), elements.cursor());
        }
        let ghost b8 = elements.items();
        let ghost cb8 = elements.cursor();
        proof {
            assert(b8.skip(cb8 as int).len() == a.skip((c0 + (prev.0.element_count() + prev.1.element_count() + prev.2.element_count() + prev.3.element_count() + prev.4.element_count() + prev.5.element_count() + prev.6.element_count() + prev.7.element_count())) as int).len());
        }
        self.8.seq_rebuild(&prev.8, elements);
        let ghost f8 = elements.items();
        proof {
            assert(self.8.seq_rebuilds(
                &prev.8,
                a.subrange(c0 + (prev.0.element_count() + prev.1.element_count() + prev.2.element_count() + prev.3.element_count() + prev.4.element_count() + prev.5.element_count() + prev.6.element_count() + prev.7.element_count()) as int, c0 + (prev.0.element_count() + prev.1.element_count() + prev.2.element_count() + prev.3.element_count() + prev.4.element_count() + prev.5.element_count() + prev.6.element_count() + prev.7.element_count() + prev.8.element_count()) as int),
                f8.subrange(cb8 as int, (cb8 + self.8.element_count()) as int),
            )) by {
                lemma_sub_shift(a, b8, (c0 + (prev.0.element_count() + prev.1.element_count() + prev.2.element_count() + prev.3.element_count() + prev.4.element_count() + prev.5.element_count() + prev.6.element_count() + prev.7.element_count())) as int, cb8 as int, prev.8.element_count() as int);
            }
            lemma_kept_compose(a, c0, (prev.0.element_count() + prev.1.element_count() + prev.2.element_count() + prev.3.element_count() + prev.4.element_count() + prev.5.element_count() + prev.6.element_count() + prev.7.element_count()), b8, cb8, prev.8.element_count(), elements.items(), elements.cursor());
        }
        let ghost b9 = elements.items();
        let ghost cb9 = elements.cursor();
        proof {
            assert(b9.skip(cb9 as int).len() == a.skip((c0 + (prev.0.element_count() + prev.1.element_count() + prev.2.element_count() + prev.3.element_count() + prev.4.element_count() + prev.5.element_count() + prev.6.element_count() + prev.7.element_count() + prev.8.element_count())) as int).len());
        }
        self.9.seq_rebuild(&prev.9, elements);
        let ghost f9 = elements.items();
        proof {
            assert(self.9.seq_rebuilds(
                &prev.9,
                a.subrange(c0 + (prev.0.element_count() + prev.1.element_count() + prev.2.element_count() + prev.3.element_count() + prev.4.element_count() + prev.5.element_count() + prev.6.element_count() + prev.7.element_count() + prev.8.element_count()) as int, c0 + (prev.0.element_count() + prev.1.element_count() + prev.2.element_count() + prev.3.element_count() + prev.4.element_count() + prev.5.element_count() + prev.6.element_count() + prev.7.element_count() + prev.8.element_count() + prev.9.element_count()) as int),
                f9.subrange(cb9 as int, (cb9 + self.9.element_count()) as int),
            )) by {
                lemma_sub_shift(a, b9, (c0 + (prev.0.element_count() + prev.1.element_count() + prev.2.element_count() + prev.3.element_count() + prev.4.element_count() + prev.5.element_count() + prev.6.element_count() + prev.7.element_count() + prev.8.element_count())) as int, cb9 as int, prev.9.element_count() as int);
            }
            lemma_kept_compose(a, c0, (prev.0.element_count() + prev.1.element_count() + prev.2.element_count() + prev.3.element_count() + prev.4.element_count() + prev.5.element_count() + prev.6.element_count() + prev.7.element_count() + prev.8.element_count()), b9, cb9, prev.9.element_count(), elements.items(), elements.cursor());
        }
        let ghost b10 = elements.items();
        let ghost cb10 = elements.cursor();
        proof {
            assert(b10.skip(cb10 as int).len() == a.skip((c0 + (prev.0.element_count() + prev.1.element_count() + prev.2.element_count() + prev.3.element_count() + prev.4.element_count() + prev.5.element_count() + prev.6.element_count() + prev.7.element_count() + prev.8.element_count() + prev.9.element_count())) as int).len());
        }
        self.10.seq_rebuild(&prev.10, elements);
        let ghost f10 = elements.items();
        proof {
            assert(self.10.seq_rebuilds(
                &prev.10,
                a.subrange(c0 + (prev.0.element_count() + prev.1.element_count() + prev.2.element_count() + prev.3.element_count() + prev.4.element_count() + prev.5.element_count() + prev.6.element_count() + prev.7.element_count() + prev.8.element_count() + prev.9.element_count()) as int, c0 + (prev.0.element_count() + prev.1.element_count() + prev.2.element_count() + prev.3.element_count() + prev.4.element_count() + prev.5.element_count() + prev.6.element_count() + prev.7.element_count() + prev.8.element_count() + prev.9.element_count() + prev.10.element_count()) as int),
                f10.subrange(cb10 as int, (cb10 + self.10.element_count()) as int),
            )) by {
                lemma_sub_shift(a, b10, (c0 + (prev.0.element_count() + prev.1.element_count() + prev.2.element_count() + prev.3.element_count() + prev.4.element_count() + prev.5.element_count() + prev.6.element_count() + prev.7.element_count() + prev.8.element_count() + prev.9.element_count())) as int, cb10 as int, prev.10.element_count() as int);
            }
            lemma_kept_compose(a, c0, (prev.0.element_count() + prev.1.element_count() + prev.2.element_count() + prev.3.element_count() + prev.4.element_count() + prev.5.element_count() + prev.6.element_count() + prev.7.element_count() + prev.8.element_count() + prev.9.element_count()), b10, cb10, prev.10.element_count(), elements.items(), elements.cursor());
        }
        let ghost b11 = elements.items();
        let ghost cb11 = elements.cursor();
        proof {
            assert(b11.skip(cb11 as int).len() == a.skip((c0 + (prev.0.element_count() + prev.1.element_count() + prev.2.element_count() + prev.3.element_count() + prev.4.element_count() + prev.5.element_count() + prev.6.element_count() + prev.7.element_count() + prev.8.element_count() + prev.9.element_count() + prev.10.element_count())) as int).len());
        }
        self.11.seq_rebuild(&prev.11, elements);
        let ghost f11 = elements.items();
        proof {
            assert(self.11.seq_rebuilds(
                &prev.11,
                a.subrange(c0 + (prev.0.element_count() + prev.1.element_count() + prev.2.element_count() + prev.3.element_count() + prev.4.element_count() + prev.5.element_count() + prev.6.element_count() + prev.7.element_count() + prev.8.element_count() + prev.9.element_count() + prev.10.element_count()) as int, c0 + (prev.0.element_count() + prev.1.element_count() + prev.2.element_count() + prev.3.element_count() + prev.4.element_count() + prev.5.element_count() + prev.6.element_count() + prev.7.element_count() + prev.8.element_count() + prev.9.element_count() + prev.10.element_count() + prev.11.element_count()) as int),
                f11.subrange(cb11 as int, (cb11 + self.11.element_count()) as int),
            )) by {
                lemma_sub_shift(a, b11, (c0 + (prev.0.element_count() + prev.1.element_count() + prev.2.element_count() + prev.3.element_count() + prev.4.element_count() + prev.5.element_count() + prev.6.element_count() + prev.7.element_count() + prev.8.element_count() + prev.9.element_count() + prev.10.element_count())) as int, cb11 as int, prev.11.element_count() as int);
            }
            lemma_kept_compose(a, c0, (prev.0.element_count() + prev.1.element_count() + prev.2.element_count() + prev.3.element_count() + prev.4.element_count() + prev.5.element_count() + prev.6.element_count() + prev.7.element_count() + prev.8.element_count() + prev.9.element_count() + prev.10.element_count()), b11, cb11, prev.11.element_count(), elements.items(), elements.cursor());
        }
        let ghost b12 = elements.items();
        let ghost cb12 = elements.cursor();
        proof {
            assert(b12.skip(cb12 as int).len() == a.skip((c0 + (prev.0.element_count() + prev.1.element_count() + prev.2.element_count() + prev.3.element_count() + prev.4.element_count() + prev.5.element_count() + prev.6.element_count() + prev.7.element_count() + prev.8.element_count() + prev.9.element_count() + prev.10.element_count() + prev.11.element_count())) as int).len());
        }
        self.12.seq_rebuild(&prev.12, elements);
        let ghost f12 = elements.items();
        proof {
            assert(self.12.seq_rebuilds(
                &prev.12,
                a.subrange(c0 + (prev.0.element_count() + prev.1.element_count() + prev.2.element_count() + prev.3.element_count() + prev.4.element_count() + prev.5.element_count() + prev.6.element_count() + prev.7.element_count() + prev.8.element_count() + prev.9.element_count() + prev.10.element_count() + prev.11.element_count()) as int, c0 + (prev.0.element_count() + prev.1.element_count() + prev.2.element_count() + prev.3.element_count() + prev.4.element_count() + prev.5.element_count() + prev.6.element_count() + prev.7.element_count() + prev.8.element_count() + prev.9.element_count() + prev.10.element_count() + prev.11.element_count() + prev.12.element_count()) as int),
                f12.subrange(cb12 as int, (cb12 + self.12.element_count()) as int),
            )) by {
                lemma_sub_shift(a, b12, (c0 + (prev.0.element_count() + prev.1.element_count() + prev.2.element_count() + prev.3.element_count() + prev.4.element_count() + prev.5.element_count() + prev.6.element_count() + prev.7.element_count() + prev.8.element_count() + prev.9.element_count() + prev.10.element_count() + prev.11.element_count())) as int, cb12 as int, prev.12.element_count() as int);
            }
            lemma_kept_compose(a, c0, (prev.0.element_count() + prev.1.element_count() + prev.2.element_count() + prev.3.element_count() + prev.4.element_count() + prev.5.element_count() + prev.6.element_count() + prev.7.element_count() + prev.8.element_count() + prev.9.element_count() + prev.10.element_count() + prev.11.element_count()), b12, cb12, prev.12.element_count(), elements.items(), elements.cursor());
        }
        let ghost b13 = elements.items();
        let ghost cb13 = elements.cursor();
        proof {
            assert(b13.skip(cb13 as int).len() == a.skip((c0 + (prev.0.element_count() + prev.1.element_count() + prev.2.element_count() + prev.3.element_count() + prev.4.element_count() + prev.5.element_count() + prev.6.element_count() + prev.7.element_count() + prev.8.element_count() + prev.9.element_count() + prev.10.element_count() + prev.11.element_count() + prev.12.element_count())) as int).len());
        }
        self.13.seq_rebuild(&prev.13, elements);
        let ghost f13 = elements.items();
        proof {
            assert(self.13.seq_rebuilds(
                &prev.13,
                a.subrange(c0 + (prev.0.element_count() + prev.1.element_count() + prev.2.element_count() + prev.3.element_count() + prev.4.element_count() + prev.5.element_count() + prev.6.element_count() + prev.7.element_count() + prev.8.element_count() + prev.9.element_count() + prev.10.element_count() + prev.11.element_count() + prev.12.element_count()) as int, c0 + (prev.0.element_count() + prev.1.element_count() + prev.2.element_count() + prev.3.element_count() + prev.4.element_count() + prev.5.element_count() + prev.6.element_count() + prev.7.element_count() + prev.8.element_count() + prev.9.element_count() + prev.10.element_count() + prev.11.element_count() + prev.12.element_count() + prev.13.element_count()) as int),
                f13.subrange(cb13 as int, (cb13 + self.13.element_count()) as int),
            )) by {
                lemma_sub_shift(a, b13, (c0 + (prev.0.element_count() + prev.1.element_count() + prev.2.element_count() + prev.3.element_count() + prev.4.element_count() + prev.5.element_count() + prev.6.element_count() + prev.7.element_count() + prev.8.element_count() + prev.9.element_count() + prev.10.element_count() + prev.11.element_count() + prev.12.element_count())) as int, cb13 as int, prev.13.element_count() as int);
            }
            lemma_kept_compose(a, c0, (prev.0.element_count() + prev.1.element_count() + prev.2.element_count() + prev.3.element_count() + prev.4.element_count() + prev.5.element_count() + prev.6.element_count() + prev.7.element_count() + prev.8.element_count() + prev.9.element_count() + prev.10.element_count() + prev.11.element_count() + prev.12.element_count()), b13, cb13, prev.13.element_count(), elements.items(), elements.cursor());
        }
        let ghost b14 = elements.items();
        let ghost cb14 = elements.cursor();
        proof {
            assert(b14.skip(cb14 as int).len() == a.skip((c0 + (prev.0.element_count() + prev.1.element_count() + prev.2.element_count() + prev.3.element_count() + prev.4.element_count() + prev.5.element_count() + prev.6.element_count() + prev.7.element_count() + prev.8.element_count() + prev.9.element_count() + prev.10.element_count() + prev.11.element_count() + prev.12.element_count() + prev.13.element_count())) as int).len());
        }
        self.14.seq_rebuild(&prev.14, elements);
        let ghost f14 = elements.items();
        proof {
            assert(self.14.seq_rebuilds(
                &prev.14,
                a.subrange(c0 + (prev.0.element_count() + prev.1.element_count() + prev.2.element_count() + prev.3.element_count() + prev.4.element_count() + prev.5.element_count() + prev.6.element_count() + prev.7.element_count() + prev.8.element_count() + prev.9.element_count() + prev.10.element_count() + prev.11.element_count() + prev.12.element_count() + prev.13.element_count()) as int, c0 + (prev.0.element_count() + prev.1.element_count() + prev.2.element_count() + prev.3.element_count() + prev.4.element_count() + prev.5.element_count() + prev.6.element_count() + prev.7.element_count() + prev.8.element_count() + prev.9.element_count() + prev.10.element_count() + prev.11.element_count() + prev.12.element_count() + prev.13.element_count() + prev.14.element_count()) as int),
                f14.subrange(cb14 as int, (cb14 + self.14.element_count()) as int),
            )) by {
                lemma_sub_shift(a, b14, (c0 + (prev.0.element_count() + prev.1.element_count() + prev.2.element_count() + prev.3.element_count() + prev.4.element_count() + prev.5.element_count() + prev.6.element_count() + prev.7.element_count() + prev.8.element_count() + prev.9.element_count() + prev.10.element_count() + prev.11.element_count() + prev.12.element_count() + prev.13.element_count())) as int, cb14 as int, prev.14.element_count() as int);
            }
            lemma_kept_compose(a, c0, (prev.0.element_count() + prev.1.element_count() + prev.2.element_count() + prev.3.element_count() + prev.4.element_count() + prev.5.element_count() + prev.6.element_count() + prev.7.element_count() + prev.8.element_count() + prev.9.element_count() + prev.10.element_count() + prev.11.element_count() + prev.12.element_count() + prev.13.element_count()), b14, cb14, prev.14.element_count(), elements.items(), elements.cursor());
        }
        let ghost b15 = elements.items();
        let ghost cb15 = elements.cursor();
        proof {
            assert(b15.skip(cb15 as int).len() == a.skip((c0 + (prev.0.element_count() + prev.1.element_count() + prev.2.element_count() + prev.3.element_count() + prev.4.element_count() + prev.5.element_count() + prev.6.element_count() + prev.7.element_count() + prev.8.element_count() + prev.9.element_count() + prev.10.element_count() + prev.11.element_count() + prev.12.element_count() + prev.13.element_count() + prev.14.element_count())) as int).len());
        }
        self.15.seq_rebuild(&prev.15, elements);
        let ghost f15 = elements.items();
        proof {
            assert(self.15.seq_rebuilds(
                &prev.15,
                a.subrange(c0 + (prev.0.element_count() + prev.1.element_count() + prev.2.element_count() + prev.3.element_count() + prev.4.element_count() + prev.5.element_count() + prev.6.element_count() + prev.7.element_count() + prev.8.element_count() + prev.9.element_count() + prev.10.element_count() + prev.11.element_count() + prev.12.element_count() + prev.13.element_count() + prev.14.element_count()) as int, c0 + (prev.0.element_count() + prev.1.element_count() + prev.2.element_count() + prev.3.element_count() + prev.4.element_count() + prev.5.element_count() + prev.6.element_count() + prev.7.element_count() + prev.8.element_count() + prev.9.element_count() + prev.10.element_count() + prev.11.element_count() + prev.12.element_count() + prev.13.element_count() + prev.14.element_count() + prev.15.element_count()) as int),
                f15.subrange(cb15 as int, (cb15 + self.15.element_count()) as int),
            )) by {
                lemma_sub_shift(a, b15, (c0 + (prev.0.element_count() + prev.1.element_count() + prev.2.element_count() + prev.3.element_count() + prev.4.element_count() + prev.5.element_count() + prev.6.element_count() + prev.7.element_count() + prev.8.element_count() + prev.9.element_count() + prev.10.element_count() + prev.11.element_count() + prev.12.element_count() + prev.13.element_count() + prev.14.element_count())) as int, cb15 as int, prev.15.element_count() as int);
            }
            lemma_kept_compose(a, c0, (prev.0.element_count() + prev.1.element_count() + prev.2.element_count() + prev.3.element_count() + prev.4.element_count() + prev.5.element_count() + prev.6.element_count() + prev.7.element_count() + prev.8.element_count() + prev.9.element_count() + prev.10.element_count() + prev.11.element_count() + prev.12.element_count() + prev.13.element_count() + prev.14.element_count()), b15, cb15, prev.15.element_count(), elements.items(), elements.cursor());
        }
        let ghost ce = elements.cursor();
        proof {
            let fin = elements.items();
            assert(fin.take(ce as int) =~= f15.take(ce as int));
            lemma_take_link(fin, f15, f14, cb15 as int, ce as int);
            lemma_take_link(fin, f14, f13, cb14 as int, cb15 as int);
            lemma_take_link(fin, f13, f12, cb13 as int, cb14 as int);
            lemma_take_link(fin, f12, f11, cb12 as int, cb13 as int);
            lemma_take_link(fin, f11, f10, cb11 as int, cb12 as int);
            lemma_take_link(fin, f10, f9, cb10 as int, cb11 as int);
            lemma_take_link(fin, f9, f8, cb9 as int, cb10 as int);
            lemma_take_link(fin, f8, f7, cb8 as int, cb9 as int);
            lemma_take_link(fin, f7, f6, cb7 as int, cb8 as int);
            lemma_take_link(fin, f6, f5, cb6 as int, cb7 as int);
            lemma_take_link(fin, f5, f4, cb5 as int, cb6 as int);
            lemma_take_link(fin, f4, f3, cb4 as int, cb5 as int);
            lemma_take_link(fin, f3, f2, cb3 as int, cb4 as int);
            lemma_take_link(fin, f2, f1, cb2 as int, cb3 as int);
            lemma_take_link(fin, f1, f0, cb1 as int, cb2 as int);
            assert(self.0.seq_rebuilds(
                &prev.0,
                region(a, c0, prev.element_count()).subrange(0int, (prev.0.element_count()) as int),
                region(fin, c0, self.element_count()).subrange(0int, (self.0.element_count()) as int),
            )) by {
                lemma_sub_stable(fin, f0, cb1 as int, cb0 as int, cb1 as int);
                assert(region(fin, c0, self.element_count()).subrange(0int, (self.0.element_count()) as int) =~= fin.subrange(cb0 as int, cb1 as int));
                assert(region(a, c0, prev.element_count()).subrange(0int, (prev.0.element_count()) as int) =~= a.subrange(c0 + 0int, c0 + (prev.0.element_count()) as int));
            }
            assert(self.1.seq_rebuilds(
                &prev.1,
                region(a, c0, prev.element_count()).subrange((prev.0.element_count()) as int, (prev.0.element_count() + prev.1.element_count()) as int),
                region(fin, c0, self.element_count()).subrange((self.0.element_count()) as int, (self.0.element_count() + self.1.element_count()) as int),
            )) by {
                lemma_sub_stable(fin, f1, cb2 as int, cb1 as int, cb2 as int);
                assert(region(fin, c0, self.element_count()).subrange((self.0.element_count()) as int, (self.0.element_count() + self.1.element_count()) as int) =~= fin.subrange(cb1 as int, cb2 as int));
                assert(region(a, c0, prev.element_count()).subrange((prev.0.element_count()) as int, (prev.0.element_count() + prev.1.element_count()) as int) =~= a.subrange(c0 + (prev.0.element_count()) as int, c0 + (prev.0.element_count() + prev.1.element_count()) as int));
            }
            assert(self.2.seq_rebuilds(
                &prev.2,
                region(a, c0, prev.element_count()).subrange((prev.0.element_count() + prev.1.element_count()) as int, (prev.0.element_count() + prev.1.element_count() + prev.2.element_count()) as int),
                region(fin, c0, self.element_count()).subrange((self.0.element_count() + self.1.element_count()) as int, (self.0.element_count() + self.1.element_count() + self.2.element_count()) as int),
            )) by {
                lemma_sub_stable(fin, f2, cb3 as int, cb2 as int, cb3 as int);
                assert(region(fin, c0, self.element_count()).subrange((self.0.element_count() + self.1.element_count()) as int, (self.0.element_count() + self.1.element_count() + self.2.element_count()) as int) =~= fin.subrange(cb2 as int, cb3 as int));
                assert(region(a, c0, prev.element_count()).subrange((prev.0.element_count() + prev.1.element_count()) as int, (prev.0.element_count() + prev.1.element_count() + prev.2.element_count()) as int) =~= a.subrange(c0 + (prev.0.element_count() + prev.1.element_count()) as int, c0 + (prev.0.element_count() + prev.1.element_count() + prev.2.element_count()) as int));
            }
            assert(self.3.seq_rebuilds(
                &prev.3,
                region(a, c0, prev.element_count()).subrange((prev.0.element_count() + prev.1.element_count() + prev.2.element_count()) as int, (prev.0.element_count() + prev.1.element_count() + prev.2.element_count() + prev.3.element_count()) as int),
                region(fin, c0, self.element_count()).subrange((self.0.element_count() + self.1.element_count() + self.2.element_count()) as int, (self.0.element_count() + self.1.element_count() + self.2.element_count() + self.3.element_count()) as int),
            )) by {
                lemma_sub_stable(fin, f3, cb4 as int, cb3 as int, cb4 as int);
                assert(region(fin, c0, self.element_count()).subrange((self.0.element_count() + self.1.element_count() + self.2.element_count()) as int, (self.0.element_count() + self.1.element_count() + self.2.element_count() + self.3.element_count()) as int) =~= fin.subrange(cb3 as int, cb4 as int));
                assert(region(a, c0, prev.element_count()).subrange((prev.0.element_count() + prev.1.element_count() + prev.2.element_count()) as int, (prev.0.element_count() + prev.1.element_count() + prev.2.element_count() + prev.3.element_count()) as int) =~= a.subrange(c0 + (prev.0.element_count() + prev.1.element_count() + prev.2.element_count()) as int, c0 + (prev.0.element_count() + prev.1.element_count() + prev.2.element_count() + prev.3.element_count()) as int));
            }
            assert(self.4.seq_rebuilds(
                &prev.4,
                region(a, c0, prev.element_count()).subrange((prev.0.element_count() + prev.1.element_count() + prev.2.element_count() + prev.3.element_count()) as int, (prev.0.element_count() + prev.1.element_count() + prev.2.element_count() + prev.3.element_count() + prev.4.element_count()) as int),
                region(fin, c0, self.element_count()).subrange((self.0.element_count() + self.1.element_count() + self.2.element_count() + self.3.element_count()) as int, (self.0.element_count() + self.1.element_count() + self.2.element_count() + self.3.element_count() + self.4.element_count()) as int),
            )) by {
                lemma_sub_stable(fin, f4, cb5 as int, cb4 as int, cb5 as int);
                assert(region(fin, c0, self.element_count()).subrange((self.0.element_count() + self.1.element_count() + self.2.element_count() + self.3.element_count()) as int, (self.0.element_count() + self.1.element_count() + self.2.element_count() + self.3.element_count() + self.4.element_count()) as int) =~= fin.subrange(cb4 as int, cb5 as int));
                assert(region(a, c0, prev.element_count()).subrange((prev.0.element_count() + prev.1.element_count() + prev.2.element_count() + prev.3.element_count()) as int, (prev.0.element_count() + prev.1.element_count() + prev.2.element_count() + prev.3.element_count() + prev.4.element_count()) as int) =~= a.subrange(c0 + (prev.0.element_count() + prev.1.element_count() + prev.2.element_count() + prev.3.element_count()) as int, c0 + (prev.0.element_count() + prev.1.element_count() + prev.2.element_count() + prev.3.element_count() + prev.4.element_count()) as int));
            }
            assert(self.5.seq_rebuilds(
                &prev.5,
                region(a, c0, prev.element_count()).subrange((prev.0.element_count() + prev.1.element_count() + prev.2.element_count() + prev.3.element_count() + prev.4.element_count()) as int, (prev.0.element_count() + prev.1.element_count() + prev.2.element_count() + prev.3.element_count() + prev.4.element_count() + prev.5.element_count()) as int),
                region(fin, c0, self.element_count()).subrange((self.0.element_count() + self.1.element_count() + self.2.element_count() + self.3.element_count() + self.4.element_count()) as int, (self.0.element_count() + self.1.element_count() + self.2.element_count() + self.3.element_count() + self.4.element_count() + self.5.element_count()) as int),
            )) by {
                lemma_sub_stable(fin, f5, cb6 as int, cb5 as int, cb6 as int);
                assert(region(fin, c0, self.element_count()).subrange((self.0.element_count() + self.1.element_count() + self.2.element_count() + self.3.element_count() + self.4.element_count()) as int, (self.0.element_count() + self.1.element_count() + self.2.element_count() + self.3.element_count() + self.4.element_count() + self.5.element_count()) as int) =~= fin.subrange(cb5 as int, cb6 as int));
                assert(region(a, c0, prev.element_count()).subrange((prev.0.element_count() + prev.1.element_count() + prev.2.element_count() + prev.3.element_count() + prev.4.element_count()) as int, (prev.0.element_count() + prev.1.element_count() + prev.2.element_count() + prev.3.element_count() + prev.4.element_count() + prev.5.element_count()) as int) =~= a.subrange(c0 + (prev.0.element_count() + prev.1.element_count() + prev.2.element_count() + prev.3.element_count() + prev.4.element_count()) as int, c0 + (prev.0.element_count() + prev.1.element_count() + prev.2.element_count() + prev.3.element_count() + prev.4.element_count() + prev.5.element_count()) as int));
            }
            assert(self.6.seq_rebuilds(
                &prev.6,
                region(a, c0, prev.element_count()).subrange((prev.0.element_count() + prev.1.element_count() + prev.2.element_count() + prev.3.element_count() + prev.4.element_count() + prev.5.element_count()) as int, (prev.0.element_count() + prev.1.element_count() + prev.2.element_count() + prev.3.element_count() + prev.4.element_count() + prev.5.element_count() + prev.6.element_count()) as int),
                region(fin, c0, self.element_count()).subrange((self.0.element_count() + self.1.element_count() + self.2.element_count() + self.3.element_count() + self.4.element_count() + self.5.element_count()) as int, (self.0.element_count() + self.1.element_count() + self.2.element_count() + self.3.element_count() + self.4.element_count() + self.5.element_count() + self.6.element_count()) as int),
            )) by {
                lemma_sub_stable(fin, f6, cb7 as int, cb6 as int, cb7 as int);
                assert(region(fin, c0, self.element_count()).subrange((self.0.element_count() + self.1.element_count() + self.2.element_count() + self.3.element_count() + self.4.element_count() + self.5.element_count()) as int, (self.0.element_count() + self.1.element_count() + self.2.element_count() + self.3.element_count() + self.4.element_count() + self.5.element_count() + self.6.element_count()) as int) =~= fin.subrange(cb6 as int, cb7 as int));
                assert(region(a, c0, prev.element_count()).subrange((prev.0.element_count() + prev.1.element_count() + prev.2.element_count() + prev.3.element_count() + prev.4.element_count() + prev.5.element_count()) as int, (prev.0.element_count() + prev.1.element_count() + prev.2.element_count() + prev.3.element_count() + prev.4.element_count() + prev.5.element_count() + prev.6.element_count()) as int) =~= a.subrange(c0 + (prev.0.element_count() + prev.1.element_count() + prev.2.element_count() + prev.3.element_count() + prev.4.element_count() + prev.5.element_count()) as int, c0 + (prev.0.element_count() + prev.1.element_count() + prev.2.element_count() + prev.3.element_count() + prev.4.element_count() + prev.5.element_count() + prev.6.element_count()) as int));
            }
            assert(self.7.seq_rebuilds(
                &prev.7,
                region(a, c0, prev.element_count()).subrange((prev.0.element_count() + prev.1.element_count() + prev.2.element_count() + prev.3.element_count() + prev.4.element_count() + prev.5.element_count() + prev.6.element_count()) as int, (prev.0.element_count() + prev.1.element_count() + prev.2.element_count() + prev.3.element_count() + prev.4.element_count() + prev.5.element_count() + prev.6.element_count() + prev.7.element_count()) as int),
                region(fin, c0, self.element_count()).subrange((self.0.element_count() + self.1.element_count() + self.2.element_count() + self.3.element_count() + self.4.element_count() + self.5.element_count() + self.6.element_count()) as int, (self.0.element_count() + self.1.element_count() + self.2.element_count() + self.3.element_count() + self.4.element_count() + self.5.element_count() + self.6.element_count() + self.7.element_count()) as int),
            )) by {
                lemma_sub_stable(fin, f7, cb8 as int, cb7 as int, cb8 as int);
                assert(region(fin, c0, self.element_count()).subrange((self.0.element_count() + self.1.element_count() + self.2.element_count() + self.3.element_count() + self.4.element_count() + self.5.element_count() + self.6.element_count()) as int, (self.0.element_count() + self.1.element_count() + self.2.element_count() + self.3.element_count() + self.4.element_count() + self.5.element_count() + self.6.element_count() + self.7.element_count()) as int) =~= fin.subrange(cb7 as int, cb8 as int));
                assert(region(a, c0, prev.element_count()).subrange((prev.0.element_count() + prev.1.element_count() + prev.2.element_count() + prev.3.element_count() + prev.4.element_count() + prev.5.element_count() + prev.6.element_count()) as int, (prev.0.element_count() + prev.1.element_count() + prev.2.element_count() + prev.3.element_count() + prev.4.element_count() + prev.5.element_count() + prev.6.element_count() + prev.7.element_count()) as int) =~= a.subrange(c0 + (prev.0.element_count() + prev.1.element_count() + prev.2.element_count() + prev.3.element_count() + prev.4.element_count() + prev.5.element_count() + prev.6.element_count()) as int, c0 + (prev.0.element_count() + prev.1.element_count() + prev.2.element_count() + prev.3.element_count() + prev.4.element_count() + prev.5.element_count() + prev.6.element_count() + prev.7.element_count()) as int));
            }
            assert(self.8.seq_rebuilds(
                &prev.8,
                region(a, c0, prev.element_count()).subrange((prev.0.element_count() + prev.1.element_count() + prev.2.element_count() + prev.3.element_count() + prev.4.element_count() + prev.5.element_count() + prev.6.element_count() + prev.7.element_count()) as int, (prev.0.element_count() + prev.1.element_count() + prev.2.element_count() + prev.3.element_count() + prev.4.element_count() + prev.5.element_count() + prev.6.element_count() + prev.7.element_count() + prev.8.element_count()) as int),
                region(fin, c0, self.element_count()).subrange((self.0.element_count() + self.1.element_count() + self.2.element_count() + self.3.element_count() + self.4.element_count() + self.5.element_count() + self.6.element_count() + self.7.element_count()) as int, (self.0.element_count() + self.1.element_count() + self.2.element_count() + self.3.element_count() + self.4.element_count() + self.5.element_count() + self.6.element_count() + self.7.element_count() + self.8.element_count()) as int),
            )) by {
                lemma_sub_stable(fin, f8, cb9 as int, cb8 as int, cb9 as int);
                assert(region(fin, c0, self.element_count()).subrange((self.0.element_count() + self.1.element_count() + self.2.element_count() + self.3.element_count() + self.4.element_count() + self.5.element_count() + self.6.element_count() + self.7.element_count()) as int, (self.0.element_count() + self.1.element_count() + self.2.element_count() + self.3.element_count() + self.4.element_count() + self.5.element_count() + self.6.element_count() + self.7.element_count() + self.8.element_count()) as int) =~= fin.subrange(cb8 as int, cb9 as int));
                assert(region(a, c0, prev.element_count()).subrange((prev.0.element_count() + prev.1.element_count() + prev.2.element_count() + prev.3.element_count() + prev.4.element_count() + prev.5.element_count() + prev.6.element_count() + prev.7.element_count()) as int, (prev.0.element_count() + prev.1.element_count() + prev.2.element_count() + prev.3.element_count() + prev.4.element_count() + prev.5.element_count() + prev.6.element_count() + prev.7.element_count() + prev.8.element_count()) as int) =~= a.subrange(c0 + (prev.0.element_count() + prev.1.element_count() + prev.2.element_count() + prev.3.element_count() + prev.4.element_count() + prev.5.element_count() + prev.6.element_count() + prev.7.element_count()) as int, c0 + (prev.0.element_count() + prev.1.element_count() + prev.2.element_count() + prev.3.element_count() + prev.4.element_count() + prev.5.element_count() + prev.6.element_count() + prev.7.element_count() + prev.8.element_count()) as int));
            }
            assert(self.9.seq_rebuilds(
                &prev.9,
                region(a, c0, prev.element_count()).subrange((prev.0.element_count() + prev.1.element_count() + prev.2.element_count() + prev.3.element_count() + prev.4.element_count() + prev.5.element_count() + prev.6.element_count() + prev.7.element_count() + prev.8.element_count()) as int, (prev.0.element_count() + prev.1.element_count() + prev.2.element_count() + prev.3.element_count() + prev.4.element_count() + prev.5.element_count() + prev.6.element_count() + prev.7.element_count() + prev.8.element_count() + prev.9.element_count()) as int),
                region(fin, c0, self.element_count()).subrange((self.0.element_count() + self.1.element_count() + self.2.element_count() + self.3.element_count() + self.4.element_count() + self.5.element_count() + self.6.element_count() + self.7.element_count() + self.8.element_count()) as int, (self.0.element_count() + self.1.element_count() + self.2.element_count() + self.3.element_count() + self.4.element_count() + self.5.element_count() + self.6.element_count() + self.7.element_count() + self.8.element_count() + self.9.element_count()) as int),
            )) by {
                lemma_sub_stable(fin, f9, cb10 as int, cb9 as int, cb10 as int);
                assert(region(fin, c0, self.element_count()).subrange((self.0.element_count() + self.1.element_count() + self.2.element_count() + self.3.element_count() + self.4.element_count() + self.5.element_count() + self.6.element_count() + self.7.element_count() + self.8.element_count()) as int, (self.0.element_count() + self.1.element_count() + self.2.element_count() + self.3.element_count() + self.4.element_count() + self.5.element_count() + self.6.element_count() + self.7.element_count() + self.8.element_count() + self.9.element_count()) as int) =~= fin.subrange(cb9 as int, cb10 as int));
                assert(region(a, c0, prev.element_count()).subrange((prev.0.element_count() + prev.1.element_count() + prev.2.element_count() + prev.3.element_count() + prev.4.element_count() + prev.5.element_count() + prev.6.element_count() + prev.7.element_count() + prev.8.element_count()) as int, (prev.0.element_count() + prev.1.element_count() + prev.2.element_count() + prev.3.element_count() + prev.4.element_count() + prev.5.element_count() + prev.6.element_count() + prev.7.element_count() + prev.8.element_count() + prev.9.element_count()) as int) =~= a.subrange(c0 + (prev.0.element_count() + prev.1.element_count() + prev.2.element_count() + prev.3.element_count() + prev.4.element_count() + prev.5.element_count() + prev.6.element_count() + prev.7.element_count() + prev.8.element_count()) as int, c0 + (prev.0.element_count() + prev.1.element_count() + prev.2.element_count() + prev.3.element_count() + prev.4.element_count() + prev.5.element_count() + prev.6.element_count() + prev.7.element_count() + prev.8.element_count() + prev.9.element_count()) as int));
            }
            assert(self.10.seq_rebuilds(
                &prev.10,
                region(a, c0, prev.element_count()).subrange((prev.0.element_count() + prev.1.element_count() + prev.2.element_count() + prev.3.element_count() + prev.4.element_count() + prev.5.element_count() + prev.6.element_count() + prev.7.element_count() + prev.8.element_count() + prev.9.element_count()) as int, (prev.0.element_count() + prev.1.element_count() + prev.2.element_count() + prev.3.element_count() + prev.4.element_count() + prev.5.element_count() + prev.6.element_count() + prev.7.element_count() + prev.8.element_count() + prev.9.element_count() + prev.10.element_count()) as int),
                region(fin, c0, self.element_count()).subrange((self.0.element_count() + self.1.element_count() + self.2.element_count() + self.3.element_count() + self.4.element_count() + self.5.element_count() + self.6.element_count() + self.7.element_count() + self.8.element_count() + self.9.element_count()) as int, (self.0.element_count() + self.1.element_count() + self.2.element_count() + self.3.element_count() + self.4.element_count() + self.5.element_count() + self.6.element_count() + self.7.element_count() + self.8.element_count() + self.9.element_count() + self.10.element_count()) as int),
            )) by {
                lemma_sub_stable(fin, f10, cb11 as int, cb10 as int, cb11 as int);
                assert(region(fin, c0, self.element_count()).subrange((self.0.element_count() + self.1.element_count() + self.2.element_count() + self.3.element_count() + self.4.element_count() + self.5.element_count() + self.6.element_count() + self.7.element_count() + self.8.element_count() + self.9.element_count()) as int, (self.0.element_count() + self.1.element_count() + self.2.element_count() + self.3.element_count() + self.4.element_count() + self.5.element_count() + self.6.element_count() + self.7.element_count() + self.8.element_count() + self.9.element_count() + self.10.element_count()) as int) =~= fin.subrange(cb10 as int, cb11 as int));
                assert(region(a, c0, prev.element_count()).subrange((prev.0.element_count() + prev.1.element_count() + prev.2.element_count() + prev.3.element_count() + prev.4.element_count() + prev.5.element_count() + prev.6.element_count() + prev.7.element_count() + prev.8.element_count() + prev.9.element_count()) as int, (prev.0.element_count() + prev.1.element_count() + prev.2.element_count() + prev.3.element_count() + prev.4.element_count() + prev.5.element_count() + prev.6.element_count() + prev.7.element_count() + prev.8.element_count() + prev.9.element_count() + prev.10.element_count()) as int) =~= a.subrange(c0 + (prev.0.element_count() + prev.1.element_count() + prev.2.element_count() + prev.3.element_count() + prev.4.element_count() + prev.5.element_count() + prev.6.element_count() + prev.7.element_count() + prev.8.element_count() + prev.9.element_count()) as int, c0 + (prev.0.element_count() + prev.1.element_count() + prev.2.element_count() + prev.3.element_count() + prev.4.element_count() + prev.5.element_count() + prev.6.element_count() + prev.7.element_count() + prev.8.element_count() + prev.9.element_count() + prev.10.element_count()) as int));
            }
            assert(self.11.seq_rebuilds(
                &prev.11,
                region(a, c0, prev.element_count()).subrange((prev.0.element_count() + prev.1.element_count() + prev.2.element_count() + prev.3.element_count() + prev.4.element_count() + prev.5.element_count() + prev.6.element_count() + prev.7.element_count() + prev.8.element_count() + prev.9.element_count() + prev.10.element_count()) as int, (prev.0.element_count() + prev.1.element_count() + prev.2.element_count() + prev.3.element_count() + prev.4.element_count() + prev.5.element_count() + prev.6.element_count() + prev.7.element_count() + prev.8.element_count() + prev.9.element_count() + prev.10.element_count() + prev.11.element_count()) as int),
                region(fin, c0, self.element_count()).subrange((self.0.element_count() + self.1.element_count() + self.2.element_count() + self.3.element_count() + self.4.element_count() + self.5.element_count() + self.6.element_count() + self.7.element_count() + self.8.element_count() + self.9.element_count() + self.10.element_count()) as int, (self.0.element_count() + self.1.element_count() + self.2.element_count() + self.3.element_count() + self.4.element_count() + self.5.element_count() + self.6.element_count() + self.7.element_count() + self.8.element_count() + self.9.element_count() + self.10.element_count() + self.11.element_count()) as int),
            )) by {
                lemma_sub_stable(fin, f11, cb12 as int, cb11 as int, cb12 as int);
                assert(region(fin, c0, self.element_count()).subrange((self.0.element_count() + self.1.element_count() + self.2.element_count() + self.3.element_count() + self.4.element_count() + self.5.element_count() + self.6.element_count() + self.7.element_count() + self.8.element_count() + self.9.element_count() + self.10.element_count()) as int, (self.0.element_count() + self.1.element_count() + self.2.element_count() + self.3.element_count() + self.4.element_count() + self.5.element_count() + self.6.element_count() + self.7.element_count() + self.8.element_count() + self.9.element_count() + self.10.element_count() + self.11.element_count()) as int) =~= fin.subrange(cb11 as int, cb12 as int));
                assert(region(a, c0, prev.element_count()).subrange((prev.0.element_count() + prev.1.element_count() + prev.2.element_count() + prev.3.element_count() + prev.4.element_count() + prev.5.element_count() + prev.6.element_count() + prev.7.element_count() + prev.8.element_count() + prev.9.element_count() + prev.10.element_count()) as int, (prev.0.element_count() + prev.1.element_count() + prev.2.element_count() + prev.3.element_count() + prev.4.element_count() + prev.5.element_count() + prev.6.element_count() + prev.7.element_count() + prev.8.element_count() + prev.9.element_count() + prev.10.element_count() + prev.11.element_count()) as int) =~= a.subrange(c0 + (prev.0.element_count() + prev.1.element_count() + prev.2.element_count() + prev.3.element_count() + prev.4.element_count() + prev.5.element_count() + prev.6.element_count() + prev.7.element_count() + prev.8.element_count() + prev.9.element_count() + prev.10.element_count()) as int, c0 + (prev.0.element_count() + prev.1.element_count() + prev.2.element_count() + prev.3.element_count() + prev.4.element_count() + prev.5.element_count() + prev.6.element_count() + prev.7.element_count() + prev.8.element_count() + prev.9.element_count() + prev.10.element_count() + prev.11.element_count()) as int));
            }
            assert(self.12.seq_rebuilds(
                &prev.12,
                region(a, c0, prev.element_count()).subrange((prev.0.element_count() + prev.1.element_count() + prev.2.element_count() + prev.3.element_count() + prev.4.element_count() + prev.5.element_count() + prev.6.element_count() + prev.7.element_count() + prev.8.element_count() + prev.9.element_count() + prev.10.element_count() + prev.11.element_count()) as int, (prev.0.element_count() + prev.1.element_count() + prev.2.element_count() + prev.3.element_count() + prev.4.element_count() + prev.5.element_count() + prev.6.element_count() + prev.7.element_count() + prev.8.element_count() + prev.9.element_count() + prev.10.element_count() + prev.11.element_count() + prev.12.element_count()) as int),
                region(fin, c0, self.element_count()).subrange((self.0.element_count() + self.1.element_count() + self.2.element_count() + self.3.element_count() + self.4.element_count() + self.5.element_count() + self.6.element_count() + self.7.element_count() + self.8.element_count() + self.9.element_count() + self.10.element_count() + self.11.element_count()) as int, (self.0.element_count() + self.1.element_count() + self.2.element_count() + self.3.element_count() + self.4.element_count() + self.5.element_count() + self.6.element_count() + self.7.element_count() + self.8.element_count() + self.9.element_count() + self.10.element_count() + self.11.element_count() + self.12.element_count()) as int),
            )) by {
                lemma_sub_stable(fin, f12, cb13 as int, cb12 as int, cb13 as int);
                assert(region(fin, c0, self.element_count()).subrange((self.0.element_count() + self.1.element_count() + self.2.element_count() + self.3.element_count() + self.4.element_count() + self.5.element_count() + self.6.element_count() + self.7.element_count() + self.8.element_count() + self.9.element_count() + self.10.element_count() + self.11.element_count()) as int, (self.0.element_count() + self.1.element_count() + self.2.element_count() + self.3.element_count() + self.4.element_count() + self.5.element_count() + self.6.element_count() + self.7.element_count() + self.8.element_count() + self.9.element_count() + self.10.element_count() + self.11.element_count() + self.12.element_count()) as int) =~= fin.subrange(cb12 as int, cb13 as int));
                assert(region(a, c0, prev.element_count()).subrange((prev.0.element_count() + prev.1.element_count() + prev.2.element_count() + prev.3.element_count() + prev.4.element_count() + prev.5.element_count() + prev.6.element_count() + prev.7.element_count() + prev.8.element_count() + prev.9.element_count() + prev.10.element_count() + prev.11.element_count()) as int, (prev.0.element_count() + prev.1.element_count() + prev.2.element_count() + prev.3.element_count() + prev.4.element_count() + prev.5.element_count() + prev.6.element_count() + prev.7.element_count() + prev.8.element_count() + prev.9.element_count() + prev.10.element_count() + prev.11.element_count() + prev.12.element_count()) as int) =~= a.subrange(c0 + (prev.0.element_count() + prev.1.element_count() + prev.2.element_count() + prev.3.element_count() + prev.4.element_count() + prev.5.element_count() + prev.6.element_count() + prev.7.element_count() + prev.8.element_count() + prev.9.element_count() + prev.10.element_count() + prev.11.element_count()) as int, c0 + (prev.0.element_count() + prev.1.element_count() + prev.2.element_count() + prev.3.element_count() + prev.4.element_count() + prev.5.element_count() + prev.6.element_count() + prev.7.element_count() + prev.8.element_count() + prev.9.element_count() + prev.10.element_count() + prev.11.element_count() + prev.12.element_count()) as int));
            }
            assert(self.13.seq_rebuilds(
                &prev.13,
                region(a, c0, prev.element_count()).subrange((prev.0.element_count() + prev.1.element_count() + prev.2.element_count() + prev.3.element_count() + prev.4.element_count() + prev.5.element_count() + prev.6.element_count() + prev.7.element_count() + prev.8.element_count() + prev.9.element_count() + prev.10.element_count() + prev.11.element_count() + prev.12.element_count()) as int, (prev.0.element_count() + prev.1.element_count() + prev.2.element_count() + prev.3.element_count() + prev.4.element_count() + prev.5.element_count() + prev.6.element_count() + prev.7.element_count() + prev.8.element_count() + prev.9.element_count() + prev.10.element_count() + prev.11.element_count() + prev.12.element_count() + prev.13.element_count()) as int),
                region(fin, c0, self.element_count()).subrange((self.0.element_count() + self.1.element_count() + self.2.element_count() + self.3.element_count() + self.4.element_count() + self.5.element_count() + self.6.element_count() + self.7.element_count() + self.8.element_count() + self.9.element_count() + self.10.element_count() + self.11.element_count() + self.12.element_count()) as int, (self.0.element_count() + self.1.element_count() + self.2.element_count() + self.3.element_count() + self.4.element_count() + self.5.element_count() + self.6.element_count() + self.7.element_count() + self.8.element_count() + self.9.element_count() + self.10.element_count() + self.11.element_count() + self.12.element_count() + self.13.element_count()) as int),
            )) by {
                lemma_sub_stable(fin, f13, cb14 as int, cb13 as int, cb14 as int);
                assert(region(fin, c0, self.element_count()).subrange((self.0.element_count() + self.1.element_count() + self.2.element_count() + self.3.element_count() + self.4.element_count() + self.5.element_count() + self.6.element_count() + self.7.element_count() + self.8.element_count() + self.9.element_count() + self.10.element_count() + self.11.element_count() + self.12.element_count()) as int, (self.0.element_count() + self.1.element_count() + self.2.element_count() + self.3.element_count() + self.4.element_count() + self.5.element_count() + self.6.element_count() + self.7.element_count() + self.8.element_count() + self.9.element_count() + self.10.element_count() + self.11.element_count() + self.12.element_count() + self.13.element_count()) as int) =~= fin.subrange(cb13 as int, cb14 as int));
                assert(region(a, c0, prev.element_count()).subrange((prev.0.element_count() + prev.1.element_count() + prev.2.element_count() + prev.3.element_count() + prev.4.element_count() + prev.5.element_count() + prev.6.element_count() + prev.7.element_count() + prev.8.element_count() + prev.9.element_count() + prev.10.element_count() + prev.11.element_count() + prev.12.element_count()) as int, (prev.0.element_count() + prev.1.element_count() + prev.2.element_count() + prev.3.element_count() + prev.4.element_count() + prev.5.element_count() + prev.6.element_count() + prev.7.element_count() + prev.8.element_count() + prev.9.element_count() + prev.10.element_count() + prev.11.element_count() + prev.12.element_count() + prev.13.element_count()) as int) =~= a.subrange(c0 + (prev.0.element_count() + prev.1.element_count() + prev.2.element_count() + prev.3.element_count() + prev.4.element_count() + prev.5.element_count() + prev.6.element_count() + prev.7.element_count() + prev.8.element_count() + prev.9.element_count() + prev.10.element_count() + prev.11.element_count() + prev.12.element_count()) as int, c0 + (prev.0.element_count() + prev.1.element_count() + prev.2.element_count() + prev.3.element_count() + prev.4.element_count() + prev.5.element_count() + prev.6.element_count() + prev.7.element_count() + prev.8.element_count() + prev.9.element_count() + prev.10.element_count() + prev.11.element_count() + prev.12.element_count() + prev.13.element_count()) as int));
            }
            assert(self.14.seq_rebuilds(
                &prev.14,
                region(a, c0, prev.element_count()).subrange((prev.0.element_count() + prev.1.element_count() + prev.2.element_count() + prev.3.element_count() + prev.4.element_count() + prev.5.element_count() + prev.6.element_count() + prev.7.element_count() + prev.8.element_count() + prev.9.element_count() + prev.10.element_count() + prev.11.element_count() + prev.12.element_count() + prev.13.element_count()) as int, (prev.0.element_count() + prev.1.element_count() + prev.2.element_count() + prev.3.element_count() + prev.4.element_count() + prev.5.element_count() + prev.6.element_count() + prev.7.element_count() + prev.8.element_count() + prev.9.element_count() + prev.10.element_count() + prev.11.element_count() + prev.12.element_count() + prev.13.element_count() + prev.14.element_count()) as int),
                region(fin, c0, self.element_count()).subrange((self.0.element_count() + self.1.element_count() + self.2.element_count() + self.3.element_count() + self.4.element_count() + self.5.element_count() + self.6.element_count() + self.7.element_count() + self.8.element_count() + self.9.element_count() + self.10.element_count() + self.11.element_count() + self.12.element_count() + self.13.element_count()) as int, (self.0.element_count() + self.1.element_count() + self.2.element_count() + self.3.element_count() + self.4.element_count() + self.5.element_count() + self.6.element_count() + self.7.element_count() + self.8.element_count() + self.9.element_count() + self.10.element_count() + self.11.element_count() + self.12.element_count() + self.13.element_count() + self.14.element_count()) as int),
            )) by {
                lemma_sub_stable(fin, f14, cb15 as int, cb14 as int, cb15 as int);
                assert(region(fin, c0, self.element_count()).subrange((self.0.element_count() + self.1.element_count() + self.2.element_count() + self.3.element_count() + self.4.element_count() + self.5.element_count() + self.6.element_count() + self.7.element_count() + self.8.element_count() + self.9.element_count() + self.10.element_count() + self.11.element_count() + self.12.element_count() + self.13.element_count()) as int, (self.0.element_count() + self.1.element_count() + self.2.element_count() + self.3.element_count() + self.4.element_count() + self.5.element_count() + self.6.element_count() + self.7.element_count() + self.8.element_count() + self.9.element_count() + self.10.element_count() + self.11.element_count() + self.12.element_count() + self.13.element_count() + self.14.element_count()) as int) =~= fin.subrange(cb14 as int, cb15 as int));
                assert(region(a, c0, prev.element_count()).subrange((prev.0.element_count() + prev.1.element_count() + prev.2.element_count() + prev.3.element_count() + prev.4.element_count() + prev.5.element_count() + prev.6.element_count() + prev.7.element_count() + prev.8.element_count() + prev.9.element_count() + prev.10.element_count() + prev.11.element_count() + prev.12.element_count() + prev.13.element_count()) as int, (prev.0.element_count() + prev.1.element_count() + prev.2.element_count() + prev.3.element_count() + prev.4.element_count() + prev.5.element_count() + prev.6.element_count() + prev.7.element_count() + prev.8.element_count() + prev.9.element_count() + prev.10.element_count() + prev.11.element_count() + prev.12.element_count() + prev.13.element_count() + prev.14.element_count()) as int) =~= a.subrange(c0 + (prev.0.element_count() + prev.1.element_count() + prev.2.element_count() + prev.3.element_count() + prev.4.element_count() + prev.5.element_count() + prev.6.element_count() + prev.7.element_count() + prev.8.element_count() + prev.9.element_count() + prev.10.element_count() + prev.11.element_count() + prev.12.element_count() + prev.13.element_count()) as int, c0 + (prev.0.element_count() + prev.1.element_count() + prev.2.element_count() + prev.3.element_count() + prev.4.element_count() + prev.5.element_count() + prev.6.element_count() + prev.7.element_count() + prev.8.element_count() + prev.9.element_count() + prev.10.element_count() + prev.11.element_count() + prev.12.element_count() + prev.13.element_count() + prev.14.element_count()) as int));
            }
            assert(self.15.seq_rebuilds(
                &prev.15,
                region(a, c0, prev.element_count()).subrange((prev.0.element_count() + prev.1.element_count() + prev.2.element_count() + prev.3.element_count() + prev.4.element_count() + prev.5.element_count() + prev.6.element_count() + prev.7.element_count() + prev.8.element_count() + prev.9.element_count() + prev.10.element_count() + prev.11.element_count() + prev.12.element_count() + prev.13.element_count() + prev.14.element_count()) as int, (prev.0.element_count() + prev.1.element_count() + prev.2.element_count() + prev.3.element_count() + prev.4.element_count() + prev.5.element_count() + prev.6.element_count() + prev.7.element_count() + prev.8.element_count() + prev.9.element_count() + prev.10.element_count() + prev.11.element_count() + prev.12.element_count() + prev.13.element_count() + prev.14.element_count() + prev.15.element_count()) as int),
                region(fin, c0, self.element_count()).subrange((self.0.element_count() + self.1.element_count() + self.2.element_count() + self.3.element_count() + self.4.element_count() + self.5.element_count() + self.6.element_count() + self.7.element_count() + self.8.element_count() + self.9.element_count() + self.10.element_count() + self.11.element_count() + self.12.element_count() + self.13.element_count() + self.14.element_count()) as int, (self.0.element_count() + self.1.element_count() + self.2.element_count() + self.3.element_count() + self.4.element_count() + self.5.element_count() + self.6.element_count() + self.7.element_count() + self.8.element_count() + self.9.element_count() + self.10.element_count() + self.11.element_count() + self.12.element_count() + self.13.element_count() + self.14.element_count() + self.15.element_count()) as int),
            )) by {
                assert(region(fin, c0, self.element_count()).subrange((self.0.element_count() + self.1.element_count() + self.2.element_count() + self.3.element_count() + self.4.element_count() + self.5.element_count() + self.6.element_count() + self.7.element_count() + self.8.element_count() + self.9.element_count() + self.10.element_count() + self.11.element_count() + self.12.element_count() + self.13.element_count() + self.14.element_count()) as int, (self.0.element_count() + self.1.element_count() + self.2.element_count() + self.3.element_count() + self.4.element_count() + self.5.element_count() + self.6.element_count() + self.7.element_count() + self.8.element_count() + self.9.element_count() + self.10.element_count() + self.11.element_count() + self.12.element_count() + self.13.element_count() + self.14.element_count() + self.15.element_count()) as int) =~= fin.subrange(cb15 as int, ce as int));
                assert(region(a, c0, prev.element_count()).subrange((prev.0.element_count() + prev.1.element_count() + prev.2.element_count() + prev.3.element_count() + prev.4.element_count() + prev.5.element_count() + prev.6.element_count() + prev.7.element_count() + prev.8.element_count() + prev.9.element_count() + prev.10.element_count() + prev.11.element_count() + prev.12.element_count() + prev.13.element_count() + prev.14.element_count()) as int, (prev.0.element_count() + prev.1.element_count() + prev.2.element_count() + prev.3.element_count() + prev.4.element_count() + prev.5.element_count() + prev.6.element_count() + prev.7.element_count() + prev.8.element_count() + prev.9.element_count() + prev.10.element_count() + prev.11.element_count() + prev.12.element_count() + prev.13.element_count() + prev.14.element_count() + prev.15.element_count()) as int) =~= a.subrange(c0 + (prev.0.element_count() + prev.1.element_count() + prev.2.element_count() + prev.3.element_count() + prev.4.element_count() + prev.5.element_count() + prev.6.element_count() + prev.7.element_count() + prev.8.element_count() + prev.9.element_count() + prev.10.element_count() + prev.11.element_count() + prev.12.element_count() + prev.13.element_count() + prev.14.element_count()) as int, c0 + (prev.0.element_count() + prev.1.element_count() + prev.2.element_count() + prev.3.element_count() + prev.4.element_count() + prev.5.element_count() + prev.6.element_count() + prev.7.element_count() + prev.8.element_count() + prev.9.element_count() + prev.10.element_count() + prev.11.element_count() + prev.12.element_count() + prev.13.element_count() + prev.14.element_count() + prev.15.element_count()) as int));
            }
        }
    }

    #[verifier::spinoff_prover]
    #[verifier::rlimit(100)]
    fn seq_teardown<Splice: ElementSplice<Element>>(&self, elements: &mut Splice) {
        let ghost a = elements.items();
        let ghost c0 = elements.cursor();
        proof {
            lemma_kept_refl(a, c0);
        }
        let ghost b0 = elements.items();
        let ghost cb0 = elements.cursor();
        proof {
            assert(b0.skip(cb0 as int).len() == a.skip((c0 + 0) as int).len());
        }
        self.0.seq_teardown(elements);
        proof {
            assert(self.0.seq_tears_down(region(a, c0, self.element_count()).subrange(0int, (self.0.element_count()) as int))) by {
                lemma_sub_shift(a, b0, (c0 + 0) as int, cb0 as int, self.0.element_count() as int);
                assert(region(a, c0, self.element_count()).subrange(0int, (self.0.element_count()) as int) =~= a.subrange(c0 + 0int, c0 + (self.0.element_count()) as int));
            }
            lemma_kept_compose(a, c0, 0, b0, cb0, self.0.element_count(), elements.items(), elements.cursor());
        }
        let ghost b1 = elements.items();
        let ghost cb1 = elements.cursor();
        proof {
            assert(b1.skip(cb1 as int).len() == a.skip((c0 + (self.0.element_count())) as int).len());
        }
        self.1.seq_teardown(elements);
        proof {
            assert(self.1.seq_tears_down(region(a, c0, self.element_count()).subrange((self.0.element_count()) as int, (self.0.element_count() + self.1.element_count()) as int))) by {
                lemma_sub_shift(a, b1, (c0 + (self.0.element_count())) as int, cb1 as int, self.1.element_count() as int);
                assert(region(a, c0, self.element_count()).subrange((self.0.element_count()) as int, (self.0.element_count() + self.1.element_count()) as int) =~= a.subrange(c0 + (self.0.element_count()) as int, c0 + (self.0.element_count() + self.1.element_count()) as int));
            }
            lemma_kept_compose(a, c0, (self.0.element_count()), b1, cb1, self.1.element_count(), elements.items(), elements.cursor());
        }
        let ghost b2 = elements.items();
        let ghost cb2 = elements.cursor();
        proof {
            assert(b2.skip(cb2 as int).len() == a.skip((c0 + (self.0.element_count() + self.1.element_count())) as int).len());
        }
        self.2.seq_teardown(elements);
        proof {
            assert(self.2.seq_tears_down(region(a, c0, self.element_count()).subrange((self.0.element_count() + self.1.element_count()) as int, (self.0.element_count() + self.1.element_count() + self.2.element_count()) as int))) by {
                lemma_sub_shift(a, b2, (c0 + (self.0.element_count() + self.1.element_count())) as int, cb2 as int, self.2.element_count() as int);
                assert(region(a, c0, self.element_count()).subrange((self.0.element_count() + self.1.element_count()) as int, (self.0.element_count() + self.1.element_count() + self.2.element_count()) as int) =~= a.subrange(c0 + (self.0.element_count() + self.1.element_count()) as int, c0 + (self.0.element_count() + self.1.element_count() + self.2.element_count()) as int));
            }
            lemma_kept_compose(a, c0, (self.0.element_count() + self.1.element_count()), b2, cb2, self.2.element_count(), elements.items(), elements.cursor());
        }
        let ghost b3 = elements.items();
        let ghost cb3 = elements.cursor();
        proof {
            assert(b3.skip(cb3 as int).len() == a.skip((c0 + (self.0.element_count() + self.1.element_count() + self.2.element_count())) as int).len());
        }
        self.3.seq_teardown(elements);
        proof {
            assert(self.3.seq_tears_down(region(a, c0, self.element_count()).subrange((self.0.element_count() + self.1.element_count() + self.2.element_count()) as int, (self.0.element_count() + self.1.element_count() + self.2.element_count() + self.3.element_count()) as int))) by {
                lemma_sub_shift(a, b3, (c0 + (self.0.element_count() + self.1.element_count() + self.2.element_count())) as int, cb3 as int, self.3.element_count() as int);
                assert(region(a, c0, self.element_count()).subrange((self.0.element_count() + self.1.element_count() + self.2.element_count()) as int, (self.0.element_count() + self.1.element_count() + self.2.element_count() + self.3.element_count()) as int) =~= a.subrange(c0 + (self.0.element_count() + self.1.element_count() + self.2.element_count()) as int, c0 + (self.0.element_count() + self.1.element_count() + self.2.element_count() + self.3.element_count()) as int));
            }
            lemma_kept_compose(a, c0, (self.0.element_count() + self.1.element_count() + self.2.element_count()), b3, cb3, self.3.element_count(), elements.items(), elements.cursor());
        }
        let ghost b4 = elements.items();
        let ghost cb4 = elements.cursor();
        proof {
            assert(b4.skip(cb4 as int).len() == a.skip((c0 + (self.0.element_count() + self.1.element_count() + self.2.element_count() + self.3.element_count())) as int).len());
        }
        self.4.seq_teardown(elements);
        proof {
            assert(self.4.seq_tears_down(region(a, c0, self.element_count()).subrange((self.0.element_count() + self.1.element_count() + self.2.element_count() + self.3.element_count()) as int, (self.0.element_count() + self.1.element_count() + self.2.element_count() + self.3.element_count() + self.4.element_count()) as int))) by {
                lemma_sub_shift(a, b4, (c0 + (self.0.element_count() + self.1.element_count() + self.2.element_count() + self.3.element_count())) as int, cb4 as int, self.4.element_count() as int);
                assert(region(a, c0, self.element_count()).subrange((self.0.element_count() + self.1.element_count() + self.2.element_count() + self.3.element_count()) as int, (self.0.element_count() + self.1.element_count() + self.2.element_count() + self.3.element_count() + self.4.element_count()) as int) =~= a.subrange(c0 + (self.0.element_count() + self.1.element_count() + self.2.element_count() + self.3.element_count()) as int, c0 + (self.0.element_count() + self.1.element_count() + self.2.element_count() + self.3.element_count() + self.4.element_count()) as int));
            }
            lemma_kept_compose(a, c0, (self.0.element_count() + self.1.element_count() + self.2.element_count() + self.3.element_count()), b4, cb4, self.4.element_count(), elements.items(), elements.cursor());
        }
        let ghost b5 = elements.items();
        let ghost cb5 = elements.cursor();
        proof {
            assert(b5.skip(cb5 as int).len() == a.skip((c0 + (self.0.element_count() + self.1.element_count() + self.2.element_count() + self.3.element_count() + self.4.element_count())) as int).len());
        }
        self.5.seq_teardown(elements);
        proof {
            assert(self.5.seq_tears_down(region(a, c0, self.element_count()).subrange((self.0.element_count() + self.1.element_count() + self.2.element_count() + self.3.element_count() + self.4.element_count()) as int, (self.0.element_count() + self.1.element_count() + self.2.element_count() + self.3.element_count() + self.4.element_count() + self.5.element_count()) as int))) by {
                lemma_sub_shift(a, b5, (c0 + (self.0.element_count() + self.1.element_count() + self.2.element_count() + self.3.element_count() + self.4.element_count())) as int, cb5 as int, self.5.element_count() as int);
                assert(region(a, c0, self.element_count()).subrange((self.0.element_count() + self.1.element_count() + self.2.element_count() + self.3.element_count() + self.4.element_count()) as int, (self.0.element_count() + self.1.element_count() + self.2.element_count() + self.3.element_count() + self.4.element_count() + self.5.element_count()) as int) =~= a.subrange(c0 + (self.0.element_count() + self.1.element_count() + self.2.element_count() + self.3.element_count() + self.4.element_count()) as int, c0 + (self.0.element_count() + self.1.element_count() + self.2.element_count() + self.3.element_count() + self.4.element_count() + self.5.element_count()) as int));
            }
            lemma_kept_compose(a, c0, (self.0.element_count() + self.1.element_count() + self.2.element_count() + self.3.element_count() + self.4.element_count()), b5, cb5, self.5.element_count(), elements.items(), elements.cursor());
        }
        let ghost b6 = elements.items();
        let ghost cb6 = elements.cursor();
        proof {
            assert(b6.skip(cb6 as int).len() == a.skip((c0 + (self.0.element_count() + self.1.element_count() + self.2.element_count() + self.3.element_count() + self.4.element_count() + self.5.element_count())) as int).len());
        }
        self.6.seq_teardown(elements);
        proof {
            assert(self.6.seq_tears_down(region(a, c0, self.element_count()).subrange((self.0.element_count() + self.1.element_count() + self.2.element_count() + self.3.element_count() + self.4.element_count() + self.5.element_count()) as int, (self.0.element_count() + self.1.element_count() + self.2.element_count() + self.3.element_count() + self.4.element_count() + self.5.element_count() + self.6.element_count()) as int))) by {
                lemma_sub_shift(a, b6, (c0 + (self.0.element_count() + self.1.element_count() + self.2.element_count() + self.3.element_count() + self.4.element_count() + self.5.element_count())) as int, cb6 as int, self.6.element_count() as int);
                assert(region(a, c0, self.element_count()).subrange((self.0.element_count() + self.1.element_count() + self.2.element_count() + self.3.element_count() + self.4.element_count() + self.5.element_count()) as int, (self.0.element_count() + self.1.element_count() + self.2.element_count() + self.3.element_count() + self.4.element_count() + self.5.element_count() + self.6.element_count()) as int) =~= a.subrange(c0 + (self.0.element_count() + self.1.element_count() + self.2.element_count() + self.3.element_count() + self.4.element_count() + self.5.element_count()) as int, c0 + (self.0.element_count() + self.1.element_count() + self.2.element_count() + self.3.element_count() + self.4.element_count() + self.5.element_count() + self.6.element_count()) as int));
            }
            lemma_kept_compose(a, c0, (self.0.element_count() + self.1.element_count() + self.2.element_count() + self.3.element_count() + self.4.element_count() + self.5.element_count()), b6, cb6, self.6.element_count(), elements.items(), elements.cursor());
        }
        let ghost b7 = elements.items();
        let ghost cb7 = elements.cursor();
        proof {
            assert(b7.skip(cb7 as int).len() == a.skip((c0 + (self.0.element_count() + self.1.element_count() + self.2.element_count() + self.3.element_count() + self.4.element_count() + self.5.element_count() + self.6.element_count())) as int).len());
        }
        self.7.seq_teardown(elements);
        proof {
            assert(self.7.seq_tears_down(region(a, c0, self.element_count()).subrange((self.0.element_count() + self.1.element_count() + self.2.element_count() + self.3.element_count() + self.4.element_count() + self.5.element_count() + self.6.element_count()) as int, (self.0.element_count() + self.1.element_count() + self.2.element_count() + self.3.element_count() + self.4.element_count() + self.5.element_count() + self.6.element_count() + self.7.element_count()) as int))) by {
                lemma_sub_shift(a, b7, (c0 + (self.0.element_count() + self.1.element_count() + self.2.element_count() + self.3.element_count() + self.4.element_count() + self.5.element_count() + self.6.element_count())) as int, cb7 as int, self.7.element_count() as int);
                assert(region(a, c0, self.element_count()).subrange((self.0.element_count() + self.1.element_count() + self.2.element_count() + self.3.element_count() + self.4.element_count() + self.5.element_count() + self.6.element_count()) as int, (self.0.element_count() + self.1.element_count() + self.2.element_count() + self.3.element_count() + self.4.element_count() + self.5.element_count() + self.6.element_count() + self.7.element_count()) as int) =~= a.subrange(c0 + (self.0.element_count() + self.1.element_count() + self.2.element_count() + self.3.element_count() + self.4.element_count() + self.5.element_count() + self.6.element_count()) as int, c0 + (self.0.element_count() + self.1.element_count() + self.2.element_count() + self.3.element_count() + self.4.element_count() + self.5.element_count() + self.6.element_count() + self.7.element_count()) as int));
            }
            lemma_kept_compose(a, c0, (self.0.element_count() + self.1.element_count() + self.2.element_count() + self.3.element_count() + self.4.element_count() + self.5.element_count() + self.6.element_count()), b7, cb7, self.7.element_count(), elements.items(), elements.cursor());
        }
        let ghost b8 = elements.items();
        let ghost cb8 = elements.cursor();
        proof {
            assert(b8.skip(cb8 as int).len() == a.skip((c0 + (self.0.element_count() + self.1.element_count() + self.2.element_count() + self.3.element_count() + self.4.element_count() + self.5.element_count() + self.6.element_count() + self.7.element_count())) as int).len());
        }
        self.8.seq_teardown(elements);
        proof {
            assert(self.8.seq_tears_down(region(a, c0, self.element_count()).subrange((self.0.element_count() + self.1.element_count() + self.2.element_count() + self.3.element_count() + self.4.element_count() + self.5.element_count() + self.6.element_count() + self.7.element_count()) as int, (self.0.element_count() + self.1.element_count() + self.2.element_count() + self.3.element_count() + self.4.element_count() + self.5.element_count() + self.6.element_count() + self.7.element_count() + self.8.element_count()) as int))) by {
                lemma_sub_shift(a, b8, (c0 + (self.0.element_count() + self.1.element_count() + self.2.element_count() + self.3.element_count() + self.4.element_count() + self.5.element_count() + self.6.element_count() + self.7.element_count())) as int, cb8 as int, self.8.element_count() as int);
                assert(region(a, c0, self.element_count()).subrange((self.0.element_count() + self.1.element_count() + self.2.element_count() + self.3.element_count() + self.4.element_count() + self.5.element_count() + self.6.element_count() + self.7.element_count()) as int, (self.0.element_count() + self.1.element_count() + self.2.element_count() + self.3.element_count() + self.4.element_count() + self.5.element_count() + self.6.element_count() + self.7.element_count() + self.8.element_count()) as int) =~= a.subrange(c0 + (self.0.element_count() + self.1.element_count() + self.2.element_count() + self.3.element_count() + self.4.element_count() + self.5.element_count() + self.6.element_count() + self.7.element_count()) as int, c0 + (self.0.element_count() + self.1.element_count() + self.2.element_count() + self.3.element_count() + self.4.element_count() + self.5.element_count() + self.6.element_count() + self.7.element_count() + self.8.element_count()) as int));
            }
            lemma_kept_compose(a, c0, (self.0.element_count() + self.1.element_count() + self.2.element_count() + self.3.element_count() + self.4.element_count() + self.5.element_count() + self.6.element_count() + self.7.element_count()), b8, cb8, self.8.element_count(), elements.items(), elements.cursor());
        }
        let ghost b9 = elements.items();
        let ghost cb9 = elements.cursor();
        proof {
            assert(b9.skip(cb9 as int).len() == a.skip((c0 + (self.0.element_count() + self.1.element_count() + self.2.element_count() + self.3.element_count() + self.4.element_count() + self.5.element_count() + self.6.element_count() + self.7.element_count() + self.8.element_count())) as int).len());
        }
        self.9.seq_teardown(elements);
        proof {
            assert(self.9.seq_tears_down(region(a, c0, self.element_count()).subrange((self.0.element_count() + self.1.element_count() + self.2.element_count() + self.3.element_count() + self.4.element_count() + self.5.element_count() + self.6.element_count() + self.7.element_count() + self.8.element_count()) as int, (self.0.element_count() + self.1.element_count() + self.2.element_count() + self.3.element_count() + self.4.element_count() + self.5.element_count() + self.6.element_count() + self.7.element_count() + self.8.element_count() + self.9.element_count()) as int))) by {
                lemma_sub_shift(a, b9, (c0 + (self.0.element_count() + self.1.element_count() + self.2.element_count() + self.3.element_count() + self.4.element_count() + self.5.element_count() + self.6.element_count() + self.7.element_count() + self.8.element_count())) as int, cb9 as int, self.9.element_count() as int);
                assert(region(a, c0, self.element_count()).subrange((self.0.element_count() + self.1.element_count() + self.2.element_count() + self.3.element_count() + self.4.element_count() + self.5.element_count() + self.6.element_count() + self.7.element_count() + self.8.element_count()) as int, (self.0.element_count() + self.1.element_count() + self.2.element_count() + self.3.element_count() + self.4.element_count() + self.5.element_count() + self.6.element_count() + self.7.element_count() + self.8.element_count() + self.9.element_count()) as int) =~= a.subrange(c0 + (self.0.element_count() + self.1.element_count() + self.2.element_count() + self.3.element_count() + self.4.element_count() + self.5.element_count() + self.6.element_count() + self.7.element_count() + self.8.element_count()) as int, c0 + (self.0.element_count() + self.1.element_count() + self.2.element_count() + self.3.element_count() + self.4.element_count() + self.5.element_count() + self.6.element_count() + self.7.element_count() + self.8.element_count() + self.9.element_count()) as int));
            }
            lemma_kept_compose(a, c0, (self.0.element_count() + self.1.element_count() + self.2.element_count() + self.3.element_count() + self.4.element_count() + self.5.element_count() + self.6.element_count() + self.7.element_count() + self.8.element_count()), b9, cb9, self.9.element_count(), elements.items(), elements.cursor());
        }
        let ghost b10 = elements.items();
        let ghost cb10 = elements.cursor();
        proof {
            assert(b10.skip(cb10 as int).len() == a.skip((c0 + (self.0.element_count() + self.1.element_count() + self.2.element_count() + self.3.element_count() + self.4.element_count() + self.5.element_count() + self.6.element_count() + self.7.element_count() + self.8.element_count() + self.9.element_count())) as int).len());
        }
        self.10.seq_teardown(elements);
        proof {
            assert(self.10.seq_tears_down(region(a, c0, self.element_count()).subrange((self.0.element_count() + self.1.element_count() + self.2.element_count() + self.3.element_count() + self.4.element_count() + self.5.element_count() + self.6.element_count() + self.7.element_count() + self.8.element_count() + self.9.element_count()) as int, (self.0.element_count() + self.1.element_count() + self.2.element_count() + self.3.element_count() + self.4.element_count() + self.5.element_count() + self.6.element_count() + self.7.element_count() + self.8.element_count() + self.9.element_count() + self.10.element_count()) as int))) by {
                lemma_sub_shift(a, b10, (c0 + (self.0.element_count() + self.1.element_count() + self.2.element_count() + self.3.element_count() + self.4.element_count() + self.5.element_count() + self.6.element_count() + self.7.element_count() + self.8.element_count() + self.9.element_count())) as int, cb10 as int, self.10.element_count() as int);
                assert(region(a, c0, self.element_count()).subrange((self.0.element_count() + self.1.element_count() + self.2.element_count() + self.3.element_count() + self.4.element_count() + self.5.element_count() + self.6.element_count() + self.7.element_count() + self.8.element_count() + self.9.element_count()) as int, (self.0.element_count() + self.1.element_count() + self.2.element_count() + self.3.element_count() + self.4.element_count() + self.5.element_count() + self.6.element_count() + self.7.element_count() + self.8.element_count() + self.9.element_count() + self.10.element_count()) as int) =~= a.subrange(c0 + (self.0.element_count() + self.1.element_count() + self.2.element_count() + self.3.element_count() + self.4.element_count() + self.5.element_count() + self.6.element_count() + self.7.element_count() + self.8.element_count() + self.9.element_count()) as int, c0 + (self.0.element_count() + self.1.element_count() + self.2.element_count() + self.3.element_count() + self.4.element_count() + self.5.element_count() + self.6.element_count() + self.7.element_count() + self.8.element_count() + self.9.element_count() + self.10.element_count()) as int));
            }
            lemma_kept_compose(a, c0, (self.0.element_count() + self.1.element_count() + self.2.element_count() + self.3.element_count() + self.4.element_count() + self.5.element_count() + self.6.element_count() + self.7.element_count() + self.8.element_count() + self.9.element_count()), b10, cb10, self.10.element_count(), elements.items(), elements.cursor());
        }
        let ghost b11 = elements.items();
        let ghost cb11 = elements.cursor();
        proof {
            assert(b11.skip(cb11 as int).len() == a.skip((c0 + (self.0.element_count() + self.1.element_count() + self.2.element_count() + self.3.element_count() + self.4.element_count() + self.5.element_count() + self.6.element_count() + self.7.element_count() + self.8.element_count() + self.9.element_count() + self.10.element_count())) as int).len());
        }
        self.11.seq_teardown(elements);
        proof {
            assert(self.11.seq_tears_down(region(a, c0, self.element_count()).subrange((self.0.element_count() + self.1.element_count() + self.2.element_count() + self.3.element_count() + self.4.element_count() + self.5.element_count() + self.6.element_count() + self.7.element_count() + self.8.element_count() + self.9.element_count() + self.10.element_count()) as int, (self.0.element_count() + self.1.element_count() + self.2.element_count() + self.3.element_count() + self.4.element_count() + self.5.element_count() + self.6.element_count() + self.7.element_count() + self.8.element_count() + self.9.element_count() + self.10.element_count() + self.11.element_count()) as int))) by {
                lemma_sub_shift(a, b11, (c0 + (self.0.element_count() + self.1.element_count() + self.2.element_count() + self.3.element_count() + self.4.element_count() + self.5.element_count() + self.6.element_count() + self.7.element_count() + self.8.element_count() + self.9.element_count() + self.10.element_count())) as int, cb11 as int, self.11.element_count() as int);
                assert(region(a, c0, self.element_count()).subrange((self.0.element_count() + self.1.element_count() + self.2.element_count() + self.3.element_count() + self.4.element_count() + self.5.element_count() + self.6.element_count() + self.7.element_count() + self.8.element_count() + self.9.element_count() + self.10.element_count()) as int, (self.0.element_count() + self.1.element_count() + self.2.element_count() + self.3.element_count() + self.4.element_count() + self.5.element_count() + self.6.element_count() + self.7.element_count() + self.8.element_count() + self.9.element_count() + self.10.element_count() + self.11.element_count()) as int) =~= a.subrange(c0 + (self.0.element_count() + self.1.element_count() + self.2.element_count() + self.3.element_count() + self.4.element_count() + self.5.element_count() + self.6.element_count() + self.7.element_count() + self.8.element_count() + self.9.element_count() + self.10.element_count()) as int, c0 + (self.0.element_count() + self.1.element_count() + self.2.element_count() + self.3.element_count() + self.4.element_count() + self.5.element_count() + self.6.element_count() + self.7.element_count() + self.8.element_count() + self.9.element_count() + self.10.element_count() + self.11.element_count()) as int));
            }
            lemma_kept_compose(a, c0, (self.0.element_count() + self.1.element_count() + self.2.element_count() + self.3.element_count() + self.4.element_count() + self.5.element_count() + self.6.element_count() + self.7.element_count() + self.8.element_count() + self.9.element_count() + self.10.element_count()), b11, cb11, self.11.element_count(), elements.items(), elements.cursor());
        }
        let ghost b12 = elements.items();
        let ghost cb12 = elements.cursor();
        proof {
            assert(b12.skip(cb12 as int).len() == a.skip((c0 + (self.0.element_count() + self.1.element_count() + self.2.element_count() + self.3.element_count() + self.4.element_count() + self.5.element_count() + self.6.element_count() + self.7.element_count() + self.8.element_count() + self.9.element_count() + self.10.element_count() + self.11.element_count())) as int).len());
        }
        self.12.seq_teardown(elements);
        proof {
            assert(self.12.seq_tears_down(region(a, c0, self.element_count()).subrange((self.0.element_count() + self.1.element_count() + self.2.element_count() + self.3.element_count() + self.4.element_count() + self.5.element_count() + self.6.element_count() + self.7.element_count() + self.8.element_count() + self.9.element_count() + self.10.element_count() + self.11.element_count()) as int, (self.0.element_count() + self.1.element_count() + self.2.element_count() + self.3.element_count() + self.4.element_count() + self.5.element_count() + self.6.element_count() + self.7.element_count() + self.8.element_count() + self.9.element_count() + self.10.element_count() + self.11.element_count() + self.12.element_count()) as int))) by {
                lemma_sub_shift(a, b12, (c0 + (self.0.element_count() + self.1.element_count() + self.2.element_count() + self.3.element_count() + self.4.element_count() + self.5.element_count() + self.6.element_count() + self.7.element_count() + self.8.element_count() + self.9.element_count() + self.10.element_count() + self.11.element_count())) as int, cb12 as int, self.12.element_count() as int);
                assert(region(a, c0, self.element_count()).subrange((self.0.element_count() + self.1.element_count() + self.2.element_count() + self.3.element_count() + self.4.element_count() + self.5.element_count() + self.6.element_count() + self.7.element_count() + self.8.element_count() + self.9.element_count() + self.10.element_count() + self.11.element_count()) as int, (self.0.element_count() + self.1.element_count() + self.2.element_count() + self.3.element_count() + self.4.element_count() + self.5.element_count() + self.6.element_count() + self.7.element_count() + self.8.element_count() + self.9.element_count() + self.10.element_count() + self.11.element_count() + self.12.element_count()) as int) =~= a.subrange(c0 + (self.0.element_count() + self.1.element_count() + self.2.element_count() + self.3.element_count() + self.4.element_count() + self.5.element_count() + self.6.element_count() + self.7.element_count() + self.8.element_count() + self.9.element_count() + self.10.element_count() + self.11.element_count()) as int, c0 + (self.0.element_count() + self.1.element_count() + self.2.element_count() + self.3.element_count() + self.4.element_count() + self.5.element_count() + self.6.element_count() + self.7.element_count() + self.8.element_count() + self.9.element_count() + self.10.element_count() + self.11.element_count() + self.12.element_count()) as int));
            }
            lemma_kept_compose(a, c0, (self.0.element_count() + self.1.element_count() + self.2.element_count() + self.3.element_count() + self.4.element_count() + self.5.element_count() + self.6.element_count() + self.7.element_count() + self.8.element_count() + self.9.element_count() + self.10.element_count() + self.11.element_count()), b12, cb12, self.12.element_count(), elements.items(), elements.cursor());
        }
        let ghost b13 = elements.items();
        let ghost cb13 = elements.cursor();
        proof {
            assert(b13.skip(cb13 as int).len() == a.skip((c0 + (self.0.element_count() + self.1.element_count() + self.2.element_count() + self.3.element_count() + self.4.element_count() + self.5.element_count() + self.6.element_count() + self.7.element_count() + self.8.element_count() + self.9.element_count() + self.10.element_count() + self.11.element_count() + self.12.element_count())) as int).len());
        }
        self.13.seq_teardown(elements);
        proof {
            assert(self.13.seq_tears_down(region(a, c0, self.element_count()).subrange((self.0.element_count() + self.1.element_count() + self.2.element_count() + self.3.element_count() + self.4.element_count() + self.5.element_count() + self.6.element_count() + self.7.element_count() + self.8.element_count() + self.9.element_count() + self.10.element_count() + self.11.element_count() + self.12.element_count()) as int, (self.0.element_count() + self.1.element_count() + self.2.element_count() + self.3.element_count() + self.4.element_count() + self.5.element_count() + self.6.element_count() + self.7.element_count() + self.8.element_count() + self.9.element_count() + self.10.element_count() + self.11.element_count() + self.12.element_count() + self.13.element_count()) as int))) by {
                lemma_sub_shift(a, b13, (c0 + (self.0.element_count() + self.1.element_count() + self.2.element_count() + self.3.element_count() + self.4.element_count() + self.5.element_count() + self.6.element_count() + self.7.element_count() + self.8.element_count() + self.9.element_count() + self.10.element_count() + self.11.element_count() + self.12.element_count())) as int, cb13 as int, self.13.element_count() as int);
                assert(region(a, c0, self.element_count()).subrange((self.0.element_count() + self.1.element_count() + self.2.element_count() + self.3.element_count() + self.4.element_count() + self.5.element_count() + self.6.element_count() + self.7.element_count() + self.8.element_count() + self.9.element_count() + self.10.element_count() + self.11.element_count() + self.12.element_count()) as int, (self.0.element_count() + self.1.element_count() + self.2.element_count() + self.3.element_count() + self.4.element_count() + self.5.element_count() + self.6.element_count() + self.7.element_count() + self.8.element_count() + self.9.element_count() + self.10.element_count() + self.11.element_count() + self.12.element_count() + self.13.element_count()) as int) =~= a.subrange(c0 + (self.0.element_count() + self.1.element_count() + self.2.element_count() + self.3.element_count() + self.4.element_count() + self.5.element_count() + self.6.element_count() + self.7.element_count() + self.8.element_count() + self.9.element_count() + self.10.element_count() + self.11.element_count() + self.12.element_count()) as int, c0 + (self.0.element_count() + self.1.element_count() + self.2.element_count() + self.3.element_count() + self.4.element_count() + self.5.element_count() + self.6.element_count() + self.7.element_count() + self.8.element_count() + self.9.element_count() + self.10.element_count() + self.11.element_count() + self.12.element_count() + self.13.element_count()) as int));
            }
            lemma_kept_compose(a, c0, (self.0.element_count() + self.1.element_count() + self.2.element_count() + self.3.element_count() + self.4.element_count() + self.5.element_count() + self.6.element_count() + self.7.element_count() + self.8.element_count() + self.9.element_count() + self.10.element_count() + self.11.element_count() + self.12.element_count()), b13, cb13, self.13.element_count(), elements.items(), elements.cursor());
        }
        let ghost b14 = elements.items();
        let ghost cb14 = elements.cursor();
        proof {
            assert(b14.skip(cb14 as int).len() == a.skip((c0 + (self.0.element_count() + self.1.element_count() + self.2.element_count() + self.3.element_count() + self.4.element_count() + self.5.element_count() + self.6.element_count() + self.7.element_count() + self.8.element_count() + self.9.element_count() + self.10.element_count() + self.11.element_count() + self.12.element_count() + self.13.element_count())) as int).len());
        }
        self.14.seq_teardown(elements);
        proof {
            assert(self.14.seq_tears_down(region(a, c0, self.element_count()).subrange((self.0.element_count() + self.1.element_count() + self.2.element_count() + self.3.element_count() + self.4.element_count() + self.5.element_count() + self.6.element_count() + self.7.element_count() + self.8.element_count() + self.9.element_count() + self.10.element_count() + self.11.element_count() + self.12.element_count() + self.13.element_count()) as int, (self.0.element_count() + self.1.element_count() + self.2.element_count() + self.3.element_count() + self.4.element_count() + self.5.element_count() + self.6.element_count() + self.7.element_count() + self.8.element_count() + self.9.element_count() + self.10.element_count() + self.11.element_count() + self.12.element_count() + self.13.element_count() + self.14.element_count()) as int))) by {
                lemma_sub_shift(a, b14, (c0 + (self.0.element_count() + self.1.element_count() + self.2.element_count() + self.3.element_count() + self.4.element_count() + self.5.element_count() + self.6.element_count() + self.7.element_count() + self.8.element_count() + self.9.element_count() + self.10.element_count() + self.11.element_count() + self.12.element_count() + self.13.element_count())) as int, cb14 as int, self.14.element_count() as int);
                assert(region(a, c0, self.element_count()).subrange((self.0.element_count() + self.1.element_count() + self.2.element_count() + self.3.element_count() + self.4.element_count() + self.5.element_count() + self.6.element_count() + self.7.element_count() + self.8.element_count() + self.9.element_count() + self.10.element_count() + self.11.element_count() + self.12.element_count() + self.13.element_count()) as int, (self.0.element_count() + self.1.element_count() + self.2.element_count() + self.3.element_count() + self.4.element_count() + self.5.element_count() + self.6.element_count() + self.7.element_count() + self.8.element_count() + self.9.element_count() + self.10.element_count() + self.11.element_count() + self.12.element_count() + self.13.element_count() + self.14.element_count()) as int) =~= a.subrange(c0 + (self.0.element_count() + self.1.element_count() + self.2.element_count() + self.3.element_count() + self.4.element_count() + self.5.element_count() + self.6.element_count() + self.7.element_count() + self.8.element_count() + self.9.element_count() + self.10.element_count() + self.11.element_count() + self.12.element_count() + self.13.element_count()) as int, c0 + (self.0.element_count() + self.1.element_count() + self.2.element_count() + self.3.element_count() + self.4.element_count() + self.5.element_count() + self.6.element_count() + self.7.element_count() + self.8.element_count() + self.9.element_count() + self.10.element_count() + self.11.element_count() + self.12.element_count() + self.13.element_count() + self.14.element_count()) as int));
            }
            lemma_kept_compose(a, c0, (self.0.element_count() + self.1.element_count() + self.2.element_count() + self.3.element_count() + self.4.element_count() + self.5.element_count() + self.6.element_count() + self.7.element_count() + self.8.element_count() + self.9.element_count() + self.10.element_count() + self.11.element_count() + self.12.element_count() + self.13.element_count()), b14, cb14, self.14.element_count(), elements.items(), elements.cursor());
        }
        let ghost b15 = elements.items();
        let ghost cb15 = elements.cursor();
        proof {
            assert(b15.skip(cb15 as int).len() == a.skip((c0 + (self.0.element_count() + self.1.element_count() + self.2.element_count() + self.3.element_count() + self.4.element_count() + self.5.element_count() + self.6.element_count() + self.7.element_count() + self.8.element_count() + self.9.element_count() + self.10.element_count() + self.11.element_count() + self.12.element_count() + self.13.element_count() + self.14.element_count())) as int).len());
        }
        self.15.seq_teardown(elements);
        proof {
            assert(self.15.seq_tears_down(region(a, c0, self.element_count()).subrange((self.0.element_count() + self.1.element_count() + self.2.element_count() + self.3.element_count() + self.4.element_count() + self.5.element_count() + self.6.element_count() + self.7.element_count() + self.8.element_count() + self.9.element_count() + self.10.element_count() + self.11.element_count() + self.12.element_count() + self.13.element_count() + self.14.element_count()) as int, (self.0.element_count() + self.1.element_count() + self.2.element_count() + self.3.element_count() + self.4.element_count() + self.5.element_count() + self.6.element_count() + self.7.element_count() + self.8.element_count() + self.9.element_count() + self.10.element_count() + self.11.element_count() + self.12.element_count() + self.13.element_count() + self.14.element_count() + self.15.element_count()) as int))) by {
                lemma_sub_shift(a, b15, (c0 + (self.0.element_count() + self.1.element_count() + self.2.element_count() + self.3.element_count() + self.4.element_count() + self.5.element_count() + self.6.element_count() + self.7.element_count() + self.8.element_count() + self.9.element_count() + self.10.element_count() + self.11.element_count() + self.12.element_count() + self.13.element_count() + self.14.element_count())) as int, cb15 as int, self.15.element_count() as int);
                assert(region(a, c0, self.element_count()).subrange((self.0.element_count() + self.1.element_count() + self.2.element_count() + self.3.element_count() + self.4.element_count() + self.5.element_count() + self.6.element_count() + self.7.element_count() + self.8.element_count() + self.9.element_count() + self.10.element_count() + self.11.element_count() + self.12.element_count() + self.13.element_count() + self.14.element_count()) as int, (self.0.element_count() + self.1.element_count() + self.2.element_count() + self.3.element_count() + self.4.element_count() + self.5.element_count() + self.6.element_count() + self.7.element_count() + self.8.element_count() + self.9.element_count() + self.10.element_count() + self.11.element_count() + self.12.element_count() + self.13.element_count() + self.14.element_count() + self.15.element_count()) as int) =~= a.subrange(c0 + (self.0.element_count() + self.1.element_count() + self.2.element_count() + self.3.element_count() + self.4.element_count() + self.5.element_count() + self.6.element_count() + self.7.element_count() + self.8.element_count() + self.9.element_count() + self.10.element_count() + self.11.element_count() + self.12.element_count() + self.13.element_count() + self.14.element_count()) as int, c0 + (self.0.element_count() + self.1.element_count() + self.2.element_count() + self.3.element_count() + self.4.element_count() + self.5.element_count() + self.6.element_count() + self.7.element_count() + self.8.element_count() + self.9.element_count() + self.10.element_count() + self.11.element_count() + self.12.element_count() + self.13.element_count() + self.14.element_count() + self.15.element_count()) as int));
            }
            lemma_kept_compose(a, c0, (self.0.element_count() + self.1.element_count() + self.2.element_count() + self.3.element_count() + self.4.element_count() + self.5.element_count() + self.6.element_count() + self.7.element_count() + self.8.element_count() + self.9.element_count() + self.10.element_count() + self.11.element_count() + self.12.element_count() + self.13.element_count() + self.14.element_count()), b15, cb15, self.15.element_count(), elements.items(), elements.cursor());
        }
    }
}

} // verus!
