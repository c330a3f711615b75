//! The division of a recorded stack of render commands into self-contained
//! command lists.
//!
//! The commands themselves hold drawing data of other crates (paths, brushes,
//! text layouts); the division reads only which kind each command is. It is
//! computed here as a plan over the positions in the stack, which the caller
//! fills in with copies of the commands.
use vstd::prelude::*;

verus! {

/// What the division needs to know of a render command.
#[derive(Debug, Clone, Copy, PartialEq, Eq, Structural)]
pub enum CommandKind {
    /// Pushes a layer.
    PushLayer,
    /// Pops the innermost layer.
    PopLayer,
    /// Any drawing command (fill, stroke, svg, text).
    Draw,
}

/// One entry of a planned command list.
#[derive(Debug, Clone, Copy, PartialEq, Eq, Structural)]
pub enum ListEntry {
    /// A copy of the command at this position of the stack.
    Command(usize),
    /// A layer pop added to close a layer that is still open.
    Pop,
}

/// `n` added layer pops.
pub open spec fn pops(n: nat) -> Seq<ListEntry> {
    Seq::new(n, |i: int| ListEntry::Pop)
}

/// The entries that re-open the layers at positions `open`.
pub open spec fn reopen(open: Seq<usize>) -> Seq<ListEntry> {
    open.map_values(|j: usize| ListEntry::Command(j))
}

/// One step of the division, for the command of kind `kind` at position `i`:
/// `lists` are the lists so far and `open` the positions of the layers open
/// at this point.
///
/// A pushed layer closes every open layer at the end of the current list and
/// starts a new list that opens them again, itself included. Any other
/// command goes at the end of the current list; a pop also closes the
/// innermost open layer, if there is one.
pub open spec fn split_step(
    lists: Seq<Seq<ListEntry>>,
    open: Seq<usize>,
    i: usize,
    kind: CommandKind,
) -> (Seq<Seq<ListEntry>>, Seq<usize>) {
    match kind {
        CommandKind::PushLayer => {
            let closed = if lists.len() > 0 {
                lists.update(lists.len() - 1, lists.last() + pops(open.len()))
            } else {
                lists
            };
            (closed.push(reopen(open.push(i))), open.push(i))
        },
        CommandKind::PopLayer => (
            lists.update(lists.len() - 1, lists.last().push(ListEntry::Command(i))),
            if open.len() > 0 {
                open.drop_last()
            } else {
                open
            },
        ),
        CommandKind::Draw => (
            lists.update(lists.len() - 1, lists.last().push(ListEntry::Command(i))),
            open,
        ),
    }
}

/// The lists and the open layers after dividing the commands of kinds `kinds`.
pub open spec fn split_state(kinds: Seq<CommandKind>) -> (Seq<Seq<ListEntry>>, Seq<usize>)
    decreases kinds.len(),
{
    if kinds.len() == 0 {
        (Seq::empty(), Seq::empty())
    } else {
        let (lists, open) = split_state(kinds.drop_last());
        split_step(lists, open, (kinds.len() - 1) as usize, kinds.last())
    }
}

/// The planned command lists of a stack of commands of kinds `kinds`.
pub open spec fn command_lists(kinds: Seq<CommandKind>) -> Seq<Seq<ListEntry>> {
    split_state(kinds).0
}

/// A stack can be divided when it is empty or starts by pushing a layer:
/// every other command needs a list to go into.
pub open spec fn divisible(kinds: Seq<CommandKind>) -> bool {
    kinds.len() == 0 || kinds[0] == CommandKind::PushLayer
}

/// The number of layer pushes among `kinds`.
pub open spec fn push_count(kinds: Seq<CommandKind>) -> nat
    decreases kinds.len(),
{
    if kinds.len() == 0 {
        0
    } else {
        push_count(kinds.drop_last()) + if kinds.last() == CommandKind::PushLayer {
            1nat
        } else {
            0nat
        }
    }
}

/// Every command entry of every list names a position below `n`.
pub open spec fn entries_below(lists: Seq<Seq<ListEntry>>, n: nat) -> bool {
    forall|k: int, e: int|
        0 <= k < lists.len() && 0 <= e < lists[k].len() ==> match #[trigger] lists[k][e] {
            ListEntry::Command(j) => j < n,
            ListEntry::Pop => true,
        }
}

/// Whether a stack of commands of kinds `kinds` can be divided into lists.
pub fn divisible_stack(kinds: &Vec<CommandKind>) -> (b: bool)
    ensures
        b == divisible(kinds@),
{
    kinds.len() == 0 || kinds[0] == CommandKind::PushLayer
}

/// The plan of the command lists of a stack whose commands have kinds `kinds`.
///
/// Each list starts by opening again the layers open at one layer push,
/// continues with the commands up to the next push, and, when another push
/// follows, ends by closing every layer still open.
pub fn command_list_plan(kinds: &Vec<CommandKind>) -> (lists: Vec<Vec<ListEntry>>)
    requires
        divisible(kinds@),
    ensures
        lists@.len() == command_lists(kinds@).len(),
        forall|k: int| 0 <= k < lists@.len() ==> #[trigger] lists@[k]@ == command_lists(kinds@)[k],
        entries_below(command_lists(kinds@), kinds@.len()),
{
    let n = kinds.len();
    let mut lists: Vec<Vec<ListEntry>> = Vec::new();
    let mut open: Vec<usize> = Vec::new();
    let mut i: usize = 0;
    while i < n
        invariant
            n == kinds@.len(),
            divisible(kinds@),
            i <= n,
            lists@.len() == split_state(kinds@.take(i as int)).0.len(),
            forall|k: int|
                0 <= k < lists@.len() ==> #[trigger] lists@[k]@ == split_state(
                    kinds@.take(i as int),
                ).0[k],
            open@ == split_state(kinds@.take(i as int)).1,
            i > 0 ==> lists@.len() > 0,
            entries_below(split_state(kinds@.take(i as int)).0, i as nat),
            forall|k: int| 0 <= k < open@.len() ==> #[trigger] open@[k] < i,
        decreases n - i,
    {
        let ghost before_lists = split_state(kinds@.take(i as int)).0;
        let ghost before_open = split_state(kinds@.take(i as int)).1;
        assert(kinds@.take(i + 1).drop_last() =~= kinds@.take(i as int));
        assert(kinds@.take(i + 1).last() == kinds@[i as int]);
        let kind = kinds[i];
        match kind {
            CommandKind::PushLayer => {
                if lists.len() > 0 {
                    let mut last = lists.pop().unwrap();
                    let mut p: usize = 0;
                    let ghost start = last@;
                    while p < open.len()
                        invariant
                            p <= open@.len(),
                            last@ == start + pops(p as nat),
                        decreases open@.len() - p,
                    {
                        last.push(ListEntry::Pop);
                        p = p + 1;
                        assert(last@ =~= start + pops(p as nat));
                    }
                    lists.push(last);
                }
                open.push(i);
                let mut fresh: Vec<ListEntry> = Vec::new();
                let mut q: usize = 0;
                while q < open.len()
                    invariant
                        q <= open@.len(),
                        fresh@ == reopen(open@.take(q as int)),
                    decreases open@.len() - q,
                {
                    fresh.push(ListEntry::Command(open[q]));
                    q = q + 1;
                    assert(fresh@ =~= reopen(open@.take(q as int)));
                }
                assert(open@.take(open@.len() as int) =~= open@);
                lists.push(fresh);
            },
            CommandKind::PopLayer => {
                if i == 0 {
                    assert(kinds@[0] == CommandKind::PushLayer);
                }
                let mut last = lists.pop().unwrap();
                last.push(ListEntry::Command(i));
                lists.push(last);
                if open.len() > 0 {
                    open.pop();
                }
            },
            CommandKind::Draw => {
                if i == 0 {
                    assert(kinds@[0] == CommandKind::PushLayer);
                }
                let mut last = lists.pop().unwrap();
                last.push(ListEntry::Command(i));
                lists.push(last);
            },
        }
        i = i + 1;
        proof {
            let after = split_state(kinds@.take(i as int)).0;
            assert forall|k: int, e: int|
                0 <= k < after.len() && 0 <= e < after[k].len() implies match #[trigger] after[k][e] {
                ListEntry::Command(j) => j < i,
                ListEntry::Pop => true,
            } by {
                if k < before_lists.len() && e < before_lists[k].len() {
                    assert(after[k][e] == before_lists[k][e]);
                }
            }
        }
    }
    assert(kinds@.take(n as int) =~= kinds@);
    lists
}

/// The division of a stack yields one list per layer push; every list starts
/// by pushing a layer again, and the layers left open are all pushes.
pub proof fn lemma_one_list_per_push(kinds: Seq<CommandKind>)
    requires
        divisible(kinds),
        kinds.len() <= usize::MAX,
    ensures
        command_lists(kinds).len() == push_count(kinds),
        kinds.len() > 0 ==> command_lists(kinds).len() > 0,
        forall|k: int|
            #![trigger command_lists(kinds)[k]]
            0 <= k < command_lists(kinds).len() ==> {
                &&& command_lists(kinds)[k].len() > 0
                &&& command_lists(kinds)[k][0] matches ListEntry::Command(j) && j < kinds.len()
                    && kinds[j as int] == CommandKind::PushLayer
            },
        forall|k: int|
            0 <= k < split_state(kinds).1.len() ==> #[trigger] split_state(kinds).1[k] < kinds.len()
                && kinds[split_state(kinds).1[k] as int] == CommandKind::PushLayer,
    decreases kinds.len(),
{
    if kinds.len() > 0 {
        let p = kinds.drop_last();
        assert(divisible(p)) by {
            if p.len() > 0 {
                assert(p[0] == kinds[0]);
            }
        }
        lemma_one_list_per_push(p);
        let (lists, open) = split_state(p);
        let i = (kinds.len() - 1) as usize;
        let (lists2, open2) = split_state(kinds);
        assert((lists2, open2) == split_step(lists, open, i, kinds.last()));
        assert forall|j: int| 0 <= j < p.len() implies #[trigger] p[j] == kinds[j] by {}
        if p.len() == 0 {
            assert(kinds.last() == kinds[0]);
        }
        match kinds.last() {
            CommandKind::PushLayer => {
                let fresh = reopen(open.push(i));
                assert(i as int == kinds.len() - 1);
                assert(fresh.len() == open.len() + 1);
                assert forall|k: int|
                    #![trigger lists2[k]]
                    0 <= k < lists2.len() implies {
                        &&& lists2[k].len() > 0
                        &&& lists2[k][0] matches ListEntry::Command(j) && j < kinds.len()
                            && kinds[j as int] == CommandKind::PushLayer
                    } by {
                    if k < lists.len() {
                        assert(lists[k].len() > 0);
                        assert(lists2[k][0] == lists[k][0]);
                    } else {
                        assert(lists2[k] == fresh);
                        if open.len() > 0 {
                            assert(fresh[0] == ListEntry::Command(open[0]));
                        } else {
                            assert(fresh[0] == ListEntry::Command(i));
                        }
                    }
                }
                assert forall|k: int| 0 <= k < open2.len() implies #[trigger] open2[k] < kinds.len()
                    && kinds[open2[k] as int] == CommandKind::PushLayer by {
                    if k < open.len() {
                        assert(open2[k] == open[k]);
                    }
                }
            },
            _ => {
                assert forall|k: int|
                    #![trigger lists2[k]]
                    0 <= k < lists2.len() implies {
                        &&& lists2[k].len() > 0
                        &&& lists2[k][0] matches ListEntry::Command(j) && j < kinds.len()
                            && kinds[j as int] == CommandKind::PushLayer
                    } by {
                    assert(lists[k].len() > 0);
                    assert(lists2[k][0] == lists[k][0]);
                }
                assert forall|k: int| 0 <= k < open2.len() implies #[trigger] open2[k] < kinds.len()
                    && kinds[open2[k] as int] == CommandKind::PushLayer by {
                    assert(open2[k] == open[k]);
                }
            },
        }
    }
}

/// The number of layer pops among `kinds`.
pub open spec fn pop_count(kinds: Seq<CommandKind>) -> nat
    decreases kinds.len(),
{
    if kinds.len() == 0 {
        0
    } else {
        pop_count(kinds.drop_last()) + if kinds.last() == CommandKind::PopLayer {
            1nat
        } else {
            0nat
        }
    }
}

/// No pop comes when no layer is open: before every pop there are more
/// pushes than pops.
pub open spec fn never_underflows(kinds: Seq<CommandKind>) -> bool {
    forall|i: int|
        0 <= i < kinds.len() && #[trigger] kinds[i] == CommandKind::PopLayer ==> pop_count(
            kinds.take(i),
        ) < push_count(kinds.take(i))
}

/// How an entry changes the number of open layers: a push opens one, a pop
/// closes one, a drawing command leaves it.
pub open spec fn entry_weight(e: ListEntry, kinds: Seq<CommandKind>) -> int {
    match e {
        ListEntry::Pop => -1,
        ListEntry::Command(j) => if j < kinds.len() {
            match kinds[j as int] {
                CommandKind::PushLayer => 1,
                CommandKind::PopLayer => -1,
                CommandKind::Draw => 0,
            }
        } else {
            0
        },
    }
}

/// The number of layers a list leaves open: its pushes less its pops.
pub open spec fn open_depth(list: Seq<ListEntry>, kinds: Seq<CommandKind>) -> int
    decreases list.len(),
{
    if list.len() == 0 {
        0
    } else {
        open_depth(list.drop_last(), kinds) + entry_weight(list.last(), kinds)
    }
}

proof fn lemma_depth_push(list: Seq<ListEntry>, e: ListEntry, kinds: Seq<CommandKind>)
    ensures
        open_depth(list.push(e), kinds) == open_depth(list, kinds) + entry_weight(e, kinds),
{
    assert(list.push(e).drop_last() =~= list);
}

proof fn lemma_depth_concat(a: Seq<ListEntry>, b: Seq<ListEntry>, kinds: Seq<CommandKind>)
    ensures
        open_depth(a + b, kinds) == open_depth(a, kinds) + open_depth(b, kinds),
    decreases b.len(),
{
    if b.len() > 0 {
        lemma_depth_concat(a, b.drop_last(), kinds);
        assert((a + b).drop_last() =~= a + b.drop_last());
        assert((a + b).last() == b.last());
    } else {
        assert(a + b =~= a);
    }
}

proof fn lemma_depth_pops(n: nat, kinds: Seq<CommandKind>)
    ensures
        open_depth(pops(n), kinds) == -(n as int),
    decreases n,
{
    if n > 0 {
        lemma_depth_pops((n - 1) as nat, kinds);
        assert(pops(n).drop_last() =~= pops((n - 1) as nat));
    }
}

proof fn lemma_depth_reopen(open: Seq<usize>, kinds: Seq<CommandKind>)
    requires
        forall|k: int|
            0 <= k < open.len() ==> #[trigger] open[k] < kinds.len() && kinds[open[k] as int]
                == CommandKind::PushLayer,
    ensures
        open_depth(reopen(open), kinds) == open.len(),
    decreases open.len(),
{
    if open.len() > 0 {
        let d = open.drop_last();
        assert forall|k: int| 0 <= k < d.len() implies #[trigger] d[k] < kinds.len() && kinds[d[k] as int]
            == CommandKind::PushLayer by {
            assert(d[k] == open[k]);
        }
        lemma_depth_reopen(d, kinds);
        assert(reopen(open).drop_last() =~= reopen(d));
        assert(open[open.len() - 1] < kinds.len());
    }
}

proof fn lemma_balanced_prefix(kinds: Seq<CommandKind>, i: int)
    requires
        divisible(kinds),
        kinds.len() <= usize::MAX,
        never_underflows(kinds),
        0 <= i <= kinds.len(),
    ensures
        forall|k: int|
            0 <= k < split_state(kinds.take(i)).0.len() - 1 ==> open_depth(
                #[trigger] split_state(kinds.take(i)).0[k],
                kinds,
            ) == 0,
        split_state(kinds.take(i)).0.len() > 0 ==> open_depth(
            split_state(kinds.take(i)).0.last(),
            kinds,
        ) == split_state(kinds.take(i)).1.len(),
        split_state(kinds.take(i)).1.len() == push_count(kinds.take(i)) - pop_count(kinds.take(i)),
    decreases i,
{
    if i > 0 {
        lemma_balanced_prefix(kinds, i - 1);
        let t = kinds.take(i);
        let p = kinds.take(i - 1);
        assert(t.drop_last() =~= p);
        assert(t.last() == kinds[i - 1]);
        assert(divisible(p)) by {
            if p.len() > 0 {
                assert(p[0] == kinds[0]);
            }
        }
        lemma_one_list_per_push(p);
        let (lists, open) = split_state(p);
        let (lists2, open2) = split_state(t);
        assert((lists2, open2) == split_step(lists, open, (i - 1) as usize, kinds[i - 1]));
        assert forall|j: int| 0 <= j < p.len() implies #[trigger] p[j] == kinds[j] by {}
        match kinds[i - 1] {
            CommandKind::PushLayer => {
                assert forall|k: int|
                    0 <= k < open.len() implies #[trigger] open[k] < kinds.len() && kinds[open[k] as int]
                    == CommandKind::PushLayer by {
                    assert(p[open[k] as int] == CommandKind::PushLayer);
                }
                let o2 = open.push((i - 1) as usize);
                assert forall|k: int|
                    0 <= k < o2.len() implies #[trigger] o2[k] < kinds.len() && kinds[o2[k] as int]
                    == CommandKind::PushLayer by {
                    if k < open.len() {
                        assert(o2[k] == open[k]);
                    }
                }
                lemma_depth_reopen(o2, kinds);
                if lists.len() > 0 {
                    lemma_depth_concat(lists.last(), pops(open.len()), kinds);
                    lemma_depth_pops(open.len(), kinds);
                }
                assert forall|k: int| 0 <= k < lists2.len() - 1 implies open_depth(
                    #[trigger] lists2[k],
                    kinds,
                ) == 0 by {
                    if k < lists.len() - 1 {
                        assert(lists2[k] == lists[k]);
                    }
                }
            },
            CommandKind::PopLayer => {
                assert(i - 1 > 0);
                assert(pop_count(p) < push_count(p));
                lemma_depth_push(lists.last(), ListEntry::Command((i - 1) as usize), kinds);
                assert forall|k: int| 0 <= k < lists2.len() - 1 implies open_depth(
                    #[trigger] lists2[k],
                    kinds,
                ) == 0 by {
                    assert(lists2[k] == lists[k]);
                }
            },
            CommandKind::Draw => {
                assert(i - 1 > 0);
                lemma_depth_push(lists.last(), ListEntry::Command((i - 1) as usize), kinds);
                assert forall|k: int| 0 <= k < lists2.len() - 1 implies open_depth(
                    #[trigger] lists2[k],
                    kinds,
                ) == 0 by {
                    assert(lists2[k] == lists[k]);
                }
            },
        }
    }
}

/// When no pop comes with no layer open, every command list but the last
/// closes all the layers it opens, and the last one leaves open exactly the
/// layers still open at the end of the stack.
pub proof fn lemma_lists_balanced(kinds: Seq<CommandKind>)
    requires
        divisible(kinds),
        kinds.len() <= usize::MAX,
        never_underflows(kinds),
    ensures
        forall|k: int|
            0 <= k < command_lists(kinds).len() - 1 ==> open_depth(
                #[trigger] command_lists(kinds)[k],
                kinds,
            ) == 0,
        command_lists(kinds).len() > 0 ==> open_depth(command_lists(kinds).last(), kinds)
            == split_state(kinds).1.len(),
{
    lemma_balanced_prefix(kinds, kinds.len() as int);
    assert(kinds.take(kinds.len() as int) =~= kinds);
}

/// The positions of the drawing commands among `kinds`, in order.
pub open spec fn draw_positions(kinds: Seq<CommandKind>) -> Seq<usize>
    decreases kinds.len(),
{
    if kinds.len() == 0 {
        Seq::empty()
    } else {
        let rest = draw_positions(kinds.drop_last());
        if kinds.last() == CommandKind::Draw {
            rest.push((kinds.len() - 1) as usize)
        } else {
            rest
        }
    }
}

/// The positions of the drawing commands that a list copies, in order.
pub open spec fn draws_in(list: Seq<ListEntry>, kinds: Seq<CommandKind>) -> Seq<usize>
    decreases list.len(),
{
    if list.len() == 0 {
        Seq::empty()
    } else {
        let rest = draws_in(list.drop_last(), kinds);
        match list.last() {
            ListEntry::Command(j) => if j < kinds.len() && kinds[j as int] == CommandKind::Draw {
                rest.push(j)
            } else {
                rest
            },
            ListEntry::Pop => rest,
        }
    }
}

/// The positions of the drawing commands that `lists` copy, one list after
/// the other.
pub open spec fn all_draws(lists: Seq<Seq<ListEntry>>, kinds: Seq<CommandKind>) -> Seq<usize>
    decreases lists.len(),
{
    if lists.len() == 0 {
        Seq::empty()
    } else {
        all_draws(lists.drop_last(), kinds) + draws_in(lists.last(), kinds)
    }
}

proof fn lemma_draws_push(list: Seq<ListEntry>, j: usize, kinds: Seq<CommandKind>)
    requires
        j < kinds.len(),
    ensures
        draws_in(list.push(ListEntry::Command(j)), kinds) == if kinds[j as int] == CommandKind::Draw {
            draws_in(list, kinds).push(j)
        } else {
            draws_in(list, kinds)
        },
{
    assert(list.push(ListEntry::Command(j)).drop_last() =~= list);
}

proof fn lemma_draws_pops(list: Seq<ListEntry>, n: nat, kinds: Seq<CommandKind>)
    ensures
        draws_in(list + pops(n), kinds) == draws_in(list, kinds),
    decreases n,
{
    if n == 0 {
        assert(list + pops(0) =~= list);
    } else {
        lemma_draws_pops(list, (n - 1) as nat, kinds);
        assert((list + pops(n)).drop_last() =~= list + pops((n - 1) as nat));
        assert((list + pops(n)).last() == ListEntry::Pop);
    }
}

proof fn lemma_draws_reopen(open: Seq<usize>, kinds: Seq<CommandKind>)
    requires
        forall|k: int|
            0 <= k < open.len() ==> #[trigger] open[k] < kinds.len() && kinds[open[k] as int]
                == CommandKind::PushLayer,
    ensures
        draws_in(reopen(open), kinds) == Seq::<usize>::empty(),
    decreases open.len(),
{
    if open.len() > 0 {
        let d = open.drop_last();
        assert forall|k: int| 0 <= k < d.len() implies #[trigger] d[k] < kinds.len() && kinds[d[k] as int]
            == CommandKind::PushLayer by {
            assert(d[k] == open[k]);
        }
        lemma_draws_reopen(d, kinds);
        assert(reopen(open).drop_last() =~= reopen(d));
        assert(open[open.len() - 1] < kinds.len());
    }
}

proof fn lemma_all_draws_last(lists: Seq<Seq<ListEntry>>, x: Seq<ListEntry>, kinds: Seq<CommandKind>)
    ensures
        lists.len() > 0 ==> all_draws(lists.update(lists.len() - 1, x), kinds) == all_draws(
            lists.drop_last(),
            kinds,
        ) + draws_in(x, kinds),
        all_draws(lists.push(x), kinds) == all_draws(lists, kinds) + draws_in(x, kinds),
{
    if lists.len() > 0 {
        assert(lists.update(lists.len() - 1, x).drop_last() =~= lists.drop_last());
    }
    assert(lists.push(x).drop_last() =~= lists);
}

proof fn lemma_draws_prefix(kinds: Seq<CommandKind>, i: int)
    requires
        divisible(kinds),
        kinds.len() <= usize::MAX,
        0 <= i <= kinds.len(),
    ensures
        all_draws(split_state(kinds.take(i)).0, kinds) == draw_positions(kinds.take(i)),
    decreases i,
{
    if i == 0 {
        assert(kinds.take(0) =~= Seq::<CommandKind>::empty());
    } else {
        lemma_draws_prefix(kinds, i - 1);
        let t = kinds.take(i);
        let p = kinds.take(i - 1);
        assert(t.drop_last() =~= p);
        assert(t.last() == kinds[i - 1]);
        assert(divisible(p)) by {
            if p.len() > 0 {
                assert(p[0] == kinds[0]);
            }
        }
        lemma_one_list_per_push(p);
        let (lists, open) = split_state(p);
        let (lists2, open2) = split_state(t);
        let j = (i - 1) as usize;
        assert((lists2, open2) == split_step(lists, open, j, kinds[i - 1]));
        assert forall|m: int| 0 <= m < p.len() implies #[trigger] p[m] == kinds[m] by {}
        if i - 1 == 0 {
            assert(kinds[0] == CommandKind::PushLayer);
        } else {
            assert(p.len() > 0);
            assert(lists.len() > 0);
        }
        match kinds[i - 1] {
            CommandKind::PushLayer => {
                let o2 = open.push(j);
                assert forall|k: int|
                    0 <= k < o2.len() implies #[trigger] o2[k] < kinds.len() && kinds[o2[k] as int]
                    == CommandKind::PushLayer by {
                    if k < open.len() {
                        assert(o2[k] == open[k]);
                        assert(p[open[k] as int] == CommandKind::PushLayer);
                    }
                }
                lemma_draws_reopen(o2, kinds);
                let closed = if lists.len() > 0 {
                    lists.update(lists.len() - 1, lists.last() + pops(open.len()))
                } else {
                    lists
                };
                if lists.len() > 0 {
                    lemma_all_draws_last(lists, lists.last() + pops(open.len()), kinds);
                    lemma_draws_pops(lists.last(), open.len(), kinds);
                    assert(all_draws(closed, kinds) == all_draws(lists, kinds));
                }
                lemma_all_draws_last(closed, reopen(o2), kinds);
                assert(all_draws(lists2, kinds) =~= all_draws(lists, kinds));
            },
            CommandKind::PopLayer => {
                let x = lists.last().push(ListEntry::Command(j));
                lemma_draws_push(lists.last(), j, kinds);
                lemma_all_draws_last(lists, x, kinds);
                assert(all_draws(lists2, kinds) == all_draws(lists, kinds));
            },
            CommandKind::Draw => {
                let x = lists.last().push(ListEntry::Command(j));
                lemma_draws_push(lists.last(), j, kinds);
                lemma_all_draws_last(lists, x, kinds);
                assert(all_draws(lists2, kinds) =~= all_draws(lists, kinds).push(j));
            },
        }
    }
}

/// The drawing commands keep their order: taken one list after the other,
/// the drawing commands the lists copy are exactly those of the stack, each
/// once, in the order of the stack.
pub proof fn lemma_draws_keep_order(kinds: Seq<CommandKind>)
    requires
        divisible(kinds),
        kinds.len() <= usize::MAX,
    ensures
        all_draws(command_lists(kinds), kinds) == draw_positions(kinds),
{
    lemma_draws_prefix(kinds, kinds.len() as int);
    assert(kinds.take(kinds.len() as int) =~= kinds);
}

/// The number of layers open after the commands `kinds`: a push opens one,
/// and a pop closes one when any is open.
pub open spec fn layer_depth(kinds: Seq<CommandKind>) -> nat
    decreases kinds.len(),
{
    if kinds.len() == 0 {
        0
    } else {
        let d = layer_depth(kinds.drop_last());
        match kinds.last() {
            CommandKind::PushLayer => d + 1,
            CommandKind::PopLayer => if d > 0 {
                (d - 1) as nat
            } else {
                0
            },
            CommandKind::Draw => d,
        }
    }
}

/// The layer pushed at `j` is still open after the first `i` commands: at
/// every point after its push, more layers are open than just before it.
pub open spec fn unmatched(kinds: Seq<CommandKind>, j: int, i: int) -> bool {
    &&& 0 <= j < i <= kinds.len()
    &&& kinds[j] == CommandKind::PushLayer
    &&& forall|m: int|
        j < m <= i ==> #[trigger] layer_depth(kinds.take(m)) > layer_depth(kinds.take(j))
}

proof fn lemma_depth_step(kinds: Seq<CommandKind>, m: int)
    requires
        0 <= m < kinds.len(),
    ensures
        layer_depth(kinds.take(m + 1)) as int == match kinds[m] {
            CommandKind::PushLayer => layer_depth(kinds.take(m)) + 1int,
            CommandKind::PopLayer => if layer_depth(kinds.take(m)) > 0 {
                layer_depth(kinds.take(m)) - 1int
            } else {
                0int
            },
            CommandKind::Draw => layer_depth(kinds.take(m)) as int,
        },
{
    assert(kinds.take(m + 1).drop_last() =~= kinds.take(m));
    assert(kinds.take(m + 1).last() == kinds[m]);
}

/// The layers open after the first `i` commands are exactly the pushes
/// still unmatched there, in the order they were pushed: the layer a pop
/// closes is always the one pushed last.
pub proof fn lemma_open_layers_unmatched(kinds: Seq<CommandKind>, i: int)
    requires
        kinds.len() <= usize::MAX,
        0 <= i <= kinds.len(),
    ensures
        split_state(kinds.take(i)).1.len() == layer_depth(kinds.take(i)),
        forall|a: int, b: int|
            0 <= a < b < split_state(kinds.take(i)).1.len() ==> split_state(kinds.take(i)).1[a]
                < split_state(kinds.take(i)).1[b],
        forall|k: int|
            0 <= k < split_state(kinds.take(i)).1.len() ==> unmatched(
                kinds,
                #[trigger] split_state(kinds.take(i)).1[k] as int,
                i,
            ),
        forall|j: int|
            #![trigger unmatched(kinds, j, i)]
            unmatched(kinds, j, i) ==> split_state(kinds.take(i)).1.contains(j as usize),
{
    lemma_open_prefix(kinds, i);
}

proof fn lemma_open_prefix(kinds: Seq<CommandKind>, i: int)
    requires
        kinds.len() <= usize::MAX,
        0 <= i <= kinds.len(),
    ensures
        split_state(kinds.take(i)).1.len() == layer_depth(kinds.take(i)),
        forall|a: int, b: int|
            0 <= a < b < split_state(kinds.take(i)).1.len() ==> split_state(kinds.take(i)).1[a]
                < split_state(kinds.take(i)).1[b],
        forall|k: int|
            0 <= k < split_state(kinds.take(i)).1.len() ==> #[trigger] split_state(kinds.take(i)).1[k]
                < i,
        forall|k: int|
            0 <= k < split_state(kinds.take(i)).1.len() ==> layer_depth(
                kinds.take(#[trigger] split_state(kinds.take(i)).1[k] as int),
            ) == k,
        forall|k: int|
            0 <= k < split_state(kinds.take(i)).1.len() ==> unmatched(
                kinds,
                #[trigger] split_state(kinds.take(i)).1[k] as int,
                i,
            ),
        forall|j: int|
            #![trigger unmatched(kinds, j, i)]
            unmatched(kinds, j, i) ==> split_state(kinds.take(i)).1.contains(j as usize),
    decreases i,
{
    if i == 0 {
        assert(kinds.take(0) =~= Seq::<CommandKind>::empty());
    } else {
        let p = i - 1;
        lemma_open_prefix(kinds, p);
        let t = kinds.take(i);
        assert(t.drop_last() =~= kinds.take(p));
        assert(t.last() == kinds[p]);
        let (lists, open) = split_state(kinds.take(p));
        let open2 = split_state(t).1;
        assert(split_state(t) == split_step(lists, open, p as usize, kinds[p]));
        lemma_depth_step(kinds, p);
        let dp = layer_depth(kinds.take(p));
        let di = layer_depth(t);
        // Unmatched at i implies unmatched at p, for pushes before p.
        assert forall|j: int| #![trigger unmatched(kinds, j, i)] unmatched(kinds, j, i) && j < p implies unmatched(
            kinds,
            j,
            p,
        ) && di > layer_depth(kinds.take(j)) by {
            assert(layer_depth(kinds.take(i)) > layer_depth(kinds.take(j)));
        }
        match kinds[p] {
            CommandKind::PushLayer => {
                assert(open2 == open.push(p as usize));
                assert forall|k: int| 0 <= k < open2.len() implies unmatched(
                    kinds,
                    #[trigger] open2[k] as int,
                    i,
                ) by {
                    if k < open.len() {
                        assert(open2[k] == open[k]);
                        assert(unmatched(kinds, open[k] as int, p));
                        assert(layer_depth(kinds.take(p)) > layer_depth(kinds.take(open[k] as int)));
                    } else {
                        assert(open2[k] == p as usize);
                    }
                }
                assert forall|j: int| #![trigger unmatched(kinds, j, i)] unmatched(kinds, j, i) implies open2.contains(
                    j as usize,
                ) by {
                    if j < p {
                        assert(unmatched(kinds, j, p));
                        let k = choose|k: int| 0 <= k < open.len() && open[k] == j as usize;
                        assert(open2[k] == open[k]);
                    } else {
                        assert(open2[open.len() as int] == p as usize);
                    }
                }
                assert forall|k: int|
                    0 <= k < open2.len() implies layer_depth(
                    kinds.take(#[trigger] open2[k] as int),
                ) == k by {
                    if k < open.len() {
                        assert(open2[k] == open[k]);
                    }
                }
            },
            CommandKind::Draw => {
                assert(open2 == open);
                assert forall|k: int| 0 <= k < open2.len() implies unmatched(
                    kinds,
                    #[trigger] open2[k] as int,
                    i,
                ) by {
                    assert(unmatched(kinds, open[k] as int, p));
                    assert(layer_depth(kinds.take(p)) > layer_depth(kinds.take(open[k] as int)));
                }
                assert forall|j: int| #![trigger unmatched(kinds, j, i)] unmatched(kinds, j, i) implies open2.contains(
                    j as usize,
                ) by {
                    assert(unmatched(kinds, j, p));
                }
            },
            CommandKind::PopLayer => {
                if open.len() > 0 {
                    assert(open2 == open.drop_last());
                    assert forall|k: int| 0 <= k < open2.len() implies unmatched(
                        kinds,
                        #[trigger] open2[k] as int,
                        i,
                    ) by {
                        assert(open2[k] == open[k]);
                        assert(unmatched(kinds, open[k] as int, p));
                        assert(layer_depth(kinds.take(open[k] as int)) == k);
                    }
                    assert forall|j: int| #![trigger unmatched(kinds, j, i)] unmatched(kinds, j, i) implies open2.contains(
                        j as usize,
                    ) by {
                        assert(unmatched(kinds, j, p));
                        let k = choose|k: int| 0 <= k < open.len() && open[k] == j as usize;
                        assert(layer_depth(kinds.take(open[k] as int)) == k);
                        assert(k < open.len() - 1);
                        assert(open2[k] == open[k]);
                    }
                } else {
                    assert(open2 == open);
                    assert forall|j: int| #![trigger unmatched(kinds, j, i)] unmatched(kinds, j, i) implies open2.contains(
                        j as usize,
                    ) by {
                        assert(layer_depth(kinds.take(i)) > layer_depth(kinds.take(j)));
                    }
                }
            },
        }
    }
}

/// Dividing more of the stack only adds lists or adds entries at the end
/// of the last one: every list built from a prefix stays, as a prefix of
/// the list at the same position.
proof fn lemma_lists_grow(kinds: Seq<CommandKind>, i: int, i2: int)
    requires
        divisible(kinds),
        kinds.len() <= usize::MAX,
        0 <= i <= i2 <= kinds.len(),
    ensures
        split_state(kinds.take(i2)).0.len() >= split_state(kinds.take(i)).0.len(),
        forall|k: int|
            0 <= k < split_state(kinds.take(i)).0.len() ==> {
                &&& split_state(kinds.take(i2)).0[k].len() >= (
                #[trigger] split_state(kinds.take(i)).0[k]).len()
                &&& split_state(kinds.take(i2)).0[k].take(split_state(kinds.take(i)).0[k].len() as int)
                    == split_state(kinds.take(i)).0[k]
            },
    decreases i2 - i,
{
    if i == i2 {
        assert forall|k: int| 0 <= k < split_state(kinds.take(i)).0.len() implies (
        #[trigger] split_state(kinds.take(i)).0[k]).take(
            split_state(kinds.take(i)).0[k].len() as int,
        ) == split_state(kinds.take(i)).0[k] by {
            assert(split_state(kinds.take(i)).0[k].take(split_state(kinds.take(i)).0[k].len() as int)
                =~= split_state(kinds.take(i)).0[k]);
        }
    } else {
        lemma_lists_grow(kinds, i, i2 - 1);
        let p = i2 - 1;
        let t = kinds.take(i2);
        assert(t.drop_last() =~= kinds.take(p));
        assert(t.last() == kinds[p]);
        let (lists, open) = split_state(kinds.take(p));
        let lists2 = split_state(t).0;
        assert(split_state(t) == split_step(lists, open, p as usize, kinds[p]));
        assert(divisible(kinds.take(p))) by {
            if p > 0 {
                assert(kinds.take(p)[0] == kinds[0]);
            }
        }
        lemma_one_list_per_push(kinds.take(p));
        if p == 0 {
            assert(kinds[0] == CommandKind::PushLayer);
        }
        let li = split_state(kinds.take(i)).0;
        assert forall|k: int| 0 <= k < li.len() implies {
            &&& lists2[k].len() >= (#[trigger] li[k]).len()
            &&& lists2[k].take(li[k].len() as int) == li[k]
        } by {
            assert(lists[k].take(li[k].len() as int) == li[k]);
            if k < lists.len() - 1 {
                assert(lists2[k] == lists[k]);
            } else {
                assert(k == lists.len() - 1);
                let n = li[k].len() as int;
                match kinds[p] {
                    CommandKind::PushLayer => {
                        assert(lists2[k] == lists[k] + pops(open.len()));
                        assert(lists2[k].take(n) =~= lists[k].take(n));
                    },
                    _ => {
                        assert(lists2[k] == lists[k].push(ListEntry::Command(p as usize)));
                        assert(lists2[k].take(n) =~= lists[k].take(n));
                    },
                }
            }
        }
    }
}

/// Each list reopens exactly the layers open at its start, in the order they
/// were pushed: the list begun by the push at `q` (the list after those of
/// the pushes before it) starts with one entry per push still unmatched just
/// after `q`, each a copy of that push, in increasing position, and leaves
/// none of them out.
pub proof fn lemma_list_reopens_unmatched(kinds: Seq<CommandKind>, q: int)
    requires
        divisible(kinds),
        kinds.len() <= usize::MAX,
        0 <= q < kinds.len(),
        kinds[q] == CommandKind::PushLayer,
    ensures
        push_count(kinds.take(q)) < command_lists(kinds).len(),
        command_lists(kinds)[push_count(kinds.take(q)) as int].len() >= layer_depth(kinds.take(q + 1)),
        forall|e: int|
            0 <= e < layer_depth(kinds.take(q + 1)) ==> (
            #[trigger] command_lists(kinds)[push_count(kinds.take(q)) as int][e] matches ListEntry::Command(
                j,
            ) && unmatched(kinds, j as int, q + 1)),
        forall|e1: int, e2: int|
            0 <= e1 < e2 < layer_depth(kinds.take(q + 1)) ==> (
            #[trigger] command_lists(kinds)[push_count(kinds.take(q)) as int][e1] matches ListEntry::Command(
                j1,
            ) && (#[trigger] command_lists(kinds)[push_count(kinds.take(q)) as int][e2] matches ListEntry::Command(
                j2,
            ) && j1 < j2)),
        forall|j: int|
            #![trigger unmatched(kinds, j, q + 1)]
            unmatched(kinds, j, q + 1) ==> exists|e: int|
                0 <= e < layer_depth(kinds.take(q + 1))
                    && #[trigger] command_lists(kinds)[push_count(kinds.take(q)) as int][e]
                    == ListEntry::Command(j as usize),
{
    let t = kinds.take(q + 1);
    assert(t.drop_last() =~= kinds.take(q));
    assert(t.last() == kinds[q]);
    let (lists, open) = split_state(kinds.take(q));
    assert(split_state(t) == split_step(lists, open, q as usize, kinds[q]));
    let o2 = split_state(t).1;
    let fresh = reopen(o2);
    let lq = split_state(t).0;
    assert(divisible(t)) by {
        assert(t[0] == kinds[0]);
    }
    assert(divisible(kinds.take(q))) by {
        if q > 0 {
            assert(kinds.take(q)[0] == kinds[0]);
        }
    }
    lemma_one_list_per_push(t);
    lemma_one_list_per_push(kinds.take(q));
    let k = push_count(kinds.take(q)) as int;
    assert(push_count(t) == push_count(kinds.take(q)) + 1);
    assert(lq.len() == k + 1);
    assert(lq[k] == fresh);
    lemma_open_layers_unmatched(kinds, q + 1);
    lemma_lists_grow(kinds, q + 1, kinds.len() as int);
    assert(kinds.take(kinds.len() as int) =~= kinds);
    let lk = command_lists(kinds)[k];
    assert(lk.take(fresh.len() as int) == fresh);
    assert forall|e: int| 0 <= e < fresh.len() implies #[trigger] lk[e] == ListEntry::Command(o2[e]) by {
        assert(lk.take(fresh.len() as int)[e] == lk[e]);
    }
    assert forall|j: int|
        #![trigger unmatched(kinds, j, q + 1)]
        unmatched(kinds, j, q + 1) implies exists|e: int|
        0 <= e < layer_depth(kinds.take(q + 1)) && #[trigger] lk[e] == ListEntry::Command(j as usize) by {
        let e = choose|e: int| 0 <= e < o2.len() && o2[e] == j as usize;
        assert(lk[e] == ListEntry::Command(o2[e]));
    }
}

} // verus!
