//! Windows: their size in physical pixels, and which widget the pointer
//! hovers and which one has the focus.
use vstd::prelude::*;
use crate::id::WidgetId;
use crate::event::mouse;
use crate::event::window as window_event;

verus! {

/// Identifies a window.
pub type WindowId = usize;

/// The size of a window in physical pixels.
#[derive(Debug, Clone, Copy, PartialEq, Eq, Structural)]
pub struct WindowSize {
    pub width: u32,
    pub height: u32,
}

impl From<(u32, u32)> for WindowSize {
    fn from(value: (u32, u32)) -> (s: WindowSize) {
        WindowSize { width: value.0, height: value.1 }
    }
}

impl vstd::std_specs::convert::FromSpecImpl<(u32, u32)> for WindowSize {
    open spec fn obeys_from_spec() -> bool {
        true
    }

    open spec fn from_spec(value: (u32, u32)) -> WindowSize {
        WindowSize { width: value.0, height: value.1 }
    }
}

impl From<WindowSize> for (u32, u32) {
    fn from(value: WindowSize) -> (p: (u32, u32)) {
        (value.width, value.height)
    }
}

impl vstd::std_specs::convert::FromSpecImpl<WindowSize> for (u32, u32) {
    open spec fn obeys_from_spec() -> bool {
        true
    }

    open spec fn from_spec(value: WindowSize) -> (u32, u32) {
        (value.width, value.height)
    }
}

/// Converting a pair of sides to a window size and back gives the pair again,
/// and converting a window size to a pair and back gives the size again.
pub proof fn lemma_window_size_round_trip(pair: (u32, u32), size: WindowSize)
    ensures
        <(u32, u32) as vstd::std_specs::convert::FromSpec<WindowSize>>::from_spec(
            <WindowSize as vstd::std_specs::convert::FromSpec<(u32, u32)>>::from_spec(pair),
        ) == pair,
        <WindowSize as vstd::std_specs::convert::FromSpec<(u32, u32)>>::from_spec(
            <(u32, u32) as vstd::std_specs::convert::FromSpec<WindowSize>>::from_spec(size),
        ) == size,
{
}

/// The last position whose hit is true, if any.
pub open spec fn last_hit(hits: Seq<bool>) -> Option<int>
    decreases hits.len(),
{
    if hits.len() == 0 {
        None
    } else if hits.last() {
        Some(hits.len() - 1)
    } else {
        last_hit(hits.drop_last())
    }
}

/// The path chosen among `paths` by `hits`: the last one hit, or `current`
/// when none is.
pub open spec fn chosen(current: Seq<WidgetId>, paths: Seq<Seq<WidgetId>>, hits: Seq<bool>) -> Seq<WidgetId> {
    match last_hit(hits) {
        Some(i) => paths[i],
        None => current,
    }
}

/// The path chosen is that of the last widget hit, or `current` when no
/// widget is hit: a hit at `i` with no hit after it decides.
pub proof fn lemma_chosen_is_last_hit(current: Seq<WidgetId>, paths: Seq<Seq<WidgetId>>, hits: Seq<bool>)
    ensures
        forall|i: int|
            #![trigger hits[i]]
            0 <= i < hits.len() && hits[i] && (forall|j: int| i < j < hits.len() ==> !#[trigger] hits[j])
                ==> chosen(current, paths, hits) == paths[i],
        (forall|j: int| 0 <= j < hits.len() ==> !#[trigger] hits[j]) ==> chosen(current, paths, hits)
            == current,
{
    assert forall|i: int|
        #![trigger hits[i]]
        0 <= i < hits.len() && hits[i] && (forall|j: int| i < j < hits.len() ==> !#[trigger] hits[j])
        implies chosen(current, paths, hits) == paths[i] by {
        lemma_last_hit_found(hits, i);
    }
    if forall|j: int| 0 <= j < hits.len() ==> !#[trigger] hits[j] {
        lemma_last_hit_none(hits);
    }
}

/// A copy of a widget path.
fn copy_path(path: &Vec<WidgetId>) -> (r: Vec<WidgetId>)
    ensures
        r@ == path@,
{
    let mut r: Vec<WidgetId> = Vec::new();
    let mut i: usize = 0;
    while i < path.len()
        invariant
            i <= path@.len(),
            r@ == path@.take(i as int),
        decreases path@.len() - i,
    {
        r.push(path[i]);
        i = i + 1;
        assert(r@ =~= path@.take(i as int));
    }
    assert(r@ =~= path@);
    r
}

/// Whether two widget paths are the same.
fn same_path(a: &Vec<WidgetId>, b: &Vec<WidgetId>) -> (same: bool)
    ensures
        same == (a@ == b@),
{
    if a.len() != b.len() {
        return false;
    }
    let mut i: usize = 0;
    while i < a.len()
        invariant
            a@.len() == b@.len(),
            i <= a@.len(),
            forall|j: int| 0 <= j < i ==> a@[j] == b@[j],
        decreases a@.len() - i,
    {
        if a[i] != b[i] {
            return false;
        }
        i = i + 1;
    }
    assert(a@ =~= b@);
    true
}

/// The widget path chosen by `hits`: that of the last widget whose bounds hold
/// the pointer, each widget being given by its path in `paths`, or a copy of
/// `current` when no bounds hold the pointer.
pub fn pick_target(current: &Vec<WidgetId>, paths: &Vec<Vec<WidgetId>>, hits: &Vec<bool>) -> (r: Vec<WidgetId>)
    requires
        paths@.len() == hits@.len(),
    ensures
        r@ == chosen(current@, paths@.map_values(|p: Vec<WidgetId>| p@), hits@),
        forall|i: int|
            #![trigger hits@[i]]
            0 <= i < hits@.len() && hits@[i] && (forall|j: int| i < j < hits@.len() ==> !#[trigger] hits@[j])
                ==> r@ == paths@[i]@,
        (forall|j: int| 0 <= j < hits@.len() ==> !#[trigger] hits@[j]) ==> r@ == current@,
{
    let ghost views = paths@.map_values(|p: Vec<WidgetId>| p@);
    let mut i: usize = hits.len();
    while i > 0
        invariant
            i <= hits@.len(),
            paths@.len() == hits@.len(),
            forall|j: int| i <= j < hits@.len() ==> !#[trigger] hits@[j],
        decreases i,
    {
        if hits[i - 1] {
            proof {
                lemma_last_hit_found(hits@, (i - 1) as int);
                assert forall|i2: int|
                    #![trigger hits@[i2]]
                    0 <= i2 < hits@.len() && hits@[i2] && (forall|j: int| i2 < j < hits@.len() ==> !#[trigger] hits@[j])
                    implies i2 == i - 1 by {
                    if i2 < i - 1 {
                        assert(!hits@[i - 1]);
                    }
                }
            }
            return copy_path(&paths[i - 1]);
        }
        i = i - 1;
    }
    proof {
        lemma_last_hit_none(hits@);
    }
    copy_path(current)
}

proof fn lemma_last_hit_found(hits: Seq<bool>, i: int)
    requires
        0 <= i < hits.len(),
        hits[i],
        forall|j: int| i < j < hits.len() ==> !#[trigger] hits[j],
    ensures
        last_hit(hits) == Some(i),
    decreases hits.len(),
{
    if i < hits.len() - 1 {
        let d = hits.drop_last();
        assert(!hits[hits.len() - 1]);
        assert forall|j: int| i < j < d.len() implies !#[trigger] d[j] by {
            assert(d[j] == hits[j]);
        }
        lemma_last_hit_found(d, i);
    }
}

proof fn lemma_last_hit_none(hits: Seq<bool>)
    requires
        forall|j: int| 0 <= j < hits.len() ==> !#[trigger] hits[j],
    ensures
        last_hit(hits) is None,
    decreases hits.len(),
{
    if hits.len() > 0 {
        let d = hits.drop_last();
        assert(!hits[hits.len() - 1]);
        assert forall|j: int| 0 <= j < d.len() implies !#[trigger] d[j] by {
            assert(d[j] == hits[j]);
        }
        lemma_last_hit_none(d);
    }
}

/// The widget the pointer hovers and the widget that has the focus, each
/// given by its path from the root.
pub struct PointerTargets {
    hovered: Vec<WidgetId>,
    focused: Vec<WidgetId>,
}

impl PointerTargets {
    /// The path of the hovered widget.
    pub closed spec fn hovered_path(&self) -> Seq<WidgetId> {
        self.hovered@
    }

    /// The path of the focused widget.
    pub closed spec fn focused_path(&self) -> Seq<WidgetId> {
        self.focused@
    }

    /// Targets that start on the root's child.
    pub fn new(root_child: WidgetId) -> (t: PointerTargets)
        ensures
            t.hovered_path() == seq![root_child],
            t.focused_path() == seq![root_child],
    {
        let mut hovered: Vec<WidgetId> = Vec::new();
        hovered.push(root_child);
        let mut focused: Vec<WidgetId> = Vec::new();
        focused.push(root_child);
        PointerTargets { hovered, focused }
    }

    /// The pointer moved: the hovered widget becomes the last one whose bounds
    /// hold the pointer (`hits`), if any. When that changes the hovered
    /// widget, the path it had before is returned, to be told it is no longer
    /// hovered.
    pub fn pointer_moved(&mut self, paths: &Vec<Vec<WidgetId>>, hits: &Vec<bool>) -> (left: Option<Vec<WidgetId>>)
        requires
            paths@.len() == hits@.len(),
        ensures
            final(self).hovered_path() == chosen(
                old(self).hovered_path(),
                paths@.map_values(|p: Vec<WidgetId>| p@),
                hits@,
            ),
            final(self).focused_path() == old(self).focused_path(),
            match left {
                Some(p) => p@ == old(self).hovered_path() && final(self).hovered_path()
                    != old(self).hovered_path(),
                None => final(self).hovered_path() == old(self).hovered_path(),
            },
    {
        let next = pick_target(&self.hovered, paths, hits);
        if same_path(&next, &self.hovered) {
            None
        } else {
            let mut previous = next;
            std::mem::swap(&mut previous, &mut self.hovered);
            Some(previous)
        }
    }

    /// A button was pressed: the focus goes to the last widget whose bounds
    /// hold the pointer (`hits`), if any.
    pub fn pointer_pressed(&mut self, paths: &Vec<Vec<WidgetId>>, hits: &Vec<bool>)
        requires
            paths@.len() == hits@.len(),
        ensures
            final(self).focused_path() == chosen(
                old(self).focused_path(),
                paths@.map_values(|p: Vec<WidgetId>| p@),
                hits@,
            ),
            final(self).hovered_path() == old(self).hovered_path(),
    {
        let next = pick_target(&self.focused, paths, hits);
        self.focused = next;
    }

    /// A copy of the hovered widget's path.
    pub fn hovered(&self) -> (p: Vec<WidgetId>)
        ensures
            p@ == self.hovered_path(),
    {
        copy_path(&self.hovered)
    }

    /// A copy of the focused widget's path.
    pub fn focused(&self) -> (p: Vec<WidgetId>)
        ensures
            p@ == self.focused_path(),
    {
        copy_path(&self.focused)
    }
}

/// What the event loop does when the window at `index` of its list closes.
#[derive(Debug, Clone, Copy, PartialEq, Eq, Structural)]
pub enum CloseAction {
    /// It was the last window: drop it and leave the event loop.
    DropLastAndExit,
    /// Other windows remain: remove this one from the list.
    Remove(usize),
}

/// The action for closing the window at `index` among `window_count` windows.
pub fn close_action(window_count: usize, index: usize) -> (a: CloseAction)
    requires
        index < window_count,
    ensures
        a == (if window_count == 1 {
            CloseAction::DropLastAndExit
        } else {
            CloseAction::Remove(index)
        }),
{
    if window_count == 1 {
        CloseAction::DropLastAndExit
    } else {
        CloseAction::Remove(index)
    }
}

/// Closes the window at `index` of `windows`, as `close_action` decides: the
/// window leaves the list, and the result says whether it was the last one,
/// so that the event loop ends with it.
pub fn close_window<W>(windows: &mut Vec<W>, index: usize) -> (exit: bool)
    requires
        index < old(windows)@.len(),
    ensures
        exit == (old(windows)@.len() == 1),
        final(windows)@ == old(windows)@.remove(index as int),
{
    match close_action(windows.len(), index) {
        CloseAction::DropLastAndExit => {
            let _ = windows.pop();
            assert(windows@ =~= old(windows)@.remove(index as int));
            true
        },
        CloseAction::Remove(i) => {
            let _ = windows.remove(i);
            false
        },
    }
}

/// What a window does with one of its events.
#[derive(Debug)]
pub enum WindowAction {
    /// The window was asked to close: the event loop ends.
    Exit,
    /// The window changed size: lay it out again at the size the event gives.
    Resize,
    /// The scale factor changed: keep the one the event gives.
    Rescale,
    /// Paint the widgets and render them.
    Redraw,
    /// Hand the event to the widgets. `left` is the path of the widget that
    /// is no longer hovered, when the hover changed: it is told so, the new
    /// one is told it is hovered, and a redraw is requested.
    Forward { left: Option<Vec<WidgetId>> },
}

/// The decision a window takes on `event`: closing, resizing, rescaling and
/// redrawing are done by the window itself; every other event goes to the
/// widgets, after a pointer move has updated the hovered widget and a press
/// the focused one, from the paths of the widgets and whether their bounds
/// hold the pointer (`hits`).
pub fn window_step<P, V, S>(
    targets: &mut PointerTargets,
    event: &window_event::Event<P, V, S>,
    paths: &Vec<Vec<WidgetId>>,
    hits: &Vec<bool>,
) -> (a: WindowAction)
    requires
        paths@.len() == hits@.len(),
    ensures
        match event {
            window_event::Event::CloseRequested => a is Exit,
            window_event::Event::Resized(_) => a is Resize,
            window_event::Event::ScaleFactorChanged(_) => a is Rescale,
            window_event::Event::RedrawRequested => a is Redraw,
            _ => a is Forward,
        },
        match event {
            window_event::Event::Mouse(mouse::Event::Move { .. }) => {
                &&& final(targets).hovered_path() == chosen(
                    old(targets).hovered_path(),
                    paths@.map_values(|p: Vec<WidgetId>| p@),
                    hits@,
                )
                &&& final(targets).focused_path() == old(targets).focused_path()
                &&& match a {
                    WindowAction::Forward { left: Some(p) } => p@ == old(targets).hovered_path()
                        && final(targets).hovered_path() != old(targets).hovered_path(),
                    WindowAction::Forward { left: None } => final(targets).hovered_path()
                        == old(targets).hovered_path(),
                    _ => false,
                }
            },
            window_event::Event::Mouse(mouse::Event::Press { .. }) => {
                &&& final(targets).focused_path() == chosen(
                    old(targets).focused_path(),
                    paths@.map_values(|p: Vec<WidgetId>| p@),
                    hits@,
                )
                &&& final(targets).hovered_path() == old(targets).hovered_path()
                &&& a matches WindowAction::Forward { left: None }
            },
            _ => {
                &&& final(targets).hovered_path() == old(targets).hovered_path()
                &&& final(targets).focused_path() == old(targets).focused_path()
                &&& (a is Forward ==> a matches WindowAction::Forward { left: None })
            },
        },
{
    match event {
        window_event::Event::CloseRequested => WindowAction::Exit,
        window_event::Event::Resized(_) => WindowAction::Resize,
        window_event::Event::ScaleFactorChanged(_) => WindowAction::Rescale,
        window_event::Event::RedrawRequested => WindowAction::Redraw,
        window_event::Event::Mouse(mouse::Event::Move { .. }) => {
            let left = targets.pointer_moved(paths, hits);
            WindowAction::Forward { left }
        },
        window_event::Event::Mouse(mouse::Event::Press { .. }) => {
            targets.pointer_pressed(paths, hits);
            WindowAction::Forward { left: None }
        },
        _ => WindowAction::Forward { left: None },
    }
}

} // verus!
