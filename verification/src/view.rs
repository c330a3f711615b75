//! Views: light descriptions of the interface, built into widgets and
//! compared with the previous description to update those widgets.
use vstd::prelude::*;
use std::marker::PhantomData;
use vstd::view::View as _;

pub mod sequence;
pub mod svg;

pub use sequence::ElementSplice;
pub use sequence::FlexSplice;
pub use sequence::SuperElement;
pub use sequence::ViewSequence;

verus! {

/// A type that can be a [`View`]. Imposes no requirement on the type.
///
/// Implemented alongside every view, it keeps the blanket implementation of
/// [`ViewSequence`] for views from conflicting with those for collections.
pub trait ViewMarker {}

/// A description of part of the interface, from which an element is built
/// and then kept up to date.
pub trait View<State> {
    /// What the view builds.
    type Element;

    /// Whether `element` is what this view builds; each view says what its
    /// building produces.
    spec fn built(&self, element: Self::Element) -> bool;

    /// Whether `after` is what bringing `before`, built from `prev`, up to
    /// date with this view leaves.
    spec fn rebuilt(&self, prev: &Self, before: Self::Element, after: Self::Element) -> bool;

    /// Whether `after` is what releasing `before` leaves of it.
    spec fn torn_down(&self, before: Self::Element, after: Self::Element) -> bool;

    /// Builds the element.
    fn build(&self) -> (element: Self::Element)
        ensures
            self.built(element),
    ;

    /// Brings `element`, built from `prev`, up to date with this view.
    fn rebuild(&self, prev: &Self, element: &mut Self::Element)
        ensures
            self.rebuilt(prev, *old(element), *final(element)),
    ;

    /// Releases what `element` holds before it is dropped.
    fn teardown(&self, element: &mut Self::Element)
        ensures
            self.torn_down(*old(element), *final(element)),
    ;
}

/// The direction in which a flex container lays out its children.
#[derive(Debug, Clone, Copy, PartialEq, Eq, Structural)]
pub enum FlexDirection {
    Column,
    Row,
    ColumnReversed,
    RowReversed,
}

/// The axis along which a flex container lays out its children.
#[derive(Debug, Clone, Copy, PartialEq, Eq, Structural)]
pub enum FlexAxis {
    Vertical,
    Horizontal,
}

/// How the children of a flex container are placed across its main axis.
#[derive(Debug, Clone, Copy, PartialEq, Eq, Structural)]
pub enum CrossAxisAlignment {
    Start,
    Center,
    End,
    Stretch,
}

/// How the children of a flex container are spread along its main axis.
#[derive(Debug, Clone, Copy, PartialEq, Eq, Structural)]
pub enum JustifyContent {
    Start,
    Center,
    End,
    SpaceBetween,
    SpaceAround,
    SpaceEvenly,
}

/// The main axis of a direction, and whether the direction runs against it.
pub open spec fn axis_of(direction: FlexDirection) -> (FlexAxis, bool) {
    match direction {
        FlexDirection::Column => (FlexAxis::Vertical, false),
        FlexDirection::Row => (FlexAxis::Horizontal, false),
        FlexDirection::ColumnReversed => (FlexAxis::Vertical, true),
        FlexDirection::RowReversed => (FlexAxis::Horizontal, true),
    }
}

/// The main axis of `direction`, and whether the direction is reversed.
pub fn flex_axis(direction: FlexDirection) -> (r: (FlexAxis, bool))
    ensures
        r == axis_of(direction),
{
    match direction {
        FlexDirection::Column => (FlexAxis::Vertical, false),
        FlexDirection::Row => (FlexAxis::Horizontal, false),
        FlexDirection::ColumnReversed => (FlexAxis::Vertical, true),
        FlexDirection::RowReversed => (FlexAxis::Horizontal, true),
    }
}

/// A flex container of a sequence of children.
pub struct Flex<Children> {
    pub children: Children,
    pub flex_direction: FlexDirection,
    pub cross_axis_alignment: CrossAxisAlignment,
    pub justify_content: JustifyContent,
}

/// A flex container of `children`, laid out in a column from the start.
pub fn flex<Children>(children: Children) -> (f: Flex<Children>)
    ensures
        f.children == children,
        f.flex_direction == FlexDirection::Column,
        f.cross_axis_alignment == CrossAxisAlignment::Start,
        f.justify_content == JustifyContent::Start,
{
    Flex::new(children)
}

impl<Children> Flex<Children> {
    /// A flex container of `children`, laid out in a column from the start.
    pub fn new(children: Children) -> (f: Flex<Children>)
        ensures
            f.children == children,
            f.flex_direction == FlexDirection::Column,
            f.cross_axis_alignment == CrossAxisAlignment::Start,
            f.justify_content == JustifyContent::Start,
    {
        Flex {
            children,
            flex_direction: FlexDirection::Column,
            cross_axis_alignment: CrossAxisAlignment::Start,
            justify_content: JustifyContent::Start,
        }
    }

    /// The same container laid out in `flex_direction`.
    pub fn direction(self, flex_direction: FlexDirection) -> (f: Flex<Children>)
        ensures
            f == (Flex { flex_direction, ..self }),
    {
        Flex { flex_direction, ..self }
    }

    /// The same container with its children placed by `cross_axis_alignment`.
    pub fn cross_axis_alignment(self, cross_axis_alignment: CrossAxisAlignment) -> (f: Flex<Children>)
        ensures
            f == (Flex { cross_axis_alignment, ..self }),
    {
        Flex { cross_axis_alignment, ..self }
    }

    /// The same container with its children spread by `justify_content`.
    pub fn justify_content(self, justify_content: JustifyContent) -> (f: Flex<Children>)
        ensures
            f == (Flex { justify_content, ..self }),
    {
        Flex { justify_content, ..self }
    }
}

impl<Children> ViewMarker for Flex<Children> {}

/// The window controls (minimise, maximise, close) of a header.
pub struct WindowControls;

impl ViewMarker for WindowControls {}

/// A header bar with three parts and the window controls.
pub struct Header<Left, Middle, Right> {
    pub left: Left,
    pub middle: Middle,
    pub right: Right,
    pub window_controls: WindowControls,
}

impl<Left, Middle, Right> Header<Left, Middle, Right> {
    /// A header of the three given parts.
    pub fn new(left: Left, middle: Middle, right: Right) -> (h: Header<Left, Middle, Right>)
        ensures
            h.left == left,
            h.middle == middle,
            h.right == right,
    {
        Header { left, middle, right, window_controls: WindowControls }
    }
}

impl<Left, Middle, Right> ViewMarker for Header<Left, Middle, Right> {}

/// A window: a header above some content, with a title.
pub struct Window<Left, Middle, Right, Content> {
    pub header: Header<Left, Middle, Right>,
    pub content: Content,
    pub title: String,
}

impl<Left, Middle, Right, Content> Window<Left, Middle, Right, Content> {
    /// A window of the given header, content and title.
    pub fn new(header: Header<Left, Middle, Right>, content: Content, title: String) -> (w: Window<Left, Middle, Right, Content>)
        ensures
            w.header == header,
            w.content == content,
            w.title == title,
    {
        Window { header, content, title }
    }
}

/// An image, given by the bytes of its file.
pub struct ImageView {
    pub bytes: Vec<u8>,
}

impl ImageView {
    /// An image of the given bytes.
    pub fn new(bytes: Vec<u8>) -> (v: ImageView)
        ensures
            v.bytes == bytes,
    {
        ImageView { bytes }
    }

    /// Whether the image's bytes are an SVG document, as building its
    /// element checks before it reports that SVG is not supported yet.
    pub fn is_svg(&self) -> (b: bool)
        ensures
            b == svg::is_svg(self.bytes@),
    {
        svg::image_is_svg(&self.bytes)
    }
}

impl ViewMarker for ImageView {}

/// An image of the given bytes.
pub fn image(bytes: Vec<u8>) -> (v: ImageView)
    ensures
        v.bytes == bytes,
{
    ImageView::new(bytes)
}

/// The view at the root of a window.
pub struct RootView<State, Child> {
    pub child: Child,
    pub phantom_data: PhantomData<State>,
}

impl<State, Child> RootView<State, Child> {
    /// The root view of `child`.
    pub fn new(child: Child) -> (r: RootView<State, Child>)
        ensures
            r.child == child,
    {
        RootView { child, phantom_data: PhantomData }
    }
}

} // verus!
