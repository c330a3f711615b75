//! Events and the context in which widgets handle them.
use vstd::prelude::*;

pub mod mouse;
pub mod touch;
pub mod window;

pub use mouse::MouseButton;

verus! {

/// The shape of the mouse cursor.
#[non_exhaustive]
#[derive(Debug, Clone, Copy, PartialEq, Eq, Structural)]
pub enum Cursor {
    Default,
    Pointer,
    EResize,
    NResize,
    NeResize,
    NwResize,
    SResize,
    SeResize,
    SwResize,
    WResize,
}

/// The edge or corner from which a window is resized.
#[derive(Debug, Clone, Copy, PartialEq, Eq, Structural)]
pub enum ResizeDirection {
    East,
    North,
    NorthEast,
    NorthWest,
    South,
    SouthEast,
    SouthWest,
    West,
}

/// Whether a widget handled an event.
#[derive(Debug, PartialEq, Eq, Structural)]
pub enum Status {
    Ignored,
    Captured,
}

/// Requests that widgets make of the window that holds them.
#[derive(Debug, Clone)]
pub enum InternalMessage {
    TitleChanged(String),
    MinimiseWindow,
    MaximiseWindow,
    CloseWindow,
    DragResizeWindow(ResizeDirection),
    DragMoveWindow,
}

/// A message of the toolkit or of the application.
#[derive(Debug, Clone)]
pub enum AppMessage<UserMessage> {
    Internal(InternalMessage),
    User(UserMessage),
}

/// What widgets produce while they handle events: messages for the
/// application, requests for the window, and the cursor to show.
pub struct EventCx<Message> {
    pub repaint_needed: bool,
    user_messages: Vec<Message>,
    internal_messages: Vec<InternalMessage>,
    cursor: Cursor,
}

impl<Message> EventCx<Message> {
    /// The application messages not yet taken, oldest first.
    pub closed spec fn pending_user(&self) -> Seq<Message> {
        self.user_messages@
    }

    /// The window requests not yet taken, oldest first.
    pub closed spec fn pending_internal(&self) -> Seq<InternalMessage> {
        self.internal_messages@
    }

    /// Whether a repaint was asked for.
    pub closed spec fn needs_repaint(&self) -> bool {
        self.repaint_needed
    }

    /// The cursor last set.
    pub closed spec fn current_cursor(&self) -> Cursor {
        self.cursor
    }

    /// A context with no message, no repaint needed and the default cursor.
    pub fn new() -> (cx: EventCx<Message>)
        ensures
            cx.pending_user() == Seq::<Message>::empty(),
            cx.pending_internal() == Seq::<InternalMessage>::empty(),
            cx.current_cursor() == Cursor::Default,
            !cx.needs_repaint(),
    {
        EventCx {
            repaint_needed: false,
            user_messages: Vec::new(),
            internal_messages: Vec::new(),
            cursor: Cursor::Default,
        }
    }

    /// Takes all application messages, oldest first, leaving none.
    pub fn drain_user_messages(&mut self) -> (taken: Vec<Message>)
        ensures
            taken@ == old(self).pending_user(),
            final(self).pending_user() == Seq::<Message>::empty(),
            final(self).pending_internal() == old(self).pending_internal(),
            final(self).current_cursor() == old(self).current_cursor(),
            final(self).needs_repaint() == old(self).needs_repaint(),
    {
        let mut taken: Vec<Message> = Vec::new();
        std::mem::swap(&mut taken, &mut self.user_messages);
        taken
    }

    /// Takes all application messages, oldest first, leaving none.
    pub fn messages(&mut self) -> (taken: Vec<Message>)
        ensures
            taken@ == old(self).pending_user(),
            final(self).pending_user() == Seq::<Message>::empty(),
            final(self).pending_internal() == old(self).pending_internal(),
            final(self).current_cursor() == old(self).current_cursor(),
            final(self).needs_repaint() == old(self).needs_repaint(),
    {
        self.drain_user_messages()
    }

    /// Queues an application message after those already queued.
    pub fn push_user_message(&mut self, message: Message)
        ensures
            final(self).pending_user() == old(self).pending_user().push(message),
            final(self).pending_internal() == old(self).pending_internal(),
            final(self).current_cursor() == old(self).current_cursor(),
            final(self).needs_repaint() == old(self).needs_repaint(),
    {
        self.user_messages.push(message);
    }

    /// Queues an application message after those already queued.
    pub fn add_message(&mut self, message: Message)
        ensures
            final(self).pending_user() == old(self).pending_user().push(message),
            final(self).pending_internal() == old(self).pending_internal(),
            final(self).current_cursor() == old(self).current_cursor(),
            final(self).needs_repaint() == old(self).needs_repaint(),
    {
        self.push_user_message(message);
    }

    /// Takes all window requests, oldest first, leaving none.
    pub fn drain_internal_messages(&mut self) -> (taken: Vec<InternalMessage>)
        ensures
            taken@ == old(self).pending_internal(),
            final(self).pending_internal() == Seq::<InternalMessage>::empty(),
            final(self).pending_user() == old(self).pending_user(),
            final(self).current_cursor() == old(self).current_cursor(),
            final(self).needs_repaint() == old(self).needs_repaint(),
    {
        let mut taken: Vec<InternalMessage> = Vec::new();
        std::mem::swap(&mut taken, &mut self.internal_messages);
        taken
    }

    /// Queues a window request after those already queued.
    pub fn push_internal_message(&mut self, message: InternalMessage)
        ensures
            final(self).pending_internal() == old(self).pending_internal().push(message),
            final(self).pending_user() == old(self).pending_user(),
            final(self).current_cursor() == old(self).current_cursor(),
            final(self).needs_repaint() == old(self).needs_repaint(),
    {
        self.internal_messages.push(message);
    }

    /// Sets the cursor to show.
    pub fn set_cursor(&mut self, cursor: Cursor)
        ensures
            final(self).current_cursor() == cursor,
            final(self).pending_user() == old(self).pending_user(),
            final(self).pending_internal() == old(self).pending_internal(),
            final(self).needs_repaint() == old(self).needs_repaint(),
    {
        self.cursor = cursor;
    }

    /// The cursor last set.
    pub fn cursor(&self) -> (c: Cursor)
        ensures
            c == self.current_cursor(),
    {
        self.cursor
    }
}

/// An event for a widget.
#[derive(Debug, Clone, PartialEq)]
pub enum WidgetEvent<P, V> {
    Mouse(mouse::Event<P, V>),
    Touch(touch::Event<P, V>),
}

/// `after` is the mouse event `before` with its position, if it has one,
/// moved by `to_widget`.
pub open spec fn mouse_moved<P, V, F: Fn(P) -> P>(
    before: mouse::Event<P, V>,
    after: mouse::Event<P, V>,
    to_widget: F,
) -> bool {
    match (before, after) {
        (mouse::Event::Move { position: p }, mouse::Event::Move { position: q }) => to_widget.ensures(
            (p,),
            q,
        ),
        (mouse::Event::Wheel { delta: d }, mouse::Event::Wheel { delta: e }) => e == d,
        (
            mouse::Event::Press { position: p, button: b },
            mouse::Event::Press { position: q, button: c },
        ) => c == b && to_widget.ensures((p,), q),
        (
            mouse::Event::Release { position: p, button: b },
            mouse::Event::Release { position: q, button: c },
        ) => c == b && to_widget.ensures((p,), q),
        _ => false,
    }
}

/// `after` is the touch event `before` with its position, if it has one,
/// moved by `to_widget`.
pub open spec fn touch_moved<P, V, F: Fn(P) -> P>(
    before: touch::Event<P, V>,
    after: touch::Event<P, V>,
    to_widget: F,
) -> bool {
    match (before, after) {
        (touch::Event::Start { start: p }, touch::Event::Start { start: q }) => to_widget.ensures(
            (p,),
            q,
        ),
        (touch::Event::Move { delta: d }, touch::Event::Move { delta: e }) => e == d,
        (touch::Event::End { end: p }, touch::Event::End { end: q }) => to_widget.ensures((p,), q),
        (touch::Event::Cancel, touch::Event::Cancel) => true,
        _ => false,
    }
}

/// `after` is the widget event `before` with its position, if it has one,
/// moved by `to_widget`.
pub open spec fn event_moved<P, V, F: Fn(P) -> P>(
    before: WidgetEvent<P, V>,
    after: WidgetEvent<P, V>,
    to_widget: F,
) -> bool {
    match (before, after) {
        (WidgetEvent::Mouse(m), WidgetEvent::Mouse(n)) => mouse_moved(m, n, to_widget),
        (WidgetEvent::Touch(t), WidgetEvent::Touch(u)) => touch_moved(t, u, to_widget),
        _ => false,
    }
}

/// The event `event` in the coordinates of a widget: every position goes
/// through `to_widget`, everything else stays as it is.
pub fn widget_event<P, V, F: Fn(P) -> P>(event: WidgetEvent<P, V>, to_widget: &F) -> (r: WidgetEvent<P, V>)
    requires
        forall|p: P| #[trigger] to_widget.requires((p,)),
    ensures
        event_moved(event, r, *to_widget),
{
    match event {
        WidgetEvent::Mouse(mouse_event) => WidgetEvent::Mouse(
            match mouse_event {
                mouse::Event::Move { position } => mouse::Event::Move { position: to_widget(position) },
                mouse::Event::Wheel { delta } => mouse::Event::Wheel { delta },
                mouse::Event::Press { position, button } => mouse::Event::Press {
                    position: to_widget(position),
                    button,
                },
                mouse::Event::Release { position, button } => mouse::Event::Release {
                    position: to_widget(position),
                    button,
                },
            },
        ),
        WidgetEvent::Touch(touch_event) => WidgetEvent::Touch(
            match touch_event {
                touch::Event::Start { start } => touch::Event::Start { start: to_widget(start) },
                touch::Event::Move { delta } => touch::Event::Move { delta },
                touch::Event::End { end } => touch::Event::End { end: to_widget(end) },
                touch::Event::Cancel => touch::Event::Cancel,
            },
        ),
    }
}

/// The widget event of a window event, in the coordinates of a widget
/// (through `to_widget`): mouse and touch events are widget events, the
/// others (resizing, closing, scaling, redrawing) are not.
pub fn widget_event_from_window_event<P, V, S, F: Fn(P) -> P>(
    event: window::Event<P, V, S>,
    to_widget: &F,
) -> (r: Option<WidgetEvent<P, V>>)
    requires
        forall|p: P| #[trigger] to_widget.requires((p,)),
    ensures
        match event {
            window::Event::Mouse(m) => r matches Some(w) && event_moved(
                WidgetEvent::Mouse(m),
                w,
                *to_widget,
            ),
            window::Event::Touch(t) => r matches Some(w) && event_moved(
                WidgetEvent::Touch(t),
                w,
                *to_widget,
            ),
            _ => r is None,
        },
{
    match event {
        window::Event::Resized(_) => None,
        window::Event::CloseRequested => None,
        window::Event::ScaleFactorChanged(_) => None,
        window::Event::RedrawRequested => None,
        window::Event::Mouse(mouse_event) => Some(
            widget_event(WidgetEvent::Mouse(mouse_event), to_widget),
        ),
        window::Event::Touch(touch_event) => Some(
            widget_event(WidgetEvent::Touch(touch_event), to_widget),
        ),
    }
}

} // verus!
