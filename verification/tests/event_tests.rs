use ralaire::event::{Cursor, EventCx, InternalMessage, ResizeDirection};

#[test]
fn messages_come_out_in_order_once() {
    let mut cx: EventCx<u32> = EventCx::new();
    cx.add_message(1);
    cx.push_user_message(2);
    cx.add_message(3);
    assert_eq!(cx.messages(), vec![1, 2, 3]);
    assert!(cx.messages().is_empty());
    cx.push_user_message(4);
    assert_eq!(cx.drain_user_messages(), vec![4]);
}

#[test]
fn internal_messages_are_separate() {
    let mut cx: EventCx<u32> = EventCx::new();
    cx.push_internal_message(InternalMessage::DragMoveWindow);
    cx.add_message(7);
    cx.push_internal_message(InternalMessage::DragResizeWindow(ResizeDirection::SouthEast));
    let internal = cx.drain_internal_messages();
    assert_eq!(internal.len(), 2);
    assert!(matches!(internal[0], InternalMessage::DragMoveWindow));
    assert!(matches!(
        internal[1],
        InternalMessage::DragResizeWindow(ResizeDirection::SouthEast)
    ));
    assert!(cx.drain_internal_messages().is_empty());
    assert_eq!(cx.messages(), vec![7]);
}

#[test]
fn cursor_defaults_and_changes() {
    let mut cx: EventCx<()> = EventCx::new();
    assert_eq!(cx.cursor(), Cursor::Default);
    cx.set_cursor(Cursor::Pointer);
    assert_eq!(cx.cursor(), Cursor::Pointer);
    assert!(!cx.repaint_needed);
}

use ralaire::event::{mouse, touch, widget_event, widget_event_from_window_event, window, MouseButton, WidgetEvent};

fn shift(p: (i32, i32)) -> (i32, i32) {
    (p.0 - 10, p.1 - 20)
}

#[test]
fn widget_events_move_positions_only() {
    let e: WidgetEvent<(i32, i32), (i32, i32)> = WidgetEvent::Mouse(mouse::Event::Press {
        position: (15, 25),
        button: MouseButton::Left,
    });
    assert_eq!(
        widget_event(e, &shift),
        WidgetEvent::Mouse(mouse::Event::Press { position: (5, 5), button: MouseButton::Left })
    );
    let w: WidgetEvent<(i32, i32), (i32, i32)> = WidgetEvent::Mouse(mouse::Event::Wheel { delta: (1, 2) });
    assert_eq!(widget_event(w.clone(), &shift), w);
    let t: WidgetEvent<(i32, i32), (i32, i32)> = WidgetEvent::Touch(touch::Event::End { end: (10, 20) });
    assert_eq!(widget_event(t, &shift), WidgetEvent::Touch(touch::Event::End { end: (0, 0) }));
    let c: WidgetEvent<(i32, i32), (i32, i32)> = WidgetEvent::Touch(touch::Event::Cancel);
    assert_eq!(widget_event(c.clone(), &shift), c);
}

#[test]
fn only_pointer_events_reach_widgets() {
    type E = window::Event<(i32, i32), (i32, i32), u8>;
    let close: E = window::Event::CloseRequested;
    assert_eq!(widget_event_from_window_event(close, &shift), None);
    let redraw: E = window::Event::RedrawRequested;
    assert_eq!(widget_event_from_window_event(redraw, &shift), None);
    let scale: E = window::Event::ScaleFactorChanged(2);
    assert_eq!(widget_event_from_window_event(scale, &shift), None);
    let resized: E = window::Event::Resized(ralaire::WindowSize { width: 1, height: 1 });
    assert_eq!(widget_event_from_window_event(resized, &shift), None);
    let moved: E = window::Event::Mouse(mouse::Event::Move { position: (11, 22) });
    assert_eq!(
        widget_event_from_window_event(moved, &shift),
        Some(WidgetEvent::Mouse(mouse::Event::Move { position: (1, 2) }))
    );
    let started: E = window::Event::Touch(touch::Event::Start { start: (10, 21) });
    assert_eq!(
        widget_event_from_window_event(started, &shift),
        Some(WidgetEvent::Touch(touch::Event::Start { start: (0, 1) }))
    );
}
