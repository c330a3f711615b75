use ralaire::id::{IdGenerator, WidgetId};
use ralaire::window::{close_action, pick_target, CloseAction, PointerTargets};
use ralaire::WindowSize;
use ralaire::event::mouse::{Event as MouseEvent, MouseButton};
use ralaire::event::window::Event;
use ralaire::window::{window_step, WindowAction};

#[test]
fn window_size_converts_to_and_from_pairs() {
    let s: WindowSize = (800, 600).into();
    assert_eq!(s, WindowSize { width: 800, height: 600 });
    let p: (u32, u32) = s.into();
    assert_eq!(p, (800, 600));
}

#[test]
fn last_hit_wins() {
    let mut g = IdGenerator::new();
    let root = WidgetId::unique(&mut g);
    let a = WidgetId::unique(&mut g);
    let b = WidgetId::unique(&mut g);
    let paths = vec![vec![root], vec![root, a], vec![root, b]];
    assert_eq!(pick_target(&vec![root], &paths, &vec![true, true, false]), vec![root, a]);
    assert_eq!(pick_target(&vec![root], &paths, &vec![true, false, true]), vec![root, b]);
    assert_eq!(pick_target(&vec![a], &paths, &vec![false, false, false]), vec![a]);
}

#[test]
fn hover_reports_the_widget_left() {
    let mut g = IdGenerator::new();
    let root = WidgetId::unique(&mut g);
    let a = WidgetId::unique(&mut g);
    let mut t = PointerTargets::new(root);
    assert_eq!(t.hovered(), vec![root]);
    assert_eq!(t.focused(), vec![root]);
    let paths = vec![vec![root], vec![root, a]];
    assert_eq!(t.pointer_moved(&paths, &vec![true, true]), Some(vec![root]));
    assert_eq!(t.hovered(), vec![root, a]);
    assert_eq!(t.pointer_moved(&paths, &vec![true, true]), None);
    assert_eq!(t.pointer_moved(&paths, &vec![false, false]), None);
    assert_eq!(t.hovered(), vec![root, a]);
    assert_eq!(t.focused(), vec![root]);
    t.pointer_pressed(&paths, &vec![true, false]);
    assert_eq!(t.focused(), vec![root]);
    t.pointer_pressed(&paths, &vec![false, true]);
    assert_eq!(t.focused(), vec![root, a]);
}

#[test]
fn closing_the_last_window_exits() {
    assert_eq!(close_action(1, 0), CloseAction::DropLastAndExit);
    assert_eq!(close_action(3, 1), CloseAction::Remove(1));
}

#[test]
fn closing_a_window_removes_it() {
    let mut windows = vec!["a", "b", "c"];
    assert!(!ralaire::window::close_window(&mut windows, 1));
    assert_eq!(windows, vec!["a", "c"]);
    assert!(!ralaire::window::close_window(&mut windows, 0));
    assert_eq!(windows, vec!["c"]);
    assert!(ralaire::window::close_window(&mut windows, 0));
    assert!(windows.is_empty());
}

#[test]
fn window_step_decides_per_event() {
    type Ev = Event<(i32, i32), (i32, i32), u32>;
    let mut g = IdGenerator::new();
    let root = WidgetId::unique(&mut g);
    let child = WidgetId::unique(&mut g);
    let mut t = PointerTargets::new(root);
    let paths = vec![vec![root], vec![root, child]];
    let no_paths: Vec<Vec<WidgetId>> = vec![];
    assert!(matches!(window_step(&mut t, &Ev::CloseRequested, &no_paths, &vec![]), WindowAction::Exit));
    assert!(matches!(window_step(&mut t, &Ev::RedrawRequested, &no_paths, &vec![]), WindowAction::Redraw));
    assert!(matches!(window_step(&mut t, &Ev::ScaleFactorChanged(2), &no_paths, &vec![]), WindowAction::Rescale));
    assert!(matches!(
        window_step(&mut t, &Ev::Resized(WindowSize::from((4, 5))), &no_paths, &vec![]),
        WindowAction::Resize
    ));
    let moved = Ev::Mouse(MouseEvent::Move { position: (1, 1) });
    match window_step(&mut t, &moved, &paths, &vec![true, true]) {
        WindowAction::Forward { left: Some(p) } => assert_eq!(p, vec![root]),
        other => panic!("unexpected {:?}", other),
    }
    assert_eq!(t.hovered(), vec![root, child]);
    match window_step(&mut t, &moved, &paths, &vec![true, true]) {
        WindowAction::Forward { left: None } => {}
        other => panic!("unexpected {:?}", other),
    }
    let pressed = Ev::Mouse(MouseEvent::Press { position: (1, 1), button: MouseButton::Left });
    assert!(matches!(window_step(&mut t, &pressed, &paths, &vec![true, false]), WindowAction::Forward { left: None }));
    assert_eq!(t.focused(), vec![root]);
    assert_eq!(t.hovered(), vec![root, child]);
}
