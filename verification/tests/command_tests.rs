use ralaire::command::Task;
use ralaire::id::IdGenerator;
use ralaire::{Animation, AnimationDirection, App, Command};

#[test]
fn commands_append_in_order() {
    let mut ids = IdGenerator::new();
    let a = Animation::new(AnimationDirection::Forward, 64_000_000, &mut ids);
    let b = Animation::new(AnimationDirection::Backward, 64_000_000, &mut ids);
    let none: Command<&str> = Command::none();
    assert!(none.tasks.is_empty());
    let first = Command::animation(a.clone(), "tick a", "done a");
    let mut second = Command::animation(b.clone(), "tick b", "done b");
    let both = first.append(&mut second);
    assert!(second.tasks.is_empty());
    assert_eq!(both.tasks.len(), 2);
    match &both.tasks[0] {
        Task::Animate { animation, tick_message, done_message } => {
            assert!(*animation == a);
            assert_eq!(*tick_message, "tick a");
            assert_eq!(*done_message, "done a");
        }
    }
    match &both.tasks[1] {
        Task::Animate { animation, .. } => assert!(*animation == b),
    }
}

#[test]
fn app_keeps_state_and_logic() {
    let app = App::new(41u32, |s: &mut u32| *s + 1);
    let (mut state, logic) = app.into_parts();
    assert_eq!(state, 41);
    assert_eq!(logic(&mut state), 42);
}
