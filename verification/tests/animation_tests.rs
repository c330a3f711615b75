use ralaire::animation::{already_running, AnimationStep, TICK_MILLIS};
use ralaire::id::{AnimationId, IdGenerator};
use ralaire::{Animation, AnimationDirection, EasingCurve};

#[test]
fn forward_animation_counts_up_to_its_ticks() {
    let mut ids = IdGenerator::new();
    let mut a = Animation::new(AnimationDirection::Forward, 160_000_000, &mut ids);
    assert_eq!(a.id().to_raw(), 1);
    assert_eq!(a.update_interval(), TICK_MILLIS);
    assert_eq!(a.duration(), 160_000_000);
    assert_eq!(a.direction(), AnimationDirection::Forward);
    assert_eq!(a.easing_curve(), EasingCurve::EaseInOutCubic);
    assert_eq!(a.ticks(), 10);
    assert_eq!(a.start(), 0);
    assert_eq!(a.counter(), 0);
    let mut steps = 0;
    while a.next_step(a.counter()) == AnimationStep::Tick {
        a.advance();
        steps += 1;
    }
    assert_eq!(steps, 10);
    assert_eq!(a.counter(), 10);
    assert!(a.reached_end(10));
    assert!(!a.reached_end(9));
}

#[test]
fn backward_animation_counts_down_to_zero() {
    let mut ids = IdGenerator::new();
    let mut a = Animation::new(AnimationDirection::Backward, 100_000_000, &mut ids);
    assert_eq!(a.ticks(), 6);
    assert_eq!(a.start(), 6);
    assert_eq!(a.counter(), 6);
    let mut steps = 0;
    while a.next_step(a.counter()) == AnimationStep::Tick {
        a.decrement();
        steps += 1;
    }
    assert_eq!(steps, 6);
    assert_eq!(a.counter(), 0);
}

#[test]
fn clones_share_the_counter() {
    let mut ids = IdGenerator::new();
    let a = Animation::new(AnimationDirection::Forward, 32_000_000, &mut ids);
    let mut b = a.clone();
    b.increment();
    assert_eq!(a.counter(), 1);
    assert!(a == b);
}

#[test]
fn animation_shorter_than_a_tick_never_ends() {
    let mut ids = IdGenerator::new();
    let a = Animation::new(AnimationDirection::Forward, 15_000_000, &mut ids);
    assert_eq!(a.ticks(), 0);
    assert!(!a.reached_end(0));
    assert_eq!(a.next_step(0), AnimationStep::Tick);
    let b = Animation::new(AnimationDirection::Backward, 0, &mut ids);
    assert!(!b.reached_end(0));
}

#[test]
fn easing_and_identity() {
    let mut ids = IdGenerator::new();
    let a = Animation::new(AnimationDirection::Forward, 320_000_000, &mut ids);
    let b = a.clone().with_easing(EasingCurve::Linear);
    assert_eq!(b.easing_curve(), EasingCurve::Linear);
    assert!(a != b);
    let c = Animation::new(AnimationDirection::Forward, 320_000_000, &mut ids);
    assert_eq!(c.id().to_raw(), 2);
    assert!(a != c);
}

#[test]
fn running_animations_are_found_by_id() {
    let mut ids = IdGenerator::new();
    let first = AnimationId::unique(&mut ids);
    let second = AnimationId::unique(&mut ids);
    let third = AnimationId::unique(&mut ids);
    let running = vec![(first, "tick a"), (third, "tick c")];
    assert!(already_running(&running, first));
    assert!(already_running(&running, third));
    assert!(!already_running(&running, second));
    let none: Vec<(AnimationId, ())> = vec![];
    assert!(!already_running(&none, first));
}

#[test]
fn duration_keeps_its_nanoseconds() {
    let mut ids = IdGenerator::new();
    let a = Animation::new(AnimationDirection::Backward, 160_999_999, &mut ids);
    assert_eq!(a.duration(), 160_999_999);
    assert_eq!(a.ticks(), 10);
    assert_eq!(a.start(), 10);
    let b = Animation::new(AnimationDirection::Forward, 160_999_999, &mut ids);
    let c = Animation::new(AnimationDirection::Forward, 160_000_000, &mut ids);
    assert_eq!(b.ticks(), c.ticks());
    assert!(b.duration() != c.duration());
    let d = Animation::new(AnimationDirection::Forward, 15_999_999, &mut ids);
    assert_eq!(d.ticks(), 0);
    let e = Animation::new(AnimationDirection::Forward, 16_000_000, &mut ids);
    assert_eq!(e.ticks(), 1);
}
