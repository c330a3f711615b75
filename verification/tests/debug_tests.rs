use ralaire::debug::{DebugLayer, TimeBuffer, MAX_DURATION_NANOS};

#[test]
fn time_buffer_starts_empty() {
    let b = TimeBuffer::new(10);
    assert_eq!(b.average(), 0);
    assert_eq!(b.max(), 0);
}

#[test]
fn time_buffer_without_slots_reports_zero() {
    let b = TimeBuffer::new(0);
    assert_eq!(b.average(), 0);
    assert_eq!(b.max(), 0);
}

#[test]
fn first_push_lands_after_the_first_slot() {
    // The head moves before writing, so the first duration goes to slot 1
    // while the average reads slot 0 only.
    let mut b = TimeBuffer::new(10);
    b.push(5);
    assert_eq!(b.average(), 0);
    assert_eq!(b.max(), 5);
}

#[test]
fn average_of_two_pushes_is_rounded_down() {
    let mut b = TimeBuffer::new(10);
    b.push(5);
    b.push(7);
    // slots 0 and 1 count: (0 + 5) / 2
    assert_eq!(b.average(), 2);
    assert_eq!(b.max(), 7);
}

#[test]
fn full_buffer_averages_every_slot() {
    let mut b = TimeBuffer::new(10);
    for d in 1..=10u128 {
        b.push(d * 10);
    }
    // The tenth push wrapped around to slot 0; all ten slots count.
    assert_eq!(b.average(), 55);
    assert_eq!(b.max(), 100);
    b.push(1000);
    // The eleventh push overwrote slot 1 (which held 10).
    assert_eq!(b.average(), (550 - 10 + 1000) / 10);
    assert_eq!(b.max(), 1000);
}

#[test]
fn average_never_exceeds_max() {
    let mut b = TimeBuffer::new(3);
    for d in [9u128, 1, 4, 4, 100, 2, 3] {
        b.push(d);
        assert!(b.average() <= b.max());
    }
}

#[test]
fn largest_duration_fits() {
    let mut b = TimeBuffer::new(2);
    b.push(MAX_DURATION_NANOS);
    b.push(MAX_DURATION_NANOS);
    assert_eq!(b.max(), MAX_DURATION_NANOS);
    assert_eq!(b.average(), MAX_DURATION_NANOS);
}

#[test]
fn debug_layer_starts_with_nothing_recorded() {
    let d = DebugLayer::new();
    let r = d.log();
    assert_eq!(r.startup, 0);
    assert_eq!(r.update.average, 0);
    assert_eq!(r.update.max, 0);
    assert_eq!(r.render.max, 0);
}

#[test]
fn debug_layer_records_a_stage() {
    let mut d = DebugLayer::new();
    d.startup_started();
    d.startup_finished();
    d.update_started();
    let begin = std::time::Instant::now();
    while begin.elapsed() < std::time::Duration::from_millis(2) {}
    d.update_finished();
    let r = d.log();
    assert!(r.update.max >= 2_000_000);
    // only one duration: it sits in slot 1, and the average reads slot 0
    assert_eq!(r.update.average, 0);
    assert_eq!(r.view.max, 0);
    for _ in 0..12 {
        d.view_started();
        d.view_finished();
    }
    let r = d.log();
    assert!(r.view.average <= r.view.max);
    d.layout_started();
    d.layout_finished();
    d.event_started();
    d.event_finished();
    d.draw_started();
    d.draw_finished();
    d.encode_started();
    d.encode_finished();
    d.render_started();
    d.render_finished();
    let r = d.log();
    assert!(r.encode.average <= r.encode.max);
}

#[test]
fn recorded_startup_replaces_the_earlier_one() {
    let mut d = DebugLayer::new();
    d.record_startup(5);
    assert_eq!(d.log().startup, 5);
    d.record_startup(3);
    assert_eq!(d.log().startup, 3);
    assert_eq!(d.log().update.max, 0);
}
