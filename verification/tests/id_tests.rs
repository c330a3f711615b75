use ralaire::id::{AnimationId, Id, IdGenerator, WidgetId};

#[test]
fn ids_count_up_from_one() {
    let mut g = IdGenerator::new();
    let a = WidgetId::unique(&mut g);
    let b = WidgetId::unique(&mut g);
    let c = WidgetId::unique(&mut g);
    assert_eq!(a.to_raw(), 1);
    assert_eq!(b.to_raw(), 2);
    assert_eq!(c.to_raw(), 3);
    assert_ne!(a, b);
}

#[test]
fn each_kind_of_id_has_its_own_counter() {
    let mut widgets = IdGenerator::new();
    let mut animations = IdGenerator::new();
    let mut core = IdGenerator::new();
    let w = WidgetId::unique(&mut widgets);
    let a = AnimationId::unique(&mut animations);
    let i = Id::unique(&mut core);
    let i2 = Id::unique(&mut core);
    assert_eq!(w.to_raw(), 1);
    assert_eq!(a.to_raw(), 1);
    assert_eq!(i.to_raw(), 1);
    assert_eq!(i2.to_raw(), 2);
}

#[test]
fn many_ids_are_distinct() {
    let mut g = IdGenerator::new();
    let ids: Vec<u64> = (0..100).map(|_| AnimationId::unique(&mut g).to_raw()).collect();
    for i in 0..ids.len() {
        for j in i + 1..ids.len() {
            assert_ne!(ids[i], ids[j]);
        }
    }
}

#[test]
fn later_ids_compare_greater() {
    let mut g = IdGenerator::new();
    let first = WidgetId::unique(&mut g);
    let second = WidgetId::unique(&mut g);
    assert!(first < second);
    assert!(first.to_raw() < second.to_raw());
    let mut h = IdGenerator::new();
    let a = Id::unique(&mut h);
    let b = Id::unique(&mut h);
    assert!(a < b);
    assert_eq!(a, a);
}

#[test]
fn kth_issue_is_k_plus_one() {
    let mut g = IdGenerator::new();
    for k in 0..50u64 {
        assert_eq!(Id::unique(&mut g).to_raw(), k + 1);
    }
    assert_eq!(g.next_value(), 51);
}
