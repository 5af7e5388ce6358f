use dynamic_types::timing::TimeCollection;

#[test]
fn spans_are_recorded_one_per_round() {
    let mut t = TimeCollection::with_capacity(8);
    assert_eq!(t.times.len(), 0);
    for _ in 0..3 {
        t.start();
        t.end();
    }
    assert_eq!(t.times.len(), 3);
}

#[test]
fn average_is_the_integer_mean() {
    let mut t = TimeCollection::with_capacity(4);
    t.times = vec![10, 20, 30];
    assert_eq!(t.average(), 20);
    t.times = vec![1, 2];
    assert_eq!(t.average(), 1);
    t.times = vec![u64::MAX, u64::MAX];
    assert_eq!(t.average(), u64::MAX);
}

#[test]
fn clear_forgets_the_recorded_spans() {
    let mut t = TimeCollection::with_capacity(4);
    t.start();
    t.end();
    assert_eq!(t.times.len(), 1);
    t.clear();
    assert_eq!(t.times.len(), 0);
}
