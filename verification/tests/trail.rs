use atlas::sim::record_trails;
use atlas::trail::{Trail, TRAIL_CAPACITY};

#[test]
fn new_trail_is_empty() {
    let t: Trail<u32> = Trail::new();
    assert_eq!(t.len(), 0);
    assert!(t.points().is_empty());
}

#[test]
fn push_keeps_order_below_capacity() {
    let mut t = Trail::new();
    for p in 0..5u32 {
        t.push(p);
    }
    assert_eq!(t.points(), &[0, 1, 2, 3, 4]);
}

#[test]
fn push_fills_to_capacity_exactly() {
    let mut t = Trail::new();
    for p in 0..800u32 {
        t.push(p);
    }
    assert_eq!(t.len(), 800);
    assert_eq!(t.points()[0], 0);
    assert_eq!(t.points()[799], 799);
}

#[test]
fn push_beyond_capacity_drops_oldest() {
    let mut t = Trail::new();
    for p in 0..801u32 {
        t.push(p);
    }
    assert_eq!(t.len(), TRAIL_CAPACITY);
    assert_eq!(t.points()[0], 1);
    assert_eq!(t.points()[799], 800);
}

#[test]
fn trail_keeps_most_recent_window() {
    let mut t = Trail::new();
    for p in 0..2500u32 {
        t.push(p);
    }
    let expected: Vec<u32> = (1700..2500).collect();
    assert_eq!(t.points(), expected.as_slice());
}

#[test]
fn record_trails_skips_the_black_hole() {
    let mut trails: Vec<Trail<(i32, i32)>> = vec![Trail::new(), Trail::new(), Trail::new()];
    let positions = vec![(0, 0), (1, 2), (3, 4)];
    record_trails(&mut trails, &positions);
    record_trails(&mut trails, &vec![(9, 9), (5, 6), (7, 8)]);
    assert_eq!(trails[0].len(), 0);
    assert_eq!(trails[1].points(), &[(1, 2), (5, 6)]);
    assert_eq!(trails[2].points(), &[(3, 4), (7, 8)]);
}

#[test]
fn record_trails_leaves_extra_trails_alone() {
    let mut trails: Vec<Trail<u8>> = vec![Trail::new(), Trail::new(), Trail::new()];
    record_trails(&mut trails, &vec![1, 2]);
    assert_eq!(trails[0].len(), 0);
    assert_eq!(trails[1].points(), &[2]);
    assert_eq!(trails[2].len(), 0);
}
