use kero_spr::projection::{projection, Projection};

#[test]
fn touching_projections_do_not_overlap() {
    let a = Projection::new(0, 10);
    let b = Projection::new(10, 20);
    assert!(!a.overlaps(b));
    assert_eq!(a.overlap(b), None);
}

#[test]
fn overlapping_projections() {
    let a = projection(0, 10);
    let b = projection(5, 15);
    assert!(a.overlaps(b));
    assert_eq!(a.overlap(b), Some(5));
    assert_eq!(b.overlap(a), Some(15));
    let c = projection(-3, 2);
    assert_eq!(a.overlap(c), Some(13));
    assert_eq!(c.overlap(a), Some(2));
}

#[test]
fn contains_and_len() {
    let a = projection(-4, 6);
    assert!(a.contains(-4));
    assert!(a.contains(6));
    assert!(!a.contains(7));
    assert_eq!(a.len(), 10);
}
