use rusty_duplication::PointerShapeManager;

#[test]
fn starts_empty() {
    let m = PointerShapeManager::new();
    assert_eq!(m.current_shape(), &[] as &[u8]);
}

#[test]
fn prepare_grows_and_never_shrinks() {
    let mut m = PointerShapeManager::new();
    m.prepare(8);
    assert_eq!(m.spare.len(), 8);
    m.prepare(3);
    assert_eq!(m.spare.len(), 8);
    m.prepare(11);
    assert_eq!(m.spare.len(), 11);
}

#[test]
fn first_shape_counts_as_changed() {
    let mut m = PointerShapeManager::new();
    m.prepare(4);
    m.spare[..4].copy_from_slice(&[1, 2, 3, 4]);
    assert!(m.commit(4));
    assert_eq!(m.current_shape(), &[1, 2, 3, 4]);
}

#[test]
fn identical_shape_is_not_a_change() {
    let mut m = PointerShapeManager::new();
    m.prepare(4);
    m.spare[..4].copy_from_slice(&[1, 2, 3, 4]);
    assert!(m.commit(4));

    // the same bytes arrive again, written into the swapped-in spare slot
    m.prepare(4);
    m.spare[..4].copy_from_slice(&[1, 2, 3, 4]);
    assert!(!m.commit(4));
    assert_eq!(m.current_shape(), &[1, 2, 3, 4]);
}

#[test]
fn different_bytes_are_a_change() {
    let mut m = PointerShapeManager::new();
    m.prepare(4);
    m.spare[..4].copy_from_slice(&[1, 2, 3, 4]);
    m.commit(4);

    m.prepare(4);
    m.spare[..4].copy_from_slice(&[1, 2, 9, 4]);
    assert!(m.commit(4));
    assert_eq!(m.current_shape(), &[1, 2, 9, 4]);
}

#[test]
fn different_size_is_a_change() {
    let mut m = PointerShapeManager::new();
    m.prepare(4);
    m.spare[..4].copy_from_slice(&[1, 2, 3, 4]);
    m.commit(4);

    m.prepare(3);
    m.spare[..3].copy_from_slice(&[1, 2, 3]);
    assert!(m.commit(3));
    assert_eq!(m.current_shape(), &[1, 2, 3]);
}

#[test]
fn previous_shape_is_retained_for_comparison() {
    let mut m = PointerShapeManager::new();
    m.prepare(2);
    m.spare[..2].copy_from_slice(&[7, 8]);
    m.commit(2);

    m.prepare(2);
    m.spare[..2].copy_from_slice(&[9, 9]);
    m.commit(2);

    // the retired shape sits in the spare slot, with its recorded size
    assert_eq!(m.current_shape(), &[9, 9]);
    assert_eq!(m.spare_size, 2);
    assert_eq!(&m.spare[..m.spare_size], &[7, 8]);
}
