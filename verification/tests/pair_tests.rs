use anim_pipeline::ConfigError;
use anim_pipeline::resource_pair::ResourcePair;

#[test]
fn pair_allocate_rejects_bad_configuration() {
    assert!(matches!(
        ResourcePair::<u64>::allocate(0, 12),
        Err(ConfigError::ZeroCapacity)
    ));
    assert!(matches!(
        ResourcePair::<u64>::allocate(4, 0),
        Err(ConfigError::ZeroRecordSize)
    ));
    assert!(matches!(
        ResourcePair::<u64>::allocate(usize::MAX / 2, 3),
        Err(ConfigError::CapacityTooLarge)
    ));
}

#[test]
fn pair_capacity_boundary() {
    // A populate of exactly the allocated capacity succeeds; one more record
    // is rejected and leaves the pair untouched.
    let mut pair = ResourcePair::<u32>::allocate(4, 4).unwrap();
    assert_eq!(pair.capacity(), 4);
    assert_eq!(pair.byte_capacity(), 16);
    assert!(!pair.is_populated());

    let full = vec![10, 11, 12, 13];
    assert_eq!(pair.populate(full.clone(), full.clone()), Ok(()));
    assert!(pair.is_populated());
    assert_eq!(pair.current_count(), 4);
    assert_eq!(pair.target_count(), 4);

    let over = vec![0, 1, 2, 3, 4];
    let err = pair.populate(full.clone(), over).unwrap_err();
    assert_eq!(err.capacity, 4);
    assert_eq!(err.requested, 5);
    // The failed write was not attempted: the previous contents stand.
    assert_eq!(pair.current_count(), 4);
    assert_eq!(pair.target_count(), 4);
    assert!(pair.is_populated());
}

#[test]
fn pair_populate_replaces_both_buffers() {
    let mut pair = ResourcePair::<u8>::allocate(8, 1).unwrap();
    assert_eq!(pair.populate(vec![1, 2, 3], vec![4, 5]), Ok(()));
    assert_eq!(pair.current_count(), 3);
    assert_eq!(pair.target_count(), 2);
    assert_eq!(pair.populate(vec![9], vec![7, 8, 9, 10]), Ok(()));
    assert_eq!(pair.current_count(), 1);
    assert_eq!(pair.target_count(), 4);
}

#[test]
fn pair_oversized_current_reports_its_length() {
    let mut pair = ResourcePair::<u8>::allocate(2, 1).unwrap();
    let err = pair.populate(vec![1, 2, 3, 4], vec![1]).unwrap_err();
    assert_eq!(err.capacity, 2);
    assert_eq!(err.requested, 4);
    assert!(!pair.is_populated());
}
