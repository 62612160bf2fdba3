use vulkan_renderer::memory::{
    find_memory_type_index, VMemoryError, MEMORY_PROPERTY_DEVICE_LOCAL,
    MEMORY_PROPERTY_HOST_COHERENT, MEMORY_PROPERTY_HOST_VISIBLE,
};

#[test]
fn picks_lowest_index_satisfying_mask_and_flags() {
    let host = MEMORY_PROPERTY_HOST_VISIBLE | MEMORY_PROPERTY_HOST_COHERENT;
    let types = vec![
        MEMORY_PROPERTY_DEVICE_LOCAL,
        host,
        host,
        MEMORY_PROPERTY_DEVICE_LOCAL | host,
    ];
    // All types admitted by the mask: the lowest host-capable index wins.
    assert_eq!(find_memory_type_index(&types, 0b1111, host), Ok(1));
    // The mask rules out index 1: the next qualifying index wins.
    assert_eq!(find_memory_type_index(&types, 0b1101, host), Ok(2));
    // Only index 3 admitted.
    assert_eq!(find_memory_type_index(&types, 0b1000, host), Ok(3));
}

#[test]
fn requires_flag_superset_not_overlap() {
    let types = vec![MEMORY_PROPERTY_HOST_VISIBLE];
    let both = MEMORY_PROPERTY_HOST_VISIBLE | MEMORY_PROPERTY_HOST_COHERENT;
    // A type with only part of the requested flags never qualifies.
    assert_eq!(
        find_memory_type_index(&types, 0b1, both),
        Err(VMemoryError::NoSuitableMemoryType)
    );
}

#[test]
fn fails_deterministically_when_nothing_qualifies() {
    let types = vec![MEMORY_PROPERTY_DEVICE_LOCAL, MEMORY_PROPERTY_DEVICE_LOCAL];
    // Flags unavailable anywhere.
    assert_eq!(
        find_memory_type_index(&types, 0b11, MEMORY_PROPERTY_HOST_VISIBLE),
        Err(VMemoryError::NoSuitableMemoryType)
    );
    // Mask admits nothing.
    assert_eq!(
        find_memory_type_index(&types, 0, MEMORY_PROPERTY_DEVICE_LOCAL),
        Err(VMemoryError::NoSuitableMemoryType)
    );
    // Empty table.
    assert_eq!(
        find_memory_type_index(&Vec::new(), 0xffff_ffff, 0),
        Err(VMemoryError::NoSuitableMemoryType)
    );
}
