use vulkan_renderer::utils::pad_uniform_buffer_size;

#[test]
fn pads_176_to_256() {
    assert_eq!(pad_uniform_buffer_size(176, 256), 256);
}

#[test]
fn padded_size_is_at_least_size_and_aligned() {
    for &(size, alignment) in &[(1usize, 64u64), (63, 64), (64, 64), (65, 64), (176, 256), (300, 16), (1, 1)] {
        let padded = pad_uniform_buffer_size(size, alignment);
        assert!(padded >= size as u64);
        assert_eq!(padded % alignment, 0);
        assert!(padded < size as u64 + alignment);
    }
}

#[test]
fn padding_is_idempotent_once_aligned() {
    for &(size, alignment) in &[(176usize, 256u64), (13, 32), (4096, 4096), (4097, 4096)] {
        let once = pad_uniform_buffer_size(size, alignment);
        let twice = pad_uniform_buffer_size(once as usize, alignment);
        assert_eq!(once, twice);
    }
}

#[test]
fn zero_alignment_leaves_size_untouched() {
    assert_eq!(pad_uniform_buffer_size(176, 0), 176);
    assert_eq!(pad_uniform_buffer_size(0, 0), 0);
}
