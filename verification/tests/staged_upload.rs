use vulkan_renderer::buffer::{VBuffer, VBufferKind};

#[test]
fn staged_upload_round_trips_vertex_bytes() {
    // Three vertices of four floats each: twelve floats, 48 bytes.
    let floats: [f32; 12] = [
        0.0, -0.5, 0.0, 1.0, 0.5, 0.5, 0.0, 1.0, -0.5, 0.5, 0.0, 1.0,
    ];
    let mut data: Vec<u8> = Vec::new();
    for f in floats {
        data.extend_from_slice(&f.to_le_bytes());
    }
    let buffer = VBuffer::new_device_local_buffer(&data);
    assert_eq!(buffer.read_back(), data);
    assert_eq!(buffer.len(), 48);
}

#[test]
fn staged_upload_round_trips_empty_and_odd_sizes() {
    for data in [vec![], vec![7u8], vec![1, 2, 3, 4, 5]] {
        let buffer = VBuffer::new_device_local_buffer(&data);
        assert_eq!(buffer.read_back(), data);
    }
}

#[test]
fn mapped_buffer_holds_its_data_immediately() {
    let data = vec![9u8, 8, 7];
    let buffer = VBuffer::new_mapped(&data);
    assert_eq!(buffer.read_back(), data);
}

#[test]
fn map_memory_overwrites_prefix_only() {
    let mut buffer = VBuffer::new_uniform_buffer(6);
    buffer.map_memory(&vec![1, 2, 3, 4, 5, 6]);
    buffer.map_memory(&vec![9, 9]);
    assert_eq!(buffer.read_back(), vec![9, 9, 3, 4, 5, 6]);
}

#[test]
fn map_padded_memory_writes_at_offset() {
    let mut buffer = VBuffer::new_uniform_buffer(8);
    buffer.map_padded_memory(&vec![5, 6], 3);
    assert_eq!(buffer.read_back(), vec![0, 0, 0, 5, 6, 0, 0, 0]);
}

#[test]
fn uniform_slots_land_at_frame_index_times_stride() {
    // Three frame slots, stride 4, payload 2 bytes each.
    let mut region = VBuffer::new_uniform_buffer(12);
    region.write_uniform_slot(&vec![0xaa, 0xab], 0, 4);
    region.write_uniform_slot(&vec![0xba, 0xbb], 1, 4);
    region.write_uniform_slot(&vec![0xca, 0xcb], 2, 4);
    assert_eq!(
        region.read_back(),
        vec![0xaa, 0xab, 0, 0, 0xba, 0xbb, 0, 0, 0xca, 0xcb, 0, 0]
    );
    // Rewriting one slot leaves the others.
    region.write_uniform_slot(&vec![0x11, 0x12], 1, 4);
    assert_eq!(
        region.read_back(),
        vec![0xaa, 0xab, 0, 0, 0x11, 0x12, 0, 0, 0xca, 0xcb, 0, 0]
    );
}

#[test]
fn buffer_kinds_match_their_constructors() {
    let mapped = VBuffer::new_mapped(&vec![1]);
    let local = VBuffer::new_device_local_buffer(&vec![1]);
    // The two variants behave differently: only the mapped one is
    // host-writable, which the types of the write operations encode.
    assert_eq!(mapped.read_back(), local.read_back());
    let _ = VBufferKind::Mapped;
    let _ = VBufferKind::DeviceLocal;
}
