use vulkan_renderer::swapchain::{
    select_image_count, select_pre_transform, VSwapchain, VSwapchainError,
    SURFACE_TRANSFORM_IDENTITY,
};

#[test]
fn image_count_is_min_plus_one_capped_at_max() {
    assert_eq!(select_image_count(2, 0), 3); // no reported maximum
    assert_eq!(select_image_count(2, 8), 3);
    assert_eq!(select_image_count(2, 3), 3);
    assert_eq!(select_image_count(3, 3), 3); // capped
    assert_eq!(select_image_count(0, 1), 1);
}

#[test]
fn pre_transform_prefers_identity() {
    let current = 0x4;
    assert_eq!(
        select_pre_transform(SURFACE_TRANSFORM_IDENTITY | 0x4, current),
        SURFACE_TRANSFORM_IDENTITY
    );
    assert_eq!(select_pre_transform(0x4, current), current);
}

#[test]
fn acquire_twice_without_present_keeps_indices_valid() {
    let views = vec![101, 102, 103];
    let framebuffers = vec![201, 202, 203];
    let mut chain = VSwapchain::new(views, framebuffers);
    assert_eq!(chain.image_count(), 3);
    assert_eq!(chain.get_image_index(), 0);

    assert_eq!(chain.acquire_next_image(2), Ok(()));
    assert_eq!(chain.get_image_index(), 2);
    assert_eq!(chain.get_current_framebuffer(), 203);

    // A second acquire with no present in between: the index may repeat
    // or differ, and stays within [0, image_count).
    assert_eq!(chain.acquire_next_image(2), Ok(()));
    assert!(chain.get_image_index() < chain.image_count());
    assert_eq!(chain.get_current_framebuffer(), 203);

    assert_eq!(chain.acquire_next_image(0), Ok(()));
    assert!(chain.get_image_index() < chain.image_count());
    assert_eq!(chain.get_current_framebuffer(), 201);
    assert_eq!(chain.get_current_image_view(), 101);
}

#[test]
fn out_of_range_image_index_is_rejected_not_indexed() {
    let mut chain = VSwapchain::new(vec![11, 12], vec![21, 22]);
    assert_eq!(chain.acquire_next_image(1), Ok(()));
    // A driver-reported index at the image count must not be used to
    // address the framebuffer array.
    assert_eq!(
        chain.acquire_next_image(2),
        Err(VSwapchainError::ImageIndexOutOfRange)
    );
    // The chain still addresses the previously acquired image.
    assert_eq!(chain.get_image_index(), 1);
    assert_eq!(chain.get_current_framebuffer(), 22);
    assert_eq!(
        chain.acquire_next_image(u32::MAX),
        Err(VSwapchainError::ImageIndexOutOfRange)
    );
    assert_eq!(chain.get_current_framebuffer(), 22);
}

#[test]
fn image_views_are_kept_in_image_order() {
    let chain = VSwapchain::new(vec![5, 6, 7], vec![8, 9, 10]);
    assert_eq!(chain.get_image_views(), &vec![5, 6, 7]);
}
