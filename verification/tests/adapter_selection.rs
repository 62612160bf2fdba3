use vulkan_renderer::physical_device::{
    find_optimal_device, get_queue_family_indices, VPhysicalDeviceError,
    VPhysicalDeviceInformation, VSurfaceFormat, COLOR_SPACE_SRGB_NONLINEAR,
    DEVICE_TYPE_DISCRETE_GPU, DEVICE_TYPE_INTEGRATED_GPU, FORMAT_B8G8R8A8_SRGB,
    PRESENT_MODE_FIFO, PRESENT_MODE_MAILBOX,
};
use vulkan_renderer::queue_family::{VQueueFamily, QUEUE_FLAG_COMPUTE, QUEUE_FLAG_GRAPHICS};

fn info(
    device_type: u32,
    formats: Vec<VSurfaceFormat>,
    modes: Vec<u32>,
) -> VPhysicalDeviceInformation {
    VPhysicalDeviceInformation {
        device_type,
        queue_families: Vec::new(),
        surface_formats: formats,
        surface_present_modes: modes,
    }
}

fn optimal_format() -> VSurfaceFormat {
    VSurfaceFormat {
        format: FORMAT_B8G8R8A8_SRGB,
        color_space: COLOR_SPACE_SRGB_NONLINEAR,
    }
}

fn other_format() -> VSurfaceFormat {
    VSurfaceFormat {
        format: 44,
        color_space: 7,
    }
}

#[test]
fn surface_format_prefers_the_optimal_one() {
    let adapter = info(
        DEVICE_TYPE_DISCRETE_GPU,
        vec![other_format(), optimal_format()],
        vec![],
    );
    assert_eq!(adapter.choose_surface_format(), optimal_format());
}

#[test]
fn surface_format_falls_back_to_first_reported() {
    let adapter = info(
        DEVICE_TYPE_DISCRETE_GPU,
        vec![other_format(), VSurfaceFormat { format: 50, color_space: 9 }],
        vec![],
    );
    assert_eq!(adapter.choose_surface_format(), other_format());
}

#[test]
fn present_mode_prefers_mailbox_else_fifo() {
    let with_mailbox = info(0, vec![optimal_format()], vec![0, PRESENT_MODE_MAILBOX]);
    assert_eq!(with_mailbox.choose_present_mode(), PRESENT_MODE_MAILBOX);
    let without = info(0, vec![optimal_format()], vec![0, PRESENT_MODE_FIFO, 3]);
    assert_eq!(without.choose_present_mode(), PRESENT_MODE_FIFO);
}

#[test]
fn rating_scores_type_format_and_present_mode() {
    let best = info(
        DEVICE_TYPE_DISCRETE_GPU,
        vec![optimal_format()],
        vec![PRESENT_MODE_MAILBOX],
    );
    assert_eq!(best.rate_device(), 300);

    let integrated = info(
        DEVICE_TYPE_INTEGRATED_GPU,
        vec![other_format()],
        vec![PRESENT_MODE_FIFO],
    );
    assert_eq!(integrated.rate_device(), 25 + 25 + 25);

    let other = info(0, vec![other_format()], vec![]);
    assert_eq!(other.rate_device(), 0 + 25 + 25);
}

#[test]
fn best_rated_adapter_wins_and_ties_go_to_the_last() {
    let low = info(0, vec![other_format()], vec![]);
    let high_a = info(
        DEVICE_TYPE_DISCRETE_GPU,
        vec![optimal_format()],
        vec![PRESENT_MODE_MAILBOX],
    );
    let high_b = info(
        DEVICE_TYPE_DISCRETE_GPU,
        vec![optimal_format()],
        vec![PRESENT_MODE_MAILBOX],
    );
    assert_eq!(find_optimal_device(&vec![low.clone(), high_a.clone()]), Ok(1));
    assert_eq!(find_optimal_device(&vec![high_a, low, high_b]), Ok(2));
}

#[test]
fn no_adapter_is_a_deterministic_error() {
    let r = find_optimal_device(&Vec::new());
    assert_eq!(r, Err(VPhysicalDeviceError::SuitableDeviceNotFound));
    assert_eq!(
        VPhysicalDeviceError::SuitableDeviceNotFound.message(),
        "The system has no suitable physical devices."
    );
}

#[test]
fn queue_family_lookup_takes_earliest_capable_families() {
    let families = vec![
        VQueueFamily {
            queue_flags: QUEUE_FLAG_COMPUTE,
            supports_present: false,
        },
        VQueueFamily {
            queue_flags: QUEUE_FLAG_GRAPHICS | QUEUE_FLAG_COMPUTE,
            supports_present: true,
        },
    ];
    let indices = get_queue_family_indices(&families).unwrap();
    assert_eq!(indices.compute, 0);
    assert_eq!(indices.graphics, 1);
    assert_eq!(indices.present, 1);
}

#[test]
fn missing_queue_class_is_an_incompatibility_error() {
    // No graphics-capable family.
    let families = vec![VQueueFamily {
        queue_flags: QUEUE_FLAG_COMPUTE,
        supports_present: true,
    }];
    let r = get_queue_family_indices(&families);
    assert_eq!(r, Err(VPhysicalDeviceError::IncompatibleQueueFamilies));
    assert_eq!(
        VPhysicalDeviceError::IncompatibleQueueFamilies.message(),
        "Failed to find compatible queue families"
    );
    // No presenting family.
    let families = vec![VQueueFamily {
        queue_flags: QUEUE_FLAG_GRAPHICS | QUEUE_FLAG_COMPUTE,
        supports_present: false,
    }];
    assert_eq!(
        get_queue_family_indices(&families),
        Err(VPhysicalDeviceError::IncompatibleQueueFamilies)
    );
}
