//! Physical-adapter selection: rating adapters, choosing a surface
//! format and present mode, and checking that an adapter exposes the
//! queue families the renderer needs.

use crate::queue_family::{
    is_compute_family, is_graphics_family, is_present_family, VQueueFamily, VQueueFamilyIndices,
};
use vstd::prelude::*;

verus! {

/// The adapter is a discrete GPU.
pub const DEVICE_TYPE_DISCRETE_GPU: u32 = 2;

/// The adapter is a GPU integrated with the CPU.
pub const DEVICE_TYPE_INTEGRATED_GPU: u32 = 1;

/// The preferred surface pixel format (8-bit BGRA, sRGB-encoded).
pub const FORMAT_B8G8R8A8_SRGB: u32 = 50;

/// The preferred surface color space (non-linear sRGB).
pub const COLOR_SPACE_SRGB_NONLINEAR: u32 = 0;

/// Low-latency triple-buffered presentation.
pub const PRESENT_MODE_MAILBOX: u32 = 1;

/// Vsync-bound presentation; always supported.
pub const PRESENT_MODE_FIFO: u32 = 2;

/// Why adapter selection failed. Both are environment errors: the
/// running machine cannot satisfy the renderer's requirements, so they
/// are fatal and never retried.
#[derive(Debug, Clone, Copy, PartialEq, Eq, Structural)]
pub enum VPhysicalDeviceError {
    /// No adapter is available at all.
    SuitableDeviceNotFound,
    /// No adapter family combination covers graphics, compute and
    /// presentation.
    IncompatibleQueueFamilies,
}

impl VPhysicalDeviceError {
    /// The diagnostic text for this error.
    pub open spec fn spec_message(self) -> Seq<char> {
        match self {
            VPhysicalDeviceError::SuitableDeviceNotFound
                => "The system has no suitable physical devices."@,
            VPhysicalDeviceError::IncompatibleQueueFamilies
                => "Failed to find compatible queue families"@,
        }
    }

    /// A diagnostic naming the failed requirement.
    pub fn message(&self) -> (r: &'static str)
        ensures
            r@ == self.spec_message(),
    {
        match self {
            VPhysicalDeviceError::SuitableDeviceNotFound
                => "The system has no suitable physical devices.",
            VPhysicalDeviceError::IncompatibleQueueFamilies
                => "Failed to find compatible queue families",
        }
    }
}

/// One supported combination of surface pixel format and color space.
#[derive(Debug, Clone, Copy, PartialEq, Eq, Structural)]
pub struct VSurfaceFormat {
    pub format: u32,
    pub color_space: u32,
}

/// The per-adapter data that the rating and selection logic reads.
#[derive(Debug, Clone, PartialEq, Eq)]
pub struct VPhysicalDeviceInformation {
    /// The adapter's device type ([`DEVICE_TYPE_DISCRETE_GPU`], ...).
    pub device_type: u32,
    /// The adapter's queue-family table.
    pub queue_families: Vec<VQueueFamily>,
    /// The surface formats the adapter supports, in reported order.
    pub surface_formats: Vec<VSurfaceFormat>,
    /// The present modes the adapter supports, in reported order.
    pub surface_present_modes: Vec<u32>,
}

/// The format the renderer prefers: sRGB BGRA in the sRGB color space.
pub open spec fn is_optimal_surface_format(f: VSurfaceFormat) -> bool {
    f.format == FORMAT_B8G8R8A8_SRGB && f.color_space == COLOR_SPACE_SRGB_NONLINEAR
}

/// Score for the adapter's device type: discrete GPUs first, then
/// integrated ones, then everything else.
pub open spec fn spec_type_score(device_type: u32) -> int {
    if device_type == DEVICE_TYPE_DISCRETE_GPU {
        100
    } else if device_type == DEVICE_TYPE_INTEGRATED_GPU {
        25
    } else {
        0
    }
}

/// Score for the surface formats: full marks exactly when the preferred
/// format is available (the chosen format is then the preferred one).
pub open spec fn spec_format_score(formats: Seq<VSurfaceFormat>) -> int {
    if exists|i: int| 0 <= i < formats.len() && is_optimal_surface_format(formats[i]) {
        100
    } else {
        25
    }
}

/// Score for the present modes: full marks exactly when low-latency
/// mailbox presentation is available, else the vsync-bound fallback.
pub open spec fn spec_present_mode_score(modes: Seq<u32>) -> int {
    if modes.contains(PRESENT_MODE_MAILBOX) {
        100
    } else {
        25
    }
}

/// The adapter's total score.
pub open spec fn spec_rate_device(info: VPhysicalDeviceInformation) -> int {
    spec_type_score(info.device_type) + spec_format_score(info.surface_formats@)
        + spec_present_mode_score(info.surface_present_modes@)
}

impl VPhysicalDeviceInformation {
    /// Picks the surface format: the first reported format matching the
    /// preferred format and color space, or the first reported format
    /// when the preferred one is absent.
    pub fn choose_surface_format(&self) -> (r: VSurfaceFormat)
        requires
            self.surface_formats@.len() > 0,
        ensures
            (exists|i: int|
                0 <= i < self.surface_formats@.len() && is_optimal_surface_format(
                    self.surface_formats@[i],
                )) ==> exists|i: int|
                {
                    &&& 0 <= i < self.surface_formats@.len()
                    &&& r == self.surface_formats@[i]
                    &&& is_optimal_surface_format(self.surface_formats@[i])
                    &&& forall|j: int|
                        0 <= j < i ==> !is_optimal_surface_format(self.surface_formats@[j])
                },
            !(exists|i: int|
                0 <= i < self.surface_formats@.len() && is_optimal_surface_format(
                    self.surface_formats@[i],
                )) ==> r == self.surface_formats@[0],
    {
        let n = self.surface_formats.len();
        let mut ind: usize = 0;
        while ind < n
            invariant
                n == self.surface_formats@.len(),
                ind <= n,
                forall|j: int|
                    0 <= j < ind ==> !is_optimal_surface_format(self.surface_formats@[j]),
            decreases n - ind,
        {
            let f = self.surface_formats[ind];
            if f.format == FORMAT_B8G8R8A8_SRGB && f.color_space == COLOR_SPACE_SRGB_NONLINEAR {
                proof {
                    assert(is_optimal_surface_format(self.surface_formats@[ind as int]));
                }
                return f;
            }
            ind = ind + 1;
        }
        self.surface_formats[0]
    }

    /// Picks the present mode: mailbox when the adapter offers it, else
    /// the always-supported vsync-bound mode.
    pub fn choose_present_mode(&self) -> (r: u32)
        ensures
            self.surface_present_modes@.contains(PRESENT_MODE_MAILBOX) ==> r
                == PRESENT_MODE_MAILBOX,
            !self.surface_present_modes@.contains(PRESENT_MODE_MAILBOX) ==> r == PRESENT_MODE_FIFO,
    {
        let n = self.surface_present_modes.len();
        let mut ind: usize = 0;
        while ind < n
            invariant
                n == self.surface_present_modes@.len(),
                ind <= n,
                forall|j: int| 0 <= j < ind ==> self.surface_present_modes@[j]
                    != PRESENT_MODE_MAILBOX,
            decreases n - ind,
        {
            if self.surface_present_modes[ind] == PRESENT_MODE_MAILBOX {
                proof {
                    assert(self.surface_present_modes@[ind as int] == PRESENT_MODE_MAILBOX);
                }
                return PRESENT_MODE_MAILBOX;
            }
            ind = ind + 1;
        }
        proof {
            assert forall|i: int|
                0 <= i < self.surface_present_modes@.len() implies self.surface_present_modes@[i]
                != PRESENT_MODE_MAILBOX by {}
        }
        PRESENT_MODE_FIFO
    }

    /// Rates the adapter: device type, surface-format support and
    /// present-mode support each contribute their score.
    pub fn rate_device(&self) -> (r: usize)
        requires
            self.surface_formats@.len() > 0,
        ensures
            r == spec_rate_device(*self),
    {
        let type_score: usize = if self.device_type == DEVICE_TYPE_DISCRETE_GPU {
            100
        } else if self.device_type == DEVICE_TYPE_INTEGRATED_GPU {
            25
        } else {
            0
        };

        let chosen_format = self.choose_surface_format();
        let format_score: usize = if chosen_format.format == FORMAT_B8G8R8A8_SRGB
            && chosen_format.color_space == COLOR_SPACE_SRGB_NONLINEAR {
            100
        } else {
            25
        };

        let chosen_mode = self.choose_present_mode();
        let present_mode_score: usize = if chosen_mode == PRESENT_MODE_MAILBOX {
            100
        } else {
            25
        };

        type_score + format_score + present_mode_score
    }
}

/// Picks the best-rated adapter: the index of the adapter with the
/// highest score, the last one when several tie. Reports
/// [`VPhysicalDeviceError::SuitableDeviceNotFound`] exactly when no
/// adapter is available.
pub fn find_optimal_device(devices: &Vec<VPhysicalDeviceInformation>) -> (r: Result<
    usize,
    VPhysicalDeviceError,
>)
    requires
        forall|i: int| 0 <= i < devices@.len() ==> devices@[i].surface_formats@.len() > 0,
    ensures
        match r {
            Ok(i) => {
                &&& devices@.len() > 0
                &&& 0 <= i < devices@.len()
                &&& forall|j: int|
                    0 <= j < devices@.len() ==> spec_rate_device(devices@[j]) <= spec_rate_device(
                        devices@[i as int],
                    )
                &&& forall|j: int|
                    i < j < devices@.len() ==> spec_rate_device(devices@[j]) < spec_rate_device(
                        devices@[i as int],
                    )
            },
            Err(e) => {
                &&& devices@.len() == 0
                &&& e == VPhysicalDeviceError::SuitableDeviceNotFound
            },
        },
{
    let n = devices.len();
    if n == 0 {
        return Err(VPhysicalDeviceError::SuitableDeviceNotFound);
    }
    let mut best: usize = 0;
    let mut best_score: usize = devices[0].rate_device();
    let mut ind: usize = 1;
    while ind < n
        invariant
            n == devices@.len(),
            1 <= ind <= n,
            0 <= best < ind,
            forall|i: int| 0 <= i < devices@.len() ==> devices@[i].surface_formats@.len() > 0,
            best_score == spec_rate_device(devices@[best as int]),
            forall|j: int| 0 <= j < ind ==> spec_rate_device(devices@[j]) <= best_score,
            forall|j: int| best < j < ind ==> spec_rate_device(devices@[j]) < best_score,
        decreases n - ind,
    {
        let score = devices[ind].rate_device();
        if score >= best_score {
            best = ind;
            best_score = score;
        }
        ind = ind + 1;
    }
    Ok(best)
}

/// Derives the per-class queue-family indices as the earliest capable
/// family for each class, and fails with
/// [`VPhysicalDeviceError::IncompatibleQueueFamilies`] exactly when some
/// class has no capable family.
pub fn get_queue_family_indices(families: &Vec<VQueueFamily>) -> (r: Result<
    VQueueFamilyIndices,
    VPhysicalDeviceError,
>)
    requires
        families@.len() <= u32::MAX,
    ensures
        match r {
            Ok(indices) => {
                &&& is_present_family(families@, indices.present as int)
                &&& forall|j: int| 0 <= j < indices.present ==> !is_present_family(families@, j)
                &&& is_compute_family(families@, indices.compute as int)
                &&& forall|j: int| 0 <= j < indices.compute ==> !is_compute_family(families@, j)
                &&& is_graphics_family(families@, indices.graphics as int)
                &&& forall|j: int| 0 <= j < indices.graphics ==> !is_graphics_family(families@, j)
            },
            Err(e) => {
                &&& e == VPhysicalDeviceError::IncompatibleQueueFamilies
                &&& {
                    ||| !(exists|i: int| is_present_family(families@, i))
                    ||| !(exists|i: int| is_compute_family(families@, i))
                    ||| !(exists|i: int| is_graphics_family(families@, i))
                }
            },
        },
        r is Ok <==> ((exists|i: int| is_present_family(families@, i)) && (exists|i: int|
            is_compute_family(families@, i)) && (exists|i: int| is_graphics_family(families@, i))),
{
    let n = families.len();

    let mut present: usize = 0;
    let mut found_present = false;
    while present < n && !found_present
        invariant
            n == families@.len() <= u32::MAX,
            present <= n,
            !found_present ==> forall|j: int| 0 <= j < present ==> !is_present_family(families@, j),
            found_present ==> is_present_family(families@, present as int) && forall|j: int|
                0 <= j < present ==> !is_present_family(families@, j),
        decreases n - present + (if found_present { 0int } else { 1int }),
    {
        if families[present].supports_present {
            proof {
                assert(is_present_family(families@, present as int));
            }
            found_present = true;
        } else {
            proof {
                assert(!is_present_family(families@, present as int));
            }
            present = present + 1;
        }
    }
    if !found_present {
        return Err(VPhysicalDeviceError::IncompatibleQueueFamilies);
    }

    let mut compute: usize = 0;
    let mut found_compute = false;
    while compute < n && !found_compute
        invariant
            n == families@.len() <= u32::MAX,
            compute <= n,
            !found_compute ==> forall|j: int| 0 <= j < compute ==> !is_compute_family(families@, j),
            found_compute ==> is_compute_family(families@, compute as int) && forall|j: int|
                0 <= j < compute ==> !is_compute_family(families@, j),
        decreases n - compute + (if found_compute { 0int } else { 1int }),
    {
        if families[compute].queue_flags & crate::queue_family::QUEUE_FLAG_COMPUTE
            == crate::queue_family::QUEUE_FLAG_COMPUTE {
            proof {
                assert(is_compute_family(families@, compute as int));
            }
            found_compute = true;
        } else {
            proof {
                assert(!is_compute_family(families@, compute as int));
            }
            compute = compute + 1;
        }
    }
    if !found_compute {
        return Err(VPhysicalDeviceError::IncompatibleQueueFamilies);
    }

    let mut graphics: usize = 0;
    let mut found_graphics = false;
    while graphics < n && !found_graphics
        invariant
            n == families@.len() <= u32::MAX,
            graphics <= n,
            !found_graphics ==> forall|j: int|
                0 <= j < graphics ==> !is_graphics_family(families@, j),
            found_graphics ==> is_graphics_family(families@, graphics as int) && forall|j: int|
                0 <= j < graphics ==> !is_graphics_family(families@, j),
        decreases n - graphics + (if found_graphics { 0int } else { 1int }),
    {
        if families[graphics].queue_flags & crate::queue_family::QUEUE_FLAG_GRAPHICS
            == crate::queue_family::QUEUE_FLAG_GRAPHICS {
            proof {
                assert(is_graphics_family(families@, graphics as int));
            }
            found_graphics = true;
        } else {
            proof {
                assert(!is_graphics_family(families@, graphics as int));
            }
            graphics = graphics + 1;
        }
    }
    if !found_graphics {
        return Err(VPhysicalDeviceError::IncompatibleQueueFamilies);
    }

    Ok(
        VQueueFamilyIndices {
            present: present as u32,
            compute: compute as u32,
            graphics: graphics as u32,
        },
    )
}

} // verus!
