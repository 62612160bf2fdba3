//! The swapchain model: how the presentable-image chain is sized and
//! configured, and how the current image index is tracked between
//! acquire and present.

use vstd::prelude::*;

verus! {

/// The identity surface pre-transform.
pub const SURFACE_TRANSFORM_IDENTITY: u32 = 0x1;

/// Why a swapchain operation failed.
#[derive(Debug, Clone, Copy, PartialEq, Eq, Structural)]
pub enum VSwapchainError {
    /// The driver reported an image index at or beyond the image count;
    /// the index is rejected rather than used to address the
    /// framebuffer array.
    ImageIndexOutOfRange,
}

/// Picks the number of swapchain images: one more than the supported
/// minimum for headroom, capped at the supported maximum when the
/// surface reports one (zero means unbounded).
pub fn select_image_count(min_image_count: u32, max_image_count: u32) -> (r: u32)
    requires
        min_image_count < u32::MAX,
    ensures
        r == if max_image_count > 0 && min_image_count + 1 > max_image_count {
            max_image_count as int
        } else {
            min_image_count + 1
        },
{
    let desired_image_count = min_image_count + 1;
    if max_image_count > 0 && desired_image_count > max_image_count {
        max_image_count
    } else {
        desired_image_count
    }
}

/// Picks the surface pre-transform: identity when the surface supports
/// it, else whatever transform the surface currently has.
pub fn select_pre_transform(supported_transforms: u32, current_transform: u32) -> (r: u32)
    ensures
        supported_transforms & SURFACE_TRANSFORM_IDENTITY == SURFACE_TRANSFORM_IDENTITY ==> r
            == SURFACE_TRANSFORM_IDENTITY,
        supported_transforms & SURFACE_TRANSFORM_IDENTITY != SURFACE_TRANSFORM_IDENTITY ==> r
            == current_transform,
{
    if supported_transforms & SURFACE_TRANSFORM_IDENTITY == SURFACE_TRANSFORM_IDENTITY {
        SURFACE_TRANSFORM_IDENTITY
    } else {
        current_transform
    }
}

/// The presentable-image chain as the frame loop sees it: one view and
/// one framebuffer per image, and the index of the most recently
/// acquired image. Image views and framebuffers are carried as opaque
/// driver handles.
#[derive(Debug, Clone, PartialEq, Eq)]
pub struct VSwapchain {
    /// One view handle per presentable image.
    pub image_views: Vec<u64>,
    /// One framebuffer handle per presentable image.
    pub framebuffers: Vec<u64>,
    /// The index of the most recently acquired image.
    pub image_index: usize,
}

impl VSwapchain {
    /// The chain is well formed: it has at least one image, one view and
    /// one framebuffer per image, and the current index addresses an
    /// image.
    pub open spec fn wf(self) -> bool {
        &&& self.image_views@.len() > 0
        &&& self.framebuffers@.len() == self.image_views@.len()
        &&& self.image_index < self.image_views@.len()
    }

    /// The number of presentable images.
    pub open spec fn spec_image_count(self) -> int {
        self.image_views@.len() as int
    }

    /// The views, one per image.
    pub open spec fn spec_image_views(self) -> Seq<u64> {
        self.image_views@
    }

    /// The framebuffers, one per image.
    pub open spec fn spec_framebuffers(self) -> Seq<u64> {
        self.framebuffers@
    }

    /// The index of the most recently acquired image.
    pub open spec fn spec_image_index(self) -> int {
        self.image_index as int
    }

    /// A successful acquire: the driver handed back `image_index`, which
    /// addresses an image, and only the current index changed.
    pub open spec fn acquired(pre: Self, post: Self, image_index: u32) -> bool {
        &&& image_index < pre.image_views@.len()
        &&& post.image_views@ == pre.image_views@
        &&& post.framebuffers@ == pre.framebuffers@
        &&& post.image_index == image_index as int
    }

    /// Builds the chain from one view and one framebuffer per image,
    /// with the current index starting at the first image.
    pub fn new(image_views: Vec<u64>, framebuffers: Vec<u64>) -> (r: Self)
        requires
            image_views@.len() > 0,
            framebuffers@.len() == image_views@.len(),
        ensures
            r.wf(),
            r.spec_image_views() == image_views@,
            r.spec_framebuffers() == framebuffers@,
            r.spec_image_index() == 0,
    {
        Self { image_views, framebuffers, image_index: 0 }
    }

    /// The number of presentable images.
    pub fn image_count(&self) -> (r: usize)
        ensures
            r == self.spec_image_count(),
    {
        self.image_views.len()
    }

    /// Records the image index the driver handed back from an acquire.
    ///
    /// An index within the image chain becomes the current index; an
    /// index at or beyond the image count is rejected and changes
    /// nothing, so later framebuffer lookups stay in bounds whatever the
    /// driver reported.
    pub fn acquire_next_image(&mut self, image_index: u32) -> (r: Result<(), VSwapchainError>)
        requires
            old(self).wf(),
        ensures
            final(self).wf(),
            image_index < old(self).spec_image_count() ==> r is Ok && Self::acquired(
                *old(self),
                *final(self),
                image_index,
            ),
            image_index >= old(self).spec_image_count() ==> r
                == Result::<(), VSwapchainError>::Err(VSwapchainError::ImageIndexOutOfRange)
                && *final(self) == *old(self),
    {
        if (image_index as usize) < self.image_views.len() {
            self.image_index = image_index as usize;
            Ok(())
        } else {
            Err(VSwapchainError::ImageIndexOutOfRange)
        }
    }

    /// The view of the most recently acquired image.
    pub fn get_current_image_view(&self) -> (r: u64)
        requires
            self.wf(),
        ensures
            r == self.spec_image_views()[self.spec_image_index()],
    {
        self.image_views[self.image_index]
    }

    /// The framebuffer bound to the most recently acquired image.
    pub fn get_current_framebuffer(&self) -> (r: u64)
        requires
            self.wf(),
        ensures
            r == self.spec_framebuffers()[self.spec_image_index()],
    {
        self.framebuffers[self.image_index]
    }

    /// All image views, in image order.
    pub fn get_image_views(&self) -> (r: &Vec<u64>)
        ensures
            r@ == self.spec_image_views(),
    {
        &self.image_views
    }

    /// The image index a present call would hand to the driver.
    pub fn get_image_index(&self) -> (r: usize)
        ensures
            r == self.spec_image_index(),
    {
        self.image_index
    }
}

/// Two acquires in a row, with no present between them, leave the chain
/// addressing a valid image: after both, the current index is within
/// the image count, so indexing the framebuffer array stays in bounds.
pub proof fn lemma_acquire_twice_stays_valid(
    s0: VSwapchain,
    s1: VSwapchain,
    s2: VSwapchain,
    first_index: u32,
    second_index: u32,
)
    requires
        s0.wf(),
        VSwapchain::acquired(s0, s1, first_index),
        VSwapchain::acquired(s1, s2, second_index),
    ensures
        s1.wf(),
        s2.wf(),
        0 <= s2.spec_image_index() < s2.spec_image_count(),
        0 <= s2.spec_image_index() < s2.spec_framebuffers().len(),
{
}

} // verus!
