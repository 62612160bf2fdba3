//! Queue families: which family of device queues services each class of
//! operation (graphics, compute, presentation), and how the three
//! indices are chosen from the device's reported family table.

use vstd::prelude::*;

verus! {

/// The family exposes graphics operations.
pub const QUEUE_FLAG_GRAPHICS: u32 = 0x1;

/// The family exposes compute operations.
pub const QUEUE_FLAG_COMPUTE: u32 = 0x2;

/// Sentinel for "no family chosen".
pub const QUEUE_FAMILY_NONE: u32 = 0xffff_ffffu32;

/// The three classes of queue operation the renderer distinguishes.
#[derive(Debug, Clone, Copy, PartialEq, Eq, Structural)]
pub enum VQueueType {
    Compute,
    Graphics,
    Present,
}

/// One entry of the device's queue-family table, reduced to what the
/// selection reads: the family's capability flags and whether it can
/// present to the target surface.
#[derive(Debug, Clone, Copy, PartialEq, Eq, Structural)]
pub struct VQueueFamily {
    /// Capability bits ([`QUEUE_FLAG_GRAPHICS`], [`QUEUE_FLAG_COMPUTE`], ...).
    pub queue_flags: u32,
    /// Whether presentation to the surface is supported from this family.
    pub supports_present: bool,
}

/// The chosen queue-family index per operation class;
/// [`QUEUE_FAMILY_NONE`] marks a class with no chosen family.
#[derive(Debug, Clone, Copy, PartialEq, Eq, Structural)]
pub struct VQueueFamilyIndices {
    pub compute: u32,
    pub graphics: u32,
    pub present: u32,
}

impl Default for VQueueFamilyIndices {
    /// Starts with no family chosen for any class.
    fn default() -> (r: Self)
        ensures
            r.compute == QUEUE_FAMILY_NONE,
            r.graphics == QUEUE_FAMILY_NONE,
            r.present == QUEUE_FAMILY_NONE,
    {
        Self { compute: QUEUE_FAMILY_NONE, graphics: QUEUE_FAMILY_NONE, present: QUEUE_FAMILY_NONE }
    }
}

impl VQueueFamilyIndices {
    /// The index stored for the given operation class.
    pub open spec fn spec_get(self, operation_type: VQueueType) -> u32 {
        match operation_type {
            VQueueType::Compute => self.compute,
            VQueueType::Graphics => self.graphics,
            VQueueType::Present => self.present,
        }
    }

    /// Looks up the family index that services the given operation class.
    pub fn get(&self, operation_type: VQueueType) -> (r: u32)
        ensures
            r == self.spec_get(operation_type),
    {
        match operation_type {
            VQueueType::Compute => self.compute,
            VQueueType::Graphics => self.graphics,
            VQueueType::Present => self.present,
        }
    }
}

/// Family `i` of the table exposes graphics operations.
pub open spec fn is_graphics_family(families: Seq<VQueueFamily>, i: int) -> bool {
    &&& 0 <= i < families.len()
    &&& families[i].queue_flags & QUEUE_FLAG_GRAPHICS == QUEUE_FLAG_GRAPHICS
}

/// Family `i` of the table exposes compute operations.
pub open spec fn is_compute_family(families: Seq<VQueueFamily>, i: int) -> bool {
    &&& 0 <= i < families.len()
    &&& families[i].queue_flags & QUEUE_FLAG_COMPUTE == QUEUE_FLAG_COMPUTE
}

/// Family `i` of the table can present to the surface.
pub open spec fn is_present_family(families: Seq<VQueueFamily>, i: int) -> bool {
    &&& 0 <= i < families.len()
    &&& families[i].supports_present
}

/// Family `i` both draws and presents: the preferred choice, since
/// graphics and presentation then share one queue.
pub open spec fn is_graphics_present_family(families: Seq<VQueueFamily>, i: int) -> bool {
    is_graphics_family(families, i) && is_present_family(families, i)
}

/// Chooses the graphics, present and compute family indices from the
/// device's family table.
///
/// Graphics and present: the first family that both draws and presents
/// serves both classes. When no family does both, graphics falls back to
/// the last family that draws, and present to the first family that
/// presents. Compute prefers the first compute-capable family different
/// from the graphics family, so compute work can run beside graphics
/// work; only when every compute-capable family is the graphics family
/// does it share that index. A class with no capable family is left at
/// [`QUEUE_FAMILY_NONE`].
pub fn select_queue_family_indices(families: &Vec<VQueueFamily>) -> (r: VQueueFamilyIndices)
    requires
        families@.len() < QUEUE_FAMILY_NONE,
    ensures
        (exists|i: int| is_graphics_present_family(families@, i)) ==> {
            &&& is_graphics_present_family(families@, r.graphics as int)
            &&& forall|j: int| 0 <= j < r.graphics ==> !is_graphics_present_family(families@, j)
            &&& r.present == r.graphics
        },
        !(exists|i: int| is_graphics_present_family(families@, i)) ==> {
            &&& (exists|i: int| is_graphics_family(families@, i)) ==> {
                &&& is_graphics_family(families@, r.graphics as int)
                &&& forall|j: int|
                    r.graphics < j < families@.len() ==> !is_graphics_family(families@, j)
            }
            &&& !(exists|i: int| is_graphics_family(families@, i)) ==> r.graphics
                == QUEUE_FAMILY_NONE
            &&& (exists|i: int| is_present_family(families@, i)) ==> {
                &&& is_present_family(families@, r.present as int)
                &&& forall|j: int| 0 <= j < r.present ==> !is_present_family(families@, j)
            }
            &&& !(exists|i: int| is_present_family(families@, i)) ==> r.present
                == QUEUE_FAMILY_NONE
        },
        (exists|i: int| is_compute_family(families@, i) && i != r.graphics) ==> {
            &&& is_compute_family(families@, r.compute as int)
            &&& r.compute != r.graphics
            &&& forall|j: int|
                0 <= j < r.compute && j != r.graphics ==> !is_compute_family(families@, j)
        },
        (!(exists|i: int| is_compute_family(families@, i) && i != r.graphics) && (exists|i: int|
            is_compute_family(families@, i))) ==> {
            &&& is_compute_family(families@, r.compute as int)
            &&& forall|j: int| 0 <= j < r.compute ==> !is_compute_family(families@, j)
        },
        !(exists|i: int| is_compute_family(families@, i)) ==> r.compute == QUEUE_FAMILY_NONE,
{
    let n = families.len();
    let mut graphics: u32 = QUEUE_FAMILY_NONE;
    let mut present: u32 = QUEUE_FAMILY_NONE;
    let mut compute: u32 = QUEUE_FAMILY_NONE;

    let mut ind: usize = 0;
    while ind < n
        invariant_except_break
            n == families@.len() < QUEUE_FAMILY_NONE,
            ind <= n,
            present == QUEUE_FAMILY_NONE,
            forall|j: int| 0 <= j < ind ==> !is_graphics_present_family(families@, j),
            (exists|j: int| 0 <= j < ind && is_graphics_family(families@, j)) ==> {
                &&& is_graphics_family(families@, graphics as int)
                &&& graphics < ind
                &&& forall|j: int| graphics < j < ind ==> !is_graphics_family(families@, j)
            },
            !(exists|j: int| 0 <= j < ind && is_graphics_family(families@, j)) ==> graphics
                == QUEUE_FAMILY_NONE,
        ensures
            n == families@.len(),
            present != QUEUE_FAMILY_NONE ==> {
                &&& is_graphics_present_family(families@, present as int)
                &&& graphics == present
                &&& forall|j: int| 0 <= j < present ==> !is_graphics_present_family(families@, j)
            },
            present == QUEUE_FAMILY_NONE ==> {
                &&& forall|j: int| 0 <= j < n ==> !is_graphics_present_family(families@, j)
                &&& (exists|j: int| 0 <= j < n && is_graphics_family(families@, j)) ==> {
                    &&& is_graphics_family(families@, graphics as int)
                    &&& forall|j: int| graphics < j < n ==> !is_graphics_family(families@, j)
                }
                &&& !(exists|j: int| 0 <= j < n && is_graphics_family(families@, j)) ==> graphics
                    == QUEUE_FAMILY_NONE
            },
        decreases n - ind,
    {
        let family = families[ind];
        if family.queue_flags & QUEUE_FLAG_GRAPHICS == QUEUE_FLAG_GRAPHICS {
            proof {
                assert(is_graphics_family(families@, ind as int));
            }
            graphics = ind as u32;
            if family.supports_present {
                proof {
                    assert(is_graphics_present_family(families@, ind as int));
                }
                present = ind as u32;
                break;
            }
        } else {
            proof {
                assert(!is_graphics_family(families@, ind as int));
            }
        }
        ind = ind + 1;
    }

    if present == QUEUE_FAMILY_NONE {
        let mut ind: usize = 0;
        while ind < n
            invariant_except_break
                n == families@.len() < QUEUE_FAMILY_NONE,
                ind <= n,
                present == QUEUE_FAMILY_NONE,
                forall|j: int| 0 <= j < ind ==> !is_present_family(families@, j),
            ensures
                present != QUEUE_FAMILY_NONE ==> {
                    &&& is_present_family(families@, present as int)
                    &&& forall|j: int| 0 <= j < present ==> !is_present_family(families@, j)
                },
                present == QUEUE_FAMILY_NONE ==> forall|j: int|
                    0 <= j < n ==> !is_present_family(families@, j),
            decreases n - ind,
        {
            if families[ind].supports_present {
                proof {
                    assert(is_present_family(families@, ind as int));
                }
                present = ind as u32;
                break;
            }
            ind = ind + 1;
        }
    }

    let mut ind: usize = 0;
    while ind < n
        invariant_except_break
            n == families@.len() < QUEUE_FAMILY_NONE,
            ind <= n,
            forall|j: int| 0 <= j < ind && j != graphics ==> !is_compute_family(families@, j),
            (exists|j: int| 0 <= j < ind && is_compute_family(families@, j)) ==> {
                &&& is_compute_family(families@, compute as int)
                &&& forall|j: int| 0 <= j < compute ==> !is_compute_family(families@, j)
            },
            !(exists|j: int| 0 <= j < ind && is_compute_family(families@, j)) ==> compute
                == QUEUE_FAMILY_NONE,
        ensures
            n == families@.len(),
            (exists|j: int| 0 <= j < n && is_compute_family(families@, j) && j != graphics) ==> {
                &&& is_compute_family(families@, compute as int)
                &&& compute != graphics
                &&& forall|j: int|
                    0 <= j < compute && j != graphics ==> !is_compute_family(families@, j)
            },
            (!(exists|j: int| 0 <= j < n && is_compute_family(families@, j) && j != graphics) && (
            exists|j: int| 0 <= j < n && is_compute_family(families@, j))) ==> {
                &&& is_compute_family(families@, compute as int)
                &&& forall|j: int| 0 <= j < compute ==> !is_compute_family(families@, j)
            },
            !(exists|j: int| 0 <= j < n && is_compute_family(families@, j)) ==> compute
                == QUEUE_FAMILY_NONE,
        decreases n - ind,
    {
        let family = families[ind];
        if family.queue_flags & QUEUE_FLAG_COMPUTE == QUEUE_FLAG_COMPUTE {
            proof {
                assert(is_compute_family(families@, ind as int));
            }
            if compute == QUEUE_FAMILY_NONE {
                compute = ind as u32;
            }
            if ind as u32 != graphics {
                compute = ind as u32;
                break;
            }
        } else {
            proof {
                assert(!is_compute_family(families@, ind as int));
            }
        }
        ind = ind + 1;
    }

    VQueueFamilyIndices { compute, graphics, present }
}

/// The distinct queue-family indices among the chosen graphics,
/// compute and present families, in that order: graphics first, then
/// compute and present where they name different families. Classes
/// left at [`QUEUE_FAMILY_NONE`] contribute nothing.
pub open spec fn spec_unique_queue_family_indices(indices: VQueueFamilyIndices) -> Seq<u32> {
    let graphics_part = if indices.graphics != QUEUE_FAMILY_NONE {
        seq![indices.graphics]
    } else {
        Seq::<u32>::empty()
    };
    let compute_part = if indices.compute != QUEUE_FAMILY_NONE && indices.compute
        != indices.graphics {
        seq![indices.compute]
    } else {
        Seq::<u32>::empty()
    };
    let present_part = if indices.present != QUEUE_FAMILY_NONE && indices.present
        != indices.graphics && indices.present != indices.compute {
        seq![indices.present]
    } else {
        Seq::<u32>::empty()
    };
    graphics_part + compute_part + present_part
}

/// The minimal set of distinct queue-family indices among the chosen
/// graphics, compute and present families: one logical-device queue is
/// created per entry.
pub fn unique_queue_family_indices(indices: &VQueueFamilyIndices) -> (r: Vec<u32>)
    ensures
        r@ == spec_unique_queue_family_indices(*indices),
        forall|a: int, b: int| 0 <= a < b < r@.len() ==> r@[a] != r@[b],
        forall|i: int|
            0 <= i < r@.len() ==> (r@[i] == indices.graphics || r@[i] == indices.compute || r@[i]
                == indices.present) && r@[i] != QUEUE_FAMILY_NONE,
        indices.graphics != QUEUE_FAMILY_NONE ==> r@.contains(indices.graphics),
        indices.compute != QUEUE_FAMILY_NONE ==> r@.contains(indices.compute),
        indices.present != QUEUE_FAMILY_NONE ==> r@.contains(indices.present),
{
    let mut r: Vec<u32> = Vec::new();
    if indices.graphics != QUEUE_FAMILY_NONE {
        r.push(indices.graphics);
    }
    if indices.compute != QUEUE_FAMILY_NONE && indices.compute != indices.graphics {
        r.push(indices.compute);
    }
    if indices.present != QUEUE_FAMILY_NONE && indices.present != indices.graphics
        && indices.present != indices.compute {
        r.push(indices.present);
    }
    proof {
        assert(r@ =~= spec_unique_queue_family_indices(*indices));
        if indices.graphics != QUEUE_FAMILY_NONE {
            assert(r@[0] == indices.graphics);
        }
        if indices.compute != QUEUE_FAMILY_NONE {
            if indices.compute == indices.graphics {
                assert(r@[0] == indices.compute);
            } else if indices.graphics != QUEUE_FAMILY_NONE {
                assert(r@[1] == indices.compute);
            } else {
                assert(r@[0] == indices.compute);
            }
        }
        if indices.present != QUEUE_FAMILY_NONE && indices.present != indices.graphics
            && indices.present != indices.compute {
            assert(r@[r@.len() - 1] == indices.present);
        }
    }
    r
}

} // verus!
