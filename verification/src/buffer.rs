//! Buffers and the staged upload protocol.
//!
//! A buffer is either *mapped* — persistently host-writable, used for
//! uniform data — or *device-local* — populated once through a staged
//! copy and never host-writable afterwards. Contents are modeled as the
//! byte sequence the buffer holds.

use vstd::prelude::*;

verus! {

/// The two buffer lifecycle variants.
#[derive(Debug, Clone, Copy, PartialEq, Eq, Structural)]
pub enum VBufferKind {
    /// Host-visible and host-coherent: the CPU may rewrite it at any
    /// time the frame ring allows.
    Mapped,
    /// Device-local: populated once by the staged upload, then read-only
    /// for the host.
    DeviceLocal,
}

/// A buffer with its byte contents and lifecycle variant.
#[derive(Debug, Clone, PartialEq, Eq)]
pub struct VBuffer {
    kind: VBufferKind,
    contents: Vec<u8>,
}

/// Copies a byte vector.
pub(crate) fn copy_bytes(data: &Vec<u8>) -> (r: Vec<u8>)
    ensures
        r@ == data@,
{
    let n = data.len();
    let mut r: Vec<u8> = Vec::new();
    let mut i: usize = 0;
    while i < n
        invariant
            n == data@.len(),
            i <= n,
            r@ == data@.subrange(0, i as int),
        decreases n - i,
    {
        r.push(data[i]);
        proof {
            assert(r@ =~= data@.subrange(0, i + 1));
        }
        i = i + 1;
    }
    proof {
        assert(r@ =~= data@);
    }
    r
}

/// A vector of `len` zero bytes.
fn zero_bytes(len: usize) -> (r: Vec<u8>)
    ensures
        r@ == Seq::new(len as nat, |i: int| 0u8),
{
    let mut r: Vec<u8> = Vec::new();
    let mut i: usize = 0;
    while i < len
        invariant
            i <= len,
            r@ == Seq::new(i as nat, |j: int| 0u8),
        decreases len - i,
    {
        r.push(0u8);
        proof {
            assert(r@ =~= Seq::new((i + 1) as nat, |j: int| 0u8));
        }
        i = i + 1;
    }
    r
}

impl VBuffer {
    /// The buffer's lifecycle variant.
    pub closed spec fn spec_kind(self) -> VBufferKind {
        self.kind
    }

    /// The bytes the buffer holds.
    pub closed spec fn view(self) -> Seq<u8> {
        self.contents@
    }

    /// Creates a host-visible, host-coherent buffer and copies `data`
    /// into it immediately; the buffer stays writable from the host.
    pub fn new_mapped(data: &Vec<u8>) -> (r: Self)
        ensures
            r.spec_kind() == VBufferKind::Mapped,
            r.view() == data@,
    {
        Self { kind: VBufferKind::Mapped, contents: copy_bytes(data) }
    }

    /// Creates a device-local buffer of `size` bytes without mapping it;
    /// its contents start zeroed and only a buffer-to-buffer copy can
    /// fill it.
    pub fn new_unmapped(size: usize) -> (r: Self)
        ensures
            r.spec_kind() == VBufferKind::DeviceLocal,
            r.view() == Seq::new(size as nat, |i: int| 0u8),
    {
        Self { kind: VBufferKind::DeviceLocal, contents: zero_bytes(size) }
    }

    /// Creates a host-visible uniform buffer of `size` zeroed bytes; the
    /// frame ring rewrites slices of it each frame.
    pub fn new_uniform_buffer(size: usize) -> (r: Self)
        ensures
            r.spec_kind() == VBufferKind::Mapped,
            r.view() == Seq::new(size as nat, |i: int| 0u8),
    {
        Self { kind: VBufferKind::Mapped, contents: zero_bytes(size) }
    }

    /// The staged upload: stages `data` in a temporary host-visible
    /// buffer, creates the device-local destination, records and submits
    /// the buffer-to-buffer copy, and blocks until the copy is done.
    /// When it returns, the destination holds exactly `data` — reading
    /// it back yields the source bytes unchanged.
    pub fn new_device_local_buffer(data: &Vec<u8>) -> (r: Self)
        ensures
            r.spec_kind() == VBufferKind::DeviceLocal,
            r.view() == data@,
    {
        let staging_buffer = Self::new_mapped(data);
        let mut destination_buffer = Self::new_unmapped(data.len());
        Self::copy_buffer(&staging_buffer, &mut destination_buffer, data.len());
        proof {
            assert(destination_buffer.view() =~= data@);
        }
        destination_buffer
    }

    /// The recorded buffer-to-buffer copy: the first `size` bytes of
    /// `src` replace the first `size` bytes of `dst`; the rest of `dst`
    /// keeps its bytes.
    pub fn copy_buffer(src: &Self, dst: &mut Self, size: usize)
        requires
            size <= src.view().len(),
            size <= old(dst).view().len(),
        ensures
            final(dst).spec_kind() == old(dst).spec_kind(),
            final(dst).view() == src.view().subrange(0, size as int) + old(dst).view().skip(
                size as int,
            ),
    {
        let mut i: usize = 0;
        while i < size
            invariant
                size <= src.view().len(),
                size <= dst.view().len(),
                dst.view().len() == old(dst).view().len(),
                dst.spec_kind() == old(dst).spec_kind(),
                i <= size,
                forall|j: int| 0 <= j < i ==> dst.view()[j] == src.view()[j],
                forall|j: int| i <= j < dst.view().len() ==> dst.view()[j] == old(dst).view()[j],
            decreases size - i,
        {
            let b = src.contents[i];
            dst.contents.set(i, b);
            i = i + 1;
        }
        proof {
            assert(dst.view() =~= src.view().subrange(0, size as int) + old(dst).view().skip(
                size as int,
            ));
        }
    }

    /// Writes `data` at the start of a mapped buffer; bytes past the
    /// write keep their values. Only mapped buffers are host-writable —
    /// a device-local buffer never is after creation.
    pub fn map_memory(&mut self, data: &Vec<u8>)
        requires
            old(self).spec_kind() == VBufferKind::Mapped,
            data@.len() <= old(self).view().len(),
        ensures
            final(self).spec_kind() == VBufferKind::Mapped,
            final(self).view() == data@ + old(self).view().skip(data@.len() as int),
    {
        self.write_at(data, 0);
        proof {
            assert(self.view() =~= data@ + old(self).view().skip(data@.len() as int));
        }
    }

    /// Writes `data` at byte offset `pad_offset` of a mapped buffer:
    /// how one padded copy of per-frame uniform data lands in its slot
    /// of the shared uniform region.
    pub fn map_padded_memory(&mut self, data: &Vec<u8>, pad_offset: usize)
        requires
            old(self).spec_kind() == VBufferKind::Mapped,
            pad_offset + data@.len() <= old(self).view().len(),
        ensures
            final(self).spec_kind() == VBufferKind::Mapped,
            final(self).view() == old(self).view().take(pad_offset as int) + data@ + old(self).view().skip(pad_offset + data@.len()),
    {
        self.write_at(data, pad_offset);
        proof {
            assert(self.view() =~= old(self).view().take(pad_offset as int) + data@ + old(self).view().skip(pad_offset + data@.len()));
        }
    }

    /// Overwrites `data.len()` bytes at `offset`, leaving the rest.
    fn write_at(&mut self, data: &Vec<u8>, offset: usize)
        requires
            offset + data@.len() <= old(self).view().len(),
        ensures
            final(self).spec_kind() == old(self).spec_kind(),
            final(self).view().len() == old(self).view().len(),
            forall|j: int| 0 <= j < offset ==> final(self).view()[j] == old(self).view()[j],
            forall|j: int| 0 <= j < data@.len() ==> final(self).view()[offset + j] == data@[j],
            forall|j: int|
                offset + data@.len() <= j < final(self).view().len() ==> final(self).view()[j]
                    == old(self).view()[j],
    {
        let n = data.len();
        let buffer_len = self.contents.len();
        let mut i: usize = 0;
        while i < n
            invariant
                n == data@.len(),
                buffer_len == self.view().len(),
                offset + n <= buffer_len,
                offset + n <= self.view().len(),
                self.view().len() == old(self).view().len(),
                self.spec_kind() == old(self).spec_kind(),
                i <= n,
                forall|j: int| 0 <= j < offset ==> self.view()[j] == old(self).view()[j],
                forall|j: int| 0 <= j < i ==> self.view()[offset + j] == data@[j],
                forall|j: int|
                    offset + i <= j < self.view().len() ==> self.view()[j] == old(self).view()[j],
            decreases n - i,
        {
            let b = data[i];
            self.contents.set(offset + i, b);
            i = i + 1;
        }
    }

    /// Writes one frame's uniform data into its slot of the shared
    /// uniform region: the region holds one `stride`-byte slot per
    /// frame slot, and both writes and binds always address slot
    /// `frame_index` at byte offset `frame_index * stride`.
    pub fn write_uniform_slot(&mut self, data: &Vec<u8>, frame_index: u32, stride: u64)
        requires
            old(self).spec_kind() == VBufferKind::Mapped,
            data@.len() <= stride,
            (frame_index + 1) * stride <= old(self).view().len(),
            old(self).view().len() <= usize::MAX,
        ensures
            final(self).spec_kind() == VBufferKind::Mapped,
            final(self).view() == old(self).view().take(frame_index * stride) + data@ + old(
                self,
            ).view().skip(frame_index * stride + data@.len()),
    {
        proof {
            assert((frame_index + 1) * stride == frame_index * stride + stride) by (nonlinear_arith);
        }
        let offset_u64 = (frame_index as u64) * stride;
        let offset = offset_u64 as usize;
        self.map_padded_memory(data, offset);
    }

    /// The debug copy back to the host: yields the buffer's bytes
    /// exactly.
    pub fn read_back(&self) -> (r: Vec<u8>)
        ensures
            r@ == self.view(),
    {
        copy_bytes(&self.contents)
    }

    /// The buffer's size in bytes.
    pub fn len(&self) -> (r: usize)
        ensures
            r == self.view().len(),
    {
        self.contents.len()
    }
}

} // verus!
