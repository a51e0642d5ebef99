//! Dumb buffers: kernel-backed linear pixel buffers mapped into process
//! memory.
//!
//! Creation is a three-step sequence: allocate the buffer object, wrap it
//! in a framebuffer object, map it. The caller issues the exchanges; the
//! functions here build each request, validate each reply, and on failure
//! say exactly which kernel-side objects must be released, newest first,
//! so that no partial allocation leaks. Teardown releases the kernel-side
//! objects only while the device handle is still live, and the caller
//! unmaps the memory first either way.

use vstd::prelude::*;

verus! {

use crate::ioctl;
use crate::result::Error;

/// The caller-chosen geometry for a new dumb buffer.
#[derive(Debug, Clone, Copy, PartialEq, Eq, Structural)]
pub struct DumbBufferRequest {
    pub width: u32,
    pub height: u32,
    pub depth: u32,
    pub bpp: u32,
}

/// A dumb buffer's geometry and kernel-side identities. The mapped memory
/// itself is owned by the caller that performed the mapping.
#[derive(Debug, Clone, Copy, PartialEq, Eq, Structural)]
pub struct DumbBuffer {
    pub width: u32,
    pub height: u32,
    pub bpp: u32,
    pub pitch: u32,
    pub len: usize,
    pub fb_id: u32,
    pub buffer_handle: u32,
}

/// The geometry guarantees that creation established: every row fits in
/// its pitch, and every row lies inside the mapped length.
pub open spec fn spec_buffer_wf(b: DumbBuffer) -> bool {
    &&& b.pitch >= b.width * (b.bpp / 8)
    &&& b.len >= b.pitch * b.height
}

impl DumbBuffer {
    pub fn width(&self) -> (r: u32)
        ensures
            r == self.width,
    {
        self.width
    }

    pub fn height(&self) -> (r: u32)
        ensures
            r == self.height,
    {
        self.height
    }

    pub fn pitch(&self) -> (r: u32)
        ensures
            r == self.pitch,
    {
        self.pitch
    }

    pub fn bpp(&self) -> (r: u32)
        ensures
            r == self.bpp,
    {
        self.bpp
    }

    pub fn framebuffer_id(&self) -> (r: u32)
        ensures
            r == self.fb_id,
    {
        self.fb_id
    }

    /// The byte offset of the pixel at (x, y), or nothing when the
    /// coordinate lies outside the buffer. Rows are addressed by the
    /// kernel-chosen pitch, never by a computed minimum stride.
    pub fn pixel_idx(&self, x: u32, y: u32) -> (r: Option<usize>)
        requires
            spec_buffer_wf(*self),
        ensures
            (x < self.width && y < self.height) ==> r == Some(
                (y * self.pitch + x * (self.bpp / 8)) as usize,
            ),
            !(x < self.width && y < self.height) ==> r is None,
    {
        if x >= self.width || y >= self.height {
            return None;
        }
        proof {
            assert(y * self.pitch + x * (self.bpp / 8) <= self.pitch * self.height)
                by (nonlinear_arith)
                requires
                    y < self.height,
                    x < self.width,
                    self.width * (self.bpp / 8) <= self.pitch,
            ;
        }
        Some((y as usize) * (self.pitch as usize) + (x as usize) * ((self.bpp / 8) as usize))
    }
}

/// Every in-bounds pixel offset lies strictly inside the buffer: with
/// rows no wider than the pitch and a mapping covering all rows,
/// `pixel_idx` of a valid coordinate is less than the buffer's total
/// length. Only a degenerate geometry of zero-byte pixels in zero-byte
/// rows, whose every offset is zero, escapes the claim.
pub proof fn lemma_pixel_idx_in_bounds(b: DumbBuffer, x: u32, y: u32)
    requires
        spec_buffer_wf(b),
        b.bpp >= 8 || b.pitch >= 1,
        x < b.width,
        y < b.height,
    ensures
        y * b.pitch + x * (b.bpp / 8) < b.len,
{
    let bytes = b.bpp / 8;
    if bytes >= 1 {
        assert(y * b.pitch + x * bytes < b.pitch * b.height) by (nonlinear_arith)
            requires
                x < b.width,
                y < b.height,
                bytes >= 1,
                b.width * bytes <= b.pitch,
        ;
    } else {
        assert(x * bytes == 0) by (nonlinear_arith)
            requires
                bytes == 0,
        ;
        assert(y * b.pitch + b.pitch <= b.pitch * b.height) by (nonlinear_arith)
            requires
                y < b.height,
        ;
    }
}

/// One kernel-side release action of a buffer teardown or unwind.
#[derive(Debug, Clone, Copy, PartialEq, Eq, Structural)]
pub enum BufferCleanupOp {
    /// Remove the framebuffer object with this id.
    RemoveFb(u32),
    /// Destroy the dumb buffer object with this handle.
    DestroyDumb(u32),
}

/// Step one of creation: the allocation request for the given geometry.
/// The kernel chooses and reports the handle, pitch and total size.
pub fn create_dumb_request(req: &DumbBufferRequest) -> (r: ioctl::DrmModeCreateDumb)
    ensures
        r == (ioctl::DrmModeCreateDumb {
            height: req.height,
            width: req.width,
            bpp: req.bpp,
            flags: 0,
            handle: 0,
            pitch: 0,
            size: 0,
        }),
{
    let mut r = ioctl::DrmModeCreateDumb::zeroed();
    r.width = req.width;
    r.height = req.height;
    r.bpp = req.bpp;
    r
}

/// Step two of creation: wrap the allocated buffer object in a
/// framebuffer object carrying the requested color depth.
pub fn framebuffer_request(depth: u32, created: &ioctl::DrmModeCreateDumb) -> (r:
    ioctl::DrmModeFbCmd)
    ensures
        r == (ioctl::DrmModeFbCmd {
            fb_id: 0,
            width: created.width,
            height: created.height,
            pitch: created.pitch,
            bpp: created.bpp,
            depth: depth,
            handle: created.handle,
        }),
{
    let mut r = ioctl::DrmModeFbCmd::zeroed();
    r.width = created.width;
    r.height = created.height;
    r.bpp = created.bpp;
    r.depth = depth;
    r.pitch = created.pitch;
    r.handle = created.handle;
    r
}

/// Step three of creation: ask where the buffer object can be mapped.
pub fn map_dumb_request(handle: u32) -> (r: ioctl::DrmModeMapDumb)
    ensures
        r == (ioctl::DrmModeMapDumb { handle: handle, pad: 0, offset: 0 }),
{
    let mut r = ioctl::DrmModeMapDumb::zeroed();
    r.handle = handle;
    r
}

/// The kernel-side objects to release, newest first, when creation fails
/// partway: the framebuffer object if it was already created, then the
/// buffer object if it was already created. No completed step may leak on
/// an error return.
pub fn creation_unwind(created_handle: Option<u32>, framebuffer_id: Option<u32>) -> (ops: Vec<
    BufferCleanupOp,
>)
    ensures
        match (created_handle, framebuffer_id) {
            (Some(h), Some(fb)) => ops@ == seq![
                BufferCleanupOp::RemoveFb(fb),
                BufferCleanupOp::DestroyDumb(h),
            ],
            (Some(h), None) => ops@ == seq![BufferCleanupOp::DestroyDumb(h)],
            (None, Some(fb)) => ops@ == seq![BufferCleanupOp::RemoveFb(fb)],
            (None, None) => ops@ == Seq::<BufferCleanupOp>::empty(),
        },
{
    let mut ops: Vec<BufferCleanupOp> = Vec::new();
    if let Some(fb) = framebuffer_id {
        ops.push(BufferCleanupOp::RemoveFb(fb));
    }
    if let Some(h) = created_handle {
        ops.push(BufferCleanupOp::DestroyDumb(h));
    }
    proof {
        match (created_handle, framebuffer_id) {
            (Some(h), Some(fb)) => {
                assert(ops@ =~= seq![
                    BufferCleanupOp::RemoveFb(fb),
                    BufferCleanupOp::DestroyDumb(h),
                ]);
            },
            (Some(h), None) => {
                assert(ops@ =~= seq![BufferCleanupOp::DestroyDumb(h)]);
            },
            (None, Some(fb)) => {
                assert(ops@ =~= seq![BufferCleanupOp::RemoveFb(fb)]);
            },
            (None, None) => {
                assert(ops@ =~= Seq::<BufferCleanupOp>::empty());
            },
        }
    }
    ops
}

/// Assemble the buffer once all three steps succeeded.
///
/// The kernel's reported pitch and size are checked against the geometry
/// here; a reply that no healthy device could send (rows wider than the
/// pitch, or a size too small for all rows) is a device-side failure, and
/// the caller must then unwind the completed steps.
pub fn dumb_buffer_from_parts(
    created: &ioctl::DrmModeCreateDumb,
    fb_id: u32,
) -> (r: Result<DumbBuffer, Error>)
    ensures
        match r {
            Result::Ok(b) => {
                &&& spec_buffer_wf(b)
                &&& b.width == created.width
                &&& b.height == created.height
                &&& b.bpp == created.bpp
                &&& b.pitch == created.pitch
                &&& b.len == created.size
                &&& b.fb_id == fb_id
                &&& b.buffer_handle == created.handle
            },
            Result::Err(e) => {
                &&& e == Error::RemoteFailure
                &&& (created.pitch < created.width * (created.bpp / 8) || created.size
                    < created.pitch * created.height || created.size > usize::MAX)
            },
        },
{
    let bytes_per_pixel = created.bpp / 8;
    proof {
        assert((created.width as u64) * (bytes_per_pixel as u64) < 0xffff_ffff_ffff_ffffu64)
            by (nonlinear_arith)
            requires
                created.width <= 0xffff_ffffu32,
                bytes_per_pixel <= 0xffff_ffffu32,
        ;
        assert((created.pitch as u64) * (created.height as u64) < 0xffff_ffff_ffff_ffffu64)
            by (nonlinear_arith)
            requires
                created.pitch <= 0xffff_ffffu32,
                created.height <= 0xffff_ffffu32,
        ;
    }
    if (created.pitch as u64) < (created.width as u64) * (bytes_per_pixel as u64) {
        return Err(Error::RemoteFailure);
    }
    if created.size < (created.pitch as u64) * (created.height as u64) {
        return Err(Error::RemoteFailure);
    }
    if created.size > usize::MAX as u64 {
        return Err(Error::RemoteFailure);
    }
    Ok(
        DumbBuffer {
            width: created.width,
            height: created.height,
            bpp: created.bpp,
            pitch: created.pitch,
            len: created.size as usize,
            fb_id,
            buffer_handle: created.handle,
        },
    )
}

/// The kernel-side objects to release when the buffer is dropped: nothing
/// if the device handle is already gone (the kernel then frees them with
/// the handle), else the framebuffer object first, then the buffer
/// object. The caller unmaps the memory before either, and ignores
/// failures from both.
pub fn teardown_ops(buf: &DumbBuffer, device_live: bool) -> (ops: Vec<BufferCleanupOp>)
    ensures
        device_live ==> ops@ == seq![
            BufferCleanupOp::RemoveFb(buf.fb_id),
            BufferCleanupOp::DestroyDumb(buf.buffer_handle),
        ],
        !device_live ==> ops@ == Seq::<BufferCleanupOp>::empty(),
{
    let mut ops: Vec<BufferCleanupOp> = Vec::new();
    if device_live {
        ops.push(BufferCleanupOp::RemoveFb(buf.fb_id));
        ops.push(BufferCleanupOp::DestroyDumb(buf.buffer_handle));
        proof {
            assert(ops@ =~= seq![
                BufferCleanupOp::RemoveFb(buf.fb_id),
                BufferCleanupOp::DestroyDumb(buf.buffer_handle),
            ]);
        }
    } else {
        proof {
            assert(ops@ =~= Seq::<BufferCleanupOp>::empty());
        }
    }
    ops
}

} // verus!
