//! Dumb buffers: geometry, pixel indexing, failure unwind and teardown.

use linux_drm::ioctl::DrmModeCreateDumb;
use linux_drm::modeset::{
    create_dumb_request, creation_unwind, dumb_buffer_from_parts, framebuffer_request,
    map_dumb_request, teardown_ops, BufferCleanupOp, DumbBuffer, DumbBufferRequest,
};
use linux_drm::result::Error;

fn created_reply() -> DrmModeCreateDumb {
    let mut r = DrmModeCreateDumb::zeroed();
    r.width = 640;
    r.height = 480;
    r.bpp = 32;
    r.handle = 5;
    r.pitch = 2560; // the kernel chose exactly width * 4 here
    r.size = 2560 * 480;
    r
}

#[test]
fn creation_requests_carry_the_geometry() {
    let req = DumbBufferRequest { width: 640, height: 480, depth: 24, bpp: 32 };
    let create = create_dumb_request(&req);
    assert_eq!(create.width, 640);
    assert_eq!(create.height, 480);
    assert_eq!(create.bpp, 32);
    assert_eq!(create.handle, 0);

    let fb = framebuffer_request(req.depth, &created_reply());
    assert_eq!(fb.width, 640);
    assert_eq!(fb.height, 480);
    assert_eq!(fb.bpp, 32);
    assert_eq!(fb.depth, 24);
    assert_eq!(fb.pitch, 2560);
    assert_eq!(fb.handle, 5);
    assert_eq!(fb.fb_id, 0);

    let map = map_dumb_request(5);
    assert_eq!(map.handle, 5);
    assert_eq!(map.offset, 0);
}

#[test]
fn assembled_buffer_carries_the_kernel_geometry() {
    let buf = dumb_buffer_from_parts(&created_reply(), 33).unwrap();
    assert_eq!(buf.width(), 640);
    assert_eq!(buf.height(), 480);
    assert_eq!(buf.pitch(), 2560);
    assert_eq!(buf.bpp(), 32);
    assert_eq!(buf.framebuffer_id(), 33);
    assert_eq!(buf.len, 2560 * 480);
}

#[test]
fn impossible_kernel_geometry_is_a_remote_failure() {
    let mut r = created_reply();
    r.pitch = 100; // rows could not fit
    assert_eq!(dumb_buffer_from_parts(&r, 33), Err(Error::RemoteFailure));
    let mut r = created_reply();
    r.size = 10; // mapping could not cover the rows
    assert_eq!(dumb_buffer_from_parts(&r, 33), Err(Error::RemoteFailure));
}

#[test]
fn pixel_idx_uses_the_pitch_and_rejects_out_of_bounds() {
    // A pitch wider than width * bytes-per-pixel, as kernels may pad.
    let buf = DumbBuffer {
        width: 100,
        height: 50,
        bpp: 32,
        pitch: 512,
        len: 512 * 50,
        fb_id: 1,
        buffer_handle: 2,
    };
    assert_eq!(buf.pixel_idx(0, 0), Some(0));
    assert_eq!(buf.pixel_idx(3, 2), Some(2 * 512 + 3 * 4));
    assert_eq!(buf.pixel_idx(99, 49), Some(49 * 512 + 99 * 4));
    assert_eq!(buf.pixel_idx(100, 0), None);
    assert_eq!(buf.pixel_idx(0, 50), None);
    assert_eq!(buf.pixel_idx(100, 50), None);
}

#[test]
fn every_valid_pixel_offset_lies_inside_the_buffer() {
    let buf = dumb_buffer_from_parts(&created_reply(), 1).unwrap();
    for &(x, y) in &[(0u32, 0u32), (639, 0), (0, 479), (639, 479), (320, 240)] {
        let idx = buf.pixel_idx(x, y).unwrap();
        assert!(idx < buf.len);
    }
}

#[test]
fn failed_surface_creation_frees_the_buffer_object() {
    // The buffer object exists; wrapping it in a framebuffer failed.
    let ops = creation_unwind(Some(5), None);
    assert_eq!(ops, vec![BufferCleanupOp::DestroyDumb(5)]);
}

#[test]
fn failed_mapping_frees_the_surface_then_the_buffer_object() {
    let ops = creation_unwind(Some(5), Some(33));
    assert_eq!(
        ops,
        vec![BufferCleanupOp::RemoveFb(33), BufferCleanupOp::DestroyDumb(5)]
    );
}

#[test]
fn nothing_to_unwind_before_any_step_succeeded() {
    assert_eq!(creation_unwind(None, None), Vec::<BufferCleanupOp>::new());
}

#[test]
fn teardown_releases_kernel_objects_only_while_the_device_lives() {
    let buf = dumb_buffer_from_parts(&created_reply(), 33).unwrap();
    assert_eq!(
        teardown_ops(&buf, true),
        vec![BufferCleanupOp::RemoveFb(33), BufferCleanupOp::DestroyDumb(5)]
    );
    assert_eq!(teardown_ops(&buf, false), Vec::<BufferCleanupOp>::new());
}
