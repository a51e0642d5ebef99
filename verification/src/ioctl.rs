//! Fixed-layout request/response records for the DRM control-plane calls,
//! together with the numeric request codes that select them.
//!
//! Every record mirrors the kernel's published ABI field for field.
//! Variable-length data travels as a (pointer, count) pair embedded in the
//! fixed record; the pointer fields are held here as plain `u64` addresses,
//! exactly as the kernel ABI declares them, and the caller that issues the
//! exchange is responsible for filling them with valid addresses.

use vstd::prelude::*;

verus! {

/// Marker for the DRM card device class that the request codes target.
pub struct DrmCardDevice;

/// The ioctl "type" byte reserved for DRM requests.
pub const DRM_IOCTL_BASE: u64 = 100;

/// Relies on `linux_io::fd::ioctl::_IO`: builds the request code for an
/// ioctl that carries no data, placing the type byte in bits 8..16 and the
/// request number in bits 0..8.
#[verifier::external_body]
fn ioc_code_none(typ: u64, nr: u64) -> (r: u64)
    ensures
        r == (typ << 8) | nr,
{
    linux_io::fd::ioctl::_IO(typ, nr)
}

/// Relies on `linux_io::fd::ioctl::_IOR`: builds the request code for an
/// ioctl where userspace reads data of the given size from the kernel
/// (direction 2 in bits 30..32, size in bits 16..30).
#[verifier::external_body]
fn ioc_code_read(typ: u64, nr: u64, size: u64) -> (r: u64)
    ensures
        r == (2u64 << 30) | (typ << 8) | nr | (size << 16),
{
    linux_io::fd::ioctl::_IOR(typ, nr, size)
}

/// Relies on `linux_io::fd::ioctl::_IOW`: builds the request code for an
/// ioctl where userspace writes data of the given size to the kernel
/// (direction 1 in bits 30..32, size in bits 16..30).
#[verifier::external_body]
fn ioc_code_write(typ: u64, nr: u64, size: u64) -> (r: u64)
    ensures
        r == (1u64 << 30) | (typ << 8) | nr | (size << 16),
{
    linux_io::fd::ioctl::_IOW(typ, nr, size)
}

/// Relies on `linux_io::fd::ioctl::_IOWR`: builds the request code for an
/// ioctl where userspace both writes and reads data of the given size
/// (direction 3 in bits 30..32, size in bits 16..30).
#[verifier::external_body]
fn ioc_code_write_read(typ: u64, nr: u64, size: u64) -> (r: u64)
    ensures
        r == (3u64 << 30) | (typ << 8) | nr | (size << 16),
{
    linux_io::fd::ioctl::_IOWR(typ, nr, size)
}

/// The request code for a DRM ioctl that carries no data.
#[allow(non_snake_case)]
pub fn _IO(nr: u64) -> (r: u64)
    ensures
        r == (DRM_IOCTL_BASE << 8) | nr,
{
    ioc_code_none(DRM_IOCTL_BASE, nr)
}

/// The request code for a DRM ioctl whose argument of the given size is
/// read back by userspace.
#[allow(non_snake_case)]
pub fn _IOR(nr: u64, size: u64) -> (r: u64)
    ensures
        r == (2u64 << 30) | (DRM_IOCTL_BASE << 8) | nr | (size << 16),
{
    ioc_code_read(DRM_IOCTL_BASE, nr, size)
}

/// The request code for a DRM ioctl whose argument of the given size is
/// written by userspace.
#[allow(non_snake_case)]
pub fn _IOW(nr: u64, size: u64) -> (r: u64)
    ensures
        r == (1u64 << 30) | (DRM_IOCTL_BASE << 8) | nr | (size << 16),
{
    ioc_code_write(DRM_IOCTL_BASE, nr, size)
}

/// The request code for a DRM ioctl whose argument of the given size is
/// both written and read back by userspace.
#[allow(non_snake_case)]
pub fn _IOWR(nr: u64, size: u64) -> (r: u64)
    ensures
        r == (3u64 << 30) | (DRM_IOCTL_BASE << 8) | nr | (size << 16),
{
    ioc_code_write_read(DRM_IOCTL_BASE, nr, size)
}

/// Fixed-point unsigned 16.16-bit number type, represented as [`u32`].
#[allow(non_camel_case_types)]
#[derive(Copy, Clone, Debug, PartialEq, Eq, Structural)]
pub struct fixedu16_16(pub u32);

impl fixedu16_16 {
    /// The fixed-point value with the given whole part and no fraction.
    pub fn from_u16(v: u16) -> (r: Self)
        ensures
            r.0 == (v as u32) << 16,
            r.0 == v as u32 * 0x10000,
    {
        proof {
            assert((v as u32) << 16 == v as u32 * 0x10000) by (bit_vector);
        }
        Self((v as u32) << 16)
    }

    /// The fixed-point value with the given whole and fractional parts.
    pub fn from_u16_frac(w: u16, f: u16) -> (r: Self)
        ensures
            r.0 == ((w as u32) << 16) | (f as u32),
            r.0 == w as u32 * 0x10000 + f as u32,
    {
        proof {
            assert(((w as u32) << 16) | (f as u32) == w as u32 * 0x10000 + f as u32)
                by (bit_vector);
        }
        Self(((w as u32) << 16) | (f as u32))
    }

    /// The raw 32-bit representation.
    pub fn as_raw_u32(self) -> (r: u32)
        ensures
            r == self.0,
    {
        self.0
    }
}

/// Argument record for reading one device capability value.
#[derive(Clone, Copy, Debug, PartialEq, Eq, Structural)]
pub struct DrmGetCap {
    pub capability: DrmCap,
    pub value: u64,
}

impl DrmGetCap {
    /// The all-zero record, ready to receive a reply.
    pub fn zeroed() -> (r: Self)
        ensures
            r.capability.0 == 0,
            r.value == 0,
    {
        DrmGetCap { capability: DrmCap(0), value: 0 }
    }
}

/// A raw device capability number.
#[derive(Copy, Clone, Debug, PartialEq, Eq, Structural)]
pub struct DrmCap(pub u64);

pub const DRM_CAP_DUMB_BUFFER: u64 = 0x1;
pub const DRM_CAP_VBLANK_HIGH_CRTC: u64 = 0x2;
pub const DRM_CAP_DUMB_PREFERRED_DEPTH: u64 = 0x3;
pub const DRM_CAP_DUMB_PREFER_SHADOW: u64 = 0x4;
pub const DRM_CAP_PRIME: u64 = 0x5;
pub const DRM_PRIME_CAP_IMPORT: u64 = 0x1;
pub const DRM_PRIME_CAP_EXPORT: u64 = 0x2;
pub const DRM_CAP_TIMESTAMP_MONOTONIC: u64 = 0x6;
pub const DRM_CAP_ASYNC_PAGE_FLIP: u64 = 0x7;
pub const DRM_CAP_CURSOR_WIDTH: u64 = 0x8;
pub const DRM_CAP_CURSOR_HEIGHT: u64 = 0x9;
pub const DRM_CAP_ADDFB2_MODIFIERS: u64 = 0x10;
pub const DRM_CAP_PAGE_FLIP_TARGET: u64 = 0x11;
pub const DRM_CAP_CRTC_IN_VBLANK_EVENT: u64 = 0x12;
pub const DRM_CAP_SYNCOBJ: u64 = 0x13;
pub const DRM_CAP_SYNCOBJ_TIMELINE: u64 = 0x14;
pub const DRM_CAP_ATOMIC_ASYNC_PAGE_FLIP: u64 = 0x15;

/// Argument record for setting one client capability.
#[derive(Clone, Copy, Debug, PartialEq, Eq, Structural)]
pub struct DrmSetClientCap {
    pub capability: DrmClientCap,
    pub value: u64,
}

/// A raw client capability number.
#[derive(Copy, Clone, Debug, PartialEq, Eq, Structural)]
pub struct DrmClientCap(pub u64);

pub const DRM_CLIENT_CAP_STEREO_3D: u64 = 1;
pub const DRM_CLIENT_CAP_UNIVERSAL_PLANES: u64 = 2;
pub const DRM_CLIENT_CAP_ATOMIC: u64 = 3;
pub const DRM_CLIENT_CAP_ASPECT_RATIO: u64 = 4;
pub const DRM_CLIENT_CAP_WRITEBACK_CONNECTORS: u64 = 5;
pub const DRM_CLIENT_CAP_CURSOR_PLANE_HOTSPOT: u64 = 6;

/// Argument record for the global resource snapshot: four kernel-owned
/// arrays, each a (pointer, count) pair, plus the buffer dimension range.
#[derive(Clone, Copy, Debug, PartialEq, Eq, Structural)]
pub struct DrmModeCardRes {
    pub fb_id_ptr: u64,
    pub crtc_id_ptr: u64,
    pub connector_id_ptr: u64,
    pub encoder_id_ptr: u64,
    pub count_fbs: u32,
    pub count_crtcs: u32,
    pub count_connectors: u32,
    pub count_encoders: u32,
    pub min_width: u32,
    pub max_width: u32,
    pub min_height: u32,
    pub max_height: u32,
}

impl DrmModeCardRes {
    /// The all-zero record: a size probe asking for no array contents.
    pub fn zeroed() -> (r: Self)
        ensures
            r == (DrmModeCardRes {
                fb_id_ptr: 0,
                crtc_id_ptr: 0,
                connector_id_ptr: 0,
                encoder_id_ptr: 0,
                count_fbs: 0,
                count_crtcs: 0,
                count_connectors: 0,
                count_encoders: 0,
                min_width: 0,
                max_width: 0,
                min_height: 0,
                max_height: 0,
            }),
    {
        DrmModeCardRes {
            fb_id_ptr: 0,
            crtc_id_ptr: 0,
            connector_id_ptr: 0,
            encoder_id_ptr: 0,
            count_fbs: 0,
            count_crtcs: 0,
            count_connectors: 0,
            count_encoders: 0,
            min_width: 0,
            max_width: 0,
            min_height: 0,
            max_height: 0,
        }
    }

    pub fn clear_fb_id_ptr(&mut self)
        ensures
            *final(self) == (DrmModeCardRes { fb_id_ptr: 0, count_fbs: 0, ..*old(self) }),
    {
        self.fb_id_ptr = 0;
        self.count_fbs = 0;
    }

    pub fn count_fbs(&self) -> (r: u32)
        ensures
            r == self.count_fbs,
    {
        self.count_fbs
    }

    pub fn clear_crtc_id_ptr(&mut self)
        ensures
            *final(self) == (DrmModeCardRes { crtc_id_ptr: 0, count_crtcs: 0, ..*old(self) }),
    {
        self.crtc_id_ptr = 0;
        self.count_crtcs = 0;
    }

    pub fn count_crtcs(&self) -> (r: u32)
        ensures
            r == self.count_crtcs,
    {
        self.count_crtcs
    }

    pub fn clear_connector_id_ptr(&mut self)
        ensures
            *final(self) == (DrmModeCardRes {
                connector_id_ptr: 0,
                count_connectors: 0,
                ..*old(self)
            }),
    {
        self.connector_id_ptr = 0;
        self.count_connectors = 0;
    }

    pub fn count_connectors(&self) -> (r: u32)
        ensures
            r == self.count_connectors,
    {
        self.count_connectors
    }

    pub fn clear_encoder_id_ptr(&mut self)
        ensures
            *final(self) == (DrmModeCardRes {
                encoder_id_ptr: 0,
                count_encoders: 0,
                ..*old(self)
            }),
    {
        self.encoder_id_ptr = 0;
        self.count_encoders = 0;
    }

    pub fn count_encoders(&self) -> (r: u32)
        ensures
            r == self.count_encoders,
    {
        self.count_encoders
    }
}

/// The number of bytes in a mode name, property name or enum member name.
pub const DRM_PROP_NAME_LEN: usize = 32;

/// A display timing descriptor in the kernel's fixed record layout.
#[derive(Clone, Copy, Debug, PartialEq, Eq)]
pub struct DrmModeInfo {
    pub clock: u32,
    pub hdisplay: u16,
    pub hsync_start: u16,
    pub hsync_end: u16,
    pub htotal: u16,
    pub hskew: u16,
    pub vdisplay: u16,
    pub vsync_start: u16,
    pub vsync_end: u16,
    pub vtotal: u16,
    pub vscan: u16,
    pub vrefresh: u32,
    pub flags: u32,
    pub typ: u32,
    pub name: [u8; 32],
}

impl DrmModeInfo {
    /// The all-zero record, with an all-zero name field.
    pub open spec fn spec_zeroed() -> DrmModeInfo {
        DrmModeInfo {
            clock: 0,
            hdisplay: 0,
            hsync_start: 0,
            hsync_end: 0,
            htotal: 0,
            hskew: 0,
            vdisplay: 0,
            vsync_start: 0,
            vsync_end: 0,
            vtotal: 0,
            vscan: 0,
            vrefresh: 0,
            flags: 0,
            typ: 0,
            name: vstd::array::spec_array_fill_for_copy_type::<u8, 32>(0u8),
        }
    }

    /// The all-zero record.
    pub fn zeroed() -> (r: Self)
        ensures
            r == Self::spec_zeroed(),
    {
        DrmModeInfo {
            clock: 0,
            hdisplay: 0,
            hsync_start: 0,
            hsync_end: 0,
            htotal: 0,
            hskew: 0,
            vdisplay: 0,
            vsync_start: 0,
            vsync_end: 0,
            vtotal: 0,
            vscan: 0,
            vrefresh: 0,
            flags: 0,
            typ: 0,
            name: [0u8; 32],
        }
    }
}

pub const DRM_MODE_TYPE_PREFERRED: u32 = 1 << 3;
pub const DRM_MODE_TYPE_USERDEF: u32 = 1 << 5;
pub const DRM_MODE_TYPE_DRIVER: u32 = 1 << 6;

/// Argument record for reading one connector's state: three kernel-owned
/// arrays plus the connector's scalar attributes.
#[derive(Clone, Copy, Debug, PartialEq, Eq, Structural)]
pub struct DrmModeGetConnector {
    pub encoders_ptr: u64,
    pub modes_ptr: u64,
    pub props_ptr: u64,
    pub prop_values_ptr: u64,
    pub count_modes: u32,
    pub count_props: u32,
    pub count_encoders: u32,
    pub encoder_id: u32,
    pub connector_id: u32,
    pub connector_type: u32,
    pub connector_type_id: u32,
    pub connection: u32,
    pub mm_width: u32,
    pub mm_height: u32,
    pub subpixel: u32,
    pub _pad: u32,
}

impl DrmModeGetConnector {
    /// The all-zero record: a size probe asking for no array contents.
    pub fn zeroed() -> (r: Self)
        ensures
            r == (DrmModeGetConnector {
                encoders_ptr: 0,
                modes_ptr: 0,
                props_ptr: 0,
                prop_values_ptr: 0,
                count_modes: 0,
                count_props: 0,
                count_encoders: 0,
                encoder_id: 0,
                connector_id: 0,
                connector_type: 0,
                connector_type_id: 0,
                connection: 0,
                mm_width: 0,
                mm_height: 0,
                subpixel: 0,
                _pad: 0,
            }),
    {
        DrmModeGetConnector {
            encoders_ptr: 0,
            modes_ptr: 0,
            props_ptr: 0,
            prop_values_ptr: 0,
            count_modes: 0,
            count_props: 0,
            count_encoders: 0,
            encoder_id: 0,
            connector_id: 0,
            connector_type: 0,
            connector_type_id: 0,
            connection: 0,
            mm_width: 0,
            mm_height: 0,
            subpixel: 0,
            _pad: 0,
        }
    }

    pub fn clear_encoders_ptr(&mut self)
        ensures
            *final(self) == (DrmModeGetConnector {
                encoders_ptr: 0,
                count_encoders: 0,
                ..*old(self)
            }),
    {
        self.encoders_ptr = 0;
        self.count_encoders = 0;
    }

    pub fn count_encoders(&self) -> (r: u32)
        ensures
            r == self.count_encoders,
    {
        self.count_encoders
    }

    pub fn clear_modes_ptr(&mut self)
        ensures
            *final(self) == (DrmModeGetConnector { modes_ptr: 0, count_modes: 0, ..*old(self) }),
    {
        self.modes_ptr = 0;
        self.count_modes = 0;
    }

    pub fn count_modes(&self) -> (r: u32)
        ensures
            r == self.count_modes,
    {
        self.count_modes
    }

    pub fn clear_props_ptrs(&mut self)
        ensures
            *final(self) == (DrmModeGetConnector {
                props_ptr: 0,
                prop_values_ptr: 0,
                count_props: 0,
                ..*old(self)
            }),
    {
        self.props_ptr = 0;
        self.prop_values_ptr = 0;
        self.count_props = 0;
    }

    pub fn count_props(&self) -> (r: u32)
        ensures
            r == self.count_props,
    {
        self.count_props
    }
}

/// Reply record describing one encoder.
#[derive(Clone, Copy, Debug, PartialEq, Eq, Structural)]
pub struct DrmModeGetEncoder {
    pub encoder_id: u32,
    pub encoder_type: u32,
    pub crtc_id: u32,
    pub possible_crtcs: u32,
    pub possible_clones: u32,
}

impl DrmModeGetEncoder {
    /// The all-zero record, ready to receive a reply.
    pub fn zeroed() -> (r: Self)
        ensures
            r == (DrmModeGetEncoder {
                encoder_id: 0,
                encoder_type: 0,
                crtc_id: 0,
                possible_crtcs: 0,
                possible_clones: 0,
            }),
    {
        DrmModeGetEncoder {
            encoder_id: 0,
            encoder_type: 0,
            crtc_id: 0,
            possible_crtcs: 0,
            possible_clones: 0,
        }
    }
}

/// Argument record for reading or setting one CRTC.
#[derive(Clone, Copy, Debug, PartialEq, Eq)]
pub struct DrmModeCrtc {
    pub set_connectors_ptr: u64,
    pub count_connectors: u32,
    pub crtc_id: u32,
    pub fb_id: u32,
    pub x: u32,
    pub y: u32,
    pub gamma_size: u32,
    pub mode_valid: u32,
    pub mode: DrmModeInfo,
}

impl DrmModeCrtc {
    /// The all-zero record, ready to receive a reply.
    pub fn zeroed() -> (r: Self)
        ensures
            r.set_connectors_ptr == 0,
            r.count_connectors == 0,
            r.crtc_id == 0,
            r.fb_id == 0,
            r.x == 0,
            r.y == 0,
            r.gamma_size == 0,
            r.mode_valid == 0,
            r.mode == DrmModeInfo::spec_zeroed(),
    {
        DrmModeCrtc {
            set_connectors_ptr: 0,
            count_connectors: 0,
            crtc_id: 0,
            fb_id: 0,
            x: 0,
            y: 0,
            gamma_size: 0,
            mode_valid: 0,
            mode: DrmModeInfo::zeroed(),
        }
    }

    pub fn clear_set_connectors_ptr(&mut self)
        ensures
            *final(self) == (DrmModeCrtc {
                set_connectors_ptr: 0,
                count_connectors: 0,
                ..*old(self)
            }),
    {
        self.set_connectors_ptr = 0;
        self.count_connectors = 0;
    }
}

/// Argument record for allocating a dumb buffer: the caller fills the
/// geometry, the kernel fills handle, pitch and size.
#[derive(Clone, Copy, Debug, PartialEq, Eq, Structural)]
pub struct DrmModeCreateDumb {
    pub height: u32,
    pub width: u32,
    pub bpp: u32,
    pub flags: u32,
    pub handle: u32,
    pub pitch: u32,
    pub size: u64,
}

impl DrmModeCreateDumb {
    /// The all-zero record.
    pub fn zeroed() -> (r: Self)
        ensures
            r == (DrmModeCreateDumb {
                height: 0,
                width: 0,
                bpp: 0,
                flags: 0,
                handle: 0,
                pitch: 0,
                size: 0,
            }),
    {
        DrmModeCreateDumb { height: 0, width: 0, bpp: 0, flags: 0, handle: 0, pitch: 0, size: 0 }
    }
}

/// Argument record for asking where a dumb buffer can be mapped.
#[derive(Clone, Copy, Debug, PartialEq, Eq, Structural)]
pub struct DrmModeMapDumb {
    pub handle: u32,
    pub pad: u32,
    pub offset: u64,
}

impl DrmModeMapDumb {
    /// The all-zero record.
    pub fn zeroed() -> (r: Self)
        ensures
            r == (DrmModeMapDumb { handle: 0, pad: 0, offset: 0 }),
    {
        DrmModeMapDumb { handle: 0, pad: 0, offset: 0 }
    }
}

/// Argument record for releasing a dumb buffer.
#[derive(Clone, Copy, Debug, PartialEq, Eq, Structural)]
pub struct DrmModeDestroyDumb {
    pub handle: u32,
}

impl DrmModeDestroyDumb {
    /// The all-zero record.
    pub fn zeroed() -> (r: Self)
        ensures
            r == (DrmModeDestroyDumb { handle: 0 }),
    {
        DrmModeDestroyDumb { handle: 0 }
    }
}

/// Argument record for binding a buffer object to a framebuffer object.
#[derive(Clone, Copy, Debug, PartialEq, Eq, Structural)]
pub struct DrmModeFbCmd {
    pub fb_id: u32,
    pub width: u32,
    pub height: u32,
    pub pitch: u32,
    pub bpp: u32,
    pub depth: u32,
    pub handle: u32,
}

impl DrmModeFbCmd {
    /// The all-zero record.
    pub fn zeroed() -> (r: Self)
        ensures
            r == (DrmModeFbCmd {
                fb_id: 0,
                width: 0,
                height: 0,
                pitch: 0,
                bpp: 0,
                depth: 0,
                handle: 0,
            }),
    {
        DrmModeFbCmd { fb_id: 0, width: 0, height: 0, pitch: 0, bpp: 0, depth: 0, handle: 0 }
    }
}

/// Argument record for marking framebuffer regions as changed.
#[derive(Clone, Copy, Debug, PartialEq, Eq, Structural)]
pub struct DrmModeFbDirtyCmd {
    pub fb_id: u32,
    pub flags: u32,
    pub color: u32,
    pub num_clips: u32,
    pub clips_ptr: u64,
}

impl DrmModeFbDirtyCmd {
    /// The all-zero record.
    pub fn zeroed() -> (r: Self)
        ensures
            r == (DrmModeFbDirtyCmd { fb_id: 0, flags: 0, color: 0, num_clips: 0, clips_ptr: 0 }),
    {
        DrmModeFbDirtyCmd { fb_id: 0, flags: 0, color: 0, num_clips: 0, clips_ptr: 0 }
    }

    pub fn clear_clips_ptr(&mut self)
        ensures
            *final(self) == (DrmModeFbDirtyCmd { clips_ptr: 0, num_clips: 0, ..*old(self) }),
    {
        self.clips_ptr = 0;
        self.num_clips = 0;
    }
}

pub const DRM_MODE_FB_DIRTY_ANNOTATE_COPY: u32 = 0x01;
pub const DRM_MODE_FB_DIRTY_ANNOTATE_FILL: u32 = 0x02;
pub const DRM_MODE_FB_DIRTY_FLAGS: u32 = 0x03;
pub const DRM_MODE_FB_DIRTY_MAX_CLIPS: u32 = 256;

/// One clip rectangle for a dirty-framebuffer request.
#[derive(Clone, Copy, Debug, PartialEq, Eq, Structural)]
pub struct DrmClipRect {
    pub x1: u16,
    pub y1: u16,
    pub x2: u16,
    pub y2: u16,
}

/// Argument record for a legacy page-flip request.
#[derive(Clone, Copy, Debug, PartialEq, Eq, Structural)]
pub struct DrmModeCrtcPageFlip {
    pub crtc_id: u32,
    pub fb_id: u32,
    pub flags: u32,
    /// Must always be set to zero.
    pub reserved: u32,
    pub user_data: u64,
}

impl DrmModeCrtcPageFlip {
    /// The all-zero record.
    pub fn zeroed() -> (r: Self)
        ensures
            r == (DrmModeCrtcPageFlip { crtc_id: 0, fb_id: 0, flags: 0, reserved: 0, user_data: 0 }),
    {
        DrmModeCrtcPageFlip { crtc_id: 0, fb_id: 0, flags: 0, reserved: 0, user_data: 0 }
    }
}

pub const DRM_MODE_PAGE_FLIP_EVENT: u32 = 0x01;
pub const DRM_MODE_PAGE_FLIP_ASYNC: u32 = 0x02;
pub const DRM_MODE_PAGE_FLIP_TARGET_ABSOLUTE: u32 = 0x4;
pub const DRM_MODE_PAGE_FLIP_TARGET_RELATIVE: u32 = 0x8;
pub const DRM_MODE_PAGE_FLIP_TARGET: u32 = DRM_MODE_PAGE_FLIP_TARGET_ABSOLUTE
    | DRM_MODE_PAGE_FLIP_TARGET_RELATIVE;
pub const DRM_MODE_PAGE_FLIP_FLAGS: u32 = DRM_MODE_PAGE_FLIP_EVENT | DRM_MODE_PAGE_FLIP_ASYNC
    | DRM_MODE_PAGE_FLIP_TARGET;

pub const DRM_MODE_CURSOR_BO: u32 = 0x01;
pub const DRM_MODE_CURSOR_MOVE: u32 = 0x02;
pub const DRM_MODE_CURSOR_FLAGS: u32 = 0x03;

/// Argument record for an atomic commit: five parallel-array pointers and
/// counts, plus the commit flags and the caller's correlation token.
#[derive(Clone, Copy, Debug, PartialEq, Eq, Structural)]
pub struct DrmModeAtomic {
    pub flags: u32,
    pub count_objs: u32,
    pub objs_ptr: u64,
    pub count_props_ptr: u64,
    pub props_ptr: u64,
    pub prop_values_ptr: u64,
    pub reserved: u64,
    pub user_data: u64,
}

impl DrmModeAtomic {
    /// The all-zero record.
    pub fn zeroed() -> (r: Self)
        ensures
            r == (DrmModeAtomic {
                flags: 0,
                count_objs: 0,
                objs_ptr: 0,
                count_props_ptr: 0,
                props_ptr: 0,
                prop_values_ptr: 0,
                reserved: 0,
                user_data: 0,
            }),
    {
        DrmModeAtomic {
            flags: 0,
            count_objs: 0,
            objs_ptr: 0,
            count_props_ptr: 0,
            props_ptr: 0,
            prop_values_ptr: 0,
            reserved: 0,
            user_data: 0,
        }
    }

    pub fn clear_ptrs(&mut self)
        ensures
            *final(self) == (DrmModeAtomic {
                objs_ptr: 0,
                count_props_ptr: 0,
                count_objs: 0,
                props_ptr: 0,
                prop_values_ptr: 0,
                ..*old(self)
            }),
    {
        self.objs_ptr = 0;
        self.count_props_ptr = 0;
        self.count_objs = 0;
        self.props_ptr = 0;
        self.prop_values_ptr = 0;
    }
}

pub const DRM_MODE_ATOMIC_TEST_ONLY: u32 = 0x0100;
pub const DRM_MODE_ATOMIC_NONBLOCK: u32 = 0x0200;
pub const DRM_MODE_ATOMIC_ALLOW_MODESET: u32 = 0x0400;
pub const DRM_MODE_ATOMIC_FLAGS: u32 = DRM_MODE_PAGE_FLIP_EVENT | DRM_MODE_PAGE_FLIP_ASYNC
    | DRM_MODE_ATOMIC_TEST_ONLY | DRM_MODE_ATOMIC_NONBLOCK | DRM_MODE_ATOMIC_ALLOW_MODESET;

/// Argument record for listing one object's property (id, value) pairs.
#[derive(Clone, Copy, Debug, PartialEq, Eq, Structural)]
pub struct DrmModeObjGetProperties {
    pub props_ptr: u64,
    pub prop_values_ptr: u64,
    pub count_props: u32,
    pub obj_id: u32,
    pub obj_type: u32,
}

impl DrmModeObjGetProperties {
    /// The all-zero record: a size probe asking for no array contents.
    pub fn zeroed() -> (r: Self)
        ensures
            r == (DrmModeObjGetProperties {
                props_ptr: 0,
                prop_values_ptr: 0,
                count_props: 0,
                obj_id: 0,
                obj_type: 0,
            }),
    {
        DrmModeObjGetProperties {
            props_ptr: 0,
            prop_values_ptr: 0,
            count_props: 0,
            obj_id: 0,
            obj_type: 0,
        }
    }

    pub fn clear_prop_attrs(&mut self)
        ensures
            *final(self) == (DrmModeObjGetProperties {
                props_ptr: 0,
                prop_values_ptr: 0,
                count_props: 0,
                ..*old(self)
            }),
    {
        self.props_ptr = 0;
        self.prop_values_ptr = 0;
        self.count_props = 0;
    }

    pub fn count_props(&self) -> (r: u32)
        ensures
            r == self.count_props,
    {
        self.count_props
    }
}

/// Argument record for the legacy single-property set call.
#[derive(Clone, Copy, Debug, PartialEq, Eq, Structural)]
pub struct DrmModeObjSetProperty {
    pub value: u64,
    pub prop_id: u32,
    pub obj_id: u32,
    pub obj_type: u32,
}

impl DrmModeObjSetProperty {
    /// The all-zero record.
    pub fn zeroed() -> (r: Self)
        ensures
            r == (DrmModeObjSetProperty { value: 0, prop_id: 0, obj_id: 0, obj_type: 0 }),
    {
        DrmModeObjSetProperty { value: 0, prop_id: 0, obj_id: 0, obj_type: 0 }
    }
}

pub const DRM_MODE_OBJECT_CRTC: u32 = 0xcccccccc;
pub const DRM_MODE_OBJECT_CONNECTOR: u32 = 0xc0c0c0c0;
pub const DRM_MODE_OBJECT_ENCODER: u32 = 0xe0e0e0e0;
pub const DRM_MODE_OBJECT_MODE: u32 = 0xdededede;
pub const DRM_MODE_OBJECT_PROPERTY: u32 = 0xb0b0b0b0;
pub const DRM_MODE_OBJECT_FB: u32 = 0xfbfbfbfb;
pub const DRM_MODE_OBJECT_BLOB: u32 = 0xbbbbbbbb;
pub const DRM_MODE_OBJECT_PLANE: u32 = 0xeeeeeeee;
pub const DRM_MODE_OBJECT_ANY: u32 = 0;

/// Argument record for listing the plane ids.
#[derive(Clone, Copy, Debug, PartialEq, Eq, Structural)]
pub struct DrmModeGetPlaneRes {
    pub plane_id_ptr: u64,
    pub count_planes: u32,
}

impl DrmModeGetPlaneRes {
    /// The all-zero record: a size probe asking for no array contents.
    pub fn zeroed() -> (r: Self)
        ensures
            r == (DrmModeGetPlaneRes { plane_id_ptr: 0, count_planes: 0 }),
    {
        DrmModeGetPlaneRes { plane_id_ptr: 0, count_planes: 0 }
    }

    pub fn clear_plane_id_ptr(&mut self)
        ensures
            *final(self) == (DrmModeGetPlaneRes { plane_id_ptr: 0, count_planes: 0 }),
    {
        self.plane_id_ptr = 0;
        self.count_planes = 0;
    }

    pub fn count_planes(&self) -> (r: u32)
        ensures
            r == self.count_planes,
    {
        self.count_planes
    }
}

/// Argument record for reading one plane's state.
#[derive(Clone, Copy, Debug, PartialEq, Eq, Structural)]
pub struct DrmModeGetPlane {
    pub plane_id: u32,
    pub crtc_id: u32,
    pub fb_id: u32,
    pub possible_crtcs: u32,
    pub gamma_size: u32,
    pub count_format_types: u32,
    pub format_type_ptr: u64,
}

impl DrmModeGetPlane {
    /// The all-zero record: a size probe asking for no array contents.
    pub fn zeroed() -> (r: Self)
        ensures
            r == (DrmModeGetPlane {
                plane_id: 0,
                crtc_id: 0,
                fb_id: 0,
                possible_crtcs: 0,
                gamma_size: 0,
                count_format_types: 0,
                format_type_ptr: 0,
            }),
    {
        DrmModeGetPlane {
            plane_id: 0,
            crtc_id: 0,
            fb_id: 0,
            possible_crtcs: 0,
            gamma_size: 0,
            count_format_types: 0,
            format_type_ptr: 0,
        }
    }

    pub fn clear_format_type_ptr(&mut self)
        ensures
            *final(self) == (DrmModeGetPlane {
                format_type_ptr: 0,
                count_format_types: 0,
                ..*old(self)
            }),
    {
        self.format_type_ptr = 0;
        self.count_format_types = 0;
    }

    pub fn count_format_types(&self) -> (r: u32)
        ensures
            r == self.count_format_types,
    {
        self.count_format_types
    }
}

/// Argument record for attaching a plane to a CRTC.
#[derive(Clone, Copy, Debug, PartialEq, Eq, Structural)]
pub struct DrmModeSetPlane {
    pub plane_id: u32,
    pub crtc_id: u32,
    pub fb_id: u32,
    pub flags: u32,
    pub crtc_x: i32,
    pub crtc_y: i32,
    pub crtc_w: u32,
    pub crtc_h: u32,
    pub src_x: fixedu16_16,
    pub src_y: fixedu16_16,
    pub src_h: fixedu16_16,
    pub src_w: fixedu16_16,
}

impl DrmModeSetPlane {
    /// The all-zero record.
    pub fn zeroed() -> (r: Self)
        ensures
            r == (DrmModeSetPlane {
                plane_id: 0,
                crtc_id: 0,
                fb_id: 0,
                flags: 0,
                crtc_x: 0,
                crtc_y: 0,
                crtc_w: 0,
                crtc_h: 0,
                src_x: fixedu16_16(0),
                src_y: fixedu16_16(0),
                src_h: fixedu16_16(0),
                src_w: fixedu16_16(0),
            }),
    {
        DrmModeSetPlane {
            plane_id: 0,
            crtc_id: 0,
            fb_id: 0,
            flags: 0,
            crtc_x: 0,
            crtc_y: 0,
            crtc_w: 0,
            crtc_h: 0,
            src_x: fixedu16_16(0),
            src_y: fixedu16_16(0),
            src_h: fixedu16_16(0),
            src_w: fixedu16_16(0),
        }
    }
}

pub const DRM_MODE_PRESENT_TOP_FIELD: u32 = 1 << 0;
pub const DRM_MODE_PRESENT_BOTTOM_FIELD: u32 = 1 << 1;

/// Argument record for fetching one property's metadata: the name and
/// flags, plus two kernel-owned arrays for values and enum members.
#[derive(Clone, Copy, Debug, PartialEq, Eq)]
pub struct DrmModeGetProperty {
    pub values_ptr: u64,
    pub enum_blob_ptr: u64,
    pub prop_id: u32,
    pub flags: u32,
    pub name: [u8; DRM_PROP_NAME_LEN],
    pub count_values: u32,
    pub count_enum_blobs: u32,
}

impl DrmModeGetProperty {
    /// The all-zero record: a size probe asking for no array contents.
    pub fn zeroed() -> (r: Self)
        ensures
            r.values_ptr == 0,
            r.enum_blob_ptr == 0,
            r.prop_id == 0,
            r.flags == 0,
            r.name == vstd::array::spec_array_fill_for_copy_type::<u8, 32>(0u8),
            r.count_values == 0,
            r.count_enum_blobs == 0,
    {
        DrmModeGetProperty {
            values_ptr: 0,
            enum_blob_ptr: 0,
            prop_id: 0,
            flags: 0,
            name: [0u8; 32],
            count_values: 0,
            count_enum_blobs: 0,
        }
    }

    pub fn clear_values_ptr(&mut self)
        ensures
            *final(self) == (DrmModeGetProperty { values_ptr: 0, count_values: 0, ..*old(self) }),
    {
        self.values_ptr = 0;
        self.count_values = 0;
    }

    pub fn count_values(&self) -> (r: u32)
        ensures
            r == self.count_values,
    {
        self.count_values
    }

    pub fn clear_enum_blob_ptr(&mut self)
        ensures
            *final(self) == (DrmModeGetProperty {
                enum_blob_ptr: 0,
                count_enum_blobs: 0,
                ..*old(self)
            }),
    {
        self.enum_blob_ptr = 0;
        self.count_enum_blobs = 0;
    }

    pub fn count_enum_blobs(&self) -> (r: u32)
        ensures
            r == self.count_enum_blobs,
    {
        self.count_enum_blobs
    }
}

/// One member of an enum- or bitmask-typed property: a value and its name.
#[derive(Clone, Copy, Debug, PartialEq, Eq)]
pub struct DrmModePropertyEnum {
    pub value: u64,
    pub name: [u8; DRM_PROP_NAME_LEN],
}

impl DrmModePropertyEnum {
    /// The all-zero record.
    pub fn zeroed() -> (r: Self)
        ensures
            r.value == 0,
            r.name == vstd::array::spec_array_fill_for_copy_type::<u8, 32>(0u8),
    {
        DrmModePropertyEnum { value: 0, name: [0u8; 32] }
    }
}

pub const DRM_MODE_PROP_PENDING: u32 = 1 << 0;
pub const DRM_MODE_PROP_RANGE: u32 = 1 << 1;
pub const DRM_MODE_PROP_IMMUTABLE: u32 = 1 << 2;
pub const DRM_MODE_PROP_ENUM: u32 = 1 << 3;
pub const DRM_MODE_PROP_BLOB: u32 = 1 << 4;
pub const DRM_MODE_PROP_BITMASK: u32 = 1 << 5;
pub const DRM_MODE_PROP_LEGACY_TYPE: u32 = DRM_MODE_PROP_RANGE | DRM_MODE_PROP_ENUM
    | DRM_MODE_PROP_BLOB | DRM_MODE_PROP_BITMASK;
pub const DRM_MODE_PROP_EXTENDED_TYPE: u32 = 0x0000ffc0;
pub const DRM_MODE_PROP_OBJECT: u32 = 1 << 6;
pub const DRM_MODE_PROP_SIGNED_RANGE: u32 = 2 << 6;

/// The extended property-type value with the given number, shifted into
/// the extended-type bit group.
#[allow(non_snake_case)]
pub fn DRM_MODE_PROP_TYPE(n: u32) -> (r: u32)
    ensures
        r == n << 6,
{
    n << 6
}

/// Argument record for creating a property blob from caller bytes.
#[derive(Clone, Copy, Debug, PartialEq, Eq, Structural)]
pub struct DrmModeCreateBlob {
    pub data: u64,
    pub length: u32,
    pub blob_id: u32,
}

impl DrmModeCreateBlob {
    /// The all-zero record.
    pub fn zeroed() -> (r: Self)
        ensures
            r == (DrmModeCreateBlob { data: 0, length: 0, blob_id: 0 }),
    {
        DrmModeCreateBlob { data: 0, length: 0, blob_id: 0 }
    }

    pub fn clear_data(&mut self)
        ensures
            *final(self) == (DrmModeCreateBlob { data: 0, length: 0, ..*old(self) }),
    {
        self.data = 0;
        self.length = 0;
    }
}

/// Argument record for destroying a property blob.
#[derive(Clone, Copy, Debug, PartialEq, Eq, Structural)]
pub struct DrmModeDestroyBlob {
    pub blob_id: u32,
}

impl DrmModeDestroyBlob {
    /// The all-zero record.
    pub fn zeroed() -> (r: Self)
        ensures
            r == (DrmModeDestroyBlob { blob_id: 0 }),
    {
        DrmModeDestroyBlob { blob_id: 0 }
    }
}

} // verus!
