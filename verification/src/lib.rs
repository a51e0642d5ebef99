//! A safe abstraction layer over the Linux DRM (direct rendering manager)
//! control-plane interface: resource discovery, property metadata, atomic
//! commits, dumb-buffer management and event decoding.
//!
//! The privileged exchanges themselves (opening the card device, issuing
//! `ioctl` requests, mapping buffers, reading the event stream) are left to
//! the calling program; this crate holds the request encodings, the reply
//! validation, the retry decisions and the data-model conversions, each with
//! a verified contract.

pub mod event;
pub mod fetch;
pub mod ioctl;
pub mod modeset;
pub mod result;

use vstd::prelude::*;

verus! {

/// DRM API version information.
#[derive(Clone, Copy, Debug, PartialEq, Eq, Structural)]
pub struct ApiVersion {
    pub major: i64,
    pub minor: i64,
    pub patch: i64,
}

impl ApiVersion {
    /// Assemble the version triple from the integer fields of a raw
    /// version reply.
    pub fn from_raw(major: i32, minor: i32, patch: i32) -> (v: ApiVersion)
        ensures
            v.major == major as i64,
            v.minor == minor as i64,
            v.patch == patch as i64,
    {
        ApiVersion { major: major as i64, minor: minor as i64, patch: patch as i64 }
    }
}

/// Decide whether a failed device exchange must be reissued unchanged.
///
/// Interruption by a signal is the only outcome that is retried
/// transparently; every other outcome propagates to the caller.
pub fn request_interrupted(raw_error: i32) -> (r: bool)
    ensures
        r <==> raw_error == crate::result::EINTR,
{
    raw_error == crate::result::EINTR
}

/// Enumeration of DRM device capabilities.
#[derive(Debug, Clone, Copy, PartialEq, Eq, Structural)]
#[non_exhaustive]
pub enum DeviceCap {
    DumbBuffer,
    VBlankHighCrtc,
    DumbPreferredDepth,
    DumbPreferShadow,
    Prime,
    TimestampMonotonic,
    AsyncPageFlip,
    CursorWidth,
    CursorHeight,
    Addfb2Modifiers,
    PageFlipTarget,
    CrtcInVblankEvent,
    Syncobj,
    SyncobjTimeline,
}

/// The raw capability number of a device capability.
pub open spec fn spec_device_cap_raw(c: DeviceCap) -> u64 {
    match c {
        DeviceCap::DumbBuffer => ioctl::DRM_CAP_DUMB_BUFFER,
        DeviceCap::VBlankHighCrtc => ioctl::DRM_CAP_VBLANK_HIGH_CRTC,
        DeviceCap::DumbPreferredDepth => ioctl::DRM_CAP_DUMB_PREFERRED_DEPTH,
        DeviceCap::DumbPreferShadow => ioctl::DRM_CAP_DUMB_PREFER_SHADOW,
        DeviceCap::Prime => ioctl::DRM_CAP_PRIME,
        DeviceCap::TimestampMonotonic => ioctl::DRM_CAP_TIMESTAMP_MONOTONIC,
        DeviceCap::AsyncPageFlip => ioctl::DRM_CAP_ASYNC_PAGE_FLIP,
        DeviceCap::CursorWidth => ioctl::DRM_CAP_CURSOR_WIDTH,
        DeviceCap::CursorHeight => ioctl::DRM_CAP_CURSOR_HEIGHT,
        DeviceCap::Addfb2Modifiers => ioctl::DRM_CAP_ADDFB2_MODIFIERS,
        DeviceCap::PageFlipTarget => ioctl::DRM_CAP_PAGE_FLIP_TARGET,
        DeviceCap::CrtcInVblankEvent => ioctl::DRM_CAP_CRTC_IN_VBLANK_EVENT,
        DeviceCap::Syncobj => ioctl::DRM_CAP_SYNCOBJ,
        DeviceCap::SyncobjTimeline => ioctl::DRM_CAP_SYNCOBJ_TIMELINE,
    }
}

impl DeviceCap {
    /// The raw capability number sent to the device.
    pub fn to_raw(self) -> (r: ioctl::DrmCap)
        ensures
            r.0 == spec_device_cap_raw(self),
    {
        ioctl::DrmCap(
            match self {
                DeviceCap::DumbBuffer => ioctl::DRM_CAP_DUMB_BUFFER,
                DeviceCap::VBlankHighCrtc => ioctl::DRM_CAP_VBLANK_HIGH_CRTC,
                DeviceCap::DumbPreferredDepth => ioctl::DRM_CAP_DUMB_PREFERRED_DEPTH,
                DeviceCap::DumbPreferShadow => ioctl::DRM_CAP_DUMB_PREFER_SHADOW,
                DeviceCap::Prime => ioctl::DRM_CAP_PRIME,
                DeviceCap::TimestampMonotonic => ioctl::DRM_CAP_TIMESTAMP_MONOTONIC,
                DeviceCap::AsyncPageFlip => ioctl::DRM_CAP_ASYNC_PAGE_FLIP,
                DeviceCap::CursorWidth => ioctl::DRM_CAP_CURSOR_WIDTH,
                DeviceCap::CursorHeight => ioctl::DRM_CAP_CURSOR_HEIGHT,
                DeviceCap::Addfb2Modifiers => ioctl::DRM_CAP_ADDFB2_MODIFIERS,
                DeviceCap::PageFlipTarget => ioctl::DRM_CAP_PAGE_FLIP_TARGET,
                DeviceCap::CrtcInVblankEvent => ioctl::DRM_CAP_CRTC_IN_VBLANK_EVENT,
                DeviceCap::Syncobj => ioctl::DRM_CAP_SYNCOBJ,
                DeviceCap::SyncobjTimeline => ioctl::DRM_CAP_SYNCOBJ_TIMELINE,
            },
        )
    }
}

/// Enumeration of DRM client capabilities.
#[derive(Debug, Clone, Copy, PartialEq, Eq, Structural)]
#[non_exhaustive]
pub enum ClientCap {
    Stereo3d,
    UniversalPlanes,
    Atomic,
    AspectRatio,
    WritebackConnectors,
}

/// The raw capability number of a client capability.
pub open spec fn spec_client_cap_raw(c: ClientCap) -> u64 {
    match c {
        ClientCap::Stereo3d => ioctl::DRM_CLIENT_CAP_STEREO_3D,
        ClientCap::UniversalPlanes => ioctl::DRM_CLIENT_CAP_UNIVERSAL_PLANES,
        ClientCap::Atomic => ioctl::DRM_CLIENT_CAP_ATOMIC,
        ClientCap::AspectRatio => ioctl::DRM_CLIENT_CAP_ASPECT_RATIO,
        ClientCap::WritebackConnectors => ioctl::DRM_CLIENT_CAP_WRITEBACK_CONNECTORS,
    }
}

impl ClientCap {
    /// The raw capability number sent to the device.
    pub fn to_raw(self) -> (r: ioctl::DrmClientCap)
        ensures
            r.0 == spec_client_cap_raw(self),
    {
        ioctl::DrmClientCap(
            match self {
                ClientCap::Stereo3d => ioctl::DRM_CLIENT_CAP_STEREO_3D,
                ClientCap::UniversalPlanes => ioctl::DRM_CLIENT_CAP_UNIVERSAL_PLANES,
                ClientCap::Atomic => ioctl::DRM_CLIENT_CAP_ATOMIC,
                ClientCap::AspectRatio => ioctl::DRM_CLIENT_CAP_ASPECT_RATIO,
                ClientCap::WritebackConnectors => ioctl::DRM_CLIENT_CAP_WRITEBACK_CONNECTORS,
            },
        )
    }
}

/// An empty vector with at least the given capacity reserved, intended
/// to be filled by the device up to that count. A reservation the system
/// cannot satisfy surfaces as `SystemMem` instead of aborting the
/// process.
pub fn vec_with_capacity<T>(capacity: usize) -> (r: Result<Vec<T>, result::Error>)
    ensures
        r matches Ok(v) ==> v@.len() == 0,
        r is Err ==> r == Result::<Vec<T>, result::Error>::Err(result::Error::SystemMem),
{
    let mut v: Vec<T> = Vec::new();
    match v.try_reserve(capacity) {
        Ok(_) => Ok(v),
        Err(_) => Err(result::Error::SystemMem),
    }
}

/// The argument record for reading one device capability.
pub fn get_cap_request(capability: ioctl::DrmCap) -> (r: ioctl::DrmGetCap)
    ensures
        r.capability == capability,
        r.value == 0,
{
    ioctl::DrmGetCap { capability, value: 0 }
}

/// The argument record for setting one client capability.
pub fn set_client_cap_request(capability: ioctl::DrmClientCap, value: u64) -> (r:
    ioctl::DrmSetClientCap)
    ensures
        r.capability == capability,
        r.value == value,
{
    ioctl::DrmSetClientCap { capability, value }
}

/// The size probe for one property's metadata: name, flags and element
/// counts come back, no array contents yet.
pub fn property_meta_request(prop_id: modeset::PropertyId) -> (r: ioctl::DrmModeGetProperty)
    ensures
        r.prop_id == prop_id.0,
        r.values_ptr == 0,
        r.enum_blob_ptr == 0,
        r.count_values == 0,
        r.count_enum_blobs == 0,
{
    let mut tmp = ioctl::DrmModeGetProperty::zeroed();
    tmp.prop_id = prop_id.0;
    tmp
}

/// The size probe for one object's property list.
pub fn object_properties_request(obj_id: modeset::ObjectId) -> (r: ioctl::DrmModeObjGetProperties)
    ensures
        r.obj_type == modeset::spec_object_kind(obj_id),
        r.obj_id == modeset::spec_object_raw_id(obj_id),
        r.props_ptr == 0,
        r.prop_values_ptr == 0,
        r.count_props == 0,
{
    let (type_id, raw_id) = obj_id.as_raw_type_and_id();
    let mut tmp = ioctl::DrmModeObjGetProperties::zeroed();
    tmp.obj_type = type_id;
    tmp.obj_id = raw_id;
    tmp
}

/// The size probe for one connector's state.
pub fn connector_state_request(connector_id: modeset::ConnectorId) -> (r:
    ioctl::DrmModeGetConnector)
    ensures
        r.connector_id == connector_id.0,
        r.encoders_ptr == 0,
        r.modes_ptr == 0,
        r.props_ptr == 0,
        r.prop_values_ptr == 0,
        r.count_modes == 0,
        r.count_props == 0,
        r.count_encoders == 0,
{
    let mut tmp = ioctl::DrmModeGetConnector::zeroed();
    tmp.connector_id = connector_id.0;
    tmp
}

/// The argument record for reading one encoder's state.
pub fn encoder_state_request(encoder_id: modeset::EncoderId) -> (r: ioctl::DrmModeGetEncoder)
    ensures
        r.encoder_id == encoder_id.0,
        r.encoder_type == 0,
        r.crtc_id == 0,
        r.possible_crtcs == 0,
        r.possible_clones == 0,
{
    let mut tmp = ioctl::DrmModeGetEncoder::zeroed();
    tmp.encoder_id = encoder_id.0;
    tmp
}

/// The argument record for reading one CRTC's state.
pub fn crtc_state_request(crtc_id: modeset::CrtcId) -> (r: ioctl::DrmModeCrtc)
    ensures
        r.crtc_id == crtc_id.0,
        r.set_connectors_ptr == 0,
        r.count_connectors == 0,
        r.fb_id == 0,
        r.mode_valid == 0,
{
    let mut tmp = ioctl::DrmModeCrtc::zeroed();
    tmp.crtc_id = crtc_id.0;
    tmp
}

/// The size probe for one plane's state.
pub fn plane_state_request(plane_id: modeset::PlaneId) -> (r: ioctl::DrmModeGetPlane)
    ensures
        r.plane_id == plane_id.0,
        r.format_type_ptr == 0,
        r.count_format_types == 0,
{
    let mut tmp = ioctl::DrmModeGetPlane::zeroed();
    tmp.plane_id = plane_id.0;
    tmp
}

/// The argument record for an atomic commit, before the caller attaches
/// the serialized arrays' addresses and counts.
pub fn atomic_commit_record(flags: modeset::AtomicCommitFlags, user_data: u64) -> (r:
    ioctl::DrmModeAtomic)
    ensures
        r.flags == flags.0,
        r.user_data == user_data,
        r.count_objs == 0,
        r.objs_ptr == 0,
        r.count_props_ptr == 0,
        r.props_ptr == 0,
        r.prop_values_ptr == 0,
        r.reserved == 0,
{
    let mut tmp = ioctl::DrmModeAtomic::zeroed();
    tmp.flags = flags.to_raw();
    tmp.user_data = user_data;
    tmp
}

/// The argument record for creating a property blob of the given number
/// of content bytes, before the caller attaches the content's address.
/// Content longer than the record's 32-bit length field can carry is
/// rejected as invalid.
pub fn create_blob_request(content_len: usize) -> (r: Result<ioctl::DrmModeCreateBlob,
    result::Error>)
    ensures
        content_len > u32::MAX ==> r == Result::<ioctl::DrmModeCreateBlob, result::Error>::Err(
            result::Error::Invalid,
        ),
        content_len <= u32::MAX ==> (r matches Result::Ok(req) && req.length == content_len
            && req.data == 0 && req.blob_id == 0),
{
    if content_len > (u32::MAX as usize) {
        return Err(result::Error::Invalid);
    }
    let mut tmp = ioctl::DrmModeCreateBlob::zeroed();
    tmp.length = content_len as u32;
    Ok(tmp)
}

/// The argument record for resetting a CRTC to its default settings.
pub fn reset_crtc_request(crtc_id: modeset::CrtcId) -> (r: ioctl::DrmModeCrtc)
    ensures
        r.crtc_id == crtc_id.0,
        r.fb_id == 0,
        r.mode_valid == 0,
        r.set_connectors_ptr == 0,
        r.count_connectors == 0,
{
    let mut tmp = ioctl::DrmModeCrtc::zeroed();
    tmp.crtc_id = crtc_id.0;
    tmp
}

/// The argument record for pointing a CRTC at a dumb buffer under the
/// given mode, before the caller attaches the connector list's address.
/// A connector list longer than the record's 32-bit count field can
/// carry is rejected as invalid.
pub fn set_crtc_request(
    crtc_id: modeset::CrtcId,
    buf: &modeset::DumbBuffer,
    mode: &modeset::ModeInfo,
    connector_count: usize,
) -> (r: Result<ioctl::DrmModeCrtc, result::Error>)
    ensures
        connector_count > u32::MAX ==> r == Result::<ioctl::DrmModeCrtc, result::Error>::Err(
            result::Error::Invalid,
        ),
        connector_count <= u32::MAX ==> (r matches Result::Ok(req) && req.crtc_id == crtc_id.0
            && req.fb_id == buf.fb_id && req.count_connectors == connector_count
            && req.set_connectors_ptr == 0 && req.mode_valid == 1
            && modeset::spec_raw_matches_mode_info(req.mode, *mode)),
{
    if connector_count > (u32::MAX as usize) {
        return Err(result::Error::Invalid);
    }
    let mut tmp = ioctl::DrmModeCrtc::zeroed();
    tmp.crtc_id = crtc_id.0;
    tmp.count_connectors = connector_count as u32;
    tmp.fb_id = buf.framebuffer_id();
    tmp.mode = mode.to_raw();
    tmp.mode_valid = 1;
    Ok(tmp)
}

/// The argument record for a page flip of a CRTC to a dumb buffer.
pub fn page_flip_request(
    crtc_id: modeset::CrtcId,
    buf: &modeset::DumbBuffer,
    flags: modeset::PageFlipFlags,
    user_data: u64,
) -> (r: ioctl::DrmModeCrtcPageFlip)
    ensures
        r == (ioctl::DrmModeCrtcPageFlip {
            crtc_id: crtc_id.0,
            fb_id: buf.fb_id,
            flags: flags.0,
            reserved: 0,
            user_data: user_data,
        }),
{
    let mut tmp = ioctl::DrmModeCrtcPageFlip::zeroed();
    tmp.crtc_id = crtc_id.0;
    tmp.fb_id = buf.framebuffer_id();
    tmp.flags = flags.to_raw();
    tmp.user_data = user_data;
    tmp
}

/// The four array counts of a resource-snapshot record, in the fixed
/// order framebuffers, CRTCs, connectors, encoders, ready for the
/// size-then-content tracker.
pub fn card_res_counts(r: &ioctl::DrmModeCardRes) -> (c: Vec<u32>)
    ensures
        c@ == seq![r.count_fbs, r.count_crtcs, r.count_connectors, r.count_encoders],
{
    let mut c: Vec<u32> = Vec::new();
    c.push(r.count_fbs);
    c.push(r.count_crtcs);
    c.push(r.count_connectors);
    c.push(r.count_encoders);
    proof {
        assert(c@ =~= seq![r.count_fbs, r.count_crtcs, r.count_connectors, r.count_encoders]);
    }
    c
}

/// The three array counts of a connector-state record, in the fixed
/// order modes, properties, encoders, ready for the size-then-content
/// tracker.
pub fn connector_counts(r: &ioctl::DrmModeGetConnector) -> (c: Vec<u32>)
    ensures
        c@ == seq![r.count_modes, r.count_props, r.count_encoders],
{
    let mut c: Vec<u32> = Vec::new();
    c.push(r.count_modes);
    c.push(r.count_props);
    c.push(r.count_encoders);
    proof {
        assert(c@ =~= seq![r.count_modes, r.count_props, r.count_encoders]);
    }
    c
}

} // verus!
