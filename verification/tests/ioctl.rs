//! Request codes, wire records and fixed-point plane coordinates.

use linux_drm::ioctl::{
    fixedu16_16, DrmModeAtomic, DrmModeCardRes, DrmModeCreateBlob, DrmModeFbDirtyCmd,
    DrmModeGetConnector, DrmModeGetPlane, DrmModeGetPlaneRes, DrmModeGetProperty,
    DrmModeObjGetProperties, DRM_MODE_PROP_TYPE, _IO, _IOR, _IOW, _IOWR,
};
use linux_drm::modeset::{dumb_buffer_from_parts, CrtcId, ModeInfo, PageFlipFlags};
use linux_drm::result::Error;
use linux_drm::{create_blob_request, page_flip_request, set_crtc_request};

#[test]
fn request_codes_follow_the_ioctl_numbering_scheme() {
    // The version request: read-write, request 0, a 64-byte record.
    assert_eq!(_IOWR(0x00, 64), 0xc040_6400);
    // Becoming master carries no data.
    assert_eq!(_IO(0x1e), 0x641e);
    // Setting a client capability writes a 16-byte record.
    assert_eq!(_IOW(0x0d, 16), 0x4010_640d);
    // A pure read of a 16-byte record.
    assert_eq!(_IOR(0x0c, 16), 0x8010_640c);
}

#[test]
fn request_codes_vary_with_number_and_size() {
    assert_ne!(_IOWR(0xa0, 64), _IOWR(0xa1, 64));
    assert_ne!(_IOWR(0xa0, 64), _IOWR(0xa0, 72));
    assert_eq!(_IOWR(0xbc, 56) & 0xff, 0xbc);
}

#[test]
fn fixed_point_coordinates_shift_the_whole_part() {
    assert_eq!(fixedu16_16::from_u16(1).as_raw_u32(), 0x1_0000);
    assert_eq!(fixedu16_16::from_u16(640).as_raw_u32(), 640 * 0x1_0000);
    assert_eq!(fixedu16_16::from_u16_frac(1, 2).as_raw_u32(), 0x1_0002);
    assert_eq!(fixedu16_16::from_u16(0).as_raw_u32(), 0);
}

#[test]
fn extended_property_type_values_shift_into_the_high_group() {
    assert_eq!(DRM_MODE_PROP_TYPE(1), 64);
    assert_eq!(DRM_MODE_PROP_TYPE(2), 128);
}

#[test]
fn clearing_pointers_zeroes_the_pair_fields_only() {
    let mut res = DrmModeCardRes::zeroed();
    res.min_width = 16;
    res.fb_id_ptr = 0xdead;
    res.count_fbs = 3;
    res.crtc_id_ptr = 0xbeef;
    res.count_crtcs = 4;
    res.clear_fb_id_ptr();
    assert_eq!(res.fb_id_ptr, 0);
    assert_eq!(res.count_fbs(), 0);
    assert_eq!(res.crtc_id_ptr, 0xbeef);
    assert_eq!(res.count_crtcs(), 4);
    res.clear_crtc_id_ptr();
    res.clear_connector_id_ptr();
    res.clear_encoder_id_ptr();
    assert_eq!(res.count_crtcs(), 0);
    assert_eq!(res.count_connectors(), 0);
    assert_eq!(res.count_encoders(), 0);
    assert_eq!(res.min_width, 16);
}

#[test]
fn connector_record_clears_each_array_independently() {
    let mut conn = DrmModeGetConnector::zeroed();
    conn.connector_id = 5;
    conn.modes_ptr = 1;
    conn.count_modes = 2;
    conn.props_ptr = 3;
    conn.prop_values_ptr = 4;
    conn.count_props = 5;
    conn.encoders_ptr = 6;
    conn.count_encoders = 7;
    conn.clear_modes_ptr();
    assert_eq!(conn.count_modes(), 0);
    assert_eq!(conn.count_props(), 5);
    conn.clear_props_ptrs();
    assert_eq!(conn.props_ptr, 0);
    assert_eq!(conn.prop_values_ptr, 0);
    assert_eq!(conn.count_props(), 0);
    conn.clear_encoders_ptr();
    assert_eq!(conn.count_encoders(), 0);
    assert_eq!(conn.connector_id, 5);
}

#[test]
fn remaining_records_clear_their_pointer_pairs() {
    let mut props = DrmModeObjGetProperties::zeroed();
    props.props_ptr = 1;
    props.prop_values_ptr = 2;
    props.count_props = 3;
    props.clear_prop_attrs();
    assert_eq!(props.count_props(), 0);

    let mut planes = DrmModeGetPlaneRes::zeroed();
    planes.plane_id_ptr = 1;
    planes.count_planes = 2;
    planes.clear_plane_id_ptr();
    assert_eq!(planes.count_planes(), 0);

    let mut plane = DrmModeGetPlane::zeroed();
    plane.format_type_ptr = 1;
    plane.count_format_types = 2;
    plane.clear_format_type_ptr();
    assert_eq!(plane.count_format_types(), 0);

    let mut prop = DrmModeGetProperty::zeroed();
    prop.values_ptr = 1;
    prop.count_values = 2;
    prop.enum_blob_ptr = 3;
    prop.count_enum_blobs = 4;
    prop.clear_values_ptr();
    assert_eq!(prop.count_values(), 0);
    assert_eq!(prop.count_enum_blobs(), 4);
    prop.clear_enum_blob_ptr();
    assert_eq!(prop.count_enum_blobs(), 0);

    let mut atomic = DrmModeAtomic::zeroed();
    atomic.objs_ptr = 1;
    atomic.count_objs = 2;
    atomic.props_ptr = 3;
    atomic.count_props_ptr = 4;
    atomic.prop_values_ptr = 5;
    atomic.flags = 6;
    atomic.clear_ptrs();
    assert_eq!(atomic.count_objs, 0);
    assert_eq!(atomic.objs_ptr, 0);
    assert_eq!(atomic.flags, 6);

    let mut dirty = DrmModeFbDirtyCmd::zeroed();
    dirty.clips_ptr = 1;
    dirty.num_clips = 2;
    dirty.clear_clips_ptr();
    assert_eq!(dirty.num_clips, 0);

    let mut blob = DrmModeCreateBlob::zeroed();
    blob.data = 1;
    blob.length = 2;
    blob.clear_data();
    assert_eq!(blob.length, 0);
}

#[test]
fn blob_requests_reject_content_beyond_the_length_field() {
    let ok = create_blob_request(100).unwrap();
    assert_eq!(ok.length, 100);
    assert_eq!(ok.data, 0);
    assert_eq!(create_blob_request((u32::MAX as usize) + 1), Err(Error::Invalid));
}

#[test]
fn set_crtc_requests_pack_the_mode_and_count_connectors() {
    let mut created = linux_drm::ioctl::DrmModeCreateDumb::zeroed();
    created.width = 4;
    created.height = 4;
    created.bpp = 32;
    created.pitch = 16;
    created.size = 64;
    created.handle = 2;
    let buf = dumb_buffer_from_parts(&created, 9).unwrap();
    let mut mode = ModeInfo::from_raw(&linux_drm::ioctl::DrmModeInfo::zeroed());
    mode.name = b"tiny".to_vec();
    mode.hdisplay = 4;
    let req = set_crtc_request(CrtcId(3), &buf, &mode, 2).unwrap();
    assert_eq!(req.crtc_id, 3);
    assert_eq!(req.fb_id, 9);
    assert_eq!(req.count_connectors, 2);
    assert_eq!(req.set_connectors_ptr, 0);
    assert_eq!(req.mode_valid, 1);
    assert_eq!(&req.mode.name[..4], b"tiny");
    assert_eq!(req.mode.hdisplay, 4);

    let flip = page_flip_request(CrtcId(3), &buf, PageFlipFlags::event(), 0x77);
    assert_eq!(flip.crtc_id, 3);
    assert_eq!(flip.fb_id, 9);
    assert_eq!(flip.flags, 0x01);
    assert_eq!(flip.reserved, 0);
    assert_eq!(flip.user_data, 0x77);
}
