//! The modesetting data model: ids, state snapshots, mode packing.

use linux_drm::ioctl::{
    DrmModeCardRes, DrmModeCrtc, DrmModeGetConnector, DrmModeGetEncoder, DrmModeGetPlane,
    DrmModeInfo, DRM_MODE_OBJECT_BLOB, DRM_MODE_OBJECT_CONNECTOR, DRM_MODE_OBJECT_CRTC,
    DRM_MODE_OBJECT_ENCODER, DRM_MODE_OBJECT_FB, DRM_MODE_OBJECT_MODE, DRM_MODE_OBJECT_PLANE,
    DRM_MODE_OBJECT_PROPERTY, DRM_MODE_TYPE_PREFERRED,
};
use linux_drm::modeset::{
    card_resources_from_raw, connector_state_from_raw, encoder_state_from_raw,
    plane_state_from_raw, BlobId, ConnectionState, ConnectorId, ConnectorState, ConnectorType,
    CrtcId, CrtcState, EncoderId, FramebufferId, ModeInfo, PageFlipFlags, PlaneId, PropertyId,
    ObjectId, SubpixelType,
};
use linux_drm::{
    card_res_counts, connector_counts, connector_state_request, crtc_state_request,
    encoder_state_request, object_properties_request, plane_state_request, property_meta_request,
    ApiVersion, ClientCap, DeviceCap,
};

#[test]
fn object_ids_carry_their_kind_tag() {
    assert_eq!(ObjectId::Crtc(CrtcId(1)).as_raw_type_and_id(), (DRM_MODE_OBJECT_CRTC, 1));
    assert_eq!(
        ObjectId::Connector(ConnectorId(2)).as_raw_type_and_id(),
        (DRM_MODE_OBJECT_CONNECTOR, 2)
    );
    assert_eq!(ObjectId::Encoder(EncoderId(3)).as_raw_type_and_id(), (DRM_MODE_OBJECT_ENCODER, 3));
    assert_eq!(ObjectId::Mode(4).as_raw_type_and_id(), (DRM_MODE_OBJECT_MODE, 4));
    assert_eq!(
        ObjectId::Property(PropertyId(5)).as_raw_type_and_id(),
        (DRM_MODE_OBJECT_PROPERTY, 5)
    );
    assert_eq!(
        ObjectId::Framebuffer(FramebufferId(6)).as_raw_type_and_id(),
        (DRM_MODE_OBJECT_FB, 6)
    );
    assert_eq!(ObjectId::Blob(BlobId(7)).as_raw_type_and_id(), (DRM_MODE_OBJECT_BLOB, 7));
    assert_eq!(ObjectId::Plane(PlaneId(8)).as_raw_type_and_id(), (DRM_MODE_OBJECT_PLANE, 8));
}

#[test]
fn connection_states_decode_with_unknown_fallback() {
    assert_eq!(ConnectionState::from_raw(1), ConnectionState::Connected);
    assert_eq!(ConnectionState::from_raw(2), ConnectionState::Disconnected);
    assert_eq!(ConnectionState::from_raw(3), ConnectionState::Unknown);
    assert_eq!(ConnectionState::from_raw(77), ConnectionState::Unknown);
}

#[test]
fn connector_types_decode_with_other_fallback() {
    assert_eq!(ConnectorType::from_raw(0), ConnectorType::Unknown);
    assert_eq!(ConnectorType::from_raw(1), ConnectorType::Vga);
    assert_eq!(ConnectorType::from_raw(10), ConnectorType::DisplayPort);
    assert_eq!(ConnectorType::from_raw(11), ConnectorType::HdmiA);
    assert_eq!(ConnectorType::from_raw(14), ConnectorType::Edp);
    assert_eq!(ConnectorType::from_raw(20), ConnectorType::Usb);
    assert_eq!(ConnectorType::from_raw(21), ConnectorType::Other);
    assert_eq!(ConnectorType::from_raw(9999), ConnectorType::Other);
}

#[test]
fn subpixel_types_decode_with_unknown_fallback() {
    assert_eq!(SubpixelType::from_raw(2), SubpixelType::HorizontalRgb);
    assert_eq!(SubpixelType::from_raw(3), SubpixelType::HorizontalBgr);
    assert_eq!(SubpixelType::from_raw(4), SubpixelType::VerticalRgb);
    assert_eq!(SubpixelType::from_raw(5), SubpixelType::VerticalBgr);
    assert_eq!(SubpixelType::from_raw(1), SubpixelType::Unknown);
    assert_eq!(SubpixelType::from_raw(6), SubpixelType::Unknown);
}

fn raw_mode(name: &[u8]) -> DrmModeInfo {
    let mut m = DrmModeInfo::zeroed();
    m.clock = 65000;
    m.hdisplay = 1024;
    m.hsync_start = 1048;
    m.hsync_end = 1184;
    m.htotal = 1344;
    m.vdisplay = 768;
    m.vsync_start = 771;
    m.vsync_end = 777;
    m.vtotal = 806;
    m.vrefresh = 60;
    m.name[..name.len()].copy_from_slice(name);
    m
}

#[test]
fn mode_names_unpack_up_to_the_first_zero() {
    let m = ModeInfo::from_raw(&raw_mode(b"1024x768"));
    assert_eq!(m.name, b"1024x768".to_vec());
    assert_eq!(m.clock, 65000);
    assert_eq!(m.hdisplay, 1024);
    assert_eq!(m.vdisplay, 768);
    assert_eq!(m.vrefresh, 60);
}

#[test]
fn mode_packing_round_trips_and_zero_pads() {
    let m = ModeInfo::from_raw(&raw_mode(b"1024x768"));
    let raw = m.to_raw();
    assert_eq!(&raw.name[..8], b"1024x768");
    assert!(raw.name[8..].iter().all(|&b| b == 0));
    assert_eq!(ModeInfo::from_raw(&raw), m);
}

#[test]
fn overlong_mode_names_truncate_silently() {
    let mut m = ModeInfo::from_raw(&raw_mode(b""));
    m.name = vec![b'x'; 40];
    let raw = m.to_raw();
    // The wire field holds at most 31 name bytes beside its terminator.
    assert_eq!(&raw.name[..31], &[b'x'; 31][..]);
    assert_eq!(raw.name[31], 0);
    let back = ModeInfo::from_raw(&raw);
    assert_eq!(back.name.len(), 31);
}

fn connector_with_modes(modes: Vec<ModeInfo>) -> ConnectorState {
    let conn = DrmModeGetConnector::zeroed();
    let raw_modes: Vec<DrmModeInfo> = modes.iter().map(|m| m.to_raw()).collect();
    connector_state_from_raw(&conn, &raw_modes, Vec::new(), &Vec::new(), &Vec::new())
}

#[test]
fn preferred_mode_picks_the_first_marked_mode() {
    let mut a = ModeInfo::from_raw(&raw_mode(b"a"));
    let mut b = ModeInfo::from_raw(&raw_mode(b"b"));
    let c = ModeInfo::from_raw(&raw_mode(b"c"));
    a.typ = 0;
    b.typ = DRM_MODE_TYPE_PREFERRED;
    let mut d = c.clone();
    d.typ = DRM_MODE_TYPE_PREFERRED;
    let state = connector_with_modes(vec![a, b, d]);
    let preferred = state.preferred_mode().unwrap();
    assert_eq!(preferred.name, b"b".to_vec());
}

#[test]
fn preferred_mode_is_none_when_nothing_is_marked() {
    let a = ModeInfo::from_raw(&raw_mode(b"a"));
    let state = connector_with_modes(vec![a]);
    assert!(state.preferred_mode().is_none());
}

#[test]
fn connector_state_assembles_the_fetched_arrays() {
    let mut conn = DrmModeGetConnector::zeroed();
    conn.connector_id = 31;
    conn.encoder_id = 42;
    conn.connector_type = 11;
    conn.connector_type_id = 1;
    conn.connection = 1;
    conn.mm_width = 520;
    conn.mm_height = 290;
    conn.subpixel = 2;
    let modes = vec![raw_mode(b"1024x768")];
    let state = connector_state_from_raw(
        &conn,
        &modes,
        vec![42, 43],
        &vec![5, 6],
        &vec![50, 60],
    );
    assert_eq!(state.id, ConnectorId(31));
    assert_eq!(state.current_encoder_id, EncoderId(42));
    assert_eq!(state.connector_type, ConnectorType::HdmiA);
    assert_eq!(state.connection_state, ConnectionState::Connected);
    assert_eq!(state.width_mm, 520);
    assert_eq!(state.height_mm, 290);
    assert_eq!(state.subpixel_type, SubpixelType::HorizontalRgb);
    assert_eq!(state.modes.len(), 1);
    assert_eq!(state.modes[0].name, b"1024x768".to_vec());
    assert_eq!(state.props.len(), 2);
    assert_eq!(state.props[1].prop_id.0, 6);
    assert_eq!(state.props[1].value, 60);
    assert_eq!(state.available_encoder_ids, vec![42, 43]);
}

#[test]
fn resource_snapshot_assembles_the_fetched_ids() {
    let mut res = DrmModeCardRes::zeroed();
    res.min_width = 8;
    res.max_width = 8192;
    res.min_height = 6;
    res.max_height = 4096;
    let snapshot = card_resources_from_raw(
        &res,
        vec![FramebufferId(1)],
        vec![CrtcId(2), CrtcId(3)],
        vec![ConnectorId(4)],
        vec![EncoderId(5)],
        vec![PlaneId(6)],
    );
    assert_eq!(snapshot.fb_ids, vec![FramebufferId(1)]);
    assert_eq!(snapshot.crtc_ids, vec![CrtcId(2), CrtcId(3)]);
    assert_eq!(snapshot.connector_ids, vec![ConnectorId(4)]);
    assert_eq!(snapshot.encoder_ids, vec![EncoderId(5)]);
    assert_eq!(snapshot.plane_ids, vec![PlaneId(6)]);
    assert_eq!(snapshot.min_width, 8);
    assert_eq!(snapshot.max_width, 8192);
    assert_eq!(snapshot.min_height, 6);
    assert_eq!(snapshot.max_height, 4096);
}

#[test]
fn count_vectors_keep_the_fixed_array_order() {
    let mut res = DrmModeCardRes::zeroed();
    res.count_fbs = 1;
    res.count_crtcs = 2;
    res.count_connectors = 3;
    res.count_encoders = 4;
    assert_eq!(card_res_counts(&res), vec![1, 2, 3, 4]);
    let mut conn = DrmModeGetConnector::zeroed();
    conn.count_modes = 9;
    conn.count_props = 8;
    conn.count_encoders = 7;
    assert_eq!(connector_counts(&conn), vec![9, 8, 7]);
}

#[test]
fn encoder_crtc_and_plane_snapshots_copy_the_reply() {
    let mut enc = DrmModeGetEncoder::zeroed();
    enc.encoder_id = 1;
    enc.encoder_type = 2;
    enc.crtc_id = 3;
    enc.possible_crtcs = 0b101;
    enc.possible_clones = 0b11;
    let e = encoder_state_from_raw(&enc);
    assert_eq!(e.encoder_id, EncoderId(1));
    assert_eq!(e.encoder_type, 2);
    assert_eq!(e.current_crtc_id, CrtcId(3));
    assert_eq!(e.possible_crtcs, 0b101);
    assert_eq!(e.possible_clones, 0b11);

    let mut crtc = DrmModeCrtc::zeroed();
    crtc.crtc_id = 9;
    crtc.fb_id = 10;
    crtc.x = 11;
    crtc.y = 12;
    crtc.mode_valid = 1;
    crtc.mode = raw_mode(b"m");
    let c = CrtcState::from_raw(&crtc);
    assert_eq!(c.crtc_id, CrtcId(9));
    assert_eq!(c.fb_id, FramebufferId(10));
    assert_eq!(c.x, 11);
    assert_eq!(c.y, 12);
    assert_eq!(c.mode_valid, 1);
    assert_eq!(c.mode.name, b"m".to_vec());

    let mut plane = DrmModeGetPlane::zeroed();
    plane.plane_id = 20;
    plane.crtc_id = 21;
    plane.fb_id = 22;
    plane.possible_crtcs = 0b1;
    plane.gamma_size = 256;
    let p = plane_state_from_raw(&plane);
    assert_eq!(p.id, PlaneId(20));
    assert_eq!(p.crtc_id, CrtcId(21));
    assert_eq!(p.fb_id, FramebufferId(22));
    assert_eq!(p.possible_crtcs, 0b1);
    assert_eq!(p.gamma_size, 256);
}

#[test]
fn state_requests_name_their_object() {
    assert_eq!(connector_state_request(ConnectorId(4)).connector_id, 4);
    assert_eq!(encoder_state_request(EncoderId(5)).encoder_id, 5);
    assert_eq!(crtc_state_request(CrtcId(6)).crtc_id, 6);
    assert_eq!(plane_state_request(PlaneId(7)).plane_id, 7);
    assert_eq!(property_meta_request(PropertyId(8)).prop_id, 8);
    let req = object_properties_request(ObjectId::Connector(ConnectorId(9)));
    assert_eq!(req.obj_id, 9);
    assert_eq!(req.obj_type, DRM_MODE_OBJECT_CONNECTOR);
    assert_eq!(req.count_props, 0);
}

#[test]
fn page_flip_flags_combine_bitwise() {
    let f = PageFlipFlags::event().union(PageFlipFlags::async_flip());
    assert_eq!(f.to_raw(), 0x03);
    assert_eq!(PageFlipFlags::none().to_raw(), 0);
}

#[test]
fn api_version_carries_the_reply_fields() {
    let v = ApiVersion::from_raw(3, 2, 1);
    assert_eq!(v.major, 3);
    assert_eq!(v.minor, 2);
    assert_eq!(v.patch, 1);
}

#[test]
fn capability_numbers_match_the_published_interface() {
    assert_eq!(DeviceCap::DumbBuffer.to_raw().0, 0x1);
    assert_eq!(DeviceCap::Prime.to_raw().0, 0x5);
    assert_eq!(DeviceCap::CursorWidth.to_raw().0, 0x8);
    assert_eq!(DeviceCap::SyncobjTimeline.to_raw().0, 0x14);
    assert_eq!(ClientCap::Stereo3d.to_raw().0, 1);
    assert_eq!(ClientCap::UniversalPlanes.to_raw().0, 2);
    assert_eq!(ClientCap::Atomic.to_raw().0, 3);
    assert_eq!(ClientCap::AspectRatio.to_raw().0, 4);
    assert_eq!(ClientCap::WritebackConnectors.to_raw().0, 5);
}
