//! Property metadata: type decoding, names, members, blobs.

use linux_drm::ioctl::{
    DrmModeGetProperty, DrmModePropertyEnum, DRM_MODE_PROP_BITMASK, DRM_MODE_PROP_BLOB,
    DRM_MODE_PROP_ENUM, DRM_MODE_PROP_IMMUTABLE, DRM_MODE_PROP_OBJECT, DRM_MODE_PROP_RANGE,
    DRM_MODE_PROP_SIGNED_RANGE,
};
use linux_drm::modeset::{
    enum_members_from_raw, object_properties_from_raw, property_meta_from_reply, BlobHandle,
    BlobId, ObjectPropEnumMember, ObjectPropMeta, PropertyType,
};
use linux_drm::result::Error;

fn name_field(s: &[u8]) -> [u8; 32] {
    let mut f = [0u8; 32];
    f[..s.len()].copy_from_slice(s);
    f
}

fn meta_with_flags(flags: u32) -> ObjectPropMeta {
    let mut raw = DrmModeGetProperty::zeroed();
    raw.prop_id = 42;
    raw.flags = flags;
    raw.name = name_field(b"CRTC_ID");
    ObjectPropMeta::new(raw)
}

#[test]
fn immutable_enum_flags_decode_to_enum_and_immutable() {
    let (typ, immutable) = PropertyType::from_raw_flags(DRM_MODE_PROP_IMMUTABLE | DRM_MODE_PROP_ENUM);
    assert_eq!(typ, PropertyType::Enum);
    assert!(immutable);
}

#[test]
fn extended_object_flags_decode_to_object_and_mutable() {
    let (typ, immutable) = PropertyType::from_raw_flags(DRM_MODE_PROP_OBJECT);
    assert_eq!(typ, PropertyType::Object);
    assert!(!immutable);
}

#[test]
fn unrecognized_flags_decode_to_unknown_and_mutable() {
    let (typ, immutable) = PropertyType::from_raw_flags(0);
    assert_eq!(typ, PropertyType::Unknown);
    assert!(!immutable);
}

#[test]
fn each_known_type_bit_decodes_to_its_type() {
    assert_eq!(PropertyType::from_raw_flags(DRM_MODE_PROP_RANGE).0, PropertyType::Range);
    assert_eq!(PropertyType::from_raw_flags(DRM_MODE_PROP_BLOB).0, PropertyType::Blob);
    assert_eq!(PropertyType::from_raw_flags(DRM_MODE_PROP_BITMASK).0, PropertyType::Bitmask);
    assert_eq!(
        PropertyType::from_raw_flags(DRM_MODE_PROP_SIGNED_RANGE).0,
        PropertyType::SignedRange
    );
}

#[test]
fn legacy_group_wins_when_both_groups_are_set() {
    // A legacy bit beside an extended value: the legacy group decides.
    let (typ, _) = PropertyType::from_raw_flags(DRM_MODE_PROP_ENUM | DRM_MODE_PROP_OBJECT);
    assert_eq!(typ, PropertyType::Enum);
    let (typ, _) = PropertyType::from_raw_flags(DRM_MODE_PROP_RANGE | DRM_MODE_PROP_SIGNED_RANGE);
    assert_eq!(typ, PropertyType::Range);
}

#[test]
fn unknown_group_values_decode_to_unknown() {
    // An extended value this crate has no name for, even one sharing a
    // bit with a known encoding.
    let (typ, _) = PropertyType::from_raw_flags(0xC0);
    assert_eq!(typ, PropertyType::Unknown);
    // Several legacy bits at once match no known encoding either.
    let (typ, _) = PropertyType::from_raw_flags(DRM_MODE_PROP_RANGE | DRM_MODE_PROP_ENUM);
    assert_eq!(typ, PropertyType::Unknown);
}

#[test]
fn meta_accessors_read_the_reply() {
    let meta = meta_with_flags(DRM_MODE_PROP_IMMUTABLE | DRM_MODE_PROP_ENUM);
    assert_eq!(meta.property_id().0, 42);
    assert_eq!(meta.property_type(), PropertyType::Enum);
    assert!(meta.is_immutable());
    assert!(!meta.is_mutable());
    assert_eq!(meta.name(), b"CRTC_ID".to_vec());
}

#[test]
fn ascii_names_are_accepted_and_kept() {
    let mut raw = DrmModeGetProperty::zeroed();
    raw.prop_id = 7;
    raw.name = name_field(b"rotation");
    let meta = property_meta_from_reply(&raw).unwrap();
    assert_eq!(meta.property_id().0, 7);
    assert_eq!(meta.name(), b"rotation".to_vec());
}

#[test]
fn non_ascii_names_are_rejected_as_not_supported() {
    let mut raw = DrmModeGetProperty::zeroed();
    raw.name = name_field(&[b'a', 0xC3, 0xA9]);
    assert_eq!(property_meta_from_reply(&raw), Err(Error::NotSupported));
}

#[test]
fn range_request_rejects_non_range_types() {
    let meta = meta_with_flags(DRM_MODE_PROP_ENUM);
    assert_eq!(meta.range_request().unwrap_err(), Error::NotSupported);
}

#[test]
fn range_request_goes_by_the_decoded_type_not_raw_bits() {
    // 0xC0 is an unknown extended type that happens to share a bit with
    // the signed-range encoding; it decodes to Unknown and must not
    // answer a range fetch, whatever its value count claims.
    let mut raw = DrmModeGetProperty::zeroed();
    raw.flags = 0xC0;
    raw.count_values = 2;
    let meta = ObjectPropMeta::new(raw);
    assert_eq!(meta.property_type(), PropertyType::Unknown);
    assert_eq!(meta.range_request().unwrap_err(), Error::NotSupported);
}

#[test]
fn range_request_rejects_impossible_value_counts() {
    let mut raw = DrmModeGetProperty::zeroed();
    raw.flags = DRM_MODE_PROP_RANGE;
    raw.count_values = 3;
    let meta = ObjectPropMeta::new(raw);
    assert_eq!(meta.range_request().unwrap_err(), Error::RemoteFailure);
}

#[test]
fn range_fetch_returns_the_two_values() {
    let mut raw = DrmModeGetProperty::zeroed();
    raw.prop_id = 5;
    raw.flags = DRM_MODE_PROP_RANGE;
    raw.count_values = 2;
    let meta = ObjectPropMeta::new(raw);
    let req = meta.range_request().unwrap();
    assert_eq!(req.prop_id, 5);
    assert_eq!(req.count_values, 2);
    // The device answers with the same count and the two bounds.
    let mut reply = req;
    reply.count_values = 2;
    assert_eq!(meta.range_from_reply(&reply, &[3, 900]), Ok((3, 900)));
    // A count that changed underneath us is a device-side failure.
    reply.count_values = 1;
    assert_eq!(meta.range_from_reply(&reply, &[3, 900]), Err(Error::RemoteFailure));
}

#[test]
fn value_and_member_requests_name_the_property() {
    let meta = meta_with_flags(DRM_MODE_PROP_BITMASK);
    let vr = meta.values_request(6);
    assert_eq!(vr.prop_id, 42);
    assert_eq!(vr.count_values, 6);
    assert_eq!(vr.count_enum_blobs, 0);
    let er = meta.enum_members_request(4);
    assert_eq!(er.prop_id, 42);
    assert_eq!(er.count_enum_blobs, 4);
    assert_eq!(er.count_values, 0);
    assert!(meta.has_enum_members());
    assert!(!meta_with_flags(DRM_MODE_PROP_BLOB).has_enum_members());
}

#[test]
fn bitmask_member_value_is_a_bit_index() {
    let mut raw = DrmModePropertyEnum::zeroed();
    raw.value = 3;
    raw.name = name_field(b"reflect-x");
    let member = ObjectPropEnumMember { raw };
    assert_eq!(member.value(), 3);
    // The stored value names bit index 3: the mask is 0x8, not 3.
    assert_eq!(member.bitmask_value(), Some(0x8));
    assert_eq!(member.name(), b"reflect-x".to_vec());
}

#[test]
fn bitmask_indexes_beyond_a_u64_have_no_mask() {
    let mut raw = DrmModePropertyEnum::zeroed();
    raw.value = 64;
    let member = ObjectPropEnumMember { raw };
    assert_eq!(member.bitmask_value(), None);
    raw.value = 63;
    let member = ObjectPropEnumMember { raw };
    assert_eq!(member.bitmask_value(), Some(1u64 << 63));
}

#[test]
fn enum_members_wrap_the_fetched_records() {
    let mut a = DrmModePropertyEnum::zeroed();
    a.value = 1;
    let mut b = DrmModePropertyEnum::zeroed();
    b.value = 2;
    let members = enum_members_from_raw(vec![a, b]);
    assert_eq!(members.len(), 2);
    assert_eq!(members[0].value(), 1);
    assert_eq!(members[1].value(), 2);
}

#[test]
fn object_properties_zip_ids_with_values() {
    let props = object_properties_from_raw(&vec![10, 20], &vec![100, 200]);
    assert_eq!(props.len(), 2);
    assert_eq!(props[0].prop_id.0, 10);
    assert_eq!(props[0].value, 100);
    assert_eq!(props[1].prop_id.0, 20);
    assert_eq!(props[1].value, 200);
}

#[test]
fn blob_handles_release_their_id_exactly_once() {
    let mut h = BlobHandle::new(BlobId(9));
    assert_eq!(h.id(), BlobId(9));
    assert_eq!(h.take_for_destroy(), Some(BlobId(9)));
    // A second teardown of the same handle is a no-op.
    assert_eq!(h.take_for_destroy(), None);
    let h2 = BlobHandle::new(BlobId(11));
    assert_eq!(h2.destroy(), Some(BlobId(11)));
}
