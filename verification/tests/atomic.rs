//! The atomic transaction builder: accumulation, serialization, reset.

use linux_drm::modeset::{
    AtomicCommitFlags, AtomicRequest, BlobHandle, BlobId, ConnectorId, CrtcId, ObjectId,
    PropertyId,
};

fn crtc(id: u32) -> ObjectId {
    ObjectId::Crtc(CrtcId(id))
}

fn connector(id: u32) -> ObjectId {
    ObjectId::Connector(ConnectorId(id))
}

#[test]
fn empty_request_serializes_to_empty_arrays() {
    let req = AtomicRequest::new();
    let parts = req.for_ioctl_req();
    assert_eq!(parts.obj_ids, Vec::<u32>::new());
    assert_eq!(parts.obj_prop_counts, Vec::<u32>::new());
    assert_eq!(parts.prop_ids, Vec::<u32>::new());
    assert_eq!(parts.prop_values, Vec::<u64>::new());
}

#[test]
fn serialization_groups_pairs_by_object() {
    let mut req = AtomicRequest::new();
    req.set_property(crtc(10), PropertyId(100), 1u64);
    req.set_property(connector(20), PropertyId(200), 2u64);
    req.set_property(crtc(10), PropertyId(101), 3u64);
    let parts = req.for_ioctl_req();
    assert_eq!(parts.obj_ids, vec![10, 20]);
    assert_eq!(parts.obj_prop_counts, vec![2, 1]);
    assert_eq!(parts.prop_ids, vec![100, 101, 200]);
    assert_eq!(parts.prop_values, vec![1, 3, 2]);
}

#[test]
fn objects_serialize_in_ascending_id_order() {
    let mut req = AtomicRequest::new();
    req.set_property(crtc(30), PropertyId(7), 70u64);
    req.set_property(crtc(10), PropertyId(5), 50u64);
    req.set_property(crtc(20), PropertyId(6), 60u64);
    let parts = req.for_ioctl_req();
    assert_eq!(parts.obj_ids, vec![10, 20, 30]);
    assert_eq!(parts.obj_prop_counts, vec![1, 1, 1]);
    assert_eq!(parts.prop_ids, vec![5, 6, 7]);
    assert_eq!(parts.prop_values, vec![50, 60, 70]);
}

/// Deserialize the flat wire arrays back into (object, property, value)
/// triples by walking the counts array.
fn wire_triples(
    obj_ids: &[u32],
    counts: &[u32],
    prop_ids: &[u32],
    prop_values: &[u64],
) -> Vec<(u32, u32, u64)> {
    assert_eq!(obj_ids.len(), counts.len());
    assert_eq!(prop_ids.len(), prop_values.len());
    let mut out = Vec::new();
    let mut at = 0usize;
    for (i, &obj) in obj_ids.iter().enumerate() {
        for _ in 0..counts[i] {
            out.push((obj, prop_ids[at], prop_values[at]));
            at += 1;
        }
    }
    assert_eq!(at, prop_ids.len());
    out
}

#[test]
fn wire_round_trip_restores_all_triples() {
    let mut req = AtomicRequest::new();
    req.set_property(crtc(2), PropertyId(21), 1u64);
    req.set_property(connector(1), PropertyId(11), 2u64);
    req.set_property(crtc(2), PropertyId(22), 3u64);
    req.set_property(connector(1), PropertyId(12), 4u64);
    let parts = req.for_ioctl_req();
    let triples = wire_triples(
        &parts.obj_ids,
        &parts.obj_prop_counts,
        &parts.prop_ids,
        &parts.prop_values,
    );
    let mut expected = vec![(1, 11, 2u64), (1, 12, 4), (2, 21, 1), (2, 22, 3)];
    let mut got = triples.clone();
    expected.sort();
    got.sort();
    assert_eq!(got, expected);
}

#[test]
fn setting_the_same_property_twice_counts_both_calls() {
    let mut req = AtomicRequest::new();
    req.set_property(crtc(5), PropertyId(9), 111u64);
    req.set_property(crtc(5), PropertyId(9), 222u64);
    let parts = req.for_ioctl_req();
    // The count reflects the number of calls, not unique properties, and
    // the kernel applies the later value.
    assert_eq!(parts.obj_ids, vec![5]);
    assert_eq!(parts.obj_prop_counts, vec![2]);
    assert_eq!(parts.prop_ids, vec![9, 9]);
    assert_eq!(parts.prop_values, vec![111, 222]);
}

#[test]
fn reset_then_identical_calls_serialize_byte_identically() {
    let mut req = AtomicRequest::new();
    req.set_property(crtc(3), PropertyId(31), 5u64);
    req.set_property(connector(8), PropertyId(81), 6u64);
    req.set_property(crtc(3), PropertyId(32), 7u64);
    let before = req.for_ioctl_req();
    req.reset();
    req.set_property(crtc(3), PropertyId(31), 5u64);
    req.set_property(connector(8), PropertyId(81), 6u64);
    req.set_property(crtc(3), PropertyId(32), 7u64);
    let after = req.for_ioctl_req();
    assert_eq!(before.obj_ids, after.obj_ids);
    assert_eq!(before.obj_prop_counts, after.obj_prop_counts);
    assert_eq!(before.prop_ids, after.prop_ids);
    assert_eq!(before.prop_values, after.prop_values);
}

#[test]
fn reset_keeps_objects_with_empty_lists() {
    let mut req = AtomicRequest::new();
    req.set_property(crtc(4), PropertyId(41), 1u64);
    req.set_property(connector(9), PropertyId(91), 2u64);
    req.reset();
    let parts = req.for_ioctl_req();
    assert_eq!(parts.obj_ids, vec![4, 9]);
    assert_eq!(parts.obj_prop_counts, vec![0, 0]);
    assert_eq!(parts.prop_ids, Vec::<u32>::new());
    assert_eq!(parts.prop_values, Vec::<u64>::new());
}

#[test]
fn integer_values_convert_to_their_raw_form() {
    let mut req = AtomicRequest::new();
    req.set_property(crtc(1), PropertyId(1), 7u32);
    req.set_property(crtc(1), PropertyId(2), true);
    req.set_property(crtc(1), PropertyId(3), -1i32);
    let parts = req.for_ioctl_req();
    assert_eq!(parts.prop_values, vec![7, 1, 0xffff_ffff_ffff_ffff]);
}

#[test]
fn blob_values_carry_their_id() {
    let mut req = AtomicRequest::new();
    let blob = BlobHandle::new(BlobId(77));
    req.set_property(crtc(1), PropertyId(1), blob);
    let parts = req.for_ioctl_req();
    assert_eq!(parts.prop_values, vec![77]);
}

#[test]
fn commit_flags_combine_bitwise() {
    let flags = AtomicCommitFlags::allow_modeset().union(AtomicCommitFlags::nonblock());
    assert_eq!(flags.to_raw(), 0x0400 | 0x0200);
    assert_eq!(AtomicCommitFlags::none().to_raw(), 0);
    assert_eq!(AtomicCommitFlags::test_only().to_raw(), 0x0100);
    assert_eq!(AtomicCommitFlags::page_flip_event().to_raw(), 0x01);
    assert_eq!(AtomicCommitFlags::async_flip().to_raw(), 0x02);
}

#[test]
fn commit_record_carries_flags_and_token() {
    let rec = linux_drm::atomic_commit_record(AtomicCommitFlags::test_only(), 0xdead_beef);
    assert_eq!(rec.flags, 0x0100);
    assert_eq!(rec.user_data, 0xdead_beef);
    assert_eq!(rec.count_objs, 0);
    assert_eq!(rec.objs_ptr, 0);
}
