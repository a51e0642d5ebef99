//! The size-then-content read discipline, driven by a simulated device.

use linux_drm::fetch::SnapshotFetch;
use linux_drm::modeset::object_properties_from_raw;

#[test]
fn consistent_reply_completes_first_time() {
    let mut f = SnapshotFetch::new();
    f.note_probe(&vec![4, 2, 3, 1]);
    assert!(f.note_content(&vec![4, 2, 3, 1]));
    assert_eq!(f.width(), 4);
    assert_eq!(f.requested_count(0), 4);
    assert_eq!(f.requested_count(3), 1);
}

#[test]
fn one_inconsistent_reply_forces_retry_then_full_result() {
    // The device reports 2 elements on the probe, answers the content
    // call with 3 once, then stabilizes at 2 again.
    let n: u32 = 2;
    let m: u32 = 3;
    let mut f = SnapshotFetch::new();
    f.note_probe(&vec![n]);
    assert!(!f.note_content(&vec![m]));
    // The fresh counts stand as the new probe result; the collaborator
    // has stabilized, so the next content reply disagrees once more.
    assert_eq!(f.requested_count(0), m);
    assert!(!f.note_content(&vec![n]));
    assert_eq!(f.requested_count(0), n);
    // Buffers of the requested size, and a now-consistent reply.
    assert!(f.note_content(&vec![n]));
    // The certified counts populate a full result of length n, never a
    // partially filled buffer.
    let prop_ids = vec![10u32, 11];
    let prop_values = vec![100u64, 101];
    assert_eq!(prop_ids.len(), f.requested_count(0) as usize);
    let props = object_properties_from_raw(&prop_ids, &prop_values);
    assert_eq!(props.len(), n as usize);
    assert_eq!(props[0].prop_id.0, 10);
    assert_eq!(props[1].value, 101);
}

#[test]
fn any_single_count_mismatch_restarts_the_whole_read() {
    let mut f = SnapshotFetch::new();
    f.note_probe(&vec![4, 2, 3, 1]);
    // Three of four arrays kept their size; one changed. The combined
    // read restarts anyway, because the four arrays are filled by one
    // exchange.
    assert!(!f.note_content(&vec![4, 2, 5, 1]));
    assert!(f.note_content(&vec![4, 2, 5, 1]));
    assert_eq!(f.requested_count(2), 5);
}

#[test]
fn a_fresh_probe_can_replace_a_stale_one() {
    let mut f = SnapshotFetch::new();
    f.note_probe(&vec![7]);
    f.note_probe(&vec![9]);
    assert!(!f.note_content(&vec![7]));
    assert!(f.note_content(&vec![7]));
}

#[test]
fn zero_counts_are_consistent_immediately() {
    let mut f = SnapshotFetch::new();
    f.note_probe(&vec![0, 0]);
    assert!(f.note_content(&vec![0, 0]));
}

#[test]
fn all_zero_counts_skip_the_content_call_entirely() {
    let mut f = SnapshotFetch::new();
    f.note_probe(&vec![0, 0, 0]);
    assert!(f.nothing_to_fetch());
    f.note_probe(&vec![0, 1, 0]);
    assert!(!f.nothing_to_fetch());
}

#[test]
fn reserved_buffers_start_empty() {
    let v = linux_drm::vec_with_capacity::<u64>(16).unwrap();
    assert!(v.is_empty());
    let v = linux_drm::vec_with_capacity::<u8>(0).unwrap();
    assert!(v.is_empty());
}
