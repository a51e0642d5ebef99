//! Error-code mapping and the retry rule of the call gateway.

use linux_drm::request_interrupted;
use linux_drm::result::{
    Error, InitError, EACCES, EBUSY, EINTR, EINVAL, EIO, ENODEV, ENOENT, ENOMEM, ENOSPC, ENOTTY,
    ENXIO, EOPNOTSUPP, EPERM,
};

#[test]
fn each_raw_code_maps_to_its_category() {
    assert_eq!(Error::from_raw(EINVAL), Error::Invalid);
    assert_eq!(Error::from_raw(ENOENT), Error::NonExist);
    assert_eq!(Error::from_raw(ENOMEM), Error::SystemMem);
    assert_eq!(Error::from_raw(ENOSPC), Error::SystemMem);
    assert_eq!(Error::from_raw(EPERM), Error::Permission);
    assert_eq!(Error::from_raw(EACCES), Error::Permission);
    assert_eq!(Error::from_raw(ENODEV), Error::Disconnected);
    assert_eq!(Error::from_raw(EOPNOTSUPP), Error::NotSupported);
    assert_eq!(Error::from_raw(ENXIO), Error::RemoteFailure);
    assert_eq!(Error::from_raw(EIO), Error::Died);
    assert_eq!(Error::from_raw(EBUSY), Error::Other(EBUSY));
    assert_eq!(Error::from_raw(999), Error::Other(999));
}

#[test]
fn each_category_maps_back_to_a_raw_code() {
    assert_eq!(Error::Invalid.to_raw(), EINVAL);
    assert_eq!(Error::NonExist.to_raw(), ENOENT);
    assert_eq!(Error::SystemMem.to_raw(), ENOMEM);
    assert_eq!(Error::GraphicsMem.to_raw(), ENOSPC);
    assert_eq!(Error::Permission.to_raw(), EPERM);
    assert_eq!(Error::Disconnected.to_raw(), ENODEV);
    assert_eq!(Error::NotSupported.to_raw(), EOPNOTSUPP);
    assert_eq!(Error::RemoteFailure.to_raw(), ENXIO);
    assert_eq!(Error::Died.to_raw(), EIO);
    assert_eq!(Error::Other(77).to_raw(), 77);
}

#[test]
fn init_errors_distinguish_non_card_files() {
    assert_eq!(InitError::from_raw(ENOTTY), InitError::NotDrmCard);
    assert_eq!(InitError::from_raw(EPERM), InitError::Other(EPERM));
    assert_eq!(InitError::NotDrmCard.to_raw(), ENOTTY);
    assert_eq!(InitError::Other(5).to_raw(), 5);
}

#[test]
fn only_interruption_is_retried() {
    assert!(request_interrupted(EINTR));
    assert!(!request_interrupted(EIO));
    assert!(!request_interrupted(EBUSY));
    assert!(!request_interrupted(0));
}
