use shared_memory::errors::{classify_errno, ShmError};

#[test]
fn exist_code_means_already_exists() {
    assert_eq!(classify_errno(17), ShmError::AlreadyExists);
}

#[test]
fn noent_code_means_not_found() {
    assert_eq!(classify_errno(2), ShmError::NotFound);
}

#[test]
fn permission_codes_mean_permission_denied() {
    assert_eq!(classify_errno(13), ShmError::PermissionDenied);
    assert_eq!(classify_errno(1), ShmError::PermissionDenied);
}

#[test]
fn exhaustion_codes_mean_resource_exhausted() {
    assert_eq!(classify_errno(12), ShmError::ResourceExhausted);
    assert_eq!(classify_errno(23), ShmError::ResourceExhausted);
    assert_eq!(classify_errno(24), ShmError::ResourceExhausted);
    assert_eq!(classify_errno(28), ShmError::ResourceExhausted);
}

#[test]
fn inval_code_means_invalid_argument() {
    assert_eq!(classify_errno(22), ShmError::InvalidArgument);
}

#[test]
fn unknown_code_is_propagated_unmodified() {
    assert_eq!(classify_errno(9999), ShmError::Os(9999));
    assert_eq!(classify_errno(0), ShmError::Os(0));
}
