use godfather_backend::errors::ErrorKind;

#[test]
fn every_error_kind_carries_a_detail() {
    let kinds = [
        ErrorKind::NotFound,
        ErrorKind::Conflict,
        ErrorKind::Unavailable,
        ErrorKind::Banned,
        ErrorKind::InsufficientBalance,
        ErrorKind::AlreadyEnded,
        ErrorKind::InvalidInput,
    ];
    for k in kinds {
        assert!(!k.detail().is_empty());
    }
    assert_eq!(ErrorKind::InsufficientBalance.detail(), "insufficient balance");
    assert_eq!(ErrorKind::AlreadyEnded.detail(), "session already ended");
}
