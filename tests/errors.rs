use bk::error::{exit_status_result, ResticError};

#[test]
fn from_code_recognises_the_five_codes() {
    assert_eq!(ResticError::from_code(1), Some(ResticError::Fatal));
    assert_eq!(ResticError::from_code(3), Some(ResticError::Incomplete));
    assert_eq!(ResticError::from_code(10), Some(ResticError::RepositoryUnavailable));
    assert_eq!(ResticError::from_code(11), Some(ResticError::RepositoryLocked));
    assert_eq!(ResticError::from_code(12), Some(ResticError::IncorrectPassword));
    assert_eq!(ResticError::from_code(2), None);
}

#[test]
fn unknown_exit_code_is_unclassified() {
    assert_eq!(exit_status_result(Some(99)), Err(ResticError::Unclassified(99)));
    assert_eq!(exit_status_result(Some(-1)), Err(ResticError::Unclassified(-1)));
}

#[test]
fn exit_zero_is_success_and_no_process_is_fatal() {
    assert_eq!(exit_status_result(Some(0)), Ok(()));
    assert_eq!(exit_status_result(None), Err(ResticError::Fatal));
    assert_eq!(exit_status_result(Some(12)), Err(ResticError::IncorrectPassword));
}

#[test]
fn error_messages() {
    assert_eq!(ResticError::IncorrectPassword.message(), "incorrect password");
    assert_eq!(ResticError::Fatal.message(), "Fatal Error (no snapshot created)");
    assert!(ResticError::UnknownReference.aborts_run());
    assert!(!ResticError::DuplicateHead.aborts_run());
}
