use bump_local::{Bump, ResetError};

#[test]
fn reset_error_message() {
    assert_eq!(
        ResetError.message(),
        "reset is only allowed when single Bump reference exists"
    );
}

#[test]
fn reset_error_comes_from_a_shared_handle() {
    let mut bump = Bump::new();
    let clone = bump.clone();
    assert_eq!(bump.reset_all(), Err(ResetError));
    drop(clone);
    assert_eq!(bump.reset_all(), Ok(()));
}
