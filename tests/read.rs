use error_handling::acquire::FailureKind;
use error_handling::read::{forget_step, open_step, read_step, ReadFailure};

fn stepwise(opened: Result<(), FailureKind>, read: Result<String, FailureKind>) -> Result<String, ReadFailure> {
    open_step(opened)?;
    read_step(read)
}

#[test]
fn full_read_returns_text() {
    let r = stepwise(Ok(()), Ok("hello".to_string()));
    assert_eq!(r, Ok("hello".to_string()));
    assert_eq!(forget_step(r), Ok("hello".to_string()));
}

#[test]
fn open_failure_is_reported_at_open() {
    let r = stepwise(Err(FailureKind::NotFound), Ok(String::new()));
    assert_eq!(r, Err(ReadFailure::Open(FailureKind::NotFound)));
    let f = r.unwrap_err();
    assert!(f.at_open());
    assert_eq!(f.kind(), FailureKind::NotFound);
}

#[test]
fn read_failure_is_reported_at_read() {
    let r = stepwise(Ok(()), Err(FailureKind::Other));
    assert_eq!(r, Err(ReadFailure::Read(FailureKind::Other)));
    let f = r.unwrap_err();
    assert!(!f.at_open());
    assert_eq!(f.kind(), FailureKind::Other);
}

#[test]
fn one_shot_form_forgets_the_step() {
    let at_open = forget_step(Err(ReadFailure::Open(FailureKind::PermissionDenied)));
    let at_read = forget_step(Err(ReadFailure::Read(FailureKind::PermissionDenied)));
    assert_eq!(at_open, Err(FailureKind::PermissionDenied));
    assert_eq!(at_open, at_read);
}

#[test]
fn open_step_keeps_handle() {
    assert_eq!(open_step::<u32>(Ok(7)), Ok(7));
}
