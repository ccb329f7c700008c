use wasm_shim_core::error::{Code, Error, Status};

#[test]
fn test_error_to_ttrpc_status() {
    let e = Error::InvalidArgument("invalid argument".to_string());
    let s: Status = e.into_status();
    assert_eq!(s.code(), Code::InvalidArgument);
    assert_eq!(s.message, "invalid argument");

    let e = Error::NotFound("not found".to_string());
    let s: Status = e.into_status();
    assert_eq!(s.code(), Code::NotFound);
    assert_eq!(s.message, "not found");

    let e = Error::AlreadyExists("already exists".to_string());
    let s: Status = e.into_status();
    assert_eq!(s.code(), Code::AlreadyExists);
    assert_eq!(s.message, "already exists");

    let e = Error::FailedPrecondition("failed precondition".to_string());
    let s: Status = e.into_status();
    assert_eq!(s.code(), Code::FailedPrecondition);
    assert_eq!(s.message, "failed precondition");

    let e = Error::Ttrpc(Status::invalid_argument("invalid argument".to_string()));
    let s: Status = e.into_status();
    assert_eq!(s.code(), Code::InvalidArgument);
    assert_eq!(s.message, "invalid argument");

    let e = Error::Any("any error".to_string());
    let s: Status = e.into_status();
    assert_eq!(s.code(), Code::Unknown);
    assert_eq!(s.message, "any error");
}
