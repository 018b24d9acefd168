use odt2pdf::status::{status_from_io_err, HttpStatus, IoErrorKind};

#[test]
fn io_errors_map_to_statuses() {
    assert_eq!(status_from_io_err(IoErrorKind::NotFound), HttpStatus::NotFound);
    assert_eq!(status_from_io_err(IoErrorKind::PermissionDenied), HttpStatus::Forbidden);
    assert_eq!(status_from_io_err(IoErrorKind::Other), HttpStatus::InternalServerError);
}

#[test]
fn status_codes() {
    assert_eq!(HttpStatus::Success.code(), 200);
    assert_eq!(HttpStatus::BadRequest.code(), 400);
    assert_eq!(HttpStatus::Forbidden.code(), 403);
    assert_eq!(HttpStatus::NotFound.code(), 404);
    assert_eq!(HttpStatus::PreconditionRequired.code(), 428);
    assert_eq!(HttpStatus::InternalServerError.code(), 500);
}
