use odt2pdf::hash::sha1sum;
use odt2pdf::status::{HttpStatus, IoErrorKind};
use odt2pdf::upload_checks::{
    correct_magic_number, magic_number_command, odt_extension, same_sha1sum_of_param_req,
    UploadError, UploadedFile,
};

#[test]
fn odt_names_pass_the_extension_check() {
    assert!(odt_extension("report.odt").is_ok());
    let e = odt_extension("report.doc").unwrap_err();
    assert_eq!(e.status, HttpStatus::PreconditionRequired);
    assert_eq!(e.error.0, "Wrong file extension.");
    assert!(odt_extension("report.ODT").is_err());
}

#[test]
fn renamed_upload_passes_the_extension_check() {
    let p = odt2pdf::conversion::document_path("/tmp/xyz");
    assert!(odt_extension(&p).is_ok());
}

#[test]
fn matching_sha1sum_passes() {
    let data = b"some document".to_vec();
    let sum = sha1sum(&data);
    assert!(same_sha1sum_of_param_req(&UploadedFile::Contents(data), &sum, "/tmp/f").is_ok());
}

#[test]
fn different_sha1sum_is_refused() {
    let data = b"abc".to_vec();
    let e = same_sha1sum_of_param_req(&UploadedFile::Contents(data), "0000", "/tmp/f").unwrap_err();
    assert_eq!(e.status, HttpStatus::PreconditionRequired);
    assert_eq!(
        e.error.0,
        "the sha1sum 'a9993e364706816aba3e25717850c26c9cd0d89d' calculate for the file /tmp/f doesn't correspond to the parameter '0000'"
    );
}

#[test]
fn empty_or_unreadable_file_has_the_empty_sum() {
    assert!(same_sha1sum_of_param_req(&UploadedFile::Contents(vec![]), "", "/tmp/f").is_ok());
    assert!(same_sha1sum_of_param_req(&UploadedFile::Unreadable, "", "/tmp/f").is_ok());
    let e = same_sha1sum_of_param_req(&UploadedFile::Unreadable, "abcd", "/tmp/f").unwrap_err();
    assert_eq!(
        e.error.0,
        "the sha1sum '' calculate for the file /tmp/f doesn't correspond to the parameter 'abcd'"
    );
}

#[test]
fn unopenable_file_is_answered_with_the_io_status() {
    let f = UploadedFile::OpenFailed {
        kind: IoErrorKind::PermissionDenied,
        reason: "Permission denied (os error 13)".to_string(),
    };
    let e = same_sha1sum_of_param_req(&f, "x", "/tmp/f").unwrap_err();
    assert_eq!(e.status, HttpStatus::Forbidden);
    assert_eq!(e.error.0, "failed to opening the received file: Permission denied (os error 13)");
}

#[test]
fn magic_number_command_for_a_path() {
    let c = magic_number_command("/tmp/abc/upload");
    assert_eq!(c.program, "file");
    assert_eq!(c.args, vec!["-b", "--mime-type", "/tmp/abc/upload"]);
}

#[test]
fn accepted_mime_types() {
    assert!(correct_magic_number(true, "application/vnd.oasis.opendocument.text\n").is_ok());
    assert!(correct_magic_number(true, "application/zip\n").is_ok());
}

#[test]
fn other_mime_types_are_refused() {
    let e = correct_magic_number(true, "text/plain\n").unwrap_err();
    assert_eq!(e.status, HttpStatus::PreconditionRequired);
    assert_eq!(e.error.0, "wrong type: text/plain\n");
    assert!(correct_magic_number(true, "application/zip").is_err());
}

#[test]
fn failed_detection_is_a_server_error() {
    let e = correct_magic_number(false, "application/zip\n").unwrap_err();
    assert_eq!(e.status, HttpStatus::InternalServerError);
    assert_eq!(e.error.0, "Error determining file type.");
}

#[test]
fn upload_error_description() {
    assert_eq!(UploadError("x".to_string()).description(), "upload error");
}

#[test]
fn upload_error_display_text() {
    assert_eq!(UploadError("Wrong file extension.".to_string()).display_text(), "upload error");
}
