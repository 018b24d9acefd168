use odt2pdf::conversion::{
    conversion_command, conversion_outcome, document_path, error_copy_command, pdf_path,
    rename_failure, ConversionOutcome,
};
use odt2pdf::status::{HttpStatus, IoErrorKind};

const CMD: &str = "timeout --kill-after 10s 1m time -v -a -o {working_dir}/time.log libreoffice --headless --convert-to pdf:writer_pdf_Export --outdir {working_dir} {file}";

#[test]
fn paths_of_an_upload() {
    assert_eq!(document_path("/tmp/abc/upload"), "/tmp/abc/upload.odt");
    assert_eq!(pdf_path("/tmp/abc/upload"), "/tmp/abc/upload.pdf");
}

#[test]
fn rename_failure_answers() {
    let r = rename_failure(IoErrorKind::NotFound, "No such file or directory (os error 2)");
    assert_eq!(r.status, HttpStatus::NotFound);
    assert_eq!(r.body, "failed to elaborate the received file: No such file or directory (os error 2)");
    let r = rename_failure(IoErrorKind::PermissionDenied, "denied");
    assert_eq!(r.status, HttpStatus::Forbidden);
    let r = rename_failure(IoErrorKind::Other, "x");
    assert_eq!(r.status, HttpStatus::InternalServerError);
}

#[test]
fn conversion_command_of_the_default_template() {
    let c = conversion_command(CMD, "/tmp/abc", "/tmp/abc/upload.odt").unwrap();
    assert_eq!(c.program, "timeout");
    let expected: Vec<String> = "--kill-after 10s 1m time -v -a -o /tmp/abc/time.log libreoffice --headless --convert-to pdf:writer_pdf_Export --outdir /tmp/abc /tmp/abc/upload.odt"
        .split(' ')
        .map(|s| s.to_string())
        .collect();
    assert_eq!(c.args, expected);
}

#[test]
fn conversion_command_of_an_empty_template() {
    assert!(conversion_command("  ", "/tmp", "/tmp/x.odt").is_none());
}

#[test]
fn error_copy_command_words() {
    let c = error_copy_command("/tmp/abc", "./errors");
    assert_eq!(c.program, "nice");
    assert_eq!(c.args, vec!["-n", "20", "cp", "-R", "/tmp/abc", "./errors"]);
}

#[test]
fn successful_conversion_serves_the_pdf() {
    match conversion_outcome(true, "/tmp/abc/upload", "/tmp/abc", "./errors") {
        ConversionOutcome::ServePdf { path } => assert_eq!(path, "/tmp/abc/upload.pdf"),
        other => panic!("unexpected {:?}", other),
    }
}

#[test]
fn failed_conversion_keeps_the_directory_and_answers_500() {
    match conversion_outcome(false, "/tmp/abc/upload", "/tmp/abc", "./errors") {
        ConversionOutcome::Failed { copy, status } => {
            assert_eq!(status, HttpStatus::InternalServerError);
            assert_eq!(copy.program, "nice");
            assert_eq!(copy.args, vec!["-n", "20", "cp", "-R", "/tmp/abc", "./errors"]);
        }
        other => panic!("unexpected {:?}", other),
    }
}
