//! The checks an uploaded document must pass before it is converted.

use crate::command::{command_line, command_words, CommandLine};
use crate::conversion::spec_document_path;
use crate::hash::{digest_or_empty, sha1_hex, sha1sum};
use crate::status::{spec_status_from_io_error, status_from_io_err, HttpStatus, IoErrorKind};
use crate::text::{
    ends_with, has_suffix, lemma_replace_keeps_unmatched_head,
    lemma_words_of_text_with_unbroken_head, replace_all, replaced, split_whitespace, str_equal,
    whitespace_words,
};
use vstd::prelude::*;

verus! {

/// An upload was refused; the message says why.
#[derive(Debug, Clone)]
pub struct UploadError(pub String);

impl UploadError {
    /// The error as it is displayed: `upload error`, whatever its message.
    pub fn display_text(&self) -> (t: String)
        ensures
            t@ == "upload error"@,
    {
        "upload error".to_owned()
    }

    /// The short description shared by every upload error.
    pub fn description(&self) -> (d: &'static str)
        ensures
            d@ == "upload error"@,
    {
        "upload error"
    }
}

/// A refused upload: the status answered and the error.
#[derive(Debug, Clone)]
pub struct UploadRejection {
    pub error: UploadError,
    pub status: HttpStatus,
}

fn reject(status: HttpStatus, message: String) -> (r: UploadRejection)
    ensures
        r.status == status,
        r.error.0@ == message@,
{
    UploadRejection { error: UploadError(message), status }
}

/// Accepts an uploaded file only when its name ends with `.odt`; otherwise
/// answers `428 Precondition Required`.
pub fn odt_extension(file_name: &str) -> (r: Result<(), UploadRejection>)
    ensures
        r is Ok <==> has_suffix(file_name@, ".odt"@),
        r is Ok ==> file_name@.len() >= 4 && file_name@.skip(file_name@.len() - 4) == ".odt"@,
        r matches Err(e) ==> e.status == HttpStatus::PreconditionRequired && e.error.0@
            == "Wrong file extension."@,
{
    proof {
        reveal_strlit(".odt");
    }
    if !ends_with(file_name, ".odt") {
        Err(reject(HttpStatus::PreconditionRequired, "Wrong file extension.".to_owned()))
    } else {
        Ok(())
    }
}

/// What opening and reading the uploaded file gave.
#[derive(Debug, Clone)]
pub enum UploadedFile {
    /// The file could not be opened; `reason` is the system's message.
    OpenFailed { kind: IoErrorKind, reason: String },
    /// The file was opened, but reading it failed.
    Unreadable,
    /// The file's contents.
    Contents(Vec<u8>),
}

/// The checksum computed for an uploaded file that could be opened: that
/// of its contents, or the empty string when it could not be read.
pub open spec fn computed_sha1sum(file: UploadedFile) -> Seq<char> {
    match file {
        UploadedFile::Contents(data) => digest_or_empty(data@, sha1_hex(data@)),
        _ => Seq::<char>::empty(),
    }
}

/// The message for a checksum that differs from the one the client sent.
pub open spec fn sha1_mismatch_message(computed: Seq<char>, path: Seq<char>, passed: Seq<char>) -> Seq<char> {
    "the sha1sum '"@ + computed + "' calculate for the file "@ + path
        + " doesn't correspond to the parameter '"@ + passed + "'"@
}

/// Whether the checksum check lets an upload through: the file could be
/// opened and the checksum computed for it equals the one the client sent.
pub open spec fn sha1sum_accepted(file: UploadedFile, passed: Seq<char>) -> bool {
    !(file is OpenFailed) && computed_sha1sum(file) == passed
}

/// Whether an uploaded file of this shape can be checksummed.
pub open spec fn checksummable(file: UploadedFile) -> bool {
    file matches UploadedFile::Contents(data) ==> data@.len() * 8 <= u64::MAX
}

/// Accepts an upload only when the SHA-1 sum of the received file equals the
/// `sha1sum` parameter the client sent. A file that cannot be opened is
/// answered with the status of the I/O failure; a mismatch with
/// `428 Precondition Required`.
pub fn same_sha1sum_of_param_req(file: &UploadedFile, passed_sha1sum: &str, file_path: &str) -> (r:
    Result<(), UploadRejection>)
    requires
        checksummable(*file),
    ensures
        file matches UploadedFile::OpenFailed { kind, reason } ==> (r matches Err(e) && e.status
            == spec_status_from_io_error(*kind) && e.error.0@ == "failed to opening the received file: "@
            + reason@),
        r is Ok <==> sha1sum_accepted(*file, passed_sha1sum@),
        file matches UploadedFile::Contents(data) ==> (data@.len() > 0 ==> (r is Ok
            <==> passed_sha1sum@ == sha1_hex(data@))),
        !(file is OpenFailed) ==> (r matches Err(e) ==> e.status == HttpStatus::PreconditionRequired
            && e.error.0@ == sha1_mismatch_message(
            computed_sha1sum(*file),
            file_path@,
            passed_sha1sum@,
        )),
{
    let computed = match file {
        UploadedFile::OpenFailed { kind, reason } => {
            let mut m = "failed to opening the received file: ".to_owned();
            m.append(reason.as_str());
            return Err(reject(status_from_io_err(*kind), m));
        },
        UploadedFile::Unreadable => String::new(),
        UploadedFile::Contents(data) => sha1sum(data.as_slice()),
    };
    assert(computed@ == computed_sha1sum(*file));
    if !str_equal(computed.as_str(), passed_sha1sum) {
        let mut m = "the sha1sum '".to_owned();
        m.append(computed.as_str());
        m.append("' calculate for the file ");
        m.append(file_path);
        m.append(" doesn't correspond to the parameter '");
        m.append(passed_sha1sum);
        m.append("'");
        Err(reject(HttpStatus::PreconditionRequired, m))
    } else {
        Ok(())
    }
}

/// The command that asks `file` for the MIME type of the document at
/// `file_path`: the template `file -b --mime-type {file}` with `{file}`
/// replaced by the path, cut at whitespace.
pub open spec fn magic_number_words(file_path: Seq<char>) -> Seq<Seq<char>> {
    whitespace_words(replaced("file -b --mime-type {file}"@, "{file}"@, file_path))
}

/// The command that detects the type of the document at `file_path`:
/// `file -b --mime-type` followed by the words of the path (none when the
/// path is empty or blank).
pub fn magic_number_command(file_path: &str) -> (c: CommandLine)
    ensures
        command_words(c) == magic_number_words(file_path@),
{
    let template = "file -b --mime-type {file}";
    let cmd = replace_all(template, "{file}", file_path);
    proof {
        reveal_strlit("file -b --mime-type {file}");
        reveal_strlit("{file}");
        lemma_replace_keeps_unmatched_head(template@, "{file}"@, file_path@);
        assert(cmd@[0] == 'f');
        lemma_words_of_text_with_unbroken_head(cmd@);
    }
    let words = split_whitespace(cmd.as_str());
    command_line(words)
}

/// The MIME types accepted for a document, as `file` prints them.
pub open spec fn is_accepted_file_type(file_type: Seq<char>) -> bool {
    file_type == "application/vnd.oasis.opendocument.text\n"@ || file_type
        == "application/zip\n"@
}

/// Accepts a document only when the type detection ran successfully and
/// printed one of the accepted MIME types. A failed detection is answered
/// with `500 Internal Server Error`, another type with
/// `428 Precondition Required`.
pub fn correct_magic_number(detection_succeeded: bool, file_type: &str) -> (r: Result<
    (),
    UploadRejection,
>)
    ensures
        r is Ok <==> detection_succeeded && is_accepted_file_type(file_type@),
        r is Ok ==> detection_succeeded && (file_type@
            == "application/vnd.oasis.opendocument.text\n"@ || file_type@ == "application/zip\n"@),
        !detection_succeeded ==> (r matches Err(e) && e.status == HttpStatus::InternalServerError
            && e.error.0@ == "Error determining file type."@),
        detection_succeeded && !is_accepted_file_type(file_type@) ==> (r matches Err(e)
            && e.status == HttpStatus::PreconditionRequired && e.error.0@ == "wrong type: "@
            + file_type@),
{
    if !detection_succeeded {
        Err(reject(HttpStatus::InternalServerError, "Error determining file type.".to_owned()))
    } else if !str_equal(file_type, "application/vnd.oasis.opendocument.text\n") && !str_equal(
        file_type,
        "application/zip\n",
    ) {
        let mut m = "wrong type: ".to_owned();
        m.append(file_type);
        Err(reject(HttpStatus::PreconditionRequired, m))
    } else {
        Ok(())
    }
}

/// An upload sent with the SHA-1 sum of its own contents, as `sha1sum`
/// computes it, passes the checksum check.
pub proof fn law_own_sha1sum_is_accepted(data: Vec<u8>)
    ensures
        sha1sum_accepted(UploadedFile::Contents(data), digest_or_empty(data@, sha1_hex(data@))),
{
}

/// The path that an upload is renamed to always passes the extension check.
pub proof fn law_document_path_has_odt_extension(upload_path: Seq<char>)
    ensures
        has_suffix(spec_document_path(upload_path), ".odt"@),
{
    let p = spec_document_path(upload_path);
    assert(p.skip(p.len() - ".odt"@.len()) =~= ".odt"@);
}

/// Exactly two detected types are accepted: the OpenDocument text type and
/// the zip type, each followed by the newline that `file` prints; every other
/// type is refused.
pub proof fn law_accepted_file_types(file_type: Seq<char>)
    ensures
        is_accepted_file_type(file_type) <==> (file_type
            == "application/vnd.oasis.opendocument.text\n"@ || file_type == "application/zip\n"@),
{
}

/// An upload whose file has contents is accepted exactly when the client sent
/// the SHA-1 digest of all of those contents.
pub proof fn law_nonempty_upload_needs_digest_of_all_contents(data: Vec<u8>, passed: Seq<char>)
    requires
        data@.len() > 0,
    ensures
        sha1sum_accepted(UploadedFile::Contents(data), passed) <==> passed == sha1_hex(data@),
{
}

} // verus!
