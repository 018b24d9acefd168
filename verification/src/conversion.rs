//! The decisions of the conversion request: where the uploaded document
//! and the PDF lie, which command converts, and what the client is answered.

use crate::command::{
    command_words, fill_command_template, filled_template, parse_command_line, CommandLine,
};
use crate::status::{spec_status_from_io_error, status_from_io_err, HttpStatus, IoErrorKind};
use crate::text::whitespace_words;
use vstd::prelude::*;

verus! {

/// The path of the uploaded document once it carries its `.odt` extension.
pub open spec fn spec_document_path(upload_path: Seq<char>) -> Seq<char> {
    upload_path + ".odt"@
}

/// The path at which the converter leaves the PDF.
pub open spec fn spec_pdf_path(upload_path: Seq<char>) -> Seq<char> {
    upload_path + ".pdf"@
}

/// The path the uploaded file is renamed to: its temporary path with `.odt`
/// appended.
pub fn document_path(upload_path: &str) -> (p: String)
    ensures
        p@ == spec_document_path(upload_path@),
        p@ == upload_path@ + ".odt"@,
{
    let mut p = upload_path.to_owned();
    p.append(".odt");
    p
}

/// The path of the PDF that the converter writes for an upload: its
/// temporary path with `.pdf` appended.
pub fn pdf_path(upload_path: &str) -> (p: String)
    ensures
        p@ == spec_pdf_path(upload_path@),
        p@ == upload_path@ + ".pdf"@,
{
    let mut p = upload_path.to_owned();
    p.append(".pdf");
    p
}

/// An answer that is not a document: a status and a text body.
#[derive(Debug, Clone)]
pub struct FailureResponse {
    pub status: HttpStatus,
    pub body: String,
}

/// The answer when the uploaded file cannot be renamed: the status that
/// matches the I/O failure, and a body that gives its reason.
pub fn rename_failure(kind: IoErrorKind, reason: &str) -> (r: FailureResponse)
    ensures
        r.status == spec_status_from_io_error(kind),
        r.body@ == "failed to elaborate the received file: "@ + reason@,
{
    let mut body = "failed to elaborate the received file: ".to_owned();
    body.append(reason);
    FailureResponse { status: status_from_io_err(kind), body }
}

/// The words of the command that copies a failed job's directory to
/// `err_destination_dir`, at the lowest priority.
pub open spec fn error_copy_words(working_dir: Seq<char>, err_destination_dir: Seq<char>) -> Seq<Seq<char>> {
    seq!["nice"@, "-n"@, "20"@, "cp"@, "-R"@, working_dir, err_destination_dir]
}

/// The command that keeps the working directory of a failed conversion:
/// `nice -n 20 cp -R <working_dir> <err_destination_dir>`.
pub fn error_copy_command(working_dir: &str, err_destination_dir: &str) -> (c: CommandLine)
    ensures
        command_words(c) == error_copy_words(working_dir@, err_destination_dir@),
{
    let mut args: Vec<String> = Vec::new();
    args.push("-n".to_owned());
    args.push("20".to_owned());
    args.push("cp".to_owned());
    args.push("-R".to_owned());
    args.push(working_dir.to_owned());
    args.push(err_destination_dir.to_owned());
    let c = CommandLine { program: "nice".to_owned(), args };
    assert(command_words(c) =~= error_copy_words(working_dir@, err_destination_dir@));
    c
}

/// What follows a conversion run.
#[derive(Debug, Clone)]
pub enum ConversionOutcome {
    /// The converter succeeded: the client gets the PDF at `path`.
    ServePdf { path: String },
    /// The converter failed: the working directory is copied away with
    /// `copy`, and the client gets `status` with no body.
    Failed { copy: CommandLine, status: HttpStatus },
}

/// Decides what follows a conversion run, from whether the converter
/// succeeded.
pub fn conversion_outcome(
    converter_succeeded: bool,
    upload_path: &str,
    working_dir: &str,
    err_destination_dir: &str,
) -> (o: ConversionOutcome)
    ensures
        converter_succeeded ==> (o matches ConversionOutcome::ServePdf { path } && path@
            == spec_pdf_path(upload_path@)),
        converter_succeeded ==> (o matches ConversionOutcome::ServePdf { path } && path@
            == upload_path@ + ".pdf"@),
        !converter_succeeded ==> (o matches ConversionOutcome::Failed { copy, status } && status
            == HttpStatus::InternalServerError && command_words(copy) == error_copy_words(
            working_dir@,
            err_destination_dir@,
        )),
{
    if converter_succeeded {
        ConversionOutcome::ServePdf { path: pdf_path(upload_path) }
    } else {
        ConversionOutcome::Failed {
            copy: error_copy_command(working_dir, err_destination_dir),
            status: HttpStatus::InternalServerError,
        }
    }
}

/// The converter to run on a document: the configured `template` with
/// `{working_dir}` and `{file}` filled in, cut at whitespace into the
/// program and its arguments; `None` when the filled template has no word.
pub fn conversion_command(template: &str, working_dir: &str, document: &str) -> (c: Option<CommandLine>)
    ensures
        c is None <==> whitespace_words(filled_template(template@, working_dir@, document@)).len() == 0,
        c matches Some(line) ==> command_words(line) == whitespace_words(
            filled_template(template@, working_dir@, document@),
        ),
{
    let cmd = fill_command_template(template, working_dir, document);
    parse_command_line(cmd.as_str())
}

/// The PDF is looked for at the whole upload path with `.pdf` appended, and
/// the document at the whole upload path with `.odt` appended: both keep
/// every character of the upload path, dots included, as their prefix.
pub proof fn law_paths_extend_the_upload_path(upload_path: Seq<char>)
    ensures
        spec_pdf_path(upload_path) == upload_path + ".pdf"@,
        spec_document_path(upload_path) == upload_path + ".odt"@,
        spec_pdf_path(upload_path).take(upload_path.len() as int) == upload_path,
        spec_pdf_path(upload_path).len() == upload_path.len() + 4,
{
    reveal_strlit(".pdf");
    assert((upload_path + ".pdf"@).take(upload_path.len() as int) =~= upload_path);
}

} // verus!
