//! The service's configuration: its default text and how settings are read
//! from it.
//!
//! The text is read by the `config` crate (a libconfig reader); this module
//! writes the text, hands it over and reads string settings back.

use config::error::ConfigError;
use config::types::Config;
use vstd::prelude::*;

verus! {

/// A configuration read by the `config` crate.
#[verifier::external_type_specification]
#[verifier::external_body]
pub struct ExConfig(Config);

/// The error that the `config` crate reports for a text it cannot read.
#[verifier::external_type_specification]
#[verifier::external_body]
pub struct ExConfigError(ConfigError);

/// The string settings that a configuration holds: each path at which
/// `Config::lookup_str` finds a string, with that string.
pub uninterp spec fn config_strings(cfg: Config) -> Map<Seq<char>, Seq<char>>;

/// The string settings of the configuration that `config::reader::from_str`
/// reads from a text without `$` and carriage returns, or `None` where it
/// reports a syntax error.
pub uninterp spec fn parsed_config_strings(text: Seq<char>) -> Option<Map<Seq<char>, Seq<char>>>;

/// A configuration text that holds neither a carriage return (the reader
/// panics on one not followed by a newline inside a string) nor a `$` (which
/// introduces values read from environment variables).
pub open spec fn is_plain_config_text(text: Seq<char>) -> bool {
    forall|i: int| 0 <= i < text.len() ==> #[trigger] text[i] != '\r' && text[i] != '$'
}

/// `config::reader::from_str`: reads a configuration from `text`. On a plain
/// text (see `is_plain_config_text`) it does not panic and reads no
/// environment variable, so it fails exactly on the texts that do not parse
/// and what it reads is determined by the text; the contract says nothing of
/// other texts, which the `requires` leaves out.
#[verifier::external_body]
fn read_config(text: &str) -> (res: Result<Config, ConfigError>)
    requires
        is_plain_config_text(text@),
    ensures
        match res {
            Ok(c) => parsed_config_strings(text@) == Some(config_strings(c)),
            Err(_) => parsed_config_strings(text@) is None,
        },
{
    config::reader::from_str(text)
}

/// `Config::lookup_str`: the string stored at `path`, if a string is stored
/// there.
#[verifier::external_body]
fn lookup_str(cfg: &Config, path: &str) -> (res: Option<String>)
    ensures
        res is Some <==> config_strings(*cfg).dom().contains(path@),
        res matches Some(v) ==> v@ == config_strings(*cfg)[path@],
{
    cfg.lookup_str(path).map(|s| s.to_string())
}

/// Why a configuration could not be loaded.
#[derive(Debug)]
pub enum ConfigLoadError {
    /// The text is not a valid configuration; the reader's own report.
    Syntax(ConfigError),
}

/// The command that turns the uploaded document into a PDF; `{working_dir}`
/// and `{file}` stand for the upload's directory and the document's path.
pub open spec fn default_transformation_cmd() -> Seq<char> {
    "timeout --kill-after 10s 1m time -v -a -o {working_dir}/time.log libreoffice --headless --convert-to pdf:writer_pdf_Export --outdir {working_dir} {file}"@
}

/// Where the documents whose conversion failed are copied.
pub open spec fn default_err_destination_dir() -> Seq<char> {
    "./errors"@
}

/// The text of the default configuration: a group `transformation` with the
/// settings `cmd` and `err_destination_dir`.
pub open spec fn default_configuration_text() -> Seq<char> {
    "transformation:\n"@ + "{"@ + "\ncmd=\""@ + default_transformation_cmd() + "\";\nerr_destination_dir=\""@
        + default_err_destination_dir() + "\";\n"@ + "}"@ + ";\n"@
}

/// Writes the text of the default configuration.
pub fn default_configuration_text_string() -> (s: String)
    ensures
        s@ == default_configuration_text(),
        is_plain_config_text(s@),
{
    proof {
        lemma_default_configuration_text_is_plain();
    }
    let mut s = "transformation:\n".to_owned();
    s.append("{");
    s.append("\ncmd=\"");
    s.append(
        "timeout --kill-after 10s 1m time -v -a -o {working_dir}/time.log libreoffice --headless --convert-to pdf:writer_pdf_Export --outdir {working_dir} {file}",
    );
    s.append("\";\nerr_destination_dir=\"");
    s.append("./errors");
    s.append("\";\n");
    s.append("}");
    s.append(";\n");
    s
}

proof fn lemma_plain_concat(a: Seq<char>, b: Seq<char>)
    requires
        is_plain_config_text(a),
        is_plain_config_text(b),
    ensures
        is_plain_config_text(a + b),
{
    assert forall|i: int| 0 <= i < (a + b).len() implies #[trigger] (a + b)[i] != '\r' && (a
        + b)[i] != '$' by {
        if i < a.len() {
            assert((a + b)[i] == a[i]);
        } else {
            assert((a + b)[i] == b[i - a.len()]);
        }
    }
}

/// The default configuration text holds neither `$` nor a carriage return.
proof fn lemma_default_configuration_text_is_plain()
    ensures
        is_plain_config_text(default_configuration_text()),
{
    reveal_strlit("transformation:\n");
    reveal_strlit("{");
    reveal_strlit("\ncmd=\"");
    reveal_strlit(
        "timeout --kill-after 10s 1m time -v -a -o {working_dir}/time.log libreoffice --headless --convert-to pdf:writer_pdf_Export --outdir {working_dir} {file}",
    );
    reveal_strlit("\";\nerr_destination_dir=\"");
    reveal_strlit("./errors");
    reveal_strlit("\";\n");
    reveal_strlit("}");
    reveal_strlit(";\n");
    let p0 = "transformation:\n"@;
    let p1 = "{"@;
    let p2 = "\ncmd=\""@;
    let p3 = default_transformation_cmd();
    let p4 = "\";\nerr_destination_dir=\""@;
    let p5 = default_err_destination_dir();
    let p6 = "\";\n"@;
    let p7 = "}"@;
    let p8 = ";\n"@;
    assert(is_plain_config_text(p0));
    assert(is_plain_config_text(p1));
    assert(is_plain_config_text(p2));
    assert(is_plain_config_text(p3));
    assert(is_plain_config_text(p4));
    assert(is_plain_config_text(p5));
    assert(is_plain_config_text(p6));
    assert(is_plain_config_text(p7));
    assert(is_plain_config_text(p8));
    lemma_plain_concat(p0, p1);
    lemma_plain_concat(p0 + p1, p2);
    lemma_plain_concat(p0 + p1 + p2, p3);
    lemma_plain_concat(p0 + p1 + p2 + p3, p4);
    lemma_plain_concat(p0 + p1 + p2 + p3 + p4, p5);
    lemma_plain_concat(p0 + p1 + p2 + p3 + p4 + p5, p6);
    lemma_plain_concat(p0 + p1 + p2 + p3 + p4 + p5 + p6, p7);
    lemma_plain_concat(p0 + p1 + p2 + p3 + p4 + p5 + p6 + p7, p8);
}

/// The configuration that the service runs with when none is given: the
/// default text, as the `config` crate reads it.
pub fn default_config() -> (res: Result<Config, ConfigLoadError>)
    ensures
        res is Ok <==> parsed_config_strings(default_configuration_text()) is Some,
        res matches Ok(c) ==> parsed_config_strings(default_configuration_text()) == Some(
            config_strings(c),
        ),
{
    let text = default_configuration_text_string();
    match read_config(text.as_str()) {
        Ok(conf) => Ok(conf),
        Err(why) => Err(ConfigLoadError::Syntax(why)),
    }
}

/// The configuration of the service; it is the default one.
pub fn get_config() -> (res: Result<Config, ConfigLoadError>)
    ensures
        res is Ok <==> parsed_config_strings(default_configuration_text()) is Some,
        res matches Ok(c) ==> parsed_config_strings(default_configuration_text()) == Some(
            config_strings(c),
        ),
{
    default_config()
}

/// The string setting of `conf` at the dotted path `param`, if there is one.
pub fn get_config_parameter(conf: &Config, param: &str) -> (res: Option<String>)
    ensures
        res is Some <==> config_strings(*conf).dom().contains(param@),
        res matches Some(v) ==> v@ == config_strings(*conf)[param@],
{
    lookup_str(conf, param)
}

} // verus!
