use odt2pdf::command::{command_line, fill_command_template, parse_command_line};

const CMD: &str = "timeout --kill-after 10s 1m time -v -a -o {working_dir}/time.log libreoffice --headless --convert-to pdf:writer_pdf_Export --outdir {working_dir} {file}";

#[test]
fn template_is_filled_with_directory_and_file() {
    let cmd = fill_command_template(CMD, "/tmp/up", "/tmp/up/doc.odt");
    assert_eq!(
        cmd,
        "timeout --kill-after 10s 1m time -v -a -o /tmp/up/time.log libreoffice --headless --convert-to pdf:writer_pdf_Export --outdir /tmp/up /tmp/up/doc.odt"
    );
}

#[test]
fn directory_is_filled_before_file() {
    // A `{file}` that the directory brings in is replaced too.
    assert_eq!(fill_command_template("{working_dir}", "{file}", "F"), "F");
    // A `{working_dir}` that the file brings in stays.
    assert_eq!(fill_command_template("{file}", "D", "{working_dir}"), "{working_dir}");
}

#[test]
fn template_without_placeholders_is_kept() {
    assert_eq!(fill_command_template("echo hello", "D", "F"), "echo hello");
}

#[test]
fn command_line_splits_program_and_arguments() {
    let c = command_line(vec!["file".to_string(), "-b".to_string()]);
    assert_eq!(c.program, "file");
    assert_eq!(c.args, vec!["-b".to_string()]);
}

#[test]
fn parse_command_line_cases() {
    assert!(parse_command_line("   ").is_none());
    let c = parse_command_line("  nice  -n 20 ").unwrap();
    assert_eq!(c.program, "nice");
    assert_eq!(c.args, vec!["-n".to_string(), "20".to_string()]);
}
