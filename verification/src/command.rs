//! External commands that the service runs: how a command line is written
//! from a template and cut into a program and its arguments.

use crate::text::{
    lemma_replace_absent_pattern, replace_all, replaced, split_whitespace, string_views,
    whitespace_words,
};
use vstd::prelude::*;

verus! {

/// A program to run and the arguments it is given.
#[derive(Debug, Clone)]
pub struct CommandLine {
    pub program: String,
    pub args: Vec<String>,
}

/// The words of a command line: the program, then its arguments.
pub open spec fn command_words(c: CommandLine) -> Seq<Seq<char>> {
    seq![c.program@] + string_views(c.args@)
}

/// A command template with `{working_dir}` replaced by `working_dir`, then
/// `{file}` replaced by `file` in the result.
pub open spec fn filled_template(template: Seq<char>, working_dir: Seq<char>, file: Seq<char>) -> Seq<char> {
    replaced(replaced(template, "{working_dir}"@, working_dir), "{file}"@, file)
}

/// Writes the command for a document: every `{working_dir}` in `template`
/// becomes `working_dir`, then every `{file}` becomes `file`.
pub fn fill_command_template(template: &str, working_dir: &str, file: &str) -> (cmd: String)
    ensures
        cmd@ == filled_template(template@, working_dir@, file@),
{
    let with_dir = replace_all(template, "{working_dir}", working_dir);
    replace_all(with_dir.as_str(), "{file}", file)
}

/// The command whose words are `words`: the first names the program, the
/// others are its arguments.
pub fn command_line(words: Vec<String>) -> (c: CommandLine)
    requires
        words@.len() > 0,
    ensures
        command_words(c) == string_views(words@),
{
    let mut args = words;
    let ghost all = string_views(args@);
    let program = args.remove(0);
    assert(seq![program@] + string_views(args@) =~= all);
    CommandLine { program, args }
}

/// The words of `cmd` as a command, if it has any.
pub fn parse_command_line(cmd: &str) -> (c: Option<CommandLine>)
    ensures
        c is None <==> whitespace_words(cmd@).len() == 0,
        c matches Some(line) ==> command_words(line) == whitespace_words(cmd@),
{
    let words = split_whitespace(cmd);
    if words.len() == 0 {
        None
    } else {
        Some(command_line(words))
    }
}

/// Whether `pat` occurs somewhere in `s`.
pub open spec fn occurs_in(s: Seq<char>, pat: Seq<char>) -> bool {
    exists|i: int| 0 <= i <= s.len() - pat.len() && #[trigger] s.subrange(i, i + pat.len()) == pat
}

/// A template that holds neither `{working_dir}` nor `{file}` is the command
/// itself, whatever the directory and the file.
pub proof fn law_template_without_placeholders_is_kept(
    template: Seq<char>,
    working_dir: Seq<char>,
    file: Seq<char>,
)
    requires
        !occurs_in(template, "{working_dir}"@),
        !occurs_in(template, "{file}"@),
    ensures
        filled_template(template, working_dir, file) == template,
{
    reveal_strlit("{working_dir}");
    reveal_strlit("{file}");
    lemma_replace_absent_pattern(template, "{working_dir}"@, working_dir);
    lemma_replace_absent_pattern(template, "{file}"@, file);
}

} // verus!
