//! Parsing a whole command line into a command.
//!
//! This composes the tokenizer and the redirection extractor: a raw line
//! becomes either a malformed-line report, an empty line, or a parsed
//! command holding the command name, its arguments with the redirections
//! removed, and the optional target path of each redirected stream.

use vstd::prelude::*;
use crate::redirect::extract_redirections;
use crate::redirect::spec_extract;
use crate::strutil::opt_view;
use crate::strutil::views_of;
use crate::tokenizer::spec_tokenize;
use crate::tokenizer::tokenize;

verus! {

/// A command line after tokenization and redirection extraction: the
/// command name is the first clean token, the arguments are the remaining
/// ones, and each stream's redirection target is kept separately.
pub struct ParsedCommand {
    pub name: String,
    pub args: Vec<String>,
    pub stdout_target: Option<String>,
    pub stderr_target: Option<String>,
}

/// The result of parsing one raw line.
pub enum LineParse {
    /// The line has an unclosed quote or a trailing unquoted backslash.
    Malformed,
    /// The line holds no token at all: nothing to do.
    Empty,
    Parsed(ParsedCommand),
}

/// Parses a raw line into a command. Returns `Malformed` exactly when the
/// tokenizer rejects the line, `Empty` exactly when no clean token is left
/// after redirection extraction, and otherwise the parsed command.
pub fn parse_command_line(line: &str) -> (r: LineParse)
    ensures
        (r is Malformed) <==> (spec_tokenize(line@) is None),
        spec_tokenize(line@) matches Some(toks) ==> ({
            let ext = spec_extract(toks);
            &&& ext.0.len() == 0 ==> r is Empty
            &&& ext.0.len() > 0 ==> (r matches LineParse::Parsed(pc) && pc.name@ == ext.0[0]
                && views_of(pc.args@) == ext.0.drop_first() && opt_view(pc.stdout_target) == ext.1
                && opt_view(pc.stderr_target) == ext.2)
        }),
{
    match tokenize(line) {
        None => LineParse::Malformed,
        Some(toks) => {
            let (clean, out_target, err_target) = extract_redirections(&toks);
            if clean.len() == 0 {
                LineParse::Empty
            } else {
                let mut args = clean;
                let ghost pre = args@;
                let name = args.remove(0);
                proof {
                    assert(views_of(pre.remove(0)) =~= views_of(pre).drop_first());
                }
                LineParse::Parsed(
                    ParsedCommand { name, args, stdout_target: out_target, stderr_target: err_target },
                )
            }
        },
    }
}

} // verus!
