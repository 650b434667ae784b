//! Turning a spawned program's outcome into tagged output records.
//!
//! The spawn itself and the byte capture are the caller's: they arrive here
//! as an optional `CaptureOutput` (`None` when the program could not be
//! spawned) whose fields hold each captured stream decoded as text, or
//! `None` where the bytes were not valid text. Every decision — command
//! not found, spawn failure, undecodable output, trimming, dropping empty
//! streams — is made here and verified for every possible outcome of the
//! spawn.

use vstd::prelude::*;
use vstd::string::StrSliceExecFns;
use vstd::string::StringExecFns;
use crate::records::OutputRecord;
use crate::records::Stream;
use crate::records::rec_models;
use crate::records::err_rec;
use crate::records::lemma_rec_models_push;
use crate::records::make_err;
use crate::strutil::opt_view;
use crate::strutil::trim_back;
use crate::strutil::trim_trailing_spaces;

verus! {

/// A spawned program's two captured streams, each decoded to text, or
/// `None` where the captured bytes were not valid text.
pub struct CaptureOutput {
    pub out_text: Option<String>,
    pub err_text: Option<String>,
}

/// Mathematical model of a capture: the views of the two decoded streams.
pub open spec fn capture_view(c: CaptureOutput) -> (Option<Seq<char>>, Option<Seq<char>>) {
    (opt_view(c.out_text), opt_view(c.err_text))
}

/// The records one captured stream contributes: its text trimmed of
/// trailing whitespace when anything is left of it, nothing when the
/// trimmed text is empty, and an error record when the bytes were not
/// valid text.
pub open spec fn spec_stream_records(text: Option<Seq<char>>, stream: Stream) -> Seq<
    (Seq<char>, Stream),
> {
    match text {
        Some(t) => if trim_back(t).len() == 0 {
            Seq::empty()
        } else {
            seq![(trim_back(t), stream)]
        },
        None => seq![err_rec("failed to parse program output as text"@)],
    }
}

/// The records running an external command produces: an error when the
/// name resolved to nothing, an error when the spawn failed, and otherwise
/// the contributions of the two captured streams, standard output first.
pub open spec fn spec_exec_records(
    cmd: Seq<char>,
    resolved: Option<Seq<char>>,
    capture: Option<(Option<Seq<char>>, Option<Seq<char>>)>,
) -> Seq<(Seq<char>, Stream)> {
    match resolved {
        None => seq![err_rec(cmd + ": command not found"@)],
        Some(_) => match capture {
            None => seq![err_rec("couldn't execute program"@)],
            Some(c) => spec_stream_records(c.0, Stream::Stdout) + spec_stream_records(
                c.1,
                Stream::Stderr,
            ),
        },
    }
}

/// Appends the records one captured stream contributes.
fn append_stream_records(output: &mut Vec<OutputRecord>, text: &Option<String>, stream: Stream)
    ensures
        rec_models(final(output)@) == rec_models(old(output)@) + spec_stream_records(
            opt_view(*text),
            stream,
        ),
{
    let ghost pre = output@;
    match text {
        Some(t) => {
            let trimmed = trim_trailing_spaces(t.as_str());
            if !trimmed.as_str().is_empty() {
                output.push(OutputRecord { text: trimmed, stream });
                proof {
                    lemma_rec_models_push(pre, output@.last());
                }
            }
        },
        None => {
            output.push(make_err(String::from_str("failed to parse program output as text")));
            proof {
                lemma_rec_models_push(pre, output@.last());
            }
        },
    }
    proof {
        assert(rec_models(output@) =~= rec_models(pre) + spec_stream_records(
            opt_view(*text),
            stream,
        ));
    }
}

/// Runs the external-command decision pipeline over the spawn's outcome.
/// `resolved` is the search path's answer for `cmd`; `capture` is `None`
/// when the spawn itself failed, and otherwise holds the two captured
/// streams decoded to text.
pub fn try_execute_command(
    output: &mut Vec<OutputRecord>,
    cmd: &String,
    resolved: &Option<String>,
    capture: &Option<CaptureOutput>,
)
    ensures
        rec_models(final(output)@) == rec_models(old(output)@) + spec_exec_records(
            cmd@,
            opt_view(*resolved),
            match *capture {
                Some(c) => Some(capture_view(c)),
                None => None,
            },
        ),
{
    let ghost pre = output@;
    match resolved {
        None => {
            let message = String::from_str(cmd.as_str()).concat(": command not found");
            output.push(make_err(message));
            proof {
                lemma_rec_models_push(pre, output@.last());
            }
        },
        Some(_) => {
            match capture {
                None => {
                    output.push(make_err(String::from_str("couldn't execute program")));
                    proof {
                        lemma_rec_models_push(pre, output@.last());
                    }
                },
                Some(c) => {
                    append_stream_records(output, &c.out_text, Stream::Stdout);
                    append_stream_records(output, &c.err_text, Stream::Stderr);
                },
            }
        },
    }
    proof {
        assert(rec_models(output@) =~= rec_models(pre) + spec_exec_records(
            cmd@,
            opt_view(*resolved),
            match *capture {
                Some(c) => Some(capture_view(c)),
                None => None,
            },
        ));
    }
}

} // verus!
