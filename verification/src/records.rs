//! Tagged output records: every command handler reports its results as a
//! sequence of `OutputRecord` values instead of writing to the terminal, so
//! that redirection can be applied uniformly afterwards.

use vstd::prelude::*;

verus! {

/// Which standard stream a piece of command output belongs to.
#[derive(Clone, Copy, Debug, PartialEq, Eq, Structural)]
pub enum Stream {
    Stdout,
    Stderr,
}

/// One tagged piece of output produced by running a command.
pub struct OutputRecord {
    pub text: String,
    pub stream: Stream,
}

/// Mathematical model of a record: its text and its stream tag.
pub open spec fn rec_model(r: OutputRecord) -> (Seq<char>, Stream) {
    (r.text@, r.stream)
}

/// Models of a whole sequence of records, element by element.
pub open spec fn rec_models(rs: Seq<OutputRecord>) -> Seq<(Seq<char>, Stream)> {
    Seq::new(rs.len(), |i: int| rec_model(rs[i]))
}

/// Model of a record carrying `text` on standard output.
pub open spec fn out_rec(text: Seq<char>) -> (Seq<char>, Stream) {
    (text, Stream::Stdout)
}

/// Model of a record carrying `text` on standard error.
pub open spec fn err_rec(text: Seq<char>) -> (Seq<char>, Stream) {
    (text, Stream::Stderr)
}

/// Taking models commutes with appending one record.
pub proof fn lemma_rec_models_push(rs: Seq<OutputRecord>, r: OutputRecord)
    ensures
        rec_models(rs.push(r)) =~= rec_models(rs).push(rec_model(r)),
{
}

/// Builds a standard-output record.
pub fn make_out(text: String) -> (r: OutputRecord)
    ensures
        rec_model(r) == out_rec(text@),
{
    OutputRecord { text, stream: Stream::Stdout }
}

/// Builds a standard-error record.
pub fn make_err(text: String) -> (r: OutputRecord)
    ensures
        rec_model(r) == err_rec(text@),
{
    OutputRecord { text, stream: Stream::Stderr }
}

} // verus!
