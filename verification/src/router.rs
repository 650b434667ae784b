//! Rendering a command's output records for one stream.
//!
//! Every record whose tag matches the requested stream contributes its text
//! followed by one newline, in order; records for the other stream are
//! skipped. The result is exactly what the caller prints to the real
//! stream, or writes — after truncating the file once — to the stream's
//! redirection target. Records for the two streams are never merged.

use vstd::prelude::*;
use vstd::string::StringExecFns;
use crate::records::OutputRecord;
use crate::records::Stream;
use crate::records::rec_models;

verus! {

/// The rendered text of a stream: each matching record's text followed by
/// a newline, in order.
pub open spec fn spec_render(rs: Seq<(Seq<char>, Stream)>, stream: Stream) -> Seq<char>
    decreases rs.len(),
{
    if rs.len() == 0 {
        Seq::empty()
    } else {
        spec_render(rs.drop_last(), stream) + (if rs.last().1 == stream {
            rs.last().0 + seq!['\n']
        } else {
            Seq::empty()
        })
    }
}

/// Renders the records of one stream as a block of newline-terminated
/// lines.
pub fn render_stream(records: &Vec<OutputRecord>, stream: Stream) -> (r: String)
    ensures
        r@ == spec_render(rec_models(records@), stream),
{
    let mut r = String::new();
    let mut i: usize = 0;
    proof {
        assert(rec_models(records@).take(0) =~= Seq::<(Seq<char>, Stream)>::empty());
    }
    while i < records.len()
        invariant
            i <= records@.len(),
            r@ == spec_render(rec_models(records@).take(i as int), stream),
        decreases records@.len() - i,
    {
        let rec = &records[i];
        if rec.stream == stream {
            r.append(rec.text.as_str());
            r.append("\n");
            proof {
                reveal_strlit("\n");
                assert("\n"@ =~= seq!['\n']);
            }
        }
        proof {
            let ms = rec_models(records@);
            assert(ms.take(i + 1).drop_last() =~= ms.take(i as int));
            assert(ms.take(i + 1).last() == ms[i as int]);
        }
        i += 1;
    }
    proof {
        assert(rec_models(records@).take(records@.len() as int) =~= rec_models(records@));
    }
    r
}

} // verus!
