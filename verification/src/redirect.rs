//! Extraction of output redirections from a token sequence.
//!
//! The scan walks the tokens left to right. The operators `>` and `1>` both
//! redirect standard output and `2>` redirects standard error; each operator
//! consumes the token immediately following it as its target file path, and
//! both disappear from the argument list. An operator standing last on the
//! line has no target: it alone is removed and silently ignored. When an
//! operator kind occurs more than once, the last occurrence wins.

use vstd::prelude::*;
use vstd::string::StrSliceExecFns;
use crate::strutil::str_eq;
use crate::strutil::views_of;
use crate::strutil::opt_view;
use crate::strutil::lemma_views_of_push;

verus! {

/// Whether a token redirects standard output.
pub open spec fn is_out_op(t: Seq<char>) -> bool {
    t == ">"@ || t == "1>"@
}

/// Whether a token redirects standard error.
pub open spec fn is_err_op(t: Seq<char>) -> bool {
    t == "2>"@
}

/// One step at a time, the result of scanning `toks` from position `i` with
/// the clean arguments and targets collected so far: the remaining clean
/// tokens, the standard-output target and the standard-error target.
pub open spec fn scan_redirects(
    toks: Seq<Seq<char>>,
    i: int,
    clean: Seq<Seq<char>>,
    out_t: Option<Seq<char>>,
    err_t: Option<Seq<char>>,
) -> (Seq<Seq<char>>, Option<Seq<char>>, Option<Seq<char>>)
    decreases toks.len() - i,
    when 0 <= i <= toks.len()
{
    if i == toks.len() {
        (clean, out_t, err_t)
    } else {
        let t = toks[i];
        if is_out_op(t) {
            if i + 1 < toks.len() {
                scan_redirects(toks, i + 2, clean, Some(toks[i + 1]), err_t)
            } else {
                scan_redirects(toks, i + 1, clean, out_t, err_t)
            }
        } else if is_err_op(t) {
            if i + 1 < toks.len() {
                scan_redirects(toks, i + 2, clean, out_t, Some(toks[i + 1]))
            } else {
                scan_redirects(toks, i + 1, clean, out_t, err_t)
            }
        } else {
            scan_redirects(toks, i + 1, clean.push(t), out_t, err_t)
        }
    }
}

/// The clean tokens and the two redirection targets of a token sequence.
pub open spec fn spec_extract(toks: Seq<Seq<char>>) -> (
    Seq<Seq<char>>,
    Option<Seq<char>>,
    Option<Seq<char>>,
) {
    scan_redirects(toks, 0, Seq::empty(), None, None)
}

/// Separates redirection operators and their targets from the arguments.
/// Returns the clean tokens, the standard-output target and the
/// standard-error target.
pub fn extract_redirections(tokens: &Vec<String>) -> (r: (
    Vec<String>,
    Option<String>,
    Option<String>,
))
    ensures
        spec_extract(views_of(tokens@)) == (views_of(r.0@), opt_view(r.1), opt_view(r.2)),
{
    let toks_len = tokens.len();
    let mut i: usize = 0;
    let mut clean: Vec<String> = Vec::new();
    let mut out_t: Option<String> = None;
    let mut err_t: Option<String> = None;
    proof {
        assert(views_of(clean@) =~= Seq::<Seq<char>>::empty());
    }
    while i < toks_len
        invariant
            toks_len == tokens@.len(),
            i <= toks_len,
            scan_redirects(views_of(tokens@), i as int, views_of(clean@), opt_view(out_t), opt_view(err_t))
                == spec_extract(views_of(tokens@)),
        decreases toks_len - i,
    {
        let ghost pre_i = i as int;
        let ghost pre_clean = clean@;
        let ghost pre_out = opt_view(out_t);
        let ghost pre_err = opt_view(err_t);
        let t = &tokens[i];
        if str_eq(t.as_str(), ">") || str_eq(t.as_str(), "1>") {
            if i + 1 < toks_len {
                out_t = Some(tokens[i + 1].clone());
                i += 2;
            } else {
                i += 1;
            }
        } else if str_eq(t.as_str(), "2>") {
            if i + 1 < toks_len {
                err_t = Some(tokens[i + 1].clone());
                i += 2;
            } else {
                i += 1;
            }
        } else {
            clean.push(t.clone());
            proof {
                lemma_views_of_push(pre_clean, clean@.last());
            }
            i += 1;
        }
        proof {
            assert(scan_redirects(views_of(tokens@), i as int, views_of(clean@), opt_view(out_t), opt_view(err_t))
                == scan_redirects(views_of(tokens@), pre_i, views_of(pre_clean), pre_out, pre_err));
        }
    }
    (clean, out_t, err_t)
}

} // verus!
