//! Quote-aware tokenization of a raw command line.
//!
//! The grammar: unquoted whitespace separates tokens; text between single
//! quotes is taken literally; between double quotes a backslash escapes only
//! `"` and `\`, any other backslash is kept literally; outside quotes a
//! backslash escapes the next character, whatever it is. Quoting characters
//! are consumed and never appear in the produced tokens; a quoted empty
//! string yields an empty token. An unclosed quote or a trailing unquoted
//! backslash is a malformed line, reported as `None` rather than a panic.

use vstd::prelude::*;
use vstd::string::StrSliceExecFns;
use vstd::string::StringExecFns;
use crate::strutil::is_space;
use crate::strutil::is_space_char;
use crate::strutil::views_of;
use crate::strutil::lemma_views_of_push;

verus! {

/// Where in the quoting grammar the scan currently stands.
#[derive(Clone, Copy, Debug, PartialEq, Eq, Structural)]
pub enum QuoteState {
    /// Outside any quotes.
    Plain,
    /// Inside single quotes.
    Single,
    /// Inside double quotes.
    Double,
}

/// One step at a time, the tokens that scanning `s` from position `i`
/// onwards produces, starting from the given quote state, the partial token
/// `cur` (meaningful when `started` holds, or when inside quotes), and the
/// tokens `toks` already completed. `None` means the line is malformed:
/// a quote is left unclosed or the line ends in an unquoted backslash.
pub open spec fn scan_tokens(
    s: Seq<char>,
    i: int,
    state: QuoteState,
    cur: Seq<char>,
    started: bool,
    toks: Seq<Seq<char>>,
) -> Option<Seq<Seq<char>>>
    decreases s.len() - i,
    when 0 <= i <= s.len()
{
    if i == s.len() {
        match state {
            QuoteState::Plain => Some(
                if started {
                    toks.push(cur)
                } else {
                    toks
                },
            ),
            _ => None,
        }
    } else {
        let c = s[i];
        match state {
            QuoteState::Plain => {
                if is_space(c) {
                    if started {
                        scan_tokens(s, i + 1, QuoteState::Plain, Seq::empty(), false, toks.push(cur))
                    } else {
                        scan_tokens(s, i + 1, QuoteState::Plain, cur, false, toks)
                    }
                } else if c == '\'' {
                    scan_tokens(s, i + 1, QuoteState::Single, cur, true, toks)
                } else if c == '"' {
                    scan_tokens(s, i + 1, QuoteState::Double, cur, true, toks)
                } else if c == '\\' {
                    if i + 1 == s.len() {
                        None
                    } else {
                        scan_tokens(s, i + 2, QuoteState::Plain, cur.push(s[i + 1]), true, toks)
                    }
                } else {
                    scan_tokens(s, i + 1, QuoteState::Plain, cur.push(c), true, toks)
                }
            },
            QuoteState::Single => {
                if c == '\'' {
                    scan_tokens(s, i + 1, QuoteState::Plain, cur, true, toks)
                } else {
                    scan_tokens(s, i + 1, QuoteState::Single, cur.push(c), true, toks)
                }
            },
            QuoteState::Double => {
                if c == '"' {
                    scan_tokens(s, i + 1, QuoteState::Plain, cur, true, toks)
                } else if c == '\\' && i + 1 < s.len() && (s[i + 1] == '"' || s[i + 1] == '\\') {
                    scan_tokens(s, i + 2, QuoteState::Double, cur.push(s[i + 1]), true, toks)
                } else {
                    scan_tokens(s, i + 1, QuoteState::Double, cur.push(c), true, toks)
                }
            },
        }
    }
}

/// The token sequence of a whole line, or `None` for a malformed line.
pub open spec fn spec_tokenize(s: Seq<char>) -> Option<Seq<Seq<char>>> {
    scan_tokens(s, 0, QuoteState::Plain, Seq::empty(), false, Seq::empty())
}

/// Splits a raw command line into tokens under the quoting grammar.
/// Returns `None` exactly when the line is malformed (an unclosed quote or
/// a trailing unquoted backslash).
pub fn tokenize(line: &str) -> (r: Option<Vec<String>>)
    ensures
        match r {
            Some(toks) => spec_tokenize(line@) == Some(views_of(toks@)),
            None => spec_tokenize(line@) is None,
        },
{
    let len = line.unicode_len();
    let mut i: usize = 0;
    let mut state = QuoteState::Plain;
    let mut cur = String::new();
    let mut started = false;
    let mut toks: Vec<String> = Vec::new();
    proof {
        assert(views_of(toks@) =~= Seq::<Seq<char>>::empty());
    }
    while i < len
        invariant
            len == line@.len(),
            i <= len,
            state != QuoteState::Plain ==> started,
            scan_tokens(line@, i as int, state, cur@, started, views_of(toks@))
                == spec_tokenize(line@),
        decreases len - i,
    {
        let ghost pre_i = i as int;
        let ghost pre_state = state;
        let ghost pre_cur = cur@;
        let ghost pre_started = started;
        let ghost pre_vec = toks@;
        let c = line.get_char(i);
        match state {
            QuoteState::Plain => {
                if is_space_char(c) {
                    if started {
                        toks.push(cur);
                        cur = String::new();
                        started = false;
                        proof {
                            lemma_views_of_push(pre_vec, toks@.last());
                        }
                    }
                    i += 1;
                } else if c == '\'' {
                    state = QuoteState::Single;
                    started = true;
                    i += 1;
                } else if c == '"' {
                    state = QuoteState::Double;
                    started = true;
                    i += 1;
                } else if c == '\\' {
                    if i + 1 == len {
                        proof {
                            assert(spec_tokenize(line@) is None);
                        }
                        return None;
                    }
                    push_one(&mut cur, line, i + 1);
                    started = true;
                    i += 2;
                } else {
                    push_one(&mut cur, line, i);
                    started = true;
                    i += 1;
                }
            },
            QuoteState::Single => {
                if c == '\'' {
                    state = QuoteState::Plain;
                    i += 1;
                } else {
                    push_one(&mut cur, line, i);
                    i += 1;
                }
            },
            QuoteState::Double => {
                if c == '"' {
                    state = QuoteState::Plain;
                    i += 1;
                } else if c == '\\' && i + 1 < len {
                    let d = line.get_char(i + 1);
                    if d == '"' || d == '\\' {
                        push_one(&mut cur, line, i + 1);
                        i += 2;
                    } else {
                        push_one(&mut cur, line, i);
                        i += 1;
                    }
                } else {
                    push_one(&mut cur, line, i);
                    i += 1;
                }
            },
        }
        proof {
            assert(scan_tokens(line@, i as int, state, cur@, started, views_of(toks@))
                == scan_tokens(line@, pre_i, pre_state, pre_cur, pre_started, views_of(pre_vec)));
        }
    }
    match state {
        QuoteState::Plain => {
            if started {
                let ghost pre_vec = toks@;
                toks.push(cur);
                proof {
                    lemma_views_of_push(pre_vec, toks@.last());
                }
            }
            Some(toks)
        },
        _ => None,
    }
}

/// Appends the single character `s[i]` to `cur`.
fn push_one(cur: &mut String, s: &str, i: usize)
    requires
        i < s@.len(),
        i < usize::MAX,
    ensures
        final(cur)@ == old(cur)@.push(s@[i as int]),
{
    let piece = s.substring_char(i, i + 1);
    proof {
        assert(s@.subrange(i as int, i as int + 1) =~= seq![s@[i as int]]);
    }
    cur.append(piece);
    proof {
        assert(old(cur)@ + seq![s@[i as int]] =~= old(cur)@.push(s@[i as int]));
    }
}

} // verus!
