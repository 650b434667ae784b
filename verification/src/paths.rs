//! Normalization of absolute paths.
//!
//! Joining a working directory with a relative `cd` operand can leave `.`
//! and `..` components in the result. Normalization resolves them the way
//! the operating system would: path pieces are cut at `/`, empty pieces and
//! `.` vanish, `..` removes the component before it and vanishes at the
//! root, and the surviving components are written back `/`-separated, with
//! `/` alone standing for the empty result. A path that does not start
//! with `/` is left untouched.

use vstd::prelude::*;
use vstd::string::StrSliceExecFns;
use vstd::string::StringExecFns;
use crate::strutil::str_eq;
use crate::strutil::views_of;
use crate::strutil::lemma_views_of_push;
use crate::strutil::lemma_views_of_drop_last;

verus! {

/// One step at a time, the `/`-separated pieces of `s` from position `i`,
/// with the piece `cur` under construction and the pieces `acc` already
/// cut.
pub open spec fn split_run(s: Seq<char>, i: int, cur: Seq<char>, acc: Seq<Seq<char>>) -> Seq<
    Seq<char>,
>
    decreases s.len() - i,
    when 0 <= i <= s.len()
{
    if i == s.len() {
        acc.push(cur)
    } else if s[i] == '/' {
        split_run(s, i + 1, Seq::empty(), acc.push(cur))
    } else {
        split_run(s, i + 1, cur.push(s[i]), acc)
    }
}

/// The `/`-separated pieces of a path. Separators are consumed; leading,
/// trailing and doubled slashes leave empty pieces.
pub open spec fn spec_split_slash(s: Seq<char>) -> Seq<Seq<char>> {
    split_run(s, 0, Seq::empty(), Seq::empty())
}

/// Cuts a path into its `/`-separated pieces.
pub fn split_slash(s: &str) -> (r: Vec<String>)
    ensures
        views_of(r@) == spec_split_slash(s@),
{
    let len = s.unicode_len();
    let mut i: usize = 0;
    let mut cur = String::new();
    let mut acc: Vec<String> = Vec::new();
    proof {
        assert(views_of(acc@) =~= Seq::<Seq<char>>::empty());
    }
    while i < len
        invariant
            len == s@.len(),
            i <= len,
            split_run(s@, i as int, cur@, views_of(acc@)) == spec_split_slash(s@),
        decreases len - i,
    {
        let ghost pre_i = i as int;
        let ghost pre_cur = cur@;
        let ghost pre_vec = acc@;
        let c = s.get_char(i);
        if c == '/' {
            acc.push(cur);
            cur = String::new();
            proof {
                lemma_views_of_push(pre_vec, acc@.last());
            }
        } else {
            let piece = s.substring_char(i, i + 1);
            proof {
                assert(s@.subrange(i as int, i as int + 1) =~= seq![s@[i as int]]);
            }
            cur.append(piece);
            proof {
                assert(cur@ =~= pre_cur.push(s@[i as int]));
            }
        }
        i += 1;
        proof {
            assert(split_run(s@, i as int, cur@, views_of(acc@)) == split_run(
                s@,
                pre_i,
                pre_cur,
                views_of(pre_vec),
            ));
        }
    }
    let ghost pre_vec = acc@;
    acc.push(cur);
    proof {
        lemma_views_of_push(pre_vec, acc@.last());
    }
    acc
}

/// Folds path pieces into the component stack of the normalized path:
/// empty pieces and `.` vanish, `..` removes the component before it (and
/// vanishes at the root), anything else is a component.
pub open spec fn norm_stack(parts: Seq<Seq<char>>) -> Seq<Seq<char>>
    decreases parts.len(),
{
    if parts.len() == 0 {
        Seq::empty()
    } else {
        let rest = norm_stack(parts.drop_last());
        let p = parts.last();
        if p.len() == 0 || p == "."@ {
            rest
        } else if p == ".."@ {
            if rest.len() > 0 {
                rest.drop_last()
            } else {
                rest
            }
        } else {
            rest.push(p)
        }
    }
}

/// Resolves `.` and `..` over a sequence of path pieces.
fn normalize_components(parts: &Vec<String>) -> (r: Vec<String>)
    ensures
        views_of(r@) == norm_stack(views_of(parts@)),
{
    let mut stack: Vec<String> = Vec::new();
    let mut i: usize = 0;
    proof {
        assert(views_of(stack@) =~= Seq::<Seq<char>>::empty());
        assert(views_of(parts@).take(0) =~= Seq::<Seq<char>>::empty());
    }
    while i < parts.len()
        invariant
            i <= parts@.len(),
            views_of(stack@) == norm_stack(views_of(parts@).take(i as int)),
        decreases parts@.len() - i,
    {
        let ghost pre_vec = stack@;
        let p = &parts[i];
        if p.as_str().is_empty() || str_eq(p.as_str(), ".") {
        } else if str_eq(p.as_str(), "..") {
            if stack.len() > 0 {
                proof {
                    lemma_views_of_drop_last(pre_vec);
                }
                stack.pop();
            }
        } else {
            stack.push(p.clone());
            proof {
                lemma_views_of_push(pre_vec, stack@.last());
            }
        }
        proof {
            let vs = views_of(parts@);
            assert(vs.take(i + 1).drop_last() =~= vs.take(i as int));
            assert(vs.take(i + 1).last() == vs[i as int]);
        }
        i += 1;
    }
    proof {
        assert(views_of(parts@).take(parts@.len() as int) =~= views_of(parts@));
    }
    stack
}

/// The absolute path written from a component stack: each component behind
/// one `/`; the empty stack writes nothing (its caller stands `/` in).
pub open spec fn join_abs(parts: Seq<Seq<char>>) -> Seq<char>
    decreases parts.len(),
{
    if parts.len() == 0 {
        Seq::empty()
    } else {
        join_abs(parts.drop_last()) + seq!['/'] + parts.last()
    }
}

/// An absolute path with its `.` and `..` components resolved; a path not
/// starting with `/` is returned unchanged.
pub open spec fn spec_normalize(s: Seq<char>) -> Seq<char> {
    if s.len() > 0 && s[0] == '/' {
        let joined = join_abs(norm_stack(spec_split_slash(s)));
        if joined.len() == 0 {
            seq!['/']
        } else {
            joined
        }
    } else {
        s
    }
}

/// Normalizes an absolute path; leaves any other string untouched.
pub fn normalize_path(s: &str) -> (r: String)
    ensures
        r@ == spec_normalize(s@),
{
    let len = s.unicode_len();
    if len == 0 || s.get_char(0) != '/' {
        return String::from_str(s);
    }
    let parts = split_slash(s);
    let stack = normalize_components(&parts);
    if stack.len() == 0 {
        proof {
            assert(views_of(stack@) =~= Seq::<Seq<char>>::empty());
            reveal_strlit("/");
            assert("/"@ =~= seq!['/']);
        }
        String::from_str("/")
    } else {
        let mut r = String::new();
        let mut i: usize = 0;
        proof {
            assert(views_of(stack@).take(0) =~= Seq::<Seq<char>>::empty());
        }
        while i < stack.len()
            invariant
                i <= stack@.len(),
                r@ == join_abs(views_of(stack@).take(i as int)),
            decreases stack@.len() - i,
        {
            r.append("/");
            proof {
                reveal_strlit("/");
                assert("/"@ =~= seq!['/']);
            }
            r.append(stack[i].as_str());
            proof {
                let vs = views_of(stack@);
                assert(vs.take(i + 1).drop_last() =~= vs.take(i as int));
                assert(vs.take(i + 1).last() == vs[i as int]);
            }
            i += 1;
        }
        proof {
            assert(views_of(stack@).take(stack@.len() as int) =~= views_of(stack@));
        }
        r
    }
}

} // verus!
