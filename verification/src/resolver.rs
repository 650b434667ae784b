//! The pure half of search-path resolution.
//!
//! Resolving a bare command name means walking the search directories in
//! order and taking the first `<directory>/<name>` that exists with an
//! execute permission bit set. Building the candidate paths and choosing
//! the first qualifying one are pure and verified here; the existence and
//! permission tests themselves are filesystem reads that the caller
//! performs, handing the answers in as one flag per candidate. Nothing is
//! cached: the caller re-reads the search path and re-tests the filesystem
//! on every resolution.

use vstd::prelude::*;
use vstd::string::StringExecFns;
use crate::strutil::opt_view;
use crate::strutil::views_of;
use crate::strutil::lemma_views_of_push;

verus! {

/// The candidate path a search directory contributes: `<dir>/<name>`.
pub open spec fn spec_candidate(dir: Seq<char>, name: Seq<char>) -> Seq<char> {
    dir + seq!['/'] + name
}

/// Builds `<dir>/<name>` for every search directory, in order.
pub fn candidate_paths(dirs: &Vec<String>, name: &str) -> (r: Vec<String>)
    ensures
        r@.len() == dirs@.len(),
        forall|i: int|
            0 <= i < dirs@.len() ==> views_of(r@)[i] == spec_candidate(dirs@[i]@, name@),
{
    let mut r: Vec<String> = Vec::new();
    let mut i: usize = 0;
    while i < dirs.len()
        invariant
            i <= dirs@.len(),
            r@.len() == i,
            forall|j: int| 0 <= j < i ==> views_of(r@)[j] == spec_candidate(dirs@[j]@, name@),
        decreases dirs@.len() - i,
    {
        let ghost pre = r@;
        let cand = dirs[i].clone().concat("/").concat(name);
        proof {
            reveal_strlit("/");
            assert("/"@ =~= seq!['/']);
        }
        r.push(cand);
        proof {
            lemma_views_of_push(pre, r@.last());
        }
        i += 1;
    }
    r
}

/// The first candidate whose flag is set, walking left to right.
pub open spec fn spec_first_hit(cands: Seq<Seq<char>>, flags: Seq<bool>) -> Option<Seq<char>>
    decreases cands.len(),
{
    if cands.len() == 0 || flags.len() == 0 {
        None
    } else if flags[0] {
        Some(cands[0])
    } else {
        spec_first_hit(cands.drop_first(), flags.drop_first())
    }
}

/// Picks the first candidate marked executable, in search order. The flag
/// vector answers, for each candidate, whether it exists on disk with an
/// execute permission bit set.
pub fn first_executable(candidates: &Vec<String>, flags: &Vec<bool>) -> (r: Option<String>)
    requires
        candidates@.len() == flags@.len(),
    ensures
        opt_view(r) == spec_first_hit(views_of(candidates@), flags@),
{
    let mut i: usize = 0;
    proof {
        assert(views_of(candidates@).skip(0) =~= views_of(candidates@));
        assert(flags@.skip(0) =~= flags@);
    }
    while i < candidates.len()
        invariant
            candidates@.len() == flags@.len(),
            i <= candidates@.len(),
            spec_first_hit(views_of(candidates@).skip(i as int), flags@.skip(i as int))
                == spec_first_hit(views_of(candidates@), flags@),
        decreases candidates@.len() - i,
    {
        let ghost vs = views_of(candidates@);
        if flags[i] {
            proof {
                assert(vs.skip(i as int)[0] == vs[i as int]);
            }
            return Some(candidates[i].clone());
        }
        proof {
            assert(vs.skip(i as int).drop_first() =~= vs.skip(i as int + 1));
            assert(flags@.skip(i as int).drop_first() =~= flags@.skip(i as int + 1));
        }
        i += 1;
    }
    proof {
        assert(views_of(candidates@).skip(candidates@.len() as int)
            =~= Seq::<Seq<char>>::empty());
    }
    None
}

} // verus!
