//! Proved laws of the shell, stated over the mathematical models that the
//! components' contracts use.

use vstd::prelude::*;
use crate::executor::spec_exec_records;
use crate::paths::spec_normalize;
use crate::records::Stream;
use crate::records::out_rec;
use crate::records::err_rec;
use crate::redirect::spec_extract;
use crate::router::spec_render;
use crate::shell::CommandKind;
use crate::shell::spec_cd_new_cwd;
use crate::shell::spec_cd_records;
use crate::shell::spec_cd_target;
use crate::shell::spec_dispatch;
use crate::shell::spec_is_builtin;
use crate::shell::spec_pwd_records;
use crate::shell::spec_type_records;
use crate::strutil::all_spaces;
use crate::strutil::trim_back;
use crate::tokenizer::QuoteState;
use crate::tokenizer::scan_tokens;
use crate::tokenizer::spec_tokenize;

verus! {

/// Scanning a tail of whitespace in the plain state, with no token begun,
/// completes no further token.
proof fn lemma_scan_spaces(s: Seq<char>, i: int, toks: Seq<Seq<char>>)
    requires
        0 <= i <= s.len(),
        forall|j: int| i <= j < s.len() ==> is_space_at(s, j),
    ensures
        scan_tokens(s, i, QuoteState::Plain, Seq::empty(), false, toks) == Some(toks),
    decreases s.len() - i,
{
    if i < s.len() {
        assert(is_space_at(s, i));
        lemma_scan_spaces(s, i + 1, toks);
        assert(scan_tokens(s, i, QuoteState::Plain, Seq::empty(), false, toks) == scan_tokens(
            s,
            i + 1,
            QuoteState::Plain,
            Seq::empty(),
            false,
            toks,
        ));
    }
}

/// Helper predicate so the whitespace quantifier has a stable trigger.
spec fn is_space_at(s: Seq<char>, j: int) -> bool {
    crate::strutil::is_space(s[j])
}

/// A line of whitespace alone is no action: it tokenizes to no tokens at
/// all, redirection extraction leaves nothing, and a whitespace-only
/// command word dispatches to a no-op.
pub proof fn lemma_blank_line_is_no_action(s: Seq<char>)
    requires
        all_spaces(s),
    ensures
        spec_tokenize(s) == Some(Seq::<Seq<char>>::empty()),
        spec_extract(Seq::<Seq<char>>::empty()) == (
            Seq::<Seq<char>>::empty(),
            None::<Seq<char>>,
            None::<Seq<char>>,
        ),
        spec_dispatch(s) == CommandKind::NoOp,
{
    assert(forall|j: int| 0 <= j < s.len() ==> is_space_at(s, j));
    lemma_scan_spaces(s, 0, Seq::empty());
}

/// `cd` to an operand that names nothing on disk and is not `~` leaves the
/// working directory untouched and reports exactly one error record.
pub proof fn lemma_cd_missing_path(
    cwd: Option<Seq<char>>,
    arg: Seq<char>,
    home: Option<Seq<char>>,
    chdir_ok: bool,
)
    requires
        arg != "~"@,
    ensures
        spec_cd_new_cwd(cwd, arg, false, home, chdir_ok) == cwd,
        spec_cd_records(cwd, arg, false, home, chdir_ok) == seq![
            err_rec("cd: "@ + arg + ": No such file or directory"@),
        ],
{
}

/// `pwd` right after a successful `cd` reports exactly the operand's
/// absolute form — and exactly the operand itself when it was already
/// absolute and in normal form.
pub proof fn lemma_pwd_after_cd(cwd: Option<Seq<char>>, arg: Seq<char>, home: Option<Seq<char>>)
    ensures
        spec_pwd_records(spec_cd_new_cwd(cwd, arg, true, home, true)) == seq![
            out_rec(spec_cd_target(cwd, arg)),
        ],
        arg.len() > 0 && arg[0] == '/' && spec_normalize(arg) == arg ==> spec_pwd_records(
            spec_cd_new_cwd(cwd, arg, true, home, true),
        ) == seq![out_rec(arg)],
{
}

/// `type` classifies a builtin name the same way on every call: for a
/// builtin operand its records do not depend on the resolver's answer, so
/// repeated calls agree whatever commands ran in between.
pub proof fn lemma_type_builtin_stable(
    args: Seq<Seq<char>>,
    resolved_then: Option<Seq<char>>,
    resolved_now: Option<Seq<char>>,
)
    requires
        args.len() > 0,
        spec_is_builtin(args[0]),
    ensures
        spec_type_records(args, resolved_then) == spec_type_records(args, resolved_now),
{
}

/// An external command that writes to both of its streams produces two
/// independent records, one per stream, and each stream renders only its
/// own record.
pub proof fn lemma_two_streams_independent(
    cmd: Seq<char>,
    path: Seq<char>,
    out_text: Seq<char>,
    err_text: Seq<char>,
)
    requires
        trim_back(out_text).len() > 0,
        trim_back(err_text).len() > 0,
    ensures
        spec_exec_records(cmd, Some(path), Some((Some(out_text), Some(err_text)))) =~= seq![
            (trim_back(out_text), Stream::Stdout),
            (trim_back(err_text), Stream::Stderr),
        ],
        spec_render(
            seq![(trim_back(out_text), Stream::Stdout), (trim_back(err_text), Stream::Stderr)],
            Stream::Stdout,
        ) == trim_back(out_text) + seq!['\n'],
        spec_render(
            seq![(trim_back(out_text), Stream::Stdout), (trim_back(err_text), Stream::Stderr)],
            Stream::Stderr,
        ) == trim_back(err_text) + seq!['\n'],
{
    reveal_with_fuel(spec_render, 3);
    let o = (trim_back(out_text), Stream::Stdout);
    let e = (trim_back(err_text), Stream::Stderr);
    let rs = seq![o, e];
    assert(rs.drop_last() =~= seq![o]);
    assert(seq![o].drop_last() =~= Seq::<(Seq<char>, Stream)>::empty());
    assert(spec_render(seq![o], Stream::Stdout) =~= o.0 + seq!['\n']);
    assert(spec_render(rs, Stream::Stdout) =~= o.0 + seq!['\n']);
    assert(spec_render(seq![o], Stream::Stderr) =~= Seq::<char>::empty());
    assert(spec_render(rs, Stream::Stderr) =~= e.0 + seq!['\n']);
}

} // verus!
