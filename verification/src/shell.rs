//! The shell's working-directory state, the command dispatcher and the
//! builtin commands.
//!
//! The working directory is an explicit piece of state threaded through the
//! handlers rather than a hidden process-wide global. Every fact that only
//! the operating system knows — whether a path exists, whether the real
//! directory change succeeded, the value of the home variable — reaches the
//! handlers as a plain argument, so their behaviour is specified and proved
//! for every possible answer.

use vstd::prelude::*;
use vstd::string::StrSliceExecFns;
use vstd::string::StringExecFns;
use crate::records::OutputRecord;
use crate::records::Stream;
use crate::records::rec_models;
use crate::records::out_rec;
use crate::records::err_rec;
use crate::records::lemma_rec_models_push;
use crate::records::make_out;
use crate::records::make_err;
use crate::strutil::all_spaces;
use crate::strutil::is_blank_str;
use crate::strutil::str_eq;
use crate::strutil::opt_view;
use crate::strutil::views_of;
use crate::strutil::join_spaces;
use crate::strutil::join_with_spaces;
use crate::paths::normalize_path;
use crate::paths::spec_normalize;

verus! {

/// The shell's mutable state: its current working directory, or `None` when
/// it could not be read at startup.
pub struct ShellState {
    pub cwd: Option<String>,
}

/// How a command line's first word is routed.
#[derive(Clone, Copy, Debug, PartialEq, Eq, Structural)]
pub enum CommandKind {
    /// An empty or whitespace-only command word: the shell does nothing.
    NoOp,
    Exit,
    Echo,
    Type,
    Pwd,
    Cd,
    /// Anything else: looked up on the search path and spawned.
    External,
}

/// Whether a command name is one of the shell's builtins.
pub open spec fn spec_is_builtin(name: Seq<char>) -> bool {
    name == "exit"@ || name == "echo"@ || name == "type"@ || name == "pwd"@ || name == "cd"@
}

/// How the dispatcher classifies a command name.
pub open spec fn spec_dispatch(name: Seq<char>) -> CommandKind {
    if all_spaces(name) {
        CommandKind::NoOp
    } else if name == "exit"@ {
        CommandKind::Exit
    } else if name == "echo"@ {
        CommandKind::Echo
    } else if name == "type"@ {
        CommandKind::Type
    } else if name == "pwd"@ {
        CommandKind::Pwd
    } else if name == "cd"@ {
        CommandKind::Cd
    } else {
        CommandKind::External
    }
}

/// Tests whether a command name is a builtin.
pub fn is_builtin(name: &str) -> (r: bool)
    ensures
        r == spec_is_builtin(name@),
{
    str_eq(name, "exit") || str_eq(name, "echo") || str_eq(name, "type") || str_eq(name, "pwd")
        || str_eq(name, "cd")
}

/// Classifies a command name as a builtin, an external command, or a no-op
/// (an empty or whitespace-only name).
pub fn dispatch_command(name: &str) -> (r: CommandKind)
    ensures
        r == spec_dispatch(name@),
{
    if is_blank_str(name) {
        CommandKind::NoOp
    } else if str_eq(name, "exit") {
        CommandKind::Exit
    } else if str_eq(name, "echo") {
        CommandKind::Echo
    } else if str_eq(name, "type") {
        CommandKind::Type
    } else if str_eq(name, "pwd") {
        CommandKind::Pwd
    } else if str_eq(name, "cd") {
        CommandKind::Cd
    } else {
        CommandKind::External
    }
}

/// The records `echo` produces: its arguments joined by single spaces, as
/// one standard-output record.
pub open spec fn spec_echo_records(args: Seq<Seq<char>>) -> Seq<(Seq<char>, Stream)> {
    seq![out_rec(join_spaces(args))]
}

/// The `echo` builtin: joins its arguments with single spaces and reports
/// the line on standard output. Never an error.
pub fn run_echo_command(output: &mut Vec<OutputRecord>, args: &Vec<String>)
    ensures
        rec_models(final(output)@) == rec_models(old(output)@) + spec_echo_records(
            views_of(args@),
        ),
{
    let ghost pre = output@;
    let message = join_with_spaces(args);
    output.push(make_out(message));
    proof {
        lemma_rec_models_push(pre, output@.last());
        assert(rec_models(output@) =~= rec_models(pre) + spec_echo_records(views_of(args@)));
    }
}

/// The records `type` produces for the given arguments, when the search
/// path resolves the queried name to `resolved`.
pub open spec fn spec_type_records(args: Seq<Seq<char>>, resolved: Option<Seq<char>>) -> Seq<
    (Seq<char>, Stream),
> {
    if args.len() == 0 {
        seq![err_rec("type: missing operand"@)]
    } else if spec_is_builtin(args[0]) {
        seq![out_rec(args[0] + " is a shell builtin"@)]
    } else {
        match resolved {
            Some(p) => seq![out_rec(args[0] + " is "@ + p)],
            None => seq![err_rec(args[0] + ": not found"@)],
        }
    }
}

/// The `type` builtin: reports whether its operand is a builtin, an
/// executable found on the search path (`resolved` is the resolver's
/// answer for the operand), or nothing at all.
pub fn run_type_command(
    output: &mut Vec<OutputRecord>,
    args: &Vec<String>,
    resolved: &Option<String>,
)
    ensures
        rec_models(final(output)@) == rec_models(old(output)@) + spec_type_records(
            views_of(args@),
            opt_view(*resolved),
        ),
{
    let ghost pre = output@;
    if args.len() == 0 {
        output.push(make_err(String::from_str("type: missing operand")));
    } else {
        let target = &args[0];
        if is_builtin(target.as_str()) {
            let message = String::from_str(target.as_str()).concat(" is a shell builtin");
            output.push(make_out(message));
        } else {
            match resolved {
                Some(p) => {
                    let message = String::from_str(target.as_str()).concat(" is ").concat(
                        p.as_str(),
                    );
                    output.push(make_out(message));
                },
                None => {
                    let message = String::from_str(target.as_str()).concat(": not found");
                    output.push(make_err(message));
                },
            }
        }
    }
    proof {
        lemma_rec_models_push(pre, output@.last());
        assert(rec_models(output@) =~= rec_models(pre) + spec_type_records(
            views_of(args@),
            opt_view(*resolved),
        ));
    }
}

/// The records `pwd` produces: the working directory on standard output, or
/// an error when the shell has none.
pub open spec fn spec_pwd_records(cwd: Option<Seq<char>>) -> Seq<(Seq<char>, Stream)> {
    match cwd {
        Some(d) => seq![out_rec(d)],
        None => seq![err_rec("no current working directory found"@)],
    }
}

/// The `pwd` builtin: reports the shell's working directory.
pub fn run_pwd_command(state: &ShellState, output: &mut Vec<OutputRecord>)
    ensures
        rec_models(final(output)@) == rec_models(old(output)@) + spec_pwd_records(
            opt_view(state.cwd),
        ),
{
    let ghost pre = output@;
    match &state.cwd {
        Some(d) => {
            output.push(make_out(d.clone()));
        },
        None => {
            output.push(make_err(String::from_str("no current working directory found")));
        },
    }
    proof {
        lemma_rec_models_push(pre, output@.last());
        assert(rec_models(output@) =~= rec_models(pre) + spec_pwd_records(opt_view(state.cwd)));
    }
}

/// The absolute form of a `cd` operand: the operand itself when it starts
/// with `/`, otherwise the working directory, a slash and the operand; in
/// both cases with `.` and `..` components resolved. When the shell has no
/// working directory to resolve a relative operand against, the operand is
/// deliberately kept as given.
pub open spec fn spec_cd_target(cwd: Option<Seq<char>>, arg: Seq<char>) -> Seq<char> {
    if arg.len() > 0 && arg[0] == '/' {
        spec_normalize(arg)
    } else {
        match cwd {
            Some(d) => spec_normalize(d + seq!['/'] + arg),
            None => arg,
        }
    }
}

/// What `cd` decides to do, at the level of the mathematical model.
pub enum CdOutcome {
    /// Change the working directory to this absolute path.
    Change(Seq<char>),
    /// The operand was `~` but no home directory is configured.
    NoHome,
    /// The operand names nothing on disk.
    NotFound,
}

/// What `cd` decides to do, as executable data.
pub enum CdDecision {
    ChangeTo(String),
    NoHome,
    NotFound,
}

/// Mathematical model of a `cd` decision.
pub open spec fn cd_decision_model(d: CdDecision) -> CdOutcome {
    match d {
        CdDecision::ChangeTo(t) => CdOutcome::Change(t@),
        CdDecision::NoHome => CdOutcome::NoHome,
        CdDecision::NotFound => CdOutcome::NotFound,
    }
}

/// The resolution order of `cd`: an operand that exists on disk wins; an
/// operand that is exactly `~` goes to the home directory when one is
/// configured; anything else is not found.
pub open spec fn spec_cd_decide(
    cwd: Option<Seq<char>>,
    arg: Seq<char>,
    arg_exists: bool,
    home: Option<Seq<char>>,
) -> CdOutcome {
    if arg_exists {
        CdOutcome::Change(spec_cd_target(cwd, arg))
    } else if arg == "~"@ {
        match home {
            Some(h) => CdOutcome::Change(h),
            None => CdOutcome::NoHome,
        }
    } else {
        CdOutcome::NotFound
    }
}

/// Builds the absolute form of a `cd` operand.
pub fn cd_target(cwd: &Option<String>, arg: &String) -> (r: String)
    ensures
        r@ == spec_cd_target(opt_view(*cwd), arg@),
{
    let is_abs = arg.as_str().unicode_len() > 0 && arg.as_str().get_char(0) == '/';
    if is_abs {
        normalize_path(arg.as_str())
    } else {
        match cwd {
            Some(d) => {
                let joined = d.clone().concat("/").concat(arg.as_str());
                proof {
                    reveal_strlit("/");
                    assert("/"@ =~= seq!['/']);
                }
                normalize_path(joined.as_str())
            },
            None => arg.clone(),
        }
    }
}

/// Decides what `cd` should do, given the two facts only the operating
/// system knows: whether the operand exists on disk (`arg_exists`) and the
/// configured home directory, if any.
pub fn cd_decide(cwd: &Option<String>, arg: &String, arg_exists: bool, home: &Option<String>) -> (r:
    CdDecision)
    ensures
        cd_decision_model(r) == spec_cd_decide(opt_view(*cwd), arg@, arg_exists, opt_view(*home)),
{
    if arg_exists {
        CdDecision::ChangeTo(cd_target(cwd, arg))
    } else if str_eq(arg.as_str(), "~") {
        match home {
            Some(h) => CdDecision::ChangeTo(h.clone()),
            None => CdDecision::NoHome,
        }
    } else {
        CdDecision::NotFound
    }
}

/// The working directory after `cd`: changed exactly when the decision was
/// to change and the real directory change succeeded (`chdir_ok`).
pub open spec fn spec_cd_new_cwd(
    cwd: Option<Seq<char>>,
    arg: Seq<char>,
    arg_exists: bool,
    home: Option<Seq<char>>,
    chdir_ok: bool,
) -> Option<Seq<char>> {
    match spec_cd_decide(cwd, arg, arg_exists, home) {
        CdOutcome::Change(t) => if chdir_ok {
            Some(t)
        } else {
            cwd
        },
        _ => cwd,
    }
}

/// The records `cd` produces: nothing on success, one tagged error record
/// on each kind of failure.
pub open spec fn spec_cd_records(
    cwd: Option<Seq<char>>,
    arg: Seq<char>,
    arg_exists: bool,
    home: Option<Seq<char>>,
    chdir_ok: bool,
) -> Seq<(Seq<char>, Stream)> {
    match spec_cd_decide(cwd, arg, arg_exists, home) {
        CdOutcome::Change(t) => if chdir_ok {
            Seq::empty()
        } else {
            seq![err_rec("failed to change working directory"@)]
        },
        CdOutcome::NoHome => seq![
            err_rec("cd: No home directory configured in environment variables"@),
        ],
        CdOutcome::NotFound => seq![err_rec("cd: "@ + arg + ": No such file or directory"@)],
    }
}

/// The `cd` builtin. `arg_exists` says whether the operand names something
/// on disk; `home` is the configured home directory, if any; `chdir_ok`
/// reports whether the caller's real directory change succeeded, and is
/// only consulted when the decision was to change directory. A call with
/// no operand is a recoverable error: the state stays and one error record
/// reports the missing operand.
pub fn run_cd_command(
    state: &mut ShellState,
    output: &mut Vec<OutputRecord>,
    args: &Vec<String>,
    arg_exists: bool,
    home: &Option<String>,
    chdir_ok: bool,
)
    ensures
        args@.len() == 0 ==> opt_view(final(state).cwd) == opt_view(old(state).cwd),
        args@.len() == 0 ==> rec_models(final(output)@) == rec_models(old(output)@) + seq![
            err_rec("cd: missing operand"@),
        ],
        args@.len() >= 1 ==> opt_view(final(state).cwd) == spec_cd_new_cwd(
            opt_view(old(state).cwd),
            args@[0]@,
            arg_exists,
            opt_view(*home),
            chdir_ok,
        ),
        args@.len() >= 1 ==> rec_models(final(output)@) == rec_models(old(output)@)
            + spec_cd_records(
            opt_view(old(state).cwd),
            args@[0]@,
            arg_exists,
            opt_view(*home),
            chdir_ok,
        ),
{
    let ghost pre = output@;
    let ghost pre_cwd = opt_view(state.cwd);
    if args.len() == 0 {
        output.push(make_err(String::from_str("cd: missing operand")));
        proof {
            lemma_rec_models_push(pre, output@.last());
            assert(rec_models(output@) =~= rec_models(pre) + seq![err_rec("cd: missing operand"@)]);
        }
        return;
    }
    let arg = &args[0];
    let decision = cd_decide(&state.cwd, arg, arg_exists, home);
    match decision {
        CdDecision::ChangeTo(t) => {
            if chdir_ok {
                state.cwd = Some(t);
            } else {
                output.push(make_err(String::from_str("failed to change working directory")));
                proof {
                    lemma_rec_models_push(pre, output@.last());
                }
            }
        },
        CdDecision::NoHome => {
            output.push(
                make_err(
                    String::from_str("cd: No home directory configured in environment variables"),
                ),
            );
            proof {
                lemma_rec_models_push(pre, output@.last());
            }
        },
        CdDecision::NotFound => {
            let message = String::from_str("cd: ").concat(arg.as_str()).concat(
                ": No such file or directory",
            );
            output.push(make_err(message));
            proof {
                lemma_rec_models_push(pre, output@.last());
            }
        },
    }
    proof {
        assert(rec_models(output@) =~= rec_models(pre) + spec_cd_records(
            pre_cwd,
            args@[0]@,
            arg_exists,
            opt_view(*home),
            chdir_ok,
        ));
    }
}

} // verus!
