//! What is launched on the Windows side, and the exit code it leads to.
use vstd::prelude::*;
use vstd::string::*;
use crate::bridge::{bridge_environment, bridge_vars_of, vars_view, TARGET_DIR_VAR, TOOLCHAIN_VAR};
use crate::error::BridgeError;

verus! {

/// The Windows cargo executable.
pub const CARGO_EXE: &'static str = "cargo.exe";

/// The exit code reported when cargo ended without one (killed by a signal).
pub const ABNORMAL_EXIT: i32 = -1;

/// One launch of cargo on the Windows side.
pub enum InvocationPlan {
    /// Run `program` with `args` as they are, with `env` set on the process;
    /// WSL maps the working directory.
    DirectExec { program: String, args: Vec<String>, env: Vec<(String, String)> },
    /// Run `cmd.exe /C command`: the command enters the directory itself and
    /// sets the variables inline.
    ShellComposed { command: String },
}

/// The characters of each argument.
pub open spec fn args_view(args: Seq<String>) -> Seq<Seq<char>> {
    args.map_values(|a: String| a@)
}

/// Whether `p` runs `cargo.exe` directly with `args` and the variables `env`.
pub open spec fn is_direct_plan(
    p: InvocationPlan,
    args: Seq<Seq<char>>,
    env: Seq<(Seq<char>, Seq<char>)>,
) -> bool {
    match p {
        InvocationPlan::DirectExec { program, args: a, env: e } => program@ == CARGO_EXE@
            && args_view(a@) == args && vars_view(e@) == env,
        _ => false,
    }
}

/// Whether `p` runs `command` through `cmd.exe`.
pub open spec fn is_shell_plan(p: InvocationPlan, command: Seq<char>) -> bool {
    match p {
        InvocationPlan::ShellComposed { command: c } => c@ == command,
        _ => false,
    }
}

/// The characters of an optional string slice.
pub open spec fn opt_str_view(s: Option<&str>) -> Option<Seq<char>> {
    match s {
        Some(v) => Some(v@),
        None => None,
    }
}

/// The characters of an optional string slice, empty where there is none.
pub open spec fn str_or_empty(s: Option<&str>) -> Seq<char> {
    match s {
        Some(v) => v@,
        None => Seq::empty(),
    }
}

/// The plan that runs `cargo.exe` with `args` directly. The first argument
/// is the subcommand, so there must be one.
pub fn plan_direct(
    args: Vec<String>,
    existing_propagation: Option<&str>,
    target_dir: &str,
    toolchain: Option<&str>,
) -> (r: Result<InvocationPlan, BridgeError>)
    ensures
        args@.len() == 0 <==> r is Err,
        r matches Err(e) ==> e == BridgeError::NoSubcommand,
        r matches Ok(p) ==> is_direct_plan(
            p,
            args_view(args@),
            bridge_vars_of(
                str_or_empty(existing_propagation),
                target_dir@,
                opt_str_view(toolchain),
            ),
        ),
{
    if args.len() == 0 {
        return Err(BridgeError::NoSubcommand);
    }
    let env = bridge_environment(existing_propagation, target_dir, toolchain);
    Ok(InvocationPlan::DirectExec { program: String::from_str(CARGO_EXE), args, env })
}

/// Whether `s` can stand between double quotes on a `cmd.exe` line: no
/// quote, no `%` (which `cmd.exe` expands even inside quotes) and no line break.
pub open spec fn cmd_safe(s: Seq<char>) -> bool {
    forall|i: int| 0 <= i < s.len() ==> !is_cmd_special(#[trigger] s[i])
}

/// The characters that `cmd.exe` would act on inside double quotes.
pub open spec fn is_cmd_special(c: char) -> bool {
    c == '"' || c == '%' || c == '\r' || c == '\n'
}

/// Whether `s` can be quoted as an argument of `cargo.exe`: besides being
/// safe for `cmd.exe`, it must not end in a backslash, which would escape
/// the closing quote.
pub open spec fn arg_safe(s: Seq<char>) -> bool {
    cmd_safe(s) && (s.len() == 0 || s.last() != '\\')
}

/// Each argument after a space and between double quotes.
pub open spec fn quoted_args(args: Seq<Seq<char>>) -> Seq<char>
    decreases args.len(),
{
    if args.len() == 0 {
        Seq::empty()
    } else {
        quoted_args(args.drop_last()) + seq![' ', '"'] + args.last() + seq!['"']
    }
}

/// `set "name=value" && `
pub open spec fn set_clause(name: Seq<char>, value: Seq<char>) -> Seq<char> {
    seq!['s', 'e', 't', ' ', '"'] + name + seq!['='] + value + seq!['"', ' ', '&', '&', ' ']
}

/// `pushd "dir" && ` (which, unlike `cd`, takes a UNC path), the variable
/// settings, then `cargo` and the quoted arguments.
pub open spec fn shell_command_of(
    dir: Seq<char>,
    target_dir: Seq<char>,
    toolchain: Option<Seq<char>>,
    args: Seq<Seq<char>>,
) -> Seq<char> {
    seq!['p', 'u', 's', 'h', 'd', ' ', '"'] + dir + seq!['"', ' ', '&', '&', ' '] + set_clause(
        TARGET_DIR_VAR@,
        target_dir,
    ) + match toolchain {
        Some(t) => set_clause(TOOLCHAIN_VAR@, t),
        None => Seq::empty(),
    } + seq!['c', 'a', 'r', 'g', 'o'] + quoted_args(args)
}

/// Whether every part of a shell command can be quoted safely.
pub open spec fn shell_parts_safe(
    dir: Seq<char>,
    target_dir: Seq<char>,
    toolchain: Option<Seq<char>>,
    args: Seq<Seq<char>>,
) -> bool {
    &&& cmd_safe(dir)
    &&& cmd_safe(target_dir)
    &&& toolchain matches Some(t) ==> cmd_safe(t)
    &&& forall|i: int| 0 <= i < args.len() ==> arg_safe(#[trigger] args[i])
}

fn is_cmd_safe(s: &str) -> (r: bool)
    ensures
        r == cmd_safe(s@),
{
    let n: usize = s.unicode_len();
    let mut i: usize = 0;
    while i < n
        invariant
            i <= n,
            n == s@.len(),
            forall|k: int| 0 <= k < i ==> !is_cmd_special(#[trigger] s@[k]),
        decreases n - i,
    {
        let c = s.get_char(i);
        if c == '"' || c == '%' || c == '\r' || c == '\n' {
            return false;
        }
        i = i + 1;
    }
    true
}

fn is_arg_safe(s: &str) -> (r: bool)
    ensures
        r == arg_safe(s@),
{
    let n: usize = s.unicode_len();
    if n > 0 && s.get_char(n - 1) == '\\' {
        return false;
    }
    is_cmd_safe(s)
}

fn append_set_clause(out: &mut String, name: &str, value: &str)
    ensures
        final(out)@ == old(out)@ + set_clause(name@, value@),
{
    out.append("set \"");
    out.append(name);
    out.append("=");
    out.append(value);
    out.append("\" && ");
    proof {
        reveal_strlit("set \"");
        reveal_strlit("=");
        reveal_strlit("\" && ");
    }
    assert(final(out)@ =~= old(out)@ + set_clause(name@, value@));
}

/// The plan that runs cargo through `cmd.exe` in the Windows directory `dir`.
/// The first argument is the subcommand, so there must be one; a part that
/// cannot be quoted safely makes the launch fail instead.
pub fn plan_shell(args: Vec<String>, dir: &str, target_dir: &str, toolchain: Option<&str>) -> (r:
    Result<InvocationPlan, BridgeError>)
    ensures
        args@.len() == 0 ==> r == Err::<InvocationPlan, BridgeError>(BridgeError::NoSubcommand),
        args@.len() > 0 ==> (r is Ok <==> shell_parts_safe(
            dir@,
            target_dir@,
            opt_str_view(toolchain),
            args_view(args@),
        )),
        args@.len() > 0 ==> (r matches Err(e) ==> e == BridgeError::InvocationFailed),
        r matches Ok(p) ==> is_shell_plan(
            p,
            shell_command_of(dir@, target_dir@, opt_str_view(toolchain), args_view(args@)),
        ),
{
    if args.len() == 0 {
        return Err(BridgeError::NoSubcommand);
    }
    if !is_cmd_safe(dir) || !is_cmd_safe(target_dir) {
        return Err(BridgeError::InvocationFailed);
    }
    if let Some(t) = toolchain {
        if !is_cmd_safe(t) {
            return Err(BridgeError::InvocationFailed);
        }
    }
    let mut command = String::from_str("pushd \"");
    command.append(dir);
    command.append("\" && ");
    proof {
        reveal_strlit("pushd \"");
        reveal_strlit("\" && ");
    }
    append_set_clause(&mut command, TARGET_DIR_VAR, target_dir);
    if let Some(t) = toolchain {
        append_set_clause(&mut command, TOOLCHAIN_VAR, t);
    }
    command.append("cargo");
    proof {
        reveal_strlit("cargo");
    }
    let ghost head = command@;
    let ghost views = args_view(args@);
    let mut i: usize = 0;
    assert(views.subrange(0, 0) =~= Seq::<Seq<char>>::empty());
    while i < args.len()
        invariant
            i <= args@.len(),
            views == args_view(args@),
            forall|k: int| 0 <= k < i ==> arg_safe(#[trigger] views[k]),
            command@ == head + quoted_args(views.subrange(0, i as int)),
        decreases args@.len() - i,
    {
        let a = args[i].as_str();
        if !is_arg_safe(a) {
            return Err(BridgeError::InvocationFailed);
        }
        let ghost before = command@;
        command.append(" \"");
        command.append(a);
        command.append("\"");
        proof {
            reveal_strlit(" \"");
            reveal_strlit("\"");
            assert(views.subrange(0, i + 1).drop_last() =~= views.subrange(0, i as int));
            assert(command@ =~= head + quoted_args(views.subrange(0, i + 1)));
        }
        i = i + 1;
    }
    assert(views.subrange(0, args@.len() as int) =~= views);
    proof {
        let t = opt_str_view(toolchain);
        assert(command@ =~= shell_command_of(dir@, target_dir@, t, views));
    }
    Ok(InvocationPlan::ShellComposed { command })
}

/// The exit code of this tool for cargo's exit status: its code, or
/// `ABNORMAL_EXIT` where it had none.
pub fn exit_code(code: Option<i32>) -> (r: i32)
    ensures
        code matches Some(c) ==> r == c,
        code is None ==> r == ABNORMAL_EXIT,
{
    match code {
        Some(c) => c,
        None => ABNORMAL_EXIT,
    }
}

} // verus!
