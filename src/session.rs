//! The decisions of one run, as a state machine. The caller performs each
//! action (a query, the launch) and hands back what came of it.
use vstd::prelude::*;
use vstd::string::*;
use crate::error::BridgeError;
use crate::host::{
    echo_argument, echo_value, host_var_from_echo, reference_of, resolve_temp_dir, temp_dir_of,
};
use crate::text::trim_end_white;
use crate::invocation::{
    args_view, exit_code, is_direct_plan, is_shell_plan, opt_str_view, plan_direct, plan_shell,
    shell_command_of, shell_parts_safe, InvocationPlan, ABNORMAL_EXIT,
};
use crate::wsl_path::{translate_path, unc_path_of};
use crate::bridge::bridge_vars_of;
use crate::target_dir::{derive_target_dir, file_name_of, target_dir_of, workspace_name};
use crate::toolchain::{detect_toolchain, report_channel};

verus! {

/// The Windows variable read first for the temp directory.
pub const PRIMARY_TEMP_VAR: &'static str = "TMP";

/// The Windows variable read when the first is unset or empty.
pub const SECONDARY_TEMP_VAR: &'static str = "TEMP";

/// What the caller is to do next.
pub enum Action {
    /// Ask cargo for the workspace root and report it.
    QueryWorkspaceRoot,
    /// Run `cmd.exe /C <argument>` from a Windows directory and report what
    /// it printed; `argument` prints the Windows variable `name`.
    QueryHostVar { name: String, argument: String },
    /// Run `rustup show` and report what it printed.
    QueryToolchain,
    /// Launch the plan and report how it ended.
    Launch(InvocationPlan),
    /// Stop, with this exit code.
    Exit(i32),
    /// Stop on this error.
    Fail(BridgeError),
}

/// What came of an action.
pub enum Event {
    /// The output of a query; `None` where the query could not run or failed.
    Output(Option<String>),
    /// The launched process ended, with its exit code where it had one.
    Exited(Option<i32>),
    /// The launched process could not be started.
    SpawnFailed,
}

/// How cargo is launched on the Windows side.
pub enum Strategy {
    /// Run `cargo.exe` directly, with the variables set on the process.
    Direct,
    /// Run a `cmd.exe` command line that enters the Windows path of
    /// `cwd` in distribution `distro` (`WSL_DISTRO_NAME`) and sets the
    /// variables inline.
    Shell { distro: Option<String>, cwd: String },
}

/// Where a run stands.
#[derive(Debug, Clone, Copy, PartialEq, Eq, Structural)]
pub enum Phase {
    Workspace,
    TempPrimary,
    TempSecondary,
    Toolchain,
    Running,
    Done,
}

/// One run: the forwarded arguments and what has been learnt so far.
pub struct Run {
    pub phase: Phase,
    /// The subcommand and its arguments, as given.
    pub args: Vec<String>,
    /// `WSLENV` as this process found it.
    pub propagation: Option<String>,
    /// How cargo is to be launched.
    pub strategy: Strategy,
    /// The workspace name, once known.
    pub workspace: String,
    /// The cache directory, once known.
    pub target_dir: String,
}

/// Whether `a` asks for the Windows variable `name`.
pub open spec fn is_host_query(a: Action, name: Seq<char>) -> bool {
    match a {
        Action::QueryHostVar { name: n, argument } => n@ == name && argument@ == seq![
            'e',
            'c',
            'h',
            'o',
            ' ',
        ] + crate::host::reference_of(name),
        _ => false,
    }
}

/// Whether `a` stops the run on error `e`.
pub open spec fn is_fail(a: Action, e: BridgeError) -> bool {
    a matches Action::Fail(f) && f == e
}

impl Run {
    /// Every phase but the last has a subcommand to forward.
    pub open spec fn wf(&self) -> bool {
        self.phase != Phase::Done ==> self.args@.len() > 0
    }

    /// Whether the run waits for `event`.
    pub open spec fn accepts(&self, event: Event) -> bool {
        match self.phase {
            Phase::Running => !(event is Output),
            Phase::Done => false,
            _ => event is Output,
        }
    }

    /// The action that follows once the toolchain is known: the launch in
    /// the run's strategy, or the error that prevents it.
    pub open spec fn planned(&self, a: Action, toolchain: Option<Seq<char>>) -> bool {
        match self.strategy {
            Strategy::Direct => a matches Action::Launch(p) && is_direct_plan(
                p,
                args_view(self.args@),
                bridge_vars_of(
                    match self.propagation {
                        Some(e) => e@,
                        None => Seq::empty(),
                    },
                    self.target_dir@,
                    toolchain,
                ),
            ),
            Strategy::Shell { distro, cwd } => match distro {
                Some(d) if d@.len() > 0 => {
                    let dir = unc_path_of(d@, cwd@);
                    if shell_parts_safe(dir, self.target_dir@, toolchain, args_view(self.args@)) {
                        a matches Action::Launch(p) && is_shell_plan(
                            p,
                            shell_command_of(dir, self.target_dir@, toolchain, args_view(self.args@)),
                        )
                    } else {
                        is_fail(a, BridgeError::InvocationFailed)
                    }
                },
                _ => is_fail(a, BridgeError::EnvironmentNotDetected),
            },
        }
    }

    /// The phase after `a`: running where it launches, stopped otherwise.
    pub open spec fn phase_after(a: Action) -> Phase {
        if a is Launch {
            Phase::Running
        } else {
            Phase::Done
        }
    }

    /// Starts a run with the forwarded arguments and `WSLENV` as found. With
    /// no subcommand the run fails at once, before anything is queried.
    pub fn start(args: Vec<String>, propagation: Option<String>, strategy: Strategy) -> (r: (
        Run,
        Action,
    ))
        ensures
            r.0.wf(),
            r.0.args@ == args@,
            r.0.propagation == propagation,
            r.0.strategy == strategy,
            args@.len() == 0 ==> r.0.phase == Phase::Done && is_fail(r.1, BridgeError::NoSubcommand),
            args@.len() > 0 ==> r.0.phase == Phase::Workspace && r.1 is QueryWorkspaceRoot,
    {
        let empty = args.len() == 0;
        let run = Run {
            phase: if empty {
                Phase::Done
            } else {
                Phase::Workspace
            },
            args,
            propagation,
            strategy,
            workspace: String::new(),
            target_dir: String::new(),
        };
        if empty {
            (run, Action::Fail(BridgeError::NoSubcommand))
        } else {
            (run, Action::QueryWorkspaceRoot)
        }
    }

    fn host_query(name: &str) -> (a: Action)
        ensures
            is_host_query(a, name@),
    {
        Action::QueryHostVar { name: String::from_str(name), argument: echo_argument(name) }
    }

    fn fail(&mut self, e: BridgeError) -> (a: Action)
        ensures
            final(self).phase == Phase::Done,
            final(self).args == old(self).args,
            final(self).propagation == old(self).propagation,
            final(self).strategy == old(self).strategy,
            final(self).workspace == old(self).workspace,
            final(self).target_dir == old(self).target_dir,
            is_fail(a, e),
    {
        self.phase = Phase::Done;
        Action::Fail(e)
    }

    /// Takes the temp directory, if one was found, and moves on to the toolchain.
    fn with_temp_dir(&mut self, temp: Result<String, BridgeError>) -> (a: Action)
        requires
            old(self).wf(),
            old(self).phase != Phase::Done,
        ensures
            final(self).wf(),
            final(self).args == old(self).args,
            final(self).propagation == old(self).propagation,
            final(self).strategy == old(self).strategy,
            final(self).workspace == old(self).workspace,
            temp matches Ok(t) ==> final(self).phase == Phase::Toolchain && a is QueryToolchain
                && final(self).target_dir@ == target_dir_of(t@, old(self).workspace@),
            temp is Err ==> final(self).phase == Phase::Done && is_fail(
                a,
                BridgeError::HostQueryFailed,
            ),
    {
        match temp {
            Ok(t) => {
                self.target_dir = derive_target_dir(t.as_str(), self.workspace.as_str());
                self.phase = Phase::Toolchain;
                Action::QueryToolchain
            },
            Err(_) => self.fail(BridgeError::HostQueryFailed),
        }
    }

    fn launch(&mut self, toolchain: Option<&str>) -> (a: Action)
        requires
            old(self).wf(),
            old(self).phase == Phase::Toolchain,
        ensures
            final(self).wf(),
            final(self).args == old(self).args,
            final(self).propagation == old(self).propagation,
            final(self).strategy == old(self).strategy,
            final(self).target_dir == old(self).target_dir,
            final(self).phase == Run::phase_after(a),
            old(self).planned(a, opt_str_view(toolchain)),
    {
        let plan = match &self.strategy {
            Strategy::Direct => {
                let propagation = match &self.propagation {
                    Some(p) => Some(p.as_str()),
                    None => None,
                };
                plan_direct(self.args.clone(), propagation, self.target_dir.as_str(), toolchain)
            },
            Strategy::Shell { distro, cwd } => {
                let name = match distro {
                    Some(d) => Some(d.as_str()),
                    None => None,
                };
                match translate_path(name, cwd.as_str()) {
                    Ok(dir) => plan_shell(
                        self.args.clone(),
                        dir.as_str(),
                        self.target_dir.as_str(),
                        toolchain,
                    ),
                    Err(e) => Err(e),
                }
            },
        };
        match plan {
            Ok(p) => {
                self.phase = Phase::Running;
                Action::Launch(p)
            },
            Err(e) => self.fail(e),
        }
    }

    /// Takes what came of the last action and says what to do next.
    pub fn step(&mut self, event: Event) -> (a: Action)
        requires
            old(self).wf(),
            old(self).accepts(event),
        ensures
            final(self).wf(),
            final(self).args == old(self).args,
            final(self).propagation == old(self).propagation,
            final(self).strategy == old(self).strategy,
            old(self).phase == Phase::Workspace ==> match event {
                Event::Output(Some(root)) => match file_name_of(root@) {
                    Some(n) => final(self).phase == Phase::TempPrimary && final(self).workspace@
                        == n && is_host_query(a, PRIMARY_TEMP_VAR@),
                    None => final(self).phase == Phase::Done && is_fail(
                        a,
                        BridgeError::MetadataUnavailable,
                    ),
                },
                _ => final(self).phase == Phase::Done && is_fail(
                    a,
                    BridgeError::MetadataUnavailable,
                ),
            },
            old(self).phase == Phase::TempPrimary ==> match event {
                Event::Output(Some(raw)) => match echo_value(PRIMARY_TEMP_VAR@, raw@) {
                    Some(t) => final(self).phase == Phase::Toolchain && a is QueryToolchain
                        && final(self).target_dir@ == target_dir_of(t, old(self).workspace@),
                    None => final(self).phase == Phase::TempSecondary && is_host_query(
                        a,
                        SECONDARY_TEMP_VAR@,
                    ) && final(self).workspace == old(self).workspace,
                },
                _ => final(self).phase == Phase::Done && is_fail(a, BridgeError::HostQueryFailed),
            },
            old(self).phase == Phase::TempSecondary ==> match event {
                Event::Output(Some(raw)) => match temp_dir_of(
                    None,
                    echo_value(SECONDARY_TEMP_VAR@, raw@),
                ) {
                    Some(t) => final(self).phase == Phase::Toolchain && a is QueryToolchain
                        && final(self).target_dir@ == target_dir_of(t, old(self).workspace@),
                    None => final(self).phase == Phase::Done && is_fail(
                        a,
                        BridgeError::HostQueryFailed,
                    ),
                },
                _ => final(self).phase == Phase::Done && is_fail(a, BridgeError::HostQueryFailed),
            },
            old(self).phase == Phase::Toolchain ==> final(self).target_dir == old(self).target_dir
                && match event {
                Event::Output(None) => final(self).phase == Run::phase_after(a) && old(self).planned(
                    a,
                    None,
                ),
                Event::Output(Some(report)) => match report_channel(report@) {
                    Some(c) => final(self).phase == Run::phase_after(a) && old(self).planned(
                        a,
                        Some(c),
                    ),
                    None => final(self).phase == Phase::Done && is_fail(
                        a,
                        BridgeError::ToolchainParseFailed,
                    ),
                },
                _ => false,
            },
            old(self).phase == Phase::Running ==> final(self).phase == Phase::Done && match event {
                Event::Exited(Some(c)) => a == Action::Exit(c),
                Event::Exited(None) => a == Action::Exit(ABNORMAL_EXIT),
                _ => is_fail(a, BridgeError::InvocationFailed),
            },
    {
        match self.phase {
            Phase::Workspace => match event {
                Event::Output(Some(root)) => match workspace_name(root.as_str()) {
                    Ok(n) => {
                        self.workspace = n;
                        self.phase = Phase::TempPrimary;
                        Run::host_query(PRIMARY_TEMP_VAR)
                    },
                    Err(e) => self.fail(e),
                },
                _ => self.fail(BridgeError::MetadataUnavailable),
            },
            Phase::TempPrimary => match event {
                Event::Output(Some(raw)) => match host_var_from_echo(PRIMARY_TEMP_VAR, raw.as_str()) {
                    Some(t) => self.with_temp_dir(resolve_temp_dir(Some(t), None)),
                    None => {
                        self.phase = Phase::TempSecondary;
                        Run::host_query(SECONDARY_TEMP_VAR)
                    },
                },
                _ => self.fail(BridgeError::HostQueryFailed),
            },
            Phase::TempSecondary => match event {
                Event::Output(Some(raw)) => {
                    let secondary = host_var_from_echo(SECONDARY_TEMP_VAR, raw.as_str());
                    self.with_temp_dir(resolve_temp_dir(None, secondary))
                },
                _ => self.fail(BridgeError::HostQueryFailed),
            },
            Phase::Toolchain => {
                let report = match &event {
                    Event::Output(Some(r)) => Some(r.as_str()),
                    _ => None,
                };
                match detect_toolchain(report) {
                    Ok(tc) => {
                        let toolchain = match &tc {
                            Some(c) => Some(c.as_str()),
                            None => None,
                        };
                        self.launch(toolchain)
                    },
                    Err(e) => self.fail(e),
                }
            },
            Phase::Running => {
                self.phase = Phase::Done;
                match event {
                    Event::Exited(code) => Action::Exit(exit_code(code)),
                    _ => Action::Fail(BridgeError::InvocationFailed),
                }
            },
            Phase::Done => Action::Fail(BridgeError::InvocationFailed),
        }
    }
}

/// A run that has stopped waits for no event: after a start without a
/// subcommand nothing is queried and nothing is launched.
pub proof fn lemma_stopped_run_takes_nothing(run: Run, event: Event)
    requires
        run.phase == Phase::Done,
    ensures
        !run.accepts(event),
{
}

/// A set `TMP` wins: where `echo %TMP%` printed a value, that value,
/// trimmed, is the temp directory whatever `TEMP` holds, and `Run::step`
/// then goes on to the toolchain without asking for `TEMP`.
pub proof fn lemma_set_primary_taken(raw: Seq<char>, secondary: Option<Seq<char>>)
    requires
        trim_end_white(raw).len() > 0,
        trim_end_white(raw) != reference_of(PRIMARY_TEMP_VAR@),
    ensures
        echo_value(PRIMARY_TEMP_VAR@, raw) == Some(trim_end_white(raw)),
        temp_dir_of(echo_value(PRIMARY_TEMP_VAR@, raw), secondary) == Some(trim_end_white(raw)),
{
}

} // verus!
