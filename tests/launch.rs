use cargo_win::error::BridgeError;
use cargo_win::bridge::{bridge_environment, propagation_list};
use cargo_win::invocation::{exit_code, plan_direct, plan_shell, InvocationPlan, ABNORMAL_EXIT};
use cargo_win::session::{Action, Event, Phase, Run, Strategy};
use cargo_win::toolchain::{detect_toolchain, parse_toolchain_report, strip_host_suffix, toolchain_from_captures};

const REPORT: &str = "Default host: x86_64-unknown-linux-gnu\n\
rustup home:  /home/alice/.rustup\n\
\n\
installed toolchains\n\
--------------------\n\
\n\
stable-x86_64-unknown-linux-gnu\n\
nightly-x86_64-unknown-linux-gnu (default)\n\
\n\
active toolchain\n\
----------------\n\
\n\
nightly-x86_64-unknown-linux-gnu (default)\n\
rustc 1.70.0-nightly\n";

fn strings(v: &[&str]) -> Vec<String> {
    v.iter().map(|s| s.to_string()).collect()
}

fn pairs(v: &[(&str, &str)]) -> Vec<(String, String)> {
    v.iter().map(|(a, b)| (a.to_string(), b.to_string())).collect()
}

#[test]
fn host_suffix_stripped() {
    assert_eq!(strip_host_suffix("nightly-x86_64-unknown-linux-gnu", "x86_64-unknown-linux-gnu"), "nightly");
    assert_eq!(strip_host_suffix("1.70.0-x86_64-unknown-linux-gnu", "x86_64-unknown-linux-gnu"), "1.70.0");
    assert_eq!(strip_host_suffix("stable", "x86_64-unknown-linux-gnu"), "stable");
    assert_eq!(strip_host_suffix("nightly--x86_64-pc", "x86_64-pc"), "nightly");
    assert_eq!(strip_host_suffix("nightly", ""), "nightly");
}

#[test]
fn overlapping_host_only_suffix_removed() {
    assert_eq!(strip_host_suffix("x-y-y-y", "y-y"), "x-y");
}

#[test]
fn channel_dashes_trimmed_at_both_ends() {
    assert_eq!(strip_host_suffix("nightly-", "x86"), "nightly");
    assert_eq!(strip_host_suffix("-nightly-x86", "x86"), "nightly");
    assert_eq!(strip_host_suffix("--", "x86"), "");
    assert_eq!(strip_host_suffix("x86-nightly", "x86"), "x86-nightly");
    assert_eq!(strip_host_suffix("gnu-2024-gnu", "gnu"), "gnu-2024");
    assert_eq!(strip_host_suffix("x86_64-pc-x86_64-pc", "x86_64-pc"), "x86_64-pc");
}

#[test]
fn captures_missing_fail() {
    assert_eq!(toolchain_from_captures(None, Some("nightly".to_string())), Err(BridgeError::ToolchainParseFailed));
    assert_eq!(toolchain_from_captures(Some("h".to_string()), None), Err(BridgeError::ToolchainParseFailed));
    assert_eq!(toolchain_from_captures(Some("x86_64-pc".to_string()), Some("beta-x86_64-pc".to_string())),
        Ok("beta".to_string()));
}

#[test]
fn report_parsed() {
    assert_eq!(parse_toolchain_report(REPORT), Ok("nightly".to_string()));
}

#[test]
fn helper_missing_skips_detection() {
    assert_eq!(detect_toolchain(None), Ok(None));
    assert_eq!(detect_toolchain(Some(REPORT)), Ok(Some("nightly".to_string())));
}

#[test]
fn report_without_host_line_fails() {
    let report = REPORT.replace("Default host: x86_64-unknown-linux-gnu\n", "");
    assert_eq!(detect_toolchain(Some(&report)), Err(BridgeError::ToolchainParseFailed));
    assert_eq!(detect_toolchain(Some("")), Err(BridgeError::ToolchainParseFailed));
}

#[test]
fn propagation_list_entries() {
    assert_eq!(propagation_list(None, false), ":CARGO_TARGET_DIR/w");
    assert_eq!(propagation_list(Some("PATH/l"), true), "PATH/l:CARGO_TARGET_DIR/w:RUSTUP_TOOLCHAIN/w");
}

#[test]
fn bridge_environment_lists_every_variable() {
    assert_eq!(bridge_environment(Some("X"), "C:\\T\\", Some("nightly")), pairs(&[
        ("WSLENV", "X:CARGO_TARGET_DIR/w:RUSTUP_TOOLCHAIN/w"),
        ("CARGO_TARGET_DIR", "C:\\T\\"),
        ("RUSTUP_TOOLCHAIN", "nightly"),
    ]));
    assert_eq!(bridge_environment(None, "C:\\T\\", None), pairs(&[
        ("WSLENV", ":CARGO_TARGET_DIR/w"),
        ("CARGO_TARGET_DIR", "C:\\T\\"),
    ]));
}

#[test]
fn direct_plan_needs_subcommand() {
    assert!(matches!(plan_direct(Vec::new(), None, "C:\\T\\", None), Err(BridgeError::NoSubcommand)));
    match plan_direct(strings(&["build", "--release"]), None, "C:\\T\\", None) {
        Ok(InvocationPlan::DirectExec { program, args, env }) => {
            assert_eq!(program, "cargo.exe");
            assert_eq!(args, strings(&["build", "--release"]));
            assert_eq!(env.len(), 2);
        },
        _ => panic!("expected a direct plan"),
    }
}

#[test]
fn shell_plan_command() {
    match plan_shell(strings(&["build", "--release"]), "\\\\wsl$\\Ubuntu\\p", "C:\\T\\", Some("nightly")) {
        Ok(InvocationPlan::ShellComposed { command }) => assert_eq!(command,
            "pushd \"\\\\wsl$\\Ubuntu\\p\" && set \"CARGO_TARGET_DIR=C:\\T\\\" && \
set \"RUSTUP_TOOLCHAIN=nightly\" && cargo \"build\" \"--release\""),
        _ => panic!("expected a shell plan"),
    }
}

#[test]
fn shell_plan_refuses_unquotable() {
    assert!(matches!(plan_shell(Vec::new(), "d", "t", None), Err(BridgeError::NoSubcommand)));
    assert!(matches!(plan_shell(strings(&["a\"b"]), "d", "t", None), Err(BridgeError::InvocationFailed)));
    assert!(matches!(plan_shell(strings(&["%PATH%"]), "d", "t", None), Err(BridgeError::InvocationFailed)));
    assert!(matches!(plan_shell(strings(&["dir\\"]), "d", "t", None), Err(BridgeError::InvocationFailed)));
    assert!(matches!(plan_shell(strings(&["b"]), "d%", "t", None), Err(BridgeError::InvocationFailed)));
}

#[test]
fn exit_codes_propagate() {
    assert_eq!(exit_code(Some(7)), 7);
    assert_eq!(exit_code(Some(0)), 0);
    assert_eq!(exit_code(None), ABNORMAL_EXIT);
}

#[test]
fn no_subcommand_spawns_nothing() {
    let (run, action) = Run::start(Vec::new(), None, Strategy::Direct);
    assert!(matches!(action, Action::Fail(BridgeError::NoSubcommand)));
    assert_eq!(run.phase, Phase::Done);
}

fn run_until_launch(tmp_output: &str) -> (Run, Action) {
    let (mut run, action) = Run::start(strings(&["build"]), Some("PATH/l".to_string()), Strategy::Direct);
    assert!(matches!(action, Action::QueryWorkspaceRoot));
    let action = run.step(Event::Output(Some("/home/alice/myproj".to_string())));
    match &action {
        Action::QueryHostVar { name, argument } => {
            assert_eq!(name, "TMP");
            assert_eq!(argument, "echo %TMP%");
        },
        _ => panic!("expected a query of TMP"),
    }
    let mut action = run.step(Event::Output(Some(tmp_output.to_string())));
    if run.phase == Phase::TempSecondary {
        action = run.step(Event::Output(Some("C:\\Temp\r\n".to_string())));
    }
    assert!(matches!(action, Action::QueryToolchain));
    let action = run.step(Event::Output(Some(REPORT.to_string())));
    (run, action)
}

#[test]
fn run_launches_with_cache_and_toolchain() {
    let (run, action) = run_until_launch("C:\\Users\\a\\Temp\r\n");
    assert_eq!(run.target_dir, "C:\\Users\\a\\Temp\\cargo-win\\myproj\\");
    match action {
        Action::Launch(InvocationPlan::DirectExec { program, args, env }) => {
            assert_eq!(program, "cargo.exe");
            assert_eq!(args, strings(&["build"]));
            assert_eq!(env, pairs(&[
                ("WSLENV", "PATH/l:CARGO_TARGET_DIR/w:RUSTUP_TOOLCHAIN/w"),
                ("CARGO_TARGET_DIR", "C:\\Users\\a\\Temp\\cargo-win\\myproj\\"),
                ("RUSTUP_TOOLCHAIN", "nightly"),
            ]));
        },
        _ => panic!("expected a launch"),
    }
}

#[test]
fn run_falls_back_to_secondary() {
    let (run, action) = run_until_launch("%TMP%\r\n");
    assert_eq!(run.target_dir, "C:\\Temp\\cargo-win\\myproj\\");
    assert!(matches!(action, Action::Launch(_)));
}

#[test]
fn run_reports_child_exit_code() {
    let (mut run, _) = run_until_launch("C:\\Temp");
    assert!(matches!(run.step(Event::Exited(Some(7))), Action::Exit(7)));
    assert_eq!(run.phase, Phase::Done);
    let (mut run, _) = run_until_launch("C:\\Temp");
    assert!(matches!(run.step(Event::Exited(None)), Action::Exit(c) if c == ABNORMAL_EXIT));
    let (mut run, _) = run_until_launch("C:\\Temp");
    assert!(matches!(run.step(Event::SpawnFailed), Action::Fail(BridgeError::InvocationFailed)));
}

#[test]
fn run_fails_without_temp_dir() {
    let (mut run, _) = Run::start(strings(&["build"]), None, Strategy::Direct);
    run.step(Event::Output(Some("/w/p".to_string())));
    run.step(Event::Output(Some("\r\n".to_string())));
    let action = run.step(Event::Output(Some("%TEMP%\r\n".to_string())));
    assert!(matches!(action, Action::Fail(BridgeError::HostQueryFailed)));
}

#[test]
fn run_skips_toolchain_when_rustup_missing() {
    let (mut run, _) = Run::start(strings(&["check"]), None, Strategy::Direct);
    run.step(Event::Output(Some("/w/p".to_string())));
    run.step(Event::Output(Some("C:\\T".to_string())));
    match run.step(Event::Output(None)) {
        Action::Launch(InvocationPlan::DirectExec { env, .. }) => assert_eq!(env, pairs(&[
            ("WSLENV", ":CARGO_TARGET_DIR/w"),
            ("CARGO_TARGET_DIR", "C:\\T\\cargo-win\\p\\"),
        ])),
        _ => panic!("expected a launch"),
    }
}

fn shell_run(distro: Option<&str>, args: &[&str]) -> (Run, Action) {
    let strategy = Strategy::Shell { distro: distro.map(|d| d.to_string()), cwd: "/home/alice/proj".to_string() };
    let (mut run, _) = Run::start(strings(args), None, strategy);
    run.step(Event::Output(Some("/home/alice/proj".to_string())));
    run.step(Event::Output(Some("C:\\Temp\r\n".to_string())));
    let action = run.step(Event::Output(Some(REPORT.to_string())));
    (run, action)
}

#[test]
fn run_with_shell_strategy() {
    let (mut run, action) = shell_run(Some("Ubuntu"), &["test", "--", "--nocapture"]);
    match action {
        Action::Launch(InvocationPlan::ShellComposed { command }) => assert_eq!(command,
            "pushd \"\\\\wsl$\\Ubuntu\\home\\alice\\proj\" && \
set \"CARGO_TARGET_DIR=C:\\Temp\\cargo-win\\proj\\\" && \
set \"RUSTUP_TOOLCHAIN=nightly\" && cargo \"test\" \"--\" \"--nocapture\""),
        _ => panic!("expected a shell launch"),
    }
    assert!(matches!(run.step(Event::Exited(Some(7))), Action::Exit(7)));
}

#[test]
fn shell_strategy_needs_distribution() {
    let (run, action) = shell_run(None, &["build"]);
    assert!(matches!(action, Action::Fail(BridgeError::EnvironmentNotDetected)));
    assert_eq!(run.phase, Phase::Done);
    let (_, action) = shell_run(Some("Ubuntu"), &["build", "50%"]);
    assert!(matches!(action, Action::Fail(BridgeError::InvocationFailed)));
}

#[test]
fn set_primary_skips_secondary_query() {
    let (mut run, _) = Run::start(strings(&["build"]), None, Strategy::Direct);
    run.step(Event::Output(Some("/w/p".to_string())));
    let action = run.step(Event::Output(Some("C:\\T \r\n".to_string())));
    assert!(matches!(action, Action::QueryToolchain));
    assert_eq!(run.phase, Phase::Toolchain);
    assert_eq!(run.target_dir, "C:\\T\\cargo-win\\p\\");
}
