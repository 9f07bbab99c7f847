use livingtool_bridge::bridge::{prepare_invocation, ConsoleInvocationRequest, InvocationPlan};
use livingtool_bridge::errors::BridgeError;
use livingtool_bridge::paths::{
    console_project_candidate, resolve_console_project_path, resolve_working_directory, DirPath,
};
use livingtool_bridge::quoting::{format_command_line, quote_arg};
use livingtool_bridge::response::{build_response, combined_output};

fn dir(parts: &[&str]) -> DirPath {
    DirPath { components: parts.iter().map(|s| s.to_string()).collect() }
}

fn strings(parts: &[&str]) -> Vec<String> {
    parts.iter().map(|s| s.to_string()).collect()
}

fn request(command: &str, args: &[&str], working_directory: Option<&str>) -> ConsoleInvocationRequest {
    ConsoleInvocationRequest {
        command: command.to_string(),
        args: strings(args),
        working_directory: working_directory.map(|s| s.to_string()),
    }
}

fn install_dir() -> DirPath {
    dir(&["repo", "src", "LivingTool.Desktop", "src-tauri"])
}

fn project_path() -> DirPath {
    dir(&["repo", "src", "LivingTool.Console", "LivingTool.Console.csproj"])
}

// --- path rendering and layout -------------------------------------------

#[test]
fn render_joins_components_with_slashes() {
    assert_eq!(dir(&["home", "user"]).render(), "/home/user");
    assert_eq!(dir(&["a"]).render(), "/a");
}

#[test]
fn render_of_empty_path_is_root() {
    assert_eq!(dir(&[]).render(), "/");
}

#[test]
fn ascend_two_drops_last_two_components() {
    let up = dir(&["a", "b", "c", "d"]).ascend_two().unwrap();
    assert_eq!(up.components, strings(&["a", "b"]));
}

#[test]
fn ascend_two_fails_on_shallow_paths() {
    assert!(dir(&["a"]).ascend_two().is_none());
    assert!(dir(&[]).ascend_two().is_none());
}

#[test]
fn candidate_is_two_up_then_fixed_sibling() {
    let p = console_project_candidate(&install_dir()).unwrap();
    assert_eq!(
        p.render(),
        "/repo/src/LivingTool.Console/LivingTool.Console.csproj"
    );
}

#[test]
fn candidate_fails_on_shallow_install_dir() {
    assert!(console_project_candidate(&dir(&["lone"])).is_none());
}

#[test]
fn resolve_project_with_marker_present() {
    let p = resolve_console_project_path(&install_dir(), true).unwrap();
    assert_eq!(
        p.render(),
        "/repo/src/LivingTool.Console/LivingTool.Console.csproj"
    );
}

#[test]
fn resolve_project_with_marker_missing_names_the_attempt() {
    let e = resolve_console_project_path(&install_dir(), false).unwrap_err();
    assert_eq!(
        e,
        BridgeError::ProjectNotFound {
            attempted: "/repo/src/LivingTool.Console/LivingTool.Console.csproj".to_string()
        }
    );
    assert_eq!(
        e.message(),
        "LivingTool.Console project not found at /repo/src/LivingTool.Console/LivingTool.Console.csproj"
    );
}

#[test]
fn resolve_project_on_shallow_install_dir() {
    let e = resolve_console_project_path(&dir(&["lone"]), true).unwrap_err();
    assert_eq!(e, BridgeError::SourceDirUnresolved);
}

// --- working directory -----------------------------------------------------

#[test]
fn explicit_working_directory_is_trimmed_and_used() {
    let r = resolve_working_directory(Some(&" /tmp ".to_string()), true, &project_path());
    assert_eq!(r.unwrap(), "/tmp");
}

#[test]
fn explicit_missing_working_directory_is_an_error() {
    let r = resolve_working_directory(Some(&"/nope".to_string()), false, &project_path());
    assert_eq!(
        r.unwrap_err(),
        BridgeError::WorkingDirectoryMissing { attempted: "/nope".to_string() }
    );
}

#[test]
fn blank_working_directory_falls_back() {
    let r = resolve_working_directory(Some(&"   ".to_string()), false, &project_path());
    assert_eq!(r.unwrap(), "/repo/src");
}

#[test]
fn absent_working_directory_falls_back_two_levels_up() {
    let r = resolve_working_directory(None, false, &project_path());
    assert_eq!(r.unwrap(), "/repo/src");
}

#[test]
fn fallback_fails_on_shallow_project_path() {
    let r = resolve_working_directory(None, false, &dir(&["x"]));
    assert_eq!(r.unwrap_err(), BridgeError::DefaultWorkingDirUnresolved);
}

// --- quoting ----------------------------------------------------------------

#[test]
fn plain_token_is_unquoted_and_unchanged() {
    assert_eq!(quote_arg("build"), "build");
    assert_eq!(quote_arg(""), "");
    assert_eq!(quote_arg("--release"), "--release");
}

#[test]
fn token_with_space_is_wrapped() {
    assert_eq!(quote_arg("a b"), "\"a b\"");
}

#[test]
fn embedded_double_quotes_are_escaped() {
    assert_eq!(quote_arg("say \"hi\""), "\"say \\\"hi\\\"\"");
}

#[test]
fn single_quote_forces_wrapping_without_escaping() {
    assert_eq!(quote_arg("it's"), "\"it's\"");
}

#[test]
fn command_line_lists_all_tokens_in_order() {
    let line = format_command_line(&project_path(), "build", &strings(&["--release"]));
    assert_eq!(
        line,
        "dotnet run --project /repo/src/LivingTool.Console/LivingTool.Console.csproj -- build --release"
    );
}

#[test]
fn command_line_quotes_arguments_that_need_it() {
    let line = format_command_line(&project_path(), "say", &strings(&["hello world"]));
    assert_eq!(
        line,
        "dotnet run --project /repo/src/LivingTool.Console/LivingTool.Console.csproj -- say \"hello world\""
    );
}

// --- combined output and exit codes ----------------------------------------

#[test]
fn combined_is_stdout_when_stderr_empty() {
    assert_eq!(combined_output(&"out".to_string(), &"".to_string()), "out");
}

#[test]
fn combined_is_stderr_when_stdout_empty() {
    assert_eq!(combined_output(&"".to_string(), &"err".to_string()), "err");
}

#[test]
fn combined_joins_both_with_one_newline() {
    assert_eq!(combined_output(&"out".to_string(), &"err".to_string()), "out\nerr");
}

#[test]
fn exit_code_two_is_reported_verbatim_as_failure() {
    let r = build_response(
        "cl".to_string(),
        "pp".to_string(),
        "wd".to_string(),
        &b"".to_vec(),
        &b"".to_vec(),
        Some(2),
        false,
    );
    assert_eq!(r.exit_code, 2);
    assert!(!r.success);
}

#[test]
fn exit_code_zero_is_success() {
    let r = build_response(
        "cl".to_string(),
        "pp".to_string(),
        "wd".to_string(),
        &b"".to_vec(),
        &b"".to_vec(),
        Some(0),
        true,
    );
    assert_eq!(r.exit_code, 0);
    assert!(r.success);
}

#[test]
fn missing_exit_code_maps_to_sentinel() {
    let failed = build_response(
        "cl".to_string(),
        "pp".to_string(),
        "wd".to_string(),
        &b"".to_vec(),
        &b"".to_vec(),
        None,
        false,
    );
    assert_eq!(failed.exit_code, 1);
    let ok = build_response(
        "cl".to_string(),
        "pp".to_string(),
        "wd".to_string(),
        &b"".to_vec(),
        &b"".to_vec(),
        None,
        true,
    );
    assert_eq!(ok.exit_code, 0);
}

#[test]
fn invalid_output_bytes_are_replaced_not_fatal() {
    let r = build_response(
        "cl".to_string(),
        "pp".to_string(),
        "wd".to_string(),
        &vec![0xFF, b'a'],
        &b"fine".to_vec(),
        Some(0),
        true,
    );
    assert_eq!(r.stdout, "\u{FFFD}a");
    assert_eq!(r.stderr, "fine");
    assert_eq!(r.combined_output, "\u{FFFD}a\nfine");
}

// --- the full preparation step ----------------------------------------------

#[test]
fn blank_command_is_rejected_before_anything_else() {
    let r = prepare_invocation(&request("   ", &[], None), &install_dir(), false, false);
    assert_eq!(r.unwrap_err(), BridgeError::EmptyCommand);
    let r = prepare_invocation(&request("", &[], None), &install_dir(), true, true);
    assert_eq!(r.unwrap_err(), BridgeError::EmptyCommand);
}

#[test]
fn empty_command_message_matches() {
    let e = prepare_invocation(&request("\t \n", &[], None), &install_dir(), true, true)
        .unwrap_err();
    assert_eq!(e.message(), "Command name is required.");
}

#[test]
fn missing_requested_directory_stops_the_invocation() {
    let r = prepare_invocation(
        &request("build", &[], Some("/does/not/exist")),
        &install_dir(),
        true,
        false,
    );
    assert_eq!(
        r.unwrap_err(),
        BridgeError::WorkingDirectoryMissing { attempted: "/does/not/exist".to_string() }
    );
}

#[test]
fn shallow_install_dir_is_a_path_resolution_error() {
    let r = prepare_invocation(&request("build", &[], None), &dir(&["lone"]), true, false);
    assert_eq!(r.unwrap_err(), BridgeError::SourceDirUnresolved);
    assert_eq!(
        resolve_console_project_path(&dir(&["lone"]), true).unwrap_err().message(),
        "Unable to resolve source directory from the installation path."
    );
}

#[test]
fn absent_marker_is_a_path_resolution_error() {
    let r = prepare_invocation(&request("build", &[], None), &install_dir(), false, false);
    assert!(matches!(r, Err(BridgeError::ProjectNotFound { .. })));
}

#[test]
fn command_is_trimmed_in_the_argument_vector() {
    let plan = prepare_invocation(&request(" build ", &[], None), &install_dir(), true, false)
        .unwrap();
    assert_eq!(plan.argv[4], "build");
}

#[test]
fn successful_plan_is_fully_determined() {
    let plan: InvocationPlan =
        prepare_invocation(&request("build", &["--release"], None), &install_dir(), true, false)
            .unwrap();
    assert_eq!(plan.program, "dotnet");
    assert_eq!(
        plan.argv,
        strings(&[
            "run",
            "--project",
            "/repo/src/LivingTool.Console/LivingTool.Console.csproj",
            "--",
            "build",
            "--release",
        ])
    );
    assert_eq!(plan.working_directory, "/repo/src");
    assert_eq!(
        plan.project_path,
        "/repo/src/LivingTool.Console/LivingTool.Console.csproj"
    );
}

#[test]
fn explicit_working_directory_wins_in_the_plan() {
    let plan = prepare_invocation(
        &request("build", &[], Some(" /tmp ")),
        &install_dir(),
        true,
        true,
    )
    .unwrap();
    assert_eq!(plan.working_directory, "/tmp");
}

#[test]
fn end_to_end_build_release_scenario() {
    let plan = prepare_invocation(
        &request("build", &["--release"], None),
        &install_dir(),
        true,
        false,
    )
    .unwrap();
    let response = build_response(
        plan.command_line,
        plan.project_path,
        plan.working_directory,
        &b"done\n".to_vec(),
        &b"".to_vec(),
        Some(0),
        true,
    );
    assert!(response.command_line.contains("build --release"));
    assert!(response.project_path.ends_with("LivingTool.Console.csproj"));
    assert_eq!(response.stdout, "done\n");
    assert_eq!(response.combined_output, "done\n");
    assert_eq!(response.exit_code, 0);
    assert!(response.success);
}

#[test]
fn error_messages_render_each_variant() {
    assert_eq!(BridgeError::EmptyCommand.message(), "Command name is required.");
    assert_eq!(
        BridgeError::SourceDirUnresolved.message(),
        "Unable to resolve source directory from the installation path."
    );
    assert_eq!(
        BridgeError::ProjectNotFound { attempted: "/p".to_string() }.message(),
        "LivingTool.Console project not found at /p"
    );
    assert_eq!(
        BridgeError::DefaultWorkingDirUnresolved.message(),
        "Unable to resolve default working directory."
    );
    assert_eq!(
        BridgeError::WorkingDirectoryMissing { attempted: "/w".to_string() }.message(),
        "Working directory does not exist: /w"
    );
    assert_eq!(
        BridgeError::SpawnFailed { detail: "not found".to_string() }.message(),
        "Failed to execute dotnet command: not found"
    );
}
