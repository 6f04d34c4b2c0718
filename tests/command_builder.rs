use jjdag::jj_command::{GlobalArgs, JjCommand, JjCommandError, JjCommandOutput, ReturnOutput};

fn ga() -> GlobalArgs {
    GlobalArgs { repository: "/repo".to_string(), ignore_immutable: false }
}

fn args(c: &JjCommand) -> Vec<&str> {
    c.args().iter().map(|s| s.as_str()).collect()
}

#[test]
fn abandon_builds_captured_command() {
    let c = JjCommand::abandon("xyz", ga());
    assert_eq!(args(&c), vec!["abandon", "xyz"]);
    assert!(!c.is_interactive());
    assert!(c.sync());
    assert_eq!(c.return_output(), ReturnOutput::Stderr);
}

#[test]
fn absorb_appends_file_path_when_present() {
    assert_eq!(args(&JjCommand::absorb("abc", None, ga())), vec!["absorb", "--from", "abc"]);
    assert_eq!(
        args(&JjCommand::absorb("abc", Some("src/lib.rs"), ga())),
        vec!["absorb", "--from", "abc", "src/lib.rs"]
    );
}

#[test]
fn log_shows_stdout() {
    let c = JjCommand::log("::@", ga());
    assert_eq!(args(&c), vec!["log", "--revisions", "::@"]);
    assert_eq!(c.return_output(), ReturnOutput::Stdout);
}

#[test]
fn show_is_interactive_without_resync() {
    let c = JjCommand::show("abc", ga());
    assert_eq!(args(&c), vec!["show", "abc"]);
    assert!(c.is_interactive());
    assert!(!c.sync());
}

#[test]
fn describe_is_interactive_with_resync() {
    let c = JjCommand::describe("abc", ga());
    assert!(c.is_interactive());
    assert!(c.sync());
}

#[test]
fn push_named_joins_name_and_change() {
    let c = JjCommand::push_named("feature", "abc", ga());
    assert_eq!(args(&c), vec!["git", "push", "--named", "feature=abc"]);
}

#[test]
fn bookmark_create_puts_names_last() {
    let c = JjCommand::bookmark_create("main dev", "abc", ga());
    assert_eq!(args(&c), vec!["bookmark", "create", "--revision", "abc", "main dev"]);
}

#[test]
fn bookmark_move_tug_uses_fixed_source() {
    let c = JjCommand::bookmark_move_tug("abc", ga());
    assert_eq!(
        args(&c),
        vec!["bookmark", "move", "--from", "heads(::@- & bookmarks())", "--to", "abc"]
    );
}

#[test]
fn rebase_variants_pick_their_flags() {
    assert_eq!(
        args(&JjCommand::rebase_branch_onto_destination("s", "d", ga())),
        vec!["rebase", "--branch", "s", "--onto", "d"]
    );
    assert_eq!(
        args(&JjCommand::rebase_before_destination_no_descendants("s", "d", ga())),
        vec!["rebase", "--revisions", "s", "--insert-before", "d"]
    );
    assert_eq!(
        args(&JjCommand::rebase_onto_trunk("s", ga())),
        vec!["rebase", "--source", "s", "--onto", "trunk()"]
    );
}

#[test]
fn command_line_prepends_global_flags() {
    let plain = JjCommand::undo(ga()).command_line();
    let n = plain.len();
    assert_eq!(plain[n - 3], "--repository");
    assert_eq!(plain[n - 2], "/repo");
    assert_eq!(plain[n - 1], "undo");
    assert_eq!(plain[0], "--color");

    let forced = JjCommand::undo(GlobalArgs { repository: "/r".to_string(), ignore_immutable: true })
        .command_line();
    let m = forced.len();
    assert_eq!(m, n + 1);
    assert_eq!(forced[m - 3], "/r");
    assert_eq!(forced[m - 2], "--ignore-immutable");
    assert_eq!(forced[m - 1], "undo");
}

#[test]
fn select_output_picks_the_configured_stream() {
    let out = || JjCommandOutput { stdout: "out".to_string(), stderr: "err".to_string() };
    assert_eq!(JjCommand::log("@", ga()).select_output(out()), "out");
    assert_eq!(JjCommand::abandon("x", ga()).select_output(out()), "err");
}

#[test]
fn failed_error_is_trimmed() {
    match JjCommandError::new_failed("  Error: no such revision\n\n".to_string()) {
        JjCommandError::Failed { stderr } => assert_eq!(stderr, "Error: no such revision"),
        _ => panic!("expected a failure"),
    }
    match JjCommandError::new_other("spawn failed".to_string()) {
        JjCommandError::Other { err } => assert_eq!(err, "spawn failed"),
        _ => panic!("expected another error"),
    }
}

#[test]
fn log_records_reads_the_listing_template() {
    let c = JjCommand::log_records("trunk()::", ga());
    let a = args(&c);
    assert_eq!(a[..4], ["log", "--no-graph", "--revisions", "trunk()::"]);
    assert_eq!(a[4], "--template");
    assert_eq!(a[5], jjdag::log_rows::LOG_TEMPLATE);
    assert_eq!(c.return_output(), ReturnOutput::Stdout);
    assert!(!c.sync());
}
