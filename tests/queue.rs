use jjdag::info::InfoLine;
use jjdag::jj_command::{GlobalArgs, JjCommand, JjCommandError};
use jjdag::model::{Model, QueueStep, SavedSelection, Selection};

fn model() -> Model {
    Model::new("/repo".to_string(), "@".to_string(), None)
}

fn ga() -> GlobalArgs {
    GlobalArgs { repository: "/repo".to_string(), ignore_immutable: false }
}

fn invocations(lines: &[InfoLine]) -> Vec<Vec<String>> {
    lines
        .iter()
        .filter_map(|l| match l {
            InfoLine::Invocation(a) => Some(a.clone()),
            _ => None,
        })
        .collect()
}

fn outputs(lines: &[InfoLine]) -> Vec<String> {
    lines
        .iter()
        .filter_map(|l| match l {
            InfoLine::Output(s) => Some(s.clone()),
            _ => None,
        })
        .collect()
}

#[test]
fn failing_fetch_stops_the_batch() {
    let mut m = model();
    m.jj_new_after_trunk_sync();
    assert_eq!(m.queued_jj_commands().len(), 2);
    let first = m.next_jj_command().unwrap();
    assert_eq!(first.args(), &vec!["git".to_string(), "fetch".to_string()]);
    let step = m.process_jj_command_queue(Err(JjCommandError::new_failed("fetch failed".to_string())));
    assert_eq!(step, QueueStep::Failed);
    assert!(m.next_jj_command().is_none());
    let info = m.info_list.as_ref().unwrap();
    assert_eq!(invocations(info), vec![vec!["git".to_string(), "fetch".to_string()]]);
    assert_eq!(outputs(info), vec!["fetch failed".to_string()]);
    assert!(!invocations(info).iter().any(|a| a.iter().any(|s| s == "trunk()")));
}

#[test]
fn successful_batch_runs_in_order_and_resyncs() {
    let mut m = model();
    m.jj_new_after_trunk_sync();
    assert_eq!(m.process_jj_command_queue(Ok("fetched".to_string())), QueueStep::Next);
    let running = m.info_list.as_ref().unwrap();
    assert!(matches!(running.last(), Some(InfoLine::Plain(s)) if s == "Running..."));
    assert_eq!(
        invocations(running),
        vec![
            vec!["git".to_string(), "fetch".to_string()],
            vec!["new".to_string(), "trunk()".to_string()]
        ]
    );
    assert_eq!(m.next_jj_command().unwrap().args(), &vec!["new".to_string(), "trunk()".to_string()]);
    assert_eq!(
        m.process_jj_command_queue(Ok("created".to_string())),
        QueueStep::Finished { resync: true }
    );
    let info = m.info_list.as_ref().unwrap();
    assert_eq!(outputs(info), vec!["fetched".to_string(), "created".to_string()]);
    assert!(matches!(info[3], InfoLine::Blank));
    assert!(m.next_jj_command().is_none());
}

#[test]
fn middle_failure_shows_only_what_ran() {
    let mut m = model();
    m.queue_jj_commands(vec![
        JjCommand::undo(ga()),
        JjCommand::redo(ga()),
        JjCommand::push(ga()),
    ]);
    assert_eq!(m.process_jj_command_queue(Ok("undone".to_string())), QueueStep::Next);
    assert_eq!(
        m.process_jj_command_queue(Err(JjCommandError::new_failed("nothing to redo".to_string()))),
        QueueStep::Failed
    );
    let info = m.info_list.as_ref().unwrap();
    assert_eq!(
        invocations(info),
        vec![vec!["undo".to_string()], vec!["redo".to_string()]]
    );
    assert_eq!(outputs(info), vec!["undone".to_string(), "nothing to redo".to_string()]);
    assert_eq!(m.process_jj_command_queue(Ok(String::new())), QueueStep::Idle);
}

#[test]
fn viewer_batch_does_not_resync() {
    let mut m = model();
    m.jj_status();
    assert_eq!(m.process_jj_command_queue(Ok(String::new())), QueueStep::Finished { resync: false });
}

#[test]
fn infrastructure_error_is_fatal() {
    let mut m = model();
    m.jj_undo();
    assert_eq!(
        m.process_jj_command_queue(Err(JjCommandError::new_other("no such program".to_string()))),
        QueueStep::Fatal
    );
}

#[test]
fn finishing_a_batch_clears_the_register() {
    let mut m = model();
    let sel = Selection {
        change_id: Some("abc".to_string()),
        file_path: None,
        is_working_copy: false,
        has_description: true,
        log_index: 3,
    };
    m.save_selection(&sel);
    m.jj_rebase_onto_destination(&sel);
    assert_eq!(m.process_jj_command_queue(Ok(String::new())), QueueStep::Finished { resync: true });
    assert!(matches!(m.saved_selection(), SavedSelection::Empty));
}
