use jjdag::dispatch::{text_prompts, Effect};
use jjdag::message::Message;
use jjdag::model::{Model, Selection, State};

fn model() -> Model {
    Model::new("/repo".to_string(), "@".to_string(), None)
}

fn select(id: Option<&str>) -> Selection {
    Selection {
        change_id: id.map(String::from),
        file_path: None,
        is_working_copy: false,
        has_description: false,
        log_index: 0,
    }
}

fn queued(m: &Model) -> Vec<Vec<String>> {
    m.queued_jj_commands().iter().map(|c| c.args().clone()).collect()
}

#[test]
fn dispatch_routes_actions_to_handlers() {
    let mut m = model();
    assert!(matches!(m.dispatch(Message::Abandon, &select(Some("k")), None, None), Effect::Handled));
    assert_eq!(queued(&m), vec![vec!["abandon".to_string(), "k".to_string()]]);
}

#[test]
fn dispatch_passes_navigation_back() {
    let mut m = model();
    assert!(matches!(m.dispatch(Message::SelectNextNode, &select(Some("k")), None, None), Effect::ViewModel));
    assert!(matches!(
        m.dispatch(Message::LeftMouseClick { row: 1, column: 2 }, &select(None), None, None),
        Effect::ViewModel
    ));
    assert!(m.info_list.is_none());
}

#[test]
fn dispatch_uses_both_texts() {
    let mut m = model();
    m.dispatch(Message::BookmarkRename, &select(None), Some("old".to_string()), Some("new".to_string()));
    assert_eq!(
        queued(&m),
        vec![vec!["bookmark", "rename", "old", "new"].into_iter().map(String::from).collect::<Vec<_>>()]
    );
}

#[test]
fn dispatch_set_revset_asks_for_a_reload() {
    let mut m = model();
    assert_eq!(m.prompt_starting_text(Message::SetRevset), Some("@".to_string()));
    assert_eq!(m.prompt_starting_text(Message::Abandon), None);
    match m.dispatch(Message::SetRevset, &select(None), Some("all()".to_string()), None) {
        Effect::LoadRevset(previous) => assert_eq!(previous, "@"),
        other => panic!("unexpected {other:?}"),
    }
    assert_eq!(m.revset, "all()");
}

#[test]
fn dispatch_refresh_and_quit() {
    let mut m = model();
    assert!(matches!(m.dispatch(Message::Refresh, &select(None), None, None), Effect::Resync));
    m.dispatch(Message::Quit, &select(None), None, None);
    assert_eq!(m.state, State::Quit);
}

#[test]
fn prompts_follow_the_message() {
    assert_eq!(text_prompts(Message::BookmarkCreate, false), (None, None));
    assert_eq!(text_prompts(Message::BookmarkCreate, true), (Some("Enter the new bookmark(s)"), None));
    assert_eq!(
        text_prompts(Message::BookmarkRename, false),
        (Some("Enter the bookmark to rename"), Some("Enter the bookmark to rename to"))
    );
    assert_eq!(text_prompts(Message::NextOffset, false), (Some("Enter the offset"), None));
    assert_eq!(text_prompts(Message::Abandon, true), (None, None));
    assert_eq!(text_prompts(Message::SetRevset, false), (Some("Enter the new revset"), None));
}
