use jjdag::info::InfoLine;
use jjdag::model::{Model, SavedSelection, Selection};

fn model() -> Model {
    Model::new("/repo".to_string(), "@".to_string(), None)
}

fn select(id: Option<&str>, path: Option<&str>) -> Selection {
    Selection {
        change_id: id.map(|s| s.to_string()),
        file_path: path.map(|s| s.to_string()),
        is_working_copy: true,
        has_description: false,
        log_index: 7,
    }
}

fn queued_args(m: &Model) -> Vec<Vec<String>> {
    m.queued_jj_commands().iter().map(|c| c.args().clone()).collect()
}

fn is_invalid(m: &Model) -> bool {
    matches!(m.info_list.as_deref(), Some([InfoLine::Plain(s)]) if s == "Invalid selection")
}

#[test]
fn rebase_branch_without_saved_selection_is_invalid() {
    let mut m = model();
    m.jj_rebase_branch_onto_destination(&select(Some("dest"), None));
    assert!(is_invalid(&m));
    assert!(m.queued_jj_commands().is_empty());
    assert!(matches!(m.saved_selection(), SavedSelection::Empty));
}

#[test]
fn save_then_destination_uses_both_changes() {
    let mut m = model();
    m.save_selection(&select(Some("src"), Some("a.txt")));
    match m.saved_selection() {
        SavedSelection::Saved { change_id, file_path, log_index } => {
            assert_eq!(change_id, "src");
            assert_eq!(file_path.as_deref(), Some("a.txt"));
            assert_eq!(*log_index, 7);
        }
        SavedSelection::Empty => panic!("selection not saved"),
    }
    m.jj_absorb_into(&select(Some("dst"), None));
    assert_eq!(
        queued_args(&m),
        vec![vec!["absorb", "--from", "src", "--into", "dst", "a.txt"]
            .into_iter()
            .map(String::from)
            .collect::<Vec<_>>()]
    );
}

#[test]
fn saving_nothing_is_invalid_and_clears() {
    let mut m = model();
    m.save_selection(&select(Some("x"), None));
    m.save_selection(&select(None, None));
    assert!(is_invalid(&m));
    assert!(matches!(m.saved_selection(), SavedSelection::Empty));
}

#[test]
fn destination_without_current_selection_is_invalid() {
    let mut m = model();
    m.save_selection(&select(Some("x"), None));
    m.jj_duplicate_onto(&select(None, None));
    assert!(is_invalid(&m));
    assert!(matches!(m.saved_selection(), SavedSelection::Empty));
    assert!(m.queued_jj_commands().is_empty());
}

#[test]
fn range_and_single_sign_have_the_same_shape() {
    let mut m = model();
    let x = select(Some("kx"), None);
    m.jj_sign(&x);
    let single = queued_args(&m);
    m.save_selection(&x);
    m.jj_sign_range(&x);
    let range = queued_args(&m);
    assert_eq!(single, vec![vec!["sign".to_string(), "-r".to_string(), "kx".to_string()]]);
    assert_eq!(range, vec![vec!["sign".to_string(), "-r".to_string(), "kx::kx".to_string()]]);
}

#[test]
fn parallelize_uses_parents_revset() {
    let mut m = model();
    m.jj_parallelize(&select(Some("k"), None));
    assert_eq!(queued_args(&m), vec![vec!["parallelize".to_string(), "k-::k".to_string()]]);
}

#[test]
fn view_picks_diff_or_show() {
    let mut m = model();
    m.jj_view(&select(Some("k"), Some("f.rs")));
    assert_eq!(queued_args(&m)[0], vec!["diff", "--revisions", "k", "f.rs"]);
    m.jj_view(&select(Some("k"), None));
    assert_eq!(queued_args(&m)[0], vec!["show", "k"]);
}

#[test]
fn squash_depends_on_description() {
    let mut m = model();
    let mut sel = select(Some("k"), None);
    m.jj_squash(&sel);
    assert!(!m.next_jj_command().unwrap().is_interactive());
    sel.has_description = true;
    m.jj_squash(&sel);
    assert!(m.next_jj_command().unwrap().is_interactive());
}

#[test]
fn file_untrack_needs_working_copy_file() {
    let mut m = model();
    let mut sel = select(Some("k"), Some("f.rs"));
    sel.is_working_copy = false;
    m.jj_file_untrack(&sel);
    assert!(is_invalid(&m));
    sel.is_working_copy = true;
    m.jj_file_untrack(&sel);
    assert_eq!(queued_args(&m)[0], vec!["file", "untrack", "f.rs"]);
}

#[test]
fn missing_input_cancels() {
    let mut m = model();
    m.jj_bookmark_create(&select(Some("k"), None), None);
    assert!(matches!(m.info_list.as_deref(), Some([InfoLine::Plain(s)]) if s == "Cancelled"));
    assert!(m.queued_jj_commands().is_empty());
    m.jj_bookmark_create(&select(Some("k"), None), Some("main".to_string()));
    assert_eq!(queued_args(&m)[0], vec!["bookmark", "create", "--revision", "k", "main"]);
    m.jj_bookmark_rename(Some("old".to_string()), None);
    assert!(matches!(m.info_list.as_deref(), Some([InfoLine::Plain(s)]) if s == "Cancelled"));
}

#[test]
fn refresh_adds_dots_each_time() {
    let mut m = model();
    m.refresh();
    assert!(matches!(m.info_list.as_deref(), Some([InfoLine::Plain(s)]) if s == "Refreshed"));
    m.refresh();
    assert!(matches!(m.info_list.as_deref(), Some([InfoLine::Plain(s)]) if s == "Refreshed..."));
    m.refresh();
    assert!(matches!(m.info_list.as_deref(), Some([InfoLine::Plain(s)]) if s == "Refreshed......"));
}

#[test]
fn revset_change_and_failure() {
    let mut m = model();
    assert_eq!(m.set_revset(None), None);
    let previous = m.set_revset(Some("all()".to_string())).unwrap();
    assert_eq!(previous, "@");
    assert_eq!(m.revset, "all()");
    m.revset_loaded(Err("bad revset".to_string()), previous);
    assert_eq!(m.revset, "@");
    let previous = m.set_revset(Some("trunk()".to_string())).unwrap();
    m.revset_loaded(Ok(()), previous);
    assert!(matches!(m.info_list.as_deref(), Some([InfoLine::Plain(s)]) if s == "Revset set to 'trunk()'"));
}

#[test]
fn quit_and_toggle() {
    let mut m = model();
    m.toggle_ignore_immutable();
    assert!(m.global_args.ignore_immutable);
    m.quit();
    assert_eq!(m.state, jjdag::model::State::Quit);
}
