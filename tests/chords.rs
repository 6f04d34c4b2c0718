use jjdag::builtin::{chord_entry, NUM_CHORDS};
use jjdag::command_tree::{ChordResolution, CommandTree, CommandTreeNode};
use jjdag::info::{display_unbound_error_lines, InfoLine};
use jjdag::keys::Key;
use jjdag::message::Message;
use jjdag::model::Model;

fn model() -> Model {
    Model::new("/repo".to_string(), "@".to_string(), None)
}

#[test]
fn shared_prefix_is_a_menu_and_its_child_an_action() {
    let mut tree = CommandTree::empty();
    assert!(tree.add_child("Commands", "Group", &[Key::Char('a')], CommandTreeNode::new_children()));
    assert!(tree.add_child(
        "Group",
        "Second",
        &[Key::Char('a'), Key::Char('a')],
        CommandTreeNode::new_action(Message::Redo)
    ));
    assert!(matches!(tree.resolve(&[Key::Char('a')]), ChordResolution::Menu(_)));
    assert!(matches!(
        tree.resolve(&[Key::Char('a'), Key::Char('a')]),
        ChordResolution::Action { message: Message::Redo, has_children: false, .. }
    ));
    assert_eq!(tree.resolve(&[Key::Char('a'), Key::Char('z')]), ChordResolution::Unresolved);
}

#[test]
fn registration_under_a_missing_prefix_is_refused() {
    let mut tree = CommandTree::empty();
    assert!(!tree.add_child("G", "x", &[Key::Char('q'), Key::Char('q')], CommandTreeNode::new_action(Message::Undo)));
    assert!(!tree.add_child("G", "x", &[], CommandTreeNode::new_action(Message::Undo)));
    assert!(tree.add_child("G", "x", &[Key::Char('q')], CommandTreeNode::new_action(Message::Undo)));
    assert!(!tree.add_child("G", "y", &[Key::Char('q'), Key::Char('r')], CommandTreeNode::new_action(Message::Redo)));
}

#[test]
fn chord_menu_then_action() {
    let mut m = model();
    assert_eq!(m.handle_command_key(Key::Char('a')), None);
    assert_eq!(m.command_keys(), &vec![Key::Char('a')]);
    assert!(matches!(m.info_list.as_ref().unwrap()[0], InfoLine::HelpRow(_)));
    assert_eq!(m.handle_command_key(Key::Char('a')), Some(Message::Abandon));
    assert!(m.command_keys().is_empty());
}

#[test]
fn unbound_suffix_drops_only_that_key() {
    let mut m = model();
    m.handle_command_key(Key::Char('a'));
    assert_eq!(m.handle_command_key(Key::Char('z')), None);
    assert_eq!(m.command_keys(), &vec![Key::Char('a')]);
    let info = m.info_list.as_ref().unwrap();
    assert!(matches!(info[info.len() - 1], InfoLine::UnboundSuffix(Key::Char('z'))));
    assert!(matches!(info[info.len() - 2], InfoLine::Blank));
    assert_eq!(m.handle_command_key(Key::Char('b')), Some(Message::AbandonRetainBookmarks));
}

#[test]
fn unbound_first_key_leaves_chord_empty() {
    let mut m = model();
    assert_eq!(m.handle_command_key(Key::Char('Z')), None);
    assert!(m.command_keys().is_empty());
    let info = m.info_list.as_ref().unwrap();
    assert_eq!(info.len(), 1);
    assert!(matches!(info[0], InfoLine::UnboundSuffix(Key::Char('Z'))));
}

#[test]
fn action_with_children_keeps_chord() {
    let mut m = model();
    m.handle_command_key(Key::Char('A'));
    assert_eq!(m.handle_command_key(Key::Char('i')), Some(Message::SaveSelection));
    assert_eq!(m.command_keys(), &vec![Key::Char('A'), Key::Char('i')]);
    assert_eq!(m.handle_command_key(Key::Enter), Some(Message::AbsorbInto));
    assert!(m.command_keys().is_empty());
}

#[test]
fn repeated_unbound_key_collapses() {
    let mut info: Option<Vec<InfoLine>> = None;
    display_unbound_error_lines(&mut info, &Key::Char('x'));
    display_unbound_error_lines(&mut info, &Key::Char('x'));
    assert_eq!(info.as_ref().unwrap().len(), 1);
    display_unbound_error_lines(&mut info, &Key::Char('y'));
    let lines = info.unwrap();
    assert_eq!(lines.len(), 3);
    assert!(matches!(lines[1], InfoLine::Blank));
    assert!(matches!(lines[2], InfoLine::UnboundSuffix(Key::Char('y'))));
}

#[test]
fn builtin_tree_resolves_destination_pickers() {
    let tree = CommandTree::new();
    assert!(matches!(
        tree.resolve(&[Key::Char('b'), Key::Char('m'), Key::Char('m'), Key::Enter]),
        ChordResolution::Action { message: Message::BookmarkMove, .. }
    ));
    assert!(matches!(
        tree.resolve(&[Key::Char('u'), Key::Char('r')]),
        ChordResolution::Action { message: Message::Redo, .. }
    ));
    assert_eq!(tree.get_node(&[Key::Char('a'), Key::Char('a'), Key::Char('a')]), None);
}

#[test]
fn builtin_table_lists_every_chord() {
    let tree = CommandTree::new();
    for j in 0..NUM_CHORDS {
        let e = chord_entry(j);
        assert!(e.keys.len() <= 4);
        match (tree.resolve(&e.keys), e.action) {
            (ChordResolution::Action { message, node, has_children }, Some(m)) => {
                assert_eq!(message, m);
                assert_eq!(node, j + 1);
                assert_eq!(has_children, e.interior);
            }
            (ChordResolution::Menu(node), None) => assert_eq!(node, j + 1),
            other => panic!("chord {j} resolved to {other:?}"),
        }
    }
}
