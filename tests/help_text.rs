use jjdag::command_tree::{help_text, CommandTree};
use jjdag::help::{render_help_text, sort_by_description, str_le, HelpCell, COL_WIDTH};
use jjdag::info::InfoLine;

fn pair(k: &str, h: &str) -> (String, String) {
    (k.to_string(), h.to_string())
}

fn width(c: &HelpCell) -> usize {
    match c {
        HelpCell::Header(s) => s.chars().count(),
        HelpCell::Entry { key, help, padding } => key.chars().count() + 1 + help.chars().count() + padding,
        HelpCell::Blank => COL_WIDTH,
    }
}

#[test]
fn entries_sort_case_insensitively() {
    let sorted = sort_by_description(&vec![pair("b", "beta"), pair("a", "Alpha"), pair("c", "gamma"), pair("d", "Delta")]);
    let order: Vec<&str> = sorted.iter().map(|e| e.1.as_str()).collect();
    assert_eq!(order, vec!["Alpha", "beta", "Delta", "gamma"]);
}

#[test]
fn str_order_is_by_character() {
    assert!(str_le("abc", "abd"));
    assert!(str_le("ab", "abc"));
    assert!(!str_le("b", "a"));
    assert!(str_le("", ""));
}

#[test]
fn long_group_wraps_and_rows_align() {
    let many: Vec<(String, String)> = (0..16).map(|i| pair("k", &format!("entry {i:02}"))).collect();
    let groups = vec![("Long".to_string(), many), ("Short".to_string(), vec![pair("x", "one")])];
    let rows = render_help_text(&groups);
    assert_eq!(rows.len(), 15);
    for row in &rows {
        assert_eq!(row.len(), 3);
        for cell in row {
            assert_eq!(width(cell), COL_WIDTH);
        }
    }
    assert!(matches!(&rows[0][0], HelpCell::Header(s) if s.trim_end() == "Long"));
    assert!(matches!(&rows[0][1], HelpCell::Header(s) if s.trim().is_empty()));
    assert!(matches!(&rows[2][1], HelpCell::Entry { help, .. } if help == "entry 15"));
    assert!(matches!(rows[3][1], HelpCell::Blank));
    assert!(matches!(rows[2][2], HelpCell::Blank));
}

#[test]
fn wide_entry_is_cut_to_the_column() {
    let groups = vec![("A label longer than one column".to_string(), vec![pair("key", "a description longer than a column")])];
    let rows = render_help_text(&groups);
    assert!(matches!(&rows[0][0], HelpCell::Header(s) if s == "A label longer than one co"));
    match &rows[1][0] {
        HelpCell::Entry { key, help, padding } => {
            assert_eq!(key, "key");
            assert_eq!(help, "a description longer t");
            assert_eq!(*padding, 0);
        }
        _ => panic!("expected an entry"),
    }
    for row in &rows {
        for cell in row {
            assert_eq!(width(cell), COL_WIDTH);
        }
    }
}

#[test]
fn builtin_help_rows_have_equal_width() {
    let lines = CommandTree::new().get_help();
    let widths: Vec<usize> = lines
        .iter()
        .map(|l| match l {
            InfoLine::HelpRow(cells) => cells.iter().map(width).sum(),
            _ => panic!("expected a help row"),
        })
        .collect();
    assert!(widths.iter().all(|w| *w == widths[0] && w % COL_WIDTH == 0));
}

#[test]
fn help_text_sorts_then_lays_out() {
    let lines = help_text(&vec![("G".to_string(), vec![pair("z", "zeta"), pair("a", "Alpha")])]);
    assert_eq!(lines.len(), 3);
    match &lines[1] {
        InfoLine::HelpRow(cells) => assert!(matches!(&cells[0], HelpCell::Entry { help, .. } if help == "Alpha")),
        _ => panic!("expected a help row"),
    }
}

#[test]
fn top_level_help_lists_navigation_and_general() {
    let lines = CommandTree::new().get_help();
    let InfoLine::HelpRow(first) = &lines[0] else { panic!("expected a help row") };
    let headers: Vec<String> = first
        .iter()
        .filter_map(|c| match c {
            HelpCell::Header(s) => Some(s.trim_end().to_string()),
            _ => None,
        })
        .collect();
    assert_eq!(headers.iter().filter(|h| h.as_str() == "Navigation").count(), 1);
    assert_eq!(headers.iter().filter(|h| h.as_str() == "General").count(), 1);
    assert_eq!(headers[0], "Commands");
}

#[test]
fn node_help_keys_use_terminal_labels() {
    let tree = CommandTree::new();
    let lines = tree.node_help(tree.get_node(&[jjdag::keys::Key::Char('A'), jjdag::keys::Key::Char('i')]).unwrap());
    let InfoLine::HelpRow(cells) = &lines[1] else { panic!("expected a help row") };
    assert!(matches!(&cells[0], HelpCell::Entry { key, .. } if key == "Enter"));
}
