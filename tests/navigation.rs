use jjdag::keys::{global_key_message, key_label, Key};
use jjdag::log_rows::{parse_log, parse_log_line, split_fields};
use jjdag::message::Message;
use jjdag::scroll::{line_dist_to_dest_node, Area, ListView, ScrollDirection};
use jjdag::tree_position::{next_sibling_position, parent_position, prev_sibling_position};

fn list(counts: Vec<usize>, selected: usize, offset: usize, height: u16) -> ListView {
    ListView { selected, offset, line_counts: counts, height, scroll_padding: 0 }
}

#[test]
fn global_keys_bypass_chords() {
    assert_eq!(global_key_message(Key::Char('q'), false), Some(Message::Quit));
    assert_eq!(global_key_message(Key::Char('c'), true), Some(Message::Quit));
    assert_eq!(global_key_message(Key::Char('c'), false), None);
    assert_eq!(global_key_message(Key::Char('r'), true), Some(Message::Refresh));
    assert_eq!(global_key_message(Key::Char(' '), false), Some(Message::Refresh));
    assert_eq!(global_key_message(Key::Tab, false), Some(Message::ToggleLogListFold));
    assert_eq!(global_key_message(Key::Enter, false), None);
}

#[test]
fn key_labels_follow_the_terminal_library() {
    assert_eq!(key_label(Key::Char('a')), "a");
    assert_eq!(key_label(Key::Char(' ')), "Space");
    assert_eq!(key_label(Key::Enter), "Enter");
    assert_eq!(key_label(Key::PageDown), "Page Down");
}

#[test]
fn walking_rows_counts_their_lines() {
    let counts = vec![2, 3, 1, 4];
    assert_eq!(line_dist_to_dest_node(&counts, 0, 0, ScrollDirection::Down), 0);
    assert_eq!(line_dist_to_dest_node(&counts, 2, 0, ScrollDirection::Down), 1);
    assert_eq!(line_dist_to_dest_node(&counts, 5, 0, ScrollDirection::Down), 2);
    assert_eq!(line_dist_to_dest_node(&counts, 100, 0, ScrollDirection::Down), 3);
    assert_eq!(line_dist_to_dest_node(&counts, 3, 3, ScrollDirection::Up), 3);
    assert_eq!(line_dist_to_dest_node(&counts, 4, 3, ScrollDirection::Up), 2);
    assert_eq!(line_dist_to_dest_node(&counts, 100, 3, ScrollDirection::Up), 0);
}

#[test]
fn page_down_keeps_cursor_distance() {
    let mut v = list(vec![1; 10], 1, 0, 3);
    v.scroll_down_page();
    assert_eq!(v.offset, 3);
    assert_eq!(v.selected, 4);
}

#[test]
fn page_down_at_end_selects_last_row() {
    let mut v = list(vec![1; 4], 1, 0, 10);
    v.scroll_down_page();
    assert_eq!(v.selected, 3);
    assert_eq!(v.offset, 0);
}

#[test]
fn page_up_at_top_selects_first_row() {
    let mut v = list(vec![1; 4], 2, 0, 3);
    v.scroll_up_page();
    assert_eq!(v.selected, 0);
    assert_eq!(v.offset, 0);
}

#[test]
fn wheel_scrolling_moves_offset_and_cursor() {
    let mut v = list(vec![1; 10], 0, 0, 3);
    v.scroll_down_once();
    assert_eq!((v.offset, v.selected), (1, 1));
    let mut w = list(vec![1; 10], 5, 3, 3);
    w.scroll_up_once();
    assert_eq!((w.offset, w.selected), (2, 4));
    let mut top = list(vec![1; 10], 5, 0, 3);
    top.scroll_up_once();
    assert_eq!((top.offset, top.selected), (0, 5));
}

#[test]
fn click_selects_row_under_pointer() {
    let area = Area { x: 0, y: 2, width: 40, height: 10 };
    let mut v = list(vec![2, 2, 2, 2], 0, 0, 10);
    v.handle_mouse_click(5, 3, area);
    assert_eq!(v.selected, 1);
    v.handle_mouse_click(1, 3, area);
    assert_eq!(v.selected, 1);
}

#[test]
fn cursor_moves_stop_at_the_ends() {
    let mut v = list(vec![1; 2], 1, 0, 3);
    v.select_next_node();
    assert_eq!(v.selected, 1);
    v.select_prev_node();
    v.select_prev_node();
    assert_eq!(v.selected, 0);
}

#[test]
fn fields_split_on_separator() {
    assert_eq!(split_fields("a,b,,c", ','), vec!["a", "b", "", "c"]);
    assert_eq!(split_fields("", ','), vec![""]);
}

#[test]
fn log_lines_become_records() {
    let out = "kxyz\u{1f}1\u{1f}0\u{1f}kxyz me@x (no description set)\nbad line\nqabc\u{1f}0\u{1f}1\u{1f}qabc me@x fix\n";
    let records = parse_log(out);
    assert_eq!(records.len(), 2);
    assert_eq!(records[0].change_id, "kxyz");
    assert!(records[0].is_working_copy);
    assert!(!records[0].has_description);
    assert_eq!(records[1].line, "qabc me@x fix");
    assert!(records[1].has_description);
    assert!(parse_log_line("a\u{1f}2\u{1f}0\u{1f}x").is_none());
}

#[test]
fn next_sibling_climbs_at_the_last_child() {
    let shape = vec![vec![3, 2], vec![1], vec![]];
    assert_eq!(next_sibling_position(&shape, &vec![0, 0, 2]), vec![0, 1]);
    assert_eq!(next_sibling_position(&shape, &vec![0, 1]), vec![1]);
    assert_eq!(next_sibling_position(&shape, &vec![1, 0, 0]), vec![2]);
    assert_eq!(next_sibling_position(&shape, &vec![2]), vec![2]);
}

#[test]
fn prev_sibling_and_parent() {
    assert_eq!(prev_sibling_position(&vec![0, 1, 2]), vec![0, 1]);
    assert_eq!(prev_sibling_position(&vec![3, 0]), vec![3]);
    assert_eq!(prev_sibling_position(&vec![3, 2]), vec![3, 1]);
    assert_eq!(prev_sibling_position(&vec![0]), vec![0]);
    assert_eq!(parent_position(&vec![4, 1]), Some(vec![4]));
    assert_eq!(parent_position(&vec![4]), None);
}
