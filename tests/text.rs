use jjdag::display::{format_repository_for_display, starts_with};
use jjdag::editor::{editor_result, editor_template};

#[test]
fn editor_result_drops_comments_and_trims() {
    let text = "  main\r\nJJ: a comment\nsecond\n\nJJ: Lines starting with\n";
    assert_eq!(editor_result(text), Some("main\nsecond".to_string()));
}

#[test]
fn editor_result_empty_is_cancelled() {
    assert_eq!(editor_result(""), None);
    assert_eq!(editor_result("\n\nJJ: Enter the offset\n   \n"), None);
}

#[test]
fn editor_template_holds_text_and_hint() {
    assert_eq!(
        editor_template(Some("@"), Some("Enter the new revset")),
        "@\n\n\nJJ: Enter the new revset\nJJ: Lines starting with \"JJ:\" (like this one) will be removed.\n"
    );
    assert_eq!(editor_template(None, None), "");
    assert_eq!(editor_result(&editor_template(Some("trunk()"), Some("hint"))), Some("trunk()".to_string()));
}

#[test]
fn repository_display_abbreviates_home() {
    assert_eq!(format_repository_for_display("/home/u", Some("/home/u")), "~");
    assert_eq!(format_repository_for_display("/home/u/src/x", Some("/home/u")), "~/src/x");
    assert_eq!(format_repository_for_display("/home/user2", Some("/home/u")), "/home/user2");
    assert_eq!(format_repository_for_display("/srv/repo", None), "/srv/repo");
}

#[test]
fn prefix_test() {
    assert!(starts_with("Refreshed...", "Refreshed"));
    assert!(!starts_with("Ref", "Refreshed"));
    assert!(starts_with("x", ""));
}
