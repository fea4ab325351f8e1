use windsend_utils::inform;
use windsend_utils::notify::is_control_char;
use windsend_utils::notify::ELLIPSIS;
use windsend_utils::notify::SHOW_LEN;

#[test]
fn short_content_is_shown_whole() {
    let notice = inform("file received", "WindSend");
    assert_eq!(notice.summary, "WindSend");
    assert_eq!(notice.body, "file received");
}

#[test]
fn empty_content() {
    let notice = inform("", "");
    assert_eq!(notice.summary, "");
    assert_eq!(notice.body, "");
}

#[test]
fn control_codes_are_left_out() {
    let notice = inform("a\tb\r\nc\u{7f}d\u{9f}e\u{0}f\u{1b}[0m", "t\n");
    assert_eq!(notice.body, "abcdef[0m");
    assert_eq!(notice.summary, "t\n");
}

#[test]
fn shown_length_is_eighty() {
    assert_eq!(SHOW_LEN, 80);
    assert_eq!(ELLIPSIS, "...");
}

#[test]
fn seventy_nine_characters_are_shown_whole() {
    let content = "x".repeat(79);
    assert_eq!(inform(&content, "t").body, content);
}

#[test]
fn eighty_characters_are_shown_whole() {
    let content = "a".repeat(80);
    let body = inform(&content, "t").body;
    assert_eq!(body, content);
    assert_eq!(body.chars().count(), 80);
}

#[test]
fn eighty_one_characters_are_cut() {
    let content = "a".repeat(81);
    let body = inform(&content, "t").body;
    assert_eq!(body, format!("{}...", "a".repeat(80)));
    assert_eq!(body.chars().count(), 83);
}

#[test]
fn long_content_is_cut_behind_eighty_characters() {
    let content: String = ('a'..='z').cycle().take(200).collect();
    let expected: String = content.chars().take(80).collect();
    assert_eq!(inform(&content, "t").body, format!("{}...", expected));
}

#[test]
fn characters_are_counted_not_bytes() {
    let content = "红".repeat(79);
    assert_eq!(inform(&content, "t").body, content);
    let content = "红".repeat(81);
    assert_eq!(
        inform(&content, "t").body,
        format!("{}...", "红".repeat(80))
    );
}

#[test]
fn control_codes_do_not_count() {
    let content = format!("{}{}", "\n".repeat(50), "y".repeat(79));
    assert_eq!(inform(&content, "t").body, "y".repeat(79));
    let content = format!("{}\n{}\n", "y".repeat(40), "y".repeat(40));
    assert_eq!(inform(&content, "t").body, "y".repeat(80));
    let content = format!("{}\n{}\nz\n", "y".repeat(40), "y".repeat(40));
    assert_eq!(inform(&content, "t").body, format!("{}...", "y".repeat(80)));
    let content = format!("{}\n{}\n\n\n", "y".repeat(80), "z".repeat(5));
    assert_eq!(inform(&content, "t").body, format!("{}...", "y".repeat(80)));
}

#[test]
fn control_codes_are_what_std_says() {
    for c in '\0'..=char::MAX {
        assert_eq!(is_control_char(c), c.is_control(), "{:?}", c);
    }
}
