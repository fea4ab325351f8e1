use std::borrow::Cow;

use windsend_utils::color::gave_up;
use windsend_utils::color::TERMINATOR_MAX_OFFSET;
use windsend_utils::color::TERMINATOR_MIN_OFFSET;
use windsend_utils::eliminate_color;

struct TestCase {
    name: &'static str,
    origin: &'static str,
    expected: &'static str,
}

#[test]
fn test_eliminate_color() {
    let line = "\x1b[31m 红色 \x1b[0m";
    println!("origin line: {}", line);
    let line = eliminate_color(line.as_bytes());
    println!("eliminate_color: {}", String::from_utf8_lossy(&line));
    assert_eq!(line, " 红色 ".as_bytes());

    let test_cases = vec![
        TestCase {
            name: "test1",
            origin: "\x1b[31m 红色 \x1b[0m",
            expected: " 红色 ",
        },
        TestCase {
            name: "test2",
            origin: "\x1b[31m 红色 \x1b[0m\x1b[31m 红色 \x1b[0m",
            expected: " 红色  红色 ",
        },
        TestCase {
            name: "test3",
            origin: "\x1b[31m 红色 \x1b[0m\x1b[31m 红色 \x1b[0m\x1b[31m 红色 \x1b[0m",
            expected: " 红色  红色  红色 ",
        },
        TestCase {
            name: "test4",
            origin: "你好\x1b[31m 红色 \x1b[0m",
            expected: "你好 红色 ",
        },
        TestCase {
            name: "test5",
            origin: "你好\x1b[2m 不知道啥色 \x1b[0m",
            expected: "你好 不知道啥色 ",
        },
        TestCase {
            name: "test6",
            origin: "你好\x1b[2m 不知道啥色 \x1b[0m 世界！！！",
            expected: "你好 不知道啥色  世界！！！",
        },
        TestCase {
            name: "test7",
            origin: "你好\x1b[101m 不知道啥色 \x1b[0m 世界！！！",
            expected: "你好 不知道啥色  世界！！！",
        },
        TestCase {
            name: "test8",
            origin: "你好\x1b[1001m 不知道啥色 \x1b[0m 世界！！！",
            expected: "你好 不知道啥色  世界！！！",
        },
        TestCase {
            name: "test9",
            origin: "你好 红色，hello world",
            expected: "你好 红色，hello world",
        },
    ];
    for test_case in test_cases {
        let line = eliminate_color(test_case.origin.as_bytes());
        println!(
            "origin: {}, eliminate_color: {}",
            test_case.origin,
            String::from_utf8_lossy(&line)
        );
        assert_eq!(line, test_case.expected.as_bytes(), "{}", test_case.name);
    }
}

fn strip(line: &[u8]) -> Vec<u8> {
    eliminate_color(line).into_owned()
}

#[test]
fn red_text_loses_both_codes() {
    assert_eq!(strip(b"\x1b[31m red \x1b[0m"), b" red ".to_vec());
}

#[test]
fn two_coloured_pieces_are_joined() {
    assert_eq!(
        strip(b"\x1b[31m a \x1b[0m\x1b[31m b \x1b[0m"),
        b" a  b ".to_vec()
    );
}

#[test]
fn text_before_a_one_digit_code_is_kept() {
    assert_eq!(strip(b"hi\x1b[2m mid \x1b[0m"), b"hi mid ".to_vec());
}

#[test]
fn three_digit_code_and_trailing_text() {
    assert_eq!(
        strip(b"hi\x1b[101m mid \x1b[0m world"),
        b"hi mid  world".to_vec()
    );
}

#[test]
fn plain_text_comes_back_borrowed() {
    let line = b"plain text, no escapes";
    let out = eliminate_color(line);
    assert!(matches!(out, Cow::Borrowed(_)));
    assert_eq!(out, &line[..]);
}

#[test]
fn five_digits_are_out_of_reach() {
    let line = b"\x1b[12345m x";
    let out = eliminate_color(line);
    assert!(matches!(out, Cow::Borrowed(_)));
    assert_eq!(out, &line[..]);
}

#[test]
fn unclosed_marker_gives_the_whole_line_back() {
    let line = b" a \x1b[0m b \x1b[12345m x";
    let out = eliminate_color(line);
    assert!(matches!(out, Cow::Owned(_)));
    assert_eq!(out, &line[..]);
}

#[test]
fn line_without_reset_keeps_its_codes() {
    let line = b"\x1b[31m red";
    let out = eliminate_color(line);
    assert!(matches!(out, Cow::Borrowed(_)));
    assert_eq!(out, &line[..]);
}

#[test]
fn stripped_line_is_owned() {
    let out = eliminate_color(b"a\x1b[0mb");
    assert!(matches!(out, Cow::Owned(_)));
    assert_eq!(out, &b"ab"[..]);
}

#[test]
fn window_is_three_to_six() {
    assert_eq!(TERMINATOR_MIN_OFFSET, 3);
    assert_eq!(TERMINATOR_MAX_OFFSET, 6);
}

#[test]
fn closing_m_at_each_offset_of_the_window() {
    assert_eq!(strip(b"\x1b[0m<\x1b[1m>"), b"<>".to_vec());
    assert_eq!(strip(b"\x1b[0m<\x1b[12m>"), b"<>".to_vec());
    assert_eq!(strip(b"\x1b[0m<\x1b[123m>"), b"<>".to_vec());
    assert_eq!(strip(b"\x1b[0m<\x1b[1234m>"), b"<>".to_vec());
}

#[test]
fn closing_m_behind_the_window_is_not_seen() {
    let line = b"\x1b[0m<\x1b[12345m>";
    assert_eq!(strip(line), line.to_vec());
}

#[test]
fn closing_m_before_the_window_is_not_seen() {
    // The `m` right behind the marker is passed over; the one at the sixth
    // offset closes the code.
    assert_eq!(strip(b"\x1b[m\x1b[0m"), b"".to_vec());
    // With nothing else in the window the line is left alone.
    let line = b"\x1b[0m\x1b[m";
    assert_eq!(strip(line), line.to_vec());
}

#[test]
fn first_m_in_the_window_closes_the_code() {
    assert_eq!(strip(b"\x1b[0m\x1b[1mmm"), b"mm".to_vec());
}

#[test]
fn parameter_bytes_need_not_be_digits() {
    assert_eq!(strip(b"\x1b[0m\x1b[a;bm!"), b"!".to_vec());
}

#[test]
fn marker_at_the_very_end_gives_the_whole_line_back() {
    let line = b"\x1b[0mabc\x1b[";
    assert_eq!(strip(line), line.to_vec());
    let line = b"\x1b[0mabc\x1b[3";
    assert_eq!(strip(line), line.to_vec());
}

#[test]
fn line_that_ends_with_a_code() {
    assert_eq!(strip(b"abc\x1b[0m"), b"abc".to_vec());
    assert_eq!(strip(b"\x1b[0m"), b"".to_vec());
}

#[test]
fn empty_line() {
    let out = eliminate_color(b"");
    assert!(matches!(out, Cow::Borrowed(_)));
    assert_eq!(out.len(), 0);
}

#[test]
fn lone_escape_bytes_are_kept() {
    assert_eq!(strip(b"a\x1bb\x1b[0mc\x1b"), b"a\x1bbc\x1b".to_vec());
}

#[test]
fn stripping_twice_changes_nothing_on_terminal_text() {
    let lines: Vec<&[u8]> = vec![
        b"\x1b[31m red \x1b[0m",
        b"\x1b[1m\x1b[31mbold red\x1b[0m plain \x1b[32mgreen\x1b[0m",
        b"plain",
        b"\x1b[31m never switched off",
        b"\x1b[0m\x1b[12345m",
    ];
    for line in lines {
        let once = strip(line);
        let twice = strip(&once);
        assert_eq!(twice, once);
    }
}

#[test]
fn stripping_twice_may_go_further_where_a_code_is_split_by_another() {
    // An escape byte, a whole reset code, and the rest of a reset code.
    let line = b"\x1b\x1b[0m[0m";
    let once = strip(line);
    assert_eq!(once, b"\x1b[0m".to_vec());
    let twice = strip(&once);
    assert_eq!(twice, b"".to_vec());
}

#[test]
fn line_without_marker_is_left_alone() {
    let lines: Vec<&[u8]> = vec![b"", b"m", b"[0m", b"\x1b", b"\x1b0m[", b"a [ b ] \x1b m"];
    for line in lines {
        assert_eq!(strip(line), line.to_vec());
    }
}

#[test]
fn stripped_line_is_never_longer() {
    let lines: Vec<&[u8]> = vec![
        b"",
        b"\x1b[0m",
        b"a\x1b[0mb",
        b"\x1b[31m red \x1b[0m",
        b"\x1b[0m\x1b[12345m",
        b"\x1b\x1b[0m[0m",
    ];
    for line in lines {
        assert!(strip(line).len() <= line.len());
    }
}

#[test]
fn what_remains_is_the_line_without_its_codes() {
    let line = b"ab\x1b[31mcd\x1b[0mef\x1b[1234mgh";
    let mut expected = Vec::new();
    expected.extend_from_slice(&line[0..2]);
    expected.extend_from_slice(&line[7..9]);
    expected.extend_from_slice(&line[13..15]);
    expected.extend_from_slice(&line[22..24]);
    assert_eq!(strip(line), expected);
    assert_eq!(strip(line), b"abcdefgh".to_vec());
}

#[test]
fn characters_of_several_bytes_stay_whole() {
    let line = "é\x1b[31m红色\x1b[0m🎨\x1b[1m–\x1b[0mñ";
    let out = strip(line.as_bytes());
    assert_eq!(String::from_utf8(out).unwrap(), "é红色🎨–ñ");
}

#[test]
fn character_of_several_bytes_inside_a_code_goes_whole() {
    let line = "a\x1b[ém\x1b[0mb";
    let out = strip(line.as_bytes());
    assert_eq!(String::from_utf8(out).unwrap(), "ab");
}

#[test]
fn giving_up_is_told_from_the_result() {
    let unclosed: Vec<&[u8]> = vec![
        b" a \x1b[0m b \x1b[12345m x",
        b"\x1b[0mabc\x1b[",
        b"\x1b[0m\x1b[m",
    ];
    for line in unclosed {
        assert!(gave_up(line, &eliminate_color(line)));
    }
    let others: Vec<&[u8]> = vec![
        b"",
        b"plain text, no escapes",
        b"\x1b[12345m x",
        b"\x1b[31m red \x1b[0m",
        b"\x1b[0m",
    ];
    for line in others {
        assert!(!gave_up(line, &eliminate_color(line)));
    }
}

#[test]
fn giving_up_means_owned_and_equal() {
    assert!(gave_up(b"ab", &Cow::Owned(b"ab".to_vec())));
    assert!(!gave_up(b"ab", &Cow::Borrowed(&b"ab"[..])));
    assert!(!gave_up(b"ab", &Cow::Owned(b"a".to_vec())));
    assert!(!gave_up(b"ab", &Cow::Owned(b"ac".to_vec())));
}
