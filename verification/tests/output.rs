use nb_mcp::output::{
    contains_control_sequence, contains_escape, is_plain, select_output, strip_ansi,
};

#[test]
fn strip_ansi_removes_a_color_sequence() {
    assert_eq!(strip_ansi("\x1b[31mred"), "red");
    assert_eq!(strip_ansi("\x1b[1;32mgreen\x1b[0m text"), "green text");
}

#[test]
fn strip_ansi_keeps_plain_text() {
    for text in ["", "plain", "line one\nline two\n", "tabs\tand [brackets] m", "caf\u{e9}"] {
        assert_eq!(strip_ansi(text), text);
    }
}

#[test]
fn strip_ansi_is_idempotent_on_samples() {
    for text in ["\x1b[31mred\x1b[0m", "a\x1b[2Kb\x1b[1;1Hc", "\x1b(Bx", "no escapes"] {
        let once = strip_ansi(text);
        assert_eq!(strip_ansi(&once), once);
    }
}

#[test]
fn strip_ansi_removes_cursor_and_designation_sequences() {
    assert_eq!(strip_ansi("a\x1b[2Kb"), "ab");
    assert_eq!(strip_ansi("\x1b[10;20Hx"), "x");
    assert_eq!(strip_ansi("\x1b(Bx"), "x");
    assert_eq!(strip_ansi("\x1bMx"), "x");
    assert_eq!(strip_ansi("\x1b[?25lhidden\x1b[?25h"), "hidden");
}

#[test]
fn strip_ansi_keeps_an_escape_that_starts_no_sequence() {
    assert_eq!(strip_ansi("a\x1b"), "a\x1b");
    assert_eq!(strip_ansi("\x1b\x01b"), "\x1b\x01b");
}

#[test]
fn strip_ansi_can_leave_a_new_sequence_behind() {
    let once = strip_ansi("\x1b\x1b[mA");
    assert_eq!(once, "\x1bA");
    assert_eq!(strip_ansi(&once), "");
}

#[test]
fn select_output_prefers_the_error_stream() {
    assert_eq!(select_output("bad", "out"), "bad");
    assert_eq!(select_output("", "out"), "out");
    assert_eq!(select_output(" \n\t", "out"), "out");
    assert_eq!(select_output(" x ", "out"), " x ");
    assert_eq!(select_output("", ""), "");
}

#[test]
fn contains_escape_finds_the_introducer() {
    assert!(contains_escape("\x1b[0m"));
    assert!(contains_escape("text\x1b"));
    assert!(!contains_escape(""));
    assert!(!contains_escape("[0m plain"));
}

#[test]
fn contains_control_sequence_asks_the_pattern() {
    assert!(contains_control_sequence("\x1b[31mred"));
    assert!(contains_control_sequence("a\x1b(Bb"));
    assert!(!contains_control_sequence("plain"));
    assert!(!contains_control_sequence("a\x1b"));
    assert!(!contains_control_sequence(""));
}

#[test]
fn plain_text_is_its_own_normal_form() {
    for text in ["", "plain", "a\x1b", "\x1b\x01b", "[0m"] {
        assert!(is_plain(text));
        assert_eq!(strip_ansi(text), text);
    }
    for text in ["\x1b[0m", "x\x1bMy", "\x1b\x1b[mA"] {
        assert!(!is_plain(text));
        assert_ne!(strip_ansi(text), text);
    }
}

#[test]
fn second_pass_changes_nothing_when_the_first_left_plain_text() {
    for text in ["\x1b[31mred\x1b[0m", "a\x1b[2Kb", "plain", "\x1b\x1b[mA", "\x1b\x1b[0m[0m"] {
        let once = strip_ansi(text);
        if is_plain(&once) {
            assert_eq!(strip_ansi(&once), once);
        } else {
            assert_ne!(strip_ansi(&once), once);
        }
    }
}
