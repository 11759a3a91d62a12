use maa_lifecycle::bridge::make_agent_output_event;
use maa_lifecycle::bridge::make_callback_event;
use maa_lifecycle::text::parse_u64;
use maa_lifecycle::text::str_eq;
use maa_lifecycle::text::strip_ansi_escapes;

#[test]
fn parse_u64_accepts_plain_decimals() {
    assert_eq!(parse_u64("0"), Some(0));
    assert_eq!(parse_u64("42"), Some(42));
    assert_eq!(parse_u64("18446744073709551615"), Some(u64::MAX));
}

#[test]
fn parse_u64_rejects_empty_signs_and_overflow() {
    assert_eq!(parse_u64(""), None);
    assert_eq!(parse_u64("+1"), None);
    assert_eq!(parse_u64("-1"), None);
    assert_eq!(parse_u64("12a"), None);
    assert_eq!(parse_u64("18446744073709551616"), None);
    assert_eq!(parse_u64("99999999999999999999999"), None);
}

#[test]
fn strip_ansi_removes_colour_sequences() {
    assert_eq!(strip_ansi_escapes("\u{1b}[31mred\u{1b}[0m"), "red");
    assert_eq!(strip_ansi_escapes("a\u{1b}[1;32mb\u{1b}[mc"), "abc");
}

#[test]
fn strip_ansi_removes_osc_up_to_bell() {
    assert_eq!(strip_ansi_escapes("x\u{1b}]0;title\u{7}y"), "xy");
    // without a bell the command runs to the end of the text
    assert_eq!(strip_ansi_escapes("x\u{1b}]0;title"), "x");
}

#[test]
fn strip_ansi_keeps_unterminated_csi() {
    // no terminating letter: nothing matches, everything stays
    assert_eq!(strip_ansi_escapes("x\u{1b}[12"), "x\u{1b}[12");
    // a lone escape stays too
    assert_eq!(strip_ansi_escapes("x\u{1b}y"), "x\u{1b}y");
}

#[test]
fn strip_ansi_leaves_plain_text_alone() {
    assert_eq!(strip_ansi_escapes(""), "");
    assert_eq!(strip_ansi_escapes("plain line"), "plain line");
    assert_eq!(strip_ansi_escapes("unicode: héllo"), "unicode: héllo");
}

#[test]
fn str_eq_compares_by_characters() {
    assert!(str_eq("abc", "abc"));
    assert!(!str_eq("abc", "abd"));
    assert!(!str_eq("abc", "ab"));
    assert!(str_eq("", ""));
}

#[test]
fn callback_event_treats_absent_strings_as_empty() {
    let e = make_callback_event(None, None);
    assert_eq!(e.message, "");
    assert_eq!(e.details, "");
    let e = make_callback_event(
        Some("Tasker.Task.Succeeded".to_string()),
        Some("{\"id\":1}".to_string()),
    );
    assert_eq!(e.message, "Tasker.Task.Succeeded");
    assert_eq!(e.details, "{\"id\":1}");
}

#[test]
fn agent_output_event_strips_escapes() {
    let e = make_agent_output_event("alpha", "stdout", "\u{1b}[33mwarn\u{1b}[0m: low");
    assert_eq!(e.instance_id, "alpha");
    assert_eq!(e.stream, "stdout");
    assert_eq!(e.line, "warn: low");
}

#[test]
fn strip_ansi_handles_bare_command_introducer() {
    // an operating-system command with nothing after it strips to the end
    assert_eq!(strip_ansi_escapes("\u{1b}]"), "");
    assert_eq!(strip_ansi_escapes("a\u{1b}]"), "a");
}

#[test]
fn strip_ansi_handles_mixed_parameters() {
    assert_eq!(strip_ansi_escapes("\u{1b}[31;?44mtext"), "text");
    assert_eq!(strip_ansi_escapes("\u{1b}[Htop"), "top");
}
