//! Textual parsing: decimal numbers, map keys, and console commands.

use archipelago_core::commands::{parse_command, parse_setevent_arg, CommandAction};
use archipelago_core::errors::ParseIntError;
use archipelago_core::input_blocker::{capture_flags, InputBlocker, NoOpInputBlocker};
use archipelago_core::log_buffer::ConsoleCommand;
use archipelago_core::parse::{parse_bool, parse_i64, parse_u32, parse_u64, str_eq};
use archipelago_core::slot_data::{assoc_get, I64Key};

#[test]
fn parse_u64_accepts_digits_and_plus() {
    assert_eq!(parse_u64("0"), Some(0));
    assert_eq!(parse_u64("12345"), Some(12345));
    assert_eq!(parse_u64("+7"), Some(7));
    assert_eq!(parse_u64("18446744073709551615"), Some(u64::MAX));
}

#[test]
fn parse_u64_rejects_garbage_and_overflow() {
    assert_eq!(parse_u64(""), None);
    assert_eq!(parse_u64("+"), None);
    assert_eq!(parse_u64("-1"), None);
    assert_eq!(parse_u64("12a"), None);
    assert_eq!(parse_u64(" 12"), None);
    assert_eq!(parse_u64("18446744073709551616"), None);
}

#[test]
fn parse_u32_range_checked() {
    assert_eq!(parse_u32("4294967295"), Some(u32::MAX));
    assert_eq!(parse_u32("4294967296"), None);
}

#[test]
fn parse_i64_handles_signs_and_limits() {
    assert_eq!(parse_i64("42"), Some(42));
    assert_eq!(parse_i64("+42"), Some(42));
    assert_eq!(parse_i64("-42"), Some(-42));
    assert_eq!(parse_i64("9223372036854775807"), Some(i64::MAX));
    assert_eq!(parse_i64("9223372036854775808"), None);
    assert_eq!(parse_i64("-9223372036854775808"), Some(i64::MIN));
    assert_eq!(parse_i64("-9223372036854775809"), None);
    assert_eq!(parse_i64("-"), None);
    assert_eq!(parse_i64("--1"), None);
}

#[test]
fn parse_bool_is_exact() {
    assert_eq!(parse_bool("true"), Some(true));
    assert_eq!(parse_bool("false"), Some(false));
    assert_eq!(parse_bool("True"), None);
    assert_eq!(parse_bool("1"), None);
}

#[test]
fn str_eq_compares_contents() {
    assert!(str_eq("abc", "abc"));
    assert!(!str_eq("abc", "abd"));
    assert!(!str_eq("abc", "ab"));
    assert!(str_eq("", ""));
}

#[test]
fn i64_key_parses_decimal_keys() {
    assert_eq!(I64Key::try_from("1024"), Ok(I64Key(1024)));
    assert_eq!(I64Key::try_from("-3"), Ok(I64Key(-3)));
    assert_eq!(I64Key::try_from("ten"), Err(ParseIntError));
}

#[test]
fn assoc_get_takes_first_match() {
    let entries: Vec<(i64, u32)> = vec![(1, 10), (2, 20), (1, 30)];
    assert_eq!(assoc_get(&entries, 1), Some(10));
    assert_eq!(assoc_get(&entries, 2), Some(20));
    assert_eq!(assoc_get(&entries, 3), None);
}

#[test]
fn getevent_command_parses_flag() {
    assert_eq!(
        parse_command("!getevent", Some("51810")),
        CommandAction::GetEvent { flag: 51810 },
    );
    assert_eq!(
        parse_command("!getevent", None),
        CommandAction::Usage { command: ConsoleCommand::GetEvent },
    );
    assert_eq!(
        parse_command("!getevent", Some("x")),
        CommandAction::Usage { command: ConsoleCommand::GetEvent },
    );
}

#[test]
fn setevent_command_parses_flag_and_value() {
    assert_eq!(
        parse_command("!setevent", Some("51810 true")),
        CommandAction::SetEvent { flag: 51810, value: true },
    );
    // Runs of spaces collapse into one separator.
    assert_eq!(
        parse_command("!setevent", Some("7   false")),
        CommandAction::SetEvent { flag: 7, value: false },
    );
}

#[test]
fn setevent_rejects_malformed_argument_lists() {
    for bad in ["", "12", " 12 true", "12 true ", "12 true extra", "x true", "12 yes"] {
        assert_eq!(
            parse_command("!setevent", Some(bad)),
            CommandAction::Usage { command: ConsoleCommand::SetEvent },
            "argument {:?} should be rejected",
            bad,
        );
    }
}

#[test]
fn setevent_arg_splits_two_fields() {
    assert_eq!(parse_setevent_arg("3 true"), Some((3, true)));
    assert_eq!(parse_setevent_arg("3  false"), Some((3, false)));
    assert_eq!(parse_setevent_arg("3"), None);
    assert_eq!(parse_setevent_arg("a b c"), None);
}

#[test]
fn unknown_commands_are_not_handled() {
    assert_eq!(parse_command("!warp", Some("1")), CommandAction::NotHandled);
    assert_eq!(parse_command("hello", None), CommandAction::NotHandled);
}

#[test]
fn capture_flags_follow_overlay_capture() {
    let none = capture_flags(false, false);
    assert!(!none.mouse && !none.keyboard && !none.game_pad);
    let mouse_only = capture_flags(true, false);
    assert!(mouse_only.mouse && !mouse_only.keyboard && !mouse_only.game_pad);
    let both = capture_flags(true, true);
    assert!(both.mouse && both.keyboard && both.game_pad);
    // The no-op blocker accepts any flags without effect.
    NoOpInputBlocker.block_only(both);
}
