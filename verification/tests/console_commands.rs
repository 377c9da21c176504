use alien_com::command::{execute_command, run_command, CommandStatus};
use alien_com::console::{DebugConsoleState, LogTone};
use alien_com::console_input::{console_keyboard_input, ConsoleInputOutcome, ConsoleKeys};
use alien_com::console_text::{chars_of, parse_i32, parse_u32, split_words, string_of, trim_chars};
use alien_com::hex::HexCoord;
use alien_com::resources::FactionResources;
use alien_com::text::int_to_text;

fn last_line(state: &DebugConsoleState) -> (String, LogTone) {
    state.logs.last().unwrap().clone()
}

fn fresh() -> (DebugConsoleState, FactionResources) {
    (DebugConsoleState::new(), FactionResources::new())
}

fn no_keys() -> ConsoleKeys {
    ConsoleKeys { escape: false, enter: false, backspace: false, up: false, down: false }
}

fn open_console() -> DebugConsoleState {
    let mut s = DebugConsoleState::new();
    s.is_unlocked = true;
    s.is_open = true;
    s
}

#[test]
fn console_starts_with_welcome() {
    let s = DebugConsoleState::new();
    assert_eq!(s.logs.len(), 2);
    assert_eq!(s.logs[0], (String::from("=== ALIEN COM GAME DEBUG CONSOLE ==="), LogTone::Header));
    assert_eq!(s.logs[1].1, LogTone::Hint);
    assert!(!s.is_unlocked && !s.is_open && !s.show_warning_modal);
    assert!(s.history.is_empty());
    assert_eq!(s.history_index, None);
}

#[test]
fn help_is_case_and_space_insensitive() {
    let (mut s, mut r) = fresh();
    let st = execute_command("   HeLp  ", &mut s, &mut r);
    assert_eq!(st, CommandStatus::Ran(None));
    assert_eq!(s.logs.len(), 2 + 1 + 11);
    assert_eq!(s.logs[2], (String::from("> HeLp"), LogTone::Echo));
    assert_eq!(s.logs[3], (String::from("=== AVAILABLE COMMANDS ==="), LogTone::Header));
    assert_eq!(
        s.logs[13],
        (String::from("  cam <q> <r>           : Alias for goto"), LogTone::Plain)
    );
    assert_eq!(r, FactionResources::new());
}

#[test]
fn blank_line_does_nothing() {
    let (mut s, mut r) = fresh();
    assert_eq!(execute_command(" \t  ", &mut s, &mut r), CommandStatus::Blank);
    assert_eq!(execute_command("", &mut s, &mut r), CommandStatus::Blank);
    assert_eq!(s.logs.len(), 2);
}

#[test]
fn clear_empties_log() {
    let (mut s, mut r) = fresh();
    assert_eq!(execute_command("cls", &mut s, &mut r), CommandStatus::Ran(None));
    assert!(s.logs.is_empty());
    execute_command("help", &mut s, &mut r);
    execute_command("CLEAR", &mut s, &mut r);
    assert!(s.logs.is_empty());
}

#[test]
fn turn_command_variants() {
    let (mut s, mut r) = fresh();
    execute_command("turn", &mut s, &mut r);
    assert_eq!(r.turn, 2);
    assert_eq!(last_line(&s), (String::from("Advanced 1 turns. Current turn: 2"), LogTone::Success));
    execute_command("turn 10", &mut s, &mut r);
    assert_eq!(r.turn, 12);
    assert_eq!(r.energy, 120 + 11 * 15);
    assert_eq!(last_line(&s).0, "Advanced 10 turns. Current turn: 12");
    execute_command("turn 0", &mut s, &mut r);
    assert_eq!(r.turn, 12);
    execute_command("turn abc", &mut s, &mut r);
    assert_eq!(last_line(&s), (String::from("Usage: turn <number>"), LogTone::Error));
    execute_command("turn -1", &mut s, &mut r);
    assert_eq!(last_line(&s).0, "Usage: turn <number>");
    assert_eq!(r.turn, 12);
}

#[test]
fn stockpile_commands() {
    let (mut s, mut r) = fresh();
    execute_command("energy -20", &mut s, &mut r);
    assert_eq!(r.energy, 100);
    assert_eq!(last_line(&s), (String::from("Energy changed by -20. Current: 100"), LogTone::Success));
    execute_command("production +5", &mut s, &mut r);
    assert_eq!(r.production, 55);
    assert_eq!(last_line(&s).0, "Production changed by 5. Current: 55");
    execute_command("SCI 70", &mut s, &mut r);
    assert_eq!(r.science, 100);
    assert_eq!(last_line(&s).0, "Science changed by 70. Current: 100");
    execute_command("food -100", &mut s, &mut r);
    assert_eq!(r.food, -20);
    assert_eq!(last_line(&s).0, "Food changed by -100. Current: -20");
    execute_command("prod", &mut s, &mut r);
    assert_eq!(last_line(&s), (String::from("Usage: prod <amount>"), LogTone::Error));
    execute_command("science lots", &mut s, &mut r);
    assert_eq!(last_line(&s), (String::from("Invalid amount. Usage: sci <amount>"), LogTone::Error));
    assert_eq!((r.energy, r.production, r.science, r.food), (100, 55, 100, -20));
}

#[test]
fn energy_change_undone() {
    let (mut s, mut r) = fresh();
    let before = r;
    execute_command("energy 37", &mut s, &mut r);
    execute_command("energy -37", &mut s, &mut r);
    assert_eq!(r, before);
}

#[test]
fn res_command() {
    let (mut s, mut r) = fresh();
    execute_command("res 1 -2 3 0", &mut s, &mut r);
    assert_eq!((r.energy, r.production, r.science, r.food), (121, 48, 33, 80));
    assert_eq!(
        last_line(&s),
        (String::from("Resources added: E:+1, P:-2, S:+3, F:+0"), LogTone::Success)
    );
    execute_command("resources 1 2 3", &mut s, &mut r);
    assert_eq!(
        last_line(&s),
        (String::from("Usage: res <energy> <production> <science> <food>"), LogTone::Error)
    );
    execute_command("res 1 2 x 4", &mut s, &mut r);
    assert_eq!(last_line(&s).0, "Usage: res <energy> <production> <science> <food>");
    assert_eq!((r.energy, r.production, r.science, r.food), (121, 48, 33, 80));
}

#[test]
fn goto_command() {
    let (mut s, mut r) = fresh();
    assert_eq!(
        execute_command("goto 3 -4", &mut s, &mut r),
        CommandStatus::Ran(Some(HexCoord::new(3, -4)))
    );
    assert_eq!(last_line(&s), (String::from("> goto 3 -4"), LogTone::Echo));
    assert_eq!(execute_command("cam 7 8 9", &mut s, &mut r), CommandStatus::Ran(Some(HexCoord::new(7, 8))));
    assert_eq!(execute_command("cam x 1", &mut s, &mut r), CommandStatus::Ran(None));
    assert_eq!(last_line(&s), (String::from("Usage: goto <q> <r>"), LogTone::Error));
    execute_command("goto 1", &mut s, &mut r);
    assert_eq!(last_line(&s).0, "Usage: goto <q> <r>");
}

#[test]
fn unknown_command() {
    let (mut s, mut r) = fresh();
    execute_command("Fly away", &mut s, &mut r);
    assert_eq!(
        last_line(&s),
        (String::from("Unknown command: 'fly'. Type 'help' for command list."), LogTone::Error)
    );
}

#[test]
fn out_of_range_commands_do_nothing() {
    let (mut s, mut r) = fresh();
    assert_eq!(execute_command("energy 2147483647", &mut s, &mut r), CommandStatus::OutOfRange);
    assert_eq!(execute_command("turn 4294967295", &mut s, &mut r), CommandStatus::OutOfRange);
    assert_eq!(execute_command("res 0 0 0 2147483647", &mut s, &mut r), CommandStatus::OutOfRange);
    assert_eq!(s.logs.len(), 2);
    assert_eq!(r, FactionResources::new());
    assert_eq!(
        execute_command("energy 2147483527", &mut s, &mut r),
        CommandStatus::Ran(None)
    );
    assert_eq!(r.energy, i32::MAX);
}

#[test]
fn run_command_with_words() {
    let (mut s, mut r) = fresh();
    let cmd = chars_of("food");
    let args = vec![chars_of("5")];
    assert_eq!(run_command(&cmd, &args, &mut s, &mut r), None);
    assert_eq!(r.food, 85);
    assert_eq!(s.logs.len(), 3);
}

#[test]
fn log_keeps_last_hundred_lines() {
    let mut s = DebugConsoleState::new();
    for i in 0..150 {
        s.add_log(int_to_text(i), LogTone::Plain);
    }
    assert_eq!(s.logs.len(), 100);
    assert_eq!(s.logs[0].0, "50");
    assert_eq!(s.logs[99].0, "149");
    s.clear_logs();
    assert!(s.logs.is_empty());
}

#[test]
fn console_toggle_and_warning() {
    let mut s = DebugConsoleState::new();
    let e = s.toggle();
    assert!(e.open_warning && s.show_warning_modal && !s.is_open);
    let e = s.toggle();
    assert!(e.close_warning && !s.show_warning_modal && !s.is_open);
    s.toggle();
    let e = s.warning_modal_input(false, false);
    assert!(!e.close_warning && s.show_warning_modal);
    let e = s.warning_modal_input(true, true);
    assert!(e.close_warning && e.open_console);
    assert!(s.is_unlocked && s.is_open && !s.show_warning_modal);
    let e = s.toggle();
    assert!(e.close_console && !s.is_open);
    let e = s.toggle();
    assert!(e.open_console && s.is_open);
    let e = s.close_button_pressed();
    assert!(e.close_console && !s.is_open);
    let e = s.close_button_pressed();
    assert!(!e.close_console);
}

#[test]
fn warning_cancel_keeps_console_locked() {
    let mut s = DebugConsoleState::new();
    s.toggle();
    let e = s.warning_modal_input(false, true);
    assert!(e.close_warning && !e.open_console);
    assert!(!s.is_unlocked && !s.is_open);
    let e = s.warning_modal_input(true, false);
    assert!(!e.open_console && !s.is_open);
}

#[test]
fn five_clicks_open_warning() {
    let mut s = DebugConsoleState::new();
    for _ in 0..4 {
        let e = s.secret_trigger_pressed(false);
        assert!(!e.open_warning);
    }
    assert_eq!(s.secret_click_count, 4);
    let e = s.secret_trigger_pressed(false);
    assert!(e.open_warning && s.show_warning_modal);
    assert_eq!(s.secret_click_count, 0);
}

#[test]
fn slow_clicks_restart_count() {
    let mut s = DebugConsoleState::new();
    assert!(!s.register_secret_click(false));
    assert!(!s.register_secret_click(false));
    assert!(!s.register_secret_click(true));
    assert_eq!(s.secret_click_count, 1);
    for _ in 0..3 {
        assert!(!s.register_secret_click(false));
    }
    assert!(s.register_secret_click(false));
}

#[test]
fn keyboard_ignored_while_closed() {
    let mut s = DebugConsoleState::new();
    let mut r = FactionResources::new();
    let out = console_keyboard_input(&mut s, &mut r, ConsoleKeys { enter: true, ..no_keys() }, &chars_of("x"));
    assert_eq!(out, ConsoleInputOutcome::Inactive);
    assert!(s.input_text.is_empty());
}

#[test]
fn typing_and_entering_a_command() {
    let mut s = open_console();
    let mut r = FactionResources::new();
    let out = console_keyboard_input(&mut s, &mut r, no_keys(), &chars_of("energy 5x"));
    assert_eq!(out, ConsoleInputOutcome::Edited(None));
    assert_eq!(s.input_text, "energy 5x");
    console_keyboard_input(&mut s, &mut r, ConsoleKeys { backspace: true, ..no_keys() }, &vec![]);
    assert_eq!(s.input_text, "energy 5");
    let out = console_keyboard_input(&mut s, &mut r, ConsoleKeys { enter: true, ..no_keys() }, &vec![]);
    assert_eq!(out, ConsoleInputOutcome::Edited(Some(CommandStatus::Ran(None))));
    assert_eq!(r.energy, 125);
    assert_eq!(s.input_text, "");
    assert_eq!(s.history, vec![String::from("energy 5")]);
    assert_eq!(s.history_index, None);
    assert_eq!(last_line(&s).0, "Energy changed by 5. Current: 125");
}

#[test]
fn typed_control_and_console_keys_are_dropped() {
    let mut s = open_console();
    let mut r = FactionResources::new();
    let typed = vec!['`', 'a', '~', '\u{7}', '\n', 'b'];
    console_keyboard_input(&mut s, &mut r, no_keys(), &typed);
    assert_eq!(s.input_text, "ab");
}

#[test]
fn blank_enter_keeps_history() {
    let mut s = open_console();
    let mut r = FactionResources::new();
    console_keyboard_input(&mut s, &mut r, no_keys(), &chars_of("   "));
    let out = console_keyboard_input(&mut s, &mut r, ConsoleKeys { enter: true, ..no_keys() }, &vec![]);
    assert_eq!(out, ConsoleInputOutcome::Edited(None));
    assert!(s.history.is_empty());
    assert_eq!(s.input_text, "");
    assert_eq!(s.logs.len(), 2);
}

#[test]
fn history_walk() {
    let mut s = open_console();
    let mut r = FactionResources::new();
    for line in ["help", "turn", "food 1"] {
        console_keyboard_input(&mut s, &mut r, no_keys(), &chars_of(line));
        console_keyboard_input(&mut s, &mut r, ConsoleKeys { enter: true, ..no_keys() }, &vec![]);
    }
    assert_eq!(s.history.len(), 3);
    let up = ConsoleKeys { up: true, ..no_keys() };
    let down = ConsoleKeys { down: true, ..no_keys() };
    console_keyboard_input(&mut s, &mut r, up, &vec![]);
    assert_eq!((s.input_text.as_str(), s.history_index), ("food 1", Some(2)));
    console_keyboard_input(&mut s, &mut r, up, &vec![]);
    assert_eq!((s.input_text.as_str(), s.history_index), ("turn", Some(1)));
    console_keyboard_input(&mut s, &mut r, up, &vec![]);
    console_keyboard_input(&mut s, &mut r, up, &vec![]);
    assert_eq!((s.input_text.as_str(), s.history_index), ("help", Some(0)));
    console_keyboard_input(&mut s, &mut r, down, &vec![]);
    assert_eq!((s.input_text.as_str(), s.history_index), ("turn", Some(1)));
    console_keyboard_input(&mut s, &mut r, down, &vec![]);
    console_keyboard_input(&mut s, &mut r, down, &vec![]);
    assert_eq!((s.input_text.as_str(), s.history_index), ("", None));
    console_keyboard_input(&mut s, &mut r, down, &vec![]);
    assert_eq!((s.input_text.as_str(), s.history_index), ("", None));
}

#[test]
fn escape_closes_console() {
    let mut s = open_console();
    let mut r = FactionResources::new();
    console_keyboard_input(&mut s, &mut r, no_keys(), &chars_of("help"));
    let out = console_keyboard_input(
        &mut s,
        &mut r,
        ConsoleKeys { escape: true, enter: true, ..no_keys() },
        &vec![],
    );
    assert_eq!(out, ConsoleInputOutcome::Closed);
    assert!(!s.is_open);
    assert_eq!(s.input_text, "help");
    assert!(s.history.is_empty());
}

#[test]
fn number_parsing() {
    assert_eq!(parse_i32(&chars_of("42")), Some(42));
    assert_eq!(parse_i32(&chars_of("+7")), Some(7));
    assert_eq!(parse_i32(&chars_of("-2147483648")), Some(i32::MIN));
    assert_eq!(parse_i32(&chars_of("2147483647")), Some(i32::MAX));
    assert_eq!(parse_i32(&chars_of("2147483648")), None);
    assert_eq!(parse_i32(&chars_of("-")), None);
    assert_eq!(parse_i32(&chars_of("")), None);
    assert_eq!(parse_i32(&chars_of("1a")), None);
    assert_eq!(parse_i32(&chars_of("007")), Some(7));
    assert_eq!(parse_u32(&chars_of("4294967295")), Some(u32::MAX));
    assert_eq!(parse_u32(&chars_of("4294967296")), None);
    assert_eq!(parse_u32(&chars_of("-1")), None);
    assert_eq!(parse_u32(&chars_of("+3")), Some(3));
    assert_eq!(parse_u32(&chars_of("+")), None);
}

#[test]
fn text_helpers() {
    assert_eq!(string_of(&trim_chars(&chars_of("\t  a b  \n"))), "a b");
    let words = split_words(&chars_of("  one\u{3000}two   three "));
    let words: Vec<String> = words.iter().map(string_of).collect();
    assert_eq!(words, vec!["one", "two", "three"]);
    assert!(split_words(&chars_of("   ")).is_empty());
    assert_eq!(int_to_text(-42), "-42");
    assert_eq!(int_to_text(0), "0");
    assert_eq!(int_to_text(i64::MIN), i64::MIN.to_string());
    assert_eq!(int_to_text(i64::MAX), i64::MAX.to_string());
}

#[test]
fn white_space_matches_std() {
    for code in (0u32..0x3100).chain([0xfeff, 0x10ffff]) {
        if let Some(c) = char::from_u32(code) {
            let line: String = [c, 'x', c].iter().collect();
            assert_eq!(string_of(&trim_chars(&chars_of(&line))), line.trim(), "U+{:04X}", code);
            let words: Vec<String> = split_words(&chars_of(&line)).iter().map(string_of).collect();
            let expected: Vec<&str> = line.split_whitespace().collect();
            assert_eq!(words, expected, "U+{:04X}", code);
        }
    }
}

#[test]
fn control_chars_match_std() {
    for code in 0u32..0x300 {
        let c = char::from_u32(code).unwrap();
        let mut s = open_console();
        let mut r = FactionResources::new();
        console_keyboard_input(&mut s, &mut r, no_keys(), &vec![c]);
        let kept = !c.is_control() && c != '`' && c != '~';
        assert_eq!(s.input_text.chars().count(), if kept { 1 } else { 0 }, "U+{:04X}", code);
    }
}
