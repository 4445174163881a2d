use pomodoro::command::parse_command;
use pomodoro::command::TimerCommand;

fn by_lowercasing(line: &str) -> Option<TimerCommand> {
    match line.trim().to_lowercase().as_str() {
        "p" => Some(TimerCommand::Pause),
        "r" => Some(TimerCommand::Resume),
        "s" => Some(TimerCommand::Skip),
        "q" => Some(TimerCommand::Quit),
        _ => None,
    }
}

#[test]
fn parse_command_knows_the_four_letters() {
    assert_eq!(parse_command("p"), Some(TimerCommand::Pause));
    assert_eq!(parse_command("r"), Some(TimerCommand::Resume));
    assert_eq!(parse_command("s"), Some(TimerCommand::Skip));
    assert_eq!(parse_command("q"), Some(TimerCommand::Quit));
}

#[test]
fn parse_command_ignores_case() {
    assert_eq!(parse_command("P"), Some(TimerCommand::Pause));
    assert_eq!(parse_command("R"), Some(TimerCommand::Resume));
    assert_eq!(parse_command("S"), Some(TimerCommand::Skip));
    assert_eq!(parse_command("Q"), Some(TimerCommand::Quit));
}

#[test]
fn parse_command_ignores_white_space_around() {
    assert_eq!(parse_command("  p"), Some(TimerCommand::Pause));
    assert_eq!(parse_command("q\n"), Some(TimerCommand::Quit));
    assert_eq!(parse_command("\t S \r\n"), Some(TimerCommand::Skip));
    assert_eq!(parse_command("\u{A0}r\u{3000}"), Some(TimerCommand::Resume));
}

#[test]
fn parse_command_rejects_everything_else() {
    assert_eq!(parse_command(""), None);
    assert_eq!(parse_command("   "), None);
    assert_eq!(parse_command("pp"), None);
    assert_eq!(parse_command("p q"), None);
    assert_eq!(parse_command("pause"), None);
    assert_eq!(parse_command("quit"), None);
    assert_eq!(parse_command("x"), None);
    assert_eq!(parse_command("1"), None);
    assert_eq!(parse_command("\u{FF50}"), None);
    assert_eq!(parse_command("\u{3C1}"), None);
}

#[test]
fn parse_command_agrees_with_lowercasing_on_every_char() {
    let mut code: u32 = 0;
    while code <= 0x10FFFF {
        if let Some(c) = char::from_u32(code) {
            let line = c.to_string();
            assert_eq!(parse_command(&line), by_lowercasing(&line), "U+{:04X}", code);
        }
        code += 1;
    }
}

#[test]
fn parse_command_agrees_with_lowercasing_on_lines() {
    let samples = [
        "", " ", "p", "P ", " p", "pP", "Pp", "q\n", "Q\r\n", "  s  ", "R", "r r", "\u{212A}",
        "\u{17F}", "S\u{307}", "\u{130}", "p\u{200B}", "\u{3A3}", "quit", "Pause", "ps",
    ];
    for s in samples {
        assert_eq!(parse_command(s), by_lowercasing(s), "{:?}", s);
    }
}
