use pixed::command::keyinput::keyconfig::KeyConfig;
use pixed::command::keyinput::{Key, KeyInput};
use pixed::command::{Command, Direction};
use pixed::image::Rgb;
use pixed::widget::palette::PaletteCellId;

fn new_key_input(cmd_line_content: &str) -> KeyInput {
    KeyInput::with_cmd_line(cmd_line_content.chars().collect())
}

fn content_of(ki: &KeyInput) -> String {
    ki.cmd_line_content().iter().collect()
}

#[test]
fn test_new() {
    let ki = KeyInput::new();
    assert!(ki.cmd_line_content().is_empty());
    assert_eq!(ki.key_config(), &KeyConfig::default());
}

#[test]
fn test_parse_cmd() {
    let ki = new_key_input("");
    assert_eq!(ki.parse_cmd_line(), Command::Nop);

    let ki = new_key_input(":");
    assert_eq!(ki.parse_cmd_line(), Command::Nop);

    let ki = new_key_input(":set w 255 255 128");
    assert_eq!(
        ki.parse_cmd_line(),
        Command::SetPalette(PaletteCellId::Id0, Rgb(255, 255, 128))
    );

    let ki = new_key_input(":  set  w 255   255  128  ");
    assert_eq!(
        ki.parse_cmd_line(),
        Command::SetPalette(PaletteCellId::Id0, Rgb(255, 255, 128))
    );

    let ki = new_key_input(":  set  w 255   255  128  ;");
    assert_eq!(ki.parse_cmd_line(), Command::Nop);

    let ki = new_key_input(":set w 999 255  128");
    assert_eq!(ki.parse_cmd_line(), Command::Nop);

    let ki = new_key_input(":set W 275 255 128");
    assert_eq!(ki.parse_cmd_line(), Command::Nop);
}

#[test]
fn test_process_text_command() {
    // add a char
    let mut ki = new_key_input(":");
    assert_eq!(ki.update_cmd_line_content(&Key::Char('s')), Command::Nop);
    assert_eq!(content_of(&ki), String::from(":s"));

    // backspace
    assert_eq!(ki.update_cmd_line_content(&Key::Backspace), Command::Nop);
    assert_eq!(content_of(&ki), String::from(":"));

    // ignored key
    assert_eq!(ki.update_cmd_line_content(&Key::Other), Command::Nop);
    assert_eq!(content_of(&ki), String::from(":"));

    // set palette
    let mut ki = new_key_input(":set w 255 255 128");
    assert_eq!(
        ki.update_cmd_line_content(&Key::Enter),
        Command::SetPalette(PaletteCellId::Id0, Rgb(255, 255, 128))
    );
    assert!(ki.cmd_line_content().is_empty());

    // save
    let mut ki = new_key_input(":w");
    assert_eq!(ki.update_cmd_line_content(&Key::Enter), Command::Save);
    assert!(ki.cmd_line_content().is_empty());

    // save as
    let mut ki = new_key_input(":w path");
    assert_eq!(
        ki.update_cmd_line_content(&Key::Enter),
        Command::SaveAs(String::from("path"))
    );
    assert!(ki.cmd_line_content().is_empty());

    // quit
    let mut ki = new_key_input(":q");
    assert_eq!(ki.update_cmd_line_content(&Key::Enter), Command::Quit);
    assert!(ki.cmd_line_content().is_empty());
}

#[test]
fn test_grammar_acceptance_table() {
    let cases: Vec<(&str, Command)> = vec![
        (
            ":set w 255 255 128",
            Command::SetPalette(PaletteCellId::Id0, Rgb(255, 255, 128)),
        ),
        (
            ":  set  w 255   255  128  ",
            Command::SetPalette(PaletteCellId::Id0, Rgb(255, 255, 128)),
        ),
        (":  set  w 255   255  128  ;", Command::Nop),
        (":set w 999 255 128", Command::Nop),
        (":w", Command::Save),
        (
            ":w path/to/file.png",
            Command::SaveAs(String::from("path/to/file.png")),
        ),
        (":q", Command::Quit),
    ];
    for (line, expected) in cases {
        let ki = new_key_input(line);
        assert_eq!(ki.parse_cmd_line(), expected, "line: {:?}", line);
    }
}

#[test]
fn test_grammar_whitespace_tolerance() {
    assert_eq!(new_key_input(": q ").parse_cmd_line(), Command::Quit);
    assert_eq!(new_key_input(":   q").parse_cmd_line(), Command::Quit);
    assert_eq!(new_key_input(": w  ").parse_cmd_line(), Command::Save);
    assert_eq!(
        new_key_input(": w  a.png  ").parse_cmd_line(),
        Command::SaveAs(String::from("a.png"))
    );
    assert_eq!(new_key_input("q").parse_cmd_line(), Command::Nop);
    assert_eq!(new_key_input(":qq").parse_cmd_line(), Command::Nop);
    assert_eq!(new_key_input(":w a b").parse_cmd_line(), Command::Nop);
    assert_eq!(new_key_input(":set w 0 0").parse_cmd_line(), Command::Nop);
    assert_eq!(
        new_key_input(":set w 0 0 0").parse_cmd_line(),
        Command::SetPalette(PaletteCellId::Id0, Rgb(0, 0, 0))
    );
    assert_eq!(
        new_key_input(":set s 00255 1 2").parse_cmd_line(),
        Command::SetPalette(PaletteCellId::Id3, Rgb(255, 1, 2))
    );
    assert_eq!(
        new_key_input(":set x 1 2 3").parse_cmd_line(),
        Command::Nop
    );
}

#[test]
fn test_save_as_rejects_whitespace_in_path() {
    // The path token ends at any whitespace character, Unicode included:
    // a line with more than the one token matches no pattern.
    assert_eq!(new_key_input(":w a\tb").parse_cmd_line(), Command::Nop);
    assert_eq!(
        new_key_input(":w ab\u{00A0}").parse_cmd_line(),
        Command::Nop
    );
    assert_eq!(
        new_key_input(":w a\u{2028}b").parse_cmd_line(),
        Command::Nop
    );
    assert_eq!(
        new_key_input(":w \u{00A0}a").parse_cmd_line(),
        Command::Nop
    );
    // An ordinary non-ASCII character is a fine path character.
    assert_eq!(
        new_key_input(":w h\u{00E4}user.png").parse_cmd_line(),
        Command::SaveAs(String::from("h\u{00E4}user.png"))
    );
}

#[test]
fn test_process_key_modes() {
    let mut ki = KeyInput::new();

    // Normal mode: bound keys act through the table, unbound keys do
    // nothing, and the prefix key opens the command line.
    assert_eq!(
        ki.process_key(&Key::Char('h')),
        Command::Direction(Direction::Left)
    );
    assert_eq!(
        ki.process_key(&Key::Char('w')),
        Command::Palette(PaletteCellId::Id0)
    );
    assert_eq!(ki.process_key(&Key::Char('z')), Command::Nop);
    assert_eq!(ki.process_key(&Key::Other), Command::Nop);
    assert!(ki.cmd_line_content().is_empty());

    assert_eq!(ki.process_key(&Key::Char(':')), Command::Nop);
    assert_eq!(content_of(&ki), String::from(":"));

    // Command-line mode: text accumulates, Enter submits and returns to
    // Normal mode.
    assert_eq!(ki.process_key(&Key::Char('q')), Command::Nop);
    assert_eq!(content_of(&ki), String::from(":q"));
    assert_eq!(ki.process_key(&Key::Enter), Command::Quit);
    assert!(ki.cmd_line_content().is_empty());
}
