use pixed::command::keyinput::keyconfig::KeyConfig;
use pixed::command::keyinput::Key;
use pixed::command::{Command, Direction};
use pixed::widget::palette::PaletteCellId;

#[test]
fn test_palette_id2char() {
    let kc = KeyConfig::default();
    assert_eq!(kc.palette_cell_id2char(PaletteCellId::Id0), 'w');
    assert_eq!(kc.palette_cell_id2char(PaletteCellId::Id1), 'e');
}

#[test]
fn test_char2palette_id() {
    let kc = KeyConfig::default();
    assert_eq!(kc.char2palette_cell_id('w'), Some(PaletteCellId::Id0));
    assert_eq!(kc.char2palette_cell_id('e'), Some(PaletteCellId::Id1));
    assert_eq!(kc.char2palette_cell_id('W'), None);
}

#[test]
fn test_get() {
    let kc = KeyConfig::default();
    assert_eq!(
        kc.get(&Key::Char('h')),
        Some(&Command::Direction(Direction::Left))
    );
    assert_eq!(
        kc.get(&Key::Char('r')),
        Some(&Command::Palette(PaletteCellId::Id2))
    );
    assert_eq!(kc.get(&Key::Char('!')), None);
}
