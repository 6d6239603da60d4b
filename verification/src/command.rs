use vstd::prelude::*;
use crate::image::Rgb;
use crate::widget::palette::PaletteCellId;

pub mod keyinput;
pub mod programmed;

verus! {

/// The closed set of effects the input layer can request of the
/// application: movement, painting, palette edits, saving and quitting.
#[derive(Clone, Eq, PartialEq, Ord, PartialOrd, Hash, Debug)]
pub enum Command {
    Quit,
    Nop,
    Direction(Direction),
    Palette(PaletteCellId),
    SetPalette(PaletteCellId, Rgb),
    Save,
    SaveAs(String),
}

impl Command {
    /// An owned copy equal to the original command.
    pub fn duplicate(&self) -> (r: Command)
        ensures
            r == *self,
    {
        match self {
            Command::Quit => Command::Quit,
            Command::Nop => Command::Nop,
            Command::Direction(d) => Command::Direction(*d),
            Command::Palette(id) => Command::Palette(*id),
            Command::SetPalette(id, rgb) => Command::SetPalette(*id, *rgb),
            Command::Save => Command::Save,
            Command::SaveAs(path) => Command::SaveAs(path.clone()),
        }
    }
}

/// A movement over the grid, one cell at a time.
#[derive(Copy, Clone, Eq, PartialEq, Ord, PartialOrd, Hash, Debug, Structural)]
pub enum Direction {
    Up,
    Down,
    Left,
    Right,
}

} // verus!
