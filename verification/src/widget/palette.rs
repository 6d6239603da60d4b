use vstd::prelude::*;
use crate::image::Rgb;

verus! {

/// One of the six palette slots.
#[derive(Copy, Clone, Eq, PartialEq, Ord, PartialOrd, Hash, Debug, Structural)]
pub enum PaletteCellId {
    Id0,
    Id1,
    Id2,
    Id3,
    Id4,
    Id5,
}

impl PaletteCellId {
    /// The slot's position in the palette.
    pub open spec fn spec_index(self) -> int {
        match self {
            PaletteCellId::Id0 => 0,
            PaletteCellId::Id1 => 1,
            PaletteCellId::Id2 => 2,
            PaletteCellId::Id3 => 3,
            PaletteCellId::Id4 => 4,
            PaletteCellId::Id5 => 5,
        }
    }

    /// The slot's position in the palette.
    pub fn index(self) -> (i: usize)
        ensures
            i == self.spec_index(),
    {
        match self {
            PaletteCellId::Id0 => 0,
            PaletteCellId::Id1 => 1,
            PaletteCellId::Id2 => 2,
            PaletteCellId::Id3 => 3,
            PaletteCellId::Id4 => 4,
            PaletteCellId::Id5 => 5,
        }
    }
}

/// How many color slots a palette holds.
pub const NUM_CELL: usize = 6;

/// Six fixed color slots selectable for painting, addressed by slot id.
#[derive(Copy, Clone, Eq, PartialEq, Ord, PartialOrd, Hash, Debug)]
pub struct Palette {
    cells: [Rgb; 6],
}

impl Palette {
    /// The six stored colors, by slot position.
    pub closed spec fn cells_view(&self) -> Seq<Rgb> {
        self.cells@
    }

    /// The color stored in a slot.
    pub open spec fn spec_color(&self, id: PaletteCellId) -> Rgb {
        self.cells_view()[id.spec_index()]
    }

    /// Return a reference to color of palette.
    pub fn color(&self, id: PaletteCellId) -> (r: &Rgb)
        ensures
            *r == self.spec_color(id),
    {
        &self.cells[id.index()]
    }

    /// Set color of palette's specified cell.
    pub fn set_color(&mut self, id: PaletteCellId, color: Rgb)
        ensures
            final(self).cells_view() == old(self).cells_view().update(id.spec_index(), color),
            final(self).spec_color(id) == color,
            forall|other: PaletteCellId|
                other.spec_index() != id.spec_index() ==> final(self).spec_color(other) == old(
                    self,
                ).spec_color(other),
    {
        self.cells[id.index()] = color;
    }
}

impl Default for Palette {
    /// The documented default table: exactly six slots, holding black,
    /// gray, white, red, green and blue.
    fn default() -> (p: Self)
        ensures
            p.cells_view().len() == 6,
            p.spec_color(PaletteCellId::Id0) == Rgb(0, 0, 0),
            p.spec_color(PaletteCellId::Id1) == Rgb(127, 127, 127),
            p.spec_color(PaletteCellId::Id2) == Rgb(255, 255, 255),
            p.spec_color(PaletteCellId::Id3) == Rgb(255, 0, 0),
            p.spec_color(PaletteCellId::Id4) == Rgb(0, 255, 0),
            p.spec_color(PaletteCellId::Id5) == Rgb(0, 0, 255),
    {
        Palette {
            cells: [
                Rgb(0, 0, 0),
                Rgb(127, 127, 127),
                Rgb(255, 255, 255),
                Rgb(255, 0, 0),
                Rgb(0, 255, 0),
                Rgb(0, 0, 255),
            ],
        }
    }
}

} // verus!
