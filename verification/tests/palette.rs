use pixed::image::Rgb;
use pixed::widget::palette::{Palette, PaletteCellId};

#[test]
fn test_color() {
    let p = Palette::default();
    assert_eq!(p.color(PaletteCellId::Id0), &Rgb(0, 0, 0));
    assert_eq!(p.color(PaletteCellId::Id3), &Rgb(255, 0, 0));
}

#[test]
fn test_color_mut() {
    let mut p = Palette::default();
    let cp = p.clone();

    assert_eq!(p.color(PaletteCellId::Id0), &Rgb(0, 0, 0));
    p.set_color(PaletteCellId::Id0, Rgb(3, 4, 5));
    assert_eq!(p.color(PaletteCellId::Id0), &Rgb(3, 4, 5));

    p.set_color(PaletteCellId::Id0, Rgb(0, 0, 0));
    assert_eq!(p, cp);
}

#[test]
fn test_default_table() {
    let p = Palette::default();
    assert_eq!(p.color(PaletteCellId::Id0), &Rgb(0, 0, 0));
    assert_eq!(p.color(PaletteCellId::Id1), &Rgb(127, 127, 127));
    assert_eq!(p.color(PaletteCellId::Id2), &Rgb(255, 255, 255));
    assert_eq!(p.color(PaletteCellId::Id3), &Rgb(255, 0, 0));
    assert_eq!(p.color(PaletteCellId::Id4), &Rgb(0, 255, 0));
    assert_eq!(p.color(PaletteCellId::Id5), &Rgb(0, 0, 255));
}

#[test]
fn test_opposite() {
    assert_eq!(Rgb(0, 0, 0).opposite(), Rgb(255, 255, 255));
    assert_eq!(Rgb(237, 28, 36).opposite(), Rgb(18, 227, 219));
}
