use pixed::app::{apply_command, AppAction};
use pixed::command::programmed::ProgrammedEvent;
use pixed::command::{Command, Direction};
use pixed::image::{Image, Rgb};
use pixed::widget::canvas::Canvas;
use pixed::widget::palette::{Palette, PaletteCellId};

fn app_test_image() -> Image {
    let pixels = vec![
        Rgb(237, 28, 36),
        Rgb(63, 72, 204),
        Rgb(255, 255, 255),
        Rgb(255, 255, 255),
        Rgb(255, 127, 39),
        Rgb(255, 255, 255),
        Rgb(255, 255, 255),
        Rgb(255, 255, 255),
        Rgb(255, 255, 255),
        Rgb(255, 242, 0),
    ];
    Image::new(String::from("00.png"), 5, 2, pixels)
}

#[test]
fn test_read_order() {
    let mut cs = ProgrammedEvent::new(vec![Command::Nop, Command::Quit]);
    assert!(matches!(cs.read(), Command::Nop));
    assert!(matches!(cs.read(), Command::Quit));
    assert!(matches!(cs.read(), Command::Nop));
    assert!(matches!(cs.read(), Command::Nop));
}

#[test]
fn test_dispatch_actions() {
    let mut canvas = Canvas::new(app_test_image());
    let mut palette = Palette::default();

    assert_eq!(
        apply_command(&mut canvas, &mut palette, &Command::Nop),
        AppAction::Continue
    );
    assert_eq!(
        apply_command(&mut canvas, &mut palette, &Command::Save),
        AppAction::Save
    );
    assert_eq!(
        apply_command(
            &mut canvas,
            &mut palette,
            &Command::SaveAs(String::from("out.png"))
        ),
        AppAction::SaveAs(String::from("out.png"))
    );
    assert_eq!(
        apply_command(&mut canvas, &mut palette, &Command::Quit),
        AppAction::Quit
    );

    assert_eq!(
        apply_command(
            &mut canvas,
            &mut palette,
            &Command::SetPalette(PaletteCellId::Id2, Rgb(9, 8, 7))
        ),
        AppAction::Continue
    );
    assert_eq!(palette.color(PaletteCellId::Id2), &Rgb(9, 8, 7));
}

/// Move to (4,1), paint with slot 0, save, and reopen: exactly that one
/// pixel changed.
#[test]
fn test_end_to_end_scenario() {
    let original = app_test_image();
    let mut canvas = Canvas::new(app_test_image());
    let mut palette = Palette::default();

    for _ in 0..4 {
        let act = apply_command(
            &mut canvas,
            &mut palette,
            &Command::Direction(Direction::Right),
        );
        assert_eq!(act, AppAction::Continue);
    }
    apply_command(
        &mut canvas,
        &mut palette,
        &Command::Direction(Direction::Down),
    );
    assert_eq!(canvas.cursor_coord(), (4, 1));

    let act = apply_command(
        &mut canvas,
        &mut palette,
        &Command::Palette(PaletteCellId::Id0),
    );
    assert_eq!(act, AppAction::Continue);
    assert_eq!(canvas.image().color_at(&(4, 1)), Rgb(0, 0, 0));

    let act = apply_command(&mut canvas, &mut palette, &Command::Save);
    assert_eq!(act, AppAction::Save);
    let bytes = canvas.encode().unwrap();

    let reopened = Image::from_png_bytes(String::from("00.png"), &bytes).unwrap();
    for y in 0..2usize {
        for x in 0..5usize {
            if (x, y) == (4, 1) {
                assert_eq!(reopened.color_at(&(x, y)), Rgb(0, 0, 0));
            } else {
                assert_eq!(reopened.color_at(&(x, y)), original.color_at(&(x, y)));
            }
        }
    }
}
