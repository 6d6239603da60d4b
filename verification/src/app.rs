use vstd::prelude::*;
use crate::command::{Command, Direction};
use crate::widget::canvas::{moved_cursor, Canvas};
use crate::widget::palette::Palette;

verus! {

/// What the application loop must do after one command was applied:
/// carry on, stop, or write the encoded image to disk.
#[derive(Clone, Eq, PartialEq, Debug)]
pub enum AppAction {
    Continue,
    Quit,
    Save,
    SaveAs(String),
}

/// Apply one command to the canvas and the palette: the dispatcher of
/// the application loop. All state changes happen here; quitting and the
/// file writes are handed back to the caller as the returned action.
pub fn apply_command(canvas: &mut Canvas, palette: &mut Palette, cmd: &Command) -> (act: AppAction)
    requires
        old(canvas).wf(),
    ensures
        final(canvas).wf(),
        match *cmd {
            Command::Quit => *final(canvas) == *old(canvas) && *final(palette) == *old(palette) && act
                == AppAction::Quit,
            Command::Nop => *final(canvas) == *old(canvas) && *final(palette) == *old(palette) && act
                == AppAction::Continue,
            Command::Direction(dir) => {
                &&& *final(palette) == *old(palette)
                &&& final(canvas).spec_image() == old(canvas).spec_image()
                &&& (final(canvas).spec_cursor().0 as int, final(canvas).spec_cursor().1 as int)
                    == moved_cursor(
                    (old(canvas).spec_cursor().0 as int, old(canvas).spec_cursor().1 as int),
                    dir,
                    old(canvas).spec_image().spec_width() as int,
                    old(canvas).spec_image().spec_height() as int,
                )
                &&& act == AppAction::Continue
            },
            Command::Palette(id) => {
                &&& *final(palette) == *old(palette)
                &&& final(canvas).spec_cursor() == old(canvas).spec_cursor()
                &&& final(canvas).spec_image().spec_width() == old(
                    canvas,
                ).spec_image().spec_width()
                &&& final(canvas).spec_image().spec_height() == old(
                    canvas,
                ).spec_image().spec_height()
                &&& final(canvas).spec_image().spec_path() == old(canvas).spec_image().spec_path()
                &&& final(canvas).spec_image().pixels_view() == old(
                    canvas,
                ).spec_image().pixels_view().update(
                    old(canvas).spec_cursor().1 * old(canvas).spec_image().spec_width() + old(
                        canvas,
                    ).spec_cursor().0,
                    old(palette).spec_color(id),
                )
                &&& act == AppAction::Continue
            },
            Command::SetPalette(id, rgb) => {
                &&& *final(canvas) == *old(canvas)
                &&& final(palette).cells_view() == old(palette).cells_view().update(
                    id.spec_index(),
                    rgb,
                )
                &&& act == AppAction::Continue
            },
            Command::Save => *final(canvas) == *old(canvas) && *final(palette) == *old(palette) && act
                == AppAction::Save,
            Command::SaveAs(ref path) => *final(canvas) == *old(canvas) && *final(palette) == *old(
                palette,
            ) && (act matches AppAction::SaveAs(p) && p@ == path@),
        },
{
    match cmd {
        Command::Quit => AppAction::Quit,
        Command::Nop => AppAction::Continue,
        Command::Direction(dir) => {
            canvas.move_cursor(*dir);
            AppAction::Continue
        },
        Command::Palette(id) => {
            let color = *palette.color(*id);
            canvas.paint(color);
            AppAction::Continue
        },
        Command::SetPalette(id, rgb) => {
            palette.set_color(*id, *rgb);
            AppAction::Continue
        },
        Command::Save => AppAction::Save,
        Command::SaveAs(path) => AppAction::SaveAs(path.clone()),
    }
}

} // verus!
