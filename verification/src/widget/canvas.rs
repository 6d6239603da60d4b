use vstd::prelude::*;
use crate::command::Direction;
use crate::image::{png_encoded, rgb_bytes, Image, RenderCell, RenderGrid, Rgb};

verus! {

/// Errors of the canvas save paths, wrapping the image's.
#[derive(Copy, Clone, Eq, PartialEq, Structural, Debug)]
pub enum Error {
    /// Error occurred while processing the image.
    Image(crate::image::Error),
}

/// A pixel buffer composed with a movable cursor, always clamped to the
/// buffer's bounds.
#[derive(PartialEq, Debug)]
pub struct Canvas {
    image: Image,
    cursor_coord: (usize, usize),
}

/// Where one clamped move takes the cursor: the chosen axis changes by
/// one and saturates into `[0, dimension)`; the other axis is kept.
pub open spec fn moved_cursor(cur: (int, int), dir: Direction, width: int, height: int) -> (
    int,
    int,
) {
    match dir {
        Direction::Up => (cur.0, if cur.1 == 0 { 0int } else { cur.1 - 1 }),
        Direction::Down => (cur.0, if cur.1 + 1 < height { cur.1 + 1 } else { height - 1 }),
        Direction::Left => (if cur.0 == 0 { 0int } else { cur.0 - 1 }, cur.1),
        Direction::Right => (if cur.0 + 1 < width { cur.0 + 1 } else { width - 1 }, cur.1),
    }
}

/// The cursor position after `n` repeated clamped moves in one direction.
pub open spec fn cursor_after_moves(
    cur: (int, int),
    dir: Direction,
    n: nat,
    width: int,
    height: int,
) -> (int, int)
    decreases n,
{
    if n == 0 {
        cur
    } else {
        moved_cursor(cursor_after_moves(cur, dir, (n - 1) as nat, width, height), dir, width, height)
    }
}

/// Law (clamped movement): from the origin, any number of moves left or
/// up leaves the cursor at the origin.
pub proof fn lemma_moves_at_origin_stay(dir: Direction, n: nat, width: int, height: int)
    requires
        dir == Direction::Left || dir == Direction::Up,
    ensures
        cursor_after_moves((0, 0), dir, n, width, height) == (0int, 0int),
    decreases n,
{
    if n > 0 {
        lemma_moves_at_origin_stay(dir, (n - 1) as nat, width, height);
    }
}

/// Law (clamped movement): from the origin, `n` moves right put the
/// cursor at column `n`, but never past the right edge; in particular any
/// `n >= width - 1` (such as `width + k`) lands exactly on the edge.
pub proof fn lemma_moves_right_clamped(n: nat, width: int, height: int)
    requires
        width > 0,
    ensures
        cursor_after_moves((0, 0), Direction::Right, n, width, height) == (
            if n < width - 1 {
                n as int
            } else {
                width - 1
            },
            0int,
        ),
    decreases n,
{
    if n > 0 {
        lemma_moves_right_clamped((n - 1) as nat, width, height);
    }
}

/// Law (clamped movement): from the origin, `n` moves down put the cursor
/// at row `n`, but never past the bottom edge; in particular any
/// `n >= height - 1` (such as `height + k`) lands exactly on the edge.
pub proof fn lemma_moves_down_clamped(n: nat, width: int, height: int)
    requires
        height > 0,
    ensures
        cursor_after_moves((0, 0), Direction::Down, n, width, height) == (
            0int,
            if n < height - 1 {
                n as int
            } else {
                height - 1
            },
        ),
    decreases n,
{
    if n > 0 {
        lemma_moves_down_clamped((n - 1) as nat, width, height);
    }
}

impl Canvas {
    pub closed spec fn spec_image(&self) -> Image {
        self.image
    }

    pub closed spec fn spec_cursor(&self) -> (usize, usize) {
        self.cursor_coord
    }

    /// The cursor always addresses a pixel of the owned image.
    pub open spec fn wf(&self) -> bool {
        &&& self.spec_image().wf()
        &&& self.spec_cursor().0 < self.spec_image().spec_width()
        &&& self.spec_cursor().1 < self.spec_image().spec_height()
    }

    /// A canvas over a freshly loaded image, with the cursor at the
    /// origin. The image must have at least one pixel for the cursor to
    /// address.
    pub fn new(image: Image) -> (c: Canvas)
        requires
            image.wf(),
            image.spec_width() > 0,
            image.spec_height() > 0,
        ensures
            c.wf(),
            c.spec_image() == image,
            c.spec_cursor() == (0usize, 0usize),
    {
        Canvas { image, cursor_coord: (0, 0) }
    }

    /// The cursor's current coordinate.
    pub fn cursor_coord(&self) -> (r: (usize, usize))
        ensures
            r == self.spec_cursor(),
    {
        self.cursor_coord
    }

    /// The owned image.
    pub fn image(&self) -> (r: &Image)
        ensures
            *r == self.spec_image(),
    {
        &self.image
    }

    /// Move the cursor's coordinate to specified direction.
    pub fn move_cursor(&mut self, dir: Direction)
        requires
            old(self).wf(),
        ensures
            final(self).wf(),
            final(self).spec_image() == old(self).spec_image(),
            (final(self).spec_cursor().0 as int, final(self).spec_cursor().1 as int)
                == moved_cursor(
                (old(self).spec_cursor().0 as int, old(self).spec_cursor().1 as int),
                dir,
                old(self).spec_image().spec_width() as int,
                old(self).spec_image().spec_height() as int,
            ),
    {
        match dir {
            Direction::Up => {
                let y = self.cursor_coord.1;
                self.cursor_coord = (self.cursor_coord.0, if y == 0 {
                    0
                } else {
                    y - 1
                });
            },
            Direction::Down => {
                let y = self.cursor_coord.1;
                let limit = self.image.height() as usize - 1;
                self.cursor_coord = (self.cursor_coord.0, if y < limit {
                    y + 1
                } else {
                    limit
                });
            },
            Direction::Left => {
                let x = self.cursor_coord.0;
                self.cursor_coord = (if x == 0 {
                    0
                } else {
                    x - 1
                }, self.cursor_coord.1);
            },
            Direction::Right => {
                let x = self.cursor_coord.0;
                let limit = self.image.width() as usize - 1;
                self.cursor_coord = (if x < limit {
                    x + 1
                } else {
                    limit
                }, self.cursor_coord.1);
            },
        }
    }

    /// Paint a pixel corresponding to the cursor's coordinate with the
    /// specified color.
    pub fn paint(&mut self, color: Rgb)
        requires
            old(self).wf(),
        ensures
            final(self).wf(),
            final(self).spec_cursor() == old(self).spec_cursor(),
            final(self).spec_image().spec_width() == old(self).spec_image().spec_width(),
            final(self).spec_image().spec_height() == old(self).spec_image().spec_height(),
            final(self).spec_image().spec_path() == old(self).spec_image().spec_path(),
            final(self).spec_image().pixels_view() == old(self).spec_image().pixels_view().update(
                old(self).spec_cursor().1 * old(self).spec_image().spec_width() + old(
                    self,
                ).spec_cursor().0,
                color,
            ),
    {
        self.image.paint(color, &self.cursor_coord);
    }

    /// The display projection of the owned image at the current cursor:
    /// every cell shows the stored color twice, except the cursor cell,
    /// whose foreground is the channel-wise opposite of its background.
    pub fn render_projection(&self) -> (r: RenderGrid)
        requires
            self.wf(),
        ensures
            r.width == self.spec_image().spec_width(),
            r.height == self.spec_image().spec_height(),
            r.cells@.len() == self.spec_image().pixels_view().len(),
            forall|i: int|
                0 <= i < r.cells@.len() && i != self.spec_cursor().1
                    * self.spec_image().spec_width() + self.spec_cursor().0 ==> r.cells@[i] == (
                RenderCell {
                    fg: self.spec_image().pixels_view()[i],
                    bg: self.spec_image().pixels_view()[i],
                }),
            r.cells@[
                self.spec_cursor().1 * self.spec_image().spec_width() + self.spec_cursor().0
            ] == (RenderCell {
                fg: self.spec_image().pixels_view()[
                    self.spec_cursor().1 * self.spec_image().spec_width() + self.spec_cursor().0
                ].spec_opposite(),
                bg: self.spec_image().pixels_view()[
                    self.spec_cursor().1 * self.spec_image().spec_width() + self.spec_cursor().0
                ],
            }),
    {
        self.image.into_text_with_cursor(&self.cursor_coord)
    }

    /// Encode the owned image for saving, wrapping the image's error.
    /// Where the decoder accepts the produced stream at all, it decodes
    /// back to exactly the owned grid's frame.
    pub fn encode(&self) -> (r: Result<Vec<u8>, Error>)
        requires
            self.wf(),
        ensures
            match png_encoded(
                self.spec_image().spec_width() as nat,
                self.spec_image().spec_height() as nat,
                rgb_bytes(self.spec_image().pixels_view()),
            ) {
                Option::Some(bytes) => r is Ok && r->Ok_0@ == bytes && (crate::image::png_decoded(
                    bytes,
                ) is Some ==> crate::image::png_decoded(bytes) == Some(
                    (
                        self.spec_image().spec_width() as nat,
                        self.spec_image().spec_height() as nat,
                        crate::image::PNG_COLOR_RGB,
                        crate::image::PNG_DEPTH_EIGHT,
                        rgb_bytes(self.spec_image().pixels_view()),
                    ),
                )),
                Option::None => r == Err::<Vec<u8>, Error>(Error::Image(
                    crate::image::Error::Encode,
                )),
            },
    {
        match self.image.encode() {
            Ok(b) => Ok(b),
            Err(e) => Err(Error::Image(e)),
        }
    }

    /// The path the owned image will be saved to.
    pub fn path(&self) -> (r: &String)
        ensures
            r@ == self.spec_image().spec_path(),
    {
        self.image.path()
    }

    /// Remember a new path for subsequent saves.
    pub fn set_path(&mut self, path: String)
        requires
            old(self).wf(),
        ensures
            final(self).wf(),
            final(self).spec_cursor() == old(self).spec_cursor(),
            final(self).spec_image().spec_path() == path@,
            final(self).spec_image().spec_width() == old(self).spec_image().spec_width(),
            final(self).spec_image().spec_height() == old(self).spec_image().spec_height(),
            final(self).spec_image().pixels_view() == old(self).spec_image().pixels_view(),
    {
        self.image.set_path(path);
    }
}

} // verus!
