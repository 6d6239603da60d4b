use vstd::prelude::*;

verus! {

/// A 24-bit color: red, green and blue channels.
#[derive(Copy, Clone, Eq, PartialEq, Ord, PartialOrd, Hash, Debug, Structural)]
pub struct Rgb(pub u8, pub u8, pub u8);

impl Rgb {
    /// Channel-wise inverse of a color.
    pub open spec fn spec_opposite(self) -> Rgb {
        Rgb((255 - self.0) as u8, (255 - self.1) as u8, (255 - self.2) as u8)
    }

    /// Opposite color of self.
    pub fn opposite(&self) -> (r: Self)
        ensures
            r == self.spec_opposite(),
    {
        Rgb(255 - self.0, 255 - self.1, 255 - self.2)
    }
}

/// Errors of the image load and store paths.
#[derive(Copy, Clone, Eq, PartialEq, Structural, Debug)]
pub enum Error {
    /// Filesystem failure while reading or writing the file.
    IO,
    /// The PNG profile is not 8-bit RGB.
    UnsupportedImgType,
    /// The byte stream is not a decodable PNG.
    Decode,
    /// The pixel grid could not be encoded as PNG.
    Encode,
}

/// PNG color type code for RGB, as the PNG format defines it.
pub const PNG_COLOR_RGB: u8 = 2;

/// PNG bit depth code for eight bits per sample.
pub const PNG_DEPTH_EIGHT: u8 = 8;

/// One decoded PNG frame: dimensions, the profile codes from the file's
/// header, and the raw samples, row-major.
pub struct DecodedPng {
    pub width: u32,
    pub height: u32,
    /// Color type code as in the PNG header (RGB is `PNG_COLOR_RGB`).
    pub color_type: u8,
    /// Bit depth code as in the PNG header (8-bit is `PNG_DEPTH_EIGHT`).
    pub bit_depth: u8,
    pub data: Vec<u8>,
}

/// What decoding a PNG byte stream yields: `None` when the stream is
/// rejected, otherwise the width, height, color type code, bit depth code
/// and raw samples. Decoding an in-memory stream is a function of the
/// bytes alone.
pub uninterp spec fn png_decoded(bytes: Seq<u8>) -> Option<(nat, nat, u8, u8, Seq<u8>)>;

/// What encoding a frame of the given dimensions and raw RGB samples
/// yields: `None` when the encoder rejects it (for instance a zero
/// dimension), otherwise the PNG byte stream. Encoding is a function of
/// the arguments alone.
pub uninterp spec fn png_encoded(width: nat, height: nat, data: Seq<u8>) -> Option<Seq<u8>>;

#[verifier::external_type_specification]
#[verifier::external_body]
pub struct ExDecodingError(png::DecodingError);

#[verifier::external_type_specification]
#[verifier::external_body]
pub struct ExEncodingError(png::EncodingError);

/// Relies on png's `Decoder`/`Reader`: `next_frame` fills the buffer with
/// the decoded samples row-major, and `OutputInfo::buffer_size` (the
/// frame's line size times its height) is `3 * width * height` for an
/// 8-bit RGB frame.
#[verifier::external_body]
fn decode_png(bytes: &[u8]) -> (r: Result<DecodedPng, png::DecodingError>)
    ensures
        match r {
            Ok(d) => {
                &&& png_decoded(bytes@) == Some(
                    (d.width as nat, d.height as nat, d.color_type, d.bit_depth, d.data@),
                )
                &&& (d.color_type == PNG_COLOR_RGB && d.bit_depth == PNG_DEPTH_EIGHT
                    ==> d.data@.len() == d.width * d.height * 3)
            },
            Err(_) => png_decoded(bytes@) is None,
        },
{
    let decoder = png::Decoder::new(std::io::Cursor::new(bytes));
    let mut reader = decoder.read_info()?;
    let mut buf = vec![0u8; reader.output_buffer_size().unwrap_or(0)];
    let info = reader.next_frame(&mut buf)?;
    buf.truncate(info.buffer_size());
    Ok(DecodedPng {
        width: info.width,
        height: info.height,
        color_type: info.color_type as u8,
        bit_depth: info.bit_depth as u8,
        data: buf,
    })
}

/// Relies on png's `Encoder`: with color type RGB and bit depth eight it
/// writes a PNG stream holding the given samples, and fails rather than
/// panics on dimensions it rejects. PNG is a lossless format: where the
/// decoder accepts the produced stream at all (its default allocation
/// limits can refuse very large frames), it reads back exactly the frame
/// that was encoded.
#[verifier::external_body]
fn encode_png(width: u32, height: u32, data: &Vec<u8>) -> (r: Result<
    Vec<u8>,
    png::EncodingError,
>)
    requires
        data@.len() == width * height * 3,
    ensures
        match r {
            Ok(bytes) => png_encoded(width as nat, height as nat, data@) == Some(bytes@) && (
            png_decoded(bytes@) is Some ==> png_decoded(bytes@) == Some(
                (width as nat, height as nat, PNG_COLOR_RGB, PNG_DEPTH_EIGHT, data@),
            )),
            Err(_) => png_encoded(width as nat, height as nat, data@) is None,
        },
{
    let mut out: Vec<u8> = Vec::new();
    let mut encoder = png::Encoder::new(&mut out, width, height);
    encoder.set_color(png::ColorType::Rgb);
    encoder.set_depth(png::BitDepth::Eight);
    let mut writer = encoder.write_header()?;
    writer.write_image_data(data)?;
    writer.finish()?;
    Ok(out)
}

/// A width x height grid of colors, row-major, with the path the image
/// was loaded from (and will be saved to).
#[derive(Clone, PartialEq, Debug)]
pub struct Image {
    path: String,
    width: u32,
    height: u32,
    pixels: Vec<Rgb>,
}

impl Image {
    pub closed spec fn spec_width(&self) -> u32 {
        self.width
    }

    pub closed spec fn spec_height(&self) -> u32 {
        self.height
    }

    /// The stored grid, row-major.
    pub closed spec fn pixels_view(&self) -> Seq<Rgb> {
        self.pixels@
    }

    pub closed spec fn spec_path(&self) -> Seq<char> {
        self.path@
    }

    /// The grid holds exactly one color per coordinate.
    pub open spec fn wf(&self) -> bool {
        self.pixels_view().len() == self.spec_width() * self.spec_height()
    }

    /// The stored color at a coordinate, row-major.
    pub open spec fn spec_color_at(&self, x: int, y: int) -> Rgb {
        self.pixels_view()[y * self.spec_width() + x]
    }

    /// An image supplied in memory.
    pub fn new(path: String, width: u32, height: u32, pixels: Vec<Rgb>) -> (img: Image)
        requires
            pixels@.len() == width * height,
        ensures
            img.wf(),
            img.spec_width() == width,
            img.spec_height() == height,
            img.pixels_view() == pixels@,
            img.spec_path() == path@,
    {
        Image { path, width, height, pixels }
    }

    pub fn width(&self) -> (r: u32)
        ensures
            r == self.spec_width(),
    {
        self.width
    }

    pub fn height(&self) -> (r: u32)
        ensures
            r == self.spec_height(),
    {
        self.height
    }

    /// How many pixels the grid holds: `width * height` on a well-formed
    /// image.
    pub fn pixel_count(&self) -> (r: usize)
        ensures
            r == self.pixels_view().len(),
    {
        self.pixels.len()
    }

    /// The path the image will be saved to.
    pub fn path(&self) -> (r: &String)
        ensures
            r@ == self.spec_path(),
    {
        &self.path
    }

    /// Remember a new path for subsequent saves.
    pub fn set_path(&mut self, path: String)
        ensures
            final(self).spec_path() == path@,
            final(self).spec_width() == old(self).spec_width(),
            final(self).spec_height() == old(self).spec_height(),
            final(self).pixels_view() == old(self).pixels_view(),
    {
        self.path = path;
    }

    /// The stored color of the pixel at `coord`.
    pub fn color_at(&self, coord: &(usize, usize)) -> (c: Rgb)
        requires
            self.wf(),
            coord.0 < self.spec_width(),
            coord.1 < self.spec_height(),
        ensures
            c == self.spec_color_at(coord.0 as int, coord.1 as int),
    {
        let n = self.pixels.len();
        proof {
            lemma_row_major_index_in_range(
                self.spec_width() as int,
                self.spec_height() as int,
                coord.0 as int,
                coord.1 as int,
            );
            assert(coord.1 * self.spec_width() + coord.0 < n);
        }
        self.pixels[coord.1 * (self.width as usize) + coord.0]
    }

    /// Change color of the pixel at `coord` with `color`.
    pub fn paint(&mut self, color: Rgb, coord: &(usize, usize))
        requires
            old(self).wf(),
            coord.0 < old(self).spec_width(),
            coord.1 < old(self).spec_height(),
        ensures
            final(self).wf(),
            final(self).spec_width() == old(self).spec_width(),
            final(self).spec_height() == old(self).spec_height(),
            final(self).spec_path() == old(self).spec_path(),
            final(self).pixels_view() == old(self).pixels_view().update(
                coord.1 * old(self).spec_width() + coord.0,
                color,
            ),
    {
        let n = self.pixels.len();
        proof {
            lemma_row_major_index_in_range(
                self.spec_width() as int,
                self.spec_height() as int,
                coord.0 as int,
                coord.1 as int,
            );
            assert(coord.1 * self.spec_width() + coord.0 < n);
        }
        let idx = coord.1 * (self.width as usize) + coord.0;
        self.pixels.set(idx, color);
    }
}

/// The byte at position `i` of the row-major RGB byte stream of `pixels`.
pub open spec fn rgb_byte(pixels: Seq<Rgb>, i: int) -> u8 {
    let p = pixels[i / 3];
    if i % 3 == 0 {
        p.0
    } else if i % 3 == 1 {
        p.1
    } else {
        p.2
    }
}

/// The row-major RGB byte stream of a pixel sequence: three bytes per pixel.
pub open spec fn rgb_bytes(pixels: Seq<Rgb>) -> Seq<u8> {
    Seq::new(pixels.len() * 3, |i: int| rgb_byte(pixels, i))
}

/// The pixel sequence read from a row-major RGB byte stream.
pub open spec fn pixels_of_bytes(bytes: Seq<u8>) -> Seq<Rgb> {
    Seq::new(bytes.len() / 3, |i: int| Rgb(bytes[3 * i], bytes[3 * i + 1], bytes[3 * i + 2]))
}

/// Law: reading pixels back from the byte stream of a grid reproduces the
/// grid exactly.
pub proof fn lemma_pixels_bytes_round_trip(pixels: Seq<Rgb>)
    ensures
        pixels_of_bytes(rgb_bytes(pixels)) == pixels,
{
    let b = rgb_bytes(pixels);
    assert forall|i: int| 0 <= i < pixels.len() implies pixels_of_bytes(b)[i] == pixels[i] by {
        assert(b[3 * i] == rgb_byte(pixels, 3 * i));
        assert(b[3 * i + 1] == rgb_byte(pixels, 3 * i + 1));
        assert(b[3 * i + 2] == rgb_byte(pixels, 3 * i + 2));
        assert((3 * i) / 3 == i && (3 * i) % 3 == 0);
        assert((3 * i + 1) / 3 == i && (3 * i + 1) % 3 == 1);
        assert((3 * i + 2) / 3 == i && (3 * i + 2) % 3 == 2);
    }
    assert(pixels_of_bytes(b) =~= pixels);
}

/// Law: writing out the pixels read from a well-sized byte stream
/// reproduces the byte stream exactly.
pub proof fn lemma_bytes_pixels_round_trip(bytes: Seq<u8>)
    requires
        bytes.len() % 3 == 0,
    ensures
        rgb_bytes(pixels_of_bytes(bytes)) == bytes,
{
    let p = pixels_of_bytes(bytes);
    assert(p.len() == bytes.len() / 3);
    assert forall|i: int| 0 <= i < bytes.len() implies rgb_bytes(p)[i] == bytes[i] by {
        assert(rgb_bytes(p)[i] == rgb_byte(p, i));
        assert(0 <= i / 3 < p.len());
        assert(p[i / 3] == Rgb(bytes[3 * (i / 3)], bytes[3 * (i / 3) + 1], bytes[3 * (i / 3) + 2]));
        assert(3 * (i / 3) + i % 3 == i);
    }
    assert(rgb_bytes(p) =~= bytes);
}

/// Law (round trip): reopening a saved image reproduces the pixel grid
/// exactly. `encode` promises that its byte stream, wherever the decoder
/// accepts one, decodes to this grid's dimensions, profile and RGB byte
/// stream; `from_png_bytes` promises to reshape that frame with
/// `pixels_of_bytes`; this law closes the circle: the reshaped frame is
/// the original grid, pixel for pixel.
pub proof fn lemma_round_trip(img: Image)
    requires
        img.wf(),
    ensures
        pixels_of_bytes(rgb_bytes(img.pixels_view())) == img.pixels_view(),
{
    lemma_pixels_bytes_round_trip(img.pixels_view());
}

impl Image {
    /// An array containing a RGB sequence of the grid, row-major.
    pub fn rgb_vec(&self) -> (r: Vec<u8>)
        requires
            self.wf(),
        ensures
            r@ == rgb_bytes(self.pixels_view()),
    {
        let n = self.pixels.len();
        let mut out: Vec<u8> = Vec::new();
        let mut i: usize = 0;
        while i < n
            invariant
                i <= n,
                n == self.pixels_view().len(),
                out@.len() == 3 * i,
                forall|j: int| 0 <= j < out@.len() ==> out@[j] == rgb_byte(self.pixels_view(), j),
            decreases n - i,
        {
            let p = self.pixels[i];
            out.push(p.0);
            out.push(p.1);
            out.push(p.2);
            proof {
                assert((3 * i) / 3 == i && (3 * i) % 3 == 0);
                assert((3 * i + 1) / 3 == i && (3 * i + 1) % 3 == 1);
                assert((3 * i + 2) / 3 == i && (3 * i + 2) % 3 == 2);
            }
            i += 1;
        }
        proof {
            assert(out@ =~= rgb_bytes(self.pixels_view()));
        }
        out
    }

    /// Reshape one decoded PNG frame into the grid. Succeeds exactly when
    /// the frame's profile is 8-bit RGB; any other profile is rejected.
    /// The length premise is the decoder's own structural guarantee for
    /// that profile.
    pub fn from_decoded(path: String, d: DecodedPng) -> (r: Result<Image, Error>)
        requires
            d.color_type == PNG_COLOR_RGB && d.bit_depth == PNG_DEPTH_EIGHT ==> d.data@.len()
                == d.width * d.height * 3,
        ensures
            if d.color_type == PNG_COLOR_RGB && d.bit_depth == PNG_DEPTH_EIGHT {
                &&& r is Ok
                &&& r->Ok_0.wf()
                &&& r->Ok_0.spec_width() == d.width
                &&& r->Ok_0.spec_height() == d.height
                &&& r->Ok_0.pixels_view() == pixels_of_bytes(d.data@)
                &&& r->Ok_0.spec_path() == path@
            } else {
                r == Err::<Image, Error>(Error::UnsupportedImgType)
            },
    {
        if d.color_type != PNG_COLOR_RGB || d.bit_depth != PNG_DEPTH_EIGHT {
            return Err(Error::UnsupportedImgType);
        }
        let total = d.data.len();
        let npix = total / 3;
        let mut pixels: Vec<Rgb> = Vec::new();
        let mut i: usize = 0;
        while i < npix
            invariant
                i <= npix,
                npix == total / 3,
                total % 3 == 0,
                total == d.data@.len(),
                pixels@.len() == i,
                forall|j: int|
                    0 <= j < i ==> pixels@[j] == Rgb(
                        d.data@[3 * j],
                        d.data@[3 * j + 1],
                        d.data@[3 * j + 2],
                    ),
            decreases npix - i,
        {
            let base = 3 * i;
            pixels.push(Rgb(d.data[base], d.data[base + 1], d.data[base + 2]));
            i += 1;
        }
        proof {
            assert(pixels@ =~= pixels_of_bytes(d.data@));
            assert(d.width * d.height * 3 == (d.width * d.height) * 3) by (nonlinear_arith);
            assert(npix == d.width * d.height);
        }
        Ok(Image { path, width: d.width, height: d.height, pixels })
    }

    /// Decode a PNG byte stream into an image remembered under `path`.
    /// Returns the grid exactly when the stream decodes to an 8-bit RGB
    /// frame; an undecodable stream gives `Decode`, any other profile
    /// gives `UnsupportedImgType`.
    pub fn from_png_bytes(path: String, bytes: &Vec<u8>) -> (r: Result<Image, Error>)
        ensures
            match png_decoded(bytes@) {
                Option::None => r == Err::<Image, Error>(Error::Decode),
                Option::Some(d) => if d.2 == PNG_COLOR_RGB && d.3 == PNG_DEPTH_EIGHT {
                    &&& r is Ok
                    &&& r->Ok_0.wf()
                    &&& r->Ok_0.spec_width() == d.0
                    &&& r->Ok_0.spec_height() == d.1
                    &&& r->Ok_0.pixels_view() == pixels_of_bytes(d.4)
                    &&& r->Ok_0.spec_path() == path@
                } else {
                    r == Err::<Image, Error>(Error::UnsupportedImgType)
                },
            },
    {
        match decode_png(bytes.as_slice()) {
            Err(_) => Err(Error::Decode),
            Ok(d) => Image::from_decoded(path, d),
        }
    }

    /// Encode the grid back to an 8-bit RGB PNG byte stream, row-major.
    /// Where the decoder accepts the produced stream at all, it decodes
    /// back to exactly this grid's frame.
    pub fn encode(&self) -> (r: Result<Vec<u8>, Error>)
        requires
            self.wf(),
        ensures
            match png_encoded(
                self.spec_width() as nat,
                self.spec_height() as nat,
                rgb_bytes(self.pixels_view()),
            ) {
                Option::Some(bytes) => r is Ok && r->Ok_0@ == bytes && (png_decoded(bytes) is Some
                    ==> png_decoded(bytes) == Some(
                    (
                        self.spec_width() as nat,
                        self.spec_height() as nat,
                        PNG_COLOR_RGB,
                        PNG_DEPTH_EIGHT,
                        rgb_bytes(self.pixels_view()),
                    ),
                )),
                Option::None => r == Err::<Vec<u8>, Error>(Error::Encode),
            },
    {
        let data = self.rgb_vec();
        proof {
            assert(self.pixels_view().len() * 3 == self.spec_width() * self.spec_height() * 3)
                by (nonlinear_arith)
                requires
                    self.pixels_view().len() == self.spec_width() * self.spec_height(),
            ;
        }
        match encode_png(self.width, self.height, &data) {
            Ok(b) => Ok(b),
            Err(_) => Err(Error::Encode),
        }
    }
}

/// One on-screen cell of the grid's projection: the foreground and
/// background color of the glyph that shows one pixel.
#[derive(Copy, Clone, Eq, PartialEq, Structural, Debug)]
pub struct RenderCell {
    pub fg: Rgb,
    pub bg: Rgb,
}

/// A display projection of the grid, row-major: what the renderer draws.
pub struct RenderGrid {
    pub width: u32,
    pub height: u32,
    pub cells: Vec<RenderCell>,
}

impl Image {
    /// The display projection with the cursor overlay: every cell shows
    /// the stored color as both foreground and background, except that
    /// the cell under the cursor keeps the stored background and takes
    /// the channel-wise opposite foreground. The stored grid itself is
    /// left untouched: the projection is computed from a shared borrow.
    pub fn into_text_with_cursor(&self, cursor_coord: &(usize, usize)) -> (r: RenderGrid)
        requires
            self.wf(),
            cursor_coord.0 < self.spec_width(),
            cursor_coord.1 < self.spec_height(),
        ensures
            r.width == self.spec_width(),
            r.height == self.spec_height(),
            r.cells@.len() == self.pixels_view().len(),
            forall|i: int|
                0 <= i < r.cells@.len() && i != cursor_coord.1 * self.spec_width()
                    + cursor_coord.0 ==> r.cells@[i] == (RenderCell {
                    fg: self.pixels_view()[i],
                    bg: self.pixels_view()[i],
                }),
            r.cells@[cursor_coord.1 * self.spec_width() + cursor_coord.0] == (RenderCell {
                fg: self.pixels_view()[
                    cursor_coord.1 * self.spec_width() + cursor_coord.0
                ].spec_opposite(),
                bg: self.pixels_view()[cursor_coord.1 * self.spec_width() + cursor_coord.0],
            }),
    {
        let n = self.pixels.len();
        let mut cells: Vec<RenderCell> = Vec::new();
        let mut i: usize = 0;
        while i < n
            invariant
                i <= n,
                n == self.pixels_view().len(),
                cells@.len() == i,
                forall|j: int|
                    0 <= j < i ==> cells@[j] == (RenderCell {
                        fg: self.pixels_view()[j],
                        bg: self.pixels_view()[j],
                    }),
            decreases n - i,
        {
            let p = self.pixels[i];
            cells.push(RenderCell { fg: p, bg: p });
            i += 1;
        }
        proof {
            lemma_row_major_index_in_range(
                self.spec_width() as int,
                self.spec_height() as int,
                cursor_coord.0 as int,
                cursor_coord.1 as int,
            );
        }
        let cidx = cursor_coord.1 * (self.width as usize) + cursor_coord.0;
        let stored = cells[cidx].bg;
        cells.set(cidx, RenderCell { fg: stored.opposite(), bg: stored });
        RenderGrid { width: self.width, height: self.height, cells }
    }
}

/// A row-major index `y * width + x` with `x < width`, `y < height` lies
/// inside the grid.
pub proof fn lemma_row_major_index_in_range(width: int, height: int, x: int, y: int)
    requires
        0 <= x < width,
        0 <= y < height,
    ensures
        0 <= y * width + x < width * height,
{
    assert(y * width + x < width * height) by (nonlinear_arith)
        requires
            0 <= x < width,
            0 <= y < height,
    ;
    assert(0 <= y * width) by (nonlinear_arith)
        requires
            0 <= y,
            0 < width,
    ;
}

/// Law: distinct in-bounds coordinates have distinct row-major indexes,
/// so the cursor overlay's exception applies to exactly the cursor cell
/// and every other coordinate shows the stored color unchanged.
pub proof fn lemma_row_major_index_injective(
    width: int,
    height: int,
    x1: int,
    y1: int,
    x2: int,
    y2: int,
)
    requires
        0 <= x1 < width,
        0 <= y1 < height,
        0 <= x2 < width,
        0 <= y2 < height,
        y1 * width + x1 == y2 * width + x2,
    ensures
        x1 == x2 && y1 == y2,
{
    assert(y1 == y2) by (nonlinear_arith)
        requires
            0 <= x1 < width,
            0 <= x2 < width,
            y1 * width + x1 == y2 * width + x2,
    ;
}

} // verus!
