//! The character grid: its construction from a decoded raster and its
//! serialization to text.

use crate::quantize::BRIGHTNESS_DEN;
use crate::quantize::brightness_num_spec;
use crate::quantize::brightness_to_index;
use crate::quantize::pixel_brightness;
use crate::quantize::quantize_spec;
use crate::raster::get_pixel;
use crate::raster::image_dims;
use crate::raster::image_pixels;
use vstd::prelude::*;

verus! {

/// The glyph that one pixel renders as: the charset entry selected by the
/// pixel's quantized brightness.
pub open spec fn cell_of(pix: (u8, u8, u8, u8), charset: Seq<char>) -> char {
    charset[quantize_spec(brightness_num_spec(pix), BRIGHTNESS_DEN as int, charset.len() as int)]
}

/// Row `y` of the grid that a row-major pixel sequence of width `w`
/// renders as.
pub open spec fn row_of(pixels: Seq<(u8, u8, u8, u8)>, w: int, y: int, charset: Seq<char>) -> Seq<
    char,
> {
    Seq::new(w as nat, |x: int| cell_of(pixels[y * w + x], charset))
}

/// The full `w x h` grid that a row-major pixel sequence renders as.
pub open spec fn grid_of(
    pixels: Seq<(u8, u8, u8, u8)>,
    w: int,
    h: int,
    charset: Seq<char>,
) -> Seq<Seq<char>> {
    Seq::new(h as nat, |y: int| row_of(pixels, w, y, charset))
}

/// The serialized form of a grid: each row's characters in order, each row
/// terminated by a newline, nothing else.
pub open spec fn text_of(rows: Seq<Seq<char>>) -> Seq<char>
    decreases rows.len(),
{
    if rows.len() == 0 {
        Seq::empty()
    } else {
        text_of(rows.drop_last()) + rows.last() + seq!['\n']
    }
}

/// The serialized length of a rectangular grid: each of the `rows.len()`
/// rows contributes its `w` characters and one newline, nothing else.
pub proof fn lemma_text_of_len(rows: Seq<Seq<char>>, w: int)
    requires
        forall|y: int| 0 <= y < rows.len() ==> (#[trigger] rows[y]).len() == w,
    ensures
        text_of(rows).len() == rows.len() * (w + 1),
    decreases rows.len(),
{
    if rows.len() == 0 {
        assert(rows.len() * (w + 1) == 0) by (nonlinear_arith)
            requires
                rows.len() == 0,
        ;
    } else {
        let n = rows.len() as int;
        lemma_text_of_len(rows.drop_last(), w);
        assert(rows.last().len() == w);
        assert((n - 1) * (w + 1) + w + 1 == n * (w + 1)) by (nonlinear_arith);
    }
}

/// Relies on `alloc::string::String::push`: appends one character.
#[verifier::external_body]
fn push_char(s: &mut String, c: char)
    ensures
        final(s)@ == old(s)@.push(c),
{
    s.push(c)
}

/// Decodes a charset string into its sequence of characters (codepoints,
/// not bytes), done once so that per-pixel lookup is by position.
pub fn charset_chars(s: &str) -> (r: Vec<char>)
    ensures
        r@ == s@,
{
    let n = s.unicode_len();
    let mut r: Vec<char> = Vec::new();
    let mut i: usize = 0;
    while i < n
        invariant
            i <= n,
            n == s@.len(),
            r@ == s@.take(i as int),
        decreases n - i,
    {
        let c = s.get_char(i);
        r.push(c);
        proof {
            assert(r@ =~= s@.take(i + 1));
        }
        i += 1;
    }
    proof {
        assert(r@ =~= s@);
    }
    r
}

/// A fully populated character grid: `dimensions` in character cells and
/// `height` rows of `width` single characters each, row-major.
pub struct AsciiImage {
    pub dimensions: (u32, u32),
    pub data: Vec<Vec<char>>,
}

impl AsciiImage {
    /// The grid's size in character cells: `(width, height)`.
    pub open spec fn dims_spec(self) -> (u32, u32) {
        self.dimensions
    }

    /// The grid's cells, row-major: `grid()[y][x]`.
    pub open spec fn grid(self) -> Seq<Seq<char>> {
        Seq::new(self.data@.len() as nat, |y: int| self.data@[y]@)
    }

    /// The shape invariant: exactly `height` rows, each of exactly
    /// `width` cells.
    pub open spec fn wf(self) -> bool {
        &&& self.grid().len() == self.dimensions.1
        &&& forall|y: int|
            0 <= y < self.grid().len() ==> (#[trigger] self.grid()[y]).len() == self.dimensions.0
    }

    /// Creates a grid of the given size with every cell set to the
    /// fallback glyph `'.'`.
    pub fn create_empty(dimensions: (u32, u32)) -> (r: Self)
        ensures
            r.wf(),
            r.dims_spec() == dimensions,
            forall|y: int, x: int|
                0 <= y < dimensions.1 && 0 <= x < dimensions.0 ==> r.grid()[y][x] == '.',
    {
        let w = dimensions.0;
        let h = dimensions.1;
        let mut data: Vec<Vec<char>> = Vec::new();
        let mut y: u32 = 0;
        while y < h
            invariant
                y <= h,
                data@.len() == y,
                forall|j: int|
                    0 <= j < y ==> (#[trigger] data@[j])@ =~= Seq::new(w as nat, |x: int| '.'),
            decreases h - y,
        {
            let mut row: Vec<char> = Vec::new();
            let mut x: u32 = 0;
            while x < w
                invariant
                    x <= w,
                    row@ =~= Seq::new(x as nat, |i: int| '.'),
                decreases w - x,
            {
                row.push('.');
                x += 1;
            }
            data.push(row);
            y += 1;
        }
        Self { dimensions, data }
    }

    /// Overwrites every cell from a raster of the same size: the pixel at
    /// `(x, y)` is sampled, quantized against the charset, and its glyph
    /// stored at `grid()[y][x]`.
    pub fn copy_from(&mut self, img: &image::DynamicImage, charset: &str)
        requires
            image_dims(*img) == old(self).dims_spec(),
            charset@.len() >= 1,
        ensures
            final(self).dims_spec() == old(self).dims_spec(),
            final(self).wf(),
            final(self).grid() == grid_of(
                image_pixels(*img),
                old(self).dims_spec().0 as int,
                old(self).dims_spec().1 as int,
                charset@,
            ),
    {
        let w = self.dimensions.0;
        let h = self.dimensions.1;
        let chars = charset_chars(charset);
        let num_chars = chars.len();
        let ghost pix = image_pixels(*img);
        let ghost cs = charset@;
        let mut data: Vec<Vec<char>> = Vec::new();
        let mut y: u32 = 0;
        while y < h
            invariant
                y <= h,
                chars@ == cs,
                num_chars == cs.len(),
                num_chars >= 1,
                image_dims(*img) == (w, h),
                pix == image_pixels(*img),
                data@.len() == y,
                forall|j: int| 0 <= j < y ==> (#[trigger] data@[j])@ =~= row_of(pix, w as int, j, cs),
            decreases h - y,
        {
            let mut row: Vec<char> = Vec::new();
            let mut x: u32 = 0;
            while x < w
                invariant
                    x <= w,
                    y < h,
                    chars@ == cs,
                    num_chars == cs.len(),
                    num_chars >= 1,
                    image_dims(*img) == (w, h),
                    pix == image_pixels(*img),
                    row@ =~= row_of(pix, w as int, y as int, cs).take(x as int),
                decreases w - x,
            {
                let p = get_pixel(img, x, y);
                let b = pixel_brightness(p);
                let idx = brightness_to_index(b, BRIGHTNESS_DEN, num_chars);
                row.push(chars[idx]);
                proof {
                    assert(row@ =~= row_of(pix, w as int, y as int, cs).take(x + 1));
                }
                x += 1;
            }
            proof {
                assert(row@ =~= row_of(pix, w as int, y as int, cs));
            }
            data.push(row);
            y += 1;
        }
        self.data = data;
        proof {
            assert forall|j: int| 0 <= j < h implies #[trigger] self.grid()[j] == grid_of(
                pix,
                w as int,
                h as int,
                cs,
            )[j] by {
                assert(self.grid()[j] =~= row_of(pix, w as int, j, cs));
            }
            assert(self.grid() =~= grid_of(pix, w as int, h as int, cs));
        }
    }

    /// Builds the grid of a raster's size and populates it from the
    /// raster in one pass.
    pub fn create_from(img: &image::DynamicImage, charset: &str) -> (r: Self)
        requires
            charset@.len() >= 1,
        ensures
            r.wf(),
            r.dims_spec() == image_dims(*img),
            r.grid() == grid_of(
                image_pixels(*img),
                image_dims(*img).0 as int,
                image_dims(*img).1 as int,
                charset@,
            ),
    {
        let d = crate::raster::dims(img);
        let mut ascii_img = Self::create_empty(d);
        ascii_img.copy_from(img, charset);
        ascii_img
    }

    /// Serializes the grid: `height` lines of `width` characters, each
    /// line terminated by a newline, with no separators or padding added.
    pub fn to_text(&self) -> (r: String)
        ensures
            r@ == text_of(self.grid()),
            self.wf() ==> r@.len() == self.dims_spec().1 * (self.dims_spec().0 + 1),
    {
        let mut s = String::new();
        let mut y: usize = 0;
        while y < self.data.len()
            invariant
                y <= self.data.len(),
                s@ == text_of(self.grid().take(y as int)),
            decreases self.data.len() - y,
        {
            let row = &self.data[y];
            let mut x: usize = 0;
            while x < row.len()
                invariant
                    x <= row.len(),
                    y < self.data.len(),
                    row == &self.data[y as int],
                    s@ == text_of(self.grid().take(y as int)) + row@.take(x as int),
                decreases row.len() - x,
            {
                let c = row[x];
                push_char(&mut s, c);
                proof {
                    assert(s@ =~= text_of(self.grid().take(y as int)) + row@.take(x + 1));
                }
                x += 1;
            }
            push_char(&mut s, '\n');
            proof {
                let g = self.grid();
                assert(g.take(y + 1).drop_last() =~= g.take(y as int));
                assert(g.take(y + 1).last() == row@);
                assert(row@.take(row@.len() as int) =~= row@);
                assert(s@ =~= text_of(g.take(y as int)) + row@ + seq!['\n']);
                assert(s@ == text_of(g.take(y + 1)));
            }
            y += 1;
        }
        proof {
            assert(self.grid().take(self.data@.len() as int) =~= self.grid());
            if self.wf() {
                lemma_text_of_len(self.grid(), self.dimensions.0 as int);
            }
        }
        s
    }
}

} // verus!
