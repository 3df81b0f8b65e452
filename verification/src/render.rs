//! The full transform of one decoded raster into serialized art: plan the
//! target size, grayscale and resample, sample and quantize every cell,
//! serialize.

use crate::ascii::AsciiImage;
use crate::ascii::grid_of;
use crate::ascii::lemma_text_of_len;
use crate::ascii::text_of;
use crate::geometry::plan_dimensions;
use crate::geometry::plan_height_sat_spec;
use crate::params::ProgramParameters;
use crate::raster::dims;
use crate::raster::grayscale;
use crate::raster::image_dims;
use crate::raster::image_pixels;
use crate::raster::resize_exact;
use vstd::prelude::*;

verus! {

/// The grid width one render uses: the requested width, or the source's
/// own pixel width where none was requested.
pub open spec fn render_width_spec(orig_w: u32, output_width: Option<u32>) -> int {
    if output_width is Some {
        output_width->0 as int
    } else {
        orig_w as int
    }
}

/// The grid height one render uses: the planned height for the source's
/// aspect ratio under the configured symbol ratio.
pub open spec fn render_height_spec(img: image::DynamicImage, params: ProgramParameters) -> int {
    plan_height_sat_spec(
        image_dims(img).0 as int,
        image_dims(img).1 as int,
        render_width_spec(image_dims(img).0, params.output_width),
        params.symbol_aspect_ratio.num as int,
        params.symbol_aspect_ratio.den as int,
    )
}

/// Renders a decoded raster to text under the given parameters: the
/// source is grayscale-converted and resampled to the planned size, every
/// cell of the grid is the glyph of its pixel's quantized brightness, and
/// the grid is serialized as one newline-terminated line per row. A
/// degenerate plan (0 cells wide or 0 rows) yields empty text; so does a
/// degenerate source raster with no pixels.
pub fn render_image(img: &image::DynamicImage, params: &ProgramParameters) -> (text: String)
    requires
        params.wf(),
    ensures
        image_dims(*img).0 == 0 || image_dims(*img).1 == 0 ==> text@ == Seq::<char>::empty(),
        image_dims(*img).0 >= 1 && image_dims(*img).1 >= 1 ==> {
            let w = render_width_spec(image_dims(*img).0, params.output_width);
            let h = render_height_spec(*img, *params);
            &&& text@.len() == h * (w + 1)
            &&& h == 0 ==> text@ == Seq::<char>::empty()
            &&& exists|p: Seq<(u8, u8, u8, u8)>|
                #[trigger] p.len() == w * h && text@ == text_of(grid_of(p, w, h, params.charset@))
        },
{
    let d = dims(img);
    if d.0 == 0 || d.1 == 0 {
        return String::new();
    }
    let (w, h) = plan_dimensions(d.0, d.1, params.output_width, &params.symbol_aspect_ratio);
    let gray = grayscale(img);
    let resized = resize_exact(&gray, w, h);
    let art = AsciiImage::create_from(&resized, params.charset.as_str());
    let text = art.to_text();
    proof {
        let ghost p = image_pixels(resized);
        assert(p.len() == w * h);
        assert(text@ == text_of(grid_of(p, w as int, h as int, params.charset@)));
        assert forall|y: int| 0 <= y < h implies (#[trigger] grid_of(
            p,
            w as int,
            h as int,
            params.charset@,
        )[y]).len() == w by {}
        lemma_text_of_len(grid_of(p, w as int, h as int, params.charset@), w as int);
    }
    text
}

} // verus!
