use image2unicodeart::ascii::AsciiImage;
use image2unicodeart::geometry::SymbolRatio;
use image2unicodeart::params::ProgramParameters;
use image2unicodeart::render::render_image;

fn solid(w: u32, h: u32, px: [u8; 4]) -> image::DynamicImage {
    image::DynamicImage::ImageRgba8(image::RgbaImage::from_pixel(w, h, image::Rgba(px)))
}

fn params(width: Option<u32>, charset: &str) -> ProgramParameters {
    ProgramParameters {
        input_path: String::new(),
        output_path: None,
        output_width: width,
        symbol_aspect_ratio: SymbolRatio { num: 1, den: 2 },
        charset: String::from(charset),
    }
}

#[test]
fn serialization_shape() {
    // a 3x2 grid of one glyph serializes as exactly two newline-terminated rows
    let art = AsciiImage::create_from(&solid(3, 2, [255, 255, 255, 255]), "X");
    assert_eq!(art.to_text(), "XXX\nXXX\n");
}

#[test]
fn create_empty_fallback_glyph() {
    let art = AsciiImage::create_empty((3, 2));
    assert_eq!(art.to_text(), "...\n...\n");
}

#[test]
fn create_empty_degenerate_is_empty_text() {
    assert_eq!(AsciiImage::create_empty((0, 0)).to_text(), "");
    assert_eq!(AsciiImage::create_empty((5, 0)).to_text(), "");
}

#[test]
fn grid_shape() {
    let art = AsciiImage::create_from(&solid(4, 3, [0, 0, 0, 255]), " #");
    let text = art.to_text();
    let lines: Vec<&str> = text.split_terminator('\n').collect();
    assert_eq!(lines.len(), 3);
    for line in lines {
        assert_eq!(line.chars().count(), 4);
    }
}

#[test]
fn transparent_renders_darkest() {
    // full transparency at full luminance still picks the darkest glyph
    let art = AsciiImage::create_from(&solid(2, 1, [255, 255, 255, 0]), " #");
    assert_eq!(art.to_text(), "  \n");
}

#[test]
fn black_and_white_cells() {
    let art = AsciiImage::create_from(&solid(2, 2, [255, 255, 255, 255]), " #");
    assert_eq!(art.to_text(), "##\n##\n");
    let art = AsciiImage::create_from(&solid(2, 2, [0, 0, 0, 255]), " #");
    assert_eq!(art.to_text(), "  \n  \n");
}

#[test]
fn midtone_picks_inner_glyph() {
    // luma 128 opaque: 32640/65025 of full brightness, 4 glyphs -> index 2
    let art = AsciiImage::create_from(&solid(1, 1, [128, 128, 128, 255]), " .:#");
    assert_eq!(art.to_text(), ":\n");
}

#[test]
fn multibyte_charset_indexed_by_codepoint() {
    let art = AsciiImage::create_from(&solid(1, 1, [255, 255, 255, 255]), " ░▒▓█");
    assert_eq!(art.to_text(), "█\n");
}

#[test]
fn end_to_end_white_square() {
    // 2x2 solid white, 2 glyphs, requested width 2, default ratio 1/2:
    // the planner yields a 2x1 raster and every cell is the bright glyph
    let text = render_image(&solid(2, 2, [255, 255, 255, 255]), &params(Some(2), " #"));
    assert_eq!(text, "##\n");
}

#[test]
fn render_defaults_to_source_width() {
    let text = render_image(&solid(4, 2, [255, 255, 255, 255]), &params(None, " #"));
    // aspect 2.0: trunc(4 * 0.5 / 2.0) = 1 row of the source's own width
    assert_eq!(text, "####\n");
}

#[test]
fn degenerate_width_renders_empty() {
    let text = render_image(&solid(2, 2, [255, 255, 255, 255]), &params(Some(0), " #"));
    assert_eq!(text, "");
}

#[test]
fn degenerate_height_renders_empty() {
    // width 1 under aspect 2.0 truncates to height 0
    let text = render_image(&solid(4, 2, [255, 255, 255, 255]), &params(Some(1), " #"));
    assert_eq!(text, "");
}
