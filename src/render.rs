//! Rendering a symbol to raster, vector and text formats.

use vstd::prelude::*;
use vstd::string::*;
use crate::cli::{check_encode, spec_check_encode, OptionsError, OutputFormat, PngOptimizationLevel};
use crate::color::{is_css_hex, lemma_css_hex_form, Rgba};
use crate::layout::Layout;
use crate::symbol::{Symbol, SymbolVersion};
use crate::text::decimal;
use image::{ExtendedColorType, ImageEncoder};
use qrcode2::render::{pic, svg, unicode::Dense1x2, Renderer};
use qrcode2::types::Color as ModuleColor;
use yansi::Style;

verus! {

/// The most canvas cells a rendering may have: the renderers count cells,
/// and the canvas sides, in `u32`.
pub const MAX_CELLS: u64 = 0xffff_ffff;

/// The longest string, in characters, that may stand for one canvas cell.
pub const MAX_CELL_CHARS: usize = 256;

impl Symbol {
    /// The symbol on a canvas with the given quiet zone and module size.
    pub open spec fn layout(&self, margin: u32, module_size: u32) -> Layout {
        Layout {
            modules: self.modules@,
            width: self.width as int,
            height: self.height as int,
            margin: margin as int,
            module_size: module_size as int,
        }
    }
}

/// The canvas can be drawn: at least one cell per module, at most
/// `MAX_CELLS` cells in all, and four bytes per cell addressable.
pub open spec fn fits(l: Layout) -> bool {
    &&& l.module_size >= 1
    &&& l.canvas_width() * l.canvas_height() <= MAX_CELLS
    &&& l.canvas_width() * l.canvas_height() * 4 <= usize::MAX
}

/// The channels of each pixel of a raster image.
#[derive(Clone, Copy, Debug, PartialEq, Eq, Structural)]
pub enum PixelLayout {
    /// One gray level.
    Luma,
    /// Red, green and blue.
    Rgb,
    /// Red, green, blue and alpha.
    Rgba,
}

impl PixelLayout {
    /// The number of bytes per pixel.
    pub open spec fn spec_channels(self) -> nat {
        match self {
            PixelLayout::Luma => 1,
            PixelLayout::Rgb => 3,
            PixelLayout::Rgba => 4,
        }
    }

    /// The number of bytes per pixel.
    pub fn channels(self) -> (r: usize)
        ensures
            r == self.spec_channels(),
    {
        match self {
            PixelLayout::Luma => 1,
            PixelLayout::Rgb => 3,
            PixelLayout::Rgba => 4,
        }
    }
}

/// Channel `k` of a color: red, green, blue, then alpha.
pub open spec fn rgba_channel(c: Rgba, k: int) -> u8 {
    if k == 0 {
        c.red
    } else if k == 1 {
        c.green
    } else if k == 2 {
        c.blue
    } else {
        c.alpha
    }
}

/// The canvas as RGBA pixels, row by row.
pub open spec fn rgba_pixels(l: Layout, dark: Rgba, light: Rgba) -> Seq<u8> {
    let w = l.canvas_width();
    Seq::new(
        (w * l.canvas_height() * 4) as nat,
        |i: int|
            rgba_channel(
                if l.is_dark((i / 4) % w, (i / 4) / w) {
                    dark
                } else {
                    light
                },
                i % 4,
            ),
    )
}

/// RGBA pixels cut down to their first `k` channels.
pub open spec fn collapsed(px: Seq<u8>, k: int) -> Seq<u8> {
    Seq::new((px.len() / 4 * k) as nat, |i: int| px[(i / k) * 4 + i % k])
}

/// Relies on qrcode2's `Renderer` over string cells: each canvas cell is
/// written as the dark or the light string, rows separated by line breaks.
#[verifier::external_body]
fn render_cells(symbol: &Symbol, margin: u32, module_size: u32, dark: &str, light: &str) -> (r:
    String)
    requires
        symbol.wf(),
        fits(symbol.layout(margin, module_size)),
        dark@.len() <= MAX_CELL_CHARS,
        light@.len() <= MAX_CELL_CHARS,
    ensures
        r@ == symbol.layout(margin, module_size).text_image(dark@, light@),
{
    let c: Vec<ModuleColor> = symbol.modules.iter().map(|&d| if d { ModuleColor::Dark } else { ModuleColor::Light }).collect();
    Renderer::<&str>::new(&c, symbol.width, symbol.height, margin)
        .dark_color(dark)
        .light_color(light)
        .module_dimensions(module_size, module_size)
        .build()
}

/// Relies on qrcode2's `Renderer` over `Dense1x2`: two rows of cells per line,
/// each pair of stacked cells drawn as one half-block character.
#[verifier::external_body]
fn render_half_blocks(symbol: &Symbol, margin: u32, module_size: u32, dark_filled: bool) -> (r:
    String)
    requires
        symbol.wf(),
        fits(symbol.layout(margin, module_size)),
    ensures
        r@ == symbol.layout(margin, module_size).dense_image(dark_filled),
{
    let c: Vec<ModuleColor> = symbol.modules.iter().map(|&d| if d { ModuleColor::Dark } else { ModuleColor::Light }).collect();
    let (dark, light) = if dark_filled { (Dense1x2::Dark, Dense1x2::Light) } else { (Dense1x2::Light, Dense1x2::Dark) };
    Renderer::<Dense1x2>::new(&c, symbol.width, symbol.height, margin)
        .dark_color(dark)
        .light_color(light)
        .module_dimensions(module_size, module_size)
        .build()
}

/// Relies on qrcode2's `Renderer` over `image::Rgba<u8>`: the canvas as RGBA
/// pixels, row by row.
#[verifier::external_body]
fn render_rgba(symbol: &Symbol, margin: u32, module_size: u32, dark: Rgba, light: Rgba) -> (r: Vec<
    u8,
>)
    requires
        symbol.wf(),
        fits(symbol.layout(margin, module_size)),
    ensures
        r@ == rgba_pixels(symbol.layout(margin, module_size), dark, light),
{
    let c: Vec<ModuleColor> = symbol.modules.iter().map(|&d| if d { ModuleColor::Dark } else { ModuleColor::Light }).collect();
    Renderer::<image::Rgba<u8>>::new(&c, symbol.width, symbol.height, margin)
        .dark_color(image::Rgba([dark.red, dark.green, dark.blue, dark.alpha]))
        .light_color(image::Rgba([light.red, light.green, light.blue, light.alpha]))
        .module_dimensions(module_size, module_size)
        .build()
        .into_raw()
}

/// Relies on qrcode2's `Renderer` over `svg::Color`, which checks each color
/// with the CSS color parser (whose hex grammar takes `#` and 6 or 8 hex
/// digits), then writes a background path and one path of
/// squares.
#[verifier::external_body]
fn render_svg(symbol: &Symbol, margin: u32, module_size: u32, dark: &str, light: &str) -> (r:
    Option<String>)
    requires
        symbol.wf(),
        fits(symbol.layout(margin, module_size)),
        is_css_hex(dark@),
        is_css_hex(light@),
    ensures
        r is Some,
        r matches Some(s) ==> s@ == symbol.layout(margin, module_size).svg_image(dark@, light@),
{
    let c: Vec<ModuleColor> = symbol.modules.iter().map(|&d| if d { ModuleColor::Dark } else { ModuleColor::Light }).collect();
    Some(Renderer::<svg::Color<'_>>::new(&c, symbol.width, symbol.height, margin)
        .dark_color(svg::Color::new(dark).ok()?)
        .light_color(svg::Color::new(light).ok()?)
        .module_dimensions(module_size, module_size)
        .build())
}

/// Relies on qrcode2's `Renderer` over `pic::Color`: a header with the
/// canvas size, then one `p(left,top,width,height)` line per dark module.
#[verifier::external_body]
fn render_pic(symbol: &Symbol, margin: u32, module_size: u32) -> (r: String)
    requires
        symbol.wf(),
        fits(symbol.layout(margin, module_size)),
    ensures
        r@ == symbol.layout(margin, module_size).pic_image(),
{
    let c: Vec<ModuleColor> = symbol.modules.iter().map(|&d| if d { ModuleColor::Dark } else { ModuleColor::Light }).collect();
    Renderer::<pic::Color>::new(&c, symbol.width, symbol.height, margin)
        .module_dimensions(module_size, module_size)
        .build()
}

/// The raster codec's error, carried through as it is.
#[verifier::external_type_specification]
#[verifier::external_body]
pub struct ExImageError(image::ImageError);

/// The PNG optimizer's error, carried through as it is.
#[verifier::external_type_specification]
#[verifier::external_body]
pub struct ExPngError(oxipng::PngError);

/// The PNG file that the raster codec writes for the given pixels, or `None`
/// where it fails.
pub uninterp spec fn png_encoding(pixels: Seq<u8>, width: u32, height: u32, layout: PixelLayout) -> Option<Seq<u8>>;

/// Relies on `image::codecs::png::PngEncoder::write_image`, which panics
/// unless the buffer holds exactly one pixel per cell.
#[verifier::external_body]
fn encode_png(pixels: &Vec<u8>, width: u32, height: u32, layout: PixelLayout) -> (r: Result<Vec<u8>, image::ImageError>)
    requires
        pixels@.len() == width * height * layout.spec_channels(),
    ensures
        r is Ok <==> png_encoding(pixels@, width, height, layout) is Some,
        r matches Ok(b) ==> png_encoding(pixels@, width, height, layout) == Some(b@),
{
    let color = match layout {
        PixelLayout::Luma => ExtendedColorType::L8,
        PixelLayout::Rgb => ExtendedColorType::Rgb8,
        PixelLayout::Rgba => ExtendedColorType::Rgba8,
    };
    let mut out = Vec::new();
    image::codecs::png::PngEncoder::new(&mut out).write_image(pixels, width, height, color)?;
    Ok(out)
}

/// The PNG file that the optimizer makes of another at the given preset
/// level, with the given number of Zopfli iterations if any, or `None` where
/// it fails.
pub uninterp spec fn optimized_png(data: Seq<u8>, level: u8, zopfli: Option<u8>) -> Option<Seq<u8>>;

/// Relies on `oxipng::optimize_from_memory` with `Options::from_preset`, and
/// with the Zopfli deflater where iterations are given.
#[verifier::external_body]
fn optimize_png(data: &Vec<u8>, level: u8, zopfli: Option<u8>) -> (r: Result<Vec<u8>, oxipng::PngError>)
    requires
        level <= 6,
        zopfli != Some(0u8),
    ensures
        r is Ok <==> optimized_png(data@, level, zopfli) is Some,
        r matches Ok(b) ==> optimized_png(data@, level, zopfli) == Some(b@),
{
    let mut opts = oxipng::Options::from_preset(level);
    if let Some(n) = zopfli {
        let iteration_count = std::num::NonZeroU64::new(u64::from(n)).unwrap();
        opts.deflater = oxipng::Deflater::Zopfli(oxipng::ZopfliOptions { iteration_count, ..Default::default() });
    }
    oxipng::optimize_from_memory(data, &opts)
}

/// The index, below 16, of the basic or bright ANSI color nearest to a color.
pub uninterp spec fn ansi_index(red: u8, green: u8, blue: u8) -> u8;

/// Relies on `anstyle_lossy::rgb_to_ansi` with the default palette, which
/// returns one of the sixteen named colors.
#[verifier::external_body]
fn nearest_ansi(c: Rgba) -> (r: u8)
    ensures
        r == ansi_index(c.red, c.green, c.blue),
        r < 16,
{
    let rgb = anstyle::RgbColor(c.red, c.green, c.blue);
    anstyle_lossy::rgb_to_ansi(rgb, anstyle_lossy::palette::Palette::default()) as u8
}

/// The index of the xterm-256 palette entry nearest to a color.
pub uninterp spec fn xterm_index(red: u8, green: u8, blue: u8) -> u8;

/// Relies on `anstyle_lossy::rgb_to_xterm`.
#[verifier::external_body]
fn nearest_xterm(c: Rgba) -> (r: u8)
    ensures
        r == xterm_index(c.red, c.green, c.blue),
{
    anstyle_lossy::rgb_to_xterm(anstyle::RgbColor(c.red, c.green, c.blue)).index()
}

/// Two blanks on a background color with the given SGR parameters: the
/// style's escape sequence, the blanks, and the reset sequence.
pub open spec fn painted(code: Seq<char>) -> Seq<char> {
    seq!['\x1b', '['] + code + seq!['m', ' ', ' ', '\x1b', '[', '0', 'm']
}

/// The background SGR code of named color `index`: 40 to 47 for the basic
/// colors, 100 to 107 for the bright ones.
pub open spec fn ansi_background(index: u8) -> nat {
    if index < 8 {
        (40 + index) as nat
    } else {
        (92 + index) as nat
    }
}

/// The SGR parameters of a background of xterm-256 color `index`.
pub open spec fn fixed_code(index: u8) -> Seq<char> {
    "48;5;"@ + decimal(index as nat)
}

/// The SGR parameters of a 24-bit background color.
pub open spec fn rgb_code(c: Rgba) -> Seq<char> {
    "48;2;"@ + decimal(c.red as nat) + ";"@ + decimal(c.green as nat) + ";"@ + decimal(c.blue as nat)
}

/// Relies on anstyle's `Ansi256Color::into_ansi` (indices below 16 are the
/// named colors), `Style::render` and `Style::render_reset` for a background
/// of one of the sixteen named colors: `ESC[4Xm` or `ESC[10Xm`, then `ESC[0m`.
#[verifier::external_body]
fn paint_ansi(index: u8) -> (r: String)
    requires
        index < 16,
    ensures
        r@ == painted(decimal(ansi_background(index))),
{
    let ansi = anstyle::Ansi256Color(index).into_ansi().unwrap();
    let style = anstyle::Style::new().bg_color(Some(anstyle::Color::Ansi(ansi)));
    format!("{}  {}", style.render(), style.render_reset())
}

/// Relies on yansi's `Style::prefix` and `Style::suffix` for a background of
/// an xterm-256 color.
#[verifier::external_body]
fn paint_fixed(index: u8) -> (r: String)
    ensures
        r@ == painted(fixed_code(index)),
{
    let style = Style::new().bg(yansi::Color::Fixed(index));
    format!("{}  {}", style.prefix(), style.suffix())
}

/// Relies on yansi's `Style::prefix` and `Style::suffix` for a 24-bit
/// background color.
#[verifier::external_body]
fn paint_rgb(c: Rgba) -> (r: String)
    ensures
        r@ == painted(rgb_code(c)),
{
    let style = Style::new().bg(yansi::Color::Rgb(c.red, c.green, c.blue));
    format!("{}  {}", style.prefix(), style.suffix())
}

/// A number below 1000 has at most three digits.
proof fn lemma_decimal_len(n: nat)
    requires
        n < 1000,
    ensures
        decimal(n).len() <= 3,
{
    reveal_with_fuel(decimal, 3);
}

/// A painted cell with parameters of at most 16 characters fits the
/// renderer's cell limit.
proof fn lemma_painted_len(code: Seq<char>)
    requires
        code.len() <= 16,
    ensures
        painted(code).len() <= MAX_CELL_CHARS,
{
}

/// The parameters of every painted background are short.
proof fn lemma_codes_len(index: u8, c: Rgba)
    ensures
        decimal(ansi_background(index)).len() <= 16,
        fixed_code(index).len() <= 16,
        rgb_code(c).len() <= 16,
{
    reveal_strlit("48;5;");
    reveal_strlit("48;2;");
    reveal_strlit(";");
    lemma_decimal_len(ansi_background(index));
    lemma_decimal_len(index as nat);
    lemma_decimal_len(c.red as nat);
    lemma_decimal_len(c.green as nat);
    lemma_decimal_len(c.blue as nat);
}

/// A raster image: its size in pixels, the channels of each pixel, and the
/// pixels row by row.
#[derive(Clone, Debug)]
pub struct RasterImage {
    pub width: u32,
    pub height: u32,
    pub layout: PixelLayout,
    pub pixels: Vec<u8>,
}

/// Why a rendering was refused or failed.
#[derive(Debug)]
pub enum RenderError {
    /// The options do not go together.
    Options(OptionsError),
    /// Zopfli was asked for with no iterations.
    ZeroIterations,
    /// The canvas would have more than `MAX_CELLS` cells.
    TooLarge,
    /// The raster codec failed.
    Image(crate::exit::ImageErrorKind, image::ImageError),
    /// The PNG optimizer failed.
    Optimize(oxipng::PngError),
}

/// The module size used for a format: the one given, raised to at least 1,
/// else 1 for the text formats and 8 for the others.
pub open spec fn spec_module_size(format: OutputFormat, module_size: Option<u32>) -> u32 {
    match module_size {
        Some(s) => if s == 0 {
            1
        } else {
            s
        },
        None => if format.spec_is_text() {
            1
        } else {
            8
        },
    }
}

/// The quiet zone used for a symbol: the one given, else 2 modules for a
/// Micro symbol and 4 for any other.
pub open spec fn spec_margin(symbol: &Symbol, margin: Option<u32>) -> u32 {
    margin_for(symbol.version, margin)
}

/// The quiet zone used around a symbol of a version.
pub open spec fn margin_for(version: SymbolVersion, margin: Option<u32>) -> u32 {
    match margin {
        Some(m) => m,
        None => if version.spec_is_micro() {
            2
        } else {
            4
        },
    }
}

/// Resolves the module size for a format.
pub fn resolve_module_size(format: OutputFormat, module_size: Option<u32>) -> (r: u32)
    ensures
        r == spec_module_size(format, module_size),
        r >= 1,
{
    match module_size {
        Some(s) => if s == 0 {
            1
        } else {
            s
        },
        None => if format.is_text() {
            1
        } else {
            8
        },
    }
}

/// Resolves the quiet zone for a symbol.
pub fn resolve_margin(symbol: &Symbol, margin: Option<u32>) -> (r: u32)
    ensures
        r == spec_margin(symbol, margin),
        margin is None && symbol.version.spec_is_micro() ==> r == 2,
        margin is None && !symbol.version.spec_is_micro() ==> r == 4,
{
    match margin {
        Some(m) => m,
        None => if symbol.is_micro() {
            2
        } else {
            4
        },
    }
}

/// The canvas of a well-formed symbol that fits has sides of at least one
/// cell and at most `MAX_CELLS`.
proof fn lemma_fits_sides(l: Layout)
    requires
        fits(l),
        l.width >= 1,
        l.height >= 1,
        l.margin >= 0,
    ensures
        1 <= l.canvas_width() <= MAX_CELLS,
        1 <= l.canvas_height() <= MAX_CELLS,
{
    let a = l.width + 2 * l.margin;
    let b = l.height + 2 * l.margin;
    let m = l.module_size;
    assert(a * m >= 1 && b * m >= 1) by (nonlinear_arith)
        requires
            a >= 1,
            b >= 1,
            m >= 1,
    ;
    let cw = a * m;
    let ch = b * m;
    assert(cw <= cw * ch && ch <= cw * ch) by (nonlinear_arith)
        requires
            cw >= 1,
            ch >= 1,
    ;
}

/// Whether the canvas of a symbol fits.
pub fn check_fits(symbol: &Symbol, margin: u32, module_size: u32) -> (r: bool)
    requires
        symbol.wf(),
        module_size >= 1,
    ensures
        r == fits(symbol.layout(margin, module_size)),
{
    let ghost l = symbol.layout(margin, module_size);
    let side_w: u128 = symbol.width as u128 + 2 * (margin as u128);
    let side_h: u128 = symbol.height as u128 + 2 * (margin as u128);
    let m: u128 = module_size as u128;
    assert(side_w * m <= 0x4_0000_0000 * 0x1_0000_0000 && side_h * m <= 0x4_0000_0000 * 0x1_0000_0000
        && side_w * m >= 1 && side_h * m >= 1) by (nonlinear_arith)
        requires
            1 <= side_w <= 0x4_0000_0000,
            1 <= side_h <= 0x4_0000_0000,
            1 <= m <= 0x1_0000_0000,
    ;
    let cw = side_w * m;
    let ch = side_h * m;
    assert(l.canvas_width() == cw && l.canvas_height() == ch);
    if cw > MAX_CELLS as u128 || ch > MAX_CELLS as u128 {
        assert(cw * ch > MAX_CELLS) by (nonlinear_arith)
            requires
                cw >= 1,
                ch >= 1,
                cw > MAX_CELLS || ch > MAX_CELLS,
        ;
        return false;
    }
    assert(cw * ch <= MAX_CELLS * MAX_CELLS) by (nonlinear_arith)
        requires
            cw <= MAX_CELLS,
            ch <= MAX_CELLS,
    ;
    cw * ch <= MAX_CELLS as u128 && cw * ch * 4 <= usize::MAX as u128
}

/// The channels that a raster rendering keeps: one gray level for opaque
/// black on opaque white, red, green and blue for other opaque colors, and
/// alpha as well when either color is not opaque.
pub open spec fn spec_pixel_layout(dark: Rgba, light: Rgba) -> PixelLayout {
    if dark == Rgba::spec_black() && light == Rgba::spec_white() {
        PixelLayout::Luma
    } else if dark.alpha == 255 && light.alpha == 255 {
        PixelLayout::Rgb
    } else {
        PixelLayout::Rgba
    }
}

/// Chooses the channels of a raster rendering.
pub fn pixel_layout(dark: Rgba, light: Rgba) -> (r: PixelLayout)
    ensures
        r == spec_pixel_layout(dark, light),
{
    if dark == Rgba::black() && light == Rgba::white() {
        PixelLayout::Luma
    } else if dark.alpha == 255 && light.alpha == 255 {
        PixelLayout::Rgb
    } else {
        PixelLayout::Rgba
    }
}

/// Keeps the first `k` channels of each RGBA pixel.
pub fn collapse(px: &Vec<u8>, k: usize) -> (r: Vec<u8>)
    requires
        px@.len() % 4 == 0,
        1 <= k <= 4,
    ensures
        r@ == collapsed(px@, k as int),
{
    let n = px.len() / 4;
    assert(n * k <= 4 * n) by (nonlinear_arith)
        requires
            k <= 4,
    ;
    let total = n * k;
    let mut out: Vec<u8> = Vec::new();
    let mut i: usize = 0;
    while i < total
        invariant
            n == px@.len() / 4,
            total == n * k,
            1 <= k <= 4,
            px@.len() % 4 == 0,
            px@.len() <= usize::MAX,
            i <= total,
            out@.len() == i,
            forall|j: int| 0 <= j < i ==> out@[j] == px@[(j / k as int) * 4 + j % k as int],
        decreases total - i,
    {
        let p = i / k;
        let c = i % k;
        assert(p < n && c < k) by (nonlinear_arith)
            requires
                i < n * k,
                1 <= k <= 4,
                p == i / k,
                c == i % k,
        ;
        assert(4 * n == px@.len());
        assert(p * 4 + c < px@.len());
        out.push(px[p * 4 + c]);
        i += 1;
    }
    assert(out@ =~= collapsed(px@, k as int));
    out
}

/// The two-character strings that draw dark and light modules in ASCII:
/// `##` for dark and two blanks for light, swapped when inverted.
pub open spec fn ascii_cells(invert: bool) -> (Seq<char>, Seq<char>) {
    if invert {
        (seq![' ', ' '], seq!['#', '#'])
    } else {
        (seq!['#', '#'], seq![' ', ' '])
    }
}

/// Appends a line break.
fn push_newline(s: &mut String)
    ensures
        final(s)@ == old(s)@ + seq!['\n'],
{
    s.append("\n");
    proof {
        reveal_strlit("\n");
    }
}

/// Renders the symbol into an image: opaque black on opaque white as gray
/// levels, other opaque colors as RGB, anything else as RGBA.
pub fn to_image(symbol: &Symbol, margin: u32, colors: &(Rgba, Rgba), module_size: Option<u32>) -> (r:
    RasterImage)
    requires
        symbol.wf(),
        fits(symbol.layout(margin, spec_module_size(OutputFormat::Png, module_size))),
    ensures
        ({
            let l = symbol.layout(margin, spec_module_size(OutputFormat::Png, module_size));
            let layout = spec_pixel_layout(colors.0, colors.1);
            &&& r.width == l.canvas_width()
            &&& r.height == l.canvas_height()
            &&& r.layout == layout
            &&& r.pixels@ == collapsed(rgba_pixels(l, colors.0, colors.1), layout.spec_channels() as int)
        }),
{
    let size = resolve_module_size(OutputFormat::Png, module_size);
    let ghost l = symbol.layout(margin, size);
    proof {
        lemma_fits_sides(l);
    }
    let rgba = render_rgba(symbol, margin, size, colors.0, colors.1);
    let layout = pixel_layout(colors.0, colors.1);
    let pixels = collapse(&rgba, layout.channels());
    let width = ((symbol.width as u64 + 2 * (margin as u64)) * (size as u64)) as u32;
    let height = ((symbol.height as u64 + 2 * (margin as u64)) * (size as u64)) as u32;
    RasterImage { width, height, layout, pixels }
}

/// The PNG file of a raster image, as the raster codec writes it.
pub fn to_png(image: &RasterImage) -> (r: Result<Vec<u8>, RenderError>)
    requires
        image.pixels@.len() == image.width * image.height * image.layout.spec_channels(),
    ensures
        r is Ok <==> png_encoding(image.pixels@, image.width, image.height, image.layout) is Some,
        r matches Ok(b) ==> png_encoding(image.pixels@, image.width, image.height, image.layout)
            == Some(b@),
{
    match encode_png(&image.pixels, image.width, image.height, image.layout) {
        Ok(b) => Ok(b),
        Err(e) => Err(RenderError::Image(crate::exit::image_error_kind(&e), e)),
    }
}

/// Renders the symbol into SVG, followed by a line break. Colors are written
/// in CSS hexadecimal notation.
pub fn to_svg(symbol: &Symbol, margin: u32, colors: &(Rgba, Rgba), module_size: Option<u32>) -> (r:
    String)
    requires
        symbol.wf(),
        fits(symbol.layout(margin, spec_module_size(OutputFormat::Svg, module_size))),
    ensures
        r@ == symbol.layout(margin, spec_module_size(OutputFormat::Svg, module_size)).svg_image(
            colors.0.spec_css_hex(),
            colors.1.spec_css_hex(),
        ) + seq!['\n'],
{
    let size = resolve_module_size(OutputFormat::Svg, module_size);
    let dark = colors.0.to_css_hex();
    let light = colors.1.to_css_hex();
    proof {
        lemma_css_hex_form(colors.0);
        lemma_css_hex_form(colors.1);
    }
    let mut s = render_svg(symbol, margin, size, dark.as_str(), light.as_str()).unwrap();
    push_newline(&mut s);
    s
}

/// Renders the symbol into PIC, followed by a line break.
pub fn to_pic(symbol: &Symbol, margin: u32, module_size: Option<u32>) -> (r: String)
    requires
        symbol.wf(),
        fits(symbol.layout(margin, spec_module_size(OutputFormat::Pic, module_size))),
    ensures
        r@ == symbol.layout(margin, spec_module_size(OutputFormat::Pic, module_size)).pic_image() + seq![
            '\n',
        ],
{
    let size = resolve_module_size(OutputFormat::Pic, module_size);
    let mut s = render_pic(symbol, margin, size);
    push_newline(&mut s);
    s
}

/// Renders the symbol for the terminal with 4-bit ANSI escape sequences:
/// each color becomes the nearest of the sixteen named colors, one painted
/// cell per canvas cell.
pub fn to_ansi(symbol: &Symbol, margin: u32, colors: &(Rgba, Rgba), module_size: Option<u32>) -> (r:
    String)
    requires
        symbol.wf(),
        fits(symbol.layout(margin, spec_module_size(OutputFormat::Ansi, module_size))),
    ensures
        ansi_index(colors.0.red, colors.0.green, colors.0.blue) < 16,
        ansi_index(colors.1.red, colors.1.green, colors.1.blue) < 16,
        r@ == symbol.layout(margin, spec_module_size(OutputFormat::Ansi, module_size)).text_image(
            painted(terminal_code(OutputFormat::Ansi, colors.0)),
            painted(terminal_code(OutputFormat::Ansi, colors.1)),
        ) + seq!['\n'],
{
    let size = resolve_module_size(OutputFormat::Ansi, module_size);
    let dark_index = nearest_ansi(colors.0);
    let light_index = nearest_ansi(colors.1);
    let dark = paint_ansi(dark_index);
    let light = paint_ansi(light_index);
    proof {
        lemma_codes_len(dark_index, colors.0);
        lemma_codes_len(light_index, colors.1);
        lemma_painted_len(decimal(ansi_background(dark_index)));
        lemma_painted_len(decimal(ansi_background(light_index)));
    }
    let mut s = render_cells(symbol, margin, size, dark.as_str(), light.as_str());
    push_newline(&mut s);
    s
}

/// Renders the symbol for the terminal with 8-bit ANSI escape sequences:
/// each color becomes the nearest entry of the xterm-256 palette, one
/// painted cell per canvas cell.
pub fn to_ansi_256(symbol: &Symbol, margin: u32, colors: &(Rgba, Rgba), module_size: Option<u32>) -> (r:
    String)
    requires
        symbol.wf(),
        fits(symbol.layout(margin, spec_module_size(OutputFormat::Ansi256, module_size))),
    ensures
        r@ == symbol.layout(margin, spec_module_size(OutputFormat::Ansi256, module_size)).text_image(
            painted(terminal_code(OutputFormat::Ansi256, colors.0)),
            painted(terminal_code(OutputFormat::Ansi256, colors.1)),
        ) + seq!['\n'],
{
    let size = resolve_module_size(OutputFormat::Ansi256, module_size);
    let dark_index = nearest_xterm(colors.0);
    let light_index = nearest_xterm(colors.1);
    let dark = paint_fixed(dark_index);
    let light = paint_fixed(light_index);
    proof {
        lemma_codes_len(dark_index, colors.0);
        lemma_codes_len(light_index, colors.1);
        lemma_painted_len(fixed_code(dark_index));
        lemma_painted_len(fixed_code(light_index));
    }
    let mut s = render_cells(symbol, margin, size, dark.as_str(), light.as_str());
    push_newline(&mut s);
    s
}

/// Renders the symbol for the terminal with 24-bit ANSI escape sequences,
/// one painted cell per canvas cell.
pub fn to_ansi_true_color(
    symbol: &Symbol,
    margin: u32,
    colors: &(Rgba, Rgba),
    module_size: Option<u32>,
) -> (r: String)
    requires
        symbol.wf(),
        fits(symbol.layout(margin, spec_module_size(OutputFormat::AnsiTrueColor, module_size))),
    ensures
        r@ == symbol.layout(
                    margin,
                    spec_module_size(OutputFormat::AnsiTrueColor, module_size),
                ).text_image(
            painted(terminal_code(OutputFormat::AnsiTrueColor, colors.0)),
            painted(terminal_code(OutputFormat::AnsiTrueColor, colors.1)),
        ) + seq!['\n'],
{
    let size = resolve_module_size(OutputFormat::AnsiTrueColor, module_size);
    let dark = paint_rgb(colors.0);
    let light = paint_rgb(colors.1);
    proof {
        lemma_codes_len(0, colors.0);
        lemma_codes_len(0, colors.1);
        lemma_painted_len(rgb_code(colors.0));
        lemma_painted_len(rgb_code(colors.1));
    }
    let mut s = render_cells(symbol, margin, size, dark.as_str(), light.as_str());
    push_newline(&mut s);
    s
}

/// Renders the symbol as ASCII text: `##` per dark module and two blanks per
/// light one, swapped when inverted; a line break after each row.
pub fn to_ascii(symbol: &Symbol, margin: u32, module_size: Option<u32>, invert: bool) -> (r: String)
    requires
        symbol.wf(),
        fits(symbol.layout(margin, spec_module_size(OutputFormat::Ascii, module_size))),
    ensures
        r@ == symbol.layout(margin, spec_module_size(OutputFormat::Ascii, module_size)).text_image(
            ascii_cells(invert).0,
            ascii_cells(invert).1,
        ) + seq!['\n'],
{
    let size = resolve_module_size(OutputFormat::Ascii, module_size);
    proof {
        reveal_strlit("##");
        reveal_strlit("  ");
    }
    assert("##"@ =~= seq!['#', '#']);
    assert("  "@ =~= seq![' ', ' ']);
    let mut s = if invert {
        render_cells(symbol, margin, size, "  ", "##")
    } else {
        render_cells(symbol, margin, size, "##", "  ")
    };
    push_newline(&mut s);
    s
}

/// Renders the symbol as Unicode half blocks, two rows of cells per line. By
/// default light modules are drawn filled, for dark terminals; inverted, dark
/// modules are.
pub fn to_unicode(symbol: &Symbol, margin: u32, module_size: Option<u32>, invert: bool) -> (r: String)
    requires
        symbol.wf(),
        fits(symbol.layout(margin, spec_module_size(OutputFormat::Unicode, module_size))),
    ensures
        r@ == symbol.layout(margin, spec_module_size(OutputFormat::Unicode, module_size)).dense_image(invert)
            + seq!['\n'],
{
    let size = resolve_module_size(OutputFormat::Unicode, module_size);
    let mut s = render_half_blocks(symbol, margin, size, invert);
    push_newline(&mut s);
    s
}

/// What to render: the format, the optional margin and module size, the
/// dark and light colors, and the optional PNG optimization.
#[derive(Clone, Copy, Debug)]
pub struct RenderRequest {
    pub format: OutputFormat,
    pub margin: Option<u32>,
    pub module_size: Option<u32>,
    pub colors: (Rgba, Rgba),
    pub optimize_png: Option<PngOptimizationLevel>,
    /// Zopfli iterations for the PNG optimization.
    pub zopfli: Option<u8>,
}

/// A rendering: bytes for raster formats, text for the others.
#[derive(Debug)]
pub enum Output {
    Bytes(Vec<u8>),
    Text(String),
}

/// A rendering, in contracts.
pub enum OutputView {
    Bytes(Seq<u8>),
    Text(Seq<char>),
}

impl View for Output {
    type V = OutputView;

    open spec fn view(&self) -> OutputView {
        match self {
            Output::Bytes(b) => OutputView::Bytes(b@),
            Output::Text(t) => OutputView::Text(t@),
        }
    }
}

/// A symbol in contracts: width, height, modules row by row (`true` for
/// dark) and version.
pub open spec fn symbol_view(symbol: &Symbol) -> (usize, usize, Seq<bool>, SymbolVersion) {
    (symbol.width, symbol.height, symbol.modules@, symbol.version)
}

impl RenderRequest {
    /// The canvas that the request puts a symbol on.
    pub open spec fn grid_layout(&self, g: (usize, usize, Seq<bool>, SymbolVersion)) -> Layout {
        Layout {
            modules: g.2,
            width: g.0 as int,
            height: g.1 as int,
            margin: margin_for(g.3, self.margin) as int,
            module_size: spec_module_size(self.format, self.module_size) as int,
        }
    }

    /// The canvas that the request puts the symbol on.
    pub open spec fn spec_layout(&self, symbol: &Symbol) -> Layout {
        self.grid_layout(symbol_view(symbol))
    }

    /// The request is refused before anything is drawn: its options do not go
    /// together, Zopfli is asked for with no iterations, or the canvas does
    /// not fit.
    pub open spec fn grid_refused(&self, g: (usize, usize, Seq<bool>, SymbolVersion)) -> bool {
        ||| spec_check_encode(self.format, self.optimize_png is Some, self.colors.0, self.colors.1) is Err
        ||| self.zopfli == Some(0u8)
        ||| !fits(self.grid_layout(g))
    }

    /// The request is refused before anything is drawn.
    pub open spec fn spec_refused(&self, symbol: &Symbol) -> bool {
        self.grid_refused(symbol_view(symbol))
    }
}

/// The PNG file of a rendering, optimized where asked; `None` where the
/// codec or the optimizer fails.
pub open spec fn png_output(l: Layout, q: &RenderRequest) -> Option<OutputView> {
    let layout = spec_pixel_layout(q.colors.0, q.colors.1);
    let px = collapsed(rgba_pixels(l, q.colors.0, q.colors.1), layout.spec_channels() as int);
    match png_encoding(px, l.canvas_width() as u32, l.canvas_height() as u32, layout) {
        None => None,
        Some(p) => match q.optimize_png {
            None => Some(OutputView::Bytes(p)),
            Some(level) => match optimized_png(p, level.spec_number(), q.zopfli) {
                None => None,
                Some(o) => Some(OutputView::Bytes(o)),
            },
        },
    }
}

/// The SGR parameters that a terminal format paints a color with.
pub open spec fn terminal_code(format: OutputFormat, c: Rgba) -> Seq<char> {
    match format {
        OutputFormat::Ansi => decimal(ansi_background(ansi_index(c.red, c.green, c.blue))),
        OutputFormat::Ansi256 => fixed_code(xterm_index(c.red, c.green, c.blue)),
        _ => rgb_code(c),
    }
}

/// What rendering the symbol as requested gives, `None` for a failure.
pub open spec fn spec_render(symbol: &Symbol, q: &RenderRequest) -> Option<OutputView> {
    render_grid(symbol_view(symbol), q)
}

/// What rendering a symbol, given as a grid, as requested gives.
pub open spec fn render_grid(g: (usize, usize, Seq<bool>, SymbolVersion), q: &RenderRequest) -> Option<OutputView> {
    let l = q.grid_layout(g);
    if q.grid_refused(g) {
        None
    } else {
        match q.format {
            OutputFormat::Png => png_output(l, q),
            OutputFormat::Svg => Some(
                OutputView::Text(
                    l.svg_image(q.colors.0.spec_css_hex(), q.colors.1.spec_css_hex()) + seq!['\n'],
                ),
            ),
            OutputFormat::Pic => Some(OutputView::Text(l.pic_image() + seq!['\n'])),
            OutputFormat::Ascii | OutputFormat::AsciiInvert => {
                let cells = ascii_cells(q.format.spec_is_invert());
                Some(OutputView::Text(l.text_image(cells.0, cells.1) + seq!['\n']))
            },
            OutputFormat::Unicode | OutputFormat::UnicodeInvert => Some(
                OutputView::Text(l.dense_image(q.format.spec_is_invert()) + seq!['\n']),
            ),
            _ => Some(
                OutputView::Text(
                    l.text_image(
                        painted(terminal_code(q.format, q.colors.0)),
                        painted(terminal_code(q.format, q.colors.1)),
                    ) + seq!['\n'],
                ),
            ),
        }
    }
}

/// `out` is what rendering the symbol as requested gives, `None` for a
/// failure.
pub open spec fn rendered(symbol: &Symbol, q: &RenderRequest, out: Option<OutputView>) -> bool {
    out == spec_render(symbol, q)
}

/// Renders a symbol as requested: validates the request, resolves the margin
/// and module size, and draws the symbol in the format asked for.
pub fn render(symbol: &Symbol, q: &RenderRequest) -> (r: Result<Output, RenderError>)
    requires
        symbol.wf(),
    ensures
        rendered(
            symbol,
            q,
            match r {
                Ok(o) => Some(o@),
                Err(_) => None,
            },
        ),
        spec_check_encode(q.format, q.optimize_png is Some, q.colors.0, q.colors.1) matches Err(k)
            ==> r matches Err(RenderError::Options(e)) && e == k,
        spec_check_encode(q.format, q.optimize_png is Some, q.colors.0, q.colors.1) is Ok && q.zopfli
            == Some(0u8) ==> r matches Err(RenderError::ZeroIterations),
        spec_check_encode(q.format, q.optimize_png is Some, q.colors.0, q.colors.1) is Ok && q.zopfli
            != Some(0u8) && !fits(q.spec_layout(symbol)) ==> r matches Err(RenderError::TooLarge),
        q.format == OutputFormat::Ansi && r is Ok ==> ansi_index(q.colors.0.red, q.colors.0.green, q.colors.0.blue) < 16
            && ansi_index(q.colors.1.red, q.colors.1.green, q.colors.1.blue) < 16,
{
    if let Err(k) = check_encode(q.format, q.optimize_png.is_some(), q.colors.0, q.colors.1) {
        return Err(RenderError::Options(k));
    }
    if let Some(0) = q.zopfli {
        return Err(RenderError::ZeroIterations);
    }
    let margin = resolve_margin(symbol, q.margin);
    let size = resolve_module_size(q.format, q.module_size);
    if !check_fits(symbol, margin, size) {
        return Err(RenderError::TooLarge);
    }
    let ghost l = symbol.layout(margin, size);
    proof {
        lemma_fits_sides(l);
    }
    match q.format {
        OutputFormat::Png => {
            let image = to_image(symbol, margin, &q.colors, Some(size));
            assert(image.pixels@.len() == image.width * image.height * image.layout.spec_channels());
            let png = match to_png(&image) {
                Ok(b) => b,
                Err(e) => return Err(e),
            };
            match q.optimize_png {
                None => Ok(Output::Bytes(png)),
                Some(level) => match optimize_png(&png, u8::from(level), q.zopfli) {
                    Ok(b) => Ok(Output::Bytes(b)),
                    Err(e) => Err(RenderError::Optimize(e)),
                },
            }
        },
        OutputFormat::Svg => Ok(Output::Text(to_svg(symbol, margin, &q.colors, Some(size)))),
        OutputFormat::Pic => Ok(Output::Text(to_pic(symbol, margin, Some(size)))),
        OutputFormat::Ansi => Ok(Output::Text(to_ansi(symbol, margin, &q.colors, Some(size)))),
        OutputFormat::Ansi256 => Ok(Output::Text(to_ansi_256(symbol, margin, &q.colors, Some(size)))),
        OutputFormat::AnsiTrueColor => Ok(
            Output::Text(to_ansi_true_color(symbol, margin, &q.colors, Some(size))),
        ),
        OutputFormat::Ascii | OutputFormat::AsciiInvert => Ok(
            Output::Text(to_ascii(symbol, margin, Some(size), q.format.is_invert())),
        ),
        OutputFormat::Unicode | OutputFormat::UnicodeInvert => Ok(
            Output::Text(to_unicode(symbol, margin, Some(size), q.format.is_invert())),
        ),
    }
}

/// A raster rendering keeps one channel for the default opaque black on
/// opaque white, three for any other pair of opaque colors, and four as soon
/// as either color is not opaque.
pub proof fn lemma_monochrome_collapse(dark: Rgba, light: Rgba)
    ensures
        dark == Rgba::spec_black() && light == Rgba::spec_white() ==> spec_pixel_layout(dark, light).spec_channels() == 1,
        !(dark == Rgba::spec_black() && light == Rgba::spec_white()) && dark.alpha == 255 && light.alpha == 255
            ==> spec_pixel_layout(dark, light).spec_channels() == 3,
        dark.alpha < 255 || light.alpha < 255 ==> spec_pixel_layout(dark, light).spec_channels() == 4,
{
}

/// Rendering the same symbol with the same request twice gives the same
/// result, byte for byte, in every format.
pub proof fn lemma_render_idempotent(
    symbol: &Symbol,
    q: &RenderRequest,
    first: Option<OutputView>,
    second: Option<OutputView>,
)
    requires
        rendered(symbol, q, first),
        rendered(symbol, q, second),
    ensures
        first == second,
{
}

} // verus!
