//! Decoding: choosing the format of an input image, turning it into gray
//! levels, and reading the symbols found in it.

use vstd::prelude::*;
use crate::cli::{Ecc, InputFormat};
use crate::exit::{grid_error_kind, image_error_kind, svg_error_kind, GridErrorKind, ImageErrorKind, SvgErrorKind};
use crate::metadata::{self, Extractor, Metadata};
use image::ImageFormat as Raster;
use InputFormat as In;

verus! {

/// The vector parser's error.
#[verifier::external_type_specification]
#[verifier::external_body]
pub struct ExSvgError(resvg::usvg::Error);

/// The grid decoder's error.
#[verifier::external_type_specification]
#[verifier::external_body]
pub struct ExDeQRError(rqrr::DeQRError);

/// Why an input could not be decoded.
#[derive(Debug)]
pub enum DecodeError {
    /// No explicit format, no known extension and no recognized content.
    FormatUndetermined,
    /// The format has no raster decoder.
    UnsupportedFormat(InputFormat),
    /// The raster codec failed.
    Image(ImageErrorKind, image::ImageError),
    /// The vector document could not be parsed.
    Svg(SvgErrorKind, resvg::usvg::Error),
    /// The vector document could not be painted onto a canvas.
    Rasterize,
    /// A symbol could not be read.
    Grid(GridErrorKind, rqrr::DeQRError),
    /// A symbol reported an error correction level that does not exist.
    InvalidLevel(u16),
}

/// A gray-level image: one byte per pixel, row by row.
#[derive(Clone, Debug)]
pub struct LumaImage {
    pub width: u32,
    pub height: u32,
    pub pixels: Vec<u8>,
}

impl LumaImage {
    /// One byte per pixel.
    pub open spec fn wf(&self) -> bool {
        self.pixels@.len() == self.width * self.height
    }
}

/// The format chosen for an input: the explicit one, else the one its
/// extension names, else the one its content shows.
pub open spec fn spec_negotiate(
    explicit: Option<InputFormat>,
    by_extension: Option<InputFormat>,
    by_content: Option<InputFormat>,
) -> Option<InputFormat> {
    match explicit {
        Some(f) => Some(f),
        None => match by_extension {
            Some(f) => Some(f),
            None => by_content,
        },
    }
}

/// Chooses the format of an input, first match winning: the explicit
/// format, the extension, the content; fails when none of them gives one.
pub fn negotiate(
    explicit: Option<InputFormat>,
    by_extension: Option<InputFormat>,
    by_content: Option<InputFormat>,
) -> (r: Result<InputFormat, DecodeError>)
    ensures
        r is Ok <==> spec_negotiate(explicit, by_extension, by_content) is Some,
        r matches Ok(f) ==> spec_negotiate(explicit, by_extension, by_content) == Some(f),
        r is Err ==> r matches Err(DecodeError::FormatUndetermined),
{
    match explicit {
        Some(f) => Ok(f),
        None => match by_extension {
            Some(f) => Ok(f),
            None => match by_content {
                Some(f) => Ok(f),
                None => Err(DecodeError::FormatUndetermined),
            },
        },
    }
}

/// An explicit format wins over the extension and the content; with neither
/// an explicit format nor a known extension the content decides; with none
/// of the three the choice fails.
pub proof fn lemma_negotiation_precedence(
    explicit: Option<InputFormat>,
    by_extension: Option<InputFormat>,
    by_content: Option<InputFormat>,
)
    ensures
        explicit is Some ==> spec_negotiate(explicit, by_extension, by_content) == explicit,
        explicit is None && by_extension is None ==> spec_negotiate(explicit, by_extension, by_content)
            == by_content,
        explicit is None && by_extension is None && by_content is None ==> spec_negotiate(
            explicit,
            by_extension,
            by_content,
        ) is None,
{
}

/// The format that the raster codec reads from a file extension.
pub uninterp spec fn raster_extension_format(ext: Seq<char>) -> Option<InputFormat>;

/// Relies on `image::ImageFormat::from_extension`, read back into the
/// formats that this library knows.
#[verifier::external_body]
fn raster_format_from_extension(ext: &str) -> (r: Option<InputFormat>)
    ensures
        r == raster_extension_format(ext@),
{
    Some(match Raster::from_extension(ext)? {
        Raster::Bmp => In::Bmp, Raster::Dds => In::Dds, Raster::Farbfeld => In::Farbfeld,
        Raster::Gif => In::Gif, Raster::Hdr => In::Hdr, Raster::Ico => In::Ico,
        Raster::Jpeg => In::Jpeg, Raster::OpenExr => In::OpenExr, Raster::Png => In::Png,
        Raster::Pnm => In::Pnm, Raster::Qoi => In::Qoi, Raster::Tga => In::Tga,
        Raster::Tiff => In::Tiff, Raster::WebP => In::WebP,
        _ => return None,
    })
}

/// The extension of the vector format, or of its compressed form.
pub open spec fn is_svg_extension(ext: Seq<char>) -> bool {
    ext == seq!['s', 'v', 'g'] || ext == seq!['s', 'v', 'g', 'z']
}

/// The format that a file extension names.
pub open spec fn spec_extension_format(ext: Seq<char>) -> Option<InputFormat> {
    if is_svg_extension(ext) {
        Some(InputFormat::Svg)
    } else {
        raster_extension_format(ext)
    }
}

/// The format that a file extension names: `svg` and `svgz` for the vector
/// format, the raster codec's extensions for the others.
pub fn format_from_extension(ext: &str) -> (r: Option<InputFormat>)
    ensures
        r == spec_extension_format(ext@),
{
    if ext.unicode_len() == 3 || ext.unicode_len() == 4 {
        let svg = ext.get_char(0) == 's' && ext.get_char(1) == 'v' && ext.get_char(2) == 'g';
        let tail = ext.unicode_len() == 3 || ext.get_char(3) == 'z';
        if svg && tail {
            if ext.unicode_len() == 3 {
                assert(ext@ =~= seq!['s', 'v', 'g']);
            } else {
                assert(ext@ =~= seq!['s', 'v', 'g', 'z']);
            }
            return Some(InputFormat::Svg);
        }
    }
    assert(!is_svg_extension(ext@));
    raster_format_from_extension(ext)
}

/// The extension of the file name that ends a path: what follows its last
/// dot, where that dot is not the name's first character.
pub open spec fn spec_extension(path: Seq<char>) -> Option<Seq<char>> {
    let slash = last_index_of(path, '/', path.len() as int);
    let dot = last_index_of(path, '.', path.len() as int);
    if dot > slash + 1 {
        Some(path.subrange(dot + 1, path.len() as int))
    } else {
        None
    }
}

/// The last index below `end` that holds `c`, or -1.
pub open spec fn last_index_of(s: Seq<char>, c: char, end: int) -> int
    decreases end,
{
    if end <= 0 {
        -1
    } else if s[end - 1] == c {
        end - 1
    } else {
        last_index_of(s, c, end - 1)
    }
}

/// The last index below `end` of `c`, or `None`.
fn find_last(s: &str, c: char, end: usize) -> (r: Option<usize>)
    requires
        end <= s@.len(),
    ensures
        r matches Some(i) ==> i == last_index_of(s@, c, end as int) && i < end,
        r is None ==> last_index_of(s@, c, end as int) == -1,
    decreases end,
{
    if end == 0 {
        None
    } else if s.get_char(end - 1) == c {
        Some(end - 1)
    } else {
        find_last(s, c, end - 1)
    }
}

/// The extension of a `/`-separated path: what follows the last dot of the
/// text after its last `/`, where that dot is not the first character of
/// that text. Unlike `std::path::Path::extension`, this reads the text as it
/// stands: a trailing `/` leaves no name, and `..` gives an empty extension.
pub fn extension_of(path: &str) -> (r: Option<&str>)
    ensures
        r matches Some(e) ==> spec_extension(path@) == Some(e@),
        r is None ==> spec_extension(path@) is None,
{
    let n = path.unicode_len();
    let after_slash: usize = match find_last(path, '/', n) {
        Some(i) => i + 1,
        None => 0,
    };
    match find_last(path, '.', n) {
        Some(dot) => if dot > after_slash {
            Some(path.substring_char(dot + 1, n))
        } else {
            None
        },
        None => None,
    }
}

/// Whether the vector parser accepts some data as a document.
pub uninterp spec fn svg_content(data: Seq<u8>) -> bool;

/// Relies on `is_svg::is_svg`: the data parses as an SVG document, plain or
/// gzip-compressed.
#[verifier::external_body]
fn looks_like_svg(data: &[u8]) -> (r: bool)
    ensures
        r == svg_content(data@),
{
    is_svg::is_svg(data)
}

/// The raster format that the leading bytes of some data show.
pub uninterp spec fn magic_format(data: Seq<u8>) -> Option<InputFormat>;

/// Relies on `image::guess_format`, which reads the magic number, read back
/// into the formats that this library knows.
#[verifier::external_body]
fn guess_raster_format(data: &[u8]) -> (r: Option<InputFormat>)
    ensures
        r == magic_format(data@),
{
    Some(match image::guess_format(data).ok()? {
        Raster::Bmp => In::Bmp, Raster::Dds => In::Dds, Raster::Farbfeld => In::Farbfeld,
        Raster::Gif => In::Gif, Raster::Hdr => In::Hdr, Raster::Ico => In::Ico,
        Raster::Jpeg => In::Jpeg, Raster::OpenExr => In::OpenExr, Raster::Png => In::Png,
        Raster::Pnm => In::Pnm, Raster::Qoi => In::Qoi, Raster::Tga => In::Tga,
        Raster::Tiff => In::Tiff, Raster::WebP => In::WebP,
        _ => return None,
    })
}

/// The format that the content of some data shows: the vector format if it
/// parses as one, else the raster format of its magic number.
pub open spec fn spec_sniff(data: Seq<u8>) -> Option<InputFormat> {
    if svg_content(data) {
        Some(InputFormat::Svg)
    } else {
        magic_format(data)
    }
}

/// Determines a format from the content of some data.
pub fn sniff(data: &[u8]) -> (r: Option<InputFormat>)
    ensures
        r == spec_sniff(data@),
{
    if looks_like_svg(data) {
        Some(InputFormat::Svg)
    } else {
        guess_raster_format(data)
    }
}

/// The view of an optional string.
pub open spec fn opt_view(s: Option<&str>) -> Option<Seq<char>> {
    match s {
        Some(p) => Some(p@),
        None => None,
    }
}

/// The format of an input: the explicit one, else the one the extension of
/// its path names, else the one its content shows.
pub open spec fn spec_resolve_format(
    explicit: Option<InputFormat>,
    path: Option<Seq<char>>,
    data: Seq<u8>,
) -> Option<InputFormat> {
    let by_extension = match path {
        Some(p) => match spec_extension(p) {
            Some(e) => spec_extension_format(e),
            None => None,
        },
        None => None,
    };
    spec_negotiate(explicit, by_extension, spec_sniff(data))
}

/// Resolves the format of an input: the explicit format, else the extension
/// of its path if it came from a file, else its content.
pub fn resolve_format(explicit: Option<InputFormat>, path: Option<&str>, data: &[u8]) -> (r: Result<
    InputFormat,
    DecodeError,
>)
    ensures
        r is Ok <==> spec_resolve_format(explicit, opt_view(path), data@) is Some,
        r matches Ok(f) ==> spec_resolve_format(explicit, opt_view(path), data@) == Some(f),
        r is Err ==> r matches Err(DecodeError::FormatUndetermined),
{
    if let Some(f) = explicit {
        return Ok(f);
    }
    let by_extension = match path {
        Some(p) => match extension_of(p) {
            Some(e) => format_from_extension(e),
            None => None,
        },
        None => None,
    };
    if let Some(f) = by_extension {
        return Ok(f);
    }
    negotiate(None, None, sniff(data))
}

/// A format that the raster codec decodes.
#[derive(Clone, Copy, Debug, PartialEq, Eq, Structural)]
pub enum RasterFormat {
    Bmp,
    Dds,
    Farbfeld,
    Gif,
    Hdr,
    Ico,
    Jpeg,
    OpenExr,
    Png,
    Pnm,
    Qoi,
    Tga,
    Tiff,
    WebP,
}

/// The raster format of an input format: none for SVG, which is rasterized
/// first, nor for XBM, which the codec lacks.
pub open spec fn spec_raster(f: InputFormat) -> Option<RasterFormat> {
    match f {
        InputFormat::Bmp => Some(RasterFormat::Bmp),
        InputFormat::Dds => Some(RasterFormat::Dds),
        InputFormat::Farbfeld => Some(RasterFormat::Farbfeld),
        InputFormat::Gif => Some(RasterFormat::Gif),
        InputFormat::Hdr => Some(RasterFormat::Hdr),
        InputFormat::Ico => Some(RasterFormat::Ico),
        InputFormat::Jpeg => Some(RasterFormat::Jpeg),
        InputFormat::OpenExr => Some(RasterFormat::OpenExr),
        InputFormat::Png => Some(RasterFormat::Png),
        InputFormat::Pnm => Some(RasterFormat::Pnm),
        InputFormat::Qoi => Some(RasterFormat::Qoi),
        InputFormat::Tga => Some(RasterFormat::Tga),
        InputFormat::Tiff => Some(RasterFormat::Tiff),
        InputFormat::WebP => Some(RasterFormat::WebP),
        InputFormat::Svg | InputFormat::Xbm => None,
    }
}

/// A format that the raster codec decodes.
pub open spec fn is_raster(f: InputFormat) -> bool {
    spec_raster(f) is Some
}

impl InputFormat {
    /// The raster format of an input format, if the codec decodes it.
    pub fn raster(self) -> (r: Option<RasterFormat>)
        ensures
            r == spec_raster(self),
    {
        match self {
            InputFormat::Bmp => Some(RasterFormat::Bmp),
            InputFormat::Dds => Some(RasterFormat::Dds),
            InputFormat::Farbfeld => Some(RasterFormat::Farbfeld),
            InputFormat::Gif => Some(RasterFormat::Gif),
            InputFormat::Hdr => Some(RasterFormat::Hdr),
            InputFormat::Ico => Some(RasterFormat::Ico),
            InputFormat::Jpeg => Some(RasterFormat::Jpeg),
            InputFormat::OpenExr => Some(RasterFormat::OpenExr),
            InputFormat::Png => Some(RasterFormat::Png),
            InputFormat::Pnm => Some(RasterFormat::Pnm),
            InputFormat::Qoi => Some(RasterFormat::Qoi),
            InputFormat::Tga => Some(RasterFormat::Tga),
            InputFormat::Tiff => Some(RasterFormat::Tiff),
            InputFormat::WebP => Some(RasterFormat::WebP),
            InputFormat::Svg | InputFormat::Xbm => None,
        }
    }

    /// Whether the raster codec decodes the format: every one but SVG and
    /// XBM.
    pub fn is_raster(self) -> (r: bool)
        ensures
            r == is_raster(self),
    {
        self.raster().is_some()
    }
}

/// The gray levels that the raster codec reads from some data in a format:
/// width, height and pixels; `None` where it fails.
pub uninterp spec fn raster_luma(data: Seq<u8>, format: RasterFormat) -> Option<(u32, u32, Seq<u8>)>;

/// Relies on `image::load_from_memory_with_format` and `into_luma8`.
#[verifier::external_body]
fn load_luma(data: &[u8], format: RasterFormat) -> (r: Result<LumaImage, image::ImageError>)
    ensures
        r is Ok <==> raster_luma(data@, format) is Some,
        r matches Ok(img) ==> img.wf() && raster_luma(data@, format) == Some((img.width, img.height, img.pixels@)),
{
    let f = match format {
        RasterFormat::Bmp => Raster::Bmp, RasterFormat::Dds => Raster::Dds,
        RasterFormat::Farbfeld => Raster::Farbfeld, RasterFormat::Gif => Raster::Gif,
        RasterFormat::Hdr => Raster::Hdr, RasterFormat::Ico => Raster::Ico,
        RasterFormat::Jpeg => Raster::Jpeg, RasterFormat::OpenExr => Raster::OpenExr,
        RasterFormat::Png => Raster::Png, RasterFormat::Pnm => Raster::Pnm,
        RasterFormat::Qoi => Raster::Qoi, RasterFormat::Tga => Raster::Tga,
        RasterFormat::Tiff => Raster::Tiff, RasterFormat::WebP => Raster::WebP,
    };
    let img = image::load_from_memory_with_format(data, f)?.into_luma8();
    Ok(LumaImage { width: img.width(), height: img.height(), pixels: img.into_raw() })
}

/// Relies on `usvg::Tree::from_data` with default options (which also reads
/// gzip-compressed documents, and reads the files that `<image>` elements
/// name), `Size::to_int_size`, `tiny_skia::Pixmap::new`, `resvg::render` and
/// `Pixmap::encode_png`. The parser's error is handed on; a canvas that
/// cannot be had or written gives `None`. What is painted may depend on
/// files on disk, so nothing is said of the bytes.
#[verifier::external_body]
fn rasterize_svg(data: &[u8]) -> (r: Result<Vec<u8>, Option<resvg::usvg::Error>>) {
    let tree = resvg::usvg::Tree::from_data(data, &resvg::usvg::Options::default()).map_err(Some)?;
    let size = tree.size().to_int_size();
    let mut pixmap = resvg::tiny_skia::Pixmap::new(size.width(), size.height()).ok_or(None)?;
    resvg::render(&tree, resvg::tiny_skia::Transform::default(), &mut pixmap.as_mut());
    pixmap.encode_png().map_err(|_| None)
}

/// Rasterizes a vector document at its intrinsic size, as a PNG file.
pub fn svg_to_png(data: &[u8]) -> (r: Result<Vec<u8>, DecodeError>)
    ensures
        r is Err ==> r matches Err(DecodeError::Svg(_, _)) || r matches Err(DecodeError::Rasterize),
{
    match rasterize_svg(data) {
        Ok(png) => Ok(png),
        Err(Some(e)) => Err(DecodeError::Svg(svg_error_kind(&e), e)),
        Err(None) => Err(DecodeError::Rasterize),
    }
}

/// The gray levels of an image, in contracts.
pub open spec fn luma_view(img: &LumaImage) -> (u32, u32, Seq<u8>) {
    (img.width, img.height, img.pixels@)
}

/// Reads a PNG file as gray levels.
pub fn luma_from_png(png: &[u8]) -> (r: Result<LumaImage, DecodeError>)
    ensures
        r is Ok <==> raster_luma(png@, RasterFormat::Png) is Some,
        r matches Ok(img) ==> img.wf() && raster_luma(png@, RasterFormat::Png) == Some(luma_view(&img)),
        r is Err ==> r matches Err(DecodeError::Image(_, _)),
{
    match load_luma(png, RasterFormat::Png) {
        Ok(img) => Ok(img),
        Err(e) => Err(DecodeError::Image(image_error_kind(&e), e)),
    }
}

/// Gray levels that some PNG file reads as.
pub open spec fn png_luma(img: (u32, u32, Seq<u8>)) -> bool {
    exists|p: Seq<u8>| raster_luma(p, RasterFormat::Png) == Some(img)
}

/// Reads the image from SVG: rasterized, then read as gray levels.
pub fn from_svg(data: &[u8]) -> (r: Result<LumaImage, DecodeError>)
    ensures
        r matches Ok(img) ==> img.wf() && png_luma(luma_view(&img)),
        r is Err ==> r matches Err(DecodeError::Svg(_, _)) || r matches Err(DecodeError::Rasterize)
            || r matches Err(DecodeError::Image(_, _)),
{
    let png = match svg_to_png(data) {
        Ok(p) => p,
        Err(e) => return Err(e),
    };
    let r = luma_from_png(png.as_slice());
    if let Ok(img) = &r {
        assert(raster_luma(png@, RasterFormat::Png) == Some(luma_view(img)));
    }
    r
}

/// The gray levels that an input in a format reads as: for SVG, those of
/// some PNG file (its rasterization); for a raster format, exactly what the
/// codec reads from the data.
pub open spec fn loads_to(data: Seq<u8>, format: InputFormat, img: (u32, u32, Seq<u8>)) -> bool {
    if format == InputFormat::Svg {
        png_luma(img)
    } else {
        match spec_raster(format) {
            Some(f) => raster_luma(data, f) == Some(img),
            None => false,
        }
    }
}

/// The gray levels of an input in a raster format, `None` where the codec
/// fails or the format has no decoder.
pub open spec fn spec_load(data: Seq<u8>, format: InputFormat) -> Option<(u32, u32, Seq<u8>)> {
    match spec_raster(format) {
        Some(f) => raster_luma(data, f),
        None => None,
    }
}

/// Reads an image in a format as gray levels: vector documents through
/// rasterization, the others through the raster codec; a format that it
/// lacks is refused.
pub fn load_image(data: &[u8], format: InputFormat) -> (r: Result<LumaImage, DecodeError>)
    ensures
        r matches Ok(img) ==> img.wf() && loads_to(data@, format, luma_view(&img)),
        is_raster(format) ==> (r is Ok <==> spec_load(data@, format) is Some),
        is_raster(format) && r is Err ==> r matches Err(DecodeError::Image(_, _)),
        format == InputFormat::Svg && r is Err ==> r matches Err(DecodeError::Svg(_, _)) || r matches Err(
            DecodeError::Rasterize,
        ) || r matches Err(DecodeError::Image(_, _)),
        format == InputFormat::Xbm ==> r matches Err(DecodeError::UnsupportedFormat(InputFormat::Xbm)),
{
    if format == InputFormat::Svg {
        return from_svg(data);
    }
    let f = match format.raster() {
        Some(f) => f,
        None => return Err(DecodeError::UnsupportedFormat(format)),
    };
    match load_luma(data, f) {
        Ok(img) => Ok(img),
        Err(e) => Err(DecodeError::Image(image_error_kind(&e), e)),
    }
}

/// What a grid decodes to, in contracts: the version, the error correction
/// bits and the payload, or `None` where the grid could not be read.
pub open spec fn grid_view(r: Result<(usize, u16, Vec<u8>), rqrr::DeQRError>) -> Option<(usize, u16, Seq<u8>)> {
    match r {
        Ok(t) => Some((t.0, t.1, t.2@)),
        Err(_) => None,
    }
}

/// What a list of grids decodes to, in contracts.
pub open spec fn grid_views(s: Seq<Result<(usize, u16, Vec<u8>), rqrr::DeQRError>>) -> Seq<Option<(usize, u16, Seq<u8>)>> {
    s.map_values(|g| grid_view(g))
}

/// What the grid decoder reads from a gray-level image: one entry per symbol
/// found, in the order found.
pub uninterp spec fn decoded_grids(width: u32, height: u32, pixels: Seq<u8>) -> Seq<Option<(usize, u16, Seq<u8>)>>;

/// Relies on rqrr's `PreparedImage::prepare`, `detect_grids` and
/// `Grid::decode_to`: each symbol found, decoded to its metadata and payload.
#[verifier::external_body]
fn detect_and_decode(img: &LumaImage) -> (r: Vec<Result<(usize, u16, Vec<u8>), rqrr::DeQRError>>)
    requires
        img.wf(),
    ensures
        grid_views(r@) == decoded_grids(img.width, img.height, img.pixels@),
{
    let gray = image::GrayImage::from_raw(img.width, img.height, img.pixels.clone()).unwrap();
    let mut prepared = rqrr::PreparedImage::prepare(gray);
    let mut out = Vec::new();
    for grid in prepared.detect_grids() {
        let mut bytes = Vec::new();
        let meta = grid.decode_to(&mut bytes);
        out.push(meta.map(|m| (m.version.0, m.ecc_level, bytes)));
    }
    out
}

/// The level that the two error correction bits of a symbol's format name.
pub open spec fn spec_ecc_from_bits(bits: u16) -> Option<Ecc> {
    if bits == 0 {
        Some(Ecc::M)
    } else if bits == 1 {
        Some(Ecc::L)
    } else if bits == 2 {
        Some(Ecc::H)
    } else if bits == 3 {
        Some(Ecc::Q)
    } else {
        None
    }
}

/// Reads the error correction bits of a symbol's format: 0 for M, 1 for L,
/// 2 for H and 3 for Q.
pub fn ecc_from_bits(bits: u16) -> (r: Option<Ecc>)
    ensures
        r == spec_ecc_from_bits(bits),
{
    if bits == 0 {
        Some(Ecc::M)
    } else if bits == 1 {
        Some(Ecc::L)
    } else if bits == 2 {
        Some(Ecc::H)
    } else if bits == 3 {
        Some(Ecc::Q)
    } else {
        None
    }
}

/// Metadata as the grid decoder reports it: the version number and the
/// error correction bits.
#[derive(Clone, Copy, Debug, PartialEq, Eq, Structural)]
pub struct GridMetadata {
    pub version: usize,
    pub ecc_level: u16,
}

impl Extractor for GridMetadata {
    fn metadata(&self) -> (r: Metadata)
        ensures
            spec_ecc_from_bits(self.ecc_level) matches Some(e) ==> r == (Metadata {
                symbol_version: metadata::Version(self.version, None),
                error_correction_level: e,
            }),
    {
        let level = match ecc_from_bits(self.ecc_level) {
            Some(e) => e,
            None => Ecc::M,
        };
        Metadata::new(metadata::Version::new((self.version, None)), level)
    }
}

/// A decoded symbol: its metadata and its payload.
#[derive(Debug)]
pub struct DecodedBytes {
    pub metadata: Metadata,
    pub bytes: Vec<u8>,
}

/// A grid that was read, with an error correction level that exists.
pub open spec fn readable(g: Option<(usize, u16, Seq<u8>)>) -> bool {
    match g {
        Some(t) => spec_ecc_from_bits(t.1) is Some,
        None => false,
    }
}

/// Every grid was read, each with an error correction level that exists.
pub open spec fn all_readable(g: Seq<Option<(usize, u16, Seq<u8>)>>) -> bool {
    forall|i: int| 0 <= i < g.len() ==> readable(#[trigger] g[i])
}

/// A decoded symbol holds what its grid was read as.
pub open spec fn payload_of(d: DecodedBytes, t: (usize, u16, Seq<u8>)) -> bool {
    &&& d.metadata == (Metadata {
        symbol_version: metadata::Version(t.0, None),
        error_correction_level: spec_ecc_from_bits(t.1)->Some_0,
    })
    &&& d.bytes@ == t.2
}

/// The error that a grid that fails to read gives.
pub open spec fn grid_error(e: DecodeError, g: Result<(usize, u16, Vec<u8>), rqrr::DeQRError>) -> bool {
    match g {
        Ok(t) => e == DecodeError::InvalidLevel(t.1),
        Err(x) => match e {
            DecodeError::Grid(_, y) => y == x,
            _ => false,
        },
    }
}

/// Grid `k` is the first that does not read.
pub open spec fn first_unreadable(g: Seq<Option<(usize, u16, Seq<u8>)>>, k: int) -> bool {
    &&& 0 <= k < g.len()
    &&& !readable(g[k])
    &&& forall|j: int| 0 <= j < k ==> readable(#[trigger] g[j])
}

/// Decodes the grids as bytes: all of them, or the first failure.
pub fn grids_as_bytes(grids: Vec<Result<(usize, u16, Vec<u8>), rqrr::DeQRError>>) -> (r: Result<
    Vec<DecodedBytes>,
    DecodeError,
>)
    ensures
        r is Ok <==> all_readable(grid_views(grids@)),
        r matches Ok(v) ==> v@.len() == grids@.len() && forall|i: int|
            0 <= i < v@.len() ==> payload_of(#[trigger] v@[i], grid_view(grids@[i])->Some_0),
        r matches Err(e) ==> exists|k: int|
            first_unreadable(grid_views(grids@), k) && grid_error(e, #[trigger] grids@[k]),
{
    let ghost all = grids@;
    let ghost views = grid_views(grids@);
    let mut rest = grids;
    let mut out: Vec<DecodedBytes> = Vec::new();
    let n = rest.len();
    let mut k: usize = 0;
    while k < n
        invariant
            n == all.len(),
            k <= n,
            views == grid_views(all),
            all == grids@,
            rest@ == all.subrange(k as int, n as int),
            out@.len() == k,
            forall|i: int| 0 <= i < k ==> readable(#[trigger] views[i]),
            forall|i: int| 0 <= i < k ==> payload_of(#[trigger] out@[i], grid_view(all[i])->Some_0),
        decreases n - k,
    {
        let item = rest.remove(0);
        assert(item == all[k as int]);
        match item {
            Ok((version, bits, bytes)) => match ecc_from_bits(bits) {
                Some(level) => {
                    let metadata = Metadata::new(metadata::Version::new((version, None)), level);
                    out.push(DecodedBytes { metadata, bytes });
                },
                None => {
                    assert(!readable(views[k as int]));
                    assert(!all_readable(views));
                    assert(first_unreadable(grid_views(grids@), k as int));
                    assert(grid_error(DecodeError::InvalidLevel(bits), grids@[k as int]));
                    return Err(DecodeError::InvalidLevel(bits));
                },
            },
            Err(e) => {
                assert(views[k as int] is None);
                assert(!readable(views[k as int]));
                assert(!all_readable(views));
                assert(first_unreadable(grid_views(grids@), k as int));
                let kind = grid_error_kind(&e);
                assert(grid_error(DecodeError::Grid(kind, e), grids@[k as int]));
                return Err(DecodeError::Grid(kind, e));
            },
        }
        k += 1;
        assert(rest@ =~= all.subrange(k as int, n as int));
    }
    Ok(out)
}

/// Detects and decodes every symbol in a gray-level image.
pub fn decode_image(img: &LumaImage) -> (r: Result<Vec<DecodedBytes>, DecodeError>)
    requires
        img.wf(),
    ensures
        r is Ok <==> all_readable(decoded_grids(img.width, img.height, img.pixels@)),
        r matches Ok(v) ==> v@.len() == decoded_grids(img.width, img.height, img.pixels@).len()
            && forall|i: int| 0 <= i < v@.len() ==> payload_of(#[trigger] v@[i], decoded_grids(img.width, img.height, img.pixels@)[i]->Some_0),
{
    let grids = detect_and_decode(img);
    let ghost views = grid_views(grids@);
    let r = grids_as_bytes(grids);
    proof {
        if r is Ok {
            assert forall|i: int| 0 <= i < views.len() implies grid_view(grids@[i]) == views[i] by {}
        }
    }
    r
}

} // verus!
