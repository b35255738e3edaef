//! The two commands as computations: from options and input bytes to what
//! is written out.

use vstd::prelude::*;
use crate::cli::{Decode, Encode};
use crate::decode::{
    all_readable, decode_image, decoded_grids, load_image, opt_view, payload_of, resolve_format,
    is_raster, loads_to, luma_view, spec_load, spec_resolve_format, DecodeError, DecodedBytes,
};
use crate::cli::Variant;
use crate::cli::Mode;
use crate::encode::{
    encode, encode_ok, qr_grid, set_version, spec_set_version, spec_variant_of, spec_version_ok,
    EncodeError,
};
use crate::exit::ErrorOrigin;
use crate::render::{render, render_grid, spec_render, symbol_view, Output, RenderError, RenderRequest};
use crate::symbol::{Symbol, SymbolVersion};

verus! {

/// Why the encode command failed.
#[derive(Debug)]
pub enum EncodeFailure {
    Encode(EncodeError),
    Render(RenderError),
}

impl EncodeFailure {
    /// Where the error came from.
    pub fn origin(&self) -> ErrorOrigin {
        match self {
            EncodeFailure::Encode(e) => e.origin(),
            EncodeFailure::Render(e) => e.origin(),
        }
    }
}

/// The rendering that the options of an encode command ask for.
pub open spec fn spec_request(arg: &Encode) -> RenderRequest {
    RenderRequest {
        format: arg.output_format,
        margin: arg.margin,
        module_size: arg.size,
        colors: (arg.foreground, arg.background),
        optimize_png: arg.optimize_png,
        zopfli: arg.zopfli,
    }
}

/// Builds the rendering request from the options of an encode command.
pub fn request_of(arg: &Encode) -> (r: RenderRequest)
    ensures
        r == spec_request(arg),
{
    RenderRequest {
        format: arg.output_format,
        margin: arg.margin,
        module_size: arg.size,
        colors: (arg.foreground, arg.background),
        optimize_png: arg.optimize_png,
        zopfli: arg.zopfli,
    }
}

/// The version that the options of an encode command ask for: none when
/// none is given, `Some(None)` when the numbers name no symbol of the family.
pub open spec fn asked_version(arg: &Encode) -> Option<Option<SymbolVersion>> {
    if arg.symbol_version@.len() == 0 {
        Some(None)
    } else {
        match spec_set_version(arg.symbol_version@, arg.variant) {
            Some(v) => Some(Some(v)),
            None => None,
        }
    }
}

/// The mode that is used: the one asked for, where a version is given.
pub open spec fn used_mode(arg: &Encode, version: Option<SymbolVersion>) -> Option<Mode> {
    if version is Some {
        arg.mode
    } else {
        None
    }
}

/// Whether the encode command succeeds on its input: the version asked for
/// exists, the payload encodes, and the symbol renders as asked.
pub open spec fn encode_command_ok(arg: &Encode, data: Seq<u8>) -> bool {
    match asked_version(arg) {
        Some(version) => {
            let mode = used_mode(arg, version);
            &&& encode_ok(data, arg.error_correction_level, arg.variant, version, mode)
            &&& render_grid(
                qr_grid(data, arg.error_correction_level, arg.variant, version, mode)->Some_0,
                &spec_request(arg),
            ) is Some
        },
        None => false,
    }
}

/// Runs the encode command on its input: encodes the data at the level and
/// version asked for, then renders the symbol as asked.
pub fn encode_to_output(arg: &Encode, data: &[u8]) -> (r: Result<(Symbol, Output), EncodeFailure>)
    ensures
        r is Ok <==> encode_command_ok(arg, data@),
        asked_version(arg) is None ==> (r matches Err(EncodeFailure::Encode(EncodeError::InvalidVersion))),
        r matches Ok((s, o)) ==> {
            let version = asked_version(arg)->Some_0;
            &&& s.wf()
            &&& s.ecc == arg.error_correction_level
            &&& spec_version_ok(s.version)
            &&& spec_variant_of(s.version) == arg.variant
            &&& qr_grid(data@, arg.error_correction_level, arg.variant, version, used_mode(arg, version))
                == Some(symbol_view(&s))
            &&& Some(o@) == spec_render(&s, &spec_request(arg))
        },
{
    let version = if arg.symbol_version.len() > 0 {
        match set_version(arg.symbol_version.as_slice(), arg.variant) {
            Ok(v) => Some(v),
            Err(e) => return Err(EncodeFailure::Encode(e)),
        }
    } else {
        None
    };
    let mode = if version.is_some() {
        arg.mode
    } else {
        None
    };
    let symbol = match encode(data, arg.error_correction_level, arg.variant, version, mode) {
        Ok(s) => s,
        Err(e) => return Err(EncodeFailure::Encode(e)),
    };
    let request = request_of(arg);
    match render(&symbol, &request) {
        Ok(o) => Ok((symbol, o)),
        Err(e) => Err(EncodeFailure::Render(e)),
    }
}

/// Encoding with no margin given puts a quiet zone of exactly 4 modules
/// around a normal or rMQR symbol, and of exactly 2 around a Micro one.
pub proof fn lemma_encoded_default_margin(arg: &Encode, s: &Symbol)
    requires
        arg.margin is None,
        spec_version_ok(s.version),
        spec_variant_of(s.version) == arg.variant,
    ensures
        arg.variant == Variant::Micro ==> spec_request(arg).spec_layout(s).margin == 2,
        arg.variant != Variant::Micro ==> spec_request(arg).spec_layout(s).margin == 4,
{
}

/// Whether a path argument stands for standard input: absent, or `-`.
pub open spec fn spec_is_stdin(path: Option<Seq<char>>) -> bool {
    match path {
        None => true,
        Some(p) => p == seq!['-'],
    }
}

/// Whether a path argument stands for standard input.
pub fn is_stdin(path: Option<&str>) -> (r: bool)
    ensures
        r == spec_is_stdin(
            match path {
                Some(p) => Some(p@),
                None => None,
            },
        ),
{
    match path {
        None => true,
        Some(p) => {
            if p.unicode_len() == 1 && p.get_char(0) == '-' {
                assert(p@ =~= seq!['-']);
                true
            } else {
                false
            }
        },
    }
}

/// The payloads of the symbols found in a gray-level image, in order: every
/// grid read, each with a level that exists.
pub open spec fn decodes_from(v: Seq<DecodedBytes>, img: (u32, u32, Seq<u8>)) -> bool {
    let g = decoded_grids(img.0, img.1, img.2);
    &&& all_readable(g)
    &&& v.len() == g.len()
    &&& forall|i: int| 0 <= i < v.len() ==> payload_of(#[trigger] v[i], g[i]->Some_0)
}

/// What the decode command makes of an input: the payloads of the symbols
/// found in what the input, in the format resolved for it, reads as.
pub open spec fn decodes(v: Seq<DecodedBytes>, arg: &Decode, path: Option<Seq<char>>, data: Seq<u8>) -> bool {
    match spec_resolve_format(arg.input_format, path, data) {
        Some(f) => exists|img: (u32, u32, Seq<u8>)| loads_to(data, f, img) && decodes_from(v, img),
        None => false,
    }
}

/// Whether the decode command succeeds on an input in a raster format.
pub open spec fn decode_succeeds(arg: &Decode, path: Option<Seq<char>>, data: Seq<u8>) -> bool {
    match spec_resolve_format(arg.input_format, path, data) {
        Some(f) => match spec_load(data, f) {
            Some(img) => all_readable(decoded_grids(img.0, img.1, img.2)),
            None => false,
        },
        None => false,
    }
}

/// Runs the decode command on its input: resolves the format, reads the
/// image as gray levels and decodes every symbol in it.
pub fn decode_input(arg: &Decode, path: Option<&str>, data: &[u8]) -> (r: Result<
    Vec<DecodedBytes>,
    DecodeError,
>)
    ensures
        r matches Ok(v) ==> decodes(v@, arg, opt_view(path), data@),
        ({
            let f = spec_resolve_format(arg.input_format, opt_view(path), data@);
            &&& f is None ==> (r matches Err(DecodeError::FormatUndetermined))
            &&& f is Some && is_raster(f->Some_0) ==> (r is Ok <==> decode_succeeds(arg, opt_view(path), data@))
            &&& f is Some && is_raster(f->Some_0) && spec_load(data@, f->Some_0) is None ==> (r matches Err(
                DecodeError::Image(_, _),
            ))
        }),
{
    let format = match resolve_format(arg.input_format, path, data) {
        Ok(f) => f,
        Err(e) => return Err(e),
    };
    let image = match load_image(data, format) {
        Ok(i) => i,
        Err(e) => return Err(e),
    };
    let r = decode_image(&image);
    if let Ok(v) = &r {
        assert(loads_to(data@, format, luma_view(&image)) && decodes_from(v@, luma_view(&image)));
    }
    r
}

} // verus!
