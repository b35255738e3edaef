//! Encoding a payload into a symbol, through the qrcode2 engine.

use vstd::prelude::*;
use crate::cli::{Ecc, Mode, Variant};
use crate::symbol::{Symbol, SymbolVersion, MAX_SIDE};
use qrcode2::bits::Bits;
use qrcode2::types::Version as EngineVersion;
use qrcode2::{EcLevel, QrCode};

verus! {

/// The engine's bit stream under construction.
#[verifier::external_type_specification]
#[verifier::external_body]
pub struct ExBits(qrcode2::bits::Bits);

/// The engine's error.
#[verifier::external_type_specification]
#[verifier::external_body]
pub struct ExQrError(qrcode2::Error);

/// Why a payload could not be encoded.
#[derive(Debug)]
pub enum EncodeError {
    /// The version does not exist for the family asked for.
    InvalidVersion,
    /// The data holds a character that the selected mode cannot encode.
    InvalidData,
    /// The engine returned a grid that is not that of a symbol of the
    /// family, or the version, asked for.
    MalformedSymbol,
    /// The engine refused the payload.
    Engine(qrcode2::Error),
}

/// A normal version: 1 to 40.
pub open spec fn spec_normal_ok(v: i16) -> bool {
    1 <= v <= 40
}

/// A Micro version: M1 to M4.
pub open spec fn spec_micro_ok(v: i16) -> bool {
    1 <= v <= 4
}

/// An rMQR size: heights 7 to 17 in steps of 2 with widths 43, 59, 77, 99
/// or 139, and width 27 with heights 11 and 13.
pub open spec fn spec_rect_micro_ok(h: i16, w: i16) -> bool {
    ||| (h == 7 || h == 9 || h == 11 || h == 13 || h == 15 || h == 17) && (w == 43 || w == 59 || w
        == 77 || w == 99 || w == 139)
    ||| w == 27 && (h == 11 || h == 13)
}

/// Relies on qrcode2's `Version::is_normal`.
#[verifier::external_body]
fn is_normal(v: i16) -> (r: bool)
    ensures
        r == spec_normal_ok(v),
{
    qrcode2::types::Version::Normal(v).is_normal()
}

/// Relies on qrcode2's `Version::is_micro`.
#[verifier::external_body]
fn is_micro(v: i16) -> (r: bool)
    ensures
        r == spec_micro_ok(v),
{
    qrcode2::types::Version::Micro(v).is_micro()
}

/// Relies on qrcode2's `Version::is_rect_micro`, a table of the 32 sizes.
#[verifier::external_body]
fn is_rect_micro(h: i16, w: i16) -> (r: bool)
    ensures
        r == spec_rect_micro_ok(h, w),
{
    qrcode2::types::Version::RectMicro(h, w).is_rect_micro()
}

/// The version that `set_version` picks, if it exists.
pub open spec fn spec_set_version(version: Seq<i16>, variant: Variant) -> Option<SymbolVersion> {
    if version.len() == 0 {
        None
    } else {
        match variant {
            Variant::Normal => if spec_normal_ok(version[0]) {
                Some(SymbolVersion::Normal(version[0]))
            } else {
                None
            },
            Variant::Micro => if spec_micro_ok(version[0]) {
                Some(SymbolVersion::Micro(version[0]))
            } else {
                None
            },
            Variant::Rmqr => {
                let w = if version.len() > 1 {
                    version[1]
                } else {
                    0
                };
                if spec_rect_micro_ok(version[0], w) {
                    Some(SymbolVersion::RectMicro(version[0], w))
                } else {
                    None
                }
            },
        }
    }
}

/// Sets the version: the first number for a normal or Micro symbol, the
/// height and width for an rMQR symbol, refused where no such symbol exists.
pub fn set_version(version: &[i16], variant: Variant) -> (r: Result<SymbolVersion, EncodeError>)
    ensures
        r is Ok <==> spec_set_version(version@, variant) is Some,
        r matches Ok(v) ==> spec_set_version(version@, variant) == Some(v),
        r is Err ==> r matches Err(EncodeError::InvalidVersion),
{
    if version.len() == 0 {
        return Err(EncodeError::InvalidVersion);
    }
    let v = version[0];
    let ok = match variant {
        Variant::Normal => is_normal(v),
        Variant::Micro => is_micro(v),
        Variant::Rmqr => is_rect_micro(v, if version.len() > 1 { version[1] } else { 0 }),
    };
    if !ok {
        return Err(EncodeError::InvalidVersion);
    }
    match variant {
        Variant::Normal => Ok(SymbolVersion::Normal(v)),
        Variant::Micro => Ok(SymbolVersion::Micro(v)),
        Variant::Rmqr => Ok(SymbolVersion::RectMicro(v, if version.len() > 1 { version[1] } else { 0 })),
    }
}

/// A module grid as the engine hands it out: width, height, modules row by
/// row (`true` for dark) and version.
pub open spec fn grid_view(g: (usize, usize, Vec<bool>, SymbolVersion)) -> (usize, usize, Seq<bool>, SymbolVersion) {
    (g.0, g.1, g.2@, g.3)
}

/// The grid of the smallest normal symbol that holds the data.
pub uninterp spec fn auto_grid(data: Seq<u8>, ecc: Ecc) -> Option<(usize, usize, Seq<bool>, SymbolVersion)>;

/// The grid of the smallest Micro symbol that holds the data.
pub uninterp spec fn auto_micro_grid(data: Seq<u8>, ecc: Ecc) -> Option<(usize, usize, Seq<bool>, SymbolVersion)>;

/// The grid of the rMQR symbol of least area that holds the data.
pub uninterp spec fn auto_rmqr_grid(data: Seq<u8>, ecc: Ecc) -> Option<(usize, usize, Seq<bool>, SymbolVersion)>;

/// Relies on qrcode2's `QrCode::with_error_correction_level`, read out with
/// `width`, `height`, `to_colors` and `version`.
#[verifier::external_body]
fn code_with_level(data: &[u8], ecc: Ecc) -> (r: Result<(usize, usize, Vec<bool>, SymbolVersion), qrcode2::Error>)
    ensures
        r is Ok <==> auto_grid(data@, ecc) is Some,
        r matches Ok(g) ==> auto_grid(data@, ecc) == Some(grid_view(g)),
{
    let level = match ecc { Ecc::L => EcLevel::L, Ecc::M => EcLevel::M, Ecc::Q => EcLevel::Q, Ecc::H => EcLevel::H };
    let code = QrCode::with_error_correction_level(data, level)?;
    let modules = code.to_colors().into_iter().map(|c| c == qrcode2::Color::Dark).collect();
    let version = match code.version() {
        EngineVersion::Normal(n) => SymbolVersion::Normal(n),
        EngineVersion::Micro(n) => SymbolVersion::Micro(n),
        EngineVersion::RectMicro(h, w) => SymbolVersion::RectMicro(h, w),
    };
    Ok((code.width(), code.height(), modules, version))
}

/// Relies on qrcode2's `QrCode::micro_with_error_correction_level`, read
/// out with `width`, `height`, `to_colors` and `version`.
#[verifier::external_body]
fn code_micro_with_level(data: &[u8], ecc: Ecc) -> (r: Result<(usize, usize, Vec<bool>, SymbolVersion), qrcode2::Error>)
    ensures
        r is Ok <==> auto_micro_grid(data@, ecc) is Some,
        r matches Ok(g) ==> auto_micro_grid(data@, ecc) == Some(grid_view(g)),
{
    let level = match ecc { Ecc::L => EcLevel::L, Ecc::M => EcLevel::M, Ecc::Q => EcLevel::Q, Ecc::H => EcLevel::H };
    let code = QrCode::micro_with_error_correction_level(data, level)?;
    let modules = code.to_colors().into_iter().map(|c| c == qrcode2::Color::Dark).collect();
    let version = match code.version() {
        EngineVersion::Normal(n) => SymbolVersion::Normal(n),
        EngineVersion::Micro(n) => SymbolVersion::Micro(n),
        EngineVersion::RectMicro(h, w) => SymbolVersion::RectMicro(h, w),
    };
    Ok((code.width(), code.height(), modules, version))
}

/// Relies on qrcode2's `QrCode::rect_micro_with_error_correction_level`,
/// read out with `width`, `height`, `to_colors` and `version`.
#[verifier::external_body]
fn code_rect_micro_with_level(data: &[u8], ecc: Ecc) -> (r: Result<(usize, usize, Vec<bool>, SymbolVersion), qrcode2::Error>)
    ensures
        r is Ok <==> auto_rmqr_grid(data@, ecc) is Some,
        r matches Ok(g) ==> auto_rmqr_grid(data@, ecc) == Some(grid_view(g)),
{
    let level = match ecc { Ecc::L => EcLevel::L, Ecc::M => EcLevel::M, Ecc::Q => EcLevel::Q, Ecc::H => EcLevel::H };
    let code = QrCode::rect_micro_with_error_correction_level(data, level)?;
    let modules = code.to_colors().into_iter().map(|c| c == qrcode2::Color::Dark).collect();
    let version = match code.version() {
        EngineVersion::Normal(n) => SymbolVersion::Normal(n),
        EngineVersion::Micro(n) => SymbolVersion::Micro(n),
        EngineVersion::RectMicro(h, w) => SymbolVersion::RectMicro(h, w),
    };
    Ok((code.width(), code.height(), modules, version))
}

/// One step of building a bit stream: data in a mode (`None` for the
/// optimal segmentation), or the terminator for a level.
pub enum BitsStep {
    Data(Option<Mode>, Seq<u8>),
    Terminator(Ecc),
}

/// A bit stream under construction: the engine's stream, the version it is
/// built for, and the steps pushed onto it so far, in order. Only the
/// functions that push onto the engine's stream change the steps.
pub struct BitStream {
    pub bits: Bits,
    pub version: SymbolVersion,
    pub steps: Ghost<Seq<BitsStep>>,
}

/// Whether the engine accepts one more step on a bit stream of a version
/// that holds the given steps.
pub uninterp spec fn step_fits(v: SymbolVersion, steps: Seq<BitsStep>, step: BitsStep) -> bool;

/// The grid that the engine builds from a bit stream at a level.
pub uninterp spec fn bits_grid(v: SymbolVersion, steps: Seq<BitsStep>, ecc: Ecc) -> Option<(usize, usize, Seq<bool>, SymbolVersion)>;

/// Relies on qrcode2's `Bits::new`: an empty stream for the version.
#[verifier::external_body]
fn new_bits(v: SymbolVersion) -> (r: Bits)
    requires
        spec_version_ok(v),
{
    Bits::new(match v {
        SymbolVersion::Normal(n) => EngineVersion::Normal(n),
        SymbolVersion::Micro(n) => EngineVersion::Micro(n),
        SymbolVersion::RectMicro(h, w) => EngineVersion::RectMicro(h, w),
    })
}

/// A byte that numeric mode encodes: a decimal digit.
pub open spec fn is_numeric_byte(b: u8) -> bool {
    0x30 <= b <= 0x39
}

/// A byte that alphanumeric mode encodes: a digit, an uppercase letter, or
/// one of ` $%*+-./:`.
pub open spec fn is_alphanumeric_byte(b: u8) -> bool {
    ||| is_numeric_byte(b)
    ||| 0x41 <= b <= 0x5a
    ||| b == 0x20 || b == 0x24 || b == 0x25 || b == 0x2a || b == 0x2b || b == 0x2d || b == 0x2e
        || b == 0x2f || b == 0x3a
}

/// Two bytes that kanji mode encodes: a Shift JIS double-byte code of at
/// least 0x8140, offset as the engine offsets it (by 0x8140 below 0xE040, by
/// 0xC140 from there), whose 13-bit value fits.
pub open spec fn is_kanji_pair(hi: u8, lo: u8) -> bool {
    let cp = hi as int * 256 + lo as int;
    let offset = if cp < 0xe040 {
        cp - 0x8140
    } else {
        cp - 0xc140
    };
    &&& cp >= 0x8140
    &&& offset >= 0
    &&& (offset / 256) * 0xc0 + offset % 256 < 0x2000
}

/// Data that the selected mode encodes, byte by byte or pair by pair; an
/// odd trailing byte in kanji mode is left for the engine to refuse.
pub open spec fn spec_data_fits_mode(data: Seq<u8>, mode: Mode) -> bool {
    match mode {
        Mode::Numeric => forall|i: int| 0 <= i < data.len() ==> is_numeric_byte(#[trigger] data[i]),
        Mode::Alphanumeric => forall|i: int|
            0 <= i < data.len() ==> is_alphanumeric_byte(#[trigger] data[i]),
        Mode::Byte => true,
        Mode::Kanji => forall|k: int|
            0 <= k < data.len() / 2 ==> is_kanji_pair(#[trigger] data[2 * k], data[2 * k + 1]),
    }
}

/// Whether the selected mode encodes the data.
pub fn data_fits_mode(data: &[u8], mode: Mode) -> (r: bool)
    ensures
        r == spec_data_fits_mode(data@, mode),
{
    match mode {
        Mode::Byte => true,
        Mode::Kanji => {
            let n = data.len() / 2;
            let mut k: usize = 0;
            while k < n
                invariant
                    mode == Mode::Kanji,
                    n == data@.len() / 2,
                    2 * n <= data@.len() <= usize::MAX,
                    k <= n,
                    forall|j: int| 0 <= j < k ==> is_kanji_pair(#[trigger] data@[2 * j], data@[2 * j + 1]),
                decreases n - k,
            {
                assert(2 * k + 1 < data@.len());
                let hi = data[2 * k] as u32;
                let lo = data[2 * k + 1] as u32;
                let cp = hi * 256 + lo;
                if cp < 0x8140 {
                    assert(!is_kanji_pair(data@[2 * (k as int)], data@[2 * (k as int) + 1]));
                    return false;
                }
                let offset = if cp < 0xe040 {
                    cp - 0x8140
                } else {
                    cp - 0xc140
                };
                if (offset / 256) * 0xc0 + offset % 256 >= 0x2000 {
                    assert(!is_kanji_pair(data@[2 * (k as int)], data@[2 * (k as int) + 1]));
                    return false;
                }
                k += 1;
            }
            true
        },
        _ => {
            let mut i: usize = 0;
            while i < data.len()
                invariant
                    i <= data@.len(),
                    mode == Mode::Numeric || mode == Mode::Alphanumeric,
                    forall|j: int| 0 <= j < i ==> (if mode == Mode::Numeric {
                        is_numeric_byte(#[trigger] data@[j])
                    } else {
                        is_alphanumeric_byte(data@[j])
                    }),
                decreases data@.len() - i,
            {
                let b = data[i];
                let numeric = 0x30 <= b && b <= 0x39;
                let ok = if mode == Mode::Numeric {
                    numeric
                } else {
                    numeric || (0x41 <= b && b <= 0x5a) || b == 0x20 || b == 0x24 || b == 0x25
                        || b == 0x2a || b == 0x2b || b == 0x2d || b == 0x2e || b == 0x2f || b == 0x3a
                };
                if !ok {
                    return false;
                }
                i += 1;
            }
            true
        },
    }
}

/// Relies on qrcode2's `Bits::push_numeric_data`, which subtracts `b'0'`
/// from each byte and so panics, in debug builds, on any other byte.
#[verifier::external_body]
fn push_numeric(stream: &mut BitStream, data: &[u8]) -> (r: Result<(), qrcode2::Error>)
    requires
        spec_version_ok(old(stream).version),
        spec_data_fits_mode(data@, Mode::Numeric),
    ensures
        final(stream).version == old(stream).version,
        r is Ok <==> step_fits(old(stream).version, old(stream).steps@, BitsStep::Data(Some(Mode::Numeric), data@)),
        r is Ok ==> final(stream).steps@ == old(stream).steps@.push(BitsStep::Data(Some(Mode::Numeric), data@)),
{
    stream.bits.push_numeric_data(data)
}

/// Relies on qrcode2's `Bits::push_alphanumeric_data`.
#[verifier::external_body]
fn push_alphanumeric(stream: &mut BitStream, data: &[u8]) -> (r: Result<(), qrcode2::Error>)
    requires
        spec_version_ok(old(stream).version),
    ensures
        final(stream).version == old(stream).version,
        r is Ok <==> step_fits(old(stream).version, old(stream).steps@, BitsStep::Data(Some(Mode::Alphanumeric), data@)),
        r is Ok ==> final(stream).steps@ == old(stream).steps@.push(BitsStep::Data(Some(Mode::Alphanumeric), data@)),
{
    stream.bits.push_alphanumeric_data(data)
}

/// Relies on qrcode2's `Bits::push_byte_data`.
#[verifier::external_body]
fn push_byte(stream: &mut BitStream, data: &[u8]) -> (r: Result<(), qrcode2::Error>)
    requires
        spec_version_ok(old(stream).version),
    ensures
        final(stream).version == old(stream).version,
        r is Ok <==> step_fits(old(stream).version, old(stream).steps@, BitsStep::Data(Some(Mode::Byte), data@)),
        r is Ok ==> final(stream).steps@ == old(stream).steps@.push(BitsStep::Data(Some(Mode::Byte), data@)),
{
    stream.bits.push_byte_data(data)
}

/// Relies on qrcode2's `Bits::push_kanji_data`, which panics, in debug
/// builds, on a pair below 0x8140 or one whose value needs over 13 bits.
#[verifier::external_body]
fn push_kanji(stream: &mut BitStream, data: &[u8]) -> (r: Result<(), qrcode2::Error>)
    requires
        spec_version_ok(old(stream).version),
        spec_data_fits_mode(data@, Mode::Kanji),
    ensures
        final(stream).version == old(stream).version,
        r is Ok <==> step_fits(old(stream).version, old(stream).steps@, BitsStep::Data(Some(Mode::Kanji), data@)),
        r is Ok ==> final(stream).steps@ == old(stream).steps@.push(BitsStep::Data(Some(Mode::Kanji), data@)),
{
    stream.bits.push_kanji_data(data)
}

/// Relies on qrcode2's `Bits::push_optimal_data`.
#[verifier::external_body]
fn push_optimal(stream: &mut BitStream, data: &[u8]) -> (r: Result<(), qrcode2::Error>)
    requires
        spec_version_ok(old(stream).version),
    ensures
        final(stream).version == old(stream).version,
        r is Ok <==> step_fits(old(stream).version, old(stream).steps@, BitsStep::Data(None::<Mode>, data@)),
        r is Ok ==> final(stream).steps@ == old(stream).steps@.push(BitsStep::Data(None::<Mode>, data@)),
{
    stream.bits.push_optimal_data(data)
}

/// Relies on qrcode2's `Bits::push_terminator`.
#[verifier::external_body]
fn push_terminator(stream: &mut BitStream, ecc: Ecc) -> (r: Result<(), qrcode2::Error>)
    requires
        spec_version_ok(old(stream).version),
    ensures
        final(stream).version == old(stream).version,
        r is Ok <==> step_fits(old(stream).version, old(stream).steps@, BitsStep::Terminator(ecc)),
        r is Ok ==> final(stream).steps@ == old(stream).steps@.push(BitsStep::Terminator(ecc)),
{
    let level = match ecc { Ecc::L => EcLevel::L, Ecc::M => EcLevel::M, Ecc::Q => EcLevel::Q, Ecc::H => EcLevel::H };
    stream.bits.push_terminator(level)
}

/// Relies on qrcode2's `QrCode::with_bits`, read out with `width`,
/// `height`, `to_colors` and `version`; the stream must be terminated, or the
/// engine's codeword slicing panics.
#[verifier::external_body]
fn code_with_bits(stream: BitStream, ecc: Ecc) -> (r: Result<(usize, usize, Vec<bool>, SymbolVersion), qrcode2::Error>)
    requires
        spec_version_ok(stream.version),
        stream.steps@.len() > 0,
        stream.steps@.last() == BitsStep::Terminator(ecc),
    ensures
        r is Ok <==> bits_grid(stream.version, stream.steps@, ecc) is Some,
        r matches Ok(g) ==> bits_grid(stream.version, stream.steps@, ecc) == Some(grid_view(g)),
{
    let level = match ecc { Ecc::L => EcLevel::L, Ecc::M => EcLevel::M, Ecc::Q => EcLevel::Q, Ecc::H => EcLevel::H };
    let code = QrCode::with_bits(stream.bits, level)?;
    let modules = code.to_colors().into_iter().map(|c| c == qrcode2::Color::Dark).collect();
    let version = match code.version() {
        EngineVersion::Normal(n) => SymbolVersion::Normal(n),
        EngineVersion::Micro(n) => SymbolVersion::Micro(n),
        EngineVersion::RectMicro(h, w) => SymbolVersion::RectMicro(h, w),
    };
    Ok((code.width(), code.height(), modules, version))
}

impl BitStream {
    /// An empty bit stream for a version, refused where the version does not
    /// exist in its family.
    pub fn new(version: SymbolVersion) -> (r: Result<BitStream, EncodeError>)
        ensures
            r is Ok <==> spec_version_ok(version),
            r matches Ok(b) ==> b.version == version && b.steps@ == Seq::<BitsStep>::empty(),
            r is Err ==> r matches Err(EncodeError::InvalidVersion),
    {
        if !version_in(version, variant_of(version)) {
            return Err(EncodeError::InvalidVersion);
        }
        Ok(BitStream { bits: new_bits(version), version, steps: Ghost(Seq::empty()) })
    }
}

/// Encodes data for the selected mode to the bits; data with a character
/// that the mode cannot encode is refused before the engine sees it.
pub fn push_data_for_selected_mode(bits: &mut BitStream, data: &[u8], mode: Mode) -> (r: Result<
    (),
    EncodeError,
>)
    requires
        spec_version_ok(old(bits).version),
    ensures
        final(bits).version == old(bits).version,
        !spec_data_fits_mode(data@, mode) ==> (r matches Err(EncodeError::InvalidData)),
        !spec_data_fits_mode(data@, mode) ==> final(bits).steps@ == old(bits).steps@,
        spec_data_fits_mode(data@, mode) ==> (r is Ok <==> step_fits(
            old(bits).version,
            old(bits).steps@,
            BitsStep::Data(Some(mode), data@),
        )),
        r is Ok ==> final(bits).steps@ == old(bits).steps@.push(
            BitsStep::Data(Some(mode), data@),
        ),
        r is Err && spec_data_fits_mode(data@, mode) ==> r matches Err(EncodeError::Engine(_)),
{
    if !data_fits_mode(data, mode) {
        return Err(EncodeError::InvalidData);
    }
    let pushed = match mode {
        Mode::Numeric => push_numeric(bits, data),
        Mode::Alphanumeric => push_alphanumeric(bits, data),
        Mode::Byte => push_byte(bits, data),
        Mode::Kanji => push_kanji(bits, data),
    };
    match pushed {
        Ok(()) => Ok(()),
        Err(e) => Err(EncodeError::Engine(e)),
    }
}

/// The family of a version.
pub open spec fn spec_variant_of(v: SymbolVersion) -> Variant {
    match v {
        SymbolVersion::Normal(_) => Variant::Normal,
        SymbolVersion::Micro(_) => Variant::Micro,
        SymbolVersion::RectMicro(_, _) => Variant::Rmqr,
    }
}

/// A version that exists in its family.
pub open spec fn spec_version_ok(v: SymbolVersion) -> bool {
    match v {
        SymbolVersion::Normal(n) => spec_normal_ok(n),
        SymbolVersion::Micro(n) => spec_micro_ok(n),
        SymbolVersion::RectMicro(h, w) => spec_rect_micro_ok(h, w),
    }
}

/// The family of a version.
fn variant_of(v: SymbolVersion) -> (r: Variant)
    ensures
        r == spec_variant_of(v),
{
    match v {
        SymbolVersion::Normal(_) => Variant::Normal,
        SymbolVersion::Micro(_) => Variant::Micro,
        SymbolVersion::RectMicro(_, _) => Variant::Rmqr,
    }
}

/// Whether a version exists in the family given.
fn version_in(v: SymbolVersion, variant: Variant) -> (r: bool)
    ensures
        r == (spec_version_ok(v) && spec_variant_of(v) == variant),
{
    match (v, variant) {
        (SymbolVersion::Normal(n), Variant::Normal) => is_normal(n),
        (SymbolVersion::Micro(n), Variant::Micro) => is_micro(n),
        (SymbolVersion::RectMicro(h, w), Variant::Rmqr) => is_rect_micro(h, w),
        _ => false,
    }
}

/// The grid that the engine builds for a payload: with no version given,
/// the smallest symbol of the family that holds it; with a version, that
/// one, from the data in the mode given (refused where the mode cannot
/// encode it) or in the optimal segmentation, then the terminator.
pub open spec fn qr_grid(
    data: Seq<u8>,
    ecc: Ecc,
    variant: Variant,
    version: Option<SymbolVersion>,
    mode: Option<Mode>,
) -> Option<(usize, usize, Seq<bool>, SymbolVersion)> {
    match version {
        None => match variant {
            Variant::Normal => auto_grid(data, ecc),
            Variant::Micro => auto_micro_grid(data, ecc),
            Variant::Rmqr => auto_rmqr_grid(data, ecc),
        },
        Some(v) => {
            let step = BitsStep::Data(mode, data);
            let term = BitsStep::Terminator(ecc);
            if !(spec_version_ok(v) && spec_variant_of(v) == variant) {
                None
            } else if mode is Some && !spec_data_fits_mode(data, mode->Some_0) {
                None
            } else if !step_fits(v, Seq::empty(), step) || !step_fits(v, seq![step], term) {
                None
            } else {
                bits_grid(v, seq![step, term], ecc)
            }
        },
    }
}

/// A grid that is that of a symbol of the family, and of the version,
/// asked for.
pub open spec fn grid_ok(
    g: (usize, usize, Seq<bool>, SymbolVersion),
    variant: Variant,
    version: Option<SymbolVersion>,
) -> bool {
    &&& 0 < g.0 <= MAX_SIDE
    &&& 0 < g.1 <= MAX_SIDE
    &&& g.2.len() == g.0 * g.1
    &&& spec_version_ok(g.3)
    &&& spec_variant_of(g.3) == variant
    &&& version is Some ==> g.3 == version->Some_0
}

/// Whether encoding succeeds: the engine builds a grid and it is one of the
/// symbol asked for.
pub open spec fn encode_ok(
    data: Seq<u8>,
    ecc: Ecc,
    variant: Variant,
    version: Option<SymbolVersion>,
    mode: Option<Mode>,
) -> bool {
    match qr_grid(data, ecc, variant, version, mode) {
        Some(g) => grid_ok(g, variant, version),
        None => false,
    }
}

/// Reads the engine's grid into a `Symbol` of the given level, checking
/// that it is one of the symbol asked for.
fn symbol_of(
    g: (usize, usize, Vec<bool>, SymbolVersion),
    ecc: Ecc,
    variant: Variant,
    version: Option<SymbolVersion>,
) -> (r: Result<Symbol, EncodeError>)
    ensures
        r is Ok <==> grid_ok(grid_view(g), variant, version),
        r matches Ok(s) ==> grid_view(g) == (s.width, s.height, s.modules@, s.version) && s.ecc == ecc,
        r is Err ==> r matches Err(EncodeError::MalformedSymbol),
{
    let (width, height, modules, actual) = g;
    if !version_in(actual, variant) {
        return Err(EncodeError::MalformedSymbol);
    }
    if let Some(v) = version {
        if actual != v {
            return Err(EncodeError::MalformedSymbol);
        }
    }
    if width == 0 || width > MAX_SIDE || height == 0 || height > MAX_SIDE {
        return Err(EncodeError::MalformedSymbol);
    }
    assert(width * height <= MAX_SIDE * MAX_SIDE) by (nonlinear_arith)
        requires
            width <= MAX_SIDE,
            height <= MAX_SIDE,
    ;
    if modules.len() != width * height {
        return Err(EncodeError::MalformedSymbol);
    }
    Ok(Symbol { width, height, modules, version: actual, ecc })
}

/// Encodes a payload: with no version given, into the smallest symbol of
/// the family that holds it; with a version, into that one, in the mode
/// given or else in the optimal segmentation.
pub fn encode(
    data: &[u8],
    ecc: Ecc,
    variant: Variant,
    version: Option<SymbolVersion>,
    mode: Option<Mode>,
) -> (r: Result<Symbol, EncodeError>)
    ensures
        r is Ok <==> encode_ok(data@, ecc, variant, version, mode),
        r matches Ok(s) ==> s.wf() && s.ecc == ecc && qr_grid(data@, ecc, variant, version, mode)
            == Some((s.width, s.height, s.modules@, s.version)),
        version is Some && !(spec_version_ok(version->Some_0) && spec_variant_of(version->Some_0)
            == variant) ==> (r matches Err(EncodeError::InvalidVersion)),
        version is Some && spec_version_ok(version->Some_0) && spec_variant_of(version->Some_0)
            == variant && mode is Some && !spec_data_fits_mode(data@, mode->Some_0) ==> (r matches Err(
            EncodeError::InvalidData,
        )),
{
    let grid = match version {
        None => match variant {
            Variant::Normal => code_with_level(data, ecc),
            Variant::Micro => code_micro_with_level(data, ecc),
            Variant::Rmqr => code_rect_micro_with_level(data, ecc),
        },
        Some(v) => {
            if !version_in(v, variant) {
                return Err(EncodeError::InvalidVersion);
            }
            let mut bits = BitStream { bits: new_bits(v), version: v, steps: Ghost(Seq::empty()) };
            let ghost step = BitsStep::Data(mode, data@);
            let pushed = match mode {
                Some(m) => match push_data_for_selected_mode(&mut bits, data, m) {
                    Ok(()) => Ok(()),
                    Err(EncodeError::InvalidData) => return Err(EncodeError::InvalidData),
                    Err(EncodeError::Engine(e)) => Err(e),
                    Err(e) => return Err(e),
                },
                None => push_optimal(&mut bits, data),
            };
            match pushed {
                Ok(()) => {
                    assert(bits.steps@ =~= seq![step]);
                    match push_terminator(&mut bits, ecc) {
                        Ok(()) => {
                            assert(bits.steps@ =~= seq![step, BitsStep::Terminator(ecc)]);
                            code_with_bits(bits, ecc)
                        },
                        Err(e) => Err(e),
                    }
                },
                Err(e) => Err(e),
            }
        },
    };
    match grid {
        Ok(g) => symbol_of(g, ecc, variant, version),
        Err(e) => Err(EncodeError::Engine(e)),
    }
}

} // verus!
