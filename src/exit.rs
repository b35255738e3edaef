//! The stable mapping from where an error came from to the process exit
//! code.

use vstd::prelude::*;
use crate::decode::DecodeError;
use crate::encode::EncodeError;
use crate::render::RenderError;
use resvg::usvg::Error as SvgError;

verus! {

/// The kind of a file system or stream error.
#[derive(Clone, Copy, Debug, PartialEq, Eq, Structural)]
pub enum IoKind {
    NotFound,
    PermissionDenied,
    Other,
}

/// Where an error came from.
#[derive(Clone, Copy, Debug, PartialEq, Eq, Structural)]
pub enum ErrorOrigin {
    /// The file system or a stream.
    Io(IoKind),
    /// The encoder refused the payload or the version.
    Encode,
    /// The grid decoder could not write its output.
    GridIo,
    /// The grid decoder found a malformed symbol.
    Grid,
    /// The raster codec hit a resource limit.
    ImageLimits,
    /// The raster codec does not support the operation or format.
    ImageUnsupported,
    /// The raster codec failed to read or write.
    ImageIo,
    /// The raster codec failed otherwise.
    Image,
    /// The vector parser cannot handle the document.
    SvgUnavailable,
    /// The vector document is malformed.
    SvgMalformed,
    /// The arguments could not be parsed.
    Usage,
    /// Anything else.
    Unclassified,
}

/// The class of an exit code.
#[derive(Clone, Copy, Debug, PartialEq, Eq, Structural)]
pub enum ExitClass {
    NoInput,
    NoPerm,
    IoErr,
    DataErr,
    OsErr,
    Unavailable,
    Usage,
    Failure,
}

/// The class that each origin maps to.
pub open spec fn spec_classify(origin: ErrorOrigin) -> ExitClass {
    match origin {
        ErrorOrigin::Io(IoKind::NotFound) => ExitClass::NoInput,
        ErrorOrigin::Io(IoKind::PermissionDenied) => ExitClass::NoPerm,
        ErrorOrigin::Io(IoKind::Other) => ExitClass::IoErr,
        ErrorOrigin::Encode => ExitClass::DataErr,
        ErrorOrigin::GridIo => ExitClass::IoErr,
        ErrorOrigin::Grid => ExitClass::DataErr,
        ErrorOrigin::ImageLimits => ExitClass::OsErr,
        ErrorOrigin::ImageUnsupported => ExitClass::Unavailable,
        ErrorOrigin::ImageIo => ExitClass::IoErr,
        ErrorOrigin::Image => ExitClass::DataErr,
        ErrorOrigin::SvgUnavailable => ExitClass::Unavailable,
        ErrorOrigin::SvgMalformed => ExitClass::DataErr,
        ErrorOrigin::Usage => ExitClass::Usage,
        ErrorOrigin::Unclassified => ExitClass::Failure,
    }
}

/// Classifies an error by its origin.
pub fn classify(origin: ErrorOrigin) -> (r: ExitClass)
    ensures
        r == spec_classify(origin),
{
    match origin {
        ErrorOrigin::Io(IoKind::NotFound) => ExitClass::NoInput,
        ErrorOrigin::Io(IoKind::PermissionDenied) => ExitClass::NoPerm,
        ErrorOrigin::Io(IoKind::Other) => ExitClass::IoErr,
        ErrorOrigin::Encode => ExitClass::DataErr,
        ErrorOrigin::GridIo => ExitClass::IoErr,
        ErrorOrigin::Grid => ExitClass::DataErr,
        ErrorOrigin::ImageLimits => ExitClass::OsErr,
        ErrorOrigin::ImageUnsupported => ExitClass::Unavailable,
        ErrorOrigin::ImageIo => ExitClass::IoErr,
        ErrorOrigin::Image => ExitClass::DataErr,
        ErrorOrigin::SvgUnavailable => ExitClass::Unavailable,
        ErrorOrigin::SvgMalformed => ExitClass::DataErr,
        ErrorOrigin::Usage => ExitClass::Usage,
        ErrorOrigin::Unclassified => ExitClass::Failure,
    }
}

/// The `<sysexits.h>` value of a class.
pub open spec fn spec_sysexit(class: ExitClass) -> u8 {
    match class {
        ExitClass::NoInput => 66,
        ExitClass::NoPerm => 77,
        ExitClass::IoErr => 74,
        ExitClass::DataErr => 65,
        ExitClass::OsErr => 71,
        ExitClass::Unavailable => 69,
        _ => 70,
    }
}

/// Relies on the values of `sysexits::ExitCode`, those of `<sysexits.h>`.
#[verifier::external_body]
fn sysexit(class: ExitClass) -> (r: u8)
    requires
        class != ExitClass::Usage,
        class != ExitClass::Failure,
    ensures
        r == spec_sysexit(class),
{
    (match class {
        ExitClass::NoInput => sysexits::ExitCode::NoInput,
        ExitClass::NoPerm => sysexits::ExitCode::NoPerm,
        ExitClass::IoErr => sysexits::ExitCode::IoErr,
        ExitClass::DataErr => sysexits::ExitCode::DataErr,
        ExitClass::OsErr => sysexits::ExitCode::OsErr,
        ExitClass::Unavailable => sysexits::ExitCode::Unavailable,
        ExitClass::Usage | ExitClass::Failure => sysexits::ExitCode::Software,
    }) as u8
}

/// The exit code of a class: 2 for a usage error, as for refused arguments,
/// 1 for a generic failure, the `<sysexits.h>` value otherwise.
pub open spec fn spec_exit_code(class: ExitClass) -> u8 {
    match class {
        ExitClass::Usage => 2,
        ExitClass::Failure => 1,
        _ => spec_sysexit(class),
    }
}

/// The exit code of a class.
pub fn exit_code(class: ExitClass) -> (r: u8)
    ensures
        r == spec_exit_code(class),
{
    match class {
        ExitClass::Usage => 2,
        ExitClass::Failure => 1,
        _ => sysexit(class),
    }
}

/// The kind of a raster codec error.
#[derive(Clone, Copy, Debug, PartialEq, Eq, Structural)]
pub enum ImageErrorKind {
    Decoding,
    Encoding,
    Parameter,
    Limits,
    Unsupported,
    Io,
}

/// The kind of a vector parser error.
#[derive(Clone, Copy, Debug, PartialEq, Eq, Structural)]
pub enum SvgErrorKind {
    NotAnUtf8Str,
    SvgzFeatureNotEnabled,
    MalformedGZip,
    ElementsLimitReached,
    InvalidSize,
    ParsingFailed,
}

/// The kind of a grid decoder error.
#[derive(Clone, Copy, Debug, PartialEq, Eq, Structural)]
pub enum GridErrorKind {
    Io,
    DataUnderflow,
    DataOverflow,
    UnknownDataType,
    DataEcc,
    FormatEcc,
    InvalidVersion,
    InvalidGridSize,
    Encoding,
}

/// Reads the variant of an `image::ImageError`.
#[verifier::external_body]
pub(crate) fn image_error_kind(e: &image::ImageError) -> ImageErrorKind {
    match e {
        image::ImageError::Decoding(_) => ImageErrorKind::Decoding,
        image::ImageError::Encoding(_) => ImageErrorKind::Encoding,
        image::ImageError::Parameter(_) => ImageErrorKind::Parameter,
        image::ImageError::Limits(_) => ImageErrorKind::Limits,
        image::ImageError::Unsupported(_) => ImageErrorKind::Unsupported,
        image::ImageError::IoError(_) => ImageErrorKind::Io,
    }
}

/// Reads the variant of a `usvg::Error`.
#[verifier::external_body]
pub(crate) fn svg_error_kind(e: &SvgError) -> SvgErrorKind {
    match e {
        SvgError::NotAnUtf8Str => SvgErrorKind::NotAnUtf8Str,
        SvgError::SvgzFeatureNotEnabled => SvgErrorKind::SvgzFeatureNotEnabled,
        SvgError::MalformedGZip => SvgErrorKind::MalformedGZip,
        SvgError::ElementsLimitReached => SvgErrorKind::ElementsLimitReached,
        SvgError::InvalidSize => SvgErrorKind::InvalidSize,
        SvgError::ParsingFailed(_) => SvgErrorKind::ParsingFailed,
    }
}

/// Reads the variant of an `rqrr::DeQRError`.
#[verifier::external_body]
pub(crate) fn grid_error_kind(e: &rqrr::DeQRError) -> GridErrorKind {
    match e {
        rqrr::DeQRError::IoError => GridErrorKind::Io,
        rqrr::DeQRError::DataUnderflow => GridErrorKind::DataUnderflow,
        rqrr::DeQRError::DataOverflow => GridErrorKind::DataOverflow,
        rqrr::DeQRError::UnknownDataType => GridErrorKind::UnknownDataType,
        rqrr::DeQRError::DataEcc => GridErrorKind::DataEcc,
        rqrr::DeQRError::FormatEcc => GridErrorKind::FormatEcc,
        rqrr::DeQRError::InvalidVersion => GridErrorKind::InvalidVersion,
        rqrr::DeQRError::InvalidGridSize => GridErrorKind::InvalidGridSize,
        rqrr::DeQRError::EncodingError => GridErrorKind::Encoding,
    }
}

/// The origin of a raster codec error: resource limits, an unsupported
/// operation, I/O, or anything else.
pub open spec fn spec_image_origin(kind: ImageErrorKind) -> ErrorOrigin {
    match kind {
        ImageErrorKind::Limits => ErrorOrigin::ImageLimits,
        ImageErrorKind::Unsupported => ErrorOrigin::ImageUnsupported,
        ImageErrorKind::Io => ErrorOrigin::ImageIo,
        _ => ErrorOrigin::Image,
    }
}

/// The origin of a raster codec error.
pub fn image_origin(kind: ImageErrorKind) -> (r: ErrorOrigin)
    ensures
        r == spec_image_origin(kind),
{
    match kind {
        ImageErrorKind::Limits => ErrorOrigin::ImageLimits,
        ImageErrorKind::Unsupported => ErrorOrigin::ImageUnsupported,
        ImageErrorKind::Io => ErrorOrigin::ImageIo,
        _ => ErrorOrigin::Image,
    }
}

/// The origin of a vector parser error: a document the parser cannot take
/// on, or a malformed one.
pub open spec fn spec_svg_origin(kind: SvgErrorKind) -> ErrorOrigin {
    match kind {
        SvgErrorKind::NotAnUtf8Str | SvgErrorKind::ElementsLimitReached
        | SvgErrorKind::SvgzFeatureNotEnabled => ErrorOrigin::SvgUnavailable,
        _ => ErrorOrigin::SvgMalformed,
    }
}

/// The origin of a vector parser error.
pub fn svg_origin(kind: SvgErrorKind) -> (r: ErrorOrigin)
    ensures
        r == spec_svg_origin(kind),
{
    match kind {
        SvgErrorKind::NotAnUtf8Str | SvgErrorKind::ElementsLimitReached
        | SvgErrorKind::SvgzFeatureNotEnabled => ErrorOrigin::SvgUnavailable,
        _ => ErrorOrigin::SvgMalformed,
    }
}

/// The origin of a grid decoder error: its output failing, or a malformed
/// symbol.
pub open spec fn spec_grid_origin(kind: GridErrorKind) -> ErrorOrigin {
    if kind == GridErrorKind::Io {
        ErrorOrigin::GridIo
    } else {
        ErrorOrigin::Grid
    }
}

/// The origin of a grid decoder error.
pub fn grid_origin(kind: GridErrorKind) -> (r: ErrorOrigin)
    ensures
        r == spec_grid_origin(kind),
{
    if kind == GridErrorKind::Io {
        ErrorOrigin::GridIo
    } else {
        ErrorOrigin::Grid
    }
}

impl EncodeError {
    /// Where the error came from.
    pub fn origin(&self) -> (r: ErrorOrigin)
        ensures
            r == ErrorOrigin::Encode,
    {
        ErrorOrigin::Encode
    }
}

impl RenderError {
    /// Where the error came from.
    pub fn origin(&self) -> (r: ErrorOrigin)
        ensures
            r == match self {
                RenderError::Image(kind, _) => spec_image_origin(*kind),
                _ => ErrorOrigin::Unclassified,
            },
    {
        match self {
            RenderError::Image(kind, _) => image_origin(*kind),
            _ => ErrorOrigin::Unclassified,
        }
    }
}

impl DecodeError {
    /// Where the error came from.
    pub fn origin(&self) -> (r: ErrorOrigin)
        ensures
            r == match self {
                DecodeError::FormatUndetermined | DecodeError::UnsupportedFormat(_) => ErrorOrigin::ImageUnsupported,
                DecodeError::Image(kind, _) => spec_image_origin(*kind),
                DecodeError::Svg(kind, _) => spec_svg_origin(*kind),
                DecodeError::Rasterize => ErrorOrigin::Unclassified,
                DecodeError::Grid(kind, _) => spec_grid_origin(*kind),
                DecodeError::InvalidLevel(_) => ErrorOrigin::Grid,
            },
    {
        match self {
            DecodeError::FormatUndetermined | DecodeError::UnsupportedFormat(_) => ErrorOrigin::ImageUnsupported,
            DecodeError::Image(kind, _) => image_origin(*kind),
            DecodeError::Svg(kind, _) => svg_origin(*kind),
            DecodeError::Rasterize => ErrorOrigin::Unclassified,
            DecodeError::Grid(kind, _) => grid_origin(*kind),
            DecodeError::InvalidLevel(_) => ErrorOrigin::Grid,
        }
    }
}

} // verus!
