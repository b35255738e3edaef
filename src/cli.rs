//! The options of the program, as plain values, and their validation.

use vstd::prelude::*;
use crate::color::Rgba;

verus! {

/// Error correction level.
#[derive(Clone, Copy, Debug, PartialEq, Eq, Structural)]
pub enum Ecc {
    /// Level L: 7% of codewords can be restored.
    L,
    /// Level M: 15% of codewords can be restored.
    M,
    /// Level Q: 25% of codewords can be restored.
    Q,
    /// Level H: 30% of codewords can be restored.
    H,
}

impl Default for Ecc {
    fn default() -> (r: Self)
        ensures
            r == Ecc::M,
    {
        Ecc::M
    }
}

/// The format of the output.
#[derive(Clone, Copy, Debug, PartialEq, Eq, Structural)]
pub enum OutputFormat {
    /// Portable Network Graphics.
    Png,
    /// Scalable Vector Graphics.
    Svg,
    /// PIC markup language.
    Pic,
    /// To the terminal using 4-bit ANSI escape sequences.
    Ansi,
    /// To the terminal using 8-bit ANSI escape sequences.
    Ansi256,
    /// To the terminal using 24-bit ANSI escape sequences.
    AnsiTrueColor,
    /// To the terminal as ASCII string.
    Ascii,
    /// To the terminal as ASCII string, with the colors swapped.
    AsciiInvert,
    /// To the terminal as UTF-8 string.
    Unicode,
    /// To the terminal as UTF-8 string, with the colors swapped.
    UnicodeInvert,
}

impl Default for OutputFormat {
    fn default() -> (r: Self)
        ensures
            r == OutputFormat::Png,
    {
        OutputFormat::Png
    }
}

impl OutputFormat {
    /// The formats that carry no color: PIC, ASCII and Unicode, inverted or not.
    pub open spec fn spec_is_colorless(self) -> bool {
        match self {
            OutputFormat::Pic | OutputFormat::Ascii | OutputFormat::AsciiInvert
            | OutputFormat::Unicode | OutputFormat::UnicodeInvert => true,
            _ => false,
        }
    }

    /// The formats drawn with text glyphs, one cell per module by default.
    pub open spec fn spec_is_text(self) -> bool {
        match self {
            OutputFormat::Png | OutputFormat::Svg | OutputFormat::Pic => false,
            _ => true,
        }
    }

    /// The formats whose light and dark are swapped.
    pub open spec fn spec_is_invert(self) -> bool {
        self == OutputFormat::AsciiInvert || self == OutputFormat::UnicodeInvert
    }

    /// Whether the format carries no color.
    pub fn is_colorless(self) -> (r: bool)
        ensures
            r == self.spec_is_colorless(),
    {
        match self {
            OutputFormat::Pic | OutputFormat::Ascii | OutputFormat::AsciiInvert
            | OutputFormat::Unicode | OutputFormat::UnicodeInvert => true,
            _ => false,
        }
    }

    /// Whether the format is drawn with text glyphs.
    pub fn is_text(self) -> (r: bool)
        ensures
            r == self.spec_is_text(),
    {
        match self {
            OutputFormat::Png | OutputFormat::Svg | OutputFormat::Pic => false,
            _ => true,
        }
    }

    /// Whether the format swaps light and dark.
    pub fn is_invert(self) -> (r: bool)
        ensures
            r == self.spec_is_invert(),
    {
        matches!(self, OutputFormat::AsciiInvert | OutputFormat::UnicodeInvert)
    }
}

/// The optimization level for a PNG image, from the fastest to the
/// strongest.
#[derive(Clone, Copy, Debug, PartialEq, Eq, Structural)]
pub enum PngOptimizationLevel {
    Level0,
    Level1,
    Level2,
    Level3,
    Level4,
    Level5,
    Level6,
}

impl PngOptimizationLevel {
    /// The number of the level.
    pub open spec fn spec_number(self) -> u8 {
        match self {
            PngOptimizationLevel::Level0 => 0,
            PngOptimizationLevel::Level1 => 1,
            PngOptimizationLevel::Level2 => 2,
            PngOptimizationLevel::Level3 => 3,
            PngOptimizationLevel::Level4 => 4,
            PngOptimizationLevel::Level5 => 5,
            PngOptimizationLevel::Level6 => 6,
        }
    }
}

impl From<PngOptimizationLevel> for u8 {
    fn from(level: PngOptimizationLevel) -> (r: u8) {
        match level {
            PngOptimizationLevel::Level0 => 0,
            PngOptimizationLevel::Level1 => 1,
            PngOptimizationLevel::Level2 => 2,
            PngOptimizationLevel::Level3 => 3,
            PngOptimizationLevel::Level4 => 4,
            PngOptimizationLevel::Level5 => 5,
            PngOptimizationLevel::Level6 => 6,
        }
    }
}

impl vstd::std_specs::convert::FromSpecImpl<PngOptimizationLevel> for u8 {
    open spec fn obeys_from_spec() -> bool {
        true
    }

    open spec fn from_spec(level: PngOptimizationLevel) -> u8 {
        level.spec_number()
    }
}

/// The encoding mode of the data.
#[derive(Clone, Copy, Debug, PartialEq, Eq, Structural)]
pub enum Mode {
    /// All digits.
    Numeric,
    /// Alphanumerics and few symbols.
    Alphanumeric,
    /// Arbitrary binary data.
    Byte,
    /// Shift JIS text.
    Kanji,
}

/// The family of the symbol.
#[derive(Clone, Copy, Debug, PartialEq, Eq, Structural)]
pub enum Variant {
    /// Normal QR code.
    Normal,
    /// Micro QR code.
    Micro,
    /// Rectangular Micro QR code.
    Rmqr,
}

impl Default for Variant {
    fn default() -> (r: Self)
        ensures
            r == Variant::Normal,
    {
        Variant::Normal
    }
}

/// The format of a decoded image.
#[derive(Clone, Copy, Debug, PartialEq, Eq, Structural)]
pub enum InputFormat {
    Bmp,
    Dds,
    Farbfeld,
    Gif,
    Hdr,
    /// ICO, and CUR as well.
    Ico,
    Jpeg,
    OpenExr,
    Png,
    Pnm,
    Qoi,
    /// SVG, and its gzip-compressed form as well.
    Svg,
    Tga,
    Tiff,
    WebP,
    Xbm,
}

/// A shell to generate completion for.
#[derive(Clone, Copy, Debug, PartialEq, Eq, Structural)]
pub enum Shell {
    Bash,
    Elvish,
    Fish,
    Nushell,
    PowerShell,
    Zsh,
}

/// A file system path, carried through as it is.
#[verifier::external_type_specification]
#[verifier::external_body]
pub struct ExPathBuf(std::path::PathBuf);

/// Options of the encode command.
#[derive(Debug)]
pub struct Encode {
    /// Where to write the result; standard output when absent.
    pub output: Option<std::path::PathBuf>,
    /// Where to read the data from, when not given inline.
    pub read_from: Option<std::path::PathBuf>,
    /// The module size in pixels.
    pub size: Option<u32>,
    pub error_correction_level: Ecc,
    /// The version of the symbol: the number, or for rMQR its height and
    /// width. Empty when the smallest version that holds the data is wanted.
    pub symbol_version: Vec<i16>,
    /// The width of the margin in modules.
    pub margin: Option<u32>,
    pub output_format: OutputFormat,
    pub optimize_png: Option<PngOptimizationLevel>,
    /// The number of Zopfli iterations for PNG compression.
    pub zopfli: Option<u8>,
    pub mode: Option<Mode>,
    pub variant: Variant,
    pub foreground: Rgba,
    pub background: Rgba,
    pub verbose: bool,
    /// The data, when given inline.
    pub input: Option<String>,
}

/// Options of the decode command.
#[derive(Debug)]
pub struct Decode {
    /// The format of the input, when given explicitly.
    pub input_format: Option<InputFormat>,
    /// Also print the metadata.
    pub verbose: bool,
    /// Print only the metadata.
    pub metadata: bool,
    /// The input image file; standard input when absent or `-`.
    pub input: Option<std::path::PathBuf>,
}

/// Options of the completion command.
#[derive(Debug)]
pub struct Completion {
    pub shell: Shell,
}

/// The command to run.
#[derive(Debug)]
pub enum Command {
    Encode(Encode),
    Decode(Decode),
    Completion(Completion),
}

/// The options of the program.
#[derive(Debug)]
pub struct Opt {
    pub command: Command,
}

/// A combination of options that is refused before any work.
#[derive(Clone, Copy, Debug, PartialEq, Eq, Structural)]
pub enum OptionsError {
    /// PNG optimization was asked for another output format.
    OutputFormatNotPng,
    /// Colors were given for a format that carries none.
    ColorsNotSupported,
}

impl OptionsError {
    /// The message that describes the refusal.
    pub fn message(&self) -> (r: &'static str)
        ensures
            *self == OptionsError::OutputFormatNotPng ==> r@ == "output format is not PNG"@,
            *self == OptionsError::ColorsNotSupported ==> r@
                == "foreground and/or background colors cannot be changed"@,
    {
        match self {
            OptionsError::OutputFormatNotPng => "output format is not PNG",
            OptionsError::ColorsNotSupported => "foreground and/or background colors cannot be changed",
        }
    }
}

/// The verdict on the options of an encode command.
pub open spec fn spec_check_encode(
    format: OutputFormat,
    optimize_png: bool,
    foreground: Rgba,
    background: Rgba,
) -> Result<(), OptionsError> {
    if optimize_png && format != OutputFormat::Png {
        Err(OptionsError::OutputFormatNotPng)
    } else if format.spec_is_colorless() && !(foreground == Rgba::spec_black()
        && background == Rgba::spec_white()) {
        Err(OptionsError::ColorsNotSupported)
    } else {
        Ok(())
    }
}

/// Checks the options of an encode command: PNG optimization only for PNG
/// output, and the default colors only for the formats that carry none.
pub fn check_encode(
    format: OutputFormat,
    optimize_png: bool,
    foreground: Rgba,
    background: Rgba,
) -> (r: Result<(), OptionsError>)
    ensures
        r == spec_check_encode(format, optimize_png, foreground, background),
{
    if optimize_png && format != OutputFormat::Png {
        return Err(OptionsError::OutputFormatNotPng);
    }
    let black = Rgba::black();
    let white = Rgba::white();
    if format.is_colorless() && !(foreground == black && background == white) {
        return Err(OptionsError::ColorsNotSupported);
    }
    Ok(())
}

impl Opt {
    /// Validates arguments.
    pub fn validate(self) -> (r: Result<Self, OptionsError>)
        ensures
            match self.command {
                Command::Encode(e) => match spec_check_encode(
                    e.output_format,
                    e.optimize_png is Some,
                    e.foreground,
                    e.background,
                ) {
                    Ok(_) => r == Ok::<Opt, OptionsError>(self),
                    Err(k) => r == Err::<Opt, OptionsError>(k),
                },
                _ => r == Ok::<Opt, OptionsError>(self),
            },
    {
        let verdict = match &self.command {
            Command::Encode(arg) => check_encode(
                arg.output_format,
                arg.optimize_png.is_some(),
                arg.foreground,
                arg.background,
            ),
            _ => Ok(()),
        };
        match verdict {
            Ok(()) => Ok(self),
            Err(k) => Err(k),
        }
    }
}

/// Requesting a format that carries no color, with any foreground or
/// background other than the defaults, is refused for that reason.
pub proof fn lemma_colorless_rejects_colors(
    format: OutputFormat,
    foreground: Rgba,
    background: Rgba,
)
    requires
        format.spec_is_colorless(),
        foreground != Rgba::spec_black() || background != Rgba::spec_white(),
    ensures
        spec_check_encode(format, false, foreground, background) == Err::<(), OptionsError>(
            OptionsError::ColorsNotSupported,
        ),
{
}

} // verus!
