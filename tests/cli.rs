use qrtool::cli::{
    check_encode, Command, Completion, Ecc, Encode, Opt, OptionsError, OutputFormat,
    PngOptimizationLevel, Shell, Variant,
};
use qrtool::color::Rgba;

#[test]
fn default_ecc() {
    assert_eq!(Ecc::default(), Ecc::M);
}

#[test]
fn default_output_format() {
    assert_eq!(OutputFormat::default(), OutputFormat::Png);
}

#[test]
fn from_png_optimization_level_to_u8() {
    assert_eq!(u8::from(PngOptimizationLevel::Level0), 0);
    assert_eq!(u8::from(PngOptimizationLevel::Level1), 1);
    assert_eq!(u8::from(PngOptimizationLevel::Level2), 2);
    assert_eq!(u8::from(PngOptimizationLevel::Level3), 3);
    assert_eq!(u8::from(PngOptimizationLevel::Level4), 4);
    assert_eq!(u8::from(PngOptimizationLevel::Level5), 5);
    assert_eq!(u8::from(PngOptimizationLevel::Level6), 6);
}

#[test]
fn default_variant() {
    assert_eq!(Variant::default(), Variant::Normal);
}

const COLORLESS: [OutputFormat; 5] = [
    OutputFormat::Pic,
    OutputFormat::Ascii,
    OutputFormat::AsciiInvert,
    OutputFormat::Unicode,
    OutputFormat::UnicodeInvert,
];

#[test]
fn colorless_formats_refuse_any_non_default_color() {
    let red = Rgba::from_rgba8(255, 0, 0, 255);
    for format in COLORLESS {
        assert_eq!(check_encode(format, false, Rgba::black(), Rgba::white()), Ok(()));
        assert_eq!(
            check_encode(format, false, red, Rgba::white()),
            Err(OptionsError::ColorsNotSupported)
        );
        assert_eq!(
            check_encode(format, false, Rgba::black(), red),
            Err(OptionsError::ColorsNotSupported)
        );
        assert_eq!(
            check_encode(format, false, red, red),
            Err(OptionsError::ColorsNotSupported)
        );
        assert_eq!(
            check_encode(format, false, Rgba::white(), Rgba::black()),
            Err(OptionsError::ColorsNotSupported)
        );
    }
}

#[test]
fn colored_formats_accept_colors() {
    let red = Rgba::from_rgba8(255, 0, 0, 128);
    for format in [
        OutputFormat::Png,
        OutputFormat::Svg,
        OutputFormat::Ansi,
        OutputFormat::Ansi256,
        OutputFormat::AnsiTrueColor,
    ] {
        assert_eq!(check_encode(format, false, red, Rgba::white()), Ok(()));
    }
}

#[test]
fn png_optimization_needs_png_output() {
    assert_eq!(
        check_encode(OutputFormat::Png, true, Rgba::black(), Rgba::white()),
        Ok(())
    );
    assert_eq!(
        check_encode(OutputFormat::Svg, true, Rgba::black(), Rgba::white()),
        Err(OptionsError::OutputFormatNotPng)
    );
    assert_eq!(
        check_encode(OutputFormat::Ascii, true, Rgba::black(), Rgba::white()),
        Err(OptionsError::OutputFormatNotPng)
    );
}

fn encode_options(format: OutputFormat, foreground: Rgba) -> Encode {
    Encode {
        output: None,
        read_from: None,
        size: None,
        error_correction_level: Ecc::M,
        symbol_version: Vec::new(),
        margin: None,
        output_format: format,
        optimize_png: None,
        zopfli: None,
        mode: None,
        variant: Variant::Normal,
        foreground,
        background: Rgba::white(),
        verbose: false,
        input: Some("QR code".to_string()),
    }
}

#[test]
fn validate_checks_encode_options_only() {
    let opt = Opt {
        command: Command::Encode(encode_options(OutputFormat::Ascii, Rgba::black())),
    };
    assert!(opt.validate().is_ok());
    let opt = Opt {
        command: Command::Encode(encode_options(
            OutputFormat::Unicode,
            Rgba::from_rgba8(1, 2, 3, 255),
        )),
    };
    assert_eq!(
        opt.validate().unwrap_err(),
        OptionsError::ColorsNotSupported
    );
    let opt = Opt {
        command: Command::Completion(Completion { shell: Shell::Bash }),
    };
    assert!(opt.validate().is_ok());
}

#[test]
fn option_refusal_messages() {
    assert_eq!(OptionsError::OutputFormatNotPng.message(), "output format is not PNG");
    assert_eq!(
        OptionsError::ColorsNotSupported.message(),
        "foreground and/or background colors cannot be changed"
    );
}
