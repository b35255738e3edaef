use qrtool::cli::{Ecc, Encode, Mode, OutputFormat, Variant};
use qrtool::color::Rgba;
use qrtool::encode::EncodeError;
use qrtool::exit::{classify, exit_code};
use qrtool::pipeline::{encode_to_output, EncodeFailure};
use qrtool::render::{Output, RenderError};

fn options(format: OutputFormat, variant: Variant, version: Vec<i16>) -> Encode {
    Encode {
        output: None,
        read_from: None,
        size: None,
        error_correction_level: Ecc::L,
        symbol_version: version,
        margin: None,
        output_format: format,
        optimize_png: None,
        zopfli: None,
        mode: None,
        variant,
        foreground: Rgba::black(),
        background: Rgba::white(),
        verbose: false,
        input: None,
    }
}

fn text(o: Output) -> String {
    match o {
        Output::Text(t) => t,
        Output::Bytes(_) => panic!("expected text"),
    }
}

#[test]
fn micro_symbols_get_a_narrow_quiet_zone() {
    let (symbol, out) =
        encode_to_output(&options(OutputFormat::Ascii, Variant::Micro, Vec::new()), b"123").unwrap();
    let out = text(out);
    let lines: Vec<&str> = out.lines().collect();
    assert_eq!(lines.len(), symbol.height + 4);
    assert_eq!(lines[0], " ".repeat(2 * (symbol.width + 4)));
    assert_eq!(lines[1], lines[0]);
    assert_ne!(lines[2], lines[0]);
}

#[test]
fn normal_symbols_get_a_wide_quiet_zone() {
    let (symbol, out) =
        encode_to_output(&options(OutputFormat::Ascii, Variant::Normal, Vec::new()), b"123").unwrap();
    let out = text(out);
    let lines: Vec<&str> = out.lines().collect();
    assert_eq!(symbol.width, 21);
    assert_eq!(lines.len(), 21 + 8);
    assert_eq!(lines[3], " ".repeat(2 * 29));
    assert_ne!(lines[4], lines[0]);
}

#[test]
fn encode_failures_and_their_exit_codes() {
    let bad_version = options(OutputFormat::Png, Variant::Micro, vec![5]);
    let err = encode_to_output(&bad_version, b"1").unwrap_err();
    assert!(matches!(err, EncodeFailure::Encode(EncodeError::InvalidVersion)));
    assert_eq!(exit_code(classify(err.origin())), 65);

    let mut bad_data = options(OutputFormat::Png, Variant::Normal, vec![1]);
    bad_data.mode = Some(Mode::Numeric);
    let err = encode_to_output(&bad_data, b"12a").unwrap_err();
    assert!(matches!(err, EncodeFailure::Encode(EncodeError::InvalidData)));

    let too_long = options(OutputFormat::Png, Variant::Normal, Vec::new());
    let err = encode_to_output(&too_long, &[b'x'; 3000]).unwrap_err();
    assert!(matches!(err, EncodeFailure::Encode(EncodeError::Engine(_))));
    assert_eq!(exit_code(classify(err.origin())), 65);

    let mut colored = options(OutputFormat::Unicode, Variant::Normal, Vec::new());
    colored.background = Rgba::from_rgba8(0, 0, 255, 255);
    let err = encode_to_output(&colored, b"1").unwrap_err();
    assert!(matches!(err, EncodeFailure::Render(RenderError::Options(_))));
    assert_eq!(exit_code(classify(err.origin())), 1);
}
