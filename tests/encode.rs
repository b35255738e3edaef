use qrtool::cli::{Decode, Ecc, Mode, OutputFormat, PngOptimizationLevel, Variant};
use qrtool::color::{parse_color, Rgba};
use qrtool::decode::load_image;
use qrtool::encode::{encode, push_data_for_selected_mode, set_version};
use qrtool::metadata::{Extractor, Metadata, Version};
use qrtool::pipeline::decode_input;
use qrtool::render::{
    to_ansi, to_ansi_256, to_ansi_true_color, collapse, pixel_layout, render, resolve_margin, resolve_module_size, to_ascii, to_image,
    to_pic, to_svg, to_unicode, Output, PixelLayout, RenderError, RenderRequest,
};
use qrtool::symbol::{Symbol, SymbolVersion};
use qrtool::cli::InputFormat;

#[test]
fn validate_qr_code_version() {
    // Valid normal QR code version.
    assert_eq!(
        set_version(&[1], Variant::Normal).unwrap(),
        SymbolVersion::Normal(1)
    );
    assert_eq!(
        set_version(&[40], Variant::Normal).unwrap(),
        SymbolVersion::Normal(40)
    );

    // Valid Micro QR code version.
    assert_eq!(
        set_version(&[1], Variant::Micro).unwrap(),
        SymbolVersion::Micro(1)
    );
    assert_eq!(
        set_version(&[4], Variant::Micro).unwrap(),
        SymbolVersion::Micro(4)
    );

    // Valid rMQR code version.
    assert_eq!(
        set_version(&[7, 43], Variant::Rmqr).unwrap(),
        SymbolVersion::RectMicro(7, 43)
    );
    assert_eq!(
        set_version(&[11, 27], Variant::Rmqr).unwrap(),
        SymbolVersion::RectMicro(11, 27)
    );
    assert_eq!(
        set_version(&[17, 139], Variant::Rmqr).unwrap(),
        SymbolVersion::RectMicro(17, 139)
    );

    // Invalid normal QR code version.
    assert!(set_version(&[0], Variant::Normal).is_err());
    assert!(set_version(&[41], Variant::Normal).is_err());

    // Invalid Micro QR code version.
    assert!(set_version(&[0], Variant::Micro).is_err());
    assert!(set_version(&[5], Variant::Micro).is_err());

    // Invalid rMQR code version.
    assert!(set_version(&[0, 0], Variant::Rmqr).is_err());
    assert!(set_version(&[7], Variant::Rmqr).is_err());
}

#[test]
fn encode_validate_metadata_extraction() {
    const DATA: [u8; 0] = [];
    let meta = |v: SymbolVersion, level: Ecc| {
        let variant = match v {
            SymbolVersion::Normal(_) => Variant::Normal,
            SymbolVersion::Micro(_) => Variant::Micro,
            SymbolVersion::RectMicro(..) => Variant::Rmqr,
        };
        encode(&DATA, level, variant, Some(v), None).unwrap().metadata()
    };

    assert_eq!(
        meta(SymbolVersion::Normal(1), Ecc::L),
        Metadata::new(Version::new((1, None)), Ecc::L)
    );
    assert_eq!(
        meta(SymbolVersion::Normal(1), Ecc::M),
        Metadata::new(Version::new((1, None)), Ecc::M)
    );
    assert_eq!(
        meta(SymbolVersion::Normal(1), Ecc::Q),
        Metadata::new(Version::new((1, None)), Ecc::Q)
    );
    assert_eq!(
        meta(SymbolVersion::Normal(1), Ecc::H),
        Metadata::new(Version::new((1, None)), Ecc::H)
    );

    assert_eq!(
        meta(SymbolVersion::Micro(4), Ecc::L),
        Metadata::new(Version::new((4, None)), Ecc::L)
    );
    assert_eq!(
        meta(SymbolVersion::Micro(4), Ecc::M),
        Metadata::new(Version::new((4, None)), Ecc::M)
    );
    assert_eq!(
        meta(SymbolVersion::Micro(4), Ecc::Q),
        Metadata::new(Version::new((4, None)), Ecc::Q)
    );

    assert_eq!(
        meta(SymbolVersion::RectMicro(7, 43), Ecc::M),
        Metadata::new(Version::new((7, Some(43))), Ecc::M)
    );
    assert_eq!(
        meta(SymbolVersion::RectMicro(7, 43), Ecc::H),
        Metadata::new(Version::new((7, Some(43))), Ecc::H)
    );
}

#[test]
fn version_text() {
    assert_eq!(Version::new((1, None)).to_string(), "1");
    assert_eq!(Version::new((40, None)).to_string(), "40");
    assert_eq!(Version::new((11, Some(43))).to_string(), "R11x43");
}

fn tiny() -> Symbol {
    Symbol {
        width: 2,
        height: 2,
        modules: vec![true, false, false, true],
        version: SymbolVersion::Normal(1),
        ecc: Ecc::M,
    }
}

#[test]
fn ascii_rendering() {
    assert_eq!(
        to_ascii(&tiny(), 1, None, false),
        "        \n  ##    \n    ##  \n        \n"
    );
    assert_eq!(
        to_ascii(&tiny(), 1, None, true),
        "########\n##  ####\n####  ##\n########\n"
    );
    assert_eq!(
        to_ascii(&tiny(), 0, Some(2), false),
        "####    \n####    \n    ####\n    ####\n"
    );
}

#[test]
fn unicode_rendering_is_inverse_by_default() {
    assert_eq!(
        to_unicode(&tiny(), 1, None, false),
        "\u{2588}\u{2580}\u{2588}\u{2588}\n\u{2588}\u{2588}\u{2584}\u{2588}\n"
    );
    assert_eq!(
        to_unicode(&tiny(), 1, None, true),
        " \u{2584}  \n  \u{2580} \n"
    );
}

#[test]
fn pic_rendering() {
    assert_eq!(
        to_pic(&tiny(), 1, Some(1)),
        "maxpswid=4;maxpsht=4;movewid=0;moveht=1;boxwid=1;boxht=1\n\
         define p { box wid $3 ht $4 fill 1 thickness 0.1 with .nw at $1,-$2 }\n\
         box wid maxpswid ht maxpsht with .nw at 0,0\n\
         p(1,1,1,1)\n\
         p(2,2,1,1)\n"
    );
}

#[test]
fn svg_rendering() {
    let colors = (Rgba::from_rgba8(165, 42, 42, 255), Rgba::white());
    assert_eq!(
        to_svg(&tiny(), 1, &colors, None),
        "<?xml version=\"1.0\" encoding=\"UTF-8\" standalone=\"yes\"?>\
         <svg xmlns=\"http://www.w3.org/2000/svg\" version=\"1.1\" width=\"32\" height=\"32\" \
         viewBox=\"0 0 32 32\" shape-rendering=\"crispEdges\">\
         <path d=\"M0 0h32v32H0z\" fill=\"#ffffff\"/>\
         <path fill=\"#a52a2a\" d=\"M8 8h8v8h-8zM16 16h8v8h-8z\"/></svg>\n"
    );
}

#[test]
fn module_size_and_margin_defaults() {
    assert_eq!(resolve_module_size(OutputFormat::Png, None), 8);
    assert_eq!(resolve_module_size(OutputFormat::Svg, None), 8);
    assert_eq!(resolve_module_size(OutputFormat::Pic, None), 8);
    assert_eq!(resolve_module_size(OutputFormat::Ascii, None), 1);
    assert_eq!(resolve_module_size(OutputFormat::UnicodeInvert, None), 1);
    assert_eq!(resolve_module_size(OutputFormat::Ansi256, None), 1);
    assert_eq!(resolve_module_size(OutputFormat::Png, Some(3)), 3);
    assert_eq!(resolve_module_size(OutputFormat::Png, Some(0)), 1);
}

#[test]
fn default_margin_follows_the_family() {
    let normal = encode(b"QR code", Ecc::M, Variant::Normal, None, None).unwrap();
    assert_eq!(resolve_margin(&normal, None), 4);
    assert_eq!(resolve_margin(&normal, Some(7)), 7);
    let micro = encode(b"123", Ecc::L, Variant::Micro, Some(SymbolVersion::Micro(2)), None).unwrap();
    assert_eq!(resolve_margin(&micro, None), 2);
    let rmqr = encode(b"1", Ecc::M, Variant::Rmqr, Some(SymbolVersion::RectMicro(7, 43)), None).unwrap();
    assert_eq!(resolve_margin(&rmqr, None), 4);
}

#[test]
fn raster_channels() {
    assert_eq!(pixel_layout(Rgba::black(), Rgba::white()), PixelLayout::Luma);
    assert_eq!(
        pixel_layout(Rgba::from_rgba8(165, 42, 42, 255), Rgba::white()),
        PixelLayout::Rgb
    );
    assert_eq!(pixel_layout(Rgba::white(), Rgba::black()), PixelLayout::Rgb);
    assert_eq!(
        pixel_layout(Rgba::black(), Rgba::from_rgba8(255, 255, 255, 254)),
        PixelLayout::Rgba
    );
    let image = to_image(&tiny(), 1, &(Rgba::black(), Rgba::white()), Some(1));
    assert_eq!((image.width, image.height), (4, 4));
    assert_eq!(image.layout, PixelLayout::Luma);
    assert_eq!(
        image.pixels,
        vec![255, 255, 255, 255, 255, 0, 255, 255, 255, 255, 0, 255, 255, 255, 255, 255]
    );
    let red = Rgba::from_rgba8(255, 0, 0, 255);
    let image = to_image(&tiny(), 0, &(red, Rgba::white()), Some(1));
    assert_eq!(image.layout, PixelLayout::Rgb);
    assert_eq!(image.pixels, vec![255, 0, 0, 255, 255, 255, 255, 255, 255, 255, 0, 0]);
    let clear = Rgba::from_rgba8(0, 0, 0, 0);
    let image = to_image(&tiny(), 0, &(red, clear), Some(1));
    assert_eq!(image.layout, PixelLayout::Rgba);
    assert_eq!(image.pixels.len(), 16);
}

#[test]
fn collapse_keeps_leading_channels() {
    let px = vec![1, 2, 3, 4, 5, 6, 7, 8];
    assert_eq!(collapse(&px, 1), vec![1, 5]);
    assert_eq!(collapse(&px, 3), vec![1, 2, 3, 5, 6, 7]);
    assert_eq!(collapse(&px, 4), px);
}

fn request(format: OutputFormat) -> RenderRequest {
    RenderRequest {
        format,
        margin: None,
        module_size: None,
        colors: (Rgba::black(), Rgba::white()),
        optimize_png: None,
        zopfli: None,
    }
}

fn bytes(o: Output) -> Vec<u8> {
    match o {
        Output::Bytes(b) => b,
        Output::Text(t) => t.into_bytes(),
    }
}

fn decode_png(png: &[u8]) -> Vec<(Metadata, Vec<u8>)> {
    let arg = Decode {
        input_format: None,
        verbose: false,
        metadata: false,
        input: None,
    };
    decode_input(&arg, None, png)
        .unwrap()
        .into_iter()
        .map(|d| (d.metadata, d.bytes))
        .collect()
}

#[test]
fn encode_and_decode_round_trip() {
    let symbol = encode(b"QR code", Ecc::M, Variant::Normal, None, None).unwrap();
    assert_eq!(symbol.version, SymbolVersion::Normal(1));
    assert_eq!(symbol.width, 21);
    let png = bytes(render(&symbol, &request(OutputFormat::Png)).unwrap());
    assert!(png.starts_with(b"\x89PNG"));
    let decoded = decode_png(&png);
    assert_eq!(decoded.len(), 1);
    assert_eq!(decoded[0].1, b"QR code");
    assert_eq!(
        decoded[0].0,
        Metadata::new(Version::new((1, None)), Ecc::M)
    );
}

#[test]
fn terminal_outputs_carry_one_sequence_per_cell() {
    let symbol = encode(b"QR code", Ecc::M, Variant::Normal, None, None).unwrap();
    let colors = (parse_color("brown").unwrap(), parse_color("lightslategray").unwrap());
    let cells = (21 + 8) * (21 + 8);
    let mut q = request(OutputFormat::AnsiTrueColor);
    q.colors = colors;
    let true_color = String::from_utf8(bytes(render(&symbol, &q).unwrap())).unwrap();
    assert_eq!(true_color.matches("\x1b[").count() / 2, cells);
    assert_eq!(true_color.matches("48;2;").count(), cells);
    q.format = OutputFormat::Ansi256;
    let fixed = String::from_utf8(bytes(render(&symbol, &q).unwrap())).unwrap();
    assert_eq!(fixed.matches("48;5;").count(), cells);
    assert!(!fixed.contains("38;2;"));
    assert!(!fixed.contains("48;2;"));
    q.format = OutputFormat::Ansi;
    let basic = String::from_utf8(bytes(render(&symbol, &q).unwrap())).unwrap();
    assert!(!basic.contains("48;5;"));
    assert!(!basic.contains("48;2;"));
    assert_eq!(basic.lines().count(), 29);
}

#[test]
fn png_optimization_levels_shrink_and_keep_pixels() {
    let symbol = encode(b"QR code", Ecc::M, Variant::Normal, None, None).unwrap();
    let plain = bytes(render(&symbol, &request(OutputFormat::Png)).unwrap());
    let pixels = load_image(&plain, InputFormat::Png).unwrap().pixels;
    let levels = [
        PngOptimizationLevel::Level0,
        PngOptimizationLevel::Level1,
        PngOptimizationLevel::Level2,
        PngOptimizationLevel::Level3,
        PngOptimizationLevel::Level4,
        PngOptimizationLevel::Level5,
        PngOptimizationLevel::Level6,
    ];
    let mut last = usize::MAX;
    for level in levels {
        let mut q = request(OutputFormat::Png);
        q.optimize_png = Some(level);
        let png = bytes(render(&symbol, &q).unwrap());
        assert!(png.len() <= last);
        last = png.len();
        assert_eq!(load_image(&png, InputFormat::Png).unwrap().pixels, pixels);
    }
}

#[test]
fn zopfli_compression_keeps_pixels() {
    let symbol = encode(b"QR code", Ecc::M, Variant::Normal, None, None).unwrap();
    let plain = bytes(render(&symbol, &request(OutputFormat::Png)).unwrap());
    let mut q = request(OutputFormat::Png);
    q.optimize_png = Some(PngOptimizationLevel::Level2);
    q.zopfli = Some(3);
    let png = bytes(render(&symbol, &q).unwrap());
    assert_eq!(
        load_image(&png, InputFormat::Png).unwrap().pixels,
        load_image(&plain, InputFormat::Png).unwrap().pixels
    );
    q.zopfli = Some(0);
    assert!(matches!(render(&symbol, &q), Err(RenderError::ZeroIterations)));
}

#[test]
fn rendering_twice_gives_the_same_bytes() {
    let symbol = encode(b"QR code", Ecc::H, Variant::Normal, None, None).unwrap();
    for format in [
        OutputFormat::Png,
        OutputFormat::Svg,
        OutputFormat::Pic,
        OutputFormat::Ascii,
        OutputFormat::AsciiInvert,
        OutputFormat::Unicode,
        OutputFormat::UnicodeInvert,
    ] {
        let a = bytes(render(&symbol, &request(format)).unwrap());
        let b = bytes(render(&symbol, &request(format)).unwrap());
        assert_eq!(a, b);
    }
}

#[test]
fn render_refusals() {
    let symbol = encode(b"QR code", Ecc::M, Variant::Normal, None, None).unwrap();
    let mut q = request(OutputFormat::Ascii);
    q.colors.0 = Rgba::from_rgba8(1, 1, 1, 255);
    assert!(matches!(render(&symbol, &q), Err(RenderError::Options(_))));
    let mut q = request(OutputFormat::Svg);
    q.optimize_png = Some(PngOptimizationLevel::Level1);
    assert!(matches!(render(&symbol, &q), Err(RenderError::Options(_))));
    let mut q = request(OutputFormat::Png);
    q.module_size = Some(100_000);
    assert!(matches!(render(&symbol, &q), Err(RenderError::TooLarge)));
}

#[test]
fn selected_modes() {
    let v = SymbolVersion::Normal(1);
    assert!(encode(b"0123456789", Ecc::M, Variant::Normal, Some(v), Some(Mode::Numeric)).is_ok());
    assert!(encode(b"ABC", Ecc::M, Variant::Normal, Some(v), Some(Mode::Numeric)).is_err());
    assert!(encode(b"HELLO WORLD", Ecc::M, Variant::Normal, Some(v), Some(Mode::Alphanumeric)).is_ok());
    assert!(encode(b"hello", Ecc::M, Variant::Normal, Some(v), Some(Mode::Byte)).is_ok());
    assert!(encode(&[0x93, 0x5f], Ecc::M, Variant::Normal, Some(v), Some(Mode::Kanji)).is_ok());
    assert!(encode(&[0u8; 100], Ecc::H, Variant::Normal, Some(v), Some(Mode::Byte)).is_err());
}

#[test]
fn push_data_in_a_mode() {
    let mut bits = qrtool::encode::BitStream::new(SymbolVersion::Normal(1)).unwrap();
    assert!(push_data_for_selected_mode(&mut bits, b"0123", Mode::Numeric).is_ok());
    assert!(push_data_for_selected_mode(&mut bits, b"abc", Mode::Alphanumeric).is_err());
}

#[test]
fn families_without_a_version() {
    let micro = encode(b"QR code", Ecc::L, Variant::Micro, None, None).unwrap();
    assert!(matches!(micro.version, SymbolVersion::Micro(_)));
    assert_eq!(resolve_margin(&micro, None), 2);
    let rmqr = encode(b"QR code", Ecc::H, Variant::Rmqr, None, None).unwrap();
    let meta = rmqr.metadata();
    assert_eq!(meta.symbol_version().to_string(), "R11x43");
    assert_eq!(meta.error_correction_level(), Ecc::H);
}

#[test]
fn terminal_cells_are_exact() {
    let colors = (Rgba::black(), Rgba::white());
    let cell = |code: &str| format!("\x1b[{code}m  \x1b[0m");
    let (d, l) = (cell("48;2;0;0;0"), cell("48;2;255;255;255"));
    assert_eq!(
        to_ansi_true_color(&tiny(), 0, &colors, None),
        format!("{d}{l}\n{l}{d}\n")
    );
    let (d, l) = (cell("48;5;16"), cell("48;5;231"));
    assert_eq!(to_ansi_256(&tiny(), 0, &colors, None), format!("{d}{l}\n{l}{d}\n"));
    let (d, l) = (cell("40"), cell("107"));
    assert_eq!(to_ansi(&tiny(), 0, &colors, None), format!("{d}{l}\n{l}{d}\n"));
}

#[test]
fn svg_rendering_decodes_back() {
    let symbol = encode(b"QR code", Ecc::M, Variant::Normal, None, None).unwrap();
    let svg = bytes(render(&symbol, &request(OutputFormat::Svg)).unwrap());
    let arg = Decode {
        input_format: None,
        verbose: false,
        metadata: false,
        input: None,
    };
    let decoded = decode_input(&arg, Some("code.svg"), &svg).unwrap();
    assert_eq!(decoded.len(), 1);
    assert_eq!(decoded[0].bytes, b"QR code");
}

#[test]
fn versions_outside_the_family_are_refused() {
    assert!(matches!(
        encode(b"1", Ecc::M, Variant::Micro, Some(SymbolVersion::Micro(0)), None),
        Err(qrtool::encode::EncodeError::InvalidVersion)
    ));
    assert!(matches!(
        encode(b"1", Ecc::M, Variant::Normal, Some(SymbolVersion::Micro(2)), None),
        Err(qrtool::encode::EncodeError::InvalidVersion)
    ));
    let v = SymbolVersion::Normal(1);
    assert!(matches!(
        encode(b"12x", Ecc::M, Variant::Normal, Some(v), Some(Mode::Numeric)),
        Err(qrtool::encode::EncodeError::InvalidData)
    ));
}
