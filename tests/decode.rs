use qrtool::cli::{Decode, Ecc, InputFormat};
use qrtool::decode::{
    ecc_from_bits, extension_of, format_from_extension, from_svg, grids_as_bytes, negotiate,
    resolve_format, sniff, DecodeError, GridMetadata,
};
use qrtool::metadata::{Extractor, Metadata, Version};
use qrtool::pipeline::{decode_input, is_stdin};

#[test]
fn decode_validate_metadata_extraction() {
    assert_eq!(
        GridMetadata {
            version: 1,
            ecc_level: 1
        }
        .metadata(),
        Metadata::new(Version::new((1, None)), Ecc::L)
    );
    assert_eq!(
        GridMetadata {
            version: 1,
            ecc_level: 0
        }
        .metadata(),
        Metadata::new(Version::new((1, None)), Ecc::M)
    );
    assert_eq!(
        GridMetadata {
            version: 1,
            ecc_level: 3
        }
        .metadata(),
        Metadata::new(Version::new((1, None)), Ecc::Q)
    );
    assert_eq!(
        GridMetadata {
            version: 1,
            ecc_level: 2
        }
        .metadata(),
        Metadata::new(Version::new((1, None)), Ecc::H)
    );
}

#[test]
fn ecc_bits() {
    assert_eq!(ecc_from_bits(0), Some(Ecc::M));
    assert_eq!(ecc_from_bits(1), Some(Ecc::L));
    assert_eq!(ecc_from_bits(2), Some(Ecc::H));
    assert_eq!(ecc_from_bits(3), Some(Ecc::Q));
    assert_eq!(ecc_from_bits(4), None);
}

#[test]
fn negotiation_precedence() {
    let svg = Some(InputFormat::Svg);
    let png = Some(InputFormat::Png);
    assert_eq!(negotiate(png, svg, svg).unwrap(), InputFormat::Png);
    assert_eq!(negotiate(None, svg, png).unwrap(), InputFormat::Svg);
    assert_eq!(negotiate(None, None, png).unwrap(), InputFormat::Png);
    assert!(matches!(
        negotiate(None, None, None),
        Err(DecodeError::FormatUndetermined)
    ));
}

const PNG_MAGIC: &[u8] = b"\x89PNG\r\n\x1a\n";
const SVG_DOC: &str = r#"<svg xmlns="http://www.w3.org/2000/svg" width="10" height="10"><rect width="10" height="10"/></svg>"#;

#[test]
fn explicit_format_beats_extension() {
    assert_eq!(
        resolve_format(Some(InputFormat::Png), Some("image.svg"), SVG_DOC.as_bytes()).unwrap(),
        InputFormat::Png
    );
    assert_eq!(
        resolve_format(None, Some("image.svg"), PNG_MAGIC).unwrap(),
        InputFormat::Svg
    );
    assert_eq!(
        resolve_format(None, Some("image.unknown"), PNG_MAGIC).unwrap(),
        InputFormat::Png
    );
    assert_eq!(
        resolve_format(None, None, SVG_DOC.as_bytes()).unwrap(),
        InputFormat::Svg
    );
    assert!(matches!(
        resolve_format(None, Some("notes.txt"), b"plain text"),
        Err(DecodeError::FormatUndetermined)
    ));
}

#[test]
fn extensions() {
    assert_eq!(extension_of("a/b/image.png"), Some("png"));
    assert_eq!(extension_of("image.tar.svgz"), Some("svgz"));
    assert_eq!(extension_of(".hidden"), None);
    assert_eq!(extension_of("dir.d/file"), None);
    assert_eq!(extension_of("file"), None);
    assert_eq!(format_from_extension("svg"), Some(InputFormat::Svg));
    assert_eq!(format_from_extension("svgz"), Some(InputFormat::Svg));
    assert_eq!(format_from_extension("png"), Some(InputFormat::Png));
    assert_eq!(format_from_extension("jpg"), Some(InputFormat::Jpeg));
    assert_eq!(format_from_extension("webp"), Some(InputFormat::WebP));
    assert_eq!(format_from_extension("txt"), None);
}

#[test]
fn content_sniffing() {
    assert_eq!(sniff(PNG_MAGIC), Some(InputFormat::Png));
    assert_eq!(sniff(b"GIF89a"), Some(InputFormat::Gif));
    assert_eq!(sniff(SVG_DOC.as_bytes()), Some(InputFormat::Svg));
    assert_eq!(sniff(b"hello"), None);
}

#[test]
fn svg_is_rasterized_at_its_size() {
    let image = from_svg(SVG_DOC.as_bytes()).unwrap();
    assert_eq!((image.width, image.height), (10, 10));
    assert_eq!(image.pixels.len(), 100);
    assert!(matches!(from_svg(b"<svg"), Err(DecodeError::Svg(..))));
}

#[test]
fn grids_fail_on_the_first_bad_one() {
    let ok = Ok((1usize, 0u16, b"a".to_vec()));
    let all = grids_as_bytes(vec![ok.clone(), Ok((2, 1, b"b".to_vec()))]).unwrap();
    assert_eq!(all.len(), 2);
    assert_eq!(all[1].bytes, b"b");
    assert_eq!(all[1].metadata, Metadata::new(Version::new((2, None)), Ecc::L));
    assert!(matches!(
        grids_as_bytes(vec![ok.clone(), Ok((1, 9, Vec::new()))]),
        Err(DecodeError::InvalidLevel(9))
    ));
    assert!(matches!(
        grids_as_bytes(vec![ok, Err(rqrr::DeQRError::FormatEcc)]),
        Err(DecodeError::Grid(..))
    ));
    assert!(grids_as_bytes(Vec::new()).unwrap().is_empty());
}

#[test]
fn undetermined_input_fails() {
    let arg = Decode {
        input_format: None,
        verbose: false,
        metadata: false,
        input: None,
    };
    assert!(matches!(
        decode_input(&arg, None, b"not an image"),
        Err(DecodeError::FormatUndetermined)
    ));
}

#[test]
fn stdin_paths() {
    assert!(is_stdin(None));
    assert!(is_stdin(Some("-")));
    assert!(!is_stdin(Some("-x")));
    assert!(!is_stdin(Some("image.png")));
}

#[test]
fn xbm_has_no_decoder() {
    assert!(matches!(
        qrtool::decode::load_image(b"#define x_width 1", InputFormat::Xbm),
        Err(DecodeError::UnsupportedFormat(InputFormat::Xbm))
    ));
    assert!(InputFormat::Png.is_raster());
    assert!(!InputFormat::Svg.is_raster());
}

#[test]
fn explicit_raster_flag_on_a_vector_file_is_a_data_error() {
    let arg = Decode {
        input_format: Some(InputFormat::Bmp),
        verbose: false,
        metadata: false,
        input: None,
    };
    let err = decode_input(&arg, Some("decode.svg"), SVG_DOC.as_bytes()).unwrap_err();
    assert!(matches!(err, DecodeError::Image(..)));
    assert_eq!(
        qrtool::exit::exit_code(qrtool::exit::classify(err.origin())),
        65
    );
}

#[test]
fn malformed_vector_documents_are_data_errors() {
    let err = from_svg(b"<svg").unwrap_err();
    assert!(matches!(err, DecodeError::Svg(..)));
    assert_eq!(
        qrtool::exit::exit_code(qrtool::exit::classify(err.origin())),
        65
    );
}
