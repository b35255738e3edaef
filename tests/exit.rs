use qrtool::exit::{classify, exit_code, ErrorOrigin, ExitClass, IoKind};

#[test]
fn classification_table() {
    let table = [
        (ErrorOrigin::Io(IoKind::NotFound), ExitClass::NoInput, 66),
        (ErrorOrigin::Io(IoKind::PermissionDenied), ExitClass::NoPerm, 77),
        (ErrorOrigin::Io(IoKind::Other), ExitClass::IoErr, 74),
        (ErrorOrigin::Encode, ExitClass::DataErr, 65),
        (ErrorOrigin::GridIo, ExitClass::IoErr, 74),
        (ErrorOrigin::Grid, ExitClass::DataErr, 65),
        (ErrorOrigin::ImageLimits, ExitClass::OsErr, 71),
        (ErrorOrigin::ImageUnsupported, ExitClass::Unavailable, 69),
        (ErrorOrigin::ImageIo, ExitClass::IoErr, 74),
        (ErrorOrigin::Image, ExitClass::DataErr, 65),
        (ErrorOrigin::SvgUnavailable, ExitClass::Unavailable, 69),
        (ErrorOrigin::SvgMalformed, ExitClass::DataErr, 65),
        (ErrorOrigin::Usage, ExitClass::Usage, 2),
        (ErrorOrigin::Unclassified, ExitClass::Failure, 1),
    ];
    for (origin, class, code) in table {
        assert_eq!(classify(origin), class);
        assert_eq!(exit_code(class), code);
    }
}
