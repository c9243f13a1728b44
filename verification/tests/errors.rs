use libmpv_client::error::{error_to_result, error_to_result_code, DebugLoc, Error, RustError};
use libmpv_client::format::Format;
use libmpv_client::raw::{MPV_FORMAT_BYTE_ARRAY, MPV_FORMAT_NODE, MPV_FORMAT_OSD_STRING};

fn table() -> Vec<(i32, Error)> {
    vec![
        (-1, Error::EventQueueFull),
        (-2, Error::NoMemory),
        (-3, Error::Uninitialized),
        (-4, Error::InvalidParameter),
        (-5, Error::OptionNotFound),
        (-6, Error::OptionFormat),
        (-7, Error::OptionError),
        (-8, Error::PropertyNotFound),
        (-9, Error::PropertyFormat),
        (-10, Error::PropertyUnavailable),
        (-11, Error::PropertyError),
        (-12, Error::Command),
        (-13, Error::LoadingFailed),
        (-14, Error::AoInitFailed),
        (-15, Error::VoInitFailed),
        (-16, Error::NothingToPlay),
        (-17, Error::UnknownFormat),
        (-18, Error::Unsupported),
        (-19, Error::NotImplemented),
        (-20, Error::Generic),
    ]
}

#[test]
fn every_status_code_has_its_error() {
    for (code, error) in table() {
        assert_eq!(Error::from(code), error);
        assert_eq!(i32::from(&error), code);
        assert_eq!(error_to_result(code), Err(Error::from(code)));
        assert_eq!(error_to_result_code(code), Err(Error::from(code)));
    }
}

#[test]
fn success_keeps_its_value() {
    for value in [0, 1, 42, i32::MAX] {
        assert_eq!(Error::from(value), Error::Success(value));
        assert_eq!(i32::from(&Error::Success(value)), value);
        assert_eq!(error_to_result_code(value), Ok(value));
        assert_eq!(error_to_result(value), Ok(()));
    }
}

#[test]
fn errors_of_the_bridge_are_reported_as_generic() {
    assert_eq!(i32::from(&Error::Rust(RustError::Pointer(None))), -20);
    assert_eq!(i32::from(&Error::Rust(RustError::InteriorNull(3))), -20);
    let loc = DebugLoc { file: "f.rs", line: 7, function: "f", variable: Some("ptr") };
    assert_eq!(i32::from(&Error::Rust(RustError::Pointer(Some(loc)))), -20);
    assert_eq!(Error::pointer(), Error::Rust(RustError::Pointer(None)));
}

#[test]
fn every_format_has_its_discriminator() {
    let formats = [
        Format::Empty,
        Format::String,
        Format::OsdString,
        Format::Flag,
        Format::Int64,
        Format::Double,
        Format::Node,
        Format::NodeArray,
        Format::NodeMap,
        Format::ByteArray,
    ];
    for (id, format) in formats.iter().enumerate() {
        assert_eq!(format.to_id(), id as u32);
        assert_eq!(Format::from_id(id as u32), Some(*format));
    }
    assert_eq!(Format::OsdString.to_id(), MPV_FORMAT_OSD_STRING);
    assert_eq!(Format::Node.to_id(), MPV_FORMAT_NODE);
    assert_eq!(Format::from_id(MPV_FORMAT_BYTE_ARRAY + 1), None);
    assert_eq!(Format::from_id(u32::MAX), None);
}

#[test]
fn a_status_that_the_interface_does_not_define_is_kept() {
    for value in [-21, -22, -1000, i32::MIN] {
        assert_eq!(Error::from(value), Error::Undefined(value));
        assert_eq!(i32::from(&Error::from(value)), value);
        assert_eq!(error_to_result_code(value), Err(Error::Undefined(value)));
        assert_eq!(error_to_result(value), Err(Error::Undefined(value)));
    }
    assert_eq!(Error::from(-20), Error::Generic);
    assert_eq!(i32::from(&Error::Undefined(-77)), -77);
}

#[test]
fn every_status_is_named_again_by_its_error() {
    for value in (-40..40).chain([i32::MIN, i32::MAX]) {
        assert_eq!(i32::from(&Error::from(value)), value);
        match error_to_result_code(value) {
            Ok(kept) => {
                assert!(value >= 0);
                assert_eq!(kept, value);
            }
            Err(e) => {
                assert!(value < 0);
                assert!(!matches!(e, Error::Success(_)));
                assert_eq!(i32::from(&e), value);
            }
        }
    }
}
