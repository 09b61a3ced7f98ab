use quicksilver_errors::subsystem::{
    AtlasError, FontError, ImageLoadError, IoError, SerdeError, SoundError,
};
use quicksilver_errors::{Cause, ErrorKind, QuicksilverError};

#[test]
fn atlas_conversion_is_tagged_and_lossless() {
    let e = AtlasError::new(String::from("could not pack 3 regions"));
    let u = QuicksilverError::from(e);
    assert_eq!(u.kind(), ErrorKind::Atlas);
    assert_eq!(u.description().as_str(), "could not pack 3 regions");
    match u.cause() {
        Some(Cause::Atlas(back)) => {
            assert_eq!(back.message.as_str(), "could not pack 3 regions")
        }
        _ => panic!("cause must be the wrapped atlas failure"),
    }
}

#[test]
fn image_conversion_is_tagged_and_lossless() {
    let e = ImageLoadError::new(String::from("unsupported color type"));
    let u = QuicksilverError::from(e);
    assert_eq!(u.kind(), ErrorKind::Image);
    assert_eq!(u.description().as_str(), "unsupported color type");
    match u.cause() {
        Some(Cause::Image(back)) => {
            assert_eq!(back.message.as_str(), "unsupported color type")
        }
        _ => panic!("cause must be the wrapped image failure"),
    }
}

#[test]
fn sound_conversion_is_tagged_and_lossless() {
    let e = SoundError::new(String::from("malformed vorbis stream"));
    let u = QuicksilverError::from(e);
    assert_eq!(u.kind(), ErrorKind::Sound);
    assert_eq!(u.description().as_str(), "malformed vorbis stream");
    match u.cause() {
        Some(Cause::Sound(back)) => {
            assert_eq!(back.message.as_str(), "malformed vorbis stream")
        }
        _ => panic!("cause must be the wrapped sound failure"),
    }
}

#[test]
fn io_conversion_is_tagged_and_lossless() {
    let e = IoError::new(String::from("permission denied"));
    let u = QuicksilverError::from(e);
    assert_eq!(u.kind(), ErrorKind::Io);
    assert_eq!(u.description().as_str(), "permission denied");
    match u.cause() {
        Some(Cause::Io(back)) => assert_eq!(back.message.as_str(), "permission denied"),
        _ => panic!("cause must be the wrapped filesystem failure"),
    }
}

#[test]
fn serde_conversion_is_tagged_and_lossless() {
    let e = SerdeError::new(String::from("expected value at line 1 column 1"));
    let u = QuicksilverError::from(e);
    assert_eq!(u.kind(), ErrorKind::Serde);
    assert_eq!(u.description().as_str(), "expected value at line 1 column 1");
    match u.cause() {
        Some(Cause::Serde(back)) => {
            assert_eq!(back.message.as_str(), "expected value at line 1 column 1")
        }
        _ => panic!("cause must be the wrapped serialization failure"),
    }
}

#[test]
fn font_conversion_is_tagged_and_lossless() {
    let e = FontError::new(String::from("missing glyph table"));
    let u = QuicksilverError::from(e);
    assert_eq!(u.kind(), ErrorKind::Font);
    assert_eq!(u.description().as_str(), "missing glyph table");
    match u.cause() {
        Some(Cause::Font(back)) => assert_eq!(back.message.as_str(), "missing glyph table"),
        _ => panic!("cause must be the wrapped font failure"),
    }
}

#[test]
fn conversion_works_through_into() {
    let u: QuicksilverError = AtlasError::new(String::from("atlas full")).into();
    assert_eq!(u.kind(), ErrorKind::Atlas);
    assert_eq!(u.description().as_str(), "atlas full");
}

#[test]
fn empty_description_is_kept_empty() {
    let u = QuicksilverError::from(SoundError::new(String::new()));
    assert_eq!(u.kind(), ErrorKind::Sound);
    assert_eq!(u.description().as_str(), "");
}

#[test]
fn cause_describe_matches_description() {
    let u = QuicksilverError::from(FontError::new(String::from("bad offset")));
    let c = u.cause().expect("every unified error wraps a cause");
    assert_eq!(c.describe().as_str(), u.description().as_str());
}

#[test]
fn kinds_distinguish_subsystems() {
    let a = QuicksilverError::from(AtlasError::new(String::from("x")));
    let i = QuicksilverError::from(ImageLoadError::new(String::from("x")));
    let s = QuicksilverError::from(SoundError::new(String::from("x")));
    let o = QuicksilverError::from(IoError::new(String::from("x")));
    let j = QuicksilverError::from(SerdeError::new(String::from("x")));
    let f = QuicksilverError::from(FontError::new(String::from("x")));
    let kinds = [a.kind(), i.kind(), s.kind(), o.kind(), j.kind(), f.kind()];
    for x in 0..kinds.len() {
        for y in 0..kinds.len() {
            if x != y {
                assert_ne!(kinds[x], kinds[y]);
            }
        }
    }
}

#[test]
fn file_not_found_is_an_io_failure_with_its_message() {
    let native = std::io::Error::new(
        std::io::ErrorKind::NotFound,
        "file not found: assets/font.ttf",
    );
    let rendered = native.to_string();
    let u = QuicksilverError::from_io_native(native);
    assert_eq!(u.kind(), ErrorKind::Io);
    assert!(u.description().contains("not found"));
    assert_eq!(u.description().as_str(), rendered.as_str());
    match u.cause() {
        Some(Cause::Io(back)) => assert_eq!(back.message.as_str(), rendered.as_str()),
        _ => panic!("cause must be the wrapped filesystem failure"),
    }
}

#[test]
fn malformed_png_is_an_image_failure_with_a_specific_message() {
    // A PNG signature followed by an IHDR chunk whose checksum is corrupt.
    let mut bytes: Vec<u8> = vec![0x89, b'P', b'N', b'G', 0x0d, 0x0a, 0x1a, 0x0a];
    bytes.extend_from_slice(&[0, 0, 0, 13]);
    bytes.extend_from_slice(b"IHDR");
    bytes.extend_from_slice(&[0, 0, 0, 1, 0, 0, 0, 1, 8, 0, 0, 0, 0]);
    bytes.extend_from_slice(&[0xde, 0xad, 0xbe, 0xef]);
    let native = match image::load_from_memory(&bytes) {
        Err(e) => e,
        Ok(_) => panic!("malformed bytes must not decode"),
    };
    let rendered = native.to_string();
    let u = QuicksilverError::from_image_native(native);
    assert_eq!(u.kind(), ErrorKind::Image);
    assert_eq!(u.description().as_str(), rendered.as_str());
    assert!(u.description().contains("Png"));
    match u.cause() {
        Some(Cause::Image(back)) => assert_eq!(back.message.as_str(), rendered.as_str()),
        _ => panic!("cause must be the wrapped image failure"),
    }
}

#[test]
fn undetermined_image_format_keeps_the_codec_message() {
    let bytes: Vec<u8> = vec![0, 1, 2, 3];
    let native = match image::load_from_memory(&bytes) {
        Err(e) => e,
        Ok(_) => panic!("unknown bytes must not decode"),
    };
    let rendered = native.to_string();
    let u = QuicksilverError::from_image_native(native);
    assert_eq!(u.kind(), ErrorKind::Image);
    assert_eq!(u.description().as_str(), rendered.as_str());
}

#[test]
fn unrecognized_audio_format_is_a_sound_failure() {
    let native = rodio::decoder::DecoderError::UnrecognizedFormat;
    let rendered = native.to_string();
    let u = QuicksilverError::from_sound_native(native);
    assert_eq!(u.kind(), ErrorKind::Sound);
    assert_eq!(u.description().as_str(), rendered.as_str());
    assert_eq!(
        u.description().as_str(),
        "The format of the data has not been recognized."
    );
}

#[test]
fn ill_formed_font_is_a_font_failure() {
    let native = rusttype::Error::IllFormed;
    let rendered = native.to_string();
    let u = QuicksilverError::from_font_native(native);
    assert_eq!(u.kind(), ErrorKind::Font);
    assert_eq!(u.description().as_str(), rendered.as_str());
    assert_eq!(u.description().as_str(), "Font data is ill-formed");
}

#[test]
fn malformed_json_is_a_serde_failure_with_position() {
    let native = match serde_json::from_str::<serde_json::Value>("{ not json") {
        Err(e) => e,
        Ok(_) => panic!("malformed input must not parse"),
    };
    let rendered = native.to_string();
    let u = QuicksilverError::from_serde_native(native);
    assert_eq!(u.kind(), ErrorKind::Serde);
    assert_eq!(u.description().as_str(), rendered.as_str());
    assert!(u.description().contains("line 1"));
}
