//! Entry points for the collaborators' native failure types.
//!
//! Each collaborator (the image codec, the audio decoder, the font loader,
//! the serializer, the filesystem) reports failure with a type of its own.
//! A native failure is first normalized into the library's vocabulary for
//! that subsystem — its full rendered description is kept, nothing more is
//! read from it — and the normalized failure is then wrapped into the
//! unified error. Both steps are total: every native value converts.
//!
//! The native types are opaque here; all that is assumed of them is vstd's
//! own contract for `ToString::to_string`, which ties the extracted text to
//! the native value's display rendering.

use vstd::prelude::*;

use crate::error::{ErrorKind, QuicksilverError};
use crate::subsystem::{FontError, ImageLoadError, IoError, SerdeError, SoundError};

verus! {

use vstd::string::to_string_from_display_ensures;

/// Relies on `image::ImageError` (the image codec's failure type) existing;
/// nothing about its contents is assumed.
#[verifier::external_type_specification]
#[verifier::external_body]
pub struct ExImageError(image::ImageError);

/// Relies on `rodio::decoder::DecoderError` (the audio decoder's failure
/// type) existing; nothing about its contents is assumed.
#[verifier::external_type_specification]
#[verifier::external_body]
pub struct ExDecoderError(rodio::decoder::DecoderError);

/// Relies on `rusttype::Error` (the font loader's failure type) existing;
/// nothing about its contents is assumed.
#[verifier::external_type_specification]
#[verifier::external_body]
pub struct ExFontError(rusttype::Error);

/// Relies on `serde_json::Error` (the serializer's failure type) existing;
/// nothing about its contents is assumed.
#[verifier::external_type_specification]
#[verifier::external_body]
pub struct ExSerdeError(serde_json::Error);

/// Relies on `std::io::Error` (the storage layer's failure type) existing;
/// nothing about its contents is assumed.
#[verifier::external_type_specification]
#[verifier::external_body]
pub struct ExIoError(std::io::Error);

impl ImageLoadError {
    /// Normalizes the image codec's native failure into the library's image
    /// error, keeping the codec's full rendered description.
    pub fn from_native(err: image::ImageError) -> (r: ImageLoadError)
        ensures
            to_string_from_display_ensures(&err, r.message),
    {
        ImageLoadError { message: err.to_string() }
    }
}

impl SoundError {
    /// Normalizes the audio decoder's native failure into the library's
    /// sound error, keeping the decoder's full rendered description.
    pub fn from_native(err: rodio::decoder::DecoderError) -> (r: SoundError)
        ensures
            to_string_from_display_ensures(&err, r.message),
    {
        SoundError { message: err.to_string() }
    }
}

impl FontError {
    /// Normalizes the font loader's native failure into the library's font
    /// error, keeping the loader's full rendered description.
    pub fn from_native(err: rusttype::Error) -> (r: FontError)
        ensures
            to_string_from_display_ensures(&err, r.message),
    {
        FontError { message: err.to_string() }
    }
}

impl SerdeError {
    /// Normalizes the serializer's native failure into the library's
    /// serialization error, keeping the serializer's full rendered
    /// description.
    pub fn from_native(err: serde_json::Error) -> (r: SerdeError)
        ensures
            to_string_from_display_ensures(&err, r.message),
    {
        SerdeError { message: err.to_string() }
    }
}

impl IoError {
    /// Normalizes the storage layer's native failure into the library's
    /// filesystem error, keeping the native failure's full rendered
    /// description.
    pub fn from_native(err: std::io::Error) -> (r: IoError)
        ensures
            to_string_from_display_ensures(&err, r.message),
    {
        IoError { message: err.to_string() }
    }
}

impl QuicksilverError {
    /// Wraps the image codec's native failure: normalized into the
    /// library's image error, then tagged as an image failure. The unified
    /// error renders the codec's own description, undiminished.
    pub fn from_image_native(err: image::ImageError) -> (r: QuicksilverError)
        ensures
            r matches QuicksilverError::ImageError(sub) && to_string_from_display_ensures(
                &err,
                sub.message,
            ),
            r.kind_spec() == ErrorKind::Image,
    {
        let sub = ImageLoadError::from_native(err);
        QuicksilverError::from(sub)
    }

    /// Wraps the audio decoder's native failure: normalized into the
    /// library's sound error, then tagged as a sound failure. The unified
    /// error renders the decoder's own description, undiminished.
    pub fn from_sound_native(err: rodio::decoder::DecoderError) -> (r: QuicksilverError)
        ensures
            r matches QuicksilverError::SoundError(sub) && to_string_from_display_ensures(
                &err,
                sub.message,
            ),
            r.kind_spec() == ErrorKind::Sound,
    {
        let sub = SoundError::from_native(err);
        QuicksilverError::from(sub)
    }

    /// Wraps the font loader's native failure: normalized into the
    /// library's font error, then tagged as a font failure. The unified
    /// error renders the loader's own description, undiminished.
    pub fn from_font_native(err: rusttype::Error) -> (r: QuicksilverError)
        ensures
            r matches QuicksilverError::FontError(sub) && to_string_from_display_ensures(
                &err,
                sub.message,
            ),
            r.kind_spec() == ErrorKind::Font,
    {
        let sub = FontError::from_native(err);
        QuicksilverError::from(sub)
    }

    /// Wraps the serializer's native failure: normalized into the library's
    /// serialization error, then tagged as a serialization failure. The
    /// unified error renders the serializer's own description, undiminished.
    pub fn from_serde_native(err: serde_json::Error) -> (r: QuicksilverError)
        ensures
            r matches QuicksilverError::SerdeError(sub) && to_string_from_display_ensures(
                &err,
                sub.message,
            ),
            r.kind_spec() == ErrorKind::Serde,
    {
        let sub = SerdeError::from_native(err);
        QuicksilverError::from(sub)
    }

    /// Wraps the storage layer's native failure: normalized into the
    /// library's filesystem error, then tagged as a filesystem failure. The
    /// unified error renders the native failure's own description,
    /// undiminished.
    pub fn from_io_native(err: std::io::Error) -> (r: QuicksilverError)
        ensures
            r matches QuicksilverError::IOError(sub) && to_string_from_display_ensures(
                &err,
                sub.message,
            ),
            r.kind_spec() == ErrorKind::Io,
    {
        let sub = IoError::from_native(err);
        QuicksilverError::from(sub)
    }
}

} // verus!
