//! The library's own vocabulary for each subsystem's failures.
//!
//! Each subsystem (the texture atlas, the image decoder, the audio decoder,
//! the filesystem, the serializer, the font loader) reports failure through
//! one of the types below. A value carries the subsystem's full rendered
//! description; nothing is discarded when it is later wrapped into the
//! unified error.

use vstd::prelude::*;

verus! {

/// A failure reported by the texture-atlas packer: the requested regions
/// could not be laid out or allocated.
#[derive(Debug)]
pub struct AtlasError {
    /// The packer's own description of the failure.
    pub message: String,
}

impl AtlasError {
    /// Builds an atlas failure from its description.
    pub fn new(message: String) -> (r: AtlasError)
        ensures
            r.message == message,
    {
        AtlasError { message }
    }
}

/// A failure reported while decoding or loading an image: malformed data,
/// an unsupported format, or a failed read.
#[derive(Debug)]
pub struct ImageLoadError {
    /// The image decoder's own description of the failure.
    pub message: String,
}

impl ImageLoadError {
    /// Builds an image failure from its description.
    pub fn new(message: String) -> (r: ImageLoadError)
        ensures
            r.message == message,
    {
        ImageLoadError { message }
    }
}

/// A failure reported while decoding a sound: malformed or unsupported
/// audio data.
#[derive(Debug)]
pub struct SoundError {
    /// The audio decoder's own description of the failure.
    pub message: String,
}

impl SoundError {
    /// Builds a sound failure from its description.
    pub fn new(message: String) -> (r: SoundError)
        ensures
            r.message == message,
    {
        SoundError { message }
    }
}

/// A failure reported by the underlying storage while loading a file:
/// not found, no permission, or a transient read failure.
#[derive(Debug)]
pub struct IoError {
    /// The storage layer's own description of the failure.
    pub message: String,
}

impl IoError {
    /// Builds a filesystem failure from its description.
    pub fn new(message: String) -> (r: IoError)
        ensures
            r.message == message,
    {
        IoError { message }
    }
}

/// A failure reported while serializing or deserializing structured data:
/// malformed input or a schema mismatch.
#[derive(Debug)]
pub struct SerdeError {
    /// The serializer's own description of the failure.
    pub message: String,
}

impl SerdeError {
    /// Builds a serialization failure from its description.
    pub fn new(message: String) -> (r: SerdeError)
        ensures
            r.message == message,
    {
        SerdeError { message }
    }
}

/// A failure reported while loading a font file: malformed or unsupported
/// font data.
#[derive(Debug)]
pub struct FontError {
    /// The font loader's own description of the failure.
    pub message: String,
}

impl FontError {
    /// Builds a font failure from its description.
    pub fn new(message: String) -> (r: FontError)
        ensures
            r.message == message,
    {
        FontError { message }
    }
}

} // verus!
