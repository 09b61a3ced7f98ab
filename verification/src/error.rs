//! The unified error: one closed sum type wrapping every subsystem's
//! failure, with accessors for the variant tag, the rendered description,
//! and the causal predecessor.

use vstd::prelude::*;

use crate::subsystem::{AtlasError, FontError, ImageLoadError, IoError, SerdeError, SoundError};

verus! {

use vstd::std_specs::convert::FromSpec;

/// The category of a unified error: one tag per subsystem whose failures
/// the library wraps. Callers branch on it without string matching.
#[derive(Clone, Copy, Debug, PartialEq, Eq, Structural)]
pub enum ErrorKind {
    /// The texture-atlas packer failed.
    Atlas,
    /// The image decoder failed.
    Image,
    /// The audio decoder failed.
    Sound,
    /// The underlying storage failed.
    Io,
    /// The serializer failed.
    Serde,
    /// The font loader failed.
    Font,
}

/// An error generated by some Quicksilver subsystem.
///
/// Exactly one variant is active per value, and each variant wraps the
/// failing subsystem's error unchanged: conversion never discards
/// information, and the wrapped value stays reachable through [`Self::cause`].
#[derive(Debug)]
pub enum QuicksilverError {
    /// An error from an image atlas.
    AtlasError(AtlasError),
    /// An error from loading an image.
    ImageError(ImageLoadError),
    /// An error from loading a sound.
    SoundError(SoundError),
    /// An error from loading a file.
    IOError(IoError),
    /// A serialize or deserialize error.
    SerdeError(SerdeError),
    /// There was an error loading a font file.
    FontError(FontError),
}

/// A reference to the subsystem failure wrapped by a unified error: the
/// unified error's causal predecessor, inspectable without first matching
/// on the unified tag.
#[derive(Debug)]
pub enum Cause<'a> {
    /// The wrapped atlas failure.
    Atlas(&'a AtlasError),
    /// The wrapped image failure.
    Image(&'a ImageLoadError),
    /// The wrapped sound failure.
    Sound(&'a SoundError),
    /// The wrapped filesystem failure.
    Io(&'a IoError),
    /// The wrapped serialization failure.
    Serde(&'a SerdeError),
    /// The wrapped font failure.
    Font(&'a FontError),
}

impl<'a> Cause<'a> {
    /// The wrapped failure's own description.
    pub open spec fn message_view(self) -> Seq<char> {
        match self {
            Cause::Atlas(e) => e.message@,
            Cause::Image(e) => e.message@,
            Cause::Sound(e) => e.message@,
            Cause::Io(e) => e.message@,
            Cause::Serde(e) => e.message@,
            Cause::Font(e) => e.message@,
        }
    }

    /// Renders the wrapped failure's own description, regardless of which
    /// subsystem it came from.
    pub fn describe(&self) -> (r: &'a String)
        ensures
            r@ == self.message_view(),
    {
        match self {
            Cause::Atlas(e) => &e.message,
            Cause::Image(e) => &e.message,
            Cause::Sound(e) => &e.message,
            Cause::Io(e) => &e.message,
            Cause::Serde(e) => &e.message,
            Cause::Font(e) => &e.message,
        }
    }
}

impl QuicksilverError {
    /// The tag of the subsystem whose failure this error wraps.
    pub open spec fn kind_spec(&self) -> ErrorKind {
        match self {
            QuicksilverError::AtlasError(_) => ErrorKind::Atlas,
            QuicksilverError::ImageError(_) => ErrorKind::Image,
            QuicksilverError::SoundError(_) => ErrorKind::Sound,
            QuicksilverError::IOError(_) => ErrorKind::Io,
            QuicksilverError::SerdeError(_) => ErrorKind::Serde,
            QuicksilverError::FontError(_) => ErrorKind::Font,
        }
    }

    /// The wrapped subsystem failure's own description: what this error
    /// renders, undiminished.
    pub open spec fn message_view(&self) -> Seq<char> {
        match self {
            QuicksilverError::AtlasError(e) => e.message@,
            QuicksilverError::ImageError(e) => e.message@,
            QuicksilverError::SoundError(e) => e.message@,
            QuicksilverError::IOError(e) => e.message@,
            QuicksilverError::SerdeError(e) => e.message@,
            QuicksilverError::FontError(e) => e.message@,
        }
    }

    /// The wrapped subsystem failure, as this error's causal predecessor.
    pub open spec fn cause_spec<'a>(&'a self) -> Cause<'a> {
        match self {
            QuicksilverError::AtlasError(e) => Cause::Atlas(e),
            QuicksilverError::ImageError(e) => Cause::Image(e),
            QuicksilverError::SoundError(e) => Cause::Sound(e),
            QuicksilverError::IOError(e) => Cause::Io(e),
            QuicksilverError::SerdeError(e) => Cause::Serde(e),
            QuicksilverError::FontError(e) => Cause::Font(e),
        }
    }

    /// Which subsystem failed, as a tag callers can branch on.
    pub fn kind(&self) -> (r: ErrorKind)
        ensures
            r == self.kind_spec(),
    {
        match self {
            QuicksilverError::AtlasError(_) => ErrorKind::Atlas,
            QuicksilverError::ImageError(_) => ErrorKind::Image,
            QuicksilverError::SoundError(_) => ErrorKind::Sound,
            QuicksilverError::IOError(_) => ErrorKind::Io,
            QuicksilverError::SerdeError(_) => ErrorKind::Serde,
            QuicksilverError::FontError(_) => ErrorKind::Font,
        }
    }

    /// Renders a human-readable description: exactly the wrapped subsystem
    /// failure's own description, never a collapsed generic message.
    pub fn description(&self) -> (r: &String)
        ensures
            r@ == self.message_view(),
    {
        match self {
            QuicksilverError::AtlasError(e) => &e.message,
            QuicksilverError::ImageError(e) => &e.message,
            QuicksilverError::SoundError(e) => &e.message,
            QuicksilverError::IOError(e) => &e.message,
            QuicksilverError::SerdeError(e) => &e.message,
            QuicksilverError::FontError(e) => &e.message,
        }
    }

    /// The causal predecessor of this error: always the wrapped subsystem
    /// failure itself, unchanged. `None` never comes back, because every
    /// variant wraps a failure; the `Option` mirrors the shape of a
    /// cause-chain step, which ends at a failure with no predecessor.
    pub fn cause(&self) -> (r: Option<Cause<'_>>)
        ensures
            r == Some(self.cause_spec()),
    {
        match self {
            QuicksilverError::AtlasError(e) => Some(Cause::Atlas(e)),
            QuicksilverError::ImageError(e) => Some(Cause::Image(e)),
            QuicksilverError::SoundError(e) => Some(Cause::Sound(e)),
            QuicksilverError::IOError(e) => Some(Cause::Io(e)),
            QuicksilverError::SerdeError(e) => Some(Cause::Serde(e)),
            QuicksilverError::FontError(e) => Some(Cause::Font(e)),
        }
    }
}

/// Rendering never masks which subsystem failed: whatever variant is
/// active, a unified error's description is exactly its wrapped causal
/// predecessor's own description, never a collapsed generic message.
pub proof fn lemma_render_delegates_to_cause(u: QuicksilverError)
    ensures
        u.message_view() == u.cause_spec().message_view(),
{
}

impl From<AtlasError> for QuicksilverError {
    fn from(err: AtlasError) -> QuicksilverError {
        QuicksilverError::AtlasError(err)
    }
}

impl vstd::std_specs::convert::FromSpecImpl<AtlasError> for QuicksilverError {
    open spec fn obeys_from_spec() -> bool {
        true
    }

    open spec fn from_spec(err: AtlasError) -> QuicksilverError {
        QuicksilverError::AtlasError(err)
    }
}

/// Converting an atlas failure is total and faithful: the conversion is
/// defined for every value, wraps it unchanged, tags the result as an atlas
/// failure, renders exactly the wrapped failure's own description, and
/// exposes the wrapped failure itself as the cause.
pub proof fn lemma_atlas_conversion_faithful(e: AtlasError)
    ensures
        <QuicksilverError as FromSpec<AtlasError>>::obeys_from_spec(),
        ({
            let u = <QuicksilverError as FromSpec<AtlasError>>::from_spec(e);
            &&& u == QuicksilverError::AtlasError(e)
            &&& u.kind_spec() == ErrorKind::Atlas
            &&& u.message_view() == e.message@
            &&& u.cause_spec() matches Cause::Atlas(back) && back == e
        }),
{
}

impl From<ImageLoadError> for QuicksilverError {
    fn from(err: ImageLoadError) -> QuicksilverError {
        QuicksilverError::ImageError(err)
    }
}

impl vstd::std_specs::convert::FromSpecImpl<ImageLoadError> for QuicksilverError {
    open spec fn obeys_from_spec() -> bool {
        true
    }

    open spec fn from_spec(err: ImageLoadError) -> QuicksilverError {
        QuicksilverError::ImageError(err)
    }
}

/// Converting an image failure is total and faithful: the conversion is
/// defined for every value, wraps it unchanged, tags the result as an image
/// failure, renders exactly the wrapped failure's own description, and
/// exposes the wrapped failure itself as the cause.
pub proof fn lemma_image_conversion_faithful(e: ImageLoadError)
    ensures
        <QuicksilverError as FromSpec<ImageLoadError>>::obeys_from_spec(),
        ({
            let u = <QuicksilverError as FromSpec<ImageLoadError>>::from_spec(e);
            &&& u == QuicksilverError::ImageError(e)
            &&& u.kind_spec() == ErrorKind::Image
            &&& u.message_view() == e.message@
            &&& u.cause_spec() matches Cause::Image(back) && back == e
        }),
{
}

impl From<SoundError> for QuicksilverError {
    fn from(err: SoundError) -> QuicksilverError {
        QuicksilverError::SoundError(err)
    }
}

impl vstd::std_specs::convert::FromSpecImpl<SoundError> for QuicksilverError {
    open spec fn obeys_from_spec() -> bool {
        true
    }

    open spec fn from_spec(err: SoundError) -> QuicksilverError {
        QuicksilverError::SoundError(err)
    }
}

/// Converting a sound failure is total and faithful: the conversion is
/// defined for every value, wraps it unchanged, tags the result as a sound
/// failure, renders exactly the wrapped failure's own description, and
/// exposes the wrapped failure itself as the cause.
pub proof fn lemma_sound_conversion_faithful(e: SoundError)
    ensures
        <QuicksilverError as FromSpec<SoundError>>::obeys_from_spec(),
        ({
            let u = <QuicksilverError as FromSpec<SoundError>>::from_spec(e);
            &&& u == QuicksilverError::SoundError(e)
            &&& u.kind_spec() == ErrorKind::Sound
            &&& u.message_view() == e.message@
            &&& u.cause_spec() matches Cause::Sound(back) && back == e
        }),
{
}

impl From<IoError> for QuicksilverError {
    fn from(err: IoError) -> QuicksilverError {
        QuicksilverError::IOError(err)
    }
}

impl vstd::std_specs::convert::FromSpecImpl<IoError> for QuicksilverError {
    open spec fn obeys_from_spec() -> bool {
        true
    }

    open spec fn from_spec(err: IoError) -> QuicksilverError {
        QuicksilverError::IOError(err)
    }
}

/// Converting a filesystem failure is total and faithful: the conversion is
/// defined for every value, wraps it unchanged, tags the result as a
/// filesystem failure, renders exactly the wrapped failure's own
/// description, and exposes the wrapped failure itself as the cause.
pub proof fn lemma_io_conversion_faithful(e: IoError)
    ensures
        <QuicksilverError as FromSpec<IoError>>::obeys_from_spec(),
        ({
            let u = <QuicksilverError as FromSpec<IoError>>::from_spec(e);
            &&& u == QuicksilverError::IOError(e)
            &&& u.kind_spec() == ErrorKind::Io
            &&& u.message_view() == e.message@
            &&& u.cause_spec() matches Cause::Io(back) && back == e
        }),
{
}

impl From<SerdeError> for QuicksilverError {
    fn from(err: SerdeError) -> QuicksilverError {
        QuicksilverError::SerdeError(err)
    }
}

impl vstd::std_specs::convert::FromSpecImpl<SerdeError> for QuicksilverError {
    open spec fn obeys_from_spec() -> bool {
        true
    }

    open spec fn from_spec(err: SerdeError) -> QuicksilverError {
        QuicksilverError::SerdeError(err)
    }
}

/// Converting a serialization failure is total and faithful: the conversion
/// is defined for every value, wraps it unchanged, tags the result as a
/// serialization failure, renders exactly the wrapped failure's own
/// description, and exposes the wrapped failure itself as the cause.
pub proof fn lemma_serde_conversion_faithful(e: SerdeError)
    ensures
        <QuicksilverError as FromSpec<SerdeError>>::obeys_from_spec(),
        ({
            let u = <QuicksilverError as FromSpec<SerdeError>>::from_spec(e);
            &&& u == QuicksilverError::SerdeError(e)
            &&& u.kind_spec() == ErrorKind::Serde
            &&& u.message_view() == e.message@
            &&& u.cause_spec() matches Cause::Serde(back) && back == e
        }),
{
}

impl From<FontError> for QuicksilverError {
    fn from(err: FontError) -> QuicksilverError {
        QuicksilverError::FontError(err)
    }
}

impl vstd::std_specs::convert::FromSpecImpl<FontError> for QuicksilverError {
    open spec fn obeys_from_spec() -> bool {
        true
    }

    open spec fn from_spec(err: FontError) -> QuicksilverError {
        QuicksilverError::FontError(err)
    }
}

/// Converting a font failure is total and faithful: the conversion is
/// defined for every value, wraps it unchanged, tags the result as a font
/// failure, renders exactly the wrapped failure's own description, and
/// exposes the wrapped failure itself as the cause.
pub proof fn lemma_font_conversion_faithful(e: FontError)
    ensures
        <QuicksilverError as FromSpec<FontError>>::obeys_from_spec(),
        ({
            let u = <QuicksilverError as FromSpec<FontError>>::from_spec(e);
            &&& u == QuicksilverError::FontError(e)
            &&& u.kind_spec() == ErrorKind::Font
            &&& u.message_view() == e.message@
            &&& u.cause_spec() matches Cause::Font(back) && back == e
        }),
{
}

} // verus!
