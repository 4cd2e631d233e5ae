//! What a request asks the transcoder to produce: the target format, the
//! extension and content type that follow from it, and the quality that
//! applies.

use crate::imagemagick::{
    image_content_type, image_format_name, image_quality_available, SupportedImageFormats,
};
use crate::routes::{
    audio_visual_content_type, audio_visual_format_name, audio_visual_quality_available,
    AudioVisualFormats, DEFAULT_QUALITY, MAX_QUALITY,
};
use crate::sniff::{MediaCategory, SniffResult, SniffView};
use vstd::prelude::*;

verus! {

/// The format a request is transcoded to.
#[derive(Clone, Copy, Debug, PartialEq, Eq, Structural)]
pub enum Target {
    /// A format of the image route.
    Image(SupportedImageFormats),
    /// A format of the audio/video route.
    AudioVisual(AudioVisualFormats),
    /// The container that was sniffed from the upload.
    Source,
}

/// Which of the two transcoding backends serves a request.
#[derive(Clone, Copy, Debug, PartialEq, Eq, Structural)]
pub enum Backend {
    /// The in-process image engine.
    Image,
    /// The external transcoder, run as a child process.
    External,
}

/// Images go to the in-process engine, sound and video to the external
/// transcoder.
pub open spec fn backend_of(category: MediaCategory) -> Backend {
    if category == MediaCategory::Image {
        Backend::Image
    } else {
        Backend::External
    }
}

/// The extension of the output artifact.
pub open spec fn target_extension(target: Target, sniffed: SniffView) -> Seq<char> {
    match target {
        Target::Image(format) => image_format_name(format),
        Target::AudioVisual(format) => audio_visual_format_name(format),
        Target::Source => sniffed.extension,
    }
}

/// The content type of the response body.
pub open spec fn target_content_type(target: Target, sniffed: SniffView) -> Seq<char> {
    match target {
        Target::Image(format) => image_content_type(format),
        Target::AudioVisual(format) => audio_visual_content_type(format),
        Target::Source => sniffed.mime_type,
    }
}

/// Whether the target takes a compression quality. A request that names no
/// format names none that takes one.
pub open spec fn target_quality_available(target: Target) -> bool {
    match target {
        Target::Image(format) => image_quality_available(format),
        Target::AudioVisual(format) => audio_visual_quality_available(format),
        Target::Source => false,
    }
}

/// A quality brought into the range that backends take.
pub open spec fn bounded_quality(quality: u8) -> u8 {
    if quality <= MAX_QUALITY {
        quality
    } else {
        MAX_QUALITY
    }
}

/// The quality handed to the backend: the requested one, or the default
/// where none was requested, brought into range; and none at all for a
/// target that takes no quality.
pub open spec fn effective_quality(target: Target, requested: Option<u8>) -> Option<u8> {
    if target_quality_available(target) {
        match requested {
            Some(quality) => Some(bounded_quality(quality)),
            None => Some(DEFAULT_QUALITY),
        }
    } else {
        None
    }
}

impl Backend {
    /// The backend that serves uploads of a category.
    pub fn for_category(category: MediaCategory) -> (backend: Backend)
        ensures
            backend == backend_of(category),
    {
        match category {
            MediaCategory::Image => Backend::Image,
            _ => Backend::External,
        }
    }
}

impl Target {
    /// The target of an image request: the requested format, or JPEG.
    pub fn of_image_format(format: Option<SupportedImageFormats>) -> (target: Target)
        ensures
            target == match format {
                Some(chosen) => Target::Image(chosen),
                None => Target::Image(SupportedImageFormats::JPEG),
            },
    {
        match format {
            Some(chosen) => Target::Image(chosen),
            None => Target::Image(SupportedImageFormats::default()),
        }
    }

    /// The target of an audio/video request: the requested format, or the
    /// container of the upload.
    pub fn of_audio_visual_format(format: Option<AudioVisualFormats>) -> (target: Target)
        ensures
            target == match format {
                Some(chosen) => Target::AudioVisual(chosen),
                None => Target::Source,
            },
    {
        match format {
            Some(chosen) => Target::AudioVisual(chosen),
            None => Target::Source,
        }
    }

    /// The extension of the output artifact.
    pub fn extension(&self, sniffed: &SniffResult) -> (extension: String)
        ensures
            extension@ == target_extension(*self, sniffed@),
    {
        match self {
            Target::Image(format) => String::from_str(format.name()),
            Target::AudioVisual(format) => String::from_str(format.name()),
            Target::Source => sniffed.extension.clone(),
        }
    }

    /// The content type of the response body.
    pub fn content_type(&self, sniffed: &SniffResult) -> (content_type: String)
        ensures
            content_type@ == target_content_type(*self, sniffed@),
    {
        match self {
            Target::Image(format) => String::from_str(format.content_type()),
            Target::AudioVisual(format) => String::from_str(format.content_type()),
            Target::Source => sniffed.mime_type.clone(),
        }
    }

    /// Whether the target takes a compression quality.
    pub fn quality_available(&self) -> (available: bool)
        ensures
            available == target_quality_available(*self),
    {
        match self {
            Target::Image(format) => format.quality_available(),
            Target::AudioVisual(format) => format.quality_available(),
            Target::Source => false,
        }
    }

    /// The quality handed to the backend for a requested quality.
    pub fn quality(&self, requested: Option<u8>) -> (quality: Option<u8>)
        ensures
            quality == effective_quality(*self, requested),
    {
        if self.quality_available() {
            match requested {
                Some(quality) => if quality <= MAX_QUALITY {
                    Some(quality)
                } else {
                    Some(MAX_QUALITY)
                },
                None => Some(DEFAULT_QUALITY),
            }
        } else {
            None
        }
    }
}

/// Where the target takes a quality, a requested quality of at most 100 is
/// handed on unchanged, a higher one as 100, and a missing one as 85, so
/// that what is handed on never exceeds 100. Where the target takes none,
/// the quality is left out, not refused.
pub proof fn law_quality_follows_the_target(target: Target, requested: Option<u8>)
    ensures
        target_quality_available(target) <==> effective_quality(target, requested) is Some,
        effective_quality(target, requested) matches Some(quality) ==> quality <= MAX_QUALITY
            && match requested {
            Some(asked) => quality == asked || (asked > MAX_QUALITY && quality == MAX_QUALITY),
            None => quality == DEFAULT_QUALITY,
        },
{
}

} // verus!
