//! The two upload routes: what each one accepts, which output formats the
//! audio/video route offers, and the query parameters of a request.

use crate::imagemagick::SupportedImageFormats;
use crate::pipeline::{Pipeline, PipelineView};
use crate::sniff::MediaCategory;
use crate::target::Target;
use crate::text::same_text;
use vstd::prelude::*;

verus! {

/// The quality that applies when a request names none.
pub const DEFAULT_QUALITY: u8 = 85;

/// The highest quality a backend is asked for. A request may name any
/// quality up to 255; what lies above this bound counts as the bound.
pub const MAX_QUALITY: u8 = 100;

/// The output formats of the audio/video route: seven for sound (MP3, Ogg
/// Vorbis, Opus, WAV, FLAC, AAC, M4A) and five containers for video (MP4,
/// WebM, Matroska, QuickTime, AVI).
#[derive(Clone, Copy, Debug, PartialEq, Eq, Structural)]
pub enum AudioVisualFormats {
    Mp3,
    Ogg,
    Opus,
    Wav,
    Flac,
    Aac,
    M4a,
    Mp4,
    WebM,
    Mkv,
    Mov,
    Avi,
}

/// The name by which a format is requested, which is also the extension of
/// the output artifact: the external transcoder picks container and codec by
/// the extension of the output path.
pub open spec fn audio_visual_format_name(format: AudioVisualFormats) -> Seq<char> {
    match format {
        AudioVisualFormats::Mp3 => "mp3"@,
        AudioVisualFormats::Ogg => "ogg"@,
        AudioVisualFormats::Opus => "opus"@,
        AudioVisualFormats::Wav => "wav"@,
        AudioVisualFormats::Flac => "flac"@,
        AudioVisualFormats::Aac => "aac"@,
        AudioVisualFormats::M4a => "m4a"@,
        AudioVisualFormats::Mp4 => "mp4"@,
        AudioVisualFormats::WebM => "webm"@,
        AudioVisualFormats::Mkv => "mkv"@,
        AudioVisualFormats::Mov => "mov"@,
        AudioVisualFormats::Avi => "avi"@,
    }
}

/// The format that a name requests, if it names one.
pub open spec fn audio_visual_format_named(name: Seq<char>) -> Option<AudioVisualFormats> {
    if name == "mp3"@ {
        Some(AudioVisualFormats::Mp3)
    } else if name == "ogg"@ {
        Some(AudioVisualFormats::Ogg)
    } else if name == "opus"@ {
        Some(AudioVisualFormats::Opus)
    } else if name == "wav"@ {
        Some(AudioVisualFormats::Wav)
    } else if name == "flac"@ {
        Some(AudioVisualFormats::Flac)
    } else if name == "aac"@ {
        Some(AudioVisualFormats::Aac)
    } else if name == "m4a"@ {
        Some(AudioVisualFormats::M4a)
    } else if name == "mp4"@ {
        Some(AudioVisualFormats::Mp4)
    } else if name == "webm"@ {
        Some(AudioVisualFormats::WebM)
    } else if name == "mkv"@ {
        Some(AudioVisualFormats::Mkv)
    } else if name == "mov"@ {
        Some(AudioVisualFormats::Mov)
    } else if name == "avi"@ {
        Some(AudioVisualFormats::Avi)
    } else {
        None
    }
}

/// Whether a format takes a compression quality. The lossless audio formats
/// do not.
pub open spec fn audio_visual_quality_available(format: AudioVisualFormats) -> bool {
    format != AudioVisualFormats::Wav && format != AudioVisualFormats::Flac
}

/// The content type under which a format is served.
pub open spec fn audio_visual_content_type(format: AudioVisualFormats) -> Seq<char> {
    match format {
        AudioVisualFormats::Mp3 => "audio/mpeg"@,
        AudioVisualFormats::Ogg => "audio/ogg"@,
        AudioVisualFormats::Opus => "audio/opus"@,
        AudioVisualFormats::Wav => "audio/wav"@,
        AudioVisualFormats::Flac => "audio/flac"@,
        AudioVisualFormats::Aac => "audio/aac"@,
        AudioVisualFormats::M4a => "audio/mp4"@,
        AudioVisualFormats::Mp4 => "video/mp4"@,
        AudioVisualFormats::WebM => "video/webm"@,
        AudioVisualFormats::Mkv => "video/x-matroska"@,
        AudioVisualFormats::Mov => "video/quicktime"@,
        AudioVisualFormats::Avi => "video/x-msvideo"@,
    }
}

impl AudioVisualFormats {
    /// The name by which the format is requested.
    pub fn name(self) -> (name: &'static str)
        ensures
            name@ == audio_visual_format_name(self),
    {
        match self {
            AudioVisualFormats::Mp3 => "mp3",
            AudioVisualFormats::Ogg => "ogg",
            AudioVisualFormats::Opus => "opus",
            AudioVisualFormats::Wav => "wav",
            AudioVisualFormats::Flac => "flac",
            AudioVisualFormats::Aac => "aac",
            AudioVisualFormats::M4a => "m4a",
            AudioVisualFormats::Mp4 => "mp4",
            AudioVisualFormats::WebM => "webm",
            AudioVisualFormats::Mkv => "mkv",
            AudioVisualFormats::Mov => "mov",
            AudioVisualFormats::Avi => "avi",
        }
    }

    /// Reads a requested format name. Names are matched exactly.
    pub fn from_name(name: &str) -> (format: Option<AudioVisualFormats>)
        ensures
            format == audio_visual_format_named(name@),
    {
        if same_text(name, "mp3") {
            Some(AudioVisualFormats::Mp3)
        } else if same_text(name, "ogg") {
            Some(AudioVisualFormats::Ogg)
        } else if same_text(name, "opus") {
            Some(AudioVisualFormats::Opus)
        } else if same_text(name, "wav") {
            Some(AudioVisualFormats::Wav)
        } else if same_text(name, "flac") {
            Some(AudioVisualFormats::Flac)
        } else if same_text(name, "aac") {
            Some(AudioVisualFormats::Aac)
        } else if same_text(name, "m4a") {
            Some(AudioVisualFormats::M4a)
        } else if same_text(name, "mp4") {
            Some(AudioVisualFormats::Mp4)
        } else if same_text(name, "webm") {
            Some(AudioVisualFormats::WebM)
        } else if same_text(name, "mkv") {
            Some(AudioVisualFormats::Mkv)
        } else if same_text(name, "mov") {
            Some(AudioVisualFormats::Mov)
        } else if same_text(name, "avi") {
            Some(AudioVisualFormats::Avi)
        } else {
            None
        }
    }

    /// Whether the format takes a compression quality.
    pub fn quality_available(self) -> (available: bool)
        ensures
            available == audio_visual_quality_available(self),
    {
        match self {
            AudioVisualFormats::Wav => false,
            AudioVisualFormats::Flac => false,
            _ => true,
        }
    }

    /// The content type under which the format is served.
    pub fn content_type(self) -> (content_type: &'static str)
        ensures
            content_type@ == audio_visual_content_type(self),
    {
        match self {
            AudioVisualFormats::Mp3 => "audio/mpeg",
            AudioVisualFormats::Ogg => "audio/ogg",
            AudioVisualFormats::Opus => "audio/opus",
            AudioVisualFormats::Wav => "audio/wav",
            AudioVisualFormats::Flac => "audio/flac",
            AudioVisualFormats::Aac => "audio/aac",
            AudioVisualFormats::M4a => "audio/mp4",
            AudioVisualFormats::Mp4 => "video/mp4",
            AudioVisualFormats::WebM => "video/webm",
            AudioVisualFormats::Mkv => "video/x-matroska",
            AudioVisualFormats::Mov => "video/quicktime",
            AudioVisualFormats::Avi => "video/x-msvideo",
        }
    }
}

/// The names of the formats are twelve different texts.
proof fn audio_visual_format_names_differ()
    ensures
        "mp3"@ != "ogg"@,
        "mp3"@ != "wav"@,
        "mp3"@ != "aac"@,
        "mp3"@ != "m4a"@,
        "mp3"@ != "mp4"@,
        "mp3"@ != "mkv"@,
        "mp3"@ != "mov"@,
        "mp3"@ != "avi"@,
        "ogg"@ != "wav"@,
        "ogg"@ != "aac"@,
        "ogg"@ != "m4a"@,
        "ogg"@ != "mp4"@,
        "ogg"@ != "mkv"@,
        "ogg"@ != "mov"@,
        "ogg"@ != "avi"@,
        "wav"@ != "aac"@,
        "wav"@ != "m4a"@,
        "wav"@ != "mp4"@,
        "wav"@ != "mkv"@,
        "wav"@ != "mov"@,
        "wav"@ != "avi"@,
        "aac"@ != "m4a"@,
        "aac"@ != "mp4"@,
        "aac"@ != "mkv"@,
        "aac"@ != "mov"@,
        "aac"@ != "avi"@,
        "m4a"@ != "mp4"@,
        "m4a"@ != "mkv"@,
        "m4a"@ != "mov"@,
        "m4a"@ != "avi"@,
        "mp4"@ != "mkv"@,
        "mp4"@ != "mov"@,
        "mp4"@ != "avi"@,
        "mkv"@ != "mov"@,
        "mkv"@ != "avi"@,
        "mov"@ != "avi"@,
        "opus"@ != "flac"@,
        "opus"@ != "webm"@,
        "flac"@ != "webm"@,
        "mp3"@.len() == 3 && "ogg"@.len() == 3 && "wav"@.len() == 3 && "aac"@.len() == 3,
        "m4a"@.len() == 3 && "mp4"@.len() == 3 && "mkv"@.len() == 3 && "mov"@.len() == 3,
        "avi"@.len() == 3,
        "opus"@.len() == 4 && "flac"@.len() == 4 && "webm"@.len() == 4,
{
    reveal_strlit("mp3");
    reveal_strlit("ogg");
    reveal_strlit("opus");
    reveal_strlit("wav");
    reveal_strlit("flac");
    reveal_strlit("aac");
    reveal_strlit("m4a");
    reveal_strlit("mp4");
    reveal_strlit("webm");
    reveal_strlit("mkv");
    reveal_strlit("mov");
    reveal_strlit("avi");
    assert("mp3"@[0] != "ogg"@[0] && "mp3"@[0] != "wav"@[0] && "mp3"@[0] != "aac"@[0]);
    assert("ogg"@[0] != "wav"@[0] && "ogg"@[0] != "aac"@[0] && "wav"@[0] != "aac"@[0]);
    assert("ogg"@[0] != "m4a"@[0] && "wav"@[0] != "m4a"@[0] && "aac"@[1] != "avi"@[1]);
    assert("mp3"@[1] != "m4a"@[1] && "mp3"@[2] != "mp4"@[2] && "mp3"@[1] != "mkv"@[1]);
    assert("mp3"@[1] != "mov"@[1] && "m4a"@[1] != "mp4"@[1] && "m4a"@[1] != "mkv"@[1]);
    assert("m4a"@[1] != "mov"@[1] && "mp4"@[1] != "mkv"@[1] && "mp4"@[1] != "mov"@[1]);
    assert("mkv"@[1] != "mov"@[1] && "aac"@[0] != "m4a"@[0]);
    assert("opus"@[0] != "flac"@[0] && "opus"@[0] != "webm"@[0] && "flac"@[0] != "webm"@[0]);
}

/// A format is found again under its own name, so no two formats share one.
pub proof fn law_audio_visual_format_names_round_trip(format: AudioVisualFormats)
    ensures
        audio_visual_format_named(audio_visual_format_name(format)) == Some(format),
{
    audio_visual_format_names_differ();
}

/// Which sniffed categories a route takes.
#[derive(Clone, Copy, Debug, PartialEq, Eq, Structural)]
pub struct RoutePolicy {
    pub image: bool,
    pub audio: bool,
    pub video: bool,
}

impl RoutePolicy {
    /// Whether the route takes an upload of this category. No route takes
    /// an unsupported upload.
    pub open spec fn admits(self, category: MediaCategory) -> bool {
        match category {
            MediaCategory::Image => self.image,
            MediaCategory::Audio => self.audio,
            MediaCategory::Video => self.video,
            MediaCategory::Unsupported => false,
        }
    }

    /// The policy of the image route.
    pub open spec fn image_route_spec() -> RoutePolicy {
        RoutePolicy { image: true, audio: true, video: true }
    }

    /// The policy of the audio/video route.
    pub open spec fn audio_visual_route_spec() -> RoutePolicy {
        RoutePolicy { image: false, audio: true, video: true }
    }

    /// The image route takes images, and sound and video as well.
    pub fn image_route() -> (policy: RoutePolicy)
        ensures
            policy == RoutePolicy::image_route_spec(),
    {
        RoutePolicy { image: true, audio: true, video: true }
    }

    /// The audio/video route takes sound and video only.
    pub fn audio_visual_route() -> (policy: RoutePolicy)
        ensures
            policy == RoutePolicy::audio_visual_route_spec(),
    {
        RoutePolicy { image: false, audio: true, video: true }
    }

    /// Whether the route takes an upload of this category.
    pub fn accepts(&self, category: MediaCategory) -> (accepted: bool)
        ensures
            accepted == self.admits(category),
    {
        match category {
            MediaCategory::Image => self.image,
            MediaCategory::Audio => self.audio,
            MediaCategory::Video => self.video,
            MediaCategory::Unsupported => false,
        }
    }
}

/// The query parameters of the audio/video route. Without a format the
/// upload is transcoded within its own container.
#[derive(Clone, Copy, Debug, PartialEq, Eq, Structural)]
pub struct AudioVisualQuery {
    pub format: Option<AudioVisualFormats>,
    pub quality: Option<u8>,
}

impl Default for AudioVisualQuery {
    /// No format requested, and the default quality.
    fn default() -> (query: AudioVisualQuery)
        ensures
            query == (AudioVisualQuery { format: None, quality: Some(DEFAULT_QUALITY) }),
    {
        AudioVisualQuery { format: None, quality: Some(DEFAULT_QUALITY) }
    }
}

/// The query parameters of the image route. Without a format the output is
/// a JPEG.
#[derive(Clone, Copy, Debug, PartialEq, Eq, Structural)]
pub struct ImageQuery {
    pub format: Option<SupportedImageFormats>,
    pub quality: Option<u8>,
}

impl Default for ImageQuery {
    /// No format requested, and the default quality.
    fn default() -> (query: ImageQuery)
        ensures
            query == (ImageQuery { format: None, quality: Some(DEFAULT_QUALITY) }),
    {
        ImageQuery { format: None, quality: Some(DEFAULT_QUALITY) }
    }
}

/// Begins a request on the audio/video route: sound and video are taken,
/// the output has the requested format or keeps the container of the
/// upload, and no image is ever resized.
pub fn root(query: AudioVisualQuery) -> (pipeline: Pipeline)
    ensures
        pipeline@ == PipelineView::fresh(
            RoutePolicy::audio_visual_route_spec(),
            match query.format {
                Some(format) => Target::AudioVisual(format),
                None => Target::Source,
            },
            query.quality,
            false,
        ),
        pipeline@.wf(),
{
    Pipeline::new(
        RoutePolicy::audio_visual_route(),
        Target::of_audio_visual_format(query.format),
        query.quality,
        false,
    )
}

/// Begins a request on the image route: images, sound and video are taken,
/// the output has the requested format or is a JPEG, and with `reduce` an
/// image is brought down to half its resolution.
pub fn image_root(query: ImageQuery, reduce: bool) -> (pipeline: Pipeline)
    ensures
        pipeline@ == PipelineView::fresh(
            RoutePolicy::image_route_spec(),
            match query.format {
                Some(format) => Target::Image(format),
                None => Target::Image(SupportedImageFormats::JPEG),
            },
            query.quality,
            reduce,
        ),
        pipeline@.wf(),
{
    Pipeline::new(
        RoutePolicy::image_route(),
        Target::of_image_format(query.format),
        query.quality,
        reduce,
    )
}

} // verus!
