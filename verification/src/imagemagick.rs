//! Image side of the gateway: the formats the image route can produce, the
//! thumbnail arithmetic, what the in-process engine reports of a loaded
//! image, and the guard that lets the engine be set up only once.

use crate::text::same_text;
use vstd::prelude::*;

verus! {

/// The output formats of the image route.
#[derive(Clone, Copy, Debug, PartialEq, Eq, Structural)]
pub enum SupportedImageFormats {
    AVIF,
    GIF,
    JP2,
    JPEG,
    JSON,
    JXR,
    PJPG,
    MP4,
    PNG,
    PNG8,
    PNG32,
    WebM,
    WebP,
    BlurHash,
}

/// The name by which a format is requested. It is also the extension that
/// the output artifact gets, since the engine picks its encoder by extension.
pub open spec fn image_format_name(format: SupportedImageFormats) -> Seq<char> {
    match format {
        SupportedImageFormats::AVIF => "avif"@,
        SupportedImageFormats::GIF => "gif"@,
        SupportedImageFormats::JP2 => "jp2"@,
        SupportedImageFormats::JPEG => "jpg"@,
        SupportedImageFormats::JSON => "json"@,
        SupportedImageFormats::JXR => "jxr"@,
        SupportedImageFormats::PJPG => "pjpg"@,
        SupportedImageFormats::MP4 => "mp4"@,
        SupportedImageFormats::PNG => "png"@,
        SupportedImageFormats::PNG8 => "png8"@,
        SupportedImageFormats::PNG32 => "png32"@,
        SupportedImageFormats::WebM => "webm"@,
        SupportedImageFormats::WebP => "webp"@,
        SupportedImageFormats::BlurHash => "blurhash"@,
    }
}

/// The format that a name requests, if it names one.
pub open spec fn image_format_named(name: Seq<char>) -> Option<SupportedImageFormats> {
    if name == "avif"@ {
        Some(SupportedImageFormats::AVIF)
    } else if name == "gif"@ {
        Some(SupportedImageFormats::GIF)
    } else if name == "jp2"@ {
        Some(SupportedImageFormats::JP2)
    } else if name == "jpg"@ {
        Some(SupportedImageFormats::JPEG)
    } else if name == "json"@ {
        Some(SupportedImageFormats::JSON)
    } else if name == "jxr"@ {
        Some(SupportedImageFormats::JXR)
    } else if name == "pjpg"@ {
        Some(SupportedImageFormats::PJPG)
    } else if name == "mp4"@ {
        Some(SupportedImageFormats::MP4)
    } else if name == "png"@ {
        Some(SupportedImageFormats::PNG)
    } else if name == "png8"@ {
        Some(SupportedImageFormats::PNG8)
    } else if name == "png32"@ {
        Some(SupportedImageFormats::PNG32)
    } else if name == "webm"@ {
        Some(SupportedImageFormats::WebM)
    } else if name == "webp"@ {
        Some(SupportedImageFormats::WebP)
    } else if name == "blurhash"@ {
        Some(SupportedImageFormats::BlurHash)
    } else {
        None
    }
}

/// Whether a format takes a compression quality. The two formats that
/// describe an image rather than encode it do not.
pub open spec fn image_quality_available(format: SupportedImageFormats) -> bool {
    format != SupportedImageFormats::JSON && format != SupportedImageFormats::BlurHash
}

/// The content type under which a format is served.
pub open spec fn image_content_type(format: SupportedImageFormats) -> Seq<char> {
    match format {
        SupportedImageFormats::AVIF => "image/avif"@,
        SupportedImageFormats::GIF => "image/gif"@,
        SupportedImageFormats::JP2 => "image/jp2"@,
        SupportedImageFormats::JPEG => "image/jpeg"@,
        SupportedImageFormats::JSON => "application/json"@,
        SupportedImageFormats::JXR => "image/jxr"@,
        SupportedImageFormats::PJPG => "image/jpeg"@,
        SupportedImageFormats::MP4 => "video/mp4"@,
        SupportedImageFormats::PNG => "image/png"@,
        SupportedImageFormats::PNG8 => "image/png"@,
        SupportedImageFormats::PNG32 => "image/png"@,
        SupportedImageFormats::WebM => "video/webm"@,
        SupportedImageFormats::WebP => "image/webp"@,
        SupportedImageFormats::BlurHash => "text/plain"@,
    }
}

impl Default for SupportedImageFormats {
    /// JPEG, the format of a request that names none.
    fn default() -> (format: SupportedImageFormats)
        ensures
            format == SupportedImageFormats::JPEG,
    {
        SupportedImageFormats::JPEG
    }
}

impl SupportedImageFormats {
    /// The name by which the format is requested.
    pub fn name(self) -> (name: &'static str)
        ensures
            name@ == image_format_name(self),
    {
        match self {
            SupportedImageFormats::AVIF => "avif",
            SupportedImageFormats::GIF => "gif",
            SupportedImageFormats::JP2 => "jp2",
            SupportedImageFormats::JPEG => "jpg",
            SupportedImageFormats::JSON => "json",
            SupportedImageFormats::JXR => "jxr",
            SupportedImageFormats::PJPG => "pjpg",
            SupportedImageFormats::MP4 => "mp4",
            SupportedImageFormats::PNG => "png",
            SupportedImageFormats::PNG8 => "png8",
            SupportedImageFormats::PNG32 => "png32",
            SupportedImageFormats::WebM => "webm",
            SupportedImageFormats::WebP => "webp",
            SupportedImageFormats::BlurHash => "blurhash",
        }
    }

    /// Reads a requested format name. Names are matched exactly.
    pub fn from_name(name: &str) -> (format: Option<SupportedImageFormats>)
        ensures
            format == image_format_named(name@),
    {
        if same_text(name, "avif") {
            Some(SupportedImageFormats::AVIF)
        } else if same_text(name, "gif") {
            Some(SupportedImageFormats::GIF)
        } else if same_text(name, "jp2") {
            Some(SupportedImageFormats::JP2)
        } else if same_text(name, "jpg") {
            Some(SupportedImageFormats::JPEG)
        } else if same_text(name, "json") {
            Some(SupportedImageFormats::JSON)
        } else if same_text(name, "jxr") {
            Some(SupportedImageFormats::JXR)
        } else if same_text(name, "pjpg") {
            Some(SupportedImageFormats::PJPG)
        } else if same_text(name, "mp4") {
            Some(SupportedImageFormats::MP4)
        } else if same_text(name, "png") {
            Some(SupportedImageFormats::PNG)
        } else if same_text(name, "png8") {
            Some(SupportedImageFormats::PNG8)
        } else if same_text(name, "png32") {
            Some(SupportedImageFormats::PNG32)
        } else if same_text(name, "webm") {
            Some(SupportedImageFormats::WebM)
        } else if same_text(name, "webp") {
            Some(SupportedImageFormats::WebP)
        } else if same_text(name, "blurhash") {
            Some(SupportedImageFormats::BlurHash)
        } else {
            None
        }
    }

    /// Whether the format takes a compression quality.
    pub fn quality_available(self) -> (available: bool)
        ensures
            available == image_quality_available(self),
    {
        match self {
            SupportedImageFormats::JSON => false,
            SupportedImageFormats::BlurHash => false,
            _ => true,
        }
    }

    /// The content type under which the format is served.
    pub fn content_type(self) -> (content_type: &'static str)
        ensures
            content_type@ == image_content_type(self),
    {
        match self {
            SupportedImageFormats::AVIF => "image/avif",
            SupportedImageFormats::GIF => "image/gif",
            SupportedImageFormats::JP2 => "image/jp2",
            SupportedImageFormats::JPEG => "image/jpeg",
            SupportedImageFormats::JSON => "application/json",
            SupportedImageFormats::JXR => "image/jxr",
            SupportedImageFormats::PJPG => "image/jpeg",
            SupportedImageFormats::MP4 => "video/mp4",
            SupportedImageFormats::PNG => "image/png",
            SupportedImageFormats::PNG8 => "image/png",
            SupportedImageFormats::PNG32 => "image/png",
            SupportedImageFormats::WebM => "video/webm",
            SupportedImageFormats::WebP => "image/webp",
            SupportedImageFormats::BlurHash => "text/plain",
        }
    }
}

/// The names of the formats are fourteen different texts.
proof fn image_format_names_differ()
    ensures
        "gif"@ != "jp2"@,
        "gif"@ != "jpg"@,
        "gif"@ != "jxr"@,
        "gif"@ != "mp4"@,
        "gif"@ != "png"@,
        "jp2"@ != "jpg"@,
        "jp2"@ != "jxr"@,
        "jp2"@ != "mp4"@,
        "jp2"@ != "png"@,
        "jpg"@ != "jxr"@,
        "jpg"@ != "mp4"@,
        "jpg"@ != "png"@,
        "jxr"@ != "mp4"@,
        "jxr"@ != "png"@,
        "mp4"@ != "png"@,
        "avif"@ != "json"@,
        "avif"@ != "pjpg"@,
        "avif"@ != "png8"@,
        "avif"@ != "webm"@,
        "avif"@ != "webp"@,
        "json"@ != "pjpg"@,
        "json"@ != "png8"@,
        "json"@ != "webm"@,
        "json"@ != "webp"@,
        "pjpg"@ != "png8"@,
        "pjpg"@ != "webm"@,
        "pjpg"@ != "webp"@,
        "png8"@ != "webm"@,
        "png8"@ != "webp"@,
        "webm"@ != "webp"@,
        "gif"@.len() == 3 && "jp2"@.len() == 3 && "jpg"@.len() == 3 && "jxr"@.len() == 3,
        "mp4"@.len() == 3 && "png"@.len() == 3,
        "avif"@.len() == 4 && "json"@.len() == 4 && "pjpg"@.len() == 4 && "png8"@.len() == 4,
        "webm"@.len() == 4 && "webp"@.len() == 4,
        "png32"@.len() == 5,
        "blurhash"@.len() == 8,
{
    reveal_strlit("avif");
    reveal_strlit("gif");
    reveal_strlit("jp2");
    reveal_strlit("jpg");
    reveal_strlit("json");
    reveal_strlit("jxr");
    reveal_strlit("pjpg");
    reveal_strlit("mp4");
    reveal_strlit("png");
    reveal_strlit("png8");
    reveal_strlit("png32");
    reveal_strlit("webm");
    reveal_strlit("webp");
    reveal_strlit("blurhash");
    assert("gif"@[0] != "jp2"@[0] && "gif"@[0] != "mp4"@[0] && "gif"@[0] != "png"@[0]);
    assert("jp2"@[0] != "mp4"@[0] && "jp2"@[0] != "png"@[0] && "mp4"@[0] != "png"@[0]);
    assert("jp2"@[2] != "jpg"@[2] && "jp2"@[1] != "jxr"@[1] && "jpg"@[1] != "jxr"@[1]);
    assert("avif"@[0] != "json"@[0] && "avif"@[0] != "pjpg"@[0] && "avif"@[0] != "webm"@[0]);
    assert("json"@[0] != "pjpg"@[0] && "json"@[0] != "webm"@[0] && "pjpg"@[0] != "webm"@[0]);
    assert("pjpg"@[1] != "png8"@[1] && "webm"@[3] != "webp"@[3]);
}

/// A format is found again under its own name, so no two formats share one.
pub proof fn law_image_format_names_round_trip(format: SupportedImageFormats)
    ensures
        image_format_named(image_format_name(format)) == Some(format),
{
    image_format_names_differ();
}

/// Half of `n`, rounded up.
pub open spec fn half_ceil(n: nat) -> nat {
    n / 2 + if n % 2 == 0 {
        0nat
    } else {
        1nat
    }
}

/// `half_ceil(n)` is the ceiling of `n / 2`: its double covers `n`, and it is
/// the least count `m` of which that is true.
pub proof fn law_half_ceil_is_the_ceiling(n: nat, m: nat)
    ensures
        2 * half_ceil(n) >= n,
        2 * m >= n ==> half_ceil(n) <= m,
        half_ceil(n) == (n + 1) / 2,
{
}

/// Half of a pixel count, rounded up, so that an odd side keeps its last
/// column or row.
pub fn halve(n: usize) -> (half: usize)
    ensures
        half == half_ceil(n as nat),
{
    if n % 2 == 0 {
        n / 2
    } else {
        n / 2 + 1
    }
}

/// What the engine reports of an image it has loaded.
#[derive(Clone, Copy, Debug, PartialEq, Eq, Structural)]
pub struct LoadedImage {
    pub width: usize,
    pub height: usize,
}

/// Width and height of a loaded image, in this order.
pub fn get_dimensions(image: &LoadedImage) -> (dimensions: (usize, usize))
    ensures
        dimensions == (image.width, image.height),
{
    (image.width, image.height)
}

/// The thumbnail size, width first, that brings an image down to half its
/// resolution: each side is halved and rounded up.
pub open spec fn thumbnail_size(image: LoadedImage) -> (usize, usize) {
    (half_ceil(image.width as nat) as usize, half_ceil(image.height as nat) as usize)
}

/// The thumbnail size that lowers the bitrate of an image: half its
/// resolution, each side rounded up.
pub fn lower_bitrate(image: &LoadedImage) -> (thumbnail: (usize, usize))
    ensures
        thumbnail == thumbnail_size(*image),
        thumbnail.0 == half_ceil(image.width as nat),
        thumbnail.1 == half_ceil(image.height as nat),
{
    (halve(image.width), halve(image.height))
}

/// Remembers whether the in-process image engine has been set up. The engine
/// is never torn down, so the guard only ever goes from fresh to started.
#[derive(Debug)]
pub struct EngineGuard {
    started: bool,
}

impl EngineGuard {
    /// Whether the engine has been claimed, and so set up, before.
    pub closed spec fn is_started(&self) -> bool {
        self.started
    }

    /// A guard for an engine that has not been set up.
    pub fn new() -> (guard: EngineGuard)
        ensures
            !guard.is_started(),
    {
        EngineGuard { started: false }
    }

    /// Whether the engine has been claimed before.
    pub fn started(&self) -> (started: bool)
        ensures
            started == self.is_started(),
    {
        self.started
    }
}

/// What claiming the engine does to a guard that is started or not: whether
/// the claimant has to run the set-up, and whether the guard is started
/// afterwards.
pub open spec fn claim(started: bool) -> (bool, bool) {
    (!started, true)
}

/// Claims the engine for a request. Answers `true` to the one caller that
/// has to run the engine's set-up, and `false` to every later one.
pub fn init(guard: &mut EngineGuard) -> (first: bool)
    ensures
        (first, final(guard).is_started()) == claim(old(guard).is_started()),
{
    let first = !guard.started;
    guard.started = true;
    first
}

/// How many of `calls` successive claims have to run the set-up, on a guard
/// that is started or not.
pub open spec fn set_ups(started: bool, calls: nat) -> nat
    decreases calls,
{
    if calls == 0 {
        0
    } else {
        let (first, afterwards) = claim(started);
        (if first {
            1nat
        } else {
            0nat
        }) + set_ups(afterwards, (calls - 1) as nat)
    }
}

/// However many requests claim the engine, it is set up at most once, and
/// exactly once if a fresh guard is claimed at all.
pub proof fn law_engine_is_set_up_once(started: bool, calls: nat)
    ensures
        set_ups(started, calls) <= 1,
        !started && calls > 0 ==> set_ups(started, calls) == 1,
        started ==> set_ups(started, calls) == 0,
    decreases calls,
{
    if calls > 0 {
        law_engine_is_set_up_once(true, (calls - 1) as nat);
    }
}

} // verus!
