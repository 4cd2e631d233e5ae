//! Content sniffing: an upload is classified by its leading bytes alone.
//!
//! The signature table is infer's. This module decides how much of an upload
//! infer is shown, and which of infer's families the gateway takes for media.

use infer::MatcherType;
use vstd::prelude::*;

verus! {

/// How many leading bytes of an upload are shown to infer.
pub const SNIFF_WINDOW: usize = 8192;

/// The families into which infer sorts its signatures.
#[derive(Clone, Copy, Debug, PartialEq, Eq, Structural)]
pub enum MatcherKind {
    App,
    Archive,
    Audio,
    Book,
    Doc,
    Font,
    Image,
    Text,
    Video,
    Custom,
}

/// The coarse category the gateway routes on.
#[derive(Clone, Copy, Debug, PartialEq, Eq, Structural)]
pub enum MediaCategory {
    Image,
    Audio,
    Video,
    Unsupported,
}

/// One row of infer's table, as plain values.
#[derive(Clone, Debug, PartialEq, Eq)]
pub struct Signature {
    pub kind: MatcherKind,
    pub extension: String,
    pub mime_type: String,
}

/// A `Signature` with its texts as sequences of characters.
pub struct SignatureView {
    pub kind: MatcherKind,
    pub extension: Seq<char>,
    pub mime_type: Seq<char>,
}

impl View for Signature {
    type V = SignatureView;

    open spec fn view(&self) -> SignatureView {
        SignatureView {
            kind: self.kind,
            extension: self.extension@,
            mime_type: self.mime_type@,
        }
    }
}

/// What sniffing says of an upload: its category, and the extension and MIME
/// type of the signature that matched. Both texts are empty when no signature
/// matched.
#[derive(Clone, Debug, PartialEq, Eq)]
pub struct SniffResult {
    pub category: MediaCategory,
    pub extension: String,
    pub mime_type: String,
}

/// A `SniffResult` with its texts as sequences of characters.
pub struct SniffView {
    pub category: MediaCategory,
    pub extension: Seq<char>,
    pub mime_type: Seq<char>,
}

impl View for SniffResult {
    type V = SniffView;

    open spec fn view(&self) -> SniffView {
        SniffView {
            category: self.category,
            extension: self.extension@,
            mime_type: self.mime_type@,
        }
    }
}

/// The row of infer's table that `infer::get` picks for `bytes`, if any.
pub uninterp spec fn infer_signature(bytes: Seq<u8>) -> Option<SignatureView>;

/// The view of a signature that may be missing.
pub open spec fn signature_view(found: Option<Signature>) -> Option<SignatureView> {
    match found {
        Some(signature) => Some(signature@),
        None => None,
    }
}

/// Calls `infer::get` and copies the row it returns. Trusted: the result is
/// the row infer picks for these bytes, and it depends on the bytes alone.
/// infer walks a fixed table that takes no custom matchers, and, built
/// without its `std` feature, every matcher in it only compares bytes. The
/// bound on the length keeps infer's recursive Zstandard matcher shallow;
/// 64-bit addresses are demanded because its ZIP and Zstandard matchers add
/// 32-bit offsets read from the content in `usize`.
#[verifier::external_body]
fn infer_get(bytes: &[u8]) -> (found: Option<Signature>)
    requires
        bytes@.len() <= SNIFF_WINDOW,
        usize::BITS == 64,
    ensures
        signature_view(found) == infer_signature(bytes@),
{
    let row = infer::get(bytes)?;
    let kind = match row.matcher_type() {
        MatcherType::App => MatcherKind::App, MatcherType::Archive => MatcherKind::Archive,
        MatcherType::Audio => MatcherKind::Audio, MatcherType::Book => MatcherKind::Book,
        MatcherType::Doc => MatcherKind::Doc, MatcherType::Font => MatcherKind::Font,
        MatcherType::Image => MatcherKind::Image, MatcherType::Text => MatcherKind::Text,
        MatcherType::Video => MatcherKind::Video, MatcherType::Custom => MatcherKind::Custom,
    };
    let (extension, mime_type) = (row.extension().to_string(), row.mime_type().to_string());
    Some(Signature { kind, extension, mime_type })
}

/// The part of an upload that is sniffed: its first `SNIFF_WINDOW` bytes.
pub open spec fn sniff_window(bytes: Seq<u8>) -> Seq<u8> {
    if bytes.len() <= SNIFF_WINDOW {
        bytes
    } else {
        bytes.subrange(0, SNIFF_WINDOW as int)
    }
}

/// The signature of an upload. An empty upload has none, and nothing is
/// sniffed on a host whose addresses are narrower than 64 bits.
pub open spec fn signature_of(bytes: Seq<u8>) -> Option<SignatureView> {
    if bytes.len() == 0 || usize::BITS != 64 {
        None
    } else {
        infer_signature(sniff_window(bytes))
    }
}

/// The category of a signature family: images, audio and video are media,
/// everything else is not.
pub open spec fn category_of(kind: MatcherKind) -> MediaCategory {
    match kind {
        MatcherKind::Image => MediaCategory::Image,
        MatcherKind::Audio => MediaCategory::Audio,
        MatcherKind::Video => MediaCategory::Video,
        _ => MediaCategory::Unsupported,
    }
}

/// The sniff result that a signature, or the lack of one, stands for.
pub open spec fn sniff_of_signature(found: Option<SignatureView>) -> SniffView {
    match found {
        Some(signature) => SniffView {
            category: category_of(signature.kind),
            extension: signature.extension,
            mime_type: signature.mime_type,
        },
        None => SniffView {
            category: MediaCategory::Unsupported,
            extension: Seq::empty(),
            mime_type: Seq::empty(),
        },
    }
}

/// What `classify` returns for `bytes`.
pub open spec fn classify_spec(bytes: Seq<u8>) -> SniffView {
    sniff_of_signature(signature_of(bytes))
}

impl MatcherKind {
    /// The category of this family.
    pub fn category(self) -> (category: MediaCategory)
        ensures
            category == category_of(self),
    {
        match self {
            MatcherKind::Image => MediaCategory::Image,
            MatcherKind::Audio => MediaCategory::Audio,
            MatcherKind::Video => MediaCategory::Video,
            _ => MediaCategory::Unsupported,
        }
    }
}

impl SniffResult {
    /// The result for an upload in which no signature was found.
    pub fn unsupported() -> (result: SniffResult)
        ensures
            result@ == sniff_of_signature(None),
    {
        SniffResult {
            category: MediaCategory::Unsupported,
            extension: String::new(),
            mime_type: String::new(),
        }
    }

    /// Turns the row that matched, if any, into category and hints.
    pub fn from_signature(found: Option<Signature>) -> (result: SniffResult)
        ensures
            result@ == sniff_of_signature(signature_view(found)),
    {
        match found {
            Some(signature) => SniffResult {
                category: signature.kind.category(),
                extension: signature.extension,
                mime_type: signature.mime_type,
            },
            None => SniffResult::unsupported(),
        }
    }
}

/// Looks up the signature of an upload in its first `SNIFF_WINDOW` bytes.
pub fn find_signature(bytes: &[u8]) -> (found: Option<Signature>)
    ensures
        signature_view(found) == signature_of(bytes@),
{
    if bytes.len() == 0 || usize::BITS != 64 {
        None
    } else if bytes.len() <= SNIFF_WINDOW {
        infer_get(bytes)
    } else {
        infer_get(vstd::slice::slice_subrange(bytes, 0, SNIFF_WINDOW))
    }
}

/// Classifies an upload by its content. Never fails: an upload that is empty,
/// or in which no signature is found, or whose signature is not that of an
/// image, a sound or a video, is `Unsupported`.
pub fn classify(bytes: &[u8]) -> (result: SniffResult)
    ensures
        result@ == classify_spec(bytes@),
        bytes@.len() == 0 ==> result@.category == MediaCategory::Unsupported,
{
    SniffResult::from_signature(find_signature(bytes))
}

} // verus!
