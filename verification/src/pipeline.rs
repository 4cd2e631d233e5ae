//! The request pipeline as a state machine. The caller does the outside
//! work (reading the upload, creating and deleting temporary files, running
//! a transcoder, streaming the response) and reports each outcome as an
//! event; the pipeline answers with the next thing to do and with the
//! artifacts that are to be deleted now.

use crate::artifact::ArtifactSet;
use crate::failure::{status_of, Failure, TranscodeFault, STATUS_OK};
use crate::imagemagick::{lower_bitrate, thumbnail_size, LoadedImage};
use crate::routes::RoutePolicy;
use crate::sniff::{
    classify, classify_spec, sniff_of_signature, MediaCategory, SniffResult, SniffView,
};
use crate::target::{
    backend_of, effective_quality, target_content_type, target_extension, Backend, Target,
};
use crate::text::{dot_suffix, dotted, ends_with, same_text, text_ends_with};
use vstd::prelude::*;

verus! {

/// The stages of a request, in the order in which they are passed. `Failed`
/// can follow any stage but `Done`.
#[derive(Clone, Copy, Debug, PartialEq, Eq, Structural)]
pub enum Stage {
    Receiving,
    Sniffing,
    Allocating,
    Transcoding,
    Streaming,
    Done,
    Failed,
}

/// The outside work whose outcome a pipeline waits for.
#[derive(Clone, Copy, Debug, PartialEq, Eq, Structural)]
pub enum Pending {
    /// The file field of the multipart body.
    Upload,
    /// The upload written to an artifact without extension.
    StoredUpload,
    /// The upload copied to an artifact with the sniffed extension.
    StoredInput,
    /// The output artifact with the target extension.
    AllocatedOutput,
    /// The size of the input image.
    Probe,
    /// The end of the transcoder's run.
    Transcode,
    /// The output artifact opened for reading.
    OpenedStream,
    /// The response body handed over in full.
    StreamEnd,
    /// Nothing: the request is over.
    Nothing,
}

/// One file field of a multipart body. What the client declares about the
/// content is carried along and never consulted.
#[derive(Clone, Debug, PartialEq, Eq)]
pub struct Upload {
    pub declared_type: String,
    pub bytes: Vec<u8>,
}

/// The outcome of a piece of outside work.
#[derive(Clone, Debug, PartialEq, Eq)]
pub enum Event {
    /// One file field was read from the body.
    UploadReceived(Upload),
    /// The body was malformed or held no file field.
    UploadInvalid,
    /// The artifact asked for exists, under this path.
    ArtifactReady(String),
    /// The artifact asked for could not be created, filled or named.
    ArtifactFailed,
    /// The engine loaded the input image.
    Probed(LoadedImage),
    /// The transcoder wrote the output artifact.
    TranscodeSucceeded,
    /// The transcoder gave up.
    TranscodeFailed(TranscodeFault),
    /// The output artifact is open for reading.
    StreamOpened,
    /// The output artifact could not be opened.
    StreamOpenFailed,
    /// The transport has consumed the response body, or has dropped it.
    StreamFinished,
}

/// What a backend is asked to do.
#[derive(Clone, Debug, PartialEq, Eq)]
pub struct TranscodeRequest {
    pub backend: Backend,
    pub input_path: String,
    pub output_path: String,
    pub format: Target,
    pub quality: Option<u8>,
    pub dimensions: Option<(usize, usize)>,
}

/// A `TranscodeRequest` with its paths as sequences of characters.
pub struct TranscodeRequestView {
    pub backend: Backend,
    pub input_path: Seq<char>,
    pub output_path: Seq<char>,
    pub format: Target,
    pub quality: Option<u8>,
    pub dimensions: Option<(usize, usize)>,
}

impl View for TranscodeRequest {
    type V = TranscodeRequestView;

    open spec fn view(&self) -> TranscodeRequestView {
        TranscodeRequestView {
            backend: self.backend,
            input_path: self.input_path@,
            output_path: self.output_path@,
            format: self.format,
            quality: self.quality,
            dimensions: self.dimensions,
        }
    }
}

/// The outside work that a pipeline asks for next.
#[derive(Clone, Debug, PartialEq, Eq)]
pub enum Action {
    /// Write the upload to a fresh artifact without extension.
    StoreUpload,
    /// Copy the upload to a fresh artifact whose name ends with `suffix`.
    StoreInput { suffix: String },
    /// Create a fresh, empty artifact whose name ends with `suffix`.
    AllocateOutput { suffix: String },
    /// Load the input image and report its size.
    Probe,
    /// Run the backend and wait for it to end.
    Transcode(TranscodeRequest),
    /// Open the output artifact for reading.
    OpenStream,
    /// Answer 200 and stream the output artifact in chunks.
    Stream { content_type: String },
    /// Answer with the status of this failure, and no body.
    Reject(Failure),
    /// Nothing is left to do.
    Finish,
}

/// An `Action` with its texts as sequences of characters.
pub enum ActionView {
    StoreUpload,
    StoreInput { suffix: Seq<char> },
    AllocateOutput { suffix: Seq<char> },
    Probe,
    Transcode(TranscodeRequestView),
    OpenStream,
    Stream { content_type: Seq<char> },
    Reject(Failure),
    Finish,
}

impl View for Action {
    type V = ActionView;

    open spec fn view(&self) -> ActionView {
        match self {
            Action::StoreUpload => ActionView::StoreUpload,
            Action::StoreInput { suffix } => ActionView::StoreInput { suffix: suffix@ },
            Action::AllocateOutput { suffix } => ActionView::AllocateOutput { suffix: suffix@ },
            Action::Probe => ActionView::Probe,
            Action::Transcode(request) => ActionView::Transcode(request@),
            Action::OpenStream => ActionView::OpenStream,
            Action::Stream { content_type } => ActionView::Stream { content_type: content_type@ },
            Action::Reject(failure) => ActionView::Reject(*failure),
            Action::Finish => ActionView::Finish,
        }
    }
}

/// The answer to an event: what to do next, and which artifacts to delete
/// before doing it.
#[derive(Clone, Debug, PartialEq, Eq)]
pub struct Directive {
    pub action: Action,
    pub release: ArtifactSet,
}

/// A `Directive` with its texts as sequences of characters.
pub struct DirectiveView {
    pub action: ActionView,
    pub release: ArtifactSet,
}

impl View for Directive {
    type V = DirectiveView;

    open spec fn view(&self) -> DirectiveView {
        DirectiveView { action: self.action@, release: self.release }
    }
}

/// One request on its way through the pipeline.
#[derive(Debug)]
pub struct Pipeline {
    policy: RoutePolicy,
    target: Target,
    quality: Option<u8>,
    reduce: bool,
    pending: Pending,
    failure: Option<Failure>,
    payload: Vec<u8>,
    sniff: SniffResult,
    live: ArtifactSet,
    input_path: String,
    output_path: String,
}

/// The state of a request, with texts and bytes as sequences.
pub struct PipelineView {
    /// The categories the route takes.
    pub policy: RoutePolicy,
    /// The format asked for.
    pub target: Target,
    /// The quality asked for.
    pub quality: Option<u8>,
    /// Whether images are brought down to half their resolution.
    pub reduce: bool,
    /// The outside work whose outcome the request waits for.
    pub pending: Pending,
    /// Why the request failed, if it did.
    pub failure: Option<Failure>,
    /// The bytes of the upload, once received.
    pub payload: Seq<u8>,
    /// What sniffing said of the upload, once it was sniffed.
    pub sniff: SniffView,
    /// The artifacts that were claimed and not yet released.
    pub live: ArtifactSet,
    /// The path of the input artifact, once it exists.
    pub input_path: Seq<char>,
    /// The path of the output artifact, once it exists.
    pub output_path: Seq<char>,
}

impl View for Pipeline {
    type V = PipelineView;

    closed spec fn view(&self) -> PipelineView {
        PipelineView {
            policy: self.policy,
            target: self.target,
            quality: self.quality,
            reduce: self.reduce,
            pending: self.pending,
            failure: self.failure,
            payload: self.payload@,
            sniff: self.sniff@,
            live: self.live,
            input_path: self.input_path@,
            output_path: self.output_path@,
        }
    }
}

/// The stage a pipeline is in, by what it waits for.
pub open spec fn stage_of(pending: Pending, failure: Option<Failure>) -> Stage {
    match pending {
        Pending::Upload => Stage::Receiving,
        Pending::StoredUpload => Stage::Sniffing,
        Pending::StoredInput => Stage::Sniffing,
        Pending::AllocatedOutput => Stage::Allocating,
        Pending::Probe => Stage::Transcoding,
        Pending::Transcode => Stage::Transcoding,
        Pending::OpenedStream => Stage::Streaming,
        Pending::StreamEnd => Stage::Streaming,
        Pending::Nothing => if failure is Some {
            Stage::Failed
        } else {
            Stage::Done
        },
    }
}

/// The place of a stage in the order of the pipeline.
pub open spec fn stage_rank(stage: Stage) -> nat {
    match stage {
        Stage::Receiving => 0,
        Stage::Sniffing => 1,
        Stage::Allocating => 2,
        Stage::Transcoding => 3,
        Stage::Streaming => 4,
        Stage::Done => 5,
        Stage::Failed => 5,
    }
}

/// The artifacts that a pipeline holds while it waits for `pending`.
pub open spec fn held_while(pending: Pending) -> ArtifactSet {
    match pending {
        Pending::Upload => ArtifactSet::none(),
        Pending::StoredUpload => ArtifactSet { upload: true, input: false, output: false },
        Pending::StoredInput => ArtifactSet { upload: true, input: true, output: false },
        Pending::Nothing => ArtifactSet::none(),
        _ => ArtifactSet { upload: false, input: true, output: true },
    }
}

/// The artifact that an action asks the caller to create.
pub open spec fn claimed_by(action: ActionView) -> ArtifactSet {
    match action {
        ActionView::StoreUpload => ArtifactSet { upload: true, input: false, output: false },
        ActionView::StoreInput { .. } => ArtifactSet { upload: false, input: true, output: false },
        ActionView::AllocateOutput { .. } => ArtifactSet {
            upload: false,
            input: false,
            output: true,
        },
        _ => ArtifactSet::none(),
    }
}

impl PipelineView {
    /// A request at its start: nothing received, nothing claimed.
    pub open spec fn fresh(
        policy: RoutePolicy,
        target: Target,
        quality: Option<u8>,
        reduce: bool,
    ) -> PipelineView {
        PipelineView {
            policy,
            target,
            quality,
            reduce,
            pending: Pending::Upload,
            failure: None,
            payload: Seq::empty(),
            sniff: sniff_of_signature(None),
            live: ArtifactSet::none(),
            input_path: Seq::empty(),
            output_path: Seq::empty(),
        }
    }

    /// The stage the request is in.
    pub open spec fn stage(self) -> Stage {
        stage_of(self.pending, self.failure)
    }

    /// The request is over, one way or the other.
    pub open spec fn is_over(self) -> bool {
        self.pending == Pending::Nothing
    }

    /// The upload has been sniffed and taken by the route.
    pub open spec fn sniffed(self) -> bool {
        self.pending != Pending::Upload && self.pending != Pending::StoredUpload
            && self.pending != Pending::Nothing
    }

    /// The input artifact exists under its sniffed extension.
    pub open spec fn has_input(self) -> bool {
        self.sniffed() && self.pending != Pending::StoredInput
    }

    /// The output artifact exists under the target extension.
    pub open spec fn has_output(self) -> bool {
        self.has_input() && self.pending != Pending::AllocatedOutput
    }

    /// The suffix of the input artifact.
    pub open spec fn input_suffix(self) -> Seq<char> {
        dotted(self.sniff.extension)
    }

    /// The suffix of the output artifact.
    pub open spec fn output_suffix(self) -> Seq<char> {
        dotted(target_extension(self.target, self.sniff))
    }

    /// What holds of every pipeline that was made by `Pipeline::new` and
    /// moved by `Pipeline::step`.
    pub open spec fn wf(self) -> bool {
        &&& self.live == held_while(self.pending)
        &&& self.failure is Some ==> self.is_over()
        &&& self.sniffed() ==> self.sniff == classify_spec(self.payload) && self.policy.admits(
            self.sniff.category,
        )
        &&& self.has_input() ==> text_ends_with(self.input_path, self.input_suffix())
        &&& self.has_output() ==> text_ends_with(self.output_path, self.output_suffix())
            && self.input_path != self.output_path
        &&& self.pending == Pending::Probe ==> self.reduce && backend_of(self.sniff.category)
            == Backend::Image
    }

    /// The request the backend gets, with or without thumbnail dimensions.
    pub open spec fn request(self, dimensions: Option<(usize, usize)>) -> TranscodeRequestView {
        TranscodeRequestView {
            backend: backend_of(self.sniff.category),
            input_path: self.input_path,
            output_path: self.output_path,
            format: self.target,
            quality: effective_quality(self.target, self.quality),
            dimensions,
        }
    }

    /// The request fails: every artifact it holds is released, and the
    /// failure is what the client is told.
    pub open spec fn fail(self, failure: Failure) -> (PipelineView, DirectiveView) {
        (
            PipelineView {
                pending: Pending::Nothing,
                failure: Some(failure),
                live: ArtifactSet::none(),
                ..self
            },
            DirectiveView { action: ActionView::Reject(failure), release: self.live },
        )
    }

    /// The request goes on to wait for `pending`, and asks for `action`.
    pub open spec fn go(self, pending: Pending, action: ActionView) -> (
        PipelineView,
        DirectiveView,
    ) {
        (
            PipelineView { pending, live: held_while(pending), ..self },
            DirectiveView {
                action,
                release: self.live.plus(claimed_by(action)).minus(held_while(pending)),
            },
        )
    }
}

/// The transition of the pipeline: the state after `event`, and the answer
/// to it. An event that the pipeline does not wait for ends the request as a
/// resource failure; a request that is over stays as it is.
pub open spec fn step_spec(state: PipelineView, event: Event) -> (PipelineView, DirectiveView) {
    match state.pending {
        Pending::Nothing => (
            state,
            DirectiveView { action: ActionView::Finish, release: ArtifactSet::none() },
        ),
        Pending::Upload => match event {
            Event::UploadReceived(upload) => (PipelineView { payload: upload.bytes@, ..state }).go(
                Pending::StoredUpload,
                ActionView::StoreUpload,
            ),
            Event::UploadInvalid => state.fail(Failure::BadInput),
            _ => state.fail(Failure::ResourceFailure),
        },
        Pending::StoredUpload => match event {
            Event::ArtifactReady(_) => {
                let sniffed = PipelineView { sniff: classify_spec(state.payload), ..state };
                if state.policy.admits(sniffed.sniff.category) {
                    sniffed.go(
                        Pending::StoredInput,
                        ActionView::StoreInput { suffix: sniffed.input_suffix() },
                    )
                } else {
                    sniffed.fail(Failure::UnsupportedMedia)
                }
            },
            _ => state.fail(Failure::ResourceFailure),
        },
        Pending::StoredInput => match event {
            Event::ArtifactReady(path) => if text_ends_with(path@, state.input_suffix()) {
                (PipelineView { input_path: path@, ..state }).go(
                    Pending::AllocatedOutput,
                    ActionView::AllocateOutput { suffix: state.output_suffix() },
                )
            } else {
                state.fail(Failure::ResourceFailure)
            },
            _ => state.fail(Failure::ResourceFailure),
        },
        Pending::AllocatedOutput => match event {
            Event::ArtifactReady(path) => if text_ends_with(path@, state.output_suffix()) && path@
                != state.input_path {
                let ready = PipelineView { output_path: path@, ..state };
                if state.reduce && backend_of(state.sniff.category) == Backend::Image {
                    ready.go(Pending::Probe, ActionView::Probe)
                } else {
                    ready.go(Pending::Transcode, ActionView::Transcode(ready.request(None)))
                }
            } else {
                state.fail(Failure::ResourceFailure)
            },
            _ => state.fail(Failure::ResourceFailure),
        },
        Pending::Probe => match event {
            Event::Probed(image) => state.go(
                Pending::Transcode,
                ActionView::Transcode(state.request(Some(thumbnail_size(image)))),
            ),
            Event::TranscodeFailed(fault) => state.fail(Failure::TranscodeFailure(fault)),
            _ => state.fail(Failure::ResourceFailure),
        },
        Pending::Transcode => match event {
            Event::TranscodeSucceeded => state.go(Pending::OpenedStream, ActionView::OpenStream),
            Event::TranscodeFailed(fault) => state.fail(Failure::TranscodeFailure(fault)),
            _ => state.fail(Failure::ResourceFailure),
        },
        Pending::OpenedStream => match event {
            Event::StreamOpened => state.go(
                Pending::StreamEnd,
                ActionView::Stream {
                    content_type: target_content_type(state.target, state.sniff),
                },
            ),
            Event::StreamOpenFailed => state.fail(Failure::StreamSetupFailure),
            _ => state.fail(Failure::ResourceFailure),
        },
        Pending::StreamEnd => match event {
            Event::StreamFinished => state.go(Pending::Nothing, ActionView::Finish),
            _ => state.fail(Failure::ResourceFailure),
        },
    }
}

/// The status of the response, once it is decided: that of the failure, or
/// 200 from the moment the body is streamed.
pub open spec fn response_status(state: PipelineView) -> Option<u16> {
    match state.failure {
        Some(failure) => Some(status_of(failure)),
        None => if state.pending == Pending::StreamEnd || state.pending == Pending::Nothing {
            Some(STATUS_OK)
        } else {
            None
        },
    }
}

impl Pending {
    /// The artifacts that a pipeline holds while it waits for this.
    pub fn held(self) -> (held: ArtifactSet)
        ensures
            held == held_while(self),
    {
        match self {
            Pending::Upload => ArtifactSet::empty(),
            Pending::StoredUpload => ArtifactSet { upload: true, input: false, output: false },
            Pending::StoredInput => ArtifactSet { upload: true, input: true, output: false },
            Pending::Nothing => ArtifactSet::empty(),
            _ => ArtifactSet { upload: false, input: true, output: true },
        }
    }
}

impl Action {
    /// The artifact that this action asks the caller to create.
    pub fn claims(&self) -> (claimed: ArtifactSet)
        ensures
            claimed == claimed_by(self@),
    {
        match self {
            Action::StoreUpload => ArtifactSet { upload: true, input: false, output: false },
            Action::StoreInput { .. } => ArtifactSet { upload: false, input: true, output: false },
            Action::AllocateOutput { .. } => ArtifactSet {
                upload: false,
                input: false,
                output: true,
            },
            _ => ArtifactSet::empty(),
        }
    }
}

impl Pipeline {
    /// A request at its start: nothing received, nothing claimed.
    pub fn new(policy: RoutePolicy, target: Target, quality: Option<u8>, reduce: bool) -> (pipeline:
        Pipeline)
        ensures
            pipeline@ == PipelineView::fresh(policy, target, quality, reduce),
            pipeline@.wf(),
    {
        Pipeline {
            policy,
            target,
            quality,
            reduce,
            pending: Pending::Upload,
            failure: None,
            payload: Vec::new(),
            sniff: SniffResult::unsupported(),
            live: ArtifactSet::empty(),
            input_path: String::new(),
            output_path: String::new(),
        }
    }

    /// The stage the request is in.
    pub fn stage(&self) -> (stage: Stage)
        ensures
            stage == self@.stage(),
    {
        match self.pending {
            Pending::Upload => Stage::Receiving,
            Pending::StoredUpload => Stage::Sniffing,
            Pending::StoredInput => Stage::Sniffing,
            Pending::AllocatedOutput => Stage::Allocating,
            Pending::Probe => Stage::Transcoding,
            Pending::Transcode => Stage::Transcoding,
            Pending::OpenedStream => Stage::Streaming,
            Pending::StreamEnd => Stage::Streaming,
            Pending::Nothing => match self.failure {
                Some(_) => Stage::Failed,
                None => Stage::Done,
            },
        }
    }

    /// The outside work whose outcome the request waits for.
    pub fn pending(&self) -> (pending: Pending)
        ensures
            pending == self@.pending,
    {
        self.pending
    }

    /// Why the request failed, if it did.
    pub fn failure(&self) -> (failure: Option<Failure>)
        ensures
            failure == self@.failure,
    {
        self.failure
    }

    /// The status of the response, once it is decided.
    pub fn status(&self) -> (status: Option<u16>)
        ensures
            status == response_status(self@),
    {
        match self.failure {
            Some(failure) => Some(failure.status()),
            None => match self.pending {
                Pending::StreamEnd => Some(STATUS_OK),
                Pending::Nothing => Some(STATUS_OK),
                _ => None,
            },
        }
    }

    /// The artifacts that were claimed and are not yet released.
    pub fn live(&self) -> (live: ArtifactSet)
        ensures
            live == self@.live,
    {
        self.live
    }

    /// The bytes of the upload, for the caller to write to an artifact.
    pub fn payload(&self) -> (payload: &Vec<u8>)
        ensures
            payload@ == self@.payload,
    {
        &self.payload
    }

    /// What sniffing said of the upload.
    pub fn sniff(&self) -> (sniff: &SniffResult)
        ensures
            sniff@ == self@.sniff,
    {
        &self.sniff
    }

    fn request(&self, dimensions: Option<(usize, usize)>) -> (request: TranscodeRequest)
        ensures
            request@ == self@.request(dimensions),
    {
        TranscodeRequest {
            backend: Backend::for_category(self.sniff.category),
            input_path: self.input_path.clone(),
            output_path: self.output_path.clone(),
            format: self.target,
            quality: self.target.quality(self.quality),
            dimensions,
        }
    }

    fn fail(&mut self, failure: Failure) -> (directive: Directive)
        ensures
            (final(self)@, directive@) == old(self)@.fail(failure),
    {
        let release = self.live;
        self.pending = Pending::Nothing;
        self.failure = Some(failure);
        self.live = ArtifactSet::empty();
        Directive { action: Action::Reject(failure), release }
    }

    fn go(&mut self, pending: Pending, action: Action) -> (directive: Directive)
        ensures
            (final(self)@, directive@) == old(self)@.go(pending, action@),
    {
        let held = pending.held();
        let release = self.live.union(action.claims()).without(held);
        self.pending = pending;
        self.live = held;
        Directive { action, release }
    }

    /// Takes the outcome of the work last asked for and answers with what to
    /// do next.
    pub fn step(&mut self, event: Event) -> (directive: Directive)
        ensures
            (final(self)@, directive@) == step_spec(old(self)@, event),
            old(self)@.wf() ==> final(self)@.wf(),
    {
        proof {
            if self@.wf() {
                law_step_keeps_well_formed(self@, event);
            }
        }
        match self.pending {
            Pending::Nothing => Directive { action: Action::Finish, release: ArtifactSet::empty() },
            Pending::Upload => match event {
                Event::UploadReceived(upload) => {
                    self.payload = upload.bytes;
                    self.go(Pending::StoredUpload, Action::StoreUpload)
                },
                Event::UploadInvalid => self.fail(Failure::BadInput),
                _ => self.fail(Failure::ResourceFailure),
            },
            Pending::StoredUpload => match event {
                Event::ArtifactReady(_) => {
                    self.sniff = classify(self.payload.as_slice());
                    if self.policy.accepts(self.sniff.category) {
                        let suffix = dot_suffix(self.sniff.extension.as_str());
                        self.go(Pending::StoredInput, Action::StoreInput { suffix })
                    } else {
                        self.fail(Failure::UnsupportedMedia)
                    }
                },
                _ => self.fail(Failure::ResourceFailure),
            },
            Pending::StoredInput => match event {
                Event::ArtifactReady(path) => {
                    let wanted = dot_suffix(self.sniff.extension.as_str());
                    if ends_with(path.as_str(), wanted.as_str()) {
                        let extension = self.target.extension(&self.sniff);
                        let suffix = dot_suffix(extension.as_str());
                        self.input_path = path;
                        self.go(Pending::AllocatedOutput, Action::AllocateOutput { suffix })
                    } else {
                        self.fail(Failure::ResourceFailure)
                    }
                },
                _ => self.fail(Failure::ResourceFailure),
            },
            Pending::AllocatedOutput => match event {
                Event::ArtifactReady(path) => {
                    let extension = self.target.extension(&self.sniff);
                    let wanted = dot_suffix(extension.as_str());
                    if ends_with(path.as_str(), wanted.as_str()) && !same_text(
                        path.as_str(),
                        self.input_path.as_str(),
                    ) {
                        self.output_path = path;
                        let backend = Backend::for_category(self.sniff.category);
                        if self.reduce && backend == Backend::Image {
                            self.go(Pending::Probe, Action::Probe)
                        } else {
                            let request = self.request(None);
                            self.go(Pending::Transcode, Action::Transcode(request))
                        }
                    } else {
                        self.fail(Failure::ResourceFailure)
                    }
                },
                _ => self.fail(Failure::ResourceFailure),
            },
            Pending::Probe => match event {
                Event::Probed(image) => {
                    let request = self.request(Some(lower_bitrate(&image)));
                    self.go(Pending::Transcode, Action::Transcode(request))
                },
                Event::TranscodeFailed(fault) => self.fail(Failure::TranscodeFailure(fault)),
                _ => self.fail(Failure::ResourceFailure),
            },
            Pending::Transcode => match event {
                Event::TranscodeSucceeded => self.go(Pending::OpenedStream, Action::OpenStream),
                Event::TranscodeFailed(fault) => self.fail(Failure::TranscodeFailure(fault)),
                _ => self.fail(Failure::ResourceFailure),
            },
            Pending::OpenedStream => match event {
                Event::StreamOpened => {
                    let content_type = self.target.content_type(&self.sniff);
                    self.go(Pending::StreamEnd, Action::Stream { content_type })
                },
                Event::StreamOpenFailed => self.fail(Failure::StreamSetupFailure),
                _ => self.fail(Failure::ResourceFailure),
            },
            Pending::StreamEnd => match event {
                Event::StreamFinished => self.go(Pending::Nothing, Action::Finish),
                _ => self.fail(Failure::ResourceFailure),
            },
        }
    }
}

/// A step leaves a well-formed pipeline well-formed.
pub proof fn law_step_keeps_well_formed(state: PipelineView, event: Event)
    requires
        state.wf(),
    ensures
        step_spec(state, event).0.wf(),
{
}

/// No artifact outlives its request, and none is lost on the way: after a
/// step every artifact that was held or newly claimed is either still held
/// or among those to delete, never both; nothing is claimed that is held
/// already; and a request that is over holds none.
pub proof fn law_no_artifact_outlives_the_request(state: PipelineView, event: Event)
    requires
        state.wf(),
    ensures
        ({
            let (next, directive) = step_spec(state, event);
            &&& next.live.plus(directive.release) == state.live.plus(claimed_by(directive.action))
            &&& next.live.disjoint(directive.release)
            &&& state.live.disjoint(claimed_by(directive.action))
            &&& next.is_over() ==> next.live == ArtifactSet::none()
        }),
{
}

/// A request passes through its stages in order: a step stays in a stage,
/// goes on to the one that follows, or fails the request, and a request
/// that is over never changes again.
pub proof fn law_stages_only_advance(state: PipelineView, event: Event)
    ensures
        ({
            let (next, directive) = step_spec(state, event);
            &&& stage_rank(state.stage()) <= stage_rank(next.stage())
            &&& next.stage() == Stage::Failed || stage_rank(next.stage()) <= stage_rank(
                state.stage(),
            ) + 1
            &&& state.is_over() ==> next == state && directive.action == ActionView::Finish
                && directive.release == ArtifactSet::none()
        }),
{
}

/// What a request asked for is fixed when it starts: no step changes the
/// route's policy, the target, the quality or the resizing mode, and the
/// upload is the same from the moment it is received.
pub proof fn law_parameters_are_fixed(state: PipelineView, event: Event)
    ensures
        ({
            let next = step_spec(state, event).0;
            &&& next.policy == state.policy
            &&& next.target == state.target
            &&& next.quality == state.quality
            &&& next.reduce == state.reduce
            &&& state.pending != Pending::Upload ==> next.payload == state.payload
        }),
{
}

/// A step fails a request exactly when it answers with a rejection. The
/// rejection names the failure that the pipeline records, the request is
/// then over, and its status is that of the failure.
pub proof fn law_failure_is_what_is_reported(
    state: PipelineView,
    event: Event,
    failure: Failure,
)
    requires
        state.wf(),
        !state.is_over(),
    ensures
        ({
            let (next, directive) = step_spec(state, event);
            &&& next.failure == Some(failure) <==> directive.action == ActionView::Reject(failure)
            &&& next.failure == Some(failure) ==> next.is_over() && response_status(next) == Some(
                status_of(failure),
            )
        }),
{
}

/// What the client declares about an upload has no part in what becomes of
/// it: two uploads of the same bytes are stored, sniffed and routed alike.
pub proof fn law_declared_type_is_ignored(state: PipelineView, first: Upload, second: Upload)
    requires
        first.bytes@ == second.bytes@,
    ensures
        step_spec(state, Event::UploadReceived(first)) == step_spec(
            state,
            Event::UploadReceived(second),
        ),
{
}

/// An upload goes on past sniffing exactly when the route takes the
/// category of its content; otherwise the request fails as unsupported
/// media. No route takes content that is no media, and none takes an empty
/// upload.
pub proof fn law_route_decides_by_content(state: PipelineView, path: String)
    requires
        state.pending == Pending::StoredUpload,
    ensures
        ({
            let (next, directive) = step_spec(state, Event::ArtifactReady(path));
            let category = classify_spec(state.payload).category;
            &&& next.sniff == classify_spec(state.payload)
            &&& state.policy.admits(category) ==> next.pending == Pending::StoredInput
            &&& !state.policy.admits(category) ==> next.failure == Some(Failure::UnsupportedMedia)
            &&& category == MediaCategory::Unsupported ==> next.failure == Some(
                Failure::UnsupportedMedia,
            )
            &&& state.payload.len() == 0 ==> next.failure == Some(Failure::UnsupportedMedia)
        }),
{
}

/// What a backend is asked to do is what the request asked for: it reads
/// the input under the sniffed extension and writes to another path under
/// the extension of the target format; it gets the quality exactly where the
/// target takes one; and it gets thumbnail dimensions exactly where an image
/// is to be brought down, in which case they are half the probed size,
/// rounded up.
pub proof fn law_request_is_what_was_asked(state: PipelineView, event: Event)
    requires
        state.wf(),
    ensures
        ({
            let (next, directive) = step_spec(state, event);
            directive.action matches ActionView::Transcode(request) ==> {
                &&& state.policy.admits(state.sniff.category)
                &&& request.backend == backend_of(state.sniff.category)
                &&& request.format == state.target
                &&& request.quality == effective_quality(state.target, state.quality)
                &&& text_ends_with(request.input_path, dotted(state.sniff.extension))
                &&& text_ends_with(
                    request.output_path,
                    dotted(target_extension(state.target, state.sniff)),
                )
                &&& request.input_path != request.output_path
                &&& request.dimensions is Some <==> state.reduce && request.backend
                    == Backend::Image
                &&& event matches Event::Probed(image) ==> request.dimensions == Some(
                    thumbnail_size(image),
                )
            }
        }),
{
}

/// Nothing of the response is sent before the transcoder has ended well:
/// the output is opened only on the news of its success, and streamed only
/// once it is open, under the content type of the target.
pub proof fn law_response_follows_transcoding(state: PipelineView, event: Event)
    ensures
        ({
            let (next, directive) = step_spec(state, event);
            &&& directive.action == ActionView::OpenStream ==> state.pending == Pending::Transcode
                && event is TranscodeSucceeded
            &&& directive.action is Stream ==> state.pending == Pending::OpenedStream
                && event is StreamOpened && directive.action == (ActionView::Stream {
                content_type: target_content_type(state.target, state.sniff),
            })
            &&& response_status(next) == Some(STATUS_OK) && response_status(state) is None
                ==> directive.action is Stream
        }),
{
}

/// The state after a run of events.
pub open spec fn run(state: PipelineView, events: Seq<Event>) -> PipelineView
    decreases events.len(),
{
    if events.len() == 0 {
        state
    } else {
        run(step_spec(state, events[0]).0, events.drop_first())
    }
}

/// How many artifacts the answers to a run of events ask the caller to
/// create.
pub open spec fn claimed_in(state: PipelineView, events: Seq<Event>) -> nat
    decreases events.len(),
{
    if events.len() == 0 {
        0
    } else {
        let (next, directive) = step_spec(state, events[0]);
        claimed_by(directive.action).size() + claimed_in(next, events.drop_first())
    }
}

/// How many artifacts the answers to a run of events ask the caller to
/// delete.
pub open spec fn released_in(state: PipelineView, events: Seq<Event>) -> nat
    decreases events.len(),
{
    if events.len() == 0 {
        0
    } else {
        let (next, directive) = step_spec(state, events[0]);
        directive.release.size() + released_in(next, events.drop_first())
    }
}

/// Over any run of events, whatever their order, the artifacts held at the
/// start and those claimed on the way are either deleted or still held. So
/// once the request is over, by success or by failure, as many artifacts
/// have been deleted as were ever there.
pub proof fn law_every_artifact_is_released(state: PipelineView, events: Seq<Event>)
    requires
        state.wf(),
    ensures
        run(state, events).wf(),
        state.live.size() + claimed_in(state, events) == run(state, events).live.size()
            + released_in(state, events),
        run(state, events).is_over() ==> released_in(state, events) == state.live.size()
            + claimed_in(state, events),
    decreases events.len(),
{
    if events.len() > 0 {
        let (next, directive) = step_spec(state, events[0]);
        law_step_keeps_well_formed(state, events[0]);
        law_no_artifact_outlives_the_request(state, events[0]);
        law_every_artifact_is_released(next, events.drop_first());
    }
}

} // verus!
