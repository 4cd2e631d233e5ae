use media_gateway::artifact::{ArtifactRole, ArtifactSet};
use media_gateway::failure::{Failure, TranscodeFault, STATUS_OK};
use media_gateway::pipeline::Event;
use media_gateway::text::{dot_suffix, ends_with, same_text};
use media_gateway::transcoder::ExternalRun;

#[test]
fn empty_set_holds_nothing() {
    let set = ArtifactSet::empty();
    assert!(set.is_empty());
    assert_eq!(set.count(), 0);
    assert!(!set.contains(ArtifactRole::Upload));
    assert!(!set.contains(ArtifactRole::Input));
    assert!(!set.contains(ArtifactRole::Output));
}

#[test]
fn sets_count_their_artifacts() {
    let set = ArtifactSet { upload: true, input: false, output: true };
    assert_eq!(set.count(), 2);
    assert!(!set.is_empty());
    assert!(set.contains(ArtifactRole::Upload));
    assert!(!set.contains(ArtifactRole::Input));
    assert!(set.contains(ArtifactRole::Output));
    let all = ArtifactSet { upload: true, input: true, output: true };
    assert_eq!(all.count(), 3);
}

#[test]
fn union_and_difference() {
    let left = ArtifactSet { upload: true, input: true, output: false };
    let right = ArtifactSet { upload: false, input: true, output: true };
    assert_eq!(left.union(right), ArtifactSet { upload: true, input: true, output: true });
    assert_eq!(left.without(right), ArtifactSet { upload: true, input: false, output: false });
    assert_eq!(right.without(left), ArtifactSet { upload: false, input: false, output: true });
    assert_eq!(left.without(left), ArtifactSet::empty());
    assert_eq!(left.union(ArtifactSet::empty()), left);
}

#[test]
fn every_failure_has_its_status() {
    assert_eq!(Failure::BadInput.status(), 400);
    assert_eq!(Failure::UnsupportedMedia.status(), 415);
    assert_eq!(Failure::ResourceFailure.status(), 500);
    assert_eq!(Failure::StreamSetupFailure.status(), 500);
    for fault in [
        TranscodeFault::UnreadableInput,
        TranscodeFault::UnsupportedTarget,
        TranscodeFault::WriteFailed,
        TranscodeFault::NonZeroExit,
        TranscodeFault::SpawnFailed,
        TranscodeFault::TimedOut,
    ] {
        assert_eq!(Failure::TranscodeFailure(fault).status(), 422);
    }
    assert_eq!(STATUS_OK, 200);
}

#[test]
fn transcoder_faults_stay_apart() {
    assert_ne!(
        Failure::TranscodeFailure(TranscodeFault::NonZeroExit),
        Failure::TranscodeFailure(TranscodeFault::SpawnFailed)
    );
    assert_ne!(
        Failure::TranscodeFailure(TranscodeFault::WriteFailed),
        Failure::TranscodeFailure(TranscodeFault::UnreadableInput)
    );
    assert_ne!(Failure::ResourceFailure, Failure::StreamSetupFailure);
}

#[test]
fn suffix_is_a_dot_and_the_extension() {
    assert_eq!(dot_suffix("jpg"), ".jpg");
    assert_eq!(dot_suffix("webm"), ".webm");
    assert_eq!(dot_suffix(""), ".");
    assert_eq!(dot_suffix("tar.gz"), ".tar.gz");
}

#[test]
fn paths_end_with_their_suffix() {
    assert!(ends_with("/tmp/.tmpAbC123.jpg", ".jpg"));
    assert!(!ends_with("/tmp/.tmpAbC123.jpeg", ".jpg"));
    assert!(!ends_with("/tmp/.tmpAbC123jpg", ".jpg"));
    assert!(!ends_with("jpg", ".jpg"));
    assert!(ends_with(".jpg", ".jpg"));
    assert!(ends_with("anything", ""));
    assert!(ends_with("", ""));
    assert!(!ends_with("", "."));
    assert!(ends_with("/tmp/b\u{e9}b\u{e9}.webm", ".webm"));
    assert!(ends_with("/tmp/caf\u{e9}", "\u{e9}"));
    assert!(!ends_with("/tmp/cafe", "\u{e9}"));
}

#[test]
fn texts_are_compared_exactly() {
    assert!(same_text("webm", "webm"));
    assert!(!same_text("webm", "WebM"));
    assert!(!same_text("webm", "webm "));
    assert!(same_text("", ""));
    assert!(!same_text("a", ""));
}

#[test]
fn only_a_clean_exit_is_a_success() {
    assert_eq!(ExternalRun::Exited(Some(0)).fault(), None);
    assert_eq!(ExternalRun::Exited(Some(0)).event(), Event::TranscodeSucceeded);
    for code in [1, 2, -1, 127, 255, i32::MIN, i32::MAX] {
        assert_eq!(ExternalRun::Exited(Some(code)).fault(), Some(TranscodeFault::NonZeroExit));
        assert_eq!(
            ExternalRun::Exited(Some(code)).event(),
            Event::TranscodeFailed(TranscodeFault::NonZeroExit)
        );
    }
    assert_eq!(ExternalRun::Exited(None).fault(), Some(TranscodeFault::NonZeroExit));
    assert_eq!(ExternalRun::NotStarted.fault(), Some(TranscodeFault::SpawnFailed));
    assert_eq!(
        ExternalRun::NotStarted.event(),
        Event::TranscodeFailed(TranscodeFault::SpawnFailed)
    );
    assert_eq!(ExternalRun::OutOfTime.fault(), Some(TranscodeFault::TimedOut));
    assert_eq!(ExternalRun::OutOfTime.event(), Event::TranscodeFailed(TranscodeFault::TimedOut));
}
