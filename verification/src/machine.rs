//! The recording state machine and the pipeline that follows a recording.
//!
//! The machine is the single source of truth for what the hotkey does. It
//! is meant to sit behind a lock that is held for one call at a time. The
//! pipeline belongs to the background task that a stop hands the session
//! to: it waits for the capture loop, encodes, asks the service whether it
//! is there, dispatches, and resolves to the text to inject.

use crate::capture::RecordingSession;
use crate::client::{
    check_health, dispatch_verdict, health_verdict, read_dispatch, DispatchOutcome, ProbeOutcome,
};
use crate::error::PipelineError;
use crate::sample::pcm16_block;
use crate::text::{blank, chars_of, contains, is_blank, occurs_at, occurs_in};
use crate::types::CancellationSignal;
use crate::wav::{fits_container, wav_image};
use vstd::prelude::*;
use vstd::string::StringExecFns;

verus! {

/// What the application is doing.
#[derive(Clone, Copy, Debug, PartialEq, Eq, Structural)]
pub enum RecordingState {
    /// Nothing: the hotkey starts a recording.
    Idle,
    /// A capture loop is collecting samples: the hotkey ends the recording.
    Recording,
    /// The recording is being encoded, dispatched and typed: the hotkey
    /// does nothing.
    Transcribing,
}

/// What the caller of `toggle` has to set going, off the hotkey's context.
#[derive(Clone, Copy, Debug, PartialEq, Eq, Structural)]
pub enum ToggleAction {
    /// Show the capture indicator and start a capture loop.
    StartSession,
    /// Await the capture loop, which has been told to stop, and run the
    /// pipeline.
    EndSession,
    /// Nothing.
    Ignore,
}

/// The state after a toggle.
pub open spec fn toggled(state: RecordingState) -> RecordingState {
    match state {
        RecordingState::Idle => RecordingState::Recording,
        RecordingState::Recording => RecordingState::Transcribing,
        RecordingState::Transcribing => RecordingState::Transcribing,
    }
}

/// What a toggle asks of its caller.
pub open spec fn toggle_action(state: RecordingState) -> ToggleAction {
    match state {
        RecordingState::Idle => ToggleAction::StartSession,
        RecordingState::Recording => ToggleAction::EndSession,
        RecordingState::Transcribing => ToggleAction::Ignore,
    }
}

/// The state after the pipeline has come to its end, with whatever result.
pub open spec fn completed(state: RecordingState, failure: Option<PipelineError>) -> RecordingState {
    match state {
        RecordingState::Transcribing => RecordingState::Idle,
        other => other,
    }
}

/// The state machine behind the hotkey.
pub struct RecordingStateMachine {
    state: RecordingState,
}

impl RecordingStateMachine {
    pub closed spec fn state(&self) -> RecordingState {
        self.state
    }

    /// A machine at rest.
    pub fn new() -> (m: RecordingStateMachine)
        ensures
            m.state() == RecordingState::Idle,
    {
        RecordingStateMachine { state: RecordingState::Idle }
    }

    /// The current state.
    pub fn current(&self) -> (s: RecordingState)
        ensures
            s == self.state(),
    {
        self.state
    }

    /// The hotkey was pressed. From idle the machine starts a recording.
    /// From recording it raises the stop flag and turns to transcribing.
    /// While transcribing it does nothing at all: neither the state nor the
    /// flag changes, and nothing is started.
    pub fn toggle(&mut self, signal: &mut CancellationSignal) -> (action: ToggleAction)
        ensures
            final(self).state() == toggled(old(self).state()),
            action == toggle_action(old(self).state()),
            old(self).state() is Recording ==> final(signal).stop_requested(),
            !(old(self).state() is Recording) ==> *final(signal) == *old(signal),
    {
        match self.state {
            RecordingState::Idle => {
                self.state = RecordingState::Recording;
                ToggleAction::StartSession
            },
            RecordingState::Recording => {
                signal.request_stop();
                self.state = RecordingState::Transcribing;
                ToggleAction::EndSession
            },
            RecordingState::Transcribing => ToggleAction::Ignore,
        }
    }

    /// The pipeline has come to its end. Whatever it came to, a machine that
    /// was transcribing is idle again; any other state stays.
    pub fn complete(&mut self, failure: Option<PipelineError>)
        ensures
            final(self).state() == completed(old(self).state(), failure),
    {
        match self.state {
            RecordingState::Transcribing => {
                self.state = RecordingState::Idle;
            },
            _ => {},
        }
    }
}

/// A toggle from idle, a toggle to stop, and the end of the pipeline leave
/// the machine idle, whether the pipeline failed and however.
pub proof fn toggle_stop_cycle_ends_idle(failure: Option<PipelineError>)
    ensures
        completed(toggled(toggled(RecordingState::Idle)), failure) == RecordingState::Idle,
{
}

/// Only an idle machine starts a session, and only a recording one ends
/// one: no two capture loops and no two pipelines run at a time.
pub proof fn sessions_do_not_overlap(state: RecordingState)
    ensures
        toggle_action(state) is StartSession <==> state is Idle,
        toggle_action(state) is EndSession <==> state is Recording,
        state is Transcribing ==> toggled(state) == state && toggle_action(state) is Ignore,
{
}

/// How far a pipeline has come.
#[derive(Clone, Copy, Debug, PartialEq, Eq, Structural)]
pub enum PipelineStage {
    /// The capture loop has not handed over yet.
    AwaitingCapture,
    /// The container is ready; the reachability check is out.
    AwaitingHealth,
    /// The service is there; the audio is out.
    AwaitingDispatch,
    /// The text is resolved.
    Finished,
}

/// What the pipeline's driver does next.
#[derive(Clone, Copy, Debug, PartialEq, Eq, Structural)]
pub enum PipelineStep {
    /// Ask the service whether it is there.
    CheckHealth,
    /// Send the container.
    Dispatch,
    /// Inject the text if it is to be injected, hide the capture indicator,
    /// and complete the state machine.
    Finish,
}

/// The stage after one more outcome: a failure ends the pipeline at once,
/// and anything else moves it one stage on.
pub open spec fn advanced(stage: PipelineStage, failed: bool) -> PipelineStage {
    if failed {
        PipelineStage::Finished
    } else {
        match stage {
            PipelineStage::AwaitingCapture => PipelineStage::AwaitingHealth,
            PipelineStage::AwaitingHealth => PipelineStage::AwaitingDispatch,
            PipelineStage::AwaitingDispatch => PipelineStage::Finished,
            PipelineStage::Finished => PipelineStage::Finished,
        }
    }
}

/// Number of outcomes a pipeline at this stage still waits for, at most.
pub open spec fn steps_left(stage: PipelineStage) -> nat {
    match stage {
        PipelineStage::AwaitingCapture => 3,
        PipelineStage::AwaitingHealth => 2,
        PipelineStage::AwaitingDispatch => 1,
        PipelineStage::Finished => 0,
    }
}

/// What the driver of a pipeline at this stage does next.
pub open spec fn next_step(stage: PipelineStage) -> PipelineStep {
    match stage {
        PipelineStage::AwaitingHealth => PipelineStep::CheckHealth,
        PipelineStage::AwaitingDispatch => PipelineStep::Dispatch,
        _ => PipelineStep::Finish,
    }
}

/// The text that stands in for a transcript after any failure.
pub open spec fn fallback_text() -> Seq<char> {
    "Transcription failed"@
}

/// The word that marks a text as a report of failure.
pub open spec fn failure_marker() -> Seq<char> {
    "failed"@
}

/// Whether a resolved text goes to the text-injection collaborator: not if
/// it is blank, and not if it denotes a failure.
pub open spec fn is_injectable(text: Seq<char>) -> bool {
    !is_blank(text) && !occurs_in(text, failure_marker())
}

/// Tests `is_injectable`.
pub fn should_inject(text: &str) -> (b: bool)
    ensures
        b == is_injectable(text@),
{
    if blank(text) {
        return false;
    }
    let chars = chars_of(text);
    let marker = chars_of("failed");
    !contains(chars.as_slice(), marker.as_slice())
}

/// One run of the pipeline.
pub struct Pipeline {
    stage: PipelineStage,
    container: Vec<u8>,
    failure: Option<PipelineError>,
    text: String,
}

impl Pipeline {
    pub closed spec fn stage(&self) -> PipelineStage {
        self.stage
    }

    /// The encoded audio, once there is any.
    pub closed spec fn container(&self) -> Seq<u8> {
        self.container@
    }

    /// The failure that ended the pipeline early, if one did.
    pub closed spec fn failure(&self) -> Option<PipelineError> {
        self.failure
    }

    /// The resolved text.
    pub closed spec fn text(&self) -> Seq<char> {
        self.text@
    }

    /// The pipeline ended early on `e`: the text is the fallback.
    pub open spec fn failed_with(&self, e: PipelineError) -> bool {
        &&& self.stage() == PipelineStage::Finished
        &&& self.failure() == Some(e)
        &&& self.text() == fallback_text()
    }

    /// A pipeline that waits for its capture loop: nothing is encoded,
    /// nothing has failed, and no text is resolved yet.
    pub fn new() -> (p: Pipeline)
        ensures
            p.stage() == PipelineStage::AwaitingCapture,
            p.failure() is None,
            p.container() == Seq::<u8>::empty(),
            p.text() == Seq::<char>::empty(),
    {
        Pipeline {
            stage: PipelineStage::AwaitingCapture,
            container: Vec::new(),
            failure: None,
            text: String::new(),
        }
    }

    fn fail(&mut self, e: PipelineError)
        ensures
            final(self).failed_with(e),
            final(self).container() == old(self).container(),
    {
        self.stage = PipelineStage::Finished;
        self.failure = Some(e);
        self.text = String::from_str("Transcription failed");
    }

    /// The capture loop has handed over. A failed capture ends the pipeline
    /// at once. A recording that a container can hold is encoded, and the
    /// reachability check is next; one that no container can hold ends the
    /// pipeline with `EncodingError`.
    pub fn on_capture(&mut self, captured: Result<RecordingSession, PipelineError>) -> (step:
        PipelineStep)
        requires
            old(self).stage() == PipelineStage::AwaitingCapture,
        ensures
            final(self).stage() == advanced(old(self).stage(), final(self).failure() is Some),
            step == next_step(final(self).stage()),
            captured matches Err(e) ==> final(self).failed_with(e) && final(self).container()
                == old(self).container(),
            captured matches Ok(session) ==> (if fits_container(
                session.sample_rate,
                session.channel_count,
                session.samples@.len(),
            ) {
                &&& final(self).stage() == PipelineStage::AwaitingHealth
                &&& final(self).failure() is None
                &&& final(self).container() == wav_image(
                    session.channel_count,
                    session.sample_rate,
                    pcm16_block(session.samples@),
                )
            } else {
                &&& final(self).failed_with(PipelineError::EncodingError)
                &&& final(self).container() == old(self).container()
            }),
    {
        match captured {
            Err(e) => {
                self.fail(e);
                PipelineStep::Finish
            },
            Ok(session) => {
                match session.encode() {
                    Ok(bytes) => {
                        self.container = bytes;
                        self.failure = None;
                        self.stage = PipelineStage::AwaitingHealth;
                        PipelineStep::CheckHealth
                    },
                    Err(e) => {
                        self.fail(e);
                        PipelineStep::Finish
                    },
                }
            },
        }
    }

    /// The reachability check has come back. Unless the service answered
    /// with a 2xx status the pipeline ends here, and no audio is sent.
    pub fn on_health(&mut self, outcome: ProbeOutcome) -> (step: PipelineStep)
        requires
            old(self).stage() == PipelineStage::AwaitingHealth,
        ensures
            final(self).stage() == advanced(old(self).stage(), final(self).failure() is Some),
            step == next_step(final(self).stage()),
            final(self).container() == old(self).container(),
            match health_verdict(outcome) {
                Ok(_) => final(self).failure() is None,
                Err(e) => final(self).failed_with(e),
            },
    {
        match check_health(outcome) {
            Ok(_) => {
                self.failure = None;
                self.stage = PipelineStage::AwaitingDispatch;
                PipelineStep::Dispatch
            },
            Err(e) => {
                self.fail(e);
                PipelineStep::Finish
            },
        }
    }

    /// The dispatch has come back: the pipeline resolves to the transcript,
    /// or to the fallback after a failure.
    pub fn on_dispatch(&mut self, outcome: &DispatchOutcome) -> (step: PipelineStep)
        requires
            old(self).stage() == PipelineStage::AwaitingDispatch,
        ensures
            final(self).stage() == advanced(old(self).stage(), final(self).failure() is Some),
            step == next_step(final(self).stage()),
            final(self).container() == old(self).container(),
            match dispatch_verdict(*outcome) {
                Ok(text) => final(self).text() == text && final(self).failure() is None,
                Err(e) => final(self).failed_with(e),
            },
    {
        match read_dispatch(outcome) {
            Ok(text) => {
                self.text = text;
                self.failure = None;
                self.stage = PipelineStage::Finished;
            },
            Err(e) => {
                self.fail(e);
            },
        }
        PipelineStep::Finish
    }

    /// Where the pipeline stands.
    pub fn current_stage(&self) -> (s: PipelineStage)
        ensures
            s == self.stage(),
    {
        self.stage
    }

    /// The bytes to dispatch.
    pub fn container_bytes(&self) -> (bytes: &Vec<u8>)
        ensures
            bytes@ == self.container(),
    {
        &self.container
    }

    /// The failure that ended the pipeline early, if one did.
    pub fn failure_kind(&self) -> (f: Option<PipelineError>)
        ensures
            f == self.failure(),
    {
        self.failure
    }

    /// The resolved text.
    pub fn resolved_text(&self) -> (t: &String)
        ensures
            t@ == self.text(),
    {
        &self.text
    }

    /// Whether the resolved text goes to the text-injection collaborator.
    pub fn injects(&self) -> (b: bool)
        ensures
            b == is_injectable(self.text()),
    {
        should_inject(self.text.as_str())
    }
}

/// Every outcome brings the pipeline nearer its end, and a failure brings it
/// there at once: whatever the capture loop, the encoder and the service
/// come to, the text is resolved after three outcomes at most, and nothing
/// is sent once an outcome was a failure.
pub proof fn pipeline_always_finishes(stage: PipelineStage, failed: bool)
    ensures
        stage != PipelineStage::Finished ==> steps_left(advanced(stage, failed)) < steps_left(stage),
        steps_left(stage) <= 3,
        failed ==> advanced(stage, failed) == PipelineStage::Finished && next_step(
            advanced(stage, failed),
        ) == PipelineStep::Finish,
        steps_left(stage) == 0 <==> stage == PipelineStage::Finished,
{
}

/// The fallback text is never injected.
pub proof fn fallback_is_not_injected()
    ensures
        !is_injectable(fallback_text()),
{
    reveal_strlit("Transcription failed");
    reveal_strlit("failed");
    assert(occurs_at(fallback_text(), failure_marker(), 14)) by {
        assert(fallback_text().subrange(14, 20) =~= failure_marker());
    }
}

} // verus!
