//! The course of one session, from the connection to the speech recognizer to the text that is
//! pasted.
//!
//! [`SessionTask`] decides; its caller acts. The caller performs the actions that a step returns,
//! in order, and reports what came of it as the next event. Those that change the current session
//! and follow one another are one change of it.

use crate::config::{AsrConfig, LlmSection};
#[allow(unused_imports)]
use crate::session::recording_state_of;
use crate::session::{recording_state, SessionMode, SessionState};
use vstd::prelude::*;

verus! {

/// How many revisions of the recognized text are kept with it.
pub const INTERIM_REVISIONS: usize = 10;

/// What a speech recognizer reports.
#[derive(Debug, PartialEq)]
pub enum AsrEvent {
    Connected,
    /// A first guess, which later ones revise.
    Interim(String),
    /// A part of the text that will not be revised any more.
    Definite(String),
    /// The whole text.
    Final(String),
    Error(String),
    Closed,
}

/// What the user interface is told of the course of a session.
#[derive(Debug, Clone, Copy, PartialEq, Eq, Structural)]
pub enum Status {
    ConnectingAsr,
    /// The session records, in the given state.
    Recording(SessionState),
    FinalizingAsr,
    Correcting,
    PreparingPaste,
    Completed,
    Failed,
    Idle,
}

/// The text that announces a status. A recording is announced by the name of its session state.
pub open spec fn status_label(status: Status) -> Option<Seq<char>> {
    match status {
        Status::ConnectingAsr => Some("connecting_asr"@),
        Status::Recording(_) => None,
        Status::FinalizingAsr => Some("finalizing_asr"@),
        Status::Correcting => Some("correcting"@),
        Status::PreparingPaste => Some("preparing_paste"@),
        Status::Completed => Some("completed"@),
        Status::Failed => Some("failed"@),
        Status::Idle => Some("idle"@),
    }
}

impl Status {
    /// The text that announces the status, unless the name of a session state does.
    pub fn label(self) -> (label: Option<&'static str>)
        ensures
            match label {
                Some(text) => status_label(self) == Some(text@),
                None => status_label(self) is None,
            },
    {
        match self {
            Status::ConnectingAsr => Some("connecting_asr"),
            Status::Recording(_) => None,
            Status::FinalizingAsr => Some("finalizing_asr"),
            Status::Correcting => Some("correcting"),
            Status::PreparingPaste => Some("preparing_paste"),
            Status::Completed => Some("completed"),
            Status::Failed => Some("failed"),
            Status::Idle => Some("idle"),
        }
    }
}

/// Why a session failed.
#[derive(Debug, PartialEq)]
pub enum Failure {
    /// The speech recognizer could not be reached, for the given reason.
    AsrConnection(String),
    /// Nothing was recognized.
    NoSpeech,
}

/// The text that reports a failure to the user.
pub open spec fn failure_message(failure: Failure) -> Seq<char> {
    match failure {
        Failure::AsrConnection(reason) => reason@,
        Failure::NoSpeech => "no speech recognized"@,
    }
}

impl Failure {
    /// The text that reports the failure to the user.
    pub fn message(&self) -> (message: String)
        ensures
            message@ == failure_message(*self),
            *self matches Failure::AsrConnection(reason) ==> message@ == reason@,
    {
        match self {
            Failure::AsrConnection(reason) => reason.clone(),
            Failure::NoSpeech => "no speech recognized".to_string(),
        }
    }
}

/// The text that warns the user of a failed correction.
pub fn correction_warning(reason: &str) -> (message: String)
    ensures
        message@ == "LLM correction failed: "@ + reason@,
{
    let mut message = "LLM correction failed: ".to_string();
    message.append(reason);
    message
}

/// What the caller of a session task reports to it.
#[derive(Debug, PartialEq)]
pub enum Event {
    /// The speech recognizer is connected.
    Connected,
    /// The speech recognizer could not be reached.
    ConnectFailed(String),
    /// A frame of audio has come in.
    AudioFrame(Vec<u8>),
    /// The user has ended the recording.
    AudioEnded,
    /// A frame of audio was sent, or could not be.
    AudioSent(bool),
    /// The speech recognizer was told that no more audio will come.
    InputFinished,
    /// The speech recognizer reports something.
    Asr(AsrEvent),
    /// The speech recognizer can no longer be read from.
    AsrReadFailed,
    /// Whether the transcript holds a final result.
    FinalResult(bool),
    /// The final result did not come in time.
    FinalWaitTimedOut,
    /// The speech recognizer is closed: the best text of the transcript, and its revisions.
    Transcript(String, Vec<String>),
    /// The language model has returned a corrected text.
    Corrected(String),
    /// The language model could not correct the text.
    CorrectionFailed(String),
}

/// What the caller of a session task does for it.
#[derive(Debug, PartialEq)]
pub enum Action {
    /// Tell the user interface about the status.
    Notify(Status),
    /// Connect to the speech recognizer, then report `Connected` or `ConnectFailed`.
    ConnectAsr,
    /// Take the current session to the state.
    Transition(SessionState),
    /// Tell the user interface that audio is accepted.
    SessionReady,
    /// Send the frame to the speech recognizer, then report `AudioSent`.
    SendAudio(Vec<u8>),
    /// Tell the speech recognizer that the audio has ended, then report `InputFinished`.
    FinishInput,
    /// Enter a first guess in the transcript.
    UpdateInterim(String),
    /// Enter a definite part in the transcript.
    UpdateDefinite(String),
    /// Enter the final text in the transcript.
    UpdateFinal(String),
    /// Report whether the transcript holds a final result.
    QueryFinalResult,
    /// Report what the speech recognizer says, for so many milliseconds at most.
    AwaitFinal(u64),
    /// Close the speech recognizer, then report the transcript with so many revisions at most.
    CloseAsr(usize),
    /// Report a failure to the user.
    Fail(Failure),
    /// Store the recognized text in the current session.
    StoreAsrText(String),
    /// Ask the language model to correct the text, given its revisions, which the task holds;
    /// then report what it says.
    RequestCorrection(String),
    /// Warn the user that the correction failed, for the given reason.
    WarnCorrectionFailed(String),
    /// Store the text to be pasted in the current session.
    StoreCorrectedText(String),
    /// Hand the text to the user interface, to be pasted.
    DeliverFinalText(String),
    /// Look for doubtful phrases, given the recognized text, the pasted text and the revisions.
    ExtractUncertain(String, String, Vec<String>),
    /// Leave no current session.
    Cleanup,
}

impl Action {
    /// Whether the action changes the current session.
    pub open spec fn changing_session(self) -> bool {
        ||| self is Transition
        ||| self is StoreAsrText
        ||| self is StoreCorrectedText
        ||| self is Cleanup
    }

    /// Whether the action changes the current session.
    pub fn changes_session(&self) -> (changing: bool)
        ensures
            changing == self.changing_session(),
            changing <==> *self is Transition || *self is StoreAsrText || *self
                is StoreCorrectedText || *self is Cleanup,
    {
        matches!(
            self,
            Action::Transition(_)
                | Action::StoreAsrText(_)
                | Action::StoreCorrectedText(_)
                | Action::Cleanup
        )
    }
}

/// How a session ended.
#[derive(Debug, Clone, Copy, PartialEq, Eq, Structural)]
pub enum Outcome {
    ConnectionFailed,
    NoSpeech,
    Completed,
}

/// How far a session has come, and so what it waits for.
#[derive(Debug, PartialEq)]
pub enum Stage {
    /// Waits for the connection to the speech recognizer.
    Connecting,
    /// Waits for audio and for the speech recognizer.
    Streaming,
    /// Waits for a frame to be sent.
    Sending,
    /// Waits for the end of the audio to be sent.
    Finishing,
    /// Waits to learn whether there is a final result, after the speech recognizer has closed
    /// the connection or before that.
    Finalizing { asr_done: bool },
    /// Waits for the final result.
    AwaitingFinal,
    /// Waits for the transcript.
    Closing,
    /// Waits for the correction of a text with its revisions.
    Correcting { asr_text: String, interim_history: Vec<String> },
    /// Waits for nothing.
    Done { outcome: Outcome },
}

/// What the caller of a session task waits for, once the actions of a step are done.
#[derive(Debug, Clone, Copy, PartialEq, Eq, Structural)]
pub enum Wait {
    /// The report that the last action has asked for.
    Report,
    /// Audio or the speech recognizer, whichever comes first.
    Input,
    /// The speech recognizer, until the time for the final result is over.
    FinalResult,
    /// Nothing: the session has ended.
    Nothing,
}

/// What is waited for at a stage.
pub open spec fn wait_at(stage: Stage) -> Wait {
    match stage {
        Stage::Streaming => Wait::Input,
        Stage::AwaitingFinal => Wait::FinalResult,
        Stage::Done { .. } => Wait::Nothing,
        _ => Wait::Report,
    }
}

/// Whether a session that has come to a stage waits for the report of an action. At the other
/// stages it waits for audio and the speech recognizer, or for nothing.
pub open spec fn awaits_report(stage: Stage) -> bool {
    !(stage is Streaming || stage is AwaitingFinal || stage is Done)
}

/// The course of one session.
#[derive(Debug, PartialEq)]
pub struct SessionTask {
    pub mode: SessionMode,
    /// How long to wait for the final result after the audio has ended, in milliseconds.
    pub final_wait_timeout_ms: u64,
    /// Whether a language model is configured.
    pub llm_configured: bool,
    pub stage: Stage,
}

/// What is done about an event that the speech recognizer reports, beyond the stage it leads to.
pub open spec fn transcript_update(event: AsrEvent) -> Seq<Action> {
    match event {
        AsrEvent::Interim(text) => if text@.len() > 0 {
            seq![Action::UpdateInterim(text)]
        } else {
            seq![]
        },
        AsrEvent::Definite(text) => seq![Action::UpdateDefinite(text)],
        AsrEvent::Final(text) => seq![Action::UpdateFinal(text)],
        _ => seq![],
    }
}

/// Whether an event ends the wait for the final result.
pub open spec fn ends_final_wait(event: AsrEvent) -> bool {
    event is Final || event is Closed
}

/// What is done first in a session.
pub open spec fn opening() -> Seq<Action> {
    seq![Action::Notify(Status::ConnectingAsr), Action::ConnectAsr]
}

/// What is done when the audio has ended.
pub open spec fn finalization() -> Seq<Action> {
    seq![
        Action::Transition(SessionState::FinalizingAsr),
        Action::Notify(Status::FinalizingAsr),
        Action::QueryFinalResult,
    ]
}

/// What is done about a failed session.
pub open spec fn failing(failure: Failure) -> Seq<Action> {
    seq![Action::Fail(failure), Action::Notify(Status::Failed), Action::Cleanup]
}

/// What is done once the text to be pasted is known.
pub open spec fn completion(
    llm_configured: bool,
    asr_text: String,
    final_text: String,
    interim_history: Vec<String>,
) -> Seq<Action> {
    seq![
        Action::StoreCorrectedText(final_text),
        Action::Transition(SessionState::PreparingPaste),
        Action::Notify(Status::PreparingPaste),
        Action::DeliverFinalText(final_text),
    ] + (if llm_configured && interim_history@.len() > 0 {
        seq![Action::ExtractUncertain(asr_text, final_text, interim_history)]
    } else {
        seq![]
    }) + seq![
        Action::Transition(SessionState::Pasting),
        Action::Transition(SessionState::Completed),
        Action::Notify(Status::Completed),
        Action::Cleanup,
        Action::Notify(Status::Idle),
    ]
}

impl SessionTask {
    /// The same session at another stage.
    pub open spec fn at(self, stage: Stage) -> SessionTask {
        SessionTask { stage, ..self }
    }

    /// What a session does about the transcript.
    pub open spec fn on_transcript(self, text: String, interim_history: Vec<String>) -> (
        SessionTask,
        Seq<Action>,
    ) {
        let recognized = seq![
            Action::StoreAsrText(text),
            Action::Transition(SessionState::Correcting),
            Action::Notify(Status::Correcting),
        ];
        if text@.len() == 0 {
            (self.at(Stage::Done { outcome: Outcome::NoSpeech }), failing(Failure::NoSpeech))
        } else if self.llm_configured {
            (
                self.at(Stage::Correcting { asr_text: text, interim_history }),
                recognized.push(Action::RequestCorrection(text)),
            )
        } else {
            (
                self.at(Stage::Done { outcome: Outcome::Completed }),
                recognized + completion(false, text, text, interim_history),
            )
        }
    }

    /// What a session does about an event: where it goes from here, and what its caller does. An
    /// event that its stage does not wait for changes nothing.
    pub open spec fn reaction(self, event: Event) -> (SessionTask, Seq<Action>) {
        match (self.stage, event) {
            (Stage::Connecting, Event::Connected) => (
                self.at(Stage::Streaming),
                seq![
                    Action::Transition(recording_state_of(self.mode)),
                    Action::Notify(Status::Recording(recording_state_of(self.mode))),
                    Action::SessionReady,
                ],
            ),
            (Stage::Connecting, Event::ConnectFailed(reason)) => (
                self.at(Stage::Done { outcome: Outcome::ConnectionFailed }),
                failing(Failure::AsrConnection(reason)),
            ),
            (Stage::Streaming, Event::AudioFrame(frame)) => (
                self.at(Stage::Sending),
                seq![Action::SendAudio(frame)],
            ),
            (Stage::Streaming, Event::AudioEnded) => (
                self.at(Stage::Finishing),
                seq![Action::FinishInput],
            ),
            (Stage::Streaming, Event::AsrReadFailed) => (
                self.at(Stage::Finalizing { asr_done: false }),
                finalization(),
            ),
            (Stage::Streaming, Event::Asr(asr_event)) => if asr_event is Closed {
                (self.at(Stage::Finalizing { asr_done: true }), finalization())
            } else {
                (self, transcript_update(asr_event))
            },
            (Stage::Sending, Event::AudioSent(sent)) => if sent {
                (self.at(Stage::Streaming), seq![])
            } else {
                (self.at(Stage::Finalizing { asr_done: false }), finalization())
            },
            (Stage::Finishing, Event::InputFinished) => (
                self.at(Stage::Finalizing { asr_done: false }),
                finalization(),
            ),
            (Stage::Finalizing { asr_done }, Event::FinalResult(found)) => if found || asr_done {
                (self.at(Stage::Closing), seq![Action::CloseAsr(INTERIM_REVISIONS)])
            } else {
                (
                    self.at(Stage::AwaitingFinal),
                    seq![Action::AwaitFinal(self.final_wait_timeout_ms)],
                )
            },
            (Stage::AwaitingFinal, Event::Asr(asr_event)) => if ends_final_wait(asr_event) {
                (
                    self.at(Stage::Closing),
                    transcript_update(asr_event).push(Action::CloseAsr(INTERIM_REVISIONS)),
                )
            } else {
                (self, transcript_update(asr_event))
            },
            (Stage::AwaitingFinal, Event::AsrReadFailed) => (
                self.at(Stage::Closing),
                seq![Action::CloseAsr(INTERIM_REVISIONS)],
            ),
            (Stage::AwaitingFinal, Event::FinalWaitTimedOut) => (
                self.at(Stage::Closing),
                seq![Action::CloseAsr(INTERIM_REVISIONS)],
            ),
            (Stage::Closing, Event::Transcript(text, interim_history)) => self.on_transcript(
                text,
                interim_history,
            ),
            (
                Stage::Correcting { asr_text, interim_history },
                Event::Corrected(corrected),
            ) => (
                self.at(Stage::Done { outcome: Outcome::Completed }),
                completion(self.llm_configured, asr_text, corrected, interim_history),
            ),
            (
                Stage::Correcting { asr_text, interim_history },
                Event::CorrectionFailed(reason),
            ) => (
                self.at(Stage::Done { outcome: Outcome::Completed }),
                seq![Action::WarnCorrectionFailed(reason)] + completion(
                    self.llm_configured,
                    asr_text,
                    asr_text,
                    interim_history,
                ),
            ),
            _ => (self, seq![]),
        }
    }

    /// Begins a session: the task, and what its caller does first.
    pub fn start(mode: SessionMode, asr_config: &AsrConfig, llm_config: &LlmSection) -> (begun: (
        SessionTask,
        Vec<Action>,
    ))
        ensures
            begun.0 == (SessionTask {
                mode,
                final_wait_timeout_ms: asr_config.final_wait_timeout_ms,
                llm_configured: llm_config.configured(),
                stage: Stage::Connecting,
            }),
            begun.0.llm_configured <==> llm_config.base_url@.len() > 0 && llm_config.api_key@.len()
                > 0,
            begun.1@ == opening(),
    {
        let task = SessionTask {
            mode,
            final_wait_timeout_ms: asr_config.final_wait_timeout_ms,
            llm_configured: llm_config.is_configured(),
            stage: Stage::Connecting,
        };
        (task, vec![Action::Notify(Status::ConnectingAsr), Action::ConnectAsr])
    }

    /// The revisions of the text that is being corrected.
    pub fn interim_history(&self) -> (revisions: Option<&Vec<String>>)
        ensures
            match self.stage {
                Stage::Correcting { interim_history, .. } => revisions == Some(&interim_history),
                _ => revisions is None,
            },
    {
        match &self.stage {
            Stage::Correcting { interim_history, .. } => Some(interim_history),
            _ => None,
        }
    }

    /// What the caller waits for next.
    pub fn wait(&self) -> (wait: Wait)
        ensures
            wait == wait_at(self.stage),
            wait == Wait::Report <==> awaits_report(self.stage),
            wait == Wait::Input <==> self.stage is Streaming,
            wait == Wait::FinalResult <==> self.stage is AwaitingFinal,
            wait == Wait::Nothing <==> self.stage is Done,
    {
        match self.stage {
            Stage::Streaming => Wait::Input,
            Stage::AwaitingFinal => Wait::FinalResult,
            Stage::Done { .. } => Wait::Nothing,
            _ => Wait::Report,
        }
    }

    /// Takes the session one event further.
    pub fn step(self, event: Event) -> (taken: (SessionTask, Vec<Action>))
        ensures
            (taken.0, taken.1@) == self.reaction(event),
    {
        let SessionTask { mode, final_wait_timeout_ms, llm_configured, stage } = self;
        let mut actions: Vec<Action> = Vec::new();
        let next = match (stage, event) {
            (Stage::Connecting, Event::Connected) => {
                let state = recording_state(mode);
                actions.push(Action::Transition(state));
                actions.push(Action::Notify(Status::Recording(state)));
                actions.push(Action::SessionReady);
                Stage::Streaming
            },
            (Stage::Connecting, Event::ConnectFailed(reason)) => {
                push_failing(&mut actions, Failure::AsrConnection(reason));
                Stage::Done { outcome: Outcome::ConnectionFailed }
            },
            (Stage::Streaming, Event::AudioFrame(frame)) => {
                actions.push(Action::SendAudio(frame));
                Stage::Sending
            },
            (Stage::Streaming, Event::AudioEnded) => {
                actions.push(Action::FinishInput);
                Stage::Finishing
            },
            (Stage::Streaming, Event::AsrReadFailed) => {
                push_finalization(&mut actions);
                Stage::Finalizing { asr_done: false }
            },
            (Stage::Streaming, Event::Asr(asr_event)) => match asr_event {
                AsrEvent::Closed => {
                    push_finalization(&mut actions);
                    Stage::Finalizing { asr_done: true }
                },
                other => {
                    push_transcript_update(&mut actions, other);
                    Stage::Streaming
                },
            },
            (Stage::Sending, Event::AudioSent(sent)) => if sent {
                Stage::Streaming
            } else {
                push_finalization(&mut actions);
                Stage::Finalizing { asr_done: false }
            },
            (Stage::Finishing, Event::InputFinished) => {
                push_finalization(&mut actions);
                Stage::Finalizing { asr_done: false }
            },
            (Stage::Finalizing { asr_done }, Event::FinalResult(found)) => if found || asr_done {
                actions.push(Action::CloseAsr(INTERIM_REVISIONS));
                Stage::Closing
            } else {
                actions.push(Action::AwaitFinal(final_wait_timeout_ms));
                Stage::AwaitingFinal
            },
            (Stage::AwaitingFinal, Event::Asr(asr_event)) => if wait_for_final(
                &mut actions,
                asr_event,
            ) {
                actions.push(Action::CloseAsr(INTERIM_REVISIONS));
                Stage::Closing
            } else {
                Stage::AwaitingFinal
            },
            (Stage::AwaitingFinal, Event::AsrReadFailed) => {
                actions.push(Action::CloseAsr(INTERIM_REVISIONS));
                Stage::Closing
            },
            (Stage::AwaitingFinal, Event::FinalWaitTimedOut) => {
                actions.push(Action::CloseAsr(INTERIM_REVISIONS));
                Stage::Closing
            },
            (Stage::Closing, Event::Transcript(text, interim_history)) => {
                if text.as_str().is_empty() {
                    push_failing(&mut actions, Failure::NoSpeech);
                    Stage::Done { outcome: Outcome::NoSpeech }
                } else {
                    actions.push(Action::StoreAsrText(text.clone()));
                    actions.push(Action::Transition(SessionState::Correcting));
                    actions.push(Action::Notify(Status::Correcting));
                    if llm_configured {
                        actions.push(Action::RequestCorrection(text.clone()));
                        Stage::Correcting { asr_text: text, interim_history }
                    } else {
                        let final_text = text.clone();
                        push_completion(
                            &mut actions,
                            llm_configured,
                            text,
                            final_text,
                            interim_history,
                        );
                        Stage::Done { outcome: Outcome::Completed }
                    }
                }
            },
            (
                Stage::Correcting { asr_text, interim_history },
                Event::Corrected(corrected),
            ) => {
                push_completion(
                    &mut actions,
                    llm_configured,
                    asr_text,
                    corrected,
                    interim_history,
                );
                Stage::Done { outcome: Outcome::Completed }
            },
            (
                Stage::Correcting { asr_text, interim_history },
                Event::CorrectionFailed(reason),
            ) => {
                actions.push(Action::WarnCorrectionFailed(reason));
                let final_text = asr_text.clone();
                push_completion(
                    &mut actions,
                    llm_configured,
                    asr_text,
                    final_text,
                    interim_history,
                );
                Stage::Done { outcome: Outcome::Completed }
            },
            (unchanged, _) => unchanged,
        };
        let task = SessionTask { mode, final_wait_timeout_ms, llm_configured, stage: next };
        assert(actions@ =~= self.reaction(event).1);
        (task, actions)
    }
}

fn push_failing(actions: &mut Vec<Action>, failure: Failure)
    ensures
        final(actions)@ == old(actions)@ + failing(failure),
{
    actions.push(Action::Fail(failure));
    actions.push(Action::Notify(Status::Failed));
    actions.push(Action::Cleanup);
}

fn push_finalization(actions: &mut Vec<Action>)
    ensures
        final(actions)@ == old(actions)@ + finalization(),
{
    actions.push(Action::Transition(SessionState::FinalizingAsr));
    actions.push(Action::Notify(Status::FinalizingAsr));
    actions.push(Action::QueryFinalResult);
}

fn push_transcript_update(actions: &mut Vec<Action>, event: AsrEvent)
    ensures
        final(actions)@ == old(actions)@ + transcript_update(event),
{
    match event {
        AsrEvent::Interim(text) => {
            if !text.as_str().is_empty() {
                actions.push(Action::UpdateInterim(text));
            }
        },
        AsrEvent::Definite(text) => {
            actions.push(Action::UpdateDefinite(text));
        },
        AsrEvent::Final(text) => {
            actions.push(Action::UpdateFinal(text));
        },
        _ => {},
    }
}

/// Handles one event of the speech recognizer while the final result is waited for, and tells
/// whether that ends the wait.
pub fn wait_for_final(actions: &mut Vec<Action>, event: AsrEvent) -> (ended: bool)
    ensures
        ended == ends_final_wait(event),
        ended <==> event is Final || event is Closed,
        final(actions)@ == old(actions)@ + transcript_update(event),
{
    let ended = matches!(event, AsrEvent::Final(_) | AsrEvent::Closed);
    push_transcript_update(actions, event);
    ended
}

fn push_completion(
    actions: &mut Vec<Action>,
    llm_configured: bool,
    asr_text: String,
    final_text: String,
    interim_history: Vec<String>,
)
    ensures
        final(actions)@ == old(actions)@ + completion(
            llm_configured,
            asr_text,
            final_text,
            interim_history,
        ),
{
    actions.push(Action::StoreCorrectedText(final_text.clone()));
    actions.push(Action::Transition(SessionState::PreparingPaste));
    actions.push(Action::Notify(Status::PreparingPaste));
    actions.push(Action::DeliverFinalText(final_text.clone()));
    if llm_configured && interim_history.len() > 0 {
        actions.push(Action::ExtractUncertain(asr_text, final_text, interim_history));
    }
    actions.push(Action::Transition(SessionState::Pasting));
    actions.push(Action::Transition(SessionState::Completed));
    actions.push(Action::Notify(Status::Completed));
    actions.push(Action::Cleanup);
    actions.push(Action::Notify(Status::Idle));
}

} // verus!
