//! What has a bearing on a step of a session, and what has none.

#[allow(unused_imports)]
use crate::config::{AsrConfig, LlmSection};
#[allow(unused_imports)]
use crate::course::{asks_for_report, expected};
#[allow(unused_imports)]
use crate::session::{SessionMode, SessionState};
#[allow(unused_imports)]
use crate::task::{
    correction_warning, failure_message, status_label, transcript_update, wait_at, wait_for_final,
    Action, AsrEvent, Event, Failure, Outcome, SessionTask, Stage, Status, Wait,
};
use vstd::prelude::*;

verus! {

/// The mode of a session tells the state that it records in, and has no other bearing on it: a
/// session of the other mode goes the same way and does the same, in every other step.
pub proof fn modes_only_name_the_recording(task: SessionTask, mode: SessionMode, event: Event)
    ensures
        (SessionTask { mode, ..task }).reaction(event).0.stage == task.reaction(event).0.stage,
        task.stage is Connecting && event is Connected ==> {
            let state = if task.mode == SessionMode::Hold {
                SessionState::RecordingHold
            } else {
                SessionState::RecordingToggle
            };
            &&& task.reaction(event).1.len() == 3
            &&& task.reaction(event).1[0] == Action::Transition(state)
            &&& task.reaction(event).1[1] == Action::Notify(Status::Recording(state))
            &&& task.reaction(event).1[2] == Action::SessionReady
        },
        !(task.stage is Connecting && event is Connected) ==> (SessionTask {
            mode,
            ..task
        }).reaction(event).1 == task.reaction(event).1,
{
}

/// The time limit of a session tells how long the final result is waited for, where it is waited
/// for, and has no other bearing on it.
pub proof fn time_limits_only_limit_the_final_wait(task: SessionTask, limit: u64, event: Event)
    ensures
        (SessionTask { final_wait_timeout_ms: limit, ..task }).reaction(event).0.stage
            == task.reaction(event).0.stage,
        task.stage is Finalizing && task.reaction(event).0.stage is AwaitingFinal
            ==> task.reaction(event).1 == seq![Action::AwaitFinal(task.final_wait_timeout_ms)],
        !(task.stage is Finalizing && task.reaction(event).0.stage is AwaitingFinal) ==> (
        SessionTask { final_wait_timeout_ms: limit, ..task }).reaction(event).1 == task.reaction(
            event,
        ).1,
{
}

/// Whether a language model is configured has no bearing on a session before its text is known, and
/// none where no text was recognized.
pub proof fn language_models_matter_once_there_is_a_text(
    task: SessionTask,
    llm_configured: bool,
    event: Event,
)
    requires
        !(task.stage is Correcting),
        task.stage is Closing ==> !(event matches Event::Transcript(text, _) && text@.len() > 0),
    ensures
        (SessionTask { llm_configured, ..task }).reaction(event).0.stage == task.reaction(
            event,
        ).0.stage,
        (SessionTask { llm_configured, ..task }).reaction(event).1 == task.reaction(event).1,
{
}

/// A session without a language model does what it would do with one that gives the text back
/// unchanged, but for the request and the search for doubtful phrases: there is none, so the
/// revisions do not matter.
pub proof fn without_a_model_the_text_is_taken_as_corrected(
    task: SessionTask,
    text: String,
    interim_history: Vec<String>,
    no_history: Vec<String>,
)
    requires
        task.stage is Closing,
        text@.len() > 0,
        no_history@.len() == 0,
    ensures
        ({
            let without = SessionTask { llm_configured: false, ..task };
            let with = SessionTask { llm_configured: true, ..task };
            let asked = with.reaction(Event::Transcript(text, no_history));
            let answered = asked.0.reaction(Event::Corrected(text));
            let taken = without.reaction(Event::Transcript(text, interim_history));
            &&& asked.1.last() == Action::RequestCorrection(text)
            &&& taken.1 == asked.1.drop_last() + answered.1
            &&& taken.0.stage == answered.0.stage
            &&& taken.0.stage == Stage::Done { outcome: Outcome::Completed }
        }),
{
}

/// A failed correction is one that gives the recognized text back unchanged, after a warning with
/// the reason for it.
pub proof fn failed_corrections_keep_the_text(
    task: SessionTask,
    asr_text: String,
    interim_history: Vec<String>,
    reason: String,
)
    requires
        task.stage == (Stage::Correcting { asr_text, interim_history }),
    ensures
        task.reaction(Event::CorrectionFailed(reason)).1 == seq![
            Action::WarnCorrectionFailed(reason),
        ] + task.reaction(Event::Corrected(asr_text)).1,
        task.reaction(Event::CorrectionFailed(reason)).0 == task.reaction(
            Event::Corrected(asr_text),
        ).0,
{
}

/// The revisions have no bearing on a session but that doubtful phrases are looked for, in between,
/// where there are any: with them the session does the same, and that.
pub proof fn revisions_only_lead_to_a_search(
    task: SessionTask,
    asr_text: String,
    interim_history: Vec<String>,
    no_history: Vec<String>,
    text: String,
)
    requires
        task.llm_configured,
        interim_history@.len() > 0,
        no_history@.len() == 0,
    ensures
        ({
            let some = task.at(Stage::Correcting { asr_text, interim_history }).reaction(
                Event::Corrected(text),
            );
            let none = task.at(
                Stage::Correcting { asr_text, interim_history: no_history },
            ).reaction(Event::Corrected(text));
            &&& some.1 == none.1.insert(
                4,
                Action::ExtractUncertain(asr_text, text, interim_history),
            )
            &&& none.1[3] == Action::DeliverFinalText(text)
            &&& some.0.stage == none.0.stage
        }),
{
}

/// However a recording ends, the same is done about it. It has ended with a closed connection
/// exactly where the speech recognizer has closed it.
pub proof fn recordings_end_in_one_way(
    task: SessionTask,
    other: SessionTask,
    event: Event,
    last: Event,
)
    requires
        task.reaction(event).0.stage is Finalizing && !(task.stage is Finalizing),
        other.reaction(last).0.stage is Finalizing && !(other.stage is Finalizing),
    ensures
        task.reaction(event).1 == other.reaction(last).1,
        task.reaction(event).1.last() == Action::QueryFinalResult,
        task.reaction(event).0.stage == (Stage::Finalizing {
            asr_done: event matches Event::Asr(asr_event) && asr_event is Closed,
        }),
{
}

/// A recording goes on until the user ends it, a frame of audio cannot be sent, or the speech
/// recognizer closes the connection or can no longer be read from. Nothing else that the speech
/// recognizer says ends it, not even a final text or an error.
pub proof fn recordings_end_for_these_reasons(task: SessionTask, event: Event)
    ensures
        task.stage is Streaming ==> {
            let next = task.reaction(event).0.stage;
            &&& next is Finalizing <==> event is AsrReadFailed || event == Event::Asr(
                AsrEvent::Closed,
            )
            &&& next is Finishing <==> event is AudioEnded
            &&& next is Sending <==> event is AudioFrame
            &&& next is Finalizing || next is Finishing || next is Sending || next is Streaming
        },
        task.stage is Sending ==> {
            let next = task.reaction(event).0.stage;
            &&& next is Finalizing <==> event == Event::AudioSent(false)
            &&& next is Streaming <==> event == Event::AudioSent(true)
            &&& next is Finalizing || next is Streaming || next is Sending
        },
        task.stage is Finishing ==> {
            let next = task.reaction(event).0.stage;
            &&& next is Finalizing <==> event is InputFinished
            &&& next is Finalizing || next is Finishing
        },
{
}

/// Once a recording has ended, the final result is waited for, for the time that the session was
/// started with, exactly where the transcript holds none and the speech recognizer has not closed
/// the connection. Else the speech recognizer is closed at once.
pub proof fn final_results_are_awaited_while_they_can_come(
    task: SessionTask,
    asr_done: bool,
    found: bool,
)
    requires
        task.stage == (Stage::Finalizing { asr_done }),
    ensures
        !found && !asr_done ==> {
            &&& task.reaction(Event::FinalResult(found)).0.stage is AwaitingFinal
            &&& task.reaction(Event::FinalResult(found)).1 == seq![
                Action::AwaitFinal(task.final_wait_timeout_ms),
            ]
        },
        found || asr_done ==> {
            &&& task.reaction(Event::FinalResult(found)).0.stage is Closing
            &&& task.reaction(Event::FinalResult(found)).1 == seq![Action::CloseAsr(10)]
        },
{
}

/// The wait for the final result ends when it comes, when the speech recognizer closes the
/// connection or can no longer be read from, or when the time is over; then the speech recognizer
/// is closed. Nothing else that it says ends the wait.
pub proof fn final_waits_end_for_these_reasons(task: SessionTask, event: Event)
    requires
        task.stage is AwaitingFinal,
    ensures
        task.reaction(event).0.stage is Closing <==> {
            ||| event matches Event::Asr(AsrEvent::Final(_))
            ||| event == Event::Asr(AsrEvent::Closed)
            ||| event is AsrReadFailed
            ||| event is FinalWaitTimedOut
        },
        task.reaction(event).0.stage is Closing || task.reaction(event).0.stage is AwaitingFinal,
        task.reaction(event).0.stage is Closing ==> task.reaction(event).1.last()
            == Action::CloseAsr(10),
{
}

/// A session fails exactly where the speech recognizer cannot be reached, for the reason reported,
/// or where the text of the transcript is empty. A text of any length is speech.
pub proof fn sessions_fail_for_these_reasons(task: SessionTask, event: Event)
    requires
        !(task.stage is Done),
    ensures
        task.reaction(event).0.stage == (Stage::Done { outcome: Outcome::ConnectionFailed }) <==> (
        task.stage is Connecting && event is ConnectFailed),
        task.reaction(event).0.stage == (Stage::Done { outcome: Outcome::NoSpeech }) <==> (
        task.stage is Closing && (event matches Event::Transcript(text, _) && text@.len() == 0)),
        event matches Event::ConnectFailed(reason) ==> task.stage is Connecting ==> task.reaction(
            event,
        ).1 == seq![
            Action::Fail(Failure::AsrConnection(reason)),
            Action::Notify(Status::Failed),
            Action::Cleanup,
        ],
        task.reaction(event).0.stage == (Stage::Done { outcome: Outcome::NoSpeech })
            ==> task.reaction(event).1 == seq![
            Action::Fail(Failure::NoSpeech),
            Action::Notify(Status::Failed),
            Action::Cleanup,
        ],
{
}

/// A text that was recognized is corrected where a language model is configured, with the revisions
/// that came with it, and else the session is completed with it. A correction, whatever text it
/// gives, and a failed one complete the session.
pub proof fn recognized_texts_complete_the_session(
    task: SessionTask,
    text: String,
    interim_history: Vec<String>,
    event: Event,
)
    ensures
        task.stage is Closing && text@.len() > 0 ==> task.reaction(
            Event::Transcript(text, interim_history),
        ).0.stage == (if task.llm_configured {
            Stage::Correcting { asr_text: text, interim_history }
        } else {
            Stage::Done { outcome: Outcome::Completed }
        }),
        task.stage is Correcting && (event is Corrected || event is CorrectionFailed)
            ==> task.reaction(event).0.stage == (Stage::Done { outcome: Outcome::Completed }),
{
}

/// An event that a session does not wait for changes nothing; one that it waits for from one of its
/// actions always moves it on.
pub proof fn unexpected_events_change_nothing(task: SessionTask, event: Event)
    ensures
        !expected(task.stage, event) ==> task.reaction(event) == (task, Seq::<Action>::empty()),
        expected(task.stage, event) && !(task.stage is Streaming || task.stage is AwaitingFinal)
            ==> task.reaction(event).0.stage != task.stage,
        task.stage is Connecting && event is Connected ==> task.reaction(event).0.stage
            == Stage::Streaming,
{
}

/// What an action carries comes from the event that it answers or from what the session holds, and
/// is handed on unchanged: nothing is made up, cut or mixed up.
pub open spec fn carried_over(task: SessionTask, event: Event, action: Action) -> bool {
    match action {
        Action::SendAudio(frame) => event == Event::AudioFrame(frame),
        Action::UpdateInterim(text) => event == Event::Asr(AsrEvent::Interim(text)),
        Action::UpdateDefinite(text) => event == Event::Asr(AsrEvent::Definite(text)),
        Action::UpdateFinal(text) => event == Event::Asr(AsrEvent::Final(text)),
        Action::AwaitFinal(limit) => limit == task.final_wait_timeout_ms,
        Action::CloseAsr(revisions) => revisions == 10,
        Action::Fail(Failure::AsrConnection(reason)) => event == Event::ConnectFailed(reason),
        Action::StoreAsrText(text) | Action::RequestCorrection(text) => event
            matches Event::Transcript(best, _) && best == text,
        Action::WarnCorrectionFailed(reason) => event == Event::CorrectionFailed(reason),
        Action::StoreCorrectedText(text) | Action::DeliverFinalText(text) => match event {
            Event::Transcript(best, _) => text == best,
            Event::Corrected(corrected) => text == corrected,
            _ => task.stage matches Stage::Correcting { asr_text, .. } && text == asr_text,
        },
        Action::ExtractUncertain(asr_text, final_text, interim_history) => {
            &&& task.stage == (Stage::Correcting { asr_text, interim_history })
            &&& match event {
                Event::Corrected(corrected) => final_text == corrected,
                _ => final_text == asr_text,
            }
        },
        _ => true,
    }
}

/// What the actions of a step carry is handed on unchanged.
pub proof fn contents_are_handed_on_unchanged(task: SessionTask, event: Event, i: int)
    requires
        0 <= i < task.reaction(event).1.len(),
    ensures
        carried_over(task, event, task.reaction(event).1[i]),
{
}

/// Whether two actions are the same but for texts, audio and revisions that they carry.
pub open spec fn alike(action: Action, other: Action) -> bool {
    match (action, other) {
        (Action::SendAudio(_), Action::SendAudio(_)) => true,
        (Action::UpdateInterim(_), Action::UpdateInterim(_)) => true,
        (Action::UpdateDefinite(_), Action::UpdateDefinite(_)) => true,
        (Action::UpdateFinal(_), Action::UpdateFinal(_)) => true,
        (
            Action::Fail(Failure::AsrConnection(_)),
            Action::Fail(Failure::AsrConnection(_)),
        ) => true,
        (Action::StoreAsrText(_), Action::StoreAsrText(_)) => true,
        (Action::RequestCorrection(_), Action::RequestCorrection(_)) => true,
        (Action::WarnCorrectionFailed(_), Action::WarnCorrectionFailed(_)) => true,
        (Action::StoreCorrectedText(_), Action::StoreCorrectedText(_)) => true,
        (Action::DeliverFinalText(_), Action::DeliverFinalText(_)) => true,
        (Action::ExtractUncertain(_, _, _), Action::ExtractUncertain(_, _, _)) => true,
        _ => action == other,
    }
}

/// Whether two stages are the same but for the texts and the revisions that they hold, which are
/// there for both or for neither.
pub open spec fn alike_stages(stage: Stage, other: Stage) -> bool {
    match (stage, other) {
        (
            Stage::Correcting { interim_history: revisions, .. },
            Stage::Correcting { interim_history: others, .. },
        ) => revisions@.len() == 0 <==> others@.len() == 0,
        _ => stage == other,
    }
}

/// Whether two events are the same but for texts, audio and revisions that they carry. Where it
/// matters whether there is any, there is for both or for neither.
pub open spec fn alike_events(event: Event, other: Event) -> bool {
    match (event, other) {
        (Event::ConnectFailed(_), Event::ConnectFailed(_)) => true,
        (Event::AudioFrame(_), Event::AudioFrame(_)) => true,
        (Event::Asr(AsrEvent::Interim(text)), Event::Asr(AsrEvent::Interim(words))) => text@.len()
            == 0 <==> words@.len() == 0,
        (Event::Asr(AsrEvent::Definite(_)), Event::Asr(AsrEvent::Definite(_))) => true,
        (Event::Asr(AsrEvent::Final(_)), Event::Asr(AsrEvent::Final(_))) => true,
        (Event::Asr(AsrEvent::Error(_)), Event::Asr(AsrEvent::Error(_))) => true,
        (Event::Transcript(text, revisions), Event::Transcript(words, others)) => {
            &&& text@.len() == 0 <==> words@.len() == 0
            &&& revisions@.len() == 0 <==> others@.len() == 0
        },
        (Event::Corrected(_), Event::Corrected(_)) => true,
        (Event::CorrectionFailed(_), Event::CorrectionFailed(_)) => true,
        _ => event == other,
    }
}

/// What is said, recorded, corrected or given as a reason has no bearing on the course of a
/// session: two sessions that differ only in that go the same way, and the same is done about them
/// in the same order.
pub proof fn contents_do_not_steer_a_session(
    task: SessionTask,
    other: SessionTask,
    event: Event,
    another: Event,
)
    requires
        other == task.at(other.stage),
        alike_stages(task.stage, other.stage),
        alike_events(event, another),
    ensures
        alike_stages(task.reaction(event).0.stage, other.reaction(another).0.stage),
        task.reaction(event).1.len() == other.reaction(another).1.len(),
        forall|i: int|
            0 <= i < task.reaction(event).1.len() ==> alike(
                #[trigger] task.reaction(event).1[i],
                other.reaction(another).1[i],
            ),
{
}

/// Whatever the speech recognizer says of the text is entered in the transcript, once and as it was
/// said, while audio is streamed and while the final result is waited for alike. Only an empty
/// first guess is passed over.
pub proof fn all_that_is_heard_is_entered(task: SessionTask, event: AsrEvent)
    requires
        task.stage is Streaming || task.stage is AwaitingFinal,
    ensures
        ({
            let actions = task.reaction(Event::Asr(event)).1;
            match event {
                AsrEvent::Interim(text) => if text@.len() > 0 {
                    actions == seq![Action::UpdateInterim(text)]
                } else {
                    actions.len() == 0
                },
                AsrEvent::Definite(text) => actions == seq![Action::UpdateDefinite(text)],
                AsrEvent::Final(text) => actions.len() > 0 && actions[0] == Action::UpdateFinal(
                    text,
                ),
                AsrEvent::Closed => actions.len() > 0,
                AsrEvent::Connected | AsrEvent::Error(_) => actions.len() == 0,
            }
        }),
        task.stage is Streaming && event is Final ==> task.reaction(Event::Asr(event)).1.len() == 1,
{
}

/// The text that is handed over to be pasted was stored in the session before, and nothing else was
/// stored as that.
pub proof fn pasted_texts_are_stored(task: SessionTask, event: Event, i: int)
    requires
        0 <= i < task.reaction(event).1.len(),
    ensures
        task.reaction(event).1[i] matches Action::DeliverFinalText(text) ==> i >= 3
            && task.reaction(event).1[i - 3] == Action::StoreCorrectedText(text),
        task.reaction(event).1[i] matches Action::StoreCorrectedText(text) ==> {
            &&& i + 3 < task.reaction(event).1.len()
            &&& task.reaction(event).1[i + 1] == Action::Transition(SessionState::PreparingPaste)
            &&& task.reaction(event).1[i + 2] == Action::Notify(Status::PreparingPaste)
            &&& task.reaction(event).1[i + 3] == Action::DeliverFinalText(text)
        },
{
}

/// What is waited for is what can come: nothing exactly where a session expects no event, audio
/// exactly where it expects it, and an end of the time exactly where it expects that.
pub proof fn waits_are_for_what_is_expected(stage: Stage, frame: Vec<u8>)
    ensures
        wait_at(stage) == Wait::Nothing <==> stage is Done,
        wait_at(stage) == Wait::Input <==> expected(stage, Event::AudioFrame(frame)),
        wait_at(stage) == Wait::FinalResult <==> expected(stage, Event::FinalWaitTimedOut),
        stage is Done ==> forall|event: Event| !#[trigger] expected(stage, event),
{
}

/// A failed connection is told by its reason, whatever that says, and each status that has a text
/// of its own has one that no other has.
pub proof fn messages_tell_what_happened(reason: String, status: Status, other: Status)
    ensures
        failure_message(Failure::AsrConnection(reason)) == reason@,
        failure_message(Failure::NoSpeech) == "no speech recognized"@,
        status_label(status) is None <==> status is Recording,
        status_label(status) is Some && status_label(status) == status_label(other) ==> status
            == other,
{
    reveal_strlit("connecting_asr");
    reveal_strlit("finalizing_asr");
    reveal_strlit("correcting");
    reveal_strlit("preparing_paste");
    reveal_strlit("completed");
    reveal_strlit("failed");
    reveal_strlit("idle");
    if status_label(status) is Some && status_label(other) is Some {
        let label = status_label(status)->0;
        let another = status_label(other)->0;
        if label == another {
            assert(label.len() == another.len());
            assert(label[0] == another[0]);
        }
    }
}

/// A session begins with its own settings, and waits for the connection. A language model is
/// configured for it where there are an address and a key, and the final result is waited for as
/// long as the speech recognizer's settings say.
pub proof fn sessions_begin_with_their_settings(
    mode: SessionMode,
    asr_config: AsrConfig,
    llm_config: LlmSection,
    begun: (SessionTask, Vec<Action>),
)
    requires
        call_ensures(SessionTask::start, (mode, &asr_config, &llm_config), begun),
    ensures
        begun.0.mode == mode,
        begun.0.final_wait_timeout_ms == asr_config.final_wait_timeout_ms,
        begun.0.llm_configured <==> llm_config.base_url@.len() > 0 && llm_config.api_key@.len() > 0,
        begun.0.stage is Connecting,
        begun.1@ == seq![Action::Notify(Status::ConnectingAsr), Action::ConnectAsr],
{
}

/// A step of a session is what the laws of its reactions speak of. In particular, in every mode, a
/// session whose recording has ended waits for the final result, for the time that it was started
/// with, where none is there and the connection is open; and whatever the speech recognizer then
/// says of the text is entered in the transcript.
pub proof fn steps_wait_for_the_final_result(
    task: SessionTask,
    event: Event,
    taken: (SessionTask, Vec<Action>),
    text: String,
    heard: (SessionTask, Vec<Action>),
)
    requires
        call_ensures(SessionTask::step, (task, event), taken),
        call_ensures(
            SessionTask::step,
            (taken.0, Event::Asr(AsrEvent::Final(text))),
            heard,
        ),
    ensures
        (taken.0, taken.1@) == task.reaction(event),
        taken.0.mode == task.mode,
        taken.0.final_wait_timeout_ms == task.final_wait_timeout_ms,
        taken.0.llm_configured == task.llm_configured,
        task.stage == (Stage::Finalizing { asr_done: false }) && event == Event::FinalResult(false)
            ==> {
            &&& taken.0.stage is AwaitingFinal
            &&& taken.1@ == seq![Action::AwaitFinal(task.final_wait_timeout_ms)]
            &&& heard.0.stage is Closing
            &&& heard.1@ == seq![Action::UpdateFinal(text), Action::CloseAsr(10)]
        },
{
    assert(transcript_update(AsrEvent::Final(text)).push(Action::CloseAsr(10)) == seq![
        Action::UpdateFinal(text),
        Action::CloseAsr(10),
    ]);
}

/// One report of the speech recognizer while the final result is waited for is handled as the
/// session handles it: what it says is entered behind what was to be done already, and the wait
/// ends exactly with a final text or a closed connection.
pub proof fn waits_handle_reports_as_sessions_do(
    actions: &mut Vec<Action>,
    event: AsrEvent,
    ended: bool,
    task: SessionTask,
)
    requires
        call_ensures(wait_for_final, (actions, event), ended),
        task.stage is AwaitingFinal,
    ensures
        ended <==> event is Final || event is Closed,
        ended <==> task.reaction(Event::Asr(event)).0.stage is Closing,
        task.reaction(Event::Asr(event)).1 == (if ended {
            (final(actions)@.skip(old(actions)@.len() as int)).push(Action::CloseAsr(10))
        } else {
            final(actions)@.skip(old(actions)@.len() as int)
        }),
        final(actions)@.take(old(actions)@.len() as int) == old(actions)@,
{
    assert(final(actions)@.skip(old(actions)@.len() as int) == transcript_update(event));
}

/// A caller is told to wait as the stage of the session asks, whatever that stage holds, and is
/// given the revisions of the text exactly while it is corrected.
pub proof fn callers_are_told_what_a_stage_needs(
    task: SessionTask,
    wait: Wait,
    revisions: Option<&Vec<String>>,
)
    requires
        call_ensures(SessionTask::wait, (&task,), wait),
        call_ensures(SessionTask::interim_history, (&task,), revisions),
    ensures
        wait == Wait::Nothing <==> task.stage is Done,
        wait == Wait::Input <==> task.stage is Streaming,
        wait == Wait::FinalResult <==> task.stage is AwaitingFinal,
        revisions is Some <==> task.stage is Correcting,
        task.stage matches Stage::Correcting { interim_history, .. } ==> revisions == Some(
            &interim_history,
        ),
{
}

/// The actions that change the current session are those that take it to a state, store a text in
/// it or drop it, whatever state or text that is.
pub proof fn some_actions_change_the_session(action: Action, changing: bool)
    requires
        call_ensures(Action::changes_session, (&action,), changing),
    ensures
        changing <==> match action {
            Action::Transition(_) => true,
            Action::StoreAsrText(_) => true,
            Action::StoreCorrectedText(_) => true,
            Action::Cleanup => true,
            _ => false,
        },
        changing ==> !asks_for_report(action),
{
}

/// The user is told the reason for a failure word for word.
pub proof fn reasons_are_told_word_for_word(
    reason: String,
    failure: String,
    text: &str,
    warning: String,
)
    requires
        call_ensures(Failure::message, (&Failure::AsrConnection(reason),), failure),
        call_ensures(correction_warning, (text,), warning),
    ensures
        failure@ == reason@,
        warning@ == "LLM correction failed: "@ + text@,
{
}

} // verus!
