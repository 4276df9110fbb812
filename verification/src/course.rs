//! What holds of every session, whatever happens in it.

#[allow(unused_imports)]
use crate::lists::{
    at_most_one, filter_map_add, filter_map_by_element, filter_map_of_none, filter_map_push,
    found_up_to,
};
#[allow(unused_imports)]
use crate::session::{recording_state_of, SessionState};
#[allow(unused_imports)]
use crate::task::{
    awaits_report, completion, failing, finalization, opening, transcript_update, wait_at, Action,
    AsrEvent, Event, Failure, Outcome, SessionTask, Stage, Status, Wait, INTERIM_REVISIONS,
};
use vstd::prelude::*;

verus! {

/// A session after a number of events, and all that its caller was asked to do about them.
pub open spec fn run(task: SessionTask, events: Seq<Event>) -> (SessionTask, Seq<Action>)
    decreases events.len(),
{
    if events.len() == 0 {
        (task, seq![])
    } else {
        let before = run(task, events.drop_last());
        let step = before.0.reaction(events.last());
        (step.0, before.1 + step.1)
    }
}

/// All that the caller of a session is asked to do, from its start.
pub open spec fn history(task: SessionTask, events: Seq<Event>) -> Seq<Action> {
    opening() + run(task, events).1
}

/// The status that an action tells the user interface.
pub open spec fn status_told() -> spec_fn(Action) -> Option<Status> {
    |action: Action|
        match action {
            Action::Notify(status) => Some(status),
            _ => None,
        }
}

/// The statuses that the user interface is told.
pub open spec fn notified(actions: Seq<Action>) -> Seq<Status> {
    actions.filter_map(status_told())
}

/// The state that an action takes the current session to.
pub open spec fn state_entered() -> spec_fn(Action) -> Option<SessionState> {
    |action: Action|
        match action {
            Action::Transition(state) => Some(state),
            _ => None,
        }
}

/// The states that the current session is taken to.
pub open spec fn entered(actions: Seq<Action>) -> Seq<SessionState> {
    actions.filter_map(state_entered())
}

/// The text that an action hands over to be pasted.
pub open spec fn text_delivered() -> spec_fn(Action) -> Option<String> {
    |action: Action|
        match action {
            Action::DeliverFinalText(text) => Some(text),
            _ => None,
        }
}

/// The texts that are handed over to be pasted.
pub open spec fn delivered(actions: Seq<Action>) -> Seq<String> {
    actions.filter_map(text_delivered())
}

/// The recognized text that an action stores.
pub open spec fn text_recognized() -> spec_fn(Action) -> Option<String> {
    |action: Action|
        match action {
            Action::StoreAsrText(text) => Some(text),
            _ => None,
        }
}

/// The recognized texts that are stored.
pub open spec fn recognized(actions: Seq<Action>) -> Seq<String> {
    actions.filter_map(text_recognized())
}

/// The text that an action has the language model correct.
pub open spec fn text_submitted() -> spec_fn(Action) -> Option<String> {
    |action: Action|
        match action {
            Action::RequestCorrection(text) => Some(text),
            _ => None,
        }
}

/// The texts that the language model is asked to correct.
pub open spec fn submitted(actions: Seq<Action>) -> Seq<String> {
    actions.filter_map(text_submitted())
}

/// The reason for a failed correction that an action warns the user of.
pub open spec fn warning_told() -> spec_fn(Action) -> Option<String> {
    |action: Action|
        match action {
            Action::WarnCorrectionFailed(reason) => Some(reason),
            _ => None,
        }
}

/// The reasons for failed corrections that the user is warned of.
pub open spec fn warned(actions: Seq<Action>) -> Seq<String> {
    actions.filter_map(warning_told())
}

/// The failure that an action tells the user.
pub open spec fn failure_told() -> spec_fn(Action) -> Option<Failure> {
    |action: Action|
        match action {
            Action::Fail(failure) => Some(failure),
            _ => None,
        }
}

/// The failures that the user is told.
pub open spec fn failed(actions: Seq<Action>) -> Seq<Failure> {
    actions.filter_map(failure_told())
}

/// Whether an action drops the current session.
pub open spec fn session_dropped() -> spec_fn(Action) -> Option<()> {
    |action: Action|
        match action {
            Action::Cleanup => Some(()),
            _ => None,
        }
}

/// The times that the current session is dropped.
pub open spec fn dropped(actions: Seq<Action>) -> Seq<()> {
    actions.filter_map(session_dropped())
}

/// The frame of audio that an action sends to the speech recognizer.
pub open spec fn frame_sent() -> spec_fn(Action) -> Option<Vec<u8>> {
    |action: Action|
        match action {
            Action::SendAudio(frame) => Some(frame),
            _ => None,
        }
}

/// The frames of audio that are sent to the speech recognizer.
pub open spec fn sent(actions: Seq<Action>) -> Seq<Vec<u8>> {
    actions.filter_map(frame_sent())
}

/// The frames of audio that have come in.
pub open spec fn offered(events: Seq<Event>) -> Seq<Vec<u8>> {
    events.filter_map(
        |event: Event|
            match event {
                Event::AudioFrame(frame) => Some(frame),
                _ => None,
            },
    )
}

/// The statuses that a session has been through.
pub open spec fn statuses(task: SessionTask) -> Seq<Status> {
    let recording = Status::Recording(recording_state_of(task.mode));
    match task.stage {
        Stage::Connecting => seq![Status::ConnectingAsr],
        Stage::Streaming | Stage::Sending | Stage::Finishing => seq![
            Status::ConnectingAsr,
            recording,
        ],
        Stage::Finalizing { .. } | Stage::AwaitingFinal | Stage::Closing => seq![
            Status::ConnectingAsr,
            recording,
            Status::FinalizingAsr,
        ],
        Stage::Correcting { .. } => seq![
            Status::ConnectingAsr,
            recording,
            Status::FinalizingAsr,
            Status::Correcting,
        ],
        Stage::Done { outcome: Outcome::ConnectionFailed } => seq![
            Status::ConnectingAsr,
            Status::Failed,
        ],
        Stage::Done { outcome: Outcome::NoSpeech } => seq![
            Status::ConnectingAsr,
            recording,
            Status::FinalizingAsr,
            Status::Failed,
        ],
        Stage::Done { outcome: Outcome::Completed } => seq![
            Status::ConnectingAsr,
            recording,
            Status::FinalizingAsr,
            Status::Correcting,
            Status::PreparingPaste,
            Status::Completed,
            Status::Idle,
        ],
    }
}

/// The states that a session has been taken to.
pub open spec fn states(task: SessionTask) -> Seq<SessionState> {
    let recording = recording_state_of(task.mode);
    match task.stage {
        Stage::Connecting | Stage::Done { outcome: Outcome::ConnectionFailed } => seq![],
        Stage::Streaming | Stage::Sending | Stage::Finishing => seq![recording],
        Stage::Finalizing { .. } | Stage::AwaitingFinal | Stage::Closing | Stage::Done {
            outcome: Outcome::NoSpeech,
        } => seq![recording, SessionState::FinalizingAsr],
        Stage::Correcting { .. } => seq![
            recording,
            SessionState::FinalizingAsr,
            SessionState::Correcting,
        ],
        Stage::Done { outcome: Outcome::Completed } => seq![
            recording,
            SessionState::FinalizingAsr,
            SessionState::Correcting,
            SessionState::PreparingPaste,
            SessionState::Pasting,
            SessionState::Completed,
        ],
    }
}

/// No event changes what a session was started with.
pub proof fn settings_are_kept(task: SessionTask, events: Seq<Event>)
    ensures
        run(task, events).0 == task.at(run(task, events).0.stage),
    decreases events.len(),
{
    if events.len() > 0 {
        settings_are_kept(task, events.drop_last());
    }
}

proof fn history_grows(task: SessionTask, events: Seq<Event>)
    requires
        events.len() > 0,
    ensures
        history(task, events) == history(task, events.drop_last()) + run(
            task,
            events.drop_last(),
        ).0.reaction(events.last()).1,
{
}

/// Whether `f` finds nothing in what keeps a session going without bringing it further.
spec fn skips_upkeep<B>(f: spec_fn(Action) -> Option<B>) -> bool {
    &&& f(Action::ConnectAsr) is None
    &&& f(Action::SessionReady) is None
    &&& forall|frame: Vec<u8>| f(Action::SendAudio(frame)) is None
    &&& f(Action::FinishInput) is None
    &&& forall|text: String| f(Action::UpdateInterim(text)) is None
    &&& forall|text: String| f(Action::UpdateDefinite(text)) is None
    &&& forall|text: String| f(Action::UpdateFinal(text)) is None
    &&& f(Action::QueryFinalResult) is None
    &&& forall|limit: u64| f(Action::AwaitFinal(limit)) is None
    &&& forall|revisions: usize| f(Action::CloseAsr(revisions)) is None
    &&& forall|text: String| f(Action::StoreCorrectedText(text)) is None
    &&& forall|asr: String, fin: String, revisions: Vec<String>|
        f(Action::ExtractUncertain(asr, fin, revisions)) is None
}

spec fn found_in_failing<B>(failure: Failure, f: spec_fn(Action) -> Option<B>) -> Seq<B> {
    at_most_one(f(Action::Fail(failure))) + at_most_one(f(Action::Notify(Status::Failed)))
        + at_most_one(f(Action::Cleanup))
}

spec fn found_in_recognition<B>(text: String, f: spec_fn(Action) -> Option<B>) -> Seq<B> {
    at_most_one(f(Action::StoreAsrText(text))) + at_most_one(
        f(Action::Transition(SessionState::Correcting)),
    ) + at_most_one(f(Action::Notify(Status::Correcting)))
}

spec fn found_in_completion<B>(text: String, f: spec_fn(Action) -> Option<B>) -> Seq<B> {
    at_most_one(f(Action::Transition(SessionState::PreparingPaste))) + at_most_one(
        f(Action::Notify(Status::PreparingPaste)),
    ) + at_most_one(f(Action::DeliverFinalText(text))) + (at_most_one(
        f(Action::Transition(SessionState::Pasting)),
    ) + at_most_one(f(Action::Transition(SessionState::Completed))) + at_most_one(
        f(Action::Notify(Status::Completed)),
    ) + at_most_one(f(Action::Cleanup)) + at_most_one(f(Action::Notify(Status::Idle))))
}

/// What `f` finds in the actions of one step, if it skips the upkeep.
spec fn found<B>(task: SessionTask, event: Event, f: spec_fn(Action) -> Option<B>) -> Seq<B> {
    match (task.stage, event) {
        (Stage::Connecting, Event::Connected) => at_most_one(
            f(Action::Transition(recording_state_of(task.mode))),
        ) + at_most_one(f(Action::Notify(Status::Recording(recording_state_of(task.mode))))),
        (Stage::Connecting, Event::ConnectFailed(reason)) => found_in_failing(
            Failure::AsrConnection(reason),
            f,
        ),
        (Stage::Closing, Event::Transcript(text, _)) => if text@.len() == 0 {
            found_in_failing(Failure::NoSpeech, f)
        } else if task.llm_configured {
            found_in_recognition(text, f) + at_most_one(f(Action::RequestCorrection(text)))
        } else {
            found_in_recognition(text, f) + found_in_completion(text, f)
        },
        (Stage::Correcting { .. }, Event::Corrected(text)) => found_in_completion(text, f),
        (Stage::Correcting { asr_text, .. }, Event::CorrectionFailed(reason)) => at_most_one(
            f(Action::WarnCorrectionFailed(reason)),
        ) + found_in_completion(asr_text, f),
        _ => if task.reaction(event).0.stage is Finalizing && !(task.stage is Finalizing) {
            at_most_one(f(Action::Transition(SessionState::FinalizingAsr))) + at_most_one(
                f(Action::Notify(Status::FinalizingAsr)),
            )
        } else {
            seq![]
        },
    }
}

proof fn failing_is_found<B>(failure: Failure, f: spec_fn(Action) -> Option<B>)
    ensures
        failing(failure).filter_map(f) == found_in_failing(failure, f),
{
    filter_map_by_element(failing(failure), 3, f);
    reveal_with_fuel(found_up_to, 3);
}

proof fn update_is_skipped<B>(event: AsrEvent, f: spec_fn(Action) -> Option<B>)
    requires
        skips_upkeep(f),
    ensures
        transcript_update(event).filter_map(f) == Seq::<B>::empty(),
        transcript_update(event).push(Action::CloseAsr(INTERIM_REVISIONS)).filter_map(f)
            == Seq::<B>::empty(),
{
    filter_map_push(transcript_update(event), Action::CloseAsr(INTERIM_REVISIONS), f);
    match event {
        AsrEvent::Interim(text) => filter_map_push(Seq::empty(), Action::UpdateInterim(text), f),
        AsrEvent::Definite(text) => filter_map_push(Seq::empty(), Action::UpdateDefinite(text), f),
        AsrEvent::Final(text) => filter_map_push(Seq::empty(), Action::UpdateFinal(text), f),
        _ => {},
    }
}

proof fn completion_is_found<B>(
    llm_configured: bool,
    asr_text: String,
    text: String,
    interim_history: Vec<String>,
    f: spec_fn(Action) -> Option<B>,
)
    requires
        skips_upkeep(f),
    ensures
        completion(llm_configured, asr_text, text, interim_history).filter_map(f)
            == found_in_completion(text, f),
{
    let first = seq![
        Action::StoreCorrectedText(text),
        Action::Transition(SessionState::PreparingPaste),
        Action::Notify(Status::PreparingPaste),
        Action::DeliverFinalText(text),
    ];
    let middle = if llm_configured && interim_history@.len() > 0 {
        seq![Action::ExtractUncertain(asr_text, text, interim_history)]
    } else {
        seq![]
    };
    let last = seq![
        Action::Transition(SessionState::Pasting),
        Action::Transition(SessionState::Completed),
        Action::Notify(Status::Completed),
        Action::Cleanup,
        Action::Notify(Status::Idle),
    ];
    filter_map_push(Seq::empty(), Action::ExtractUncertain(asr_text, text, interim_history), f);
    filter_map_by_element(first, 4, f);
    filter_map_by_element(last, 5, f);
    reveal_with_fuel(found_up_to, 5);
    filter_map_add(first, middle, f);
    filter_map_add(first + middle, last, f);
    assert(middle.filter_map(f) == Seq::<B>::empty());
    assert(first.filter_map(f) + Seq::<B>::empty() == first.filter_map(f));
    let second = at_most_one(f(Action::Transition(SessionState::PreparingPaste)));
    assert(Seq::<B>::empty() + second == second);
}

proof fn step_is_found<B>(task: SessionTask, event: Event, f: spec_fn(Action) -> Option<B>)
    requires
        skips_upkeep(f),
    ensures
        task.reaction(event).1.filter_map(f) == found(task, event, f),
{
    let actions = task.reaction(event).1;
    match (task.stage, event) {
        (Stage::Connecting, Event::Connected) => {
            filter_map_by_element(actions, 3, f);
            reveal_with_fuel(found_up_to, 3);
            let both = found(task, event, f);
            assert(both + Seq::<B>::empty() == both);
        },
        (Stage::Connecting, Event::ConnectFailed(reason)) => {
            failing_is_found(Failure::AsrConnection(reason), f);
        },
        (Stage::Streaming, Event::Asr(asr_event)) => {
            update_is_skipped(asr_event, f);
        },
        (Stage::AwaitingFinal, Event::Asr(asr_event)) => {
            update_is_skipped(asr_event, f);
        },
        (Stage::Closing, Event::Transcript(text, interim_history)) => {
            let first = seq![
                Action::StoreAsrText(text),
                Action::Transition(SessionState::Correcting),
                Action::Notify(Status::Correcting),
            ];
            failing_is_found(Failure::NoSpeech, f);
            filter_map_by_element(first, 3, f);
            reveal_with_fuel(found_up_to, 3);
            filter_map_push(first, Action::RequestCorrection(text), f);
            completion_is_found(false, text, text, interim_history, f);
            filter_map_add(first, completion(false, text, text, interim_history), f);
        },
        (Stage::Correcting { asr_text, interim_history }, Event::Corrected(text)) => {
            completion_is_found(task.llm_configured, asr_text, text, interim_history, f);
        },
        (Stage::Correcting { asr_text, interim_history }, Event::CorrectionFailed(reason)) => {
            let rest = completion(task.llm_configured, asr_text, asr_text, interim_history);
            completion_is_found(task.llm_configured, asr_text, asr_text, interim_history, f);
            filter_map_push(Seq::empty(), Action::WarnCorrectionFailed(reason), f);
            filter_map_add(seq![Action::WarnCorrectionFailed(reason)], rest, f);
        },
        _ => {},
    }
    if task.reaction(event).0.stage is Finalizing && !(task.stage is Finalizing) {
        filter_map_by_element(finalization(), 3, f);
        reveal_with_fuel(found_up_to, 3);
        let both = found(task, event, f);
        assert(both + Seq::<B>::empty() == both);
    } else if actions.len() == 1 {
        assert(actions == Seq::empty().push(actions[0]));
        filter_map_push(Seq::empty(), actions[0], f);
    }
}

proof fn history_is_found<B>(
    task: SessionTask,
    events: Seq<Event>,
    f: spec_fn(Action) -> Option<B>,
)
    requires
        skips_upkeep(f),
    ensures
        events.len() == 0 ==> history(task, events).filter_map(f) == at_most_one(
            f(Action::Notify(Status::ConnectingAsr)),
        ),
        events.len() > 0 ==> history(task, events).filter_map(f) == history(
            task,
            events.drop_last(),
        ).filter_map(f) + found(run(task, events.drop_last()).0, events.last(), f),
{
    if events.len() == 0 {
        assert(history(task, events) == opening());
        filter_map_by_element(opening(), 2, f);
        reveal_with_fuel(found_up_to, 2);
        let first = at_most_one(f(Action::Notify(Status::ConnectingAsr)));
        assert(first + Seq::<B>::empty() == first);
    } else {
        let before = run(task, events.drop_last()).0;
        history_grows(task, events);
        step_is_found(before, events.last(), f);
        filter_map_add(
            history(task, events.drop_last()),
            before.reaction(events.last()).1,
            f,
        );
    }
}

proof fn step_tells(task: SessionTask, event: Event)
    ensures
        statuses(task) + found(task, event, status_told()) == statuses(task.reaction(event).0),
{
    assert forall|text: String| #[trigger]
        found_in_completion(text, status_told()) == seq![
            Status::PreparingPaste,
            Status::Completed,
            Status::Idle,
        ] by {}
    assert forall|text: String| #[trigger]
        found_in_recognition(text, status_told()) == seq![Status::Correcting] by {}
    assert forall|failure: Failure| #[trigger]
        found_in_failing(failure, status_told()) == seq![Status::Failed] by {}
}

/// The user interface is told each status of a session once and in order: at every stage it has
/// been told exactly those that lead there.
pub proof fn statuses_are_announced_in_order(task: SessionTask, events: Seq<Event>)
    requires
        task.stage is Connecting,
    ensures
        notified(history(task, events)) == statuses(run(task, events).0),
    decreases events.len(),
{
    history_is_found(task, events, status_told());
    if events.len() > 0 {
        statuses_are_announced_in_order(task, events.drop_last());
        step_tells(run(task, events.drop_last()).0, events.last());
    }
}

proof fn step_enters(task: SessionTask, event: Event)
    ensures
        states(task) + found(task, event, state_entered()) == states(task.reaction(event).0),
{
    assert forall|text: String| #[trigger]
        found_in_completion(text, state_entered()) == seq![
            SessionState::PreparingPaste,
            SessionState::Pasting,
            SessionState::Completed,
        ] by {}
    assert forall|text: String| #[trigger]
        found_in_recognition(text, state_entered()) == seq![SessionState::Correcting] by {}
    assert forall|failure: Failure| #[trigger]
        found_in_failing(failure, state_entered()) == Seq::<SessionState>::empty() by {}
}

/// A session is taken through its states once and in order: at every stage it has been taken to
/// exactly those that lead there.
pub proof fn states_are_entered_in_order(task: SessionTask, events: Seq<Event>)
    requires
        task.stage is Connecting,
    ensures
        entered(history(task, events)) == states(run(task, events).0),
    decreases events.len(),
{
    history_is_found(task, events, state_entered());
    if events.len() > 0 {
        states_are_entered_in_order(task, events.drop_last());
        step_enters(run(task, events.drop_last()).0, events.last());
    }
}

/// The current session is dropped exactly once, when the session ends.
pub proof fn sessions_are_dropped_once(task: SessionTask, events: Seq<Event>)
    requires
        task.stage is Connecting,
    ensures
        dropped(history(task, events)).len() == (if run(task, events).0.stage is Done {
            1nat
        } else {
            0
        }),
    decreases events.len(),
{
    history_is_found(task, events, session_dropped());
    if events.len() > 0 {
        sessions_are_dropped_once(task, events.drop_last());
    }
}

proof fn earlier_events_stay(events: Seq<Event>)
    requires
        events.len() > 0,
    ensures
        forall|event: Event| #[trigger]
            events.drop_last().contains(event) ==> events.contains(event),
        events.contains(events.last()),
{
    let earlier = events.drop_last();
    assert(events.last() == events[events.len() - 1]);
    assert forall|event: Event| earlier.contains(event) implies events.contains(event) by {
        let i = choose|i: int| 0 <= i < earlier.len() && earlier[i] == event;
        assert(events[i] == event);
    }
}

/// The user is told of a failure exactly once where a session fails, and never otherwise.
pub proof fn failures_are_told_once(task: SessionTask, events: Seq<Event>)
    requires
        task.stage is Connecting,
    ensures
        match run(task, events).0.stage {
            Stage::Done { outcome: Outcome::ConnectionFailed } => {
                &&& failed(history(task, events)).len() == 1
                &&& failed(history(task, events))[0] matches Failure::AsrConnection(reason)
                    && events.contains(Event::ConnectFailed(reason))
            },
            Stage::Done { outcome: Outcome::NoSpeech } => failed(history(task, events)) == seq![
                Failure::NoSpeech,
            ],
            _ => failed(history(task, events)).len() == 0,
        },
    decreases events.len(),
{
    history_is_found(task, events, failure_told());
    if events.len() > 0 {
        let earlier = events.drop_last();
        failures_are_told_once(task, earlier);
        earlier_events_stay(events);
    }
}

/// Whether the transcript was reported with the given best text.
pub open spec fn transcribed(events: Seq<Event>, text: String) -> bool {
    exists|interim_history: Vec<String>| #[trigger]
        events.contains(Event::Transcript(text, interim_history))
}

proof fn transcribed_earlier(events: Seq<Event>, text: String)
    requires
        events.len() > 0,
    ensures
        transcribed(events.drop_last(), text) ==> transcribed(events, text),
        events.last() matches Event::Transcript(last, _) && last == text ==> transcribed(
            events,
            text,
        ),
{
    earlier_events_stay(events);
    if transcribed(events.drop_last(), text) {
        let interim_history = choose|interim_history: Vec<String>| #[trigger]
            events.drop_last().contains(Event::Transcript(text, interim_history));
        assert(events.contains(Event::Transcript(text, interim_history)));
    }
    if let Event::Transcript(last, interim_history) = events.last() {
        assert(events.contains(Event::Transcript(last, interim_history)));
    }
}

/// Whether one reason was given to the user, and it was reported as that of a failed correction.
pub open spec fn correction_failed(events: Seq<Event>, reasons: Seq<String>) -> bool {
    reasons.len() == 1 && events.contains(Event::CorrectionFailed(reasons[0]))
}

/// A completed session hands over exactly one text to be pasted, and no other session hands over
/// any. Where a language model is configured, it is asked once, about the recognized text, which is
/// not empty. The text handed over is then the one that it reported; or it failed, the user was
/// warned once, and the text is the recognized one. Where none is configured, it is not asked,
/// nobody is warned, and the text is the recognized one.
pub proof fn completed_sessions_deliver_one_text(task: SessionTask, events: Seq<Event>)
    requires
        task.stage is Connecting,
    ensures
        match run(task, events).0.stage {
            Stage::Correcting { asr_text, .. } => {
                &&& recognized(history(task, events)) == seq![asr_text]
                &&& submitted(history(task, events)) == seq![asr_text]
                &&& delivered(history(task, events)).len() == 0
                &&& warned(history(task, events)).len() == 0
                &&& asr_text@.len() > 0
                &&& transcribed(events, asr_text)
                &&& task.llm_configured
            },
            Stage::Done { outcome: Outcome::Completed } => {
                let asr_text = recognized(history(task, events))[0];
                let final_text = delivered(history(task, events))[0];
                &&& recognized(history(task, events)) == seq![asr_text]
                &&& submitted(history(task, events)) == (if task.llm_configured {
                    seq![asr_text]
                } else {
                    seq![]
                })
                &&& delivered(history(task, events)) == seq![final_text]
                &&& asr_text@.len() > 0
                &&& transcribed(events, asr_text)
                &&& if task.llm_configured {
                    ||| warned(history(task, events)).len() == 0 && events.contains(
                        Event::Corrected(final_text),
                    )
                    ||| final_text == asr_text && correction_failed(
                        events,
                        warned(history(task, events)),
                    )
                } else {
                    final_text == asr_text && warned(history(task, events)).len() == 0
                }
            },
            _ => {
                &&& warned(history(task, events)).len() == 0
                &&& recognized(history(task, events)).len() == 0
                &&& submitted(history(task, events)).len() == 0
                &&& delivered(history(task, events)).len() == 0
            },
        },
    decreases events.len(),
{
    history_is_found(task, events, text_recognized());
    history_is_found(task, events, text_submitted());
    history_is_found(task, events, text_delivered());
    history_is_found(task, events, warning_told());
    if events.len() > 0 {
        let earlier = events.drop_last();
        completed_sessions_deliver_one_text(task, earlier);
        settings_are_kept(task, earlier);
        earlier_events_stay(events);
        assert forall|text: String| transcribed(earlier, text) implies transcribed(
            events,
            text,
        ) by {
            transcribed_earlier(events, text);
        }
        if let Event::Transcript(text, _) = events.last() {
            transcribed_earlier(events, text);
        }
    }
}

/// Doubtful phrases are looked for only where a language model is configured and the text was
/// revised, and only after the text was handed over.
pub proof fn texts_are_delivered_before_phrases_are_extracted(
    task: SessionTask,
    events: Seq<Event>,
    i: int,
)
    requires
        task.stage is Connecting,
        0 <= i < history(task, events).len(),
        history(task, events)[i] is ExtractUncertain,
    ensures
        history(task, events)[i] matches Action::ExtractUncertain(
            asr_text,
            final_text,
            interim_history,
        ) && task.llm_configured && interim_history@.len() > 0 && exists|j: int|
            0 <= j < i && #[trigger] history(task, events)[j] == Action::DeliverFinalText(
                final_text,
            ),
    decreases events.len(),
{
    if events.len() > 0 {
        let earlier = history(task, events.drop_last());
        let before = run(task, events.drop_last()).0;
        let step = before.reaction(events.last()).1;
        history_grows(task, events);
        settings_are_kept(task, events.drop_last());
        if i < earlier.len() {
            texts_are_delivered_before_phrases_are_extracted(task, events.drop_last(), i);
            let final_text = history(task, events)[i]->ExtractUncertain_1;
            let j = choose|j: int|
                0 <= j < i && #[trigger] earlier[j] == Action::DeliverFinalText(final_text);
            assert(history(task, events)[j] == Action::DeliverFinalText(final_text));
        } else {
            assert(history(task, events)[i] == step[i - earlier.len()]);
            assert(history(task, events)[i - 1] == step[i - 1 - earlier.len()]);
        }
    }
}

/// A session that has ended stays so, and asks for nothing more.
pub proof fn ended_sessions_stay_ended(task: SessionTask, events: Seq<Event>, more: Seq<Event>)
    requires
        run(task, events).0.stage is Done,
    ensures
        run(task, events + more) == run(task, events),
    decreases more.len(),
{
    if more.len() == 0 {
        assert(events + more == events);
    } else {
        ended_sessions_stay_ended(task, events, more.drop_last());
        assert((events + more).drop_last() == events + more.drop_last());
        assert(run(task, events).1 + Seq::<Action>::empty() == run(task, events).1);
    }
}

/// How far a stage is from the start of a session.
pub open spec fn progress(stage: Stage) -> nat {
    match stage {
        Stage::Connecting => 0,
        Stage::Streaming => 1,
        Stage::Sending => 1,
        Stage::Finishing => 2,
        Stage::Finalizing { .. } => 3,
        Stage::AwaitingFinal => 4,
        Stage::Closing => 5,
        Stage::Correcting { .. } => 6,
        Stage::Done { .. } => 7,
    }
}

/// No event takes a session back.
pub proof fn sessions_never_go_back(task: SessionTask, events: Seq<Event>)
    ensures
        progress(task.stage) <= progress(run(task, events).0.stage),
    decreases events.len(),
{
    if events.len() > 0 {
        sessions_never_go_back(task, events.drop_last());
    }
}

/// Whether each frame of audio comes in when the session waits for one.
pub open spec fn frames_come_in_turn(task: SessionTask, events: Seq<Event>) -> bool
    decreases events.len(),
{
    events.len() > 0 ==> {
        &&& frames_come_in_turn(task, events.drop_last())
        &&& events.last() is AudioFrame ==> run(task, events.drop_last()).0.stage is Streaming
    }
}

/// The speech recognizer is sent every frame of audio, unchanged and in the order in which they
/// have come in, as long as each comes in when the session waits for it.
pub proof fn audio_is_sent_in_order(task: SessionTask, events: Seq<Event>)
    requires
        task.stage is Connecting,
        frames_come_in_turn(task, events),
    ensures
        sent(history(task, events)) == offered(events),
    decreases events.len(),
{
    if events.len() == 0 {
        filter_map_of_none(history(task, events), frame_sent());
    } else {
        audio_is_sent_in_order(task, events.drop_last());
        let step = run(task, events.drop_last()).0.reaction(events.last()).1;
        history_grows(task, events);
        filter_map_add(history(task, events.drop_last()), step, frame_sent());
        if let Event::AudioFrame(frame) = events.last() {
            filter_map_push(Seq::empty(), Action::SendAudio(frame), frame_sent());
        } else {
            filter_map_of_none(step, frame_sent());
        }
    }
}

/// How long an action has the final result be waited for.
pub open spec fn wait_begun() -> spec_fn(Action) -> Option<u64> {
    |action: Action|
        match action {
            Action::AwaitFinal(limit) => Some(limit),
            _ => None,
        }
}

/// The times for which the final result is waited for.
pub open spec fn awaited(actions: Seq<Action>) -> Seq<u64> {
    actions.filter_map(wait_begun())
}

/// How many revisions an action that closes the speech recognizer asks for.
pub open spec fn asr_closed() -> spec_fn(Action) -> Option<usize> {
    |action: Action|
        match action {
            Action::CloseAsr(revisions) => Some(revisions),
            _ => None,
        }
}

/// The times that the speech recognizer is closed, by the number of revisions asked for.
pub open spec fn closed(actions: Seq<Action>) -> Seq<usize> {
    actions.filter_map(asr_closed())
}

/// The final result is waited for at most once, for the time that the session was started with.
pub proof fn the_final_result_is_awaited_once_at_most(task: SessionTask, events: Seq<Event>)
    requires
        task.stage is Connecting,
    ensures
        progress(run(task, events).0.stage) <= 3 ==> awaited(history(task, events)).len() == 0,
        awaited(history(task, events)).len() == 0 || awaited(history(task, events)) == seq![
            task.final_wait_timeout_ms,
        ],
    decreases events.len(),
{
    if events.len() == 0 {
        filter_map_of_none(history(task, events), wait_begun());
    } else {
        let before = run(task, events.drop_last()).0;
        let step = before.reaction(events.last()).1;
        the_final_result_is_awaited_once_at_most(task, events.drop_last());
        settings_are_kept(task, events.drop_last());
        history_grows(task, events);
        filter_map_add(history(task, events.drop_last()), step, wait_begun());
        if before.stage is Finalizing && step.len() == 1 && step[0] is AwaitFinal {
            filter_map_push(Seq::empty(), step[0], wait_begun());
            assert(step == Seq::empty().push(step[0]));
        } else {
            filter_map_of_none(step, wait_begun());
        }
    }
}

/// In every session, whatever its mode: the speech recognizer is closed without a wait for the
/// final result only where one was found or the speech recognizer had closed the connection, and
/// the result is waited for only where none was found.
pub proof fn final_results_are_not_given_up_early(task: SessionTask, events: Seq<Event>)
    requires
        task.stage is Connecting,
    ensures
        run(task, events).0.stage == (Stage::Finalizing { asr_done: true }) ==> events.contains(
            Event::Asr(AsrEvent::Closed),
        ),
        run(task, events).0.stage is AwaitingFinal ==> awaited(history(task, events)) == seq![
            task.final_wait_timeout_ms,
        ],
        closed(history(task, events)).len() > 0 ==> {
            ||| awaited(history(task, events)) == seq![task.final_wait_timeout_ms]
            ||| events.contains(Event::FinalResult(true))
            ||| events.contains(Event::Asr(AsrEvent::Closed))
        },
        awaited(history(task, events)).len() > 0 ==> events.contains(Event::FinalResult(false)),
    decreases events.len(),
{
    the_speech_recognizer_is_closed_once(task, events);
    if events.len() == 0 {
        filter_map_of_none(history(task, events), wait_begun());
    } else {
        let earlier = events.drop_last();
        let before = run(task, earlier).0;
        let step = before.reaction(events.last()).1;
        final_results_are_not_given_up_early(task, earlier);
        the_speech_recognizer_is_closed_once(task, earlier);
        the_final_result_is_awaited_once_at_most(task, earlier);
        settings_are_kept(task, earlier);
        earlier_events_stay(events);
        history_grows(task, events);
        filter_map_add(history(task, earlier), step, wait_begun());
        assert(events.contains(events.last()));
        if before.stage is Finalizing && step.len() == 1 && step[0] is AwaitFinal {
            filter_map_push(Seq::empty(), step[0], wait_begun());
            assert(step == Seq::empty().push(step[0]));
        } else {
            filter_map_of_none(step, wait_begun());
        }
    }
}

/// What a report of the speech recognizer is entered in the transcript as: nothing where it says
/// nothing of the text, or is an empty first guess.
pub open spec fn entry_due() -> spec_fn(Event) -> Option<Action> {
    |event: Event|
        match event {
            Event::Asr(AsrEvent::Interim(text)) => if text@.len() > 0 {
                Some(Action::UpdateInterim(text))
            } else {
                None
            },
            Event::Asr(AsrEvent::Definite(text)) => Some(Action::UpdateDefinite(text)),
            Event::Asr(AsrEvent::Final(text)) => Some(Action::UpdateFinal(text)),
            _ => None,
        }
}

/// An action that enters something in the transcript.
pub open spec fn entry_made() -> spec_fn(Action) -> Option<Action> {
    |action: Action|
        match action {
            Action::UpdateInterim(_) | Action::UpdateDefinite(_) | Action::UpdateFinal(_) => Some(
                action,
            ),
            _ => None,
        }
}

/// Whether the speech recognizer is heard only while the session listens to it.
pub open spec fn reports_come_in_turn(task: SessionTask, events: Seq<Event>) -> bool
    decreases events.len(),
{
    events.len() > 0 ==> {
        &&& reports_come_in_turn(task, events.drop_last())
        &&& events.last() is Asr ==> run(task, events.drop_last()).0.stage is Streaming || run(
            task,
            events.drop_last(),
        ).0.stage is AwaitingFinal
    }
}

/// The transcript is given all that the speech recognizer says of the text, unchanged and in the
/// order in which it was said, from the start of the recording to the end of the wait for the final
/// result, as long as it is heard while the session listens.
pub proof fn transcripts_hold_all_that_was_heard(task: SessionTask, events: Seq<Event>)
    requires
        task.stage is Connecting,
        reports_come_in_turn(task, events),
    ensures
        history(task, events).filter_map(entry_made()) == events.filter_map(entry_due()),
    decreases events.len(),
{
    let f = entry_made();
    if events.len() == 0 {
        filter_map_of_none(history(task, events), f);
    } else {
        let earlier = events.drop_last();
        let before = run(task, earlier).0;
        let event = events.last();
        let step = before.reaction(event).1;
        transcripts_hold_all_that_was_heard(task, earlier);
        history_grows(task, events);
        filter_map_add(history(task, earlier), step, f);
        filter_map_push(earlier, event, entry_due());
        assert(earlier.push(event) == events);
        if entry_due()(event) is Some {
            assert(step[0] == entry_due()(event)->0);
            filter_map_push(Seq::empty(), step[0], f);
            filter_map_of_none(step.skip(1), f);
            filter_map_add(seq![step[0]], step.skip(1), f);
            assert(seq![step[0]] == Seq::empty().push(step[0]));
            assert(step == seq![step[0]] + step.skip(1));
        } else {
            filter_map_of_none(step, f);
        }
    }
}

/// A speech recognizer that was connected is closed exactly once, before the session goes on to
/// its text; one that could not be connected is not closed.
pub proof fn the_speech_recognizer_is_closed_once(task: SessionTask, events: Seq<Event>)
    requires
        task.stage is Connecting,
    ensures
        closed(history(task, events)) == (match run(task, events).0.stage {
            Stage::Closing | Stage::Correcting { .. } => seq![INTERIM_REVISIONS],
            Stage::Done { outcome } => if outcome is ConnectionFailed {
                seq![]
            } else {
                seq![INTERIM_REVISIONS]
            },
            _ => seq![],
        }),
    decreases events.len(),
{
    if events.len() == 0 {
        filter_map_of_none(history(task, events), asr_closed());
    } else {
        let before = run(task, events.drop_last()).0;
        let step = before.reaction(events.last()).1;
        the_speech_recognizer_is_closed_once(task, events.drop_last());
        history_grows(task, events);
        filter_map_add(history(task, events.drop_last()), step, asr_closed());
        if before.reaction(events.last()).0.stage is Closing && !(before.stage is Closing) {
            assert(step == step.drop_last().push(Action::CloseAsr(INTERIM_REVISIONS)));
            filter_map_push(step.drop_last(), Action::CloseAsr(INTERIM_REVISIONS), asr_closed());
            filter_map_of_none(step.drop_last(), asr_closed());
        } else {
            filter_map_of_none(step, asr_closed());
        }
    }
}

/// Whether an action asks for a report when it is done.
pub open spec fn asks_for_report(action: Action) -> bool {
    ||| action is ConnectAsr
    ||| action is SendAudio
    ||| action is FinishInput
    ||| action is QueryFinalResult
    ||| action is CloseAsr
    ||| action is RequestCorrection
}

/// At most one action of the list asks for a report, and it is the last.
pub open spec fn at_most_last_asks(actions: Seq<Action>) -> bool {
    forall|i: int| 0 <= i < actions.len() - 1 ==> !asks_for_report(#[trigger] actions[i])
}

/// Of what is done at the start and in each step, at most the last action asks for a report. It
/// does so at the start, and in exactly the steps that come to a stage that waits for one.
pub proof fn reports_are_asked_for_last(task: SessionTask, event: Event)
    ensures
        at_most_last_asks(opening()),
        asks_for_report(opening().last()),
        at_most_last_asks(task.reaction(event).1),
        (task.reaction(event).1.len() > 0 && asks_for_report(task.reaction(event).1.last())) <==> (
        task.reaction(event).0.stage != task.stage && awaits_report(task.reaction(event).0.stage)),
{
}

/// Whether an event reports what came of an action.
pub open spec fn reports_on(action: Action, event: Event) -> bool {
    match action {
        Action::ConnectAsr => event is Connected || event is ConnectFailed,
        Action::SendAudio(_) => event is AudioSent,
        Action::FinishInput => event is InputFinished,
        Action::QueryFinalResult => event is FinalResult,
        Action::CloseAsr(_) => event is Transcript,
        Action::RequestCorrection(_) => event is Corrected || event is CorrectionFailed,
        _ => false,
    }
}

/// Whether an event is one that a stage waits for.
pub open spec fn expected(stage: Stage, event: Event) -> bool {
    match stage {
        Stage::Connecting => event is Connected || event is ConnectFailed,
        Stage::Streaming => {
            ||| event is AudioFrame
            ||| event is AudioEnded
            ||| event is Asr
            ||| event is AsrReadFailed
        },
        Stage::Sending => event is AudioSent,
        Stage::Finishing => event is InputFinished,
        Stage::Finalizing { .. } => event is FinalResult,
        Stage::AwaitingFinal => {
            ||| event is Asr
            ||| event is AsrReadFailed
            ||| event is FinalWaitTimedOut
        },
        Stage::Closing => event is Transcript,
        Stage::Correcting { .. } => event is Corrected || event is CorrectionFailed,
        Stage::Done { .. } => false,
    }
}

/// A session that is told what it waits for has its caller wait for a report exactly where its
/// last action asks for one, and every such report is then one that the session waits for. So is
/// every report on the connection, with which a session begins.
pub proof fn awaited_reports_are_asked_for(task: SessionTask, event: Event)
    requires
        expected(task.stage, event),
    ensures
        wait_at(task.reaction(event).0.stage) == Wait::Report <==> (task.reaction(event).1.len() > 0
            && asks_for_report(task.reaction(event).1.last())),
        forall|report: Event|
            task.reaction(event).1.len() > 0 && #[trigger] reports_on(
                task.reaction(event).1.last(),
                report,
            ) ==> expected(task.reaction(event).0.stage, report),
        forall|report: Event| #[trigger]
            reports_on(opening().last(), report) ==> expected(Stage::Connecting, report),
{
}

/// Where an action looks for doubtful phrases: in the recognized text, the pasted text and the
/// revisions.
pub open spec fn phrases_sought() -> spec_fn(Action) -> Option<(String, String, Vec<String>)> {
    |action: Action|
        match action {
            Action::ExtractUncertain(asr_text, final_text, interim_history) => Some(
                (asr_text, final_text, interim_history),
            ),
            _ => None,
        }
}

/// Where doubtful phrases are looked for.
pub open spec fn sought(actions: Seq<Action>) -> Seq<(String, String, Vec<String>)> {
    actions.filter_map(phrases_sought())
}

/// Where doubtful phrases are looked for once a text is pasted: nowhere without a language model
/// or without revisions.
pub open spec fn worth_seeking(
    llm_configured: bool,
    asr_text: String,
    final_text: String,
    interim_history: Vec<String>,
) -> Seq<(String, String, Vec<String>)> {
    if llm_configured && interim_history@.len() > 0 {
        seq![(asr_text, final_text, interim_history)]
    } else {
        seq![]
    }
}

proof fn completion_seeks(
    llm_configured: bool,
    asr_text: String,
    text: String,
    interim_history: Vec<String>,
)
    ensures
        sought(completion(llm_configured, asr_text, text, interim_history)) == worth_seeking(
            llm_configured,
            asr_text,
            text,
            interim_history,
        ),
{
    let f = phrases_sought();
    let all = completion(llm_configured, asr_text, text, interim_history);
    let extraction = Action::ExtractUncertain(asr_text, text, interim_history);
    if llm_configured && interim_history@.len() > 0 {
        let first = all.take(4);
        let last = all.skip(5);
        assert(all == first.push(extraction) + last);
        filter_map_add(first.push(extraction), last, f);
        filter_map_push(first, extraction, f);
        filter_map_of_none(first, f);
        filter_map_of_none(last, f);
    } else {
        filter_map_of_none(all, f);
    }
}

/// Whether the transcript was reported with the given best text, and doubtful phrases are looked
/// for in it, in the pasted text and in the reported revisions, as far as that is worth it.
pub open spec fn sought_in_transcript(
    task: SessionTask,
    events: Seq<Event>,
    asr_text: String,
    final_text: String,
) -> bool {
    exists|interim_history: Vec<String>| #[trigger]
        events.contains(Event::Transcript(asr_text, interim_history)) && sought(
            history(task, events),
        ) == worth_seeking(task.llm_configured, asr_text, final_text, interim_history)
}

/// Doubtful phrases are looked for at most once in a session, and only as it is completed: in
/// the recognized text, the pasted text and the revisions that were reported, exactly where a
/// language model is configured and there are revisions.
pub proof fn phrases_are_sought_once_at_most(task: SessionTask, events: Seq<Event>)
    requires
        task.stage is Connecting,
    ensures
        sought(history(task, events)).len() <= 1,
        match run(task, events).0.stage {
            Stage::Correcting { asr_text, interim_history } => {
                &&& sought(history(task, events)).len() == 0
                &&& events.contains(Event::Transcript(asr_text, interim_history))
            },
            Stage::Done { outcome: Outcome::Completed } => sought_in_transcript(
                task,
                events,
                recognized(history(task, events))[0],
                delivered(history(task, events))[0],
            ),
            _ => sought(history(task, events)).len() == 0,
        },
    decreases events.len(),
{
    let f = phrases_sought();
    if events.len() == 0 {
        filter_map_of_none(history(task, events), f);
    } else {
        let earlier = events.drop_last();
        let before = run(task, earlier).0;
        let step = before.reaction(events.last()).1;
        phrases_are_sought_once_at_most(task, earlier);
        completed_sessions_deliver_one_text(task, earlier);
        settings_are_kept(task, earlier);
        history_grows(task, events);
        filter_map_add(history(task, earlier), step, f);
        history_is_found(task, events, text_recognized());
        history_is_found(task, events, text_delivered());
        earlier_events_stay(events);
        match (before.stage, events.last()) {
            (Stage::Closing, Event::Transcript(text, interim_history)) => {
                assert(events.contains(Event::Transcript(text, interim_history)));
                filter_map_of_none(step, f);
            },
            (Stage::Correcting { asr_text, interim_history }, Event::Corrected(text)) => {
                completion_seeks(before.llm_configured, asr_text, text, interim_history);
                assert(events.contains(Event::Transcript(asr_text, interim_history)));
            },
            (
                Stage::Correcting { asr_text, interim_history },
                Event::CorrectionFailed(reason),
            ) => {
                let warning = seq![Action::WarnCorrectionFailed(reason)];
                let rest = completion(before.llm_configured, asr_text, asr_text, interim_history);
                completion_seeks(before.llm_configured, asr_text, asr_text, interim_history);
                filter_map_of_none(warning, f);
                filter_map_add(warning, rest, f);
                assert(events.contains(Event::Transcript(asr_text, interim_history)));
            },
            _ => {
                filter_map_of_none(step, f);
                if before.stage is Done {
                    assert(history(task, events) == history(task, earlier));
                }
            },
        }
    }
}

/// Whether an action tells the user interface that audio is accepted.
pub open spec fn ready_told() -> spec_fn(Action) -> Option<()> {
    |action: Action|
        match action {
            Action::SessionReady => Some(()),
            _ => None,
        }
}

/// The times that the user interface is told that audio is accepted.
pub open spec fn readied(actions: Seq<Action>) -> Seq<()> {
    actions.filter_map(ready_told())
}

/// The user interface is told exactly once that audio is accepted, when the speech recognizer is
/// connected, and never where it could not be.
pub proof fn audio_is_accepted_once(task: SessionTask, events: Seq<Event>)
    requires
        task.stage is Connecting,
    ensures
        readied(history(task, events)).len() == (match run(task, events).0.stage {
            Stage::Connecting | Stage::Done { outcome: Outcome::ConnectionFailed } => 0nat,
            _ => 1,
        }),
    decreases events.len(),
{
    let f = ready_told();
    if events.len() == 0 {
        filter_map_of_none(history(task, events), f);
    } else {
        let before = run(task, events.drop_last()).0;
        let step = before.reaction(events.last()).1;
        audio_is_accepted_once(task, events.drop_last());
        history_grows(task, events);
        filter_map_add(history(task, events.drop_last()), step, f);
        if before.stage is Connecting && events.last() is Connected {
            filter_map_by_element(step, 3, f);
            reveal_with_fuel(found_up_to, 3);
        } else {
            filter_map_of_none(step, f);
        }
    }
}

/// The user interface is told that audio is accepted directly after it was told that the session
/// records.
pub proof fn audio_is_accepted_after_the_recording_status(
    task: SessionTask,
    events: Seq<Event>,
    i: int,
)
    requires
        task.stage is Connecting,
        0 <= i < history(task, events).len(),
        history(task, events)[i] is SessionReady,
    ensures
        i > 0,
        history(task, events)[i - 1] == Action::Notify(
            Status::Recording(recording_state_of(task.mode)),
        ),
    decreases events.len(),
{
    if events.len() > 0 {
        let earlier = history(task, events.drop_last());
        let step = run(task, events.drop_last()).0.reaction(events.last()).1;
        history_grows(task, events);
        settings_are_kept(task, events.drop_last());
        if i < earlier.len() {
            audio_is_accepted_after_the_recording_status(task, events.drop_last(), i);
        } else {
            assert(history(task, events)[i] == step[i - earlier.len()]);
            assert(history(task, events)[i - 1] == step[i - 1 - earlier.len()]);
        }
    }
}

} // verus!
