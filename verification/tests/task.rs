use koe_core::config::{AsrConfig, AsrSection, LlmSection};
use koe_core::double::Double;
use koe_core::session::{SessionMode, SessionState};
use koe_core::task::{
    correction_warning, wait_for_final, Action, AsrEvent, Event, Failure, Outcome, SessionTask,
    Stage, Status, Wait,
};

fn begun(mode: SessionMode, llm: bool) -> (SessionTask, Vec<Action>) {
    let section = AsrSection {
        url: String::new(),
        app_key: String::new(),
        access_key: String::new(),
        resource_id: String::new(),
        connect_timeout_ms: 1,
        final_wait_timeout_ms: 4321,
        enable_ddc: false,
        enable_itn: false,
        enable_punc: false,
        enable_nonstream: false,
    };
    let llm_config = LlmSection {
        base_url: if llm { "https://llm".to_string() } else { String::new() },
        api_key: "key".to_string(),
        model: String::new(),
        temperature: Double { bits: 0 },
        top_p: Double { bits: 0 },
        max_output_tokens: 0,
        timeout_ms: 0,
        dictionary_max_candidates: 0,
    };
    SessionTask::start(mode, &AsrConfig::new(&section, &vec![]), &llm_config)
}

fn run(mode: SessionMode, llm: bool, events: Vec<Event>) -> (SessionTask, Vec<Action>) {
    let (mut task, mut all) = begun(mode, llm);
    for event in events {
        let (next, actions) = task.step(event);
        task = next;
        all.extend(actions);
    }
    (task, all)
}

fn text(s: &str) -> String {
    s.to_string()
}

fn transcript(best: &str, revisions: &[&str]) -> Event {
    Event::Transcript(text(best), revisions.iter().map(|revision| revision.to_string()).collect())
}

fn statuses(actions: &[Action]) -> Vec<Status> {
    actions
        .iter()
        .filter_map(|action| match action {
            Action::Notify(status) => Some(*status),
            _ => None,
        })
        .collect()
}

fn recorded() -> Vec<Event> {
    vec![
        Event::Connected,
        Event::AudioFrame(vec![1]),
        Event::AudioSent(true),
        Event::AudioEnded,
        Event::InputFinished,
        Event::FinalResult(true),
    ]
}

#[test]
fn a_session_runs_to_completion() {
    let mut events = recorded();
    events.push(transcript("hello", &["hell"]));
    events.push(Event::Corrected(text("Hello.")));
    let (task, actions) = run(SessionMode::Toggle, true, events);
    assert_eq!(task.stage, Stage::Done { outcome: Outcome::Completed });
    assert_eq!(
        actions,
        vec![
            Action::Notify(Status::ConnectingAsr),
            Action::ConnectAsr,
            Action::Transition(SessionState::RecordingToggle),
            Action::Notify(Status::Recording(SessionState::RecordingToggle)),
            Action::SessionReady,
            Action::SendAudio(vec![1]),
            Action::FinishInput,
            Action::Transition(SessionState::FinalizingAsr),
            Action::Notify(Status::FinalizingAsr),
            Action::QueryFinalResult,
            Action::CloseAsr(10),
            Action::StoreAsrText(text("hello")),
            Action::Transition(SessionState::Correcting),
            Action::Notify(Status::Correcting),
            Action::RequestCorrection(text("hello")),
            Action::StoreCorrectedText(text("Hello.")),
            Action::Transition(SessionState::PreparingPaste),
            Action::Notify(Status::PreparingPaste),
            Action::DeliverFinalText(text("Hello.")),
            Action::ExtractUncertain(text("hello"), text("Hello."), vec![text("hell")]),
            Action::Transition(SessionState::Pasting),
            Action::Transition(SessionState::Completed),
            Action::Notify(Status::Completed),
            Action::Cleanup,
            Action::Notify(Status::Idle),
        ]
    );
}

#[test]
fn a_failed_correction_falls_back_to_the_recognized_text() {
    let mut events = recorded();
    events.push(transcript("hello", &[]));
    events.push(Event::CorrectionFailed(text("timeout")));
    let (task, actions) = run(SessionMode::Hold, true, events);
    assert_eq!(task.stage, Stage::Done { outcome: Outcome::Completed });
    let warnings: Vec<&Action> = actions
        .iter()
        .filter(|action| matches!(action, Action::WarnCorrectionFailed(_)))
        .collect();
    assert_eq!(warnings, vec![&Action::WarnCorrectionFailed(text("timeout"))]);
    assert!(actions.contains(&Action::DeliverFinalText(text("hello"))));
    assert!(actions.contains(&Action::StoreCorrectedText(text("hello"))));
    assert!(!actions.iter().any(|action| matches!(action, Action::ExtractUncertain(..))));
    assert_eq!(correction_warning("timeout"), "LLM correction failed: timeout");
}

#[test]
fn without_a_language_model_the_recognized_text_is_pasted() {
    let mut events = recorded();
    events.push(transcript("hello", &["hell"]));
    let (task, actions) = run(SessionMode::Hold, false, events);
    assert_eq!(task.stage, Stage::Done { outcome: Outcome::Completed });
    assert!(actions.contains(&Action::DeliverFinalText(text("hello"))));
    assert!(!actions.iter().any(|action| matches!(
        action,
        Action::RequestCorrection(_) | Action::ExtractUncertain(..) | Action::WarnCorrectionFailed(_)
    )));
    assert_eq!(
        statuses(&actions),
        vec![
            Status::ConnectingAsr,
            Status::Recording(SessionState::RecordingHold),
            Status::FinalizingAsr,
            Status::Correcting,
            Status::PreparingPaste,
            Status::Completed,
            Status::Idle,
        ]
    );
}

#[test]
fn a_failed_connection_ends_the_session() {
    let (task, actions) =
        run(SessionMode::Hold, true, vec![Event::ConnectFailed(text("refused"))]);
    assert_eq!(task.stage, Stage::Done { outcome: Outcome::ConnectionFailed });
    assert_eq!(
        actions[2..],
        [
            Action::Fail(Failure::AsrConnection(text("refused"))),
            Action::Notify(Status::Failed),
            Action::Cleanup,
        ]
    );
    assert_eq!(Failure::AsrConnection(text("refused")).message(), "refused");
}

#[test]
fn silence_ends_the_session() {
    let mut events = recorded();
    events.push(transcript("", &["hm"]));
    let (task, actions) = run(SessionMode::Hold, true, events);
    assert_eq!(task.stage, Stage::Done { outcome: Outcome::NoSpeech });
    assert_eq!(
        actions[actions.len() - 3..],
        [Action::Fail(Failure::NoSpeech), Action::Notify(Status::Failed), Action::Cleanup]
    );
    assert_eq!(Failure::NoSpeech.message(), "no speech recognized");
}

#[test]
fn recognizer_events_update_the_transcript() {
    let (task, actions) = run(
        SessionMode::Hold,
        true,
        vec![
            Event::Connected,
            Event::Asr(AsrEvent::Connected),
            Event::Asr(AsrEvent::Interim(text(""))),
            Event::Asr(AsrEvent::Interim(text("a"))),
            Event::Asr(AsrEvent::Definite(text(""))),
            Event::Asr(AsrEvent::Definite(text("ab"))),
            Event::Asr(AsrEvent::Error(text("odd"))),
            Event::Asr(AsrEvent::Final(text("abc"))),
        ],
    );
    assert_eq!(task.stage, Stage::Streaming);
    assert_eq!(
        actions[5..],
        [
            Action::UpdateInterim(text("a")),
            Action::UpdateDefinite(text("")),
            Action::UpdateDefinite(text("ab")),
            Action::UpdateFinal(text("abc")),
        ]
    );
}

#[test]
fn the_final_result_is_awaited_only_where_it_can_come() {
    let until = |events: Vec<Event>| run(SessionMode::Hold, true, events).0.stage;
    let closed = Event::Asr(AsrEvent::Closed);
    assert_eq!(
        until(vec![Event::Connected, closed, Event::FinalResult(false)]),
        Stage::Closing
    );
    assert_eq!(
        until(vec![Event::Connected, Event::AsrReadFailed, Event::FinalResult(true)]),
        Stage::Closing
    );
    let (task, actions) = run(
        SessionMode::Hold,
        true,
        vec![
            Event::Connected,
            Event::AudioFrame(vec![7]),
            Event::AudioSent(false),
            Event::FinalResult(false),
        ],
    );
    assert_eq!(task.stage, Stage::AwaitingFinal);
    assert_eq!(actions.last(), Some(&Action::AwaitFinal(4321)));
}

#[test]
fn the_wait_for_the_final_result_ends() {
    let waiting = || {
        let events = vec![Event::Connected, Event::AsrReadFailed, Event::FinalResult(false)];
        run(SessionMode::Hold, true, events).0
    };
    let (task, actions) = waiting().step(Event::Asr(AsrEvent::Interim(text("x"))));
    assert_eq!(task.stage, Stage::AwaitingFinal);
    assert_eq!(actions, vec![Action::UpdateInterim(text("x"))]);
    let (task, actions) = waiting().step(Event::Asr(AsrEvent::Final(text("xy"))));
    assert_eq!(task.stage, Stage::Closing);
    assert_eq!(actions, vec![Action::UpdateFinal(text("xy")), Action::CloseAsr(10)]);
    let enders = [Event::Asr(AsrEvent::Closed), Event::AsrReadFailed, Event::FinalWaitTimedOut];
    for event in enders {
        let (task, actions) = waiting().step(event);
        assert_eq!(task.stage, Stage::Closing);
        assert_eq!(actions, vec![Action::CloseAsr(10)]);
    }
    let mut actions = vec![];
    assert!(!wait_for_final(&mut actions, AsrEvent::Error(text("e"))));
    assert!(!wait_for_final(&mut actions, AsrEvent::Definite(text("d"))));
    assert!(wait_for_final(&mut actions, AsrEvent::Closed));
    assert_eq!(actions, vec![Action::UpdateDefinite(text("d"))]);
}

#[test]
fn events_out_of_turn_change_nothing() {
    let (task, _) = begun(SessionMode::Hold, true);
    let (task, actions) = task.step(Event::AudioEnded);
    assert_eq!(task.stage, Stage::Connecting);
    assert!(actions.is_empty());
    let (task, _) = run(SessionMode::Hold, true, vec![Event::ConnectFailed(text("e"))]);
    let (task, actions) = task.step(Event::Connected);
    assert_eq!(task.stage, Stage::Done { outcome: Outcome::ConnectionFailed });
    assert!(actions.is_empty());
}

#[test]
fn audio_is_sent_in_the_order_it_came() {
    let mut events = vec![Event::Connected];
    for i in 0..5u8 {
        events.push(Event::AudioFrame(vec![i, i]));
        events.push(Event::AudioSent(true));
        events.push(Event::Asr(AsrEvent::Interim(text("..."))));
    }
    let (_, actions) = run(SessionMode::Hold, false, events);
    let sent: Vec<&Vec<u8>> = actions
        .iter()
        .filter_map(|action| match action {
            Action::SendAudio(frame) => Some(frame),
            _ => None,
        })
        .collect();
    assert_eq!(sent, [&vec![0, 0], &vec![1, 1], &vec![2, 2], &vec![3, 3], &vec![4, 4]]);
}

#[test]
fn statuses_have_labels() {
    assert_eq!(Status::ConnectingAsr.label(), Some("connecting_asr"));
    assert_eq!(Status::Recording(SessionState::RecordingHold).label(), None);
    assert_eq!(Status::FinalizingAsr.label(), Some("finalizing_asr"));
    assert_eq!(Status::Correcting.label(), Some("correcting"));
    assert_eq!(Status::PreparingPaste.label(), Some("preparing_paste"));
    assert_eq!(Status::Completed.label(), Some("completed"));
    assert_eq!(Status::Failed.label(), Some("failed"));
    assert_eq!(Status::Idle.label(), Some("idle"));
}

#[test]
fn the_recognizer_is_closed_and_awaited_once() {
    let mut events = vec![
        Event::Connected,
        Event::AudioEnded,
        Event::InputFinished,
        Event::FinalResult(false),
        Event::FinalResult(false),
        Event::FinalWaitTimedOut,
        Event::FinalWaitTimedOut,
    ];
    events.push(transcript("late", &[]));
    events.push(transcript("later", &[]));
    events.push(Event::Corrected(text("Late.")));
    events.push(Event::Corrected(text("Later.")));
    let (task, actions) = run(SessionMode::Hold, true, events);
    assert_eq!(task.stage, Stage::Done { outcome: Outcome::Completed });
    let count = |wanted: &Action| actions.iter().filter(|action| *action == wanted).count();
    assert_eq!(count(&Action::CloseAsr(10)), 1);
    assert_eq!(count(&Action::AwaitFinal(4321)), 1);
    assert_eq!(count(&Action::Cleanup), 1);
    assert_eq!(count(&Action::DeliverFinalText(text("Late."))), 1);
    assert_eq!(count(&Action::DeliverFinalText(text("Later."))), 0);
    assert_eq!(count(&Action::RequestCorrection(text("late"))), 1);
}

#[test]
fn only_the_last_action_asks_for_a_report() {
    let asks = |action: &Action| {
        matches!(
            action,
            Action::ConnectAsr
                | Action::SendAudio(_)
                | Action::FinishInput
                | Action::QueryFinalResult
                | Action::CloseAsr(_)
                | Action::RequestCorrection(_)
        )
    };
    let (mut task, mut actions) = begun(SessionMode::Hold, true);
    let mut events = recorded();
    events.push(transcript("hello", &["hell"]));
    for event in events {
        let last = actions.pop();
        assert!(!actions.iter().any(asks));
        assert_eq!(last.as_ref().is_some_and(asks), task.wait() == Wait::Report);
        (task, actions) = task.step(event);
    }
    assert_eq!(actions.last(), Some(&Action::RequestCorrection(text("hello"))));
    assert_eq!(task.interim_history(), Some(&vec![text("hell")]));
    let (task, actions) = task.step(Event::Corrected(text("Hello.")));
    assert_eq!(task.interim_history(), None);
    assert!(!actions.iter().any(asks));
}

#[test]
fn audio_is_accepted_once_and_phrases_are_sought_once() {
    let mut events = recorded();
    events.insert(1, Event::Connected);
    events.push(transcript("hello", &["hell"]));
    events.push(Event::Corrected(text("Hello.")));
    events.push(Event::Corrected(text("Hello again.")));
    events.push(Event::CorrectionFailed(text("late")));
    let (_, actions) = run(SessionMode::Toggle, true, events);
    let ready: Vec<usize> =
        (0..actions.len()).filter(|i| actions[*i] == Action::SessionReady).collect();
    assert_eq!(ready.len(), 1);
    assert_eq!(
        actions[ready[0] - 1],
        Action::Notify(Status::Recording(SessionState::RecordingToggle))
    );
    let sought =
        actions.iter().filter(|action| matches!(action, Action::ExtractUncertain(..))).count();
    assert_eq!(sought, 1);
    assert!(!actions.iter().any(|action| matches!(action, Action::WarnCorrectionFailed(_))));
}

#[test]
fn a_session_says_what_is_waited_for() {
    let (task, _) = begun(SessionMode::Hold, true);
    assert_eq!(task.wait(), Wait::Report);
    let (task, _) = task.step(Event::Connected);
    assert_eq!(task.wait(), Wait::Input);
    let (task, _) = task.step(Event::AudioFrame(vec![1]));
    assert_eq!(task.wait(), Wait::Report);
    let (task, _) = task.step(Event::AudioSent(true));
    assert_eq!(task.wait(), Wait::Input);
    let (task, _) = task.step(Event::AudioEnded);
    assert_eq!(task.wait(), Wait::Report);
    let (task, _) = task.step(Event::InputFinished);
    assert_eq!(task.wait(), Wait::Report);
    let (task, actions) = task.step(Event::FinalResult(false));
    assert_eq!(actions, vec![Action::AwaitFinal(4321)]);
    assert_eq!(task.wait(), Wait::FinalResult);
    let (task, _) = task.step(Event::FinalWaitTimedOut);
    assert_eq!(task.wait(), Wait::Report);
    let (task, _) = task.step(transcript("hello", &[]));
    assert_eq!(task.wait(), Wait::Report);
    let (task, _) = task.step(Event::Corrected(text("Hello.")));
    assert_eq!(task.wait(), Wait::Nothing);
}

#[test]
fn the_text_and_the_state_of_a_session_change_together() {
    let mut events = recorded();
    events.push(transcript("hello", &[]));
    let (_, actions) = run(SessionMode::Hold, false, events);
    let stored = Action::StoreCorrectedText(text("hello"));
    let i = actions.iter().position(|action| *action == stored).unwrap();
    assert_eq!(actions[i + 1], Action::Transition(SessionState::PreparingPaste));
    assert!(actions[i].changes_session() && actions[i + 1].changes_session());
    assert!(Action::StoreAsrText(text("hello")).changes_session());
    assert!(Action::Cleanup.changes_session());
    assert!(!actions[i + 2].changes_session());
    assert!(!Action::DeliverFinalText(text("hello")).changes_session());
}
