//! A voice input session and the slot that holds the current one.

use vstd::prelude::*;

verus! {

/// How the user holds a recording open.
#[derive(Debug, Clone, Copy, PartialEq, Eq, Structural)]
pub enum SessionMode {
    /// The hotkey is held down while the user speaks.
    Hold,
    /// One tap of the hotkey starts the recording, another one ends it.
    Toggle,
}

/// The states that a session is taken through.
#[derive(Debug, Clone, Copy, PartialEq, Eq, Structural)]
pub enum SessionState {
    RecordingHold,
    RecordingToggle,
    FinalizingAsr,
    Correcting,
    PreparingPaste,
    Pasting,
    Completed,
}

/// The recording state of a mode.
pub open spec fn recording_state_of(mode: SessionMode) -> SessionState {
    match mode {
        SessionMode::Hold => SessionState::RecordingHold,
        SessionMode::Toggle => SessionState::RecordingToggle,
    }
}

/// The state in which a session of the given mode records.
pub fn recording_state(mode: SessionMode) -> (state: SessionState)
    ensures
        state == recording_state_of(mode),
{
    match mode {
        SessionMode::Hold => SessionState::RecordingHold,
        SessionMode::Toggle => SessionState::RecordingToggle,
    }
}

/// A voice input session: where it was started, and the texts that it has produced so far.
#[derive(Debug, PartialEq)]
pub struct Session {
    pub id: String,
    pub mode: SessionMode,
    pub frontmost_bundle_id: Option<String>,
    pub frontmost_pid: i32,
    pub asr_text: Option<String>,
    pub corrected_text: Option<String>,
}

impl Session {
    /// A session that has produced no text yet.
    pub fn new(
        id: String,
        mode: SessionMode,
        frontmost_bundle_id: Option<String>,
        frontmost_pid: i32,
    ) -> (session: Session)
        ensures
            session == (Session {
                id,
                mode,
                frontmost_bundle_id,
                frontmost_pid,
                asr_text: None,
                corrected_text: None,
            }),
    {
        Session {
            id,
            mode,
            frontmost_bundle_id,
            frontmost_pid,
            asr_text: None,
            corrected_text: None,
        }
    }
}

/// Stores the recognized text in the current session, if there is one.
pub fn store_asr_text(slot: &mut Option<Session>, text: String)
    ensures
        *final(slot) == (match *old(slot) {
            Some(session) => Some(Session { asr_text: Some(text), ..session }),
            None => None,
        }),
{
    if let Some(session) = slot {
        session.asr_text = Some(text);
    }
}

/// Stores the text to be pasted in the current session, if there is one.
pub fn store_corrected_text(slot: &mut Option<Session>, text: String)
    ensures
        *final(slot) == (match *old(slot) {
            Some(session) => Some(Session { corrected_text: Some(text), ..session }),
            None => None,
        }),
{
    if let Some(session) = slot {
        session.corrected_text = Some(text);
    }
}

/// Leaves no current session.
pub fn cleanup_session(slot: &mut Option<Session>)
    ensures
        *final(slot) is None,
{
    *slot = None;
}

/// The recognized text and the text to be pasted are stored side by side: neither takes the place
/// of the other, and nothing else of the session changes. Without a session nothing is stored.
pub proof fn texts_are_stored_side_by_side(
    slot: &mut Option<Session>,
    asr_text: String,
    later: &mut Option<Session>,
    final_text: String,
)
    requires
        call_ensures(store_asr_text, (slot, asr_text), ()),
        *old(later) == *final(slot),
        call_ensures(store_corrected_text, (later, final_text), ()),
    ensures
        *old(slot) is None ==> *final(later) is None,
        *old(slot) matches Some(before) ==> *final(later) matches Some(after) && {
            &&& after.asr_text == Some(asr_text)
            &&& after.corrected_text == Some(final_text)
            &&& after.id == before.id
            &&& after.mode == before.mode
            &&& after.frontmost_bundle_id == before.frontmost_bundle_id
            &&& after.frontmost_pid == before.frontmost_pid
        },
        *old(slot) matches Some(before) ==> *final(slot) matches Some(between)
            && between.corrected_text == before.corrected_text,
{
}

/// A new session knows where it was started and has no text yet; it is gone once it is cleaned up,
/// and then no text is stored any more.
pub proof fn sessions_come_and_go(
    id: String,
    mode: SessionMode,
    frontmost_bundle_id: Option<String>,
    frontmost_pid: i32,
    session: Session,
    slot: &mut Option<Session>,
    later: &mut Option<Session>,
    text: String,
)
    requires
        call_ensures(Session::new, (id, mode, frontmost_bundle_id, frontmost_pid), session),
        call_ensures(cleanup_session, (slot,), ()),
        *old(later) == *final(slot),
        call_ensures(store_asr_text, (later, text), ()),
    ensures
        session.id == id,
        session.mode == mode,
        session.frontmost_bundle_id == frontmost_bundle_id,
        session.frontmost_pid == frontmost_pid,
        session.asr_text is None && session.corrected_text is None,
        *final(slot) is None,
        *final(later) is None,
{
}

/// Each mode records in a state of its own: one that is held open in that of being held, one that
/// is tapped open in that of being tapped.
pub proof fn modes_record_in_their_own_state(mode: SessionMode, other: SessionMode)
    ensures
        recording_state_of(mode) == recording_state_of(other) <==> mode == other,
        recording_state_of(mode) == SessionState::RecordingHold <==> mode is Hold,
        recording_state_of(mode) == SessionState::RecordingToggle <==> mode is Toggle,
{
}

} // verus!
