//! The state of the core, and what its entry points do to it.

use crate::config::{copy_words, AsrConfig, Config, FeedbackSection, HotkeyParams, LlmSection};
use crate::session::{Session, SessionMode};
use vstd::prelude::*;
use vstd::slice::slice_to_vec;

verus! {

/// How many frames of audio wait to be sent at most; further ones are dropped.
pub const AUDIO_QUEUE_FRAMES: usize = 1024;

/// The core, once it is created. The runtime that runs sessions, the sender of audio to the
/// current session and the slot of the current session are handles that the core only holds.
#[derive(Debug, PartialEq)]
pub struct Core<R, T, S> {
    pub runtime: R,
    pub audio_tx: Option<T>,
    pub session: S,
    pub config: Config,
    pub dictionary: Vec<String>,
    pub system_prompt: String,
    pub user_prompt_template: String,
}

/// What is read from disk: the settings, the dictionary if it could be read, and the prompts.
#[derive(Debug, PartialEq)]
pub struct Loaded {
    pub config: Config,
    pub dictionary: Option<Vec<String>>,
    pub system_prompt: String,
    pub user_prompt_template: String,
}

/// Where and how the user starts a session.
#[derive(Debug, PartialEq)]
pub struct SessionContext {
    pub mode: SessionMode,
    pub frontmost_bundle_id: Option<String>,
    pub frontmost_pid: i32,
}

/// All that a session needs to run, independent of later changes to the core.
#[derive(Debug, PartialEq)]
pub struct SessionPlan {
    pub session_id: String,
    pub mode: SessionMode,
    pub asr_config: AsrConfig,
    pub llm_config: LlmSection,
    pub dictionary: Vec<String>,
    pub dictionary_max_candidates: usize,
    pub system_prompt: String,
    pub user_prompt_template: String,
}

/// The words of a dictionary; none if it could not be read.
pub open spec fn words_of(dictionary: Option<Vec<String>>) -> Seq<String> {
    match dictionary {
        Some(words) => words@,
        None => seq![],
    }
}

impl<R, T, S> Core<R, T, S> {
    /// The core with what was read from disk, and the given words for its dictionary.
    pub open spec fn refreshed(self, loaded: Loaded, words: Vec<String>) -> Self {
        Core {
            config: loaded.config,
            dictionary: words,
            system_prompt: loaded.system_prompt,
            user_prompt_template: loaded.user_prompt_template,
            ..self
        }
    }

    /// The core with what is read from disk when a session begins. It stays as it is if the
    /// settings could not be read, and keeps its dictionary if that could not be read.
    pub open spec fn hot_reloaded(self, loaded: Option<Loaded>) -> Self {
        match loaded {
            Some(loaded) => match loaded.dictionary {
                Some(words) => self.refreshed(loaded, words),
                None => self.refreshed(loaded, self.dictionary),
            },
            None => self,
        }
    }

    /// The core with the given sender of audio, or without one.
    pub open spec fn with_audio(self, audio_tx: Option<T>) -> Self {
        Core { audio_tx, ..self }
    }
}

impl SessionPlan {
    /// Whether a session is planned with the settings of a core.
    pub open spec fn follows<R, T, S>(
        self,
        core: Core<R, T, S>,
        mode: SessionMode,
        session_id: String,
    ) -> bool {
        &&& self.session_id == session_id
        &&& self.mode == mode
        &&& self.asr_config.follows(core.config.asr, core.dictionary@)
        &&& self.llm_config == core.config.llm
        &&& self.dictionary@ == core.dictionary@
        &&& self.dictionary_max_candidates == core.config.llm.dictionary_max_candidates
        &&& self.system_prompt == core.system_prompt
        &&& self.user_prompt_template == core.user_prompt_template
    }
}

/// The settings that could be read, or else the default ones.
pub fn config_or_default(loaded: Option<Config>, default: Config) -> (config: Config)
    ensures
        config == (match loaded {
            Some(config) => config,
            None => default,
        }),
{
    match loaded {
        Some(config) => config,
        None => default,
    }
}

fn words_or_none(dictionary: Option<Vec<String>>) -> (words: Vec<String>)
    ensures
        words@ == words_of(dictionary),
{
    match dictionary {
        Some(words) => words,
        None => Vec::new(),
    }
}

/// Creates the core: 0, or -1 if there is no runtime, and then nothing changes.
pub fn sp_core_create<R, T, S>(
    global: &mut Option<Core<R, T, S>>,
    runtime: Option<R>,
    session: S,
    loaded: Loaded,
) -> (status: i32)
    ensures
        match runtime {
            Some(runtime) => {
                &&& status == 0
                &&& *final(global) matches Some(core) && core.dictionary@ == words_of(
                    loaded.dictionary,
                ) && core.dictionary@ == (match loaded.dictionary {
                    Some(words) => words@,
                    None => Seq::<String>::empty(),
                }) && core == (Core::<R, T, S> {
                    runtime,
                    audio_tx: None,
                    session,
                    config: loaded.config,
                    dictionary: core.dictionary,
                    system_prompt: loaded.system_prompt,
                    user_prompt_template: loaded.user_prompt_template,
                })
            },
            None => status == -1 && *final(global) == *old(global),
        },
{
    match runtime {
        Some(runtime) => {
            *global =
            Some(
                Core {
                    runtime,
                    audio_tx: None,
                    session,
                    config: loaded.config,
                    dictionary: words_or_none(loaded.dictionary),
                    system_prompt: loaded.system_prompt,
                    user_prompt_template: loaded.user_prompt_template,
                },
            );
            0
        },
        None => -1,
    }
}

/// Drops the core.
pub fn sp_core_destroy<R, T, S>(global: &mut Option<Core<R, T, S>>)
    ensures
        *final(global) is None,
{
    *global = None;
}

/// Gives the core what was read from disk: 0, also if there is no core, or -1 if the settings
/// could not be read, and then nothing changes.
pub fn sp_core_reload_config<R, T, S>(
    global: &mut Option<Core<R, T, S>>,
    loaded: Option<Loaded>,
) -> (status: i32)
    ensures
        match loaded {
            Some(loaded) => {
                &&& status == 0
                &&& match (*old(global), *final(global)) {
                    (Some(before), Some(after)) => {
                        &&& after == before.refreshed(loaded, after.dictionary)
                        &&& after.dictionary@ == words_of(loaded.dictionary)
                        &&& after.config == loaded.config
                        &&& after.dictionary@ == (match loaded.dictionary {
                            Some(words) => words@,
                            None => Seq::<String>::empty(),
                        })
                        &&& after.system_prompt == loaded.system_prompt
                        &&& after.user_prompt_template == loaded.user_prompt_template
                        &&& after.runtime == before.runtime
                        &&& after.audio_tx == before.audio_tx
                        &&& after.session == before.session
                    },
                    (None, None) => true,
                    _ => false,
                }
            },
            None => status == -1 && *final(global) == *old(global),
        },
{
    match loaded {
        Some(loaded) => {
            if let Some(core) = global {
                core.config = loaded.config;
                core.dictionary = words_or_none(loaded.dictionary);
                core.system_prompt = loaded.system_prompt;
                core.user_prompt_template = loaded.user_prompt_template;
            }
            0
        },
        None => -1,
    }
}

/// Begins a session, after the core was given what was read from disk: 0, the session, its plan
/// and the receiver of its audio, or -1 if there is no core. `open_audio` opens the queue of the
/// audio, given how many frames it holds; the core keeps the sender.
pub fn sp_core_session_begin<R, T, S, Q, F>(
    global: &mut Option<Core<R, T, S>>,
    context: SessionContext,
    session_id: String,
    open_audio: F,
    loaded: Option<Loaded>,
) -> (begun: (i32, Option<(Session, SessionPlan, Q)>)) where F: FnOnce(usize) -> (T, Q)
    requires
        call_requires(open_audio, (AUDIO_QUEUE_FRAMES,)),
    ensures
        match *old(global) {
            Some(core) => {
                let reloaded = core.hot_reloaded(loaded);
                &&& begun.0 == 0
                &&& audio_target(*final(global)) matches Some(audio_tx)
                &&& *final(global) == Some(reloaded.with_audio(Some(audio_tx)))
                &&& begun.1 matches Some((session, plan, audio_rx))
                &&& call_ensures(open_audio, (AUDIO_QUEUE_FRAMES,), (audio_tx, audio_rx))
                &&& session == Session {
                    id: session_id,
                    mode: context.mode,
                    frontmost_bundle_id: context.frontmost_bundle_id,
                    frontmost_pid: context.frontmost_pid,
                    asr_text: None,
                    corrected_text: None,
                }
                &&& plan.follows(reloaded, context.mode, session_id)
                &&& *final(global) matches Some(after)
                &&& after.runtime == core.runtime
                &&& after.session == core.session
                &&& after.audio_tx == Some(audio_tx)
                &&& after.config == (match loaded {
                    Some(loaded) => loaded.config,
                    None => core.config,
                })
                &&& after.dictionary@ == (match loaded {
                    Some(loaded) => match loaded.dictionary {
                        Some(words) => words@,
                        None => core.dictionary@,
                    },
                    None => core.dictionary@,
                })
                &&& after.system_prompt == (match loaded {
                    Some(loaded) => loaded.system_prompt,
                    None => core.system_prompt,
                })
                &&& after.user_prompt_template == (match loaded {
                    Some(loaded) => loaded.user_prompt_template,
                    None => core.user_prompt_template,
                })
                &&& plan.session_id == session_id
                &&& plan.mode == context.mode
                &&& plan.asr_config.url == after.config.asr.url
                &&& plan.asr_config.app_key == after.config.asr.app_key
                &&& plan.asr_config.access_key == after.config.asr.access_key
                &&& plan.asr_config.resource_id == after.config.asr.resource_id
                &&& plan.asr_config.connect_timeout_ms == after.config.asr.connect_timeout_ms
                &&& plan.asr_config.final_wait_timeout_ms == after.config.asr.final_wait_timeout_ms
                &&& plan.asr_config.enable_ddc == after.config.asr.enable_ddc
                &&& plan.asr_config.enable_itn == after.config.asr.enable_itn
                &&& plan.asr_config.enable_punc == after.config.asr.enable_punc
                &&& plan.asr_config.enable_nonstream == after.config.asr.enable_nonstream
                &&& plan.asr_config.sample_rate_hz == 16000
                &&& plan.asr_config.hotwords@ == after.dictionary@
                &&& plan.llm_config == after.config.llm
                &&& plan.dictionary@ == after.dictionary@
                &&& plan.dictionary_max_candidates == after.config.llm.dictionary_max_candidates
                &&& plan.system_prompt == after.system_prompt
                &&& plan.user_prompt_template == after.user_prompt_template
            },
            None => begun.0 == -1 && begun.1 is None && *final(global) is None,
        },
{
    if let Some(core) = global {
        if let Some(loaded) = loaded {
            if let Some(words) = loaded.dictionary {
                core.dictionary = words;
            }
            core.system_prompt = loaded.system_prompt;
            core.user_prompt_template = loaded.user_prompt_template;
            core.config = loaded.config;
        }
        let session = Session::new(
            session_id.clone(),
            context.mode,
            context.frontmost_bundle_id,
            context.frontmost_pid,
        );
        let (audio_tx, audio_rx) = open_audio(AUDIO_QUEUE_FRAMES);
        core.audio_tx = Some(audio_tx);
        let plan = SessionPlan {
            session_id,
            mode: context.mode,
            asr_config: AsrConfig::new(&core.config.asr, &core.dictionary),
            llm_config: core.config.llm.clone(),
            dictionary: copy_words(&core.dictionary),
            dictionary_max_candidates: core.config.llm.dictionary_max_candidates,
            system_prompt: core.system_prompt.clone(),
            user_prompt_template: core.user_prompt_template.clone(),
        };
        (0, Some((session, plan, audio_rx)))
    } else {
        (-1, None)
    }
}

/// Takes a frame of audio: -1 if there is none or it is empty, else 0. A frame is to be sent if
/// the core has a sender of audio; it is returned with the sender.
pub fn sp_core_push_audio<'a, R, T, S>(
    global: &'a Option<Core<R, T, S>>,
    frame: Option<&[u8]>,
) -> (taken: (i32, Option<(&'a T, Vec<u8>)>))
    ensures
        match frame {
            Some(frame) => if frame@.len() > 0 {
                &&& taken.0 == 0
                &&& match audio_target(*global) {
                    Some(tx) => taken.1 matches Some((to, data)) && *to == tx && data@ == frame@,
                    None => taken.1 is None,
                }
                &&& match (*global, taken.1) {
                    (Some(core), Some((to, data))) => core.audio_tx == Some(*to) && data@ == frame@,
                    (Some(core), None) => core.audio_tx is None,
                    (None, sent) => sent is None,
                }
            } else {
                taken.0 == -1 && taken.1 is None
            },
            None => taken.0 == -1 && taken.1 is None,
        },
{
    match frame {
        Some(frame) => {
            if frame.len() == 0 {
                return (-1, None);
            }
            if let Some(core) = global {
                if let Some(tx) = &core.audio_tx {
                    return (0, Some((tx, slice_to_vec(frame))));
                }
            }
            (0, None)
        },
        None => (-1, None),
    }
}

/// The sender of audio to the current session, if there is one.
pub open spec fn audio_target<R, T, S>(global: Option<Core<R, T, S>>) -> Option<T> {
    match global {
        Some(core) => core.audio_tx,
        None => None,
    }
}

/// Ends the current session, if there is one: its sender of audio is dropped.
pub fn sp_core_session_end<R, T, S>(global: &mut Option<Core<R, T, S>>) -> (status: i32)
    ensures
        status == 0,
        *final(global) == (match *old(global) {
            Some(core) => Some(core.with_audio(None)),
            None => None,
        }),
        match (*old(global), *final(global)) {
            (Some(before), Some(after)) => {
                &&& after.audio_tx is None
                &&& after.runtime == before.runtime
                &&& after.session == before.session
                &&& after.config == before.config
                &&& after.dictionary == before.dictionary
                &&& after.system_prompt == before.system_prompt
                &&& after.user_prompt_template == before.user_prompt_template
            },
            (None, None) => true,
            _ => false,
        },
{
    if let Some(core) = global {
        core.audio_tx = None;
    }
    0
}

/// Which sounds are played: those of the settings, or every sound without a core.
pub fn sp_core_get_feedback_config<R, T, S>(global: &Option<Core<R, T, S>>) -> (feedback:
    FeedbackSection)
    ensures
        feedback == (match *global {
            Some(core) => core.config.feedback,
            None => FeedbackSection::unset(),
        }),
        *global is None ==> feedback.start_sound && feedback.stop_sound && feedback.error_sound,
{
    match global {
        Some(core) => core.config.feedback,
        None => FeedbackSection { start_sound: true, stop_sound: true, error_sound: true },
    }
}

/// The hotkey of the settings, or the Fn key without a core.
pub fn sp_core_get_hotkey_config<R, T, S>(global: &Option<Core<R, T, S>>) -> (hotkey: HotkeyParams)
    ensures
        hotkey == (match *global {
            Some(core) => core.config.hotkey,
            None => HotkeyParams::unset(),
        }),
        *global is None ==> hotkey.key_code == 63 && hotkey.alt_key_code == 179
            && hotkey.modifier_flag == 0x0080_0000,
{
    match global {
        Some(core) => core.config.hotkey,
        None => HotkeyParams { key_code: 63, alt_key_code: 179, modifier_flag: 0x0080_0000 },
    }
}

/// Settings that are reloaded take effect on the next session: where that finds nothing newer on
/// disk, it runs with them. What the current session uses is not touched.
pub proof fn reloads_take_effect_on_the_next_session<R, T, S>(
    core: Core<R, T, S>,
    loaded: Loaded,
    words: Vec<String>,
    plan: SessionPlan,
    mode: SessionMode,
    session_id: String,
)
    requires
        words@ == words_of(loaded.dictionary),
        plan.follows(core.refreshed(loaded, words).hot_reloaded(None), mode, session_id),
    ensures
        plan.asr_config.follows(loaded.config.asr, words@),
        plan.llm_config == loaded.config.llm,
        plan.dictionary@ == words_of(loaded.dictionary),
        plan.system_prompt == loaded.system_prompt,
        plan.user_prompt_template == loaded.user_prompt_template,
        core.refreshed(loaded, words).runtime == core.runtime,
        core.refreshed(loaded, words).audio_tx == core.audio_tx,
        core.refreshed(loaded, words).session == core.session,
{
}

/// A session runs with what is on disk when it begins, whatever the core held before. Where only
/// the dictionary could not be read, the one that the core held is kept.
pub proof fn sessions_begin_with_what_is_on_disk<R, T, S>(
    core: Core<R, T, S>,
    loaded: Loaded,
    plan: SessionPlan,
    mode: SessionMode,
    session_id: String,
)
    requires
        plan.follows(core.hot_reloaded(Some(loaded)), mode, session_id),
    ensures
        plan.llm_config == loaded.config.llm,
        plan.dictionary_max_candidates == loaded.config.llm.dictionary_max_candidates,
        plan.system_prompt == loaded.system_prompt,
        plan.user_prompt_template == loaded.user_prompt_template,
        plan.dictionary@ == (match loaded.dictionary {
            Some(words) => words@,
            None => core.dictionary@,
        }),
        plan.asr_config.follows(loaded.config.asr, plan.dictionary@),
{
}

/// A session that has begun is sent audio by its own sender, until it is ended; after that no
/// audio is sent, until another session begins.
pub proof fn audio_goes_to_the_current_session<R, T, S>(
    core: Core<R, T, S>,
    loaded: Option<Loaded>,
    audio_tx: T,
)
    ensures
        audio_target(Some(core.hot_reloaded(loaded).with_audio(Some(audio_tx)))) == Some(audio_tx),
        audio_target(Some(core.with_audio(None))) is None,
        core.with_audio(Some(audio_tx)).with_audio(None) == core.with_audio(None),
{
}

/// A reload replaces all settings as a whole, the dictionary and the prompts, and nothing of the
/// old ones is left: two cores that are given the same have the same afterwards, whatever they
/// held. Each keeps its own runtime, audio and session.
pub proof fn reloads_replace_everything_that_is_read<R, T, S>(
    core: Core<R, T, S>,
    other: Core<R, T, S>,
    loaded: Loaded,
    words: Vec<String>,
)
    ensures
        core.refreshed(loaded, words).config == loaded.config,
        core.refreshed(loaded, words).config.asr == loaded.config.asr,
        core.refreshed(loaded, words).config.llm == loaded.config.llm,
        core.refreshed(loaded, words).config.feedback == loaded.config.feedback,
        core.refreshed(loaded, words).config.hotkey == loaded.config.hotkey,
        core.refreshed(loaded, words).dictionary == words,
        core.refreshed(loaded, words).system_prompt == loaded.system_prompt,
        core.refreshed(loaded, words).user_prompt_template == loaded.user_prompt_template,
        core.refreshed(loaded, words) == (Core {
            runtime: core.runtime,
            audio_tx: core.audio_tx,
            session: core.session,
            ..other.refreshed(loaded, words)
        }),
        core.refreshed(loaded, words).refreshed(loaded, words) == core.refreshed(loaded, words),
{
}

/// The hotkey and the sounds that the user interface is told after a reload are those that were
/// read, whatever they were before.
pub proof fn reloads_reach_the_user_interface<R, T, S>(
    core: Core<R, T, S>,
    loaded: Loaded,
    words: Vec<String>,
    hotkey: HotkeyParams,
    feedback: FeedbackSection,
)
    requires
        call_ensures(
            sp_core_get_hotkey_config::<R, T, S>,
            (&Some(core.refreshed(loaded, words)),),
            hotkey,
        ),
        call_ensures(
            sp_core_get_feedback_config::<R, T, S>,
            (&Some(core.refreshed(loaded, words)),),
            feedback,
        ),
    ensures
        hotkey.key_code == loaded.config.hotkey.key_code,
        hotkey.alt_key_code == loaded.config.hotkey.alt_key_code,
        hotkey.modifier_flag == loaded.config.hotkey.modifier_flag,
        feedback.start_sound == loaded.config.feedback.start_sound,
        feedback.stop_sound == loaded.config.feedback.stop_sound,
        feedback.error_sound == loaded.config.feedback.error_sound,
{
}

/// The hotkey and the sounds that the user interface is told once a session has begun are those
/// that were read from disk for it; where nothing could be read, they are the old ones.
pub proof fn beginning_sessions_reach_the_user_interface<R, T, S>(
    core: Core<R, T, S>,
    loaded: Option<Loaded>,
    audio_tx: T,
    hotkey: HotkeyParams,
    feedback: FeedbackSection,
)
    requires
        call_ensures(
            sp_core_get_hotkey_config::<R, T, S>,
            (&Some(core.hot_reloaded(loaded).with_audio(Some(audio_tx))),),
            hotkey,
        ),
        call_ensures(
            sp_core_get_feedback_config::<R, T, S>,
            (&Some(core.hot_reloaded(loaded).with_audio(Some(audio_tx))),),
            feedback,
        ),
    ensures
        hotkey == (if loaded is Some {
            loaded->0.config.hotkey
        } else {
            core.config.hotkey
        }),
        feedback == (if loaded is Some {
            loaded->0.config.feedback
        } else {
            core.config.feedback
        }),
{
}

/// Of what could be read from disk when a session begins, nothing of the old is left in the core;
/// of what could not, all is.
pub proof fn beginning_sessions_replace_what_could_be_read<R, T, S>(
    core: Core<R, T, S>,
    other: Core<R, T, S>,
    loaded: Loaded,
)
    ensures
        core.hot_reloaded(None) == core,
        core.hot_reloaded(Some(loaded)).config == loaded.config,
        core.hot_reloaded(Some(loaded)).config == other.hot_reloaded(Some(loaded)).config,
        core.hot_reloaded(Some(loaded)).system_prompt == loaded.system_prompt,
        core.hot_reloaded(Some(loaded)).user_prompt_template == loaded.user_prompt_template,
        loaded.dictionary matches Some(words) ==> core.hot_reloaded(Some(loaded)).dictionary
            == words,
        loaded.dictionary is None ==> core.hot_reloaded(Some(loaded)).dictionary == core.dictionary,
        core.hot_reloaded(Some(loaded)).runtime == core.runtime,
        core.hot_reloaded(Some(loaded)).audio_tx == core.audio_tx,
        core.hot_reloaded(Some(loaded)).session == core.session,
{
}

/// A session is planned with each setting of the core under the name that it has there, and with
/// nothing else: two plans of one core for one session say the same.
pub proof fn plans_take_each_setting_by_its_name<R, T, S>(
    core: Core<R, T, S>,
    mode: SessionMode,
    session_id: String,
    plan: SessionPlan,
    other: SessionPlan,
)
    requires
        plan.follows(core, mode, session_id),
        other.follows(core, mode, session_id),
    ensures
        plan.session_id == session_id,
        plan.mode == mode,
        plan.asr_config.url == core.config.asr.url,
        plan.asr_config.app_key == core.config.asr.app_key,
        plan.asr_config.access_key == core.config.asr.access_key,
        plan.asr_config.resource_id == core.config.asr.resource_id,
        plan.asr_config.connect_timeout_ms == core.config.asr.connect_timeout_ms,
        plan.asr_config.final_wait_timeout_ms == core.config.asr.final_wait_timeout_ms,
        plan.asr_config.enable_ddc == core.config.asr.enable_ddc,
        plan.asr_config.enable_itn == core.config.asr.enable_itn,
        plan.asr_config.enable_punc == core.config.asr.enable_punc,
        plan.asr_config.enable_nonstream == core.config.asr.enable_nonstream,
        plan.asr_config.sample_rate_hz == 16000,
        plan.asr_config.hotwords@ == core.dictionary@,
        plan.llm_config.base_url == core.config.llm.base_url,
        plan.llm_config.api_key == core.config.llm.api_key,
        plan.llm_config.model == core.config.llm.model,
        plan.llm_config.temperature == core.config.llm.temperature,
        plan.llm_config.top_p == core.config.llm.top_p,
        plan.llm_config.max_output_tokens == core.config.llm.max_output_tokens,
        plan.llm_config.timeout_ms == core.config.llm.timeout_ms,
        plan.llm_config.dictionary_max_candidates == core.config.llm.dictionary_max_candidates,
        plan.dictionary@ == core.dictionary@,
        plan.dictionary_max_candidates == core.config.llm.dictionary_max_candidates,
        plan.system_prompt == core.system_prompt,
        plan.user_prompt_template == core.user_prompt_template,
        plan == (SessionPlan {
            asr_config: AsrConfig { hotwords: plan.asr_config.hotwords, ..other.asr_config },
            dictionary: plan.dictionary,
            ..other
        }),
{
}

/// Audio that is pushed goes, whole and unchanged, to the sender of the session that has begun
/// last, and nowhere after that session was ended. What else the core holds does not matter.
pub proof fn pushed_audio_goes_to_the_session_that_runs<R, T, S>(
    core: Core<R, T, S>,
    loaded: Option<Loaded>,
    audio_tx: T,
    frame: &[u8],
    running: (i32, Option<(&T, Vec<u8>)>),
    ended: (i32, Option<(&T, Vec<u8>)>),
)
    requires
        frame@.len() > 0,
        call_ensures(
            sp_core_push_audio::<R, T, S>,
            (&Some(core.hot_reloaded(loaded).with_audio(Some(audio_tx))), Some(frame)),
            running,
        ),
        call_ensures(
            sp_core_push_audio::<R, T, S>,
            (&Some(core.with_audio(None)), Some(frame)),
            ended,
        ),
    ensures
        running.0 == 0,
        running.1 matches Some((to, data)) && *to == audio_tx && data@ == frame@,
        ended.0 == 0,
        ended.1 is None,
{
}

/// To end a session changes nothing of the core but its sender of audio.
pub proof fn ended_sessions_leave_the_settings<R, T, S>(
    core: Core<R, T, S>,
    audio_tx: Option<T>,
)
    ensures
        core.with_audio(audio_tx).audio_tx == audio_tx,
        core.with_audio(audio_tx).runtime == core.runtime,
        core.with_audio(audio_tx).session == core.session,
        core.with_audio(audio_tx).config == core.config,
        core.with_audio(audio_tx).dictionary == core.dictionary,
        core.with_audio(audio_tx).system_prompt == core.system_prompt,
        core.with_audio(audio_tx).user_prompt_template == core.user_prompt_template,
{
}

/// A core is created with what was read, and the user interface is told the hotkey and the sounds
/// of that. Without a runtime nothing is created, and a core that is there stays.
pub proof fn created_cores_hold_what_was_read<R, T, S>(
    global: &mut Option<Core<R, T, S>>,
    runtime: Option<R>,
    session: S,
    loaded: Loaded,
    status: i32,
    hotkey: HotkeyParams,
    feedback: FeedbackSection,
)
    requires
        call_ensures(
            sp_core_create::<R, T, S>,
            (global, runtime, session, loaded),
            status,
        ),
        call_ensures(sp_core_get_hotkey_config::<R, T, S>, (final(global),), hotkey),
        call_ensures(sp_core_get_feedback_config::<R, T, S>, (final(global),), feedback),
    ensures
        runtime is None ==> status == -1 && *final(global) == *old(global),
        runtime matches Some(runtime) ==> {
            &&& status == 0
            &&& *final(global) is Some
            &&& (*final(global))->0.runtime == runtime
            &&& (*final(global))->0.session == session
            &&& (*final(global))->0.audio_tx is None
            &&& (*final(global))->0.config == loaded.config
            &&& loaded.dictionary matches Some(words) ==> (*final(global))->0.dictionary@ == words@
            &&& loaded.dictionary is None ==> (*final(global))->0.dictionary@.len() == 0
            &&& (*final(global))->0.system_prompt == loaded.system_prompt
            &&& (*final(global))->0.user_prompt_template == loaded.user_prompt_template
            &&& hotkey == loaded.config.hotkey
            &&& feedback == loaded.config.feedback
        },
{
}

/// Once the core is dropped, the user interface is told the Fn key and every sound, no session
/// begins and no audio is sent, whatever the core held.
pub proof fn dropped_cores_leave_nothing<R, T, S, Q, F: FnOnce(usize) -> (T, Q)>(
    global: &mut Option<Core<R, T, S>>,
    hotkey: HotkeyParams,
    feedback: FeedbackSection,
    frame: Option<&[u8]>,
    taken: (i32, Option<(&T, Vec<u8>)>),
    later: &mut Option<Core<R, T, S>>,
    context: SessionContext,
    session_id: String,
    open_audio: F,
    loaded: Option<Loaded>,
    begun: (i32, Option<(Session, SessionPlan, Q)>),
)
    requires
        call_ensures(sp_core_destroy::<R, T, S>, (global,), ()),
        call_ensures(sp_core_get_hotkey_config::<R, T, S>, (final(global),), hotkey),
        call_ensures(sp_core_get_feedback_config::<R, T, S>, (final(global),), feedback),
        call_ensures(sp_core_push_audio::<R, T, S>, (final(global), frame), taken),
        *old(later) == *final(global),
        call_ensures(
            sp_core_session_begin::<R, T, S, Q, F>,
            (later, context, session_id, open_audio, loaded),
            begun,
        ),
    ensures
        *final(global) is None,
        hotkey.key_code == 63 && hotkey.alt_key_code == 179 && hotkey.modifier_flag == 0x0080_0000,
        feedback.start_sound && feedback.stop_sound && feedback.error_sound,
        taken.1 is None,
        taken.0 == (if frame is Some && frame->0@.len() > 0 {
            0int
        } else {
            -1
        }),
        begun.0 == -1,
        begun.1 is None,
        *final(later) is None,
{
}

/// After a reload the core holds the settings that were read, as a whole, and the user interface is
/// told the hotkey and the sounds of those. The running session is not touched. Where the settings
/// could not be read, all stays.
pub proof fn reloaded_cores_hold_what_was_read<R, T, S>(
    global: &mut Option<Core<R, T, S>>,
    loaded: Option<Loaded>,
    status: i32,
    hotkey: HotkeyParams,
    feedback: FeedbackSection,
)
    requires
        call_ensures(sp_core_reload_config::<R, T, S>, (global, loaded), status),
        call_ensures(sp_core_get_hotkey_config::<R, T, S>, (final(global),), hotkey),
        call_ensures(sp_core_get_feedback_config::<R, T, S>, (final(global),), feedback),
    ensures
        loaded is None ==> status == -1 && *final(global) == *old(global),
        loaded is Some ==> status == 0,
        *old(global) is None ==> *final(global) is None,
        *old(global) matches Some(before) ==> loaded matches Some(loaded) ==> {
            &&& *final(global) is Some
            &&& (*final(global))->0.config == loaded.config
            &&& loaded.dictionary matches Some(words) ==> (*final(global))->0.dictionary@ == words@
            &&& loaded.dictionary is None ==> (*final(global))->0.dictionary@.len() == 0
            &&& (*final(global))->0.system_prompt == loaded.system_prompt
            &&& (*final(global))->0.user_prompt_template == loaded.user_prompt_template
            &&& (*final(global))->0.runtime == before.runtime
            &&& (*final(global))->0.audio_tx == before.audio_tx
            &&& (*final(global))->0.session == before.session
            &&& hotkey == loaded.config.hotkey
            &&& feedback == loaded.config.feedback
        },
{
}

/// A session that begins is planned with each setting of the core as it then is, under the name
/// that it has there: the settings that were read from disk, or else those that the core held. The
/// session itself knows where it was started, and the core goes on with the same settings.
pub proof fn begun_sessions_take_each_setting_by_its_name<
    R,
    T,
    S,
    Q,
    F: FnOnce(usize) -> (T, Q),
>(
    global: &mut Option<Core<R, T, S>>,
    context: SessionContext,
    session_id: String,
    open_audio: F,
    loaded: Option<Loaded>,
    session: Session,
    plan: SessionPlan,
    audio_rx: Q,
    status: i32,
)
    requires
        *old(global) is Some,
        call_ensures(
            sp_core_session_begin::<R, T, S, Q, F>,
            (global, context, session_id, open_audio, loaded),
            (status, Some((session, plan, audio_rx))),
        ),
    ensures
        ({
            let before = (*old(global))->0;
            let config = if loaded is Some {
                loaded->0.config
            } else {
                before.config
            };
            &&& status == 0
            &&& *final(global) is Some
            &&& (*final(global))->0.config == config
            &&& (*final(global))->0.runtime == before.runtime
            &&& (*final(global))->0.session == before.session
            &&& plan.asr_config.url == config.asr.url
            &&& plan.asr_config.app_key == config.asr.app_key
            &&& plan.asr_config.access_key == config.asr.access_key
            &&& plan.asr_config.resource_id == config.asr.resource_id
            &&& plan.asr_config.connect_timeout_ms == config.asr.connect_timeout_ms
            &&& plan.asr_config.final_wait_timeout_ms == config.asr.final_wait_timeout_ms
            &&& plan.asr_config.enable_ddc == config.asr.enable_ddc
            &&& plan.asr_config.enable_itn == config.asr.enable_itn
            &&& plan.asr_config.enable_punc == config.asr.enable_punc
            &&& plan.asr_config.enable_nonstream == config.asr.enable_nonstream
            &&& plan.asr_config.sample_rate_hz == 16000
            &&& plan.asr_config.hotwords@ == plan.dictionary@
            &&& plan.llm_config == config.llm
            &&& plan.dictionary_max_candidates == config.llm.dictionary_max_candidates
            &&& plan.dictionary@ == (if loaded is Some && loaded->0.dictionary is Some {
                loaded->0.dictionary->0@
            } else {
                before.dictionary@
            })
            &&& (*final(global))->0.dictionary@ == plan.dictionary@
            &&& plan.system_prompt == (if loaded is Some {
                loaded->0.system_prompt
            } else {
                before.system_prompt
            })
            &&& (*final(global))->0.system_prompt == plan.system_prompt
            &&& plan.user_prompt_template == (if loaded is Some {
                loaded->0.user_prompt_template
            } else {
                before.user_prompt_template
            })
            &&& (*final(global))->0.user_prompt_template == plan.user_prompt_template
            &&& plan.session_id == session_id && session.id == session_id
            &&& plan.mode == context.mode && session.mode == context.mode
            &&& session.frontmost_bundle_id == context.frontmost_bundle_id
            &&& session.frontmost_pid == context.frontmost_pid
            &&& session.asr_text is None && session.corrected_text is None
        }),
{
}

/// Audio reaches a session from its beginning to its end: what is pushed in between goes,
/// unchanged, to the sender of the queue that was opened for it, and what is pushed after its end
/// goes nowhere. Its end changes nothing else of the core.
pub proof fn audio_reaches_a_session_until_it_ends<R, T, S, Q, F: FnOnce(usize) -> (T, Q)>(
    global: &mut Option<Core<R, T, S>>,
    context: SessionContext,
    session_id: String,
    open_audio: F,
    loaded: Option<Loaded>,
    begun: (i32, Option<(Session, SessionPlan, Q)>),
    frame: &[u8],
    running: (i32, Option<(&T, Vec<u8>)>),
    later: &mut Option<Core<R, T, S>>,
    status: i32,
    ended: (i32, Option<(&T, Vec<u8>)>),
)
    requires
        *old(global) is Some,
        frame@.len() > 0,
        call_ensures(
            sp_core_session_begin::<R, T, S, Q, F>,
            (global, context, session_id, open_audio, loaded),
            begun,
        ),
        call_ensures(sp_core_push_audio::<R, T, S>, (final(global), Some(frame)), running),
        *old(later) == *final(global),
        call_ensures(sp_core_session_end::<R, T, S>, (later,), status),
        call_ensures(sp_core_push_audio::<R, T, S>, (final(later), Some(frame)), ended),
    ensures
        begun.0 == 0 && running.0 == 0 && status == 0 && ended.0 == 0,
        begun.1 matches Some((_, _, audio_rx)) && running.1 matches Some((to, data)) && data@
            == frame@ && call_ensures(open_audio, (1024usize,), (*to, audio_rx)),
        ended.1 is None,
        *final(later) matches Some(core) && *final(global) matches Some(before) && core == (Core {
            audio_tx: None,
            ..before
        }),
{
}

/// Settings that could be read are taken, and the default ones only where they could not.
pub proof fn defaults_stand_in_only_for_what_is_missing(
    loaded: Option<Config>,
    default: Config,
    config: Config,
)
    requires
        call_ensures(config_or_default, (loaded, default), config),
    ensures
        loaded is Some ==> loaded == Some(config),
        loaded is None ==> config == default,
{
}

} // verus!
