//! Settings.

use crate::double::Double;
use vstd::prelude::*;

verus! {

/// Settings of the speech recognizer.
#[derive(Debug, PartialEq)]
pub struct AsrSection {
    pub url: String,
    pub app_key: String,
    pub access_key: String,
    pub resource_id: String,
    pub connect_timeout_ms: u64,
    pub final_wait_timeout_ms: u64,
    pub enable_ddc: bool,
    pub enable_itn: bool,
    pub enable_punc: bool,
    pub enable_nonstream: bool,
}

/// Settings of the language model.
#[derive(Debug, PartialEq)]
pub struct LlmSection {
    pub base_url: String,
    pub api_key: String,
    pub model: String,
    pub temperature: Double,
    pub top_p: Double,
    pub max_output_tokens: u32,
    pub timeout_ms: u64,
    pub dictionary_max_candidates: usize,
}

/// Which sounds are played.
#[derive(Debug, Clone, Copy, PartialEq, Eq, Structural)]
pub struct FeedbackSection {
    pub start_sound: bool,
    pub stop_sound: bool,
    pub error_sound: bool,
}

/// The key that starts and ends a recording, by its key codes and its modifier flag.
#[derive(Debug, Clone, Copy, PartialEq, Eq, Structural)]
pub struct HotkeyParams {
    pub key_code: u16,
    pub alt_key_code: u16,
    pub modifier_flag: u64,
}

/// All settings.
#[derive(Debug, PartialEq)]
pub struct Config {
    pub asr: AsrSection,
    pub llm: LlmSection,
    pub feedback: FeedbackSection,
    pub hotkey: HotkeyParams,
}

impl FeedbackSection {
    /// The feedback without settings: every sound.
    pub open spec fn unset() -> FeedbackSection {
        FeedbackSection { start_sound: true, stop_sound: true, error_sound: true }
    }
}

impl HotkeyParams {
    /// The hotkey without settings: the Fn key.
    pub open spec fn unset() -> HotkeyParams {
        HotkeyParams { key_code: 63, alt_key_code: 179, modifier_flag: 0x0080_0000 }
    }
}

/// The rate at which audio is sampled.
pub const SAMPLE_RATE_HZ: u32 = 16000;

impl LlmSection {
    /// Whether a language model is configured: it has an address and a key.
    pub open spec fn configured(self) -> bool {
        self.base_url@.len() > 0 && self.api_key@.len() > 0
    }

    /// Tells whether a language model is configured.
    pub fn is_configured(&self) -> (yes: bool)
        ensures
            yes == self.configured(),
            yes <==> self.base_url@.len() > 0 && self.api_key@.len() > 0,
    {
        !self.base_url.as_str().is_empty() && !self.api_key.as_str().is_empty()
    }
}

impl Clone for LlmSection {
    fn clone(&self) -> (copy: Self)
        ensures
            copy == *self,
            copy.base_url@ == self.base_url@,
            copy.api_key@ == self.api_key@,
            copy.model@ == self.model@,
            copy.temperature == self.temperature,
            copy.top_p == self.top_p,
            copy.max_output_tokens == self.max_output_tokens,
            copy.timeout_ms == self.timeout_ms,
            copy.dictionary_max_candidates == self.dictionary_max_candidates,
    {
        LlmSection {
            base_url: self.base_url.clone(),
            api_key: self.api_key.clone(),
            model: self.model.clone(),
            temperature: self.temperature,
            top_p: self.top_p,
            max_output_tokens: self.max_output_tokens,
            timeout_ms: self.timeout_ms,
            dictionary_max_candidates: self.dictionary_max_candidates,
        }
    }
}

/// What a speech recognizer is told for one session.
#[derive(Debug, PartialEq)]
pub struct AsrConfig {
    pub url: String,
    pub app_key: String,
    pub access_key: String,
    pub resource_id: String,
    pub sample_rate_hz: u32,
    pub connect_timeout_ms: u64,
    pub final_wait_timeout_ms: u64,
    pub enable_ddc: bool,
    pub enable_itn: bool,
    pub enable_punc: bool,
    pub enable_nonstream: bool,
    pub hotwords: Vec<String>,
}

impl AsrConfig {
    /// Whether a speech recognizer is told the given settings, with the dictionary as hot words.
    pub open spec fn follows(self, section: AsrSection, dictionary: Seq<String>) -> bool {
        self == AsrConfig {
            url: section.url,
            app_key: section.app_key,
            access_key: section.access_key,
            resource_id: section.resource_id,
            sample_rate_hz: SAMPLE_RATE_HZ,
            connect_timeout_ms: section.connect_timeout_ms,
            final_wait_timeout_ms: section.final_wait_timeout_ms,
            enable_ddc: section.enable_ddc,
            enable_itn: section.enable_itn,
            enable_punc: section.enable_punc,
            enable_nonstream: section.enable_nonstream,
            hotwords: self.hotwords,
        } && self.hotwords@ == dictionary
    }

    /// What a speech recognizer is told by the given settings, with the dictionary as hot words.
    pub fn new(section: &AsrSection, dictionary: &Vec<String>) -> (config: AsrConfig)
        ensures
            config.follows(*section, dictionary@),
            config.url == section.url,
            config.app_key == section.app_key,
            config.access_key == section.access_key,
            config.resource_id == section.resource_id,
            config.connect_timeout_ms == section.connect_timeout_ms,
            config.final_wait_timeout_ms == section.final_wait_timeout_ms,
            config.enable_ddc == section.enable_ddc,
            config.enable_itn == section.enable_itn,
            config.enable_punc == section.enable_punc,
            config.enable_nonstream == section.enable_nonstream,
            config.sample_rate_hz == 16000,
            config.hotwords@ == dictionary@,
    {
        AsrConfig {
            url: section.url.clone(),
            app_key: section.app_key.clone(),
            access_key: section.access_key.clone(),
            resource_id: section.resource_id.clone(),
            sample_rate_hz: SAMPLE_RATE_HZ,
            connect_timeout_ms: section.connect_timeout_ms,
            final_wait_timeout_ms: section.final_wait_timeout_ms,
            enable_ddc: section.enable_ddc,
            enable_itn: section.enable_itn,
            enable_punc: section.enable_punc,
            enable_nonstream: section.enable_nonstream,
            hotwords: copy_words(dictionary),
        }
    }
}

/// Each setting of a speech recognizer is the setting of the same name, and no other.
pub proof fn recognizers_are_told_each_setting_by_its_name(
    section: AsrSection,
    dictionary: Vec<String>,
    config: AsrConfig,
)
    requires
        call_ensures(AsrConfig::new, (&section, &dictionary), config),
    ensures
        config.url == section.url,
        config.app_key == section.app_key,
        config.access_key == section.access_key,
        config.resource_id == section.resource_id,
        config.connect_timeout_ms == section.connect_timeout_ms,
        config.final_wait_timeout_ms == section.final_wait_timeout_ms,
        config.enable_ddc == section.enable_ddc,
        config.enable_itn == section.enable_itn,
        config.enable_punc == section.enable_punc,
        config.enable_nonstream == section.enable_nonstream,
        config.sample_rate_hz == 16000,
        config.hotwords@ == dictionary@,
{
}

/// What a speech recognizer is told follows the settings in each of them: where two sections have
/// the same recognizer told the same, they are the same.
pub proof fn no_setting_of_a_recognizer_is_lost(
    section: AsrSection,
    other: AsrSection,
    dictionary: Seq<String>,
    config: AsrConfig,
)
    requires
        config.follows(section, dictionary),
        config.follows(other, dictionary),
    ensures
        section == other,
        config.url == section.url,
        config.app_key == section.app_key,
        config.access_key == section.access_key,
        config.resource_id == section.resource_id,
        config.connect_timeout_ms == section.connect_timeout_ms,
        config.final_wait_timeout_ms == section.final_wait_timeout_ms,
        config.enable_ddc == section.enable_ddc,
        config.enable_itn == section.enable_itn,
        config.enable_punc == section.enable_punc,
        config.enable_nonstream == section.enable_nonstream,
        config.hotwords@ == dictionary,
{
}

/// Whether a language model is configured depends on its address and its key alone, and on them
/// only by whether they are empty.
pub proof fn models_are_configured_by_address_and_key(llm: LlmSection, other: LlmSection)
    ensures
        llm.configured() <==> llm.base_url@.len() > 0 && llm.api_key@.len() > 0,
        (llm.base_url@.len() == 0 <==> other.base_url@.len() == 0) && (llm.api_key@.len() == 0
            <==> other.api_key@.len() == 0) ==> llm.configured() == other.configured(),
{
}

/// A copy of a list of words.
pub fn copy_words(words: &Vec<String>) -> (copy: Vec<String>)
    ensures
        copy@ == words@,
{
    let copy = words.clone();
    assert(copy@ =~= words@);
    copy
}

} // verus!
