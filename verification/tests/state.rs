use koe_core::config::{AsrSection, Config, FeedbackSection, HotkeyParams, LlmSection};
use koe_core::double::Double;
use koe_core::session::{
    cleanup_session, store_asr_text, store_corrected_text, Session, SessionMode,
};
use koe_core::state::{
    config_or_default, sp_core_create, sp_core_destroy, sp_core_get_feedback_config,
    sp_core_get_hotkey_config, sp_core_push_audio, sp_core_reload_config, sp_core_session_begin,
    sp_core_session_end, Core, Loaded, SessionContext,
};

type Global = Option<Core<&'static str, u32, char>>;

fn config(tag: &str) -> Config {
    Config {
        asr: AsrSection {
            url: format!("wss://{tag}"),
            app_key: "app".to_string(),
            access_key: "access".to_string(),
            resource_id: "resource".to_string(),
            connect_timeout_ms: 3000,
            final_wait_timeout_ms: 5000,
            enable_ddc: true,
            enable_itn: false,
            enable_punc: true,
            enable_nonstream: false,
        },
        llm: LlmSection {
            base_url: format!("https://{tag}"),
            api_key: "key".to_string(),
            model: "model".to_string(),
            temperature: Double { bits: 0.25f64.to_bits() },
            top_p: Double { bits: 1.0f64.to_bits() },
            max_output_tokens: 1024,
            timeout_ms: 8000,
            dictionary_max_candidates: 20,
        },
        feedback: FeedbackSection { start_sound: false, stop_sound: true, error_sound: false },
        hotkey: HotkeyParams { key_code: 58, alt_key_code: 0, modifier_flag: 0x80000 },
    }
}

fn words(list: &[&str]) -> Vec<String> {
    list.iter().map(|word| word.to_string()).collect()
}

fn loaded(tag: &str, dictionary: Option<Vec<String>>) -> Loaded {
    Loaded {
        config: config(tag),
        dictionary,
        system_prompt: format!("system {tag}"),
        user_prompt_template: format!("user {tag}"),
    }
}

fn context() -> SessionContext {
    SessionContext {
        mode: SessionMode::Hold,
        frontmost_bundle_id: Some("com.example".to_string()),
        frontmost_pid: 77,
    }
}

fn queue(audio_tx: u32) -> impl FnOnce(usize) -> (u32, usize) {
    move |frames| (audio_tx, frames)
}

fn created(tag: &str, dictionary: Option<Vec<String>>) -> Global {
    let mut global: Global = None;
    assert_eq!(sp_core_create(&mut global, Some("runtime"), 's', loaded(tag, dictionary)), 0);
    global
}

#[test]
fn creation_needs_a_runtime() {
    let mut global: Global = None;
    assert_eq!(sp_core_create(&mut global, None, 's', loaded("a", None)), -1);
    assert!(global.is_none());
    assert_eq!(sp_core_create(&mut global, Some("rt"), 's', loaded("a", None)), 0);
    let core = global.as_ref().unwrap();
    assert_eq!(core.runtime, "rt");
    assert_eq!(core.session, 's');
    assert_eq!(core.audio_tx, None);
    assert!(core.dictionary.is_empty());
    assert_eq!(core.system_prompt, "system a");
    assert_eq!(core.user_prompt_template, "user a");
    assert_eq!(core.config, config("a"));
    assert_eq!(sp_core_create(&mut global, None, 't', loaded("b", None)), -1);
    assert_eq!(global.as_ref().unwrap().system_prompt, "system a");
}

#[test]
fn defaults_stand_in_for_settings() {
    assert_eq!(config_or_default(None, config("default")), config("default"));
    assert_eq!(config_or_default(Some(config("disk")), config("default")), config("disk"));
}

#[test]
fn without_a_core_there_are_defaults() {
    let mut global: Global = created("a", None);
    let feedback = sp_core_get_feedback_config(&global);
    assert_eq!(
        feedback,
        FeedbackSection { start_sound: false, stop_sound: true, error_sound: false }
    );
    assert_eq!(sp_core_get_hotkey_config(&global).key_code, 58);
    sp_core_destroy(&mut global);
    assert!(global.is_none());
    let feedback = sp_core_get_feedback_config(&global);
    assert_eq!(
        feedback,
        FeedbackSection { start_sound: true, stop_sound: true, error_sound: true }
    );
    assert_eq!(
        sp_core_get_hotkey_config(&global),
        HotkeyParams { key_code: 63, alt_key_code: 179, modifier_flag: 0x00800000 }
    );
    assert_eq!(sp_core_session_end(&mut global), 0);
    let (status, plan) =
        sp_core_session_begin(&mut global, context(), "id".to_string(), queue(1), None);
    assert_eq!(status, -1);
    assert!(plan.is_none());
    assert!(global.is_none());
}

#[test]
fn reloading_replaces_settings() {
    let mut global = created("old", Some(words(&["one"])));
    assert_eq!(sp_core_reload_config(&mut global, None), -1);
    assert_eq!(global.as_ref().unwrap().config, config("old"));
    assert_eq!(global.as_ref().unwrap().dictionary, words(&["one"]));
    assert_eq!(sp_core_reload_config(&mut global, Some(loaded("new", None))), 0);
    let core = global.as_ref().unwrap();
    assert_eq!(core.config, config("new"));
    assert!(core.dictionary.is_empty());
    assert_eq!(core.system_prompt, "system new");
    assert_eq!(core.runtime, "runtime");
    let mut nothing: Global = None;
    assert_eq!(sp_core_reload_config(&mut nothing, Some(loaded("new", None))), 0);
    assert!(nothing.is_none());
    assert_eq!(sp_core_reload_config(&mut nothing, None), -1);
}

#[test]
fn reloaded_settings_reach_the_next_session() {
    let mut global = created("old", Some(words(&["one"])));
    let reload = loaded("new", Some(words(&["two", "three"])));
    assert_eq!(sp_core_reload_config(&mut global, Some(reload)), 0);
    let (status, plan) =
        sp_core_session_begin(&mut global, context(), "id-1".to_string(), queue(9), None);
    assert_eq!(status, 0);
    let (session, plan, frames) = plan.unwrap();
    assert_eq!(frames, 1024);
    assert_eq!(plan.llm_config, config("new").llm);
    assert_eq!(plan.dictionary, words(&["two", "three"]));
    assert_eq!(plan.asr_config.hotwords, words(&["two", "three"]));
    assert_eq!(plan.asr_config.url, "wss://new");
    assert_eq!(plan.asr_config.sample_rate_hz, 16000);
    assert_eq!(plan.asr_config.connect_timeout_ms, 3000);
    assert_eq!(plan.asr_config.final_wait_timeout_ms, 5000);
    assert!(plan.asr_config.enable_ddc && plan.asr_config.enable_punc);
    assert!(!plan.asr_config.enable_itn && !plan.asr_config.enable_nonstream);
    assert_eq!(plan.dictionary_max_candidates, 20);
    assert_eq!(plan.system_prompt, "system new");
    assert_eq!(plan.user_prompt_template, "user new");
    assert_eq!(plan.session_id, "id-1");
    assert_eq!(plan.mode, SessionMode::Hold);
    assert_eq!(
        session,
        Session::new("id-1".to_string(), SessionMode::Hold, Some("com.example".to_string()), 77)
    );
    assert_eq!(session.asr_text, None);
    assert_eq!(session.corrected_text, None);
}

#[test]
fn sessions_read_the_disk_when_they_begin() {
    let mut global = created("old", Some(words(&["kept"])));
    let (_, plan) = sp_core_session_begin(
        &mut global,
        context(),
        "id".to_string(),
        queue(1),
        Some(loaded("disk", None)),
    );
    let (_, plan, _) = plan.unwrap();
    assert_eq!(plan.dictionary, words(&["kept"]));
    assert_eq!(plan.system_prompt, "system disk");
    assert_eq!(global.as_ref().unwrap().config, config("disk"));
    let (_, plan) = sp_core_session_begin(
        &mut global,
        context(),
        "id".to_string(),
        queue(2),
        Some(loaded("disk2", Some(words(&["fresh"])))),
    );
    assert_eq!(plan.unwrap().1.dictionary, words(&["fresh"]));
    assert_eq!(global.as_ref().unwrap().dictionary, words(&["fresh"]));
}

#[test]
fn audio_goes_to_the_session_that_runs() {
    let mut global = created("a", None);
    let frame = [1u8, 2, 3];
    assert_eq!(sp_core_push_audio(&global, Some(&frame)), (0, None));
    sp_core_session_begin(&mut global, context(), "id".to_string(), queue(42), None);
    assert_eq!(sp_core_push_audio(&global, Some(&frame)), (0, Some((&42, vec![1, 2, 3]))));
    assert_eq!(sp_core_push_audio(&global, None), (-1, None));
    assert_eq!(sp_core_push_audio(&global, Some(&[])), (-1, None));
    assert_eq!(sp_core_session_end(&mut global), 0);
    assert_eq!(sp_core_push_audio(&global, Some(&frame)), (0, None));
    assert_eq!(sp_core_push_audio::<&str, u32, char>(&None, Some(&frame)), (0, None));
    assert_eq!(sp_core_push_audio::<&str, u32, char>(&None, None), (-1, None));
}

#[test]
fn texts_are_stored_in_the_current_session_only() {
    let mut slot = None;
    store_asr_text(&mut slot, "a".to_string());
    store_corrected_text(&mut slot, "b".to_string());
    assert!(slot.is_none());
    slot = Some(Session::new("id".to_string(), SessionMode::Toggle, None, 1));
    store_asr_text(&mut slot, "a".to_string());
    store_corrected_text(&mut slot, "b".to_string());
    let session = slot.as_ref().unwrap();
    assert_eq!(session.asr_text.as_deref(), Some("a"));
    assert_eq!(session.corrected_text.as_deref(), Some("b"));
    assert_eq!(session.id, "id");
    cleanup_session(&mut slot);
    assert!(slot.is_none());
}

#[test]
fn a_language_model_needs_an_address_and_a_key() {
    let mut llm = config("x").llm;
    assert!(llm.is_configured());
    llm.api_key = String::new();
    assert!(!llm.is_configured());
    llm.api_key = "key".to_string();
    llm.base_url = String::new();
    assert!(!llm.is_configured());
    assert_eq!(llm.clone(), llm);
}
