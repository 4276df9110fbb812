use koe_core::config::{AsrConfig, AsrSection, LlmSection};
use koe_core::double::Double;
use koe_core::json::{list_in, list_under};
use koe_core::session::SessionMode;
use koe_core::state::SessionPlan;
use koe_core::uncertain::{
    build_uncertain_system_prompt, build_uncertain_user_prompt, collect_uncertain_candidates,
    correction_request, extract_json_array_fragment, extract_uncertain_phrases_with_llm,
    parse_uncertain_candidates, request_correction, uncertain_payload, uncertain_report,
    uncertain_request, UncertainPhraseCandidate, UncertainPhraseCandidateRaw,
};
use serde_json::Value;

fn number(x: f64) -> Double {
    Double { bits: x.to_bits() }
}

fn phrase(text: &str) -> UncertainPhraseCandidateRaw {
    UncertainPhraseCandidateRaw {
        phrase: Some(text.to_string()),
        suggestion: None,
        reason: None,
        confidence: None,
        context_text: None,
    }
}

fn text_of(value: &Value, key: &str) -> Option<String> {
    value.get(key).and_then(|member| member.as_str()).map(|text| text.to_string())
}

fn decode_item(value: Value) -> Option<UncertainPhraseCandidateRaw> {
    if !value.is_object() {
        return None;
    }
    Some(UncertainPhraseCandidateRaw {
        phrase: text_of(&value, "phrase"),
        suggestion: text_of(&value, "suggestion"),
        reason: text_of(&value, "reason"),
        confidence: value.get("confidence").and_then(|member| member.as_f64()).map(number),
        context_text: text_of(&value, "context_text"),
    })
}

fn decode_list(text: String) -> Option<Vec<UncertainPhraseCandidateRaw>> {
    let list = serde_json::from_str::<Vec<Value>>(&text).ok()?;
    list.into_iter().map(decode_item).collect()
}

fn parse(raw: &str) -> Vec<UncertainPhraseCandidate> {
    parse_uncertain_candidates("s", "context", raw, decode_list, decode_item)
}

#[test]
fn fragments_reach_from_bracket_to_bracket() {
    assert_eq!(extract_json_array_fragment("see [1, [2]] end"), Some("[1, [2]]"));
    assert_eq!(extract_json_array_fragment("[]"), Some("[]"));
    assert_eq!(extract_json_array_fragment("\u{8a9e}[\u{97f3}]\u{58f0}"), Some("[\u{97f3}]"));
    assert_eq!(extract_json_array_fragment("[a] and [b]"), Some("[a] and [b]"));
    assert_eq!(extract_json_array_fragment("no brackets"), None);
    assert_eq!(extract_json_array_fragment("only ["), None);
    assert_eq!(extract_json_array_fragment("only ]"), None);
    assert_eq!(extract_json_array_fragment("] before ["), None);
    assert_eq!(extract_json_array_fragment(""), None);
}

#[test]
fn fragments_are_kept_when_cut_again() {
    let fragment = extract_json_array_fragment("text [x] more ] tail").unwrap();
    assert_eq!(fragment, "[x] more ]");
    assert_eq!(extract_json_array_fragment(fragment), Some(fragment));
}

#[test]
fn payloads_are_trimmed() {
    assert_eq!(uncertain_payload("```json\n[ {} ]\n```"), "[ {} ]");
    assert_eq!(uncertain_payload("  {\"items\": null}\n"), "{\"items\": null}");
}

#[test]
fn fields_have_defaults_and_are_trimmed() {
    let items = vec![
        phrase("  kubernetis "),
        UncertainPhraseCandidateRaw {
            phrase: Some("get hub".to_string()),
            suggestion: Some(" GitHub\n".to_string()),
            reason: Some("\tname ".to_string()),
            confidence: Some(number(1.5)),
            context_text: Some(" on get hub ".to_string()),
        },
    ];
    let found = collect_uncertain_candidates("session", " all of it ", items);
    assert_eq!(found.len(), 2);
    assert_eq!(
        found[0],
        UncertainPhraseCandidate {
            session_id: "session".to_string(),
            phrase: "kubernetis".to_string(),
            suggestion: "kubernetis".to_string(),
            reason: String::new(),
            confidence: number(0.5),
            context_text: "all of it".to_string(),
        }
    );
    assert_eq!(
        found[1],
        UncertainPhraseCandidate {
            session_id: "session".to_string(),
            phrase: "get hub".to_string(),
            suggestion: "GitHub".to_string(),
            reason: "name".to_string(),
            confidence: number(1.0),
            context_text: "on get hub".to_string(),
        }
    );
}

#[test]
fn blank_phrases_are_left_out_and_eight_are_kept() {
    let mut items = vec![phrase(" "), phrase("")];
    items.push(UncertainPhraseCandidateRaw { phrase: None, ..phrase("") });
    for i in 0..10 {
        items.push(phrase(&format!("p{i}")));
        items.push(phrase("\u{3000}"));
    }
    let found = collect_uncertain_candidates("s", "c", items);
    let phrases: Vec<&str> = found.iter().map(|candidate| candidate.phrase.as_str()).collect();
    assert_eq!(phrases, ["p0", "p1", "p2", "p3", "p4", "p5", "p6", "p7"]);
    assert!(collect_uncertain_candidates("s", "c", vec![]).is_empty());
}

#[test]
fn lists_are_found_under_their_key() {
    let list = list_under("{\"items\": [1, {\"a\": [2]}, null], \"other\": []}", "items");
    assert_eq!(list.len(), 3);
    assert_eq!(list[0], Value::from(1));
    assert_eq!(list[1].to_string(), "{\"a\":[2]}");
    assert!(list[2].is_null());
    assert!(list_under("{\"items\": 3}", "items").is_empty());
    assert!(list_under("{\"other\": [1]}", "items").is_empty());
    assert!(list_under("[1, 2]", "items").is_empty());
    assert!(list_under("not json", "items").is_empty());
}

#[test]
fn replies_are_lists() {
    let found = parse(
        "Sure! [{\"phrase\": \" a \", \"confidence\": -3, \"suggestion\": \"b\"}, {\"phrase\": \"\"}]",
    );
    assert_eq!(found.len(), 1);
    assert_eq!(found[0].phrase, "a");
    assert_eq!(found[0].suggestion, "b");
    assert_eq!(found[0].confidence, number(0.0));
    assert_eq!(found[0].context_text, "context");
    assert_eq!(found[0].session_id, "s");
    assert!(parse("[]").is_empty());
    assert!(parse("nothing to report").is_empty());
}

#[test]
fn replies_may_list_items_in_an_object() {
    let reply = "{\"items\": {\"phrase\": \"a\"}}";
    assert!(parse(reply).is_empty());
    let reply = " {\"total\": 0} ";
    assert!(parse(reply).is_empty());
    let found = parse_uncertain_candidates(
        "s",
        "c",
        "{\"items\": []}",
        |_text: String| None,
        |_value: Value| Some(phrase("never asked")),
    );
    assert!(found.is_empty());
}

#[test]
fn an_object_with_items_is_cut_to_its_list() {
    let found = parse("{\"items\": [{\"phrase\": \"x\"}, {\"phrase\": \"y\"}]}");
    let phrases: Vec<&str> = found.iter().map(|candidate| candidate.phrase.as_str()).collect();
    assert_eq!(phrases, ["x", "y"]);
}

#[test]
fn failed_replies_hold_no_phrases() {
    assert!(extract_uncertain_phrases_with_llm("s", "f", None, decode_list, decode_item).is_empty());
    let reply = Some("[{\"phrase\": \"p\"}]".to_string());
    let found =
        extract_uncertain_phrases_with_llm("s", "final text", reply, decode_list, decode_item);
    assert_eq!(found.len(), 1);
    assert_eq!(found[0].context_text, "final text");
}

#[test]
fn prompts_number_the_revisions() {
    let history: Vec<String> = (1..=11).map(|i| format!("revision {i}")).collect();
    let lines: Vec<String> = (1..=11).map(|i| format!("{i}. revision {i}")).collect();
    let prompt = build_uncertain_user_prompt("heard", "pasted", &history);
    let expected = format!(
        "Find up to 8 uncertain phrases that changed across revisions or look suspicious.\n\
         Prefer technical terms, names, APIs, and command words.\n\
         If there are no meaningful uncertain phrases, return [].\n\
         \n\
         ASR text:\n\
         heard\n\
         \n\
         Final corrected text:\n\
         pasted\n\
         \n\
         Interim revisions:\n\
         {}",
        lines.join("\n")
    );
    assert_eq!(prompt, expected);
    assert!(build_uncertain_user_prompt("a", "b", &[]).ends_with("\n\nInterim revisions:\n"));
    assert!(build_uncertain_user_prompt("a", "b", &history[..1])
        .ends_with("\n\nInterim revisions:\n1. revision 1"));
}

#[test]
fn requests_carry_the_prompts() {
    let history = vec!["one".to_string()];
    let request = uncertain_request("heard", "pasted", &history);
    assert_eq!(request.asr_text, "heard");
    assert!(request.dictionary_entries.is_empty());
    assert_eq!(request.system_prompt, build_uncertain_system_prompt());
    assert_eq!(request.user_prompt, build_uncertain_user_prompt("heard", "pasted", &history));
    assert_eq!(
        build_uncertain_system_prompt(),
        "You extract low-confidence speech-recognition phrases for later user review.\n\
         Return strict JSON only.\n\
         Output format: array of objects with keys:\n\
         - phrase: string (original uncertain phrase)\n\
         - suggestion: string (best correction)\n\
         - reason: string (brief reason)\n\
         - confidence: number between 0 and 1\n\
         - context_text: string (short sentence context)\n\
         No markdown. No extra text."
    );
}

#[test]
fn reports_need_phrases() {
    let encode = |found: Vec<UncertainPhraseCandidate>| Some(format!("{} phrases", found.len()));
    assert_eq!(uncertain_report(vec![], encode), None);
    let found = collect_uncertain_candidates("s", "c", vec![phrase("p")]);
    assert_eq!(uncertain_report(found, encode), Some("1 phrases".to_string()));
    let found = collect_uncertain_candidates("s", "c", vec![phrase("p")]);
    assert_eq!(uncertain_report(found, |_| None), None);
}

#[test]
fn lists_are_found_in_documents() {
    let document = serde_json::from_str::<Value>("{\"items\": [true, \"x\"], \"n\": 1}").unwrap();
    assert_eq!(list_in(&document, "items"), vec![Value::from(true), Value::from("x")]);
    assert!(list_in(&document, "n").is_empty());
    assert!(list_in(&document, "missing").is_empty());
    assert!(list_in(&Value::from(vec![1, 2]), "items").is_empty());
    assert!(list_in(&Value::Null, "items").is_empty());
}

fn plan() -> SessionPlan {
    let section = AsrSection {
        url: String::new(),
        app_key: String::new(),
        access_key: String::new(),
        resource_id: String::new(),
        connect_timeout_ms: 0,
        final_wait_timeout_ms: 0,
        enable_ddc: false,
        enable_itn: false,
        enable_punc: false,
        enable_nonstream: false,
    };
    SessionPlan {
        session_id: "id".to_string(),
        mode: SessionMode::Hold,
        asr_config: AsrConfig::new(&section, &vec![]),
        llm_config: LlmSection {
            base_url: String::new(),
            api_key: String::new(),
            model: String::new(),
            temperature: number(0.0),
            top_p: number(1.0),
            max_output_tokens: 0,
            timeout_ms: 0,
            dictionary_max_candidates: 0,
        },
        dictionary: vec!["Koe".to_string(), "Verus".to_string(), "Rust".to_string()],
        dictionary_max_candidates: 2,
        system_prompt: "be brief".to_string(),
        user_prompt_template: "template".to_string(),
    }
}

#[test]
fn corrections_are_requested_with_the_dictionary_and_the_template_of_the_session() {
    let request = request_correction(
        &plan(),
        "heard".to_string(),
        &vec!["hear".to_string(), "herd".to_string()],
        |dictionary, asr_text, max| {
            assert_eq!(asr_text, "heard");
            dictionary.iter().rev().take(max).cloned().collect()
        },
        |template, asr_text, candidates, interim_history| {
            format!("{template}|{asr_text}|{}|{}", candidates.join(","), interim_history.join(","))
        },
    );
    assert_eq!(request.asr_text, "heard");
    assert_eq!(request.dictionary_entries, vec!["Rust".to_string(), "Verus".to_string()]);
    assert_eq!(request.system_prompt, "be brief");
    assert_eq!(request.user_prompt, "template|heard|Rust,Verus|hear,herd");
}

#[test]
fn corrections_are_requested_with_the_prompts_of_the_session() {
    let request = correction_request(
        &plan(),
        "heard".to_string(),
        vec!["Koe".to_string()],
        "please correct".to_string(),
    );
    assert_eq!(request.asr_text, "heard");
    assert_eq!(request.dictionary_entries, vec!["Koe".to_string()]);
    assert_eq!(request.system_prompt, "be brief");
    assert_eq!(request.user_prompt, "please correct");
}

#[test]
fn confidences_are_in_range_unless_given_as_nan() {
    for (given, expected) in [(-0.5, 0.0), (0.25, 0.25), (7.0, 1.0)] {
        let item = UncertainPhraseCandidateRaw { confidence: Some(number(given)), ..phrase("p") };
        let found = collect_uncertain_candidates("s", "c", vec![item]);
        assert_eq!(found[0].confidence, number(expected));
    }
    let item = UncertainPhraseCandidateRaw { confidence: Some(number(f64::NAN)), ..phrase("p") };
    let found = collect_uncertain_candidates("s", "c", vec![item]);
    assert!(f64::from_bits(found[0].confidence.bits).is_nan());
}
