//! Phrases of a transcript that the speech recognizer was unsure of.

#[allow(unused_imports)]
use crate::double::{clamping_leads_into_the_range, ONE_BITS};
use crate::double::{Double, HALF_BITS};
use crate::json::list_under;
#[allow(unused_imports)]
use crate::json::listed_under;
#[allow(unused_imports)]
use crate::lists::{filter_map_add, filter_map_grows, filter_map_push};
use crate::state::SessionPlan;
use crate::text::{characters, find_first, find_last, push_decimal, trim};
#[allow(unused_imports)]
use crate::text::{
    decimal, first_of, first_of_is_first, last_of, last_of_is_last, texts, trimmed,
    trimmed_is_empty_iff_blank, trimming_keeps_all_between_the_ends,
    trimming_twice_is_trimming_once, white_space, white_space_characters,
};
use vstd::prelude::*;

verus! {

/// What a language model is asked.
#[derive(Debug, PartialEq)]
pub struct CorrectionRequest {
    pub asr_text: String,
    pub dictionary_entries: Vec<String>,
    pub system_prompt: String,
    pub user_prompt: String,
}

/// A doubtful phrase as the language model describes it.
#[derive(Debug, PartialEq)]
pub struct UncertainPhraseCandidateRaw {
    pub phrase: Option<String>,
    pub suggestion: Option<String>,
    pub reason: Option<String>,
    pub confidence: Option<Double>,
    pub context_text: Option<String>,
}

/// A doubtful phrase, ready for review by the user.
#[derive(Debug, PartialEq)]
pub struct UncertainPhraseCandidate {
    pub session_id: String,
    pub phrase: String,
    pub suggestion: String,
    pub reason: String,
    pub confidence: Double,
    pub context_text: String,
}

/// What a [`UncertainPhraseCandidateRaw`] says.
pub struct RawView {
    pub phrase: Option<Seq<char>>,
    pub suggestion: Option<Seq<char>>,
    pub reason: Option<Seq<char>>,
    pub confidence: Option<Double>,
    pub context_text: Option<Seq<char>>,
}

/// What a [`UncertainPhraseCandidate`] says.
#[verifier::ext_equal]
pub struct CandidateView {
    pub session_id: Seq<char>,
    pub phrase: Seq<char>,
    pub suggestion: Seq<char>,
    pub reason: Seq<char>,
    pub confidence: Double,
    pub context_text: Seq<char>,
}

/// The view of an optional string.
pub open spec fn optional_text(text: Option<String>) -> Option<Seq<char>> {
    match text {
        Some(text) => Some(text@),
        None => None,
    }
}

impl View for UncertainPhraseCandidateRaw {
    type V = RawView;

    open spec fn view(&self) -> RawView {
        RawView {
            phrase: optional_text(self.phrase),
            suggestion: optional_text(self.suggestion),
            reason: optional_text(self.reason),
            confidence: self.confidence,
            context_text: optional_text(self.context_text),
        }
    }
}

impl View for UncertainPhraseCandidate {
    type V = CandidateView;

    open spec fn view(&self) -> CandidateView {
        CandidateView {
            session_id: self.session_id@,
            phrase: self.phrase@,
            suggestion: self.suggestion@,
            reason: self.reason@,
            confidence: self.confidence,
            context_text: self.context_text@,
        }
    }
}

/// How many doubtful phrases of one session are kept.
pub const MAX_CANDIDATES: usize = 8;

/// The text of an optional field, or a default, without white space at its ends.
pub open spec fn field(text: Option<Seq<char>>, default: Seq<char>) -> Seq<char> {
    match text {
        Some(text) => trimmed(text),
        None => trimmed(default),
    }
}

/// What is made of one phrase that the language model describes: nothing if it is blank.
pub open spec fn candidate_of(
    session_id: Seq<char>,
    fallback_context: Seq<char>,
) -> spec_fn(RawView) -> Option<CandidateView> {
    |raw: RawView|
        {
            let phrase = field(raw.phrase, seq![]);
            if phrase.len() == 0 {
                None
            } else {
                Some(
                    CandidateView {
                        session_id,
                        phrase,
                        suggestion: field(raw.suggestion, phrase),
                        reason: field(raw.reason, seq![]),
                        confidence: (match raw.confidence {
                            Some(confidence) => confidence,
                            None => Double { bits: HALF_BITS },
                        }).clamped_to_unit(),
                        context_text: field(raw.context_text, fallback_context),
                    },
                )
            }
        }
}

/// The views of a list of described phrases.
pub open spec fn raw_views(items: Seq<UncertainPhraseCandidateRaw>) -> Seq<RawView> {
    Seq::new(items.len(), |i: int| items[i]@)
}

/// The views of a list of doubtful phrases.
pub open spec fn candidate_views(items: Seq<UncertainPhraseCandidate>) -> Seq<CandidateView> {
    Seq::new(items.len(), |i: int| items[i]@)
}

/// The first elements of a sequence, as many as are kept.
pub open spec fn kept<A>(s: Seq<A>) -> Seq<A> {
    if s.len() <= MAX_CANDIDATES {
        s
    } else {
        s.take(MAX_CANDIDATES as int)
    }
}

/// What is made of the phrases that the language model describes.
pub open spec fn candidates(
    session_id: Seq<char>,
    fallback_context: Seq<char>,
    items: Seq<RawView>,
) -> Seq<CandidateView> {
    kept(items.filter_map(candidate_of(session_id, fallback_context)))
}

fn trimmed_or(text: &Option<String>, default: &str) -> (chosen: String)
    ensures
        chosen@ == field(optional_text(*text), default@),
{
    match text {
        Some(text) => trim(text.as_str()).to_string(),
        None => trim(default).to_string(),
    }
}

fn build_candidate(
    session_id: &str,
    fallback_context: &str,
    item: &UncertainPhraseCandidateRaw,
) -> (candidate: Option<UncertainPhraseCandidate>)
    ensures
        match candidate {
            Some(candidate) => candidate_of(session_id@, fallback_context@)(item@) == Some(
                candidate@,
            ),
            None => candidate_of(session_id@, fallback_context@)(item@) is None,
        },
        candidate is None <==> match item.phrase {
            Some(phrase) => trimmed(phrase@).len() == 0,
            None => true,
        },
        match candidate {
            Some(candidate) => {
                &&& candidate.session_id@ == session_id@
                &&& item.phrase matches Some(phrase) && candidate.phrase@ == trimmed(phrase@)
                &&& candidate.suggestion@ == (match item.suggestion {
                    Some(suggestion) => trimmed(suggestion@),
                    None => candidate.phrase@,
                })
                &&& candidate.reason@ == (match item.reason {
                    Some(reason) => trimmed(reason@),
                    None => Seq::<char>::empty(),
                })
                &&& candidate.context_text@ == (match item.context_text {
                    Some(context_text) => trimmed(context_text@),
                    None => trimmed(fallback_context@),
                })
                &&& candidate.confidence == (match item.confidence {
                    Some(confidence) => confidence.clamped_to_unit(),
                    None => Double { bits: 0x3fe0_0000_0000_0000 },
                })
            },
            None => true,
        },
{
    proof {
        reveal_strlit("");
        assert(""@ == Seq::<char>::empty());
        trimmed_fields(optional_text(item.phrase), seq![]);
    }
    let phrase = trimmed_or(&item.phrase, "");
    if phrase.as_str().is_empty() {
        return None;
    }
    let suggestion = trimmed_or(&item.suggestion, phrase.as_str());
    let reason = trimmed_or(&item.reason, "");
    let context_text = trimmed_or(&item.context_text, fallback_context);
    let confidence = match item.confidence {
        Some(confidence) => confidence,
        None => Double { bits: HALF_BITS },
    };
    Some(
        UncertainPhraseCandidate {
            session_id: session_id.to_string(),
            phrase,
            suggestion,
            reason,
            confidence: confidence.clamp_to_unit(),
            context_text,
        },
    )
}

/// Turns the phrases that the language model describes into phrases for review: blank ones are
/// left out, the first ones are kept, and their texts are trimmed.
pub fn collect_uncertain_candidates(
    session_id: &str,
    fallback_context: &str,
    items: Vec<UncertainPhraseCandidateRaw>,
) -> (found: Vec<UncertainPhraseCandidate>)
    ensures
        candidate_views(found@) == candidates(session_id@, fallback_context@, raw_views(items@)),
{
    let mut found: Vec<UncertainPhraseCandidate> = Vec::new();
    let ghost make = candidate_of(session_id@, fallback_context@);
    let ghost views = raw_views(items@);
    assert(candidate_views(found@) == views.take(0).filter_map(make));
    let mut i: usize = 0;
    while i < items.len() && found.len() < MAX_CANDIDATES
        invariant
            i <= items@.len(),
            found@.len() <= MAX_CANDIDATES,
            make == candidate_of(session_id@, fallback_context@),
            views == raw_views(items@),
            candidate_views(found@) == views.take(i as int).filter_map(make),
        decreases items@.len() - i,
    {
        proof {
            views.lemma_filter_map_take_succ(make, i as int);
        }
        let ghost before = found@;
        if let Some(candidate) = build_candidate(session_id, fallback_context, &items[i]) {
            found.push(candidate);
            assert(candidate_views(found@) == candidate_views(before) + seq![candidate@]);
        }
        i += 1;
    }
    proof {
        filter_map_grows(views, i as int, make);
        if i == views.len() {
            assert(views.take(i as int) == views);
        }
    }
    found
}

/// The part of a text from the first opening to the last closing square bracket.
pub open spec fn array_fragment(s: Seq<char>) -> Option<Seq<char>> {
    if first_of(s, '[') <= last_of(s, ']') {
        Some(s.subrange(first_of(s, '['), last_of(s, ']') + 1))
    } else {
        None
    }
}

/// Cuts out what may be a JSON array: the part of `text` from its first opening to its last
/// closing square bracket.
pub fn extract_json_array_fragment(text: &str) -> (fragment: Option<&str>)
    ensures
        match fragment {
            Some(fragment) => array_fragment(text@) == Some(fragment@),
            None => array_fragment(text@) is None,
        },
{
    let list = characters(text);
    proof {
        first_of_is_first(text@, '[');
        last_of_is_last(text@, ']');
    }
    match (find_first(&list, '['), find_last(&list, ']')) {
        (Some(start), Some(end)) => if end < start {
            None
        } else {
            Some(text.substring_char(start, end + 1))
        },
        _ => None,
    }
}

/// The part of a reply that is read as JSON.
pub open spec fn payload_of(raw: Seq<char>) -> Seq<char> {
    match array_fragment(raw) {
        Some(fragment) => trimmed(fragment),
        None => trimmed(raw),
    }
}

/// The part of the reply `raw` that is read as JSON.
pub fn uncertain_payload(raw: &str) -> (payload: &str)
    ensures
        payload@ == payload_of(raw@),
        match array_fragment(raw@) {
            Some(fragment) => payload@ == trimmed(fragment),
            None => payload@ == trimmed(raw@),
        },
{
    match extract_json_array_fragment(raw) {
        Some(fragment) => trim(fragment),
        None => trim(raw),
    }
}

/// The results that are there, in order.
pub open spec fn those_decoded(
    results: Seq<Option<UncertainPhraseCandidateRaw>>,
) -> Seq<UncertainPhraseCandidateRaw> {
    results.filter_map(|result: Option<UncertainPhraseCandidateRaw>| result)
}

/// Whether the items may be what the decoders find in a payload: the list that it is, or else
/// those that can be decoded of the documents listed under `items` in the object that it is.
pub open spec fn decoded_from<F, G>(
    decode_list: F,
    decode_item: G,
    payload: Seq<char>,
    items: Seq<UncertainPhraseCandidateRaw>,
) -> bool where
    F: Fn(String) -> Option<Vec<UncertainPhraseCandidateRaw>>,
    G: Fn(serde_json::Value) -> Option<UncertainPhraseCandidateRaw>,
 {
    exists|text: String, list: Option<Vec<UncertainPhraseCandidateRaw>>| #[trigger]
        call_ensures(decode_list, (text,), list) && text@ == payload && match list {
            Some(list) => items == list@,
            None => exists|results: Seq<Option<UncertainPhraseCandidateRaw>>|
                items == #[trigger] those_decoded(results) && all_decoded(
                    decode_item,
                    listed_under(payload, "items"@),
                    results,
                ),
        }
}

/// Whether the results may be what the decoder makes of the documents.
pub open spec fn all_decoded<G>(
    decode_item: G,
    documents: Seq<serde_json::Value>,
    results: Seq<Option<UncertainPhraseCandidateRaw>>,
) -> bool where G: Fn(serde_json::Value) -> Option<UncertainPhraseCandidateRaw> {
    &&& results.len() == documents.len()
    &&& forall|i: int|
        0 <= i < documents.len() ==> call_ensures(
            decode_item,
            (#[trigger] documents[i],),
            results[i],
        )
}

fn decode_listed<G>(documents: Vec<serde_json::Value>, decode_item: &G) -> (items: Vec<
    UncertainPhraseCandidateRaw,
>) where G: Fn(serde_json::Value) -> Option<UncertainPhraseCandidateRaw>
    requires
        forall|document: serde_json::Value| call_requires(*decode_item, (document,)),
    ensures
        exists|results: Seq<Option<UncertainPhraseCandidateRaw>>|
            items@ == #[trigger] those_decoded(results) && all_decoded(
                *decode_item,
                documents@,
                results,
            ),
{
    let mut items: Vec<UncertainPhraseCandidateRaw> = Vec::new();
    let ghost mut results: Seq<Option<UncertainPhraseCandidateRaw>> = seq![];
    let ghost all = documents@;
    for document in it: documents
        invariant
            forall|document: serde_json::Value| call_requires(*decode_item, (document,)),
            it.seq() == all,
            items@ == those_decoded(results),
            results.len() == it.index(),
            forall|i: int|
                0 <= i < results.len() ==> call_ensures(
                    *decode_item,
                    (#[trigger] all[i],),
                    results[i],
                ),
    {
        let result = decode_item(document);
        proof {
            let before = results;
            results = results.push(result);
            assert(results.drop_last() == before);
        }
        if let Some(item) = result {
            items.push(item);
        }
        assert(items@ == those_decoded(results));
    }
    assert(all_decoded(*decode_item, all, results));
    items
}

/// Reads the doubtful phrases out of the reply `raw` of a language model.
///
/// The payload of the reply is a list of phrases, or an object that lists them under `items`.
/// `decode_list` decodes the list as a whole, `decode_item` one listed phrase; what they cannot
/// decode is passed over.
pub fn parse_uncertain_candidates<F, G>(
    session_id: &str,
    fallback_context: &str,
    raw: &str,
    decode_list: F,
    decode_item: G,
) -> (found: Vec<UncertainPhraseCandidate>) where
    F: Fn(String) -> Option<Vec<UncertainPhraseCandidateRaw>>,
    G: Fn(serde_json::Value) -> Option<UncertainPhraseCandidateRaw>,

    requires
        forall|text: String| call_requires(decode_list, (text,)),
        forall|document: serde_json::Value| call_requires(decode_item, (document,)),
    ensures
        exists|items: Seq<UncertainPhraseCandidateRaw>|
            decoded_from(decode_list, decode_item, payload_of(raw@), items) && candidate_views(
                found@,
            ) == #[trigger] candidates(session_id@, fallback_context@, raw_views(items)),
{
    let payload = uncertain_payload(raw);
    let text = payload.to_string();
    let list = decode_list(text);
    assert(call_ensures(decode_list, (text,), list));
    let items = match list {
        Some(items) => items,
        None => decode_listed(list_under(payload, "items"), &decode_item),
    };
    assert(decoded_from(decode_list, decode_item, payload_of(raw@), items@));
    collect_uncertain_candidates(session_id, fallback_context, items)
}

/// What is asked of the language model about doubtful phrases, in general.
pub const UNCERTAIN_SYSTEM_PROMPT: &'static str = "You extract low-confidence speech-recognition phrases for later user review.
Return strict JSON only.
Output format: array of objects with keys:
- phrase: string (original uncertain phrase)
- suggestion: string (best correction)
- reason: string (brief reason)
- confidence: number between 0 and 1
- context_text: string (short sentence context)
No markdown. No extra text.";

/// How the question about the doubtful phrases of one transcript begins.
pub const UNCERTAIN_QUESTION: &'static str = "Find up to 8 uncertain phrases that changed across revisions or look suspicious.
Prefer technical terms, names, APIs, and command words.
If there are no meaningful uncertain phrases, return [].

ASR text:
";

/// The instructions to the language model that looks for doubtful phrases.
pub fn build_uncertain_system_prompt() -> (prompt: &'static str)
    ensures
        prompt@ == UNCERTAIN_SYSTEM_PROMPT@,
{
    UNCERTAIN_SYSTEM_PROMPT
}

/// The revisions of a text, one to a line and numbered from 1.
pub open spec fn numbered_lines(lines: Seq<Seq<char>>) -> Seq<char>
    decreases lines.len(),
{
    if lines.len() == 0 {
        seq![]
    } else {
        let line = decimal(lines.len()) + ". "@ + lines.last();
        if lines.len() == 1 {
            line
        } else {
            numbered_lines(lines.drop_last()) + "\n"@ + line
        }
    }
}

/// The question about the doubtful phrases of one transcript.
pub open spec fn uncertain_user_prompt(
    asr_text: Seq<char>,
    final_text: Seq<char>,
    interim_history: Seq<Seq<char>>,
) -> Seq<char> {
    UNCERTAIN_QUESTION@ + asr_text + "\n\nFinal corrected text:\n"@ + final_text
        + "\n\nInterim revisions:\n"@ + numbered_lines(interim_history)
}

/// The question about the doubtful phrases of one transcript: the recognized text, the pasted
/// text, and the numbered revisions.
pub fn build_uncertain_user_prompt(
    asr_text: &str,
    final_text: &str,
    interim_history: &[String],
) -> (prompt: String)
    ensures
        prompt@ == uncertain_user_prompt(asr_text@, final_text@, texts(interim_history@)),
{
    let mut prompt = UNCERTAIN_QUESTION.to_string();
    prompt.append(asr_text);
    prompt.append("\n\nFinal corrected text:\n");
    prompt.append(final_text);
    prompt.append("\n\nInterim revisions:\n");
    let ghost head = prompt@;
    let ghost lines = texts(interim_history@);
    let mut i: usize = 0;
    while i < interim_history.len()
        invariant
            i <= interim_history@.len(),
            lines == texts(interim_history@),
            prompt@ == head + numbered_lines(lines.take(i as int)),
        decreases interim_history@.len() - i,
    {
        let ghost before = prompt@;
        if i > 0 {
            prompt.append("\n");
        }
        push_decimal(&mut prompt, i as u128 + 1);
        prompt.append(". ");
        prompt.append(interim_history[i].as_str());
        assert(lines.take(i + 1).drop_last() == lines.take(i as int));
        i += 1;
    }
    assert(lines.take(i as int) == lines);
    prompt
}

/// What the language model is asked about doubtful phrases.
pub fn uncertain_request(asr_text: &str, final_text: &str, interim_history: &[String]) -> (request:
    CorrectionRequest)
    ensures
        request.asr_text@ == asr_text@,
        request.dictionary_entries@.len() == 0,
        request.system_prompt@ == UNCERTAIN_SYSTEM_PROMPT@,
        request.user_prompt@ == uncertain_user_prompt(
            asr_text@,
            final_text@,
            texts(interim_history@),
        ),
{
    CorrectionRequest {
        asr_text: asr_text.to_string(),
        dictionary_entries: Vec::new(),
        system_prompt: build_uncertain_system_prompt().to_string(),
        user_prompt: build_uncertain_user_prompt(asr_text, final_text, interim_history),
    }
}

/// What the language model is asked when it is to correct a text: the text, the entries of the
/// dictionary that may matter to it, and the prompts of the session.
pub fn correction_request(
    plan: &SessionPlan,
    asr_text: String,
    candidates: Vec<String>,
    user_prompt: String,
) -> (request: CorrectionRequest)
    ensures
        request == (CorrectionRequest {
            asr_text,
            dictionary_entries: candidates,
            system_prompt: plan.system_prompt,
            user_prompt,
        }),
{
    CorrectionRequest {
        asr_text,
        dictionary_entries: candidates,
        system_prompt: plan.system_prompt.clone(),
        user_prompt,
    }
}

/// Asks for the correction of a text: `filter` picks the entries of the session's dictionary that
/// may matter to the text, up to the limit of the session, and `render` fills in the template of
/// the session with the text, those entries and the revisions.
pub fn request_correction<F, G>(
    plan: &SessionPlan,
    asr_text: String,
    interim_history: &Vec<String>,
    filter: F,
    render: G,
) -> (request: CorrectionRequest) where
    F: FnOnce(&Vec<String>, &String, usize) -> Vec<String>,
    G: FnOnce(&String, &String, &Vec<String>, &Vec<String>) -> String,

    requires
        call_requires(filter, (&plan.dictionary, &asr_text, plan.dictionary_max_candidates)),
        forall|entries: Vec<String>|
            call_ensures(
                filter,
                (&plan.dictionary, &asr_text, plan.dictionary_max_candidates),
                entries,
            ) ==> #[trigger] call_requires(
                render,
                (&plan.user_prompt_template, &asr_text, &entries, interim_history),
            ),
    ensures
        call_ensures(
            filter,
            (&plan.dictionary, &asr_text, plan.dictionary_max_candidates),
            request.dictionary_entries,
        ),
        call_ensures(
            render,
            (
                &plan.user_prompt_template,
                &asr_text,
                &request.dictionary_entries,
                interim_history,
            ),
            request.user_prompt,
        ),
        request.asr_text == asr_text,
        request.system_prompt == plan.system_prompt,
{
    let candidates = filter(&plan.dictionary, &asr_text, plan.dictionary_max_candidates);
    let user_prompt = render(&plan.user_prompt_template, &asr_text, &candidates, interim_history);
    correction_request(plan, asr_text, candidates, user_prompt)
}

/// The doubtful phrases in the reply of the language model; none where it has failed to reply.
pub fn extract_uncertain_phrases_with_llm<F, G>(
    session_id: &str,
    final_text: &str,
    reply: Option<String>,
    decode_list: F,
    decode_item: G,
) -> (found: Vec<UncertainPhraseCandidate>) where
    F: Fn(String) -> Option<Vec<UncertainPhraseCandidateRaw>>,
    G: Fn(serde_json::Value) -> Option<UncertainPhraseCandidateRaw>,

    requires
        forall|text: String| call_requires(decode_list, (text,)),
        forall|document: serde_json::Value| call_requires(decode_item, (document,)),
    ensures
        match reply {
            Some(raw) => exists|items: Seq<UncertainPhraseCandidateRaw>|
                decoded_from(decode_list, decode_item, payload_of(raw@), items) && candidate_views(
                    found@,
                ) == #[trigger] candidates(session_id@, final_text@, raw_views(items)),
            None => found@.len() == 0,
        },
{
    match reply {
        Some(raw) => parse_uncertain_candidates(
            session_id,
            final_text,
            raw.as_str(),
            decode_list,
            decode_item,
        ),
        None => Vec::new(),
    }
}

/// What the user interface is told of the doubtful phrases: nothing where there are none, and
/// else what `encode` makes of them.
pub fn uncertain_report<E>(found: Vec<UncertainPhraseCandidate>, encode: E) -> (report: Option<
    String,
>) where E: Fn(Vec<UncertainPhraseCandidate>) -> Option<String>
    requires
        call_requires(encode, (found,)),
    ensures
        if found@.len() == 0 {
            report is None
        } else {
            call_ensures(encode, (found,), report)
        },
{
    if found.len() == 0 {
        None
    } else {
        encode(found)
    }
}

/// A fragment is cut out exactly where an opening square bracket stands before a closing one. It
/// begins and ends with such brackets, and is kept when it is cut again.
pub proof fn fragments_are_bracketed(s: Seq<char>)
    ensures
        array_fragment(s) is Some <==> exists|i: int, j: int|
            0 <= i < j < s.len() && #[trigger] s[i] == '[' && #[trigger] s[j] == ']',
        array_fragment(s) matches Some(fragment) ==> {
            &&& fragment.len() >= 2
            &&& fragment.first() == '['
            &&& fragment.last() == ']'
            &&& array_fragment(fragment) == Some(fragment)
        },
{
    let start = first_of(s, '[');
    let end = last_of(s, ']');
    first_of_is_first(s, '[');
    last_of_is_last(s, ']');
    if start <= end {
        assert(s[start] == '[' && s[end] == ']');
        let fragment = s.subrange(start, end + 1);
        surrounding_text_is_ignored(seq![], fragment, seq![]);
        assert(seq![] + fragment + seq![] == fragment);
    }
}

/// Text around a JSON array does not matter, unless it holds an opening square bracket before the
/// array or a closing one behind it.
pub proof fn surrounding_text_is_ignored(before: Seq<char>, array: Seq<char>, after: Seq<char>)
    requires
        array.len() >= 2,
        array.first() == '[',
        array.last() == ']',
        !before.contains('['),
        !after.contains(']'),
    ensures
        array_fragment(before + array + after) == Some(array),
        payload_of(before + array + after) == array,
{
    let s = before + array + after;
    let start = before.len() as int;
    let end = before.len() + array.len() - 1;
    first_of_is_first(s, '[');
    last_of_is_last(s, ']');
    assert(s[start] == '[');
    assert(s[end] == ']');
    let found = first_of(s, '[');
    if found < start {
        assert(before[found] == '[');
    }
    let last = last_of(s, ']');
    if last > end {
        assert(after[last - end - 1] == ']');
    }
    assert(s.subrange(start, end + 1) == array);
}

/// Whether the confidence given for a phrase is none, though one is given.
pub open spec fn given_as_nan(raw: RawView) -> bool {
    raw.confidence matches Some(confidence) && confidence.nan()
}

/// At most eight phrases are kept. Each has a session, a phrase that is not blank, texts without
/// white space at their ends, and a confidence between 0 and 1, unless the confidence given for
/// some phrase is no number.
pub proof fn candidates_are_fit_for_review(
    session_id: Seq<char>,
    fallback_context: Seq<char>,
    items: Seq<RawView>,
)
    ensures
        candidates(session_id, fallback_context, items).len() <= MAX_CANDIDATES,
        forall|i: int|
            0 <= i < candidates(session_id, fallback_context, items).len() ==> fit_for_review(
                session_id,
                #[trigger] candidates(session_id, fallback_context, items)[i],
            ),
        forall|i: int|
            0 <= i < candidates(session_id, fallback_context, items).len() && (
            #[trigger] candidates(session_id, fallback_context, items)[i]).confidence.nan()
                ==> exists|raw: RawView| #[trigger] items.contains(raw) && given_as_nan(raw),
        (forall|raw: RawView| #[trigger] items.contains(raw) ==> !given_as_nan(raw)) ==> forall|
            i: int,
        |
            0 <= i < candidates(session_id, fallback_context, items).len() ==> 0 <= (
            #[trigger] candidates(session_id, fallback_context, items)[i]).confidence.place()
                <= ONE_BITS,
{
    let make = candidate_of(session_id, fallback_context);
    let all = items.filter_map(make);
    assert forall|i: int|
        0 <= i < candidates(session_id, fallback_context, items).len() implies fit_for_review(
        session_id,
        #[trigger] candidates(session_id, fallback_context, items)[i],
    ) && (candidates(session_id, fallback_context, items)[i].confidence.nan() ==> exists|
        raw: RawView,
    | #[trigger]
        items.contains(raw) && given_as_nan(raw)) by {
        let candidate = candidates(session_id, fallback_context, items)[i];
        assert(all[i] == candidate);
        assert(all.contains(candidate));
        items.lemma_filter_map_contains(make, candidate);
        let raw = choose|raw: RawView| #[trigger]
            items.contains(raw) && make(raw) == Some(candidate);
        trimmed_fields(raw.phrase, seq![]);
        trimmed_fields(raw.suggestion, candidate.phrase);
        trimmed_fields(raw.reason, seq![]);
        trimmed_fields(raw.context_text, fallback_context);
        clamping_leads_into_the_range(
            match raw.confidence {
                Some(confidence) => confidence,
                None => Double { bits: HALF_BITS },
            },
        );
    }
}

proof fn trimmed_fields(text: Option<Seq<char>>, default: Seq<char>)
    ensures
        trimmed(field(text, default)) == field(text, default),
{
    match text {
        Some(text) => trimming_twice_is_trimming_once(text),
        None => trimming_twice_is_trimming_once(default),
    }
}

/// Whether a doubtful phrase can be shown to the user for review.
pub open spec fn fit_for_review(session_id: Seq<char>, candidate: CandidateView) -> bool {
    &&& candidate.session_id == session_id
    &&& candidate.phrase.len() > 0
    &&& trimmed(candidate.phrase) == candidate.phrase
    &&& trimmed(candidate.suggestion) == candidate.suggestion
    &&& trimmed(candidate.reason) == candidate.reason
    &&& trimmed(candidate.context_text) == candidate.context_text
    &&& candidate.confidence.nan() || 0 <= candidate.confidence.place() <= ONE_BITS
}

/// A phrase is left out exactly where it is missing or all of it is white space.
pub proof fn blank_phrases_are_left_out(
    session_id: Seq<char>,
    fallback_context: Seq<char>,
    raw: RawView,
)
    ensures
        candidate_of(session_id, fallback_context)(raw) is None <==> match raw.phrase {
            Some(phrase) => forall|i: int|
                0 <= i < phrase.len() ==> white_space(#[trigger] phrase[i]),
            None => true,
        },
{
    match raw.phrase {
        Some(phrase) => trimmed_is_empty_iff_blank(phrase),
        None => trimmed_is_empty_iff_blank(seq![]),
    }
}

/// The phrases of a list that is put together are those of its parts, in order, up to the limit.
pub proof fn candidates_keep_their_order(
    session_id: Seq<char>,
    fallback_context: Seq<char>,
    first: Seq<RawView>,
    second: Seq<RawView>,
)
    ensures
        candidates(session_id, fallback_context, first + second) == kept(
            candidates(session_id, fallback_context, first) + candidates(
                session_id,
                fallback_context,
                second,
            ),
        ),
{
    let make = candidate_of(session_id, fallback_context);
    filter_map_add(first, second, make);
    assert(kept(first.filter_map(make) + second.filter_map(make)) == kept(
        kept(first.filter_map(make)) + kept(second.filter_map(make)),
    ));
}

/// One described phrase that is not blank is kept, and with it all that is given of it: its
/// suggestion, its reason and its context without white space at their ends, and its confidence,
/// restricted to the range from 0 to 1. Only what is missing is made up for, the suggestion by the
/// phrase, the reason by nothing, the context by the given one, the confidence by one half. None of
/// these depends on the others. A phrase that is missing or blank is not kept.
pub proof fn given_fields_are_kept(
    session_id: Seq<char>,
    fallback_context: Seq<char>,
    raw: RawView,
)
    ensures
        match raw.phrase {
            Some(phrase) => if trimmed(phrase).len() == 0 {
                candidates(session_id, fallback_context, seq![raw]).len() == 0
            } else {
                let found = candidates(session_id, fallback_context, seq![raw]);
                &&& found.len() == 1
                &&& found[0].session_id == session_id
                &&& found[0].phrase == trimmed(phrase)
                &&& raw.suggestion matches Some(suggestion) ==> found[0].suggestion == trimmed(
                    suggestion,
                )
                &&& raw.suggestion is None ==> found[0].suggestion == trimmed(phrase)
                &&& raw.reason matches Some(reason) ==> found[0].reason == trimmed(reason)
                &&& raw.reason is None ==> found[0].reason.len() == 0
                &&& raw.context_text matches Some(context) ==> found[0].context_text == trimmed(
                    context,
                )
                &&& raw.context_text is None ==> found[0].context_text == trimmed(fallback_context)
                &&& raw.confidence matches Some(confidence) ==> found[0].confidence
                    == confidence.clamped_to_unit()
                &&& raw.confidence is None ==> found[0].confidence.bits == 0x3fe0_0000_0000_0000
            },
            None => candidates(session_id, fallback_context, seq![raw]).len() == 0,
        },
{
    let make = candidate_of(session_id, fallback_context);
    filter_map_push(Seq::empty(), raw, make);
    assert(seq![raw] == Seq::empty().push(raw));
    if let Some(phrase) = raw.phrase {
        trimming_twice_is_trimming_once(phrase);
    }
    trimmed_is_empty_iff_blank(seq![]);
    assert(trimmed(seq![]) == Seq::<char>::empty());
}

/// Each field of a phrase for review depends on the described field of the same name alone, but for
/// a missing suggestion, which the phrase makes up for: where two phrases are kept and agree in a
/// described field, the phrases for review agree in it, whatever else is described.
pub proof fn fields_do_not_depend_on_each_other(
    session_id: Seq<char>,
    fallback_context: Seq<char>,
    raw: RawView,
    other: RawView,
)
    requires
        candidates(session_id, fallback_context, seq![raw]).len() == 1,
        candidates(session_id, fallback_context, seq![other]).len() == 1,
    ensures
        ({
            let one = candidates(session_id, fallback_context, seq![raw])[0];
            let two = candidates(session_id, fallback_context, seq![other])[0];
            &&& one.session_id == two.session_id
            &&& raw.phrase == other.phrase ==> one.phrase == two.phrase
            &&& raw.suggestion == other.suggestion && raw.suggestion is Some ==> one.suggestion
                == two.suggestion
            &&& raw.suggestion is None ==> one.suggestion == one.phrase
            &&& raw.reason == other.reason ==> one.reason == two.reason
            &&& raw.confidence == other.confidence ==> one.confidence == two.confidence
            &&& raw.context_text == other.context_text ==> one.context_text == two.context_text
        }),
{
    given_fields_are_kept(session_id, fallback_context, raw);
    given_fields_are_kept(session_id, fallback_context, other);
}

/// No phrase is left out for its place in the list, as long as no more than eight are kept; of
/// more than eight the first eight are. So the phrases of a list are those of its elements, one
/// after the other.
pub proof fn eight_phrases_are_kept(
    session_id: Seq<char>,
    fallback_context: Seq<char>,
    items: Seq<RawView>,
    raw: RawView,
)
    ensures
        candidates(session_id, fallback_context, Seq::empty()).len() == 0,
        candidates(session_id, fallback_context, items).len() < 8 ==> candidates(
            session_id,
            fallback_context,
            items.push(raw),
        ) == candidates(session_id, fallback_context, items) + candidates(
            session_id,
            fallback_context,
            seq![raw],
        ),
        candidates(session_id, fallback_context, items).len() >= 8 ==> candidates(
            session_id,
            fallback_context,
            items.push(raw),
        ) == candidates(session_id, fallback_context, items),
        candidates(session_id, fallback_context, items).len() <= 8,
{
    let make = candidate_of(session_id, fallback_context);
    filter_map_push(items, raw, make);
    filter_map_push(Seq::empty(), raw, make);
    assert(seq![raw] == Seq::empty().push(raw));
}

/// What is said of a described phrase and of a phrase for review is all that they hold.
pub proof fn views_hold_every_field(
    raw: UncertainPhraseCandidateRaw,
    candidate: UncertainPhraseCandidate,
    items: Seq<UncertainPhraseCandidateRaw>,
    found: Seq<UncertainPhraseCandidate>,
)
    ensures
        raw@.phrase is Some <==> raw.phrase is Some,
        raw.phrase matches Some(text) ==> raw@.phrase == Some(text@),
        raw@.suggestion is Some <==> raw.suggestion is Some,
        raw.suggestion matches Some(text) ==> raw@.suggestion == Some(text@),
        raw@.reason is Some <==> raw.reason is Some,
        raw.reason matches Some(text) ==> raw@.reason == Some(text@),
        raw@.confidence == raw.confidence,
        raw@.context_text is Some <==> raw.context_text is Some,
        raw.context_text matches Some(text) ==> raw@.context_text == Some(text@),
        candidate@.session_id == candidate.session_id@,
        candidate@.phrase == candidate.phrase@,
        candidate@.suggestion == candidate.suggestion@,
        candidate@.reason == candidate.reason@,
        candidate@.confidence == candidate.confidence,
        candidate@.context_text == candidate.context_text@,
        raw_views(items).len() == items.len(),
        forall|i: int| 0 <= i < items.len() ==> #[trigger] raw_views(items)[i] == items[i]@,
        candidate_views(found).len() == found.len(),
        forall|i: int| 0 <= i < found.len() ==> #[trigger] candidate_views(found)[i] == found[i]@,
{
}

/// A reply without a pair of brackets around anything is read as a whole; white space at the ends
/// of what is read does not matter.
pub proof fn replies_without_a_list_are_read_whole(raw: Seq<char>)
    ensures
        array_fragment(raw) is None ==> payload_of(raw) == trimmed(raw),
        trimmed(payload_of(raw)) == payload_of(raw),
        array_fragment(raw) matches Some(fragment) ==> payload_of(raw) == fragment,
{
    fragments_are_bracketed(raw);
    trimming_twice_is_trimming_once(raw);
    if let Some(fragment) = array_fragment(raw) {
        white_space_characters('[');
        white_space_characters(']');
        trimming_keeps_all_between_the_ends(seq![], fragment, seq![]);
        assert(seq![] + fragment + seq![] == fragment);
    }
}

/// A reply whose payload can be decoded as a list holds the phrases of that list, however many they
/// are; nothing else in it is looked at.
pub proof fn lists_are_taken_as_they_are_decoded<F, G>(
    decode_list: F,
    decode_item: G,
    payload: Seq<char>,
    items: Seq<UncertainPhraseCandidateRaw>,
    given: Vec<UncertainPhraseCandidateRaw>,
) where
    F: Fn(String) -> Option<Vec<UncertainPhraseCandidateRaw>>,
    G: Fn(serde_json::Value) -> Option<UncertainPhraseCandidateRaw>,

    requires
        decoded_from(decode_list, decode_item, payload, items),
        forall|text: String, list: Option<Vec<UncertainPhraseCandidateRaw>>| #[trigger]
            call_ensures(decode_list, (text,), list) && text@ == payload ==> list == Some(given),
    ensures
        items == given@,
{
}

/// A reply whose payload cannot be decoded as a list holds those phrases listed under `items` that
/// can be decoded, each by itself and in order, and the others do not matter.
pub proof fn listed_phrases_are_decoded_one_by_one<F, G>(
    decode_list: F,
    decode_item: G,
    payload: Seq<char>,
    items: Seq<UncertainPhraseCandidateRaw>,
    results: Seq<Option<UncertainPhraseCandidateRaw>>,
) where
    F: Fn(String) -> Option<Vec<UncertainPhraseCandidateRaw>>,
    G: Fn(serde_json::Value) -> Option<UncertainPhraseCandidateRaw>,

    requires
        decoded_from(decode_list, decode_item, payload, items),
        forall|text: String, list: Option<Vec<UncertainPhraseCandidateRaw>>| #[trigger]
            call_ensures(decode_list, (text,), list) && text@ == payload ==> list is None,
        results.len() == listed_under(payload, "items"@).len(),
        forall|i: int, result: Option<UncertainPhraseCandidateRaw>|
            0 <= i < results.len() && #[trigger] call_ensures(
                decode_item,
                (listed_under(payload, "items"@)[i],),
                result,
            ) ==> result == results[i],
    ensures
        items == those_decoded(results),
{
    let documents = listed_under(payload, "items"@);
    let decoded = choose|decoded: Seq<Option<UncertainPhraseCandidateRaw>>|
        items == #[trigger] those_decoded(decoded) && all_decoded(decode_item, documents, decoded);
    assert(all_decoded(decode_item, documents, decoded));
    assert forall|i: int| 0 <= i < results.len() implies decoded[i] == results[i] by {
        assert(call_ensures(decode_item, (documents[i],), decoded[i]));
    }
    assert(decoded == results);
}

/// Of a list of results, those that are there are taken, one after the other.
pub proof fn results_are_taken_in_order(
    results: Seq<Option<UncertainPhraseCandidateRaw>>,
    item: UncertainPhraseCandidateRaw,
)
    ensures
        those_decoded(Seq::empty()).len() == 0,
        those_decoded(results.push(Some(item))) == those_decoded(results).push(item),
        those_decoded(results.push(None)) == those_decoded(results),
{
    let f = |result: Option<UncertainPhraseCandidateRaw>| result;
    filter_map_push(results, Some(item), f);
    filter_map_push(results, None, f);
}

/// The phrases read out of a reply that decodes as a list are those that are collected from that
/// list, with the same session and context.
pub proof fn replies_are_read_as_lists_are_collected<F, G>(
    session_id: &str,
    fallback_context: &str,
    raw: &str,
    decode_list: F,
    decode_item: G,
    given: Vec<UncertainPhraseCandidateRaw>,
    read: Vec<UncertainPhraseCandidate>,
    collected: Vec<UncertainPhraseCandidate>,
) where
    F: Fn(String) -> Option<Vec<UncertainPhraseCandidateRaw>>,
    G: Fn(serde_json::Value) -> Option<UncertainPhraseCandidateRaw>,

    requires
        call_ensures(
            parse_uncertain_candidates::<F, G>,
            (session_id, fallback_context, raw, decode_list, decode_item),
            read,
        ),
        call_ensures(
            collect_uncertain_candidates,
            (session_id, fallback_context, given),
            collected,
        ),
        forall|text: String, list: Option<Vec<UncertainPhraseCandidateRaw>>| #[trigger]
            call_ensures(decode_list, (text,), list) && text@ == payload_of(raw@) ==> list == Some(
                given,
            ),
    ensures
        candidate_views(read@) == candidate_views(collected@),
{
}

/// The revisions are numbered from 1 and stand one to a line, each whole: one revision more adds
/// one line and leaves the others as they are.
pub proof fn revisions_are_numbered(lines: Seq<Seq<char>>, line: Seq<char>)
    ensures
        numbered_lines(Seq::empty()).len() == 0,
        numbered_lines(seq![line]) == seq!['1', '.', ' '] + line,
        lines.len() > 0 ==> numbered_lines(lines.push(line)) == numbered_lines(lines) + seq!['\n']
            + decimal(lines.len() + 1) + seq!['.', ' '] + line,
{
    reveal_strlit(". ");
    reveal_strlit("\n");
    assert(". "@ == seq!['.', ' ']);
    assert("\n"@ == seq!['\n']);
    assert(lines.push(line).drop_last() == lines);
    assert(decimal(1) == seq!['1']);
    assert(seq![line].last() == line);
}

/// The question about a transcript holds the recognized text, the pasted text and the revisions,
/// each whole and in its place; what stands before, between and behind them does not depend on
/// them.
pub proof fn questions_hold_the_texts_whole(
    asr_text: Seq<char>,
    final_text: Seq<char>,
    interim_history: Seq<Seq<char>>,
)
    ensures
        uncertain_user_prompt(asr_text, final_text, interim_history) == uncertain_user_prompt(
            seq![],
            seq![],
            seq![],
        ).take(UNCERTAIN_QUESTION@.len() as int) + asr_text + seq!['\n', '\n']
            + "Final corrected text:"@ + seq!['\n'] + final_text + seq!['\n', '\n']
            + "Interim revisions:"@ + seq!['\n'] + numbered_lines(interim_history),
        uncertain_user_prompt(seq![], seq![], seq![]).take(UNCERTAIN_QUESTION@.len() as int)
            == UNCERTAIN_QUESTION@,
{
    reveal_strlit("\n\nFinal corrected text:\n");
    reveal_strlit("Final corrected text:");
    reveal_strlit("\n\nInterim revisions:\n");
    reveal_strlit("Interim revisions:");
    assert("\n\nFinal corrected text:\n"@ == seq!['\n', '\n'] + "Final corrected text:"@ + seq![
        '\n',
    ]);
    assert("\n\nInterim revisions:\n"@ == seq!['\n', '\n'] + "Interim revisions:"@ + seq!['\n']);
    assert(uncertain_user_prompt(seq![], seq![], seq![]).take(UNCERTAIN_QUESTION@.len() as int)
        == UNCERTAIN_QUESTION@);
}

/// The phrases that are found by asking the language model are those that are read out of its
/// reply, in the context of the pasted text; there are none where it has failed to reply.
pub proof fn found_phrases_are_those_of_the_reply<F, G>(
    session_id: &str,
    final_text: &str,
    reply: Option<String>,
    decode_list: F,
    decode_item: G,
    given: Vec<UncertainPhraseCandidateRaw>,
    found: Vec<UncertainPhraseCandidate>,
    collected: Vec<UncertainPhraseCandidate>,
) where
    F: Fn(String) -> Option<Vec<UncertainPhraseCandidateRaw>>,
    G: Fn(serde_json::Value) -> Option<UncertainPhraseCandidateRaw>,

    requires
        call_ensures(
            extract_uncertain_phrases_with_llm::<F, G>,
            (session_id, final_text, reply, decode_list, decode_item),
            found,
        ),
        call_ensures(collect_uncertain_candidates, (session_id, final_text, given), collected),
        reply matches Some(raw) ==> forall|
            text: String,
            list: Option<Vec<UncertainPhraseCandidateRaw>>,
        | #[trigger]
            call_ensures(decode_list, (text,), list) && text@ == payload_of(raw@) ==> list == Some(
                given,
            ),
    ensures
        reply is Some ==> candidate_views(found@) == candidate_views(collected@),
        reply is None ==> found@.len() == 0,
{
}

/// A list of one described phrase that is not blank becomes one phrase for review, of the given
/// session, with all that was given of it.
pub proof fn one_phrase_is_collected_whole(
    session_id: &str,
    fallback_context: &str,
    items: Vec<UncertainPhraseCandidateRaw>,
    found: Vec<UncertainPhraseCandidate>,
    phrase: String,
)
    requires
        call_ensures(collect_uncertain_candidates, (session_id, fallback_context, items), found),
        items@.len() == 1,
        items@[0].phrase == Some(phrase),
        trimmed(phrase@).len() > 0,
    ensures
        found@.len() == 1,
        found@[0].session_id@ == session_id@,
        found@[0].phrase@ == trimmed(phrase@),
        items@[0].suggestion matches Some(suggestion) ==> found@[0].suggestion@ == trimmed(
            suggestion@,
        ),
        items@[0].suggestion is None ==> found@[0].suggestion@ == trimmed(phrase@),
        items@[0].reason matches Some(reason) ==> found@[0].reason@ == trimmed(reason@),
        items@[0].reason is None ==> found@[0].reason@.len() == 0,
        items@[0].context_text matches Some(context) ==> found@[0].context_text@ == trimmed(
            context@,
        ),
        items@[0].context_text is None ==> found@[0].context_text@ == trimmed(fallback_context@),
        items@[0].confidence matches Some(confidence) ==> found@[0].confidence
            == confidence.clamped_to_unit(),
        items@[0].confidence is None ==> found@[0].confidence.bits == 0x3fe0_0000_0000_0000,
{
    let raw = items@[0]@;
    given_fields_are_kept(session_id@, fallback_context@, raw);
    assert(raw_views(items@) == seq![raw]);
    assert(candidate_views(found@).len() == 1);
    assert(candidate_views(found@)[0] == found@[0]@);
}

/// The language model is asked about doubtful phrases with the recognized text, without a
/// dictionary, and with the question that holds all three texts.
pub proof fn questions_are_asked_about_the_texts(
    asr_text: &str,
    final_text: &str,
    interim_history: &[String],
    request: CorrectionRequest,
    prompt: String,
    instructions: &'static str,
)
    requires
        call_ensures(uncertain_request, (asr_text, final_text, interim_history), request),
        call_ensures(build_uncertain_user_prompt, (asr_text, final_text, interim_history), prompt),
        call_ensures(build_uncertain_system_prompt, (), instructions),
    ensures
        request.asr_text@ == asr_text@,
        request.dictionary_entries@.len() == 0,
        request.system_prompt@ == instructions@,
        request.user_prompt@ == prompt@,
        prompt@ == uncertain_user_prompt(asr_text@, final_text@, texts(interim_history@)),
{
}

/// The language model is asked to correct a text with what the session was planned with: its
/// instructions, the entries that are picked from its dictionary for that text up to its limit, and
/// its template, filled in with that text, those entries and the revisions.
pub proof fn corrections_are_asked_for_with_the_plan<F, G>(
    plan: SessionPlan,
    asr_text: String,
    interim_history: Vec<String>,
    filter: F,
    render: G,
    request: CorrectionRequest,
    entries: Vec<String>,
    user_prompt: String,
) where
    F: FnOnce(&Vec<String>, &String, usize) -> Vec<String>,
    G: FnOnce(&String, &String, &Vec<String>, &Vec<String>) -> String,

    requires
        call_ensures(
            request_correction::<F, G>,
            (&plan, asr_text, &interim_history, filter, render),
            request,
        ),
        forall|picked: Vec<String>| #[trigger]
            call_ensures(
                filter,
                (&plan.dictionary, &asr_text, plan.dictionary_max_candidates),
                picked,
            ) ==> picked == entries,
        forall|text: String| #[trigger]
            call_ensures(
                render,
                (&plan.user_prompt_template, &asr_text, &entries, &interim_history),
                text,
            ) ==> text == user_prompt,
    ensures
        request.asr_text == asr_text,
        request.dictionary_entries == entries,
        request.system_prompt == plan.system_prompt,
        request.user_prompt == user_prompt,
{
}

/// A request for a correction holds what it is made of, each in its place.
pub proof fn requests_hold_what_they_are_made_of(
    plan: SessionPlan,
    asr_text: String,
    candidates: Vec<String>,
    user_prompt: String,
    request: CorrectionRequest,
)
    requires
        call_ensures(correction_request, (&plan, asr_text, candidates, user_prompt), request),
    ensures
        request.asr_text == asr_text,
        request.dictionary_entries == candidates,
        request.system_prompt == plan.system_prompt,
        request.user_prompt == user_prompt,
{
}

/// Where phrases are found, the user interface is told what is made of them, all of them; where
/// none are, nothing.
pub proof fn found_phrases_are_reported<E>(
    found: Vec<UncertainPhraseCandidate>,
    encode: E,
    report: Option<String>,
    encoded: Option<String>,
) where E: Fn(Vec<UncertainPhraseCandidate>) -> Option<String>
    requires
        call_ensures(uncertain_report::<E>, (found, encode), report),
        forall|text: Option<String>| #[trigger]
            call_ensures(encode, (found,), text) ==> text == encoded,
    ensures
        found@.len() == 0 ==> report is None,
        found@.len() > 0 ==> report == encoded,
{
}

} // verus!
