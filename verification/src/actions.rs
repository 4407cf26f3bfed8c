//! From a finished recording to the text that is handed out.

use crate::json;
use crate::llm_client;
use crate::llm_client::{choose_prompt, lookup, PostProcessSettings};
use crate::text;
use crate::text::{concat2, replace};
use crate::text_utils;
use crate::text_utils::convert_chinese_variant;
use vstd::prelude::*;
use vstd::string::*;

verus! {

/// What a recording came to.
pub struct TranscriptionResult {
    pub text: String,
    pub post_processed: Option<String>,
}

/// The text of a recording, in the variant of Chinese that the language asks for. There is none
/// where nothing was recorded or the transcription failed.
pub fn transcribed_text(
    transcription: Option<Result<String, String>>,
    language: &str,
) -> (r: Result<
    String,
    String,
>)
    ensures
        match transcription {
            None => r matches Err(e) && e@ == "No samples retrieved"@,
            Some(Err(cause)) => r matches Err(e) && e@ == "Transcription failed: "@ + cause@,
            Some(Ok(t)) => r matches Ok(done) && done@ == text_utils::converted(t@, language@),
        },
{
    match transcription {
        None => Err("No samples retrieved".to_owned()),
        Some(Err(cause)) => Err(concat2("Transcription failed: ", cause.as_str())),
        Some(Ok(t)) => Ok(convert_chinese_variant(t.as_str(), language)),
    }
}

/// A text is post-processed: that was asked for, the settings allow it, and there are a key and a
/// prompt.
pub open spec fn is_post_processed(s: PostProcessSettings, asked: bool) -> bool {
    &&& asked
    &&& s.enabled
    &&& llm_client::given(llm_client::found(json::pair_views(s.api_keys@), s.provider_id@, 0))
    &&& llm_client::chosen_prompt(s.prompts@, text::opt_view(s.selected_prompt_id)) is Some
}

/// The prompt by which a text is post-processed, if it is: the text takes the place of `${output}`.
pub fn post_process_transcription(settings: &PostProcessSettings, asked: bool, text: &str) -> (r:
    Option<String>)
    ensures
        match r {
            Some(prompt) => {
                &&& is_post_processed(*settings, asked)
                &&& prompt@ == text::replaced(
                    settings.prompts@[llm_client::chosen_prompt(
                        settings.prompts@,
                        text::opt_view(settings.selected_prompt_id),
                    )->0].prompt@,
                    "${output}"@,
                    text@,
                )
            },
            None => !is_post_processed(*settings, asked),
        },
{
    if !asked || !settings.enabled {
        return None;
    }
    match lookup(&settings.api_keys, settings.provider_id.as_str()) {
        Some(key) => if key.as_str().is_empty() {
            return None;
        },
        None => {
            return None;
        },
    }
    proof {
        reveal_strlit("${output}");
    }
    match choose_prompt(&settings.prompts, &settings.selected_prompt_id) {
        Some(i) => Some(replace(settings.prompts[i].prompt.as_str(), "${output}", text)),
        None => None,
    }
}

/// What a recording came to, given the service's answer to its prompt, if there was one.
pub fn transcription_result(text: String, answer: Option<String>) -> (r: TranscriptionResult)
    ensures
        r.text@ == text@,
        text::opt_view(r.post_processed) == text::opt_view(answer),
{
    TranscriptionResult { text, post_processed: answer }
}

/// A finished text is post-processed whenever that was asked for, is switched on, and the chosen
/// service has a key that is not empty and there is a prompt to use; a model is not needed for that.
pub proof fn law_asked_for_text_is_post_processed(
    s: PostProcessSettings,
    asked: bool,
    key: Seq<char>,
    i: int,
)
    requires
        0 <= i < s.api_keys@.len(),
        s.api_keys@[i].0@ == s.provider_id@ && s.api_keys@[i].1@ == key,
        forall|k: int| 0 <= k < i ==> (#[trigger] s.api_keys@[k]).0@ != s.provider_id@,
        s.prompts@.len() > 0,
        s.selected_prompt_id is None,
    ensures
        is_post_processed(s, asked) <==> asked && s.enabled && key.len() > 0,
{
    let keys = json::pair_views(s.api_keys@);
    assert forall|k: int| 0 <= k < i implies (#[trigger] keys[k]).0 != s.provider_id@ by {
        assert(s.api_keys@[k].0@ != s.provider_id@);
    }
    assert(keys[i] == (s.api_keys@[i].0@, s.api_keys@[i].1@));
    llm_client::law_first_pair_is_found(keys, s.provider_id@, i);
}

} // verus!
