//! Post-processing by a language model: what is asked of the service, and what its answers mean.

use crate::json;
use crate::json::{
    json_array_len, json_field, json_parse_error, json_string, write_object, JsonField, JsonValue,
    JsonView,
};
use crate::settings::{LLMPrompt, PostProcessProvider};
use crate::text;
use crate::text::{concat2, decimal, replace, same_text, trim_end_char};
use reqwest::header::HeaderValue;
use vstd::prelude::*;
use vstd::string::*;

verus! {

/// The names and values of a list of pairs, by the first of which a value is found.
pub open spec fn found(pairs: Seq<(Seq<char>, Seq<char>)>, key: Seq<char>, from: int) -> Option<
    Seq<char>,
>
    decreases pairs.len() - from,
{
    if from < 0 || from >= pairs.len() {
        None
    } else if pairs[from].0 == key {
        Some(pairs[from].1)
    } else {
        found(pairs, key, from + 1)
    }
}

/// The value of a key.
pub fn lookup(pairs: &Vec<(String, String)>, key: &str) -> (r: Option<String>)
    ensures
        text::opt_view(r) == found(json::pair_views(pairs@), key@, 0),
{
    let ghost all = json::pair_views(pairs@);
    let mut i: usize = 0;
    while i < pairs.len()
        invariant
            i <= pairs@.len(),
            all == json::pair_views(pairs@),
            found(all, key@, 0) == found(all, key@, i as int),
        decreases pairs@.len() - i,
    {
        assert(all[i as int] == (pairs@[i as int].0@, pairs@[i as int].1@));
        if same_text(pairs[i].0.as_str(), key) {
            return Some(pairs[i].1.clone());
        }
        i += 1;
    }
    None
}

proof fn lemma_found_in_map(
    pairs: Seq<(Seq<char>, Seq<char>)>,
    m: Map<Seq<char>, Seq<char>>,
    key: Seq<char>,
    from: int,
)
    requires
        json::holds_map(pairs, m),
        0 <= from <= pairs.len(),
        forall|i: int| 0 <= i < from ==> (#[trigger] pairs[i]).0 != key,
    ensures
        found(pairs, key, from) == (if m.contains_key(key) {
            Some(m[key])
        } else {
            None
        }),
    decreases pairs.len() - from,
{
    if from < pairs.len() && pairs[from].0 != key {
        lemma_found_in_map(pairs, m, key, from + 1);
    }
}

/// What is found in the pairs of a map is what the map holds, in whatever order they come.
pub proof fn law_pairs_are_found_as_in_their_map(
    pairs: Seq<(Seq<char>, Seq<char>)>,
    m: Map<Seq<char>, Seq<char>>,
    key: Seq<char>,
)
    requires
        json::holds_map(pairs, m),
    ensures
        found(pairs, key, 0) == (if m.contains_key(key) {
            Some(m[key])
        } else {
            None
        }),
{
    lemma_found_in_map(pairs, m, key, 0);
}

/// Keys, models and addresses survive storage: what was found under a key before the pairs were
/// stored is found after they have been read back, and nothing else is.
pub proof fn law_stored_pairs_are_found_again(
    pairs: Seq<(Seq<char>, Seq<char>)>,
    text: Seq<char>,
    read: Seq<(Seq<char>, Seq<char>)>,
    key: Seq<char>,
)
    requires
        json::keys_differ(pairs),
        json::text_map(text) == Some(json::pair_map(pairs)),
        json::text_map(text) matches Some(m) && json::holds_map(read, m),
    ensures
        found(read, key, 0) == found(pairs, key, 0),
{
    json::lemma_pairs_hold_their_map(pairs);
    lemma_found_in_map(pairs, json::pair_map(pairs), key, 0);
    lemma_found_in_map(read, json::pair_map(pairs), key, 0);
}

/// The address of a service that the user has not changed.
pub open spec fn default_url(id: Seq<char>) -> Seq<char> {
    if id == "openai"@ {
        "https://api.openai.com/v1"@
    } else if id == "anthropic"@ {
        "https://api.anthropic.com/v1"@
    } else if id == "openrouter"@ {
        "https://openrouter.ai/api/v1"@
    } else if id == "groq"@ {
        "https://api.groq.com/openai/v1"@
    } else if id == "cerebras"@ {
        "https://api.cerebras.ai/v1"@
    } else {
        "http://localhost:11434/v1"@
    }
}

/// The address of a service that the user has not changed.
pub fn default_base_url(id: &str) -> (r: String)
    ensures
        r@ == default_url(id@),
{
    if same_text(id, "openai") {
        "https://api.openai.com/v1".to_owned()
    } else if same_text(id, "anthropic") {
        "https://api.anthropic.com/v1".to_owned()
    } else if same_text(id, "openrouter") {
        "https://openrouter.ai/api/v1".to_owned()
    } else if same_text(id, "groq") {
        "https://api.groq.com/openai/v1".to_owned()
    } else if same_text(id, "cerebras") {
        "https://api.cerebras.ai/v1".to_owned()
    } else {
        "http://localhost:11434/v1".to_owned()
    }
}

/// The provider is the one of an id, at the address that the user gave or at its own.
pub open spec fn is_provider(
    p: PostProcessProvider,
    id: Seq<char>,
    urls: Seq<(Seq<char>, Seq<char>)>,
) -> bool {
    &&& p.id@ == id
    &&& p.label@ == id
    &&& p.base_url@ == (match found(urls, id, 0) {
        Some(url) => url,
        None => default_url(id),
    })
    &&& p.allow_base_url_edit == (id == "custom"@)
}

/// The provider of an id.
pub fn get_provider(provider_id: &str, base_urls: &Vec<(String, String)>) -> (r:
    PostProcessProvider)
    ensures
        is_provider(r, provider_id@, json::pair_views(base_urls@)),
{
    let base_url = match lookup(base_urls, provider_id) {
        Some(url) => url,
        None => default_base_url(provider_id),
    };
    PostProcessProvider {
        id: provider_id.to_owned(),
        label: provider_id.to_owned(),
        base_url,
        allow_base_url_edit: same_text(provider_id, "custom"),
    }
}

/// A header's value may hold this character: a tab, or anything but a control character.
pub open spec fn header_char(c: char) -> bool {
    c == '\t' || (c as int >= 32 && c as int != 127)
}

/// The text can be a header's value.
pub open spec fn header_safe(s: Seq<char>) -> bool {
    forall|i: int| 0 <= i < s.len() ==> header_char(#[trigger] s[i])
}

/// Calls `HeaderValue::from_str`: nothing comes back where it accepts the text, which it does
/// exactly if every byte is a tab or neither a control character nor 127 (the bytes of a
/// character beyond ASCII are all above 127). Otherwise its error's message, always the same.
#[verifier::external_body]
fn header_value_error(value: &str) -> (r: Option<String>)
    ensures
        match r {
            Some(e) => !header_safe(value@) && e@ == "failed to parse header value"@,
            None => header_safe(value@),
        },
{
    HeaderValue::from_str(value).err().map(|e| e.to_string())
}

/// A request's headers that do not depend on the key.
pub open spec fn fixed_headers() -> Seq<(Seq<char>, Seq<char>)> {
    seq![
        ("content-type"@, "application/json"@),
        ("referer"@, "https://github.com/rohithmahesh3/Dikt"@),
        ("user-agent"@, "Dikt/1.0 (+https://github.com/rohithmahesh3/Dikt)"@),
        ("x-title"@, "Dikt"@),
    ]
}

/// The headers that carry the key.
pub open spec fn key_headers(provider_id: Seq<char>, api_key: Seq<char>) -> Seq<
    (Seq<char>, Seq<char>),
> {
    if api_key.len() == 0 {
        Seq::empty()
    } else if provider_id == "anthropic"@ {
        seq![("x-api-key"@, api_key), ("anthropic-version"@, "2023-06-01"@)]
    } else {
        seq![("authorization"@, "Bearer "@ + api_key)]
    }
}

fn pair(a: &str, b: &str) -> (p: (String, String))
    ensures
        p.0@ == a@,
        p.1@ == b@,
{
    (a.to_owned(), b.to_owned())
}

/// A request's headers; an error where the key cannot stand in one.
pub fn build_headers(provider_id: &str, api_key: &str) -> (r: Result<Vec<(String, String)>, String>)
    ensures
        match r {
            Ok(h) => header_safe(api_key@) && json::pair_views(h@) == fixed_headers()
                + key_headers(provider_id@, api_key@),
            Err(e) => !header_safe(api_key@) && e@ == (if provider_id@ == "anthropic"@ {
                "Invalid API key header value: failed to parse header value"@
            } else {
                "Invalid authorization header value: failed to parse header value"@
            }),
        },
{
    let mut h: Vec<(String, String)> = Vec::new();
    h.push(pair("content-type", "application/json"));
    h.push(pair("referer", "https://github.com/rohithmahesh3/Dikt"));
    h.push(pair("user-agent", "Dikt/1.0 (+https://github.com/rohithmahesh3/Dikt)"));
    h.push(pair("x-title", "Dikt"));
    if api_key.is_empty() {
        assert(header_safe(api_key@));
        assert(json::pair_views(h@) =~= fixed_headers() + key_headers(provider_id@, api_key@));
        return Ok(h);
    }
    if same_text(provider_id, "anthropic") {
        if let Some(e) = header_value_error(api_key) {
            let m = concat2("Invalid API key header value: ", e.as_str());
            proof {
                reveal_strlit("Invalid API key header value: ");
                reveal_strlit("failed to parse header value");
                reveal_strlit("Invalid API key header value: failed to parse header value");
                assert(m@ =~= "Invalid API key header value: failed to parse header value"@);
            }
            return Err(m);
        }
        h.push(pair("x-api-key", api_key));
        h.push(pair("anthropic-version", "2023-06-01"));
        assert(json::pair_views(h@) =~= fixed_headers() + key_headers(provider_id@, api_key@));
    } else {
        let value = concat2("Bearer ", api_key);
        proof {
            lemma_bearer(api_key@);
        }
        if let Some(e) = header_value_error(value.as_str()) {
            let m = concat2("Invalid authorization header value: ", e.as_str());
            proof {
                reveal_strlit("Invalid authorization header value: ");
                reveal_strlit("failed to parse header value");
                reveal_strlit("Invalid authorization header value: failed to parse header value");
                assert(m@ =~= "Invalid authorization header value: failed to parse header value"@);
            }
            return Err(m);
        }
        h.push(pair("authorization", value.as_str()));
        assert(json::pair_views(h@) =~= fixed_headers() + key_headers(provider_id@, api_key@));
    }
    Ok(h)
}

proof fn lemma_bearer(key: Seq<char>)
    ensures
        header_safe("Bearer "@ + key) == header_safe(key),
{
    reveal_strlit("Bearer ");
    let whole = "Bearer "@ + key;
    assert("Bearer "@.len() == 7);
    if header_safe(whole) {
        assert forall|i: int| 0 <= i < key.len() implies header_char(#[trigger] key[i]) by {
            assert(whole[i + 7] == key[i]);
        }
    }
    if header_safe(key) {
        assert forall|i: int| 0 <= i < whole.len() implies header_char(#[trigger] whole[i]) by {
            if i >= 7 {
                assert(whole[i] == key[i - 7]);
            }
        }
    }
}

/// The address of a service's function: its base address without trailing slashes, and the path.
pub open spec fn endpoint(base_url: Seq<char>, path: Seq<char>) -> Seq<char> {
    text::drop_char(base_url, '/') + path
}

/// The path of the function that completes a chat.
pub open spec fn chat_path(provider_id: Seq<char>) -> Seq<char> {
    if provider_id == "anthropic"@ {
        "/messages"@
    } else {
        "/chat/completions"@
    }
}

/// The address to which a prompt is sent.
pub fn chat_url(provider: &PostProcessProvider) -> (r: String)
    ensures
        r@ == endpoint(provider.base_url@, chat_path(provider.id@)),
{
    let base = trim_end_char(provider.base_url.as_str(), '/');
    if same_text(provider.id.as_str(), "anthropic") {
        concat2(base.as_str(), "/messages")
    } else {
        concat2(base.as_str(), "/chat/completions")
    }
}

/// The address from which the models are listed.
pub fn models_url(provider: &PostProcessProvider) -> (r: String)
    ensures
        r@ == endpoint(provider.base_url@, "/models"@),
{
    concat2(trim_end_char(provider.base_url.as_str(), '/').as_str(), "/models")
}

/// The messages of a prompt.
pub open spec fn prompt_messages(prompt: Seq<char>) -> Seq<Seq<(Seq<char>, Seq<char>)>> {
    seq![seq![("role"@, "user"@), ("content"@, prompt)]]
}

/// The fields of a request for messages.
pub open spec fn messages_fields(
    model: Seq<char>,
    prompt: Seq<char>,
) -> Seq<(Seq<char>, JsonView)> {
    seq![
        ("model"@, JsonView::Text(model)),
        ("max_tokens"@, JsonView::Unsigned(4096)),
        ("messages"@, JsonView::Objects(prompt_messages(prompt))),
    ]
}

/// The body of a request for messages.
pub fn messages_body(model: &str, prompt: &str) -> (r: String)
    ensures
        r@ == json::object_text(messages_fields(model@, prompt@)),
{
    let mut message: Vec<(String, String)> = Vec::new();
    message.push(pair("role", "user"));
    message.push(pair("content", prompt));
    let ghost m = message@;
    let mut messages: Vec<Vec<(String, String)>> = Vec::new();
    messages.push(message);
    let mut f: Vec<JsonField> = Vec::new();
    f.push(json_field("model", JsonValue::Text(model.to_owned())));
    f.push(json_field("max_tokens", JsonValue::Unsigned(4096)));
    let list = JsonValue::Objects(messages);
    proof {
        assert(json::pair_views(m) =~= seq![("role"@, "user"@), ("content"@, prompt@)]);
        assert(list@->Objects_0 =~= prompt_messages(prompt@));
    }
    f.push(json_field("messages", list));
    assert(json::field_views(f@) =~= messages_fields(model@, prompt@));
    write_object(&f)
}

/// A message of a chat.
pub struct ChatMessage {
    pub role: String,
    pub content: String,
}

/// A request to complete a chat.
pub struct ChatCompletionRequest {
    pub model: String,
    pub messages: Vec<ChatMessage>,
}

/// The request for a prompt.
pub fn chat_request(model: &str, prompt: String) -> (r: ChatCompletionRequest)
    ensures
        r.model@ == model@,
        r.messages@.len() == 1,
        r.messages@[0].role@ == "user"@,
        r.messages@[0].content@ == prompt@,
{
    let mut messages: Vec<ChatMessage> = Vec::new();
    messages.push(ChatMessage { role: "user".to_owned(), content: prompt });
    ChatCompletionRequest { model: model.to_owned(), messages }
}

/// What the service answered to a request for messages: the text of the first block of content.
pub open spec fn messages_answer(body: Seq<char>) -> Option<Seq<char>> {
    match json::array_len_at(body, "/content"@) {
        Some(n) => if n > 0 {
            json::string_at(body, "/content/0/text"@)
        } else {
            None
        },
        None => None,
    }
}

/// The text in the answer to a request for messages, if there is one; an error where the answer is
/// no JSON.
pub fn messages_reply(body: &str) -> (r: Result<Option<String>, String>)
    ensures
        match r {
            Ok(reply) => json::parse_error(body@) is None && text::opt_view(reply)
                == messages_answer(body@),
            Err(e) => json::parse_error(body@) is Some && e@
                == "Failed to parse API response: error decoding response body"@,
        },
{
    if json_parse_error(body).is_some() {
        return Err("Failed to parse API response: error decoding response body".to_owned());
    }
    Ok(first_content(body))
}

fn first_content(body: &str) -> (r: Option<String>)
    ensures
        text::opt_view(r) == messages_answer(body@),
{
    match json_array_len(body, "/content") {
        Some(n) => if n > 0 {
            json_string(body, "/content/0/text")
        } else {
            None
        },
        None => None,
    }
}

/// The text in the answer to a chat: that of the first choice, if there is one.
pub fn chat_reply(choices: &Vec<Option<String>>) -> (r: Option<String>)
    ensures
        text::opt_view(r) == (if choices@.len() > 0 {
            text::opt_view(choices@[0])
        } else {
            None
        }),
{
    if choices.len() > 0 {
        match &choices[0] {
            Some(s) => Some(s.clone()),
            None => None,
        }
    } else {
        None
    }
}

/// What is said of a refused request.
pub fn request_refused(status: &str, error_text: &str) -> (r: String)
    ensures
        r@ == "API request failed with status "@ + status@ + ": "@ + error_text@,
{
    let mut r = concat2("API request failed with status ", status);
    r.append(": ");
    r.append(error_text);
    r
}

/// What is said of a refused list of models.
pub fn model_list_refused(status: &str, error_text: &str) -> (r: String)
    ensures
        r@ == "Model list request failed ("@ + status@ + "): "@ + error_text@,
{
    let mut r = concat2("Model list request failed (", status);
    r.append("): ");
    r.append(error_text);
    r
}

/// The pointer of an entry of a list, with a field's name behind it.
pub open spec fn entry_pointer(list: Seq<char>, i: nat, field: Seq<char>) -> Seq<char> {
    list + text::dec(i) + field
}

/// The name of a model in a keyed list: its id, or else its name.
pub open spec fn keyed_name(body: Seq<char>, i: nat) -> Option<Seq<char>> {
    match json::string_at(body, entry_pointer("/data/"@, i, "/id"@)) {
        Some(id) => Some(id),
        None => json::string_at(body, entry_pointer("/data/"@, i, "/name"@)),
    }
}

/// The name of a model in a bare list.
pub open spec fn bare_name(body: Seq<char>, i: nat) -> Option<Seq<char>> {
    json::string_at(body, entry_pointer("/"@, i, ""@))
}

/// The names of the first `n` models of a list; entries without one are left out.
pub open spec fn model_names(body: Seq<char>, keyed: bool, n: nat) -> Seq<Seq<char>>
    decreases n,
{
    if n == 0 {
        Seq::empty()
    } else {
        let before = model_names(body, keyed, (n - 1) as nat);
        let name = if keyed {
            keyed_name(body, (n - 1) as nat)
        } else {
            bare_name(body, (n - 1) as nat)
        };
        match name {
            Some(s) => before.push(s),
            None => before,
        }
    }
}

/// The models that an answer lists: under its data, or else as a bare list.
pub open spec fn listed_models(body: Seq<char>) -> Seq<Seq<char>> {
    match json::array_len_at(body, "/data"@) {
        Some(n) => model_names(body, true, n),
        None => match json::array_len_at(body, ""@) {
            Some(n) => model_names(body, false, n),
            None => Seq::empty(),
        },
    }
}

fn pointer_to(list: &str, i: usize, field: &str) -> (r: String)
    ensures
        r@ == entry_pointer(list@, i as nat, field@),
{
    let mut r = concat2(list, decimal(i as u64).as_str());
    r.append(field);
    r
}

fn names_of(body: &str, keyed: bool, n: usize) -> (r: Vec<String>)
    ensures
        text::views(r@) == model_names(body@, keyed, n as nat),
{
    let mut r: Vec<String> = Vec::new();
    let mut i: usize = 0;
    assert(text::views(r@) =~= Seq::<Seq<char>>::empty());
    while i < n
        invariant
            i <= n,
            text::views(r@) == model_names(body@, keyed, i as nat),
        decreases n - i,
    {
        let name = if keyed {
            match json_string(body, pointer_to("/data/", i, "/id").as_str()) {
                Some(id) => Some(id),
                None => json_string(body, pointer_to("/data/", i, "/name").as_str()),
            }
        } else {
            json_string(body, pointer_to("/", i, "").as_str())
        };
        let ghost before = r@;
        if let Some(s) = name {
            r.push(s);
            assert(text::views(r@) =~= text::views(before).push(s@));
        }
        i += 1;
    }
    r
}

/// The models that an answer lists; an error where the answer is no JSON.
pub fn models_from_answer(body: &str) -> (r: Result<Vec<String>, String>)
    ensures
        match r {
            Ok(models) => json::parse_error(body@) is None && text::views(models@)
                == listed_models(body@),
            Err(e) => json::parse_error(body@) is Some && e@
                == "Failed to parse response: error decoding response body"@,
        },
{
    if json_parse_error(body).is_some() {
        return Err("Failed to parse response: error decoding response body".to_owned());
    }
    Ok(models_in(body))
}

fn models_in(body: &str) -> (r: Vec<String>)
    ensures
        text::views(r@) == listed_models(body@),
{
    match json_array_len(body, "/data") {
        Some(n) => names_of(body, true, n),
        None => match json_array_len(body, "") {
            Some(n) => names_of(body, false, n),
            None => {
                let r: Vec<String> = Vec::new();
                assert(text::views(r@) =~= Seq::<Seq<char>>::empty());
                r
            },
        },
    }
}

/// What the settings say about post-processing.
pub struct PostProcessSettings {
    pub enabled: bool,
    pub provider_id: String,
    pub api_keys: Vec<(String, String)>,
    pub models: Vec<(String, String)>,
    pub base_urls: Vec<(String, String)>,
    pub prompts: Vec<LLMPrompt>,
    pub selected_prompt_id: Option<String>,
}

/// A request to post-process a text.
pub struct PostProcessRequest {
    pub provider: PostProcessProvider,
    pub api_key: String,
    pub model: String,
    pub prompt_text: String,
}

/// The place of the prompt with an id.
pub open spec fn prompt_place(prompts: Seq<LLMPrompt>, id: Seq<char>, from: int) -> Option<int>
    decreases prompts.len() - from,
{
    if from < 0 || from >= prompts.len() {
        None
    } else if prompts[from].id@ == id {
        Some(from)
    } else {
        prompt_place(prompts, id, from + 1)
    }
}

/// The prompt that is used: the selected one, or the first where none is selected.
pub open spec fn chosen_prompt(
    prompts: Seq<LLMPrompt>,
    selected: Option<Seq<char>>,
) -> Option<int> {
    match selected {
        Some(id) => prompt_place(prompts, id, 0),
        None => if prompts.len() > 0 {
            Some(0)
        } else {
            None
        },
    }
}

/// A value that is there and not empty.
pub open spec fn given(v: Option<Seq<char>>) -> bool {
    v matches Some(s) && s.len() > 0
}

/// Post-processing is asked for, and all that it needs is there.
pub open spec fn can_post_process(s: PostProcessSettings) -> bool {
    &&& s.enabled
    &&& given(found(json::pair_views(s.api_keys@), s.provider_id@, 0))
    &&& given(found(json::pair_views(s.models@), s.provider_id@, 0))
    &&& chosen_prompt(s.prompts@, text::opt_view(s.selected_prompt_id)) is Some
}

/// The prompt that is used: the selected one, or the first where none is selected.
pub fn choose_prompt(prompts: &Vec<LLMPrompt>, selected: &Option<String>) -> (r: Option<usize>)
    ensures
        match r {
            Some(i) => chosen_prompt(prompts@, text::opt_view(*selected)) == Some(i as int) && i
                < prompts@.len(),
            None => chosen_prompt(prompts@, text::opt_view(*selected)) is None,
        },
{
    match selected {
        Some(id) => {
            let mut i: usize = 0;
            while i < prompts.len()
                invariant
                    i <= prompts@.len(),
                    text::opt_view(*selected) == Some(id@),
                    prompt_place(prompts@, id@, 0) == prompt_place(prompts@, id@, i as int),
                decreases prompts@.len() - i,
            {
                if same_text(prompts[i].id.as_str(), id.as_str()) {
                    return Some(i);
                }
                i += 1;
            }
            None
        },
        None => if prompts.len() > 0 {
            Some(0)
        } else {
            None
        },
    }
}

/// The request to post-process a text, if that is asked for and all that it needs is there: the
/// text takes the place of `${output}` in the prompt.
pub fn build_post_process_request(settings: &PostProcessSettings, text: &str) -> (r: Option<
    PostProcessRequest,
>)
    ensures
        match r {
            Some(q) => {
                &&& can_post_process(*settings)
                &&& is_provider(
                    q.provider,
                    settings.provider_id@,
                    json::pair_views(settings.base_urls@),
                )
                &&& Some(q.api_key@) == found(
                    json::pair_views(settings.api_keys@),
                    settings.provider_id@,
                    0,
                )
                &&& Some(q.model@) == found(
                    json::pair_views(settings.models@),
                    settings.provider_id@,
                    0,
                )
                &&& q.prompt_text@ == text::replaced(
                    settings.prompts@[chosen_prompt(
                        settings.prompts@,
                        text::opt_view(settings.selected_prompt_id),
                    )->0].prompt@,
                    "${output}"@,
                    text@,
                )
            },
            None => !can_post_process(*settings),
        },
{
    if !settings.enabled {
        return None;
    }
    let id = settings.provider_id.as_str();
    let api_key = match lookup(&settings.api_keys, id) {
        Some(k) => k,
        None => {
            return None;
        },
    };
    if api_key.as_str().is_empty() {
        return None;
    }
    let model = match lookup(&settings.models, id) {
        Some(m) => m,
        None => {
            return None;
        },
    };
    if model.as_str().is_empty() {
        return None;
    }
    let chosen: usize = match choose_prompt(&settings.prompts, &settings.selected_prompt_id) {
        Some(i) => i,
        None => {
            return None;
        },
    };
    let provider = get_provider(id, &settings.base_urls);
    proof {
        reveal_strlit("${output}");
    }
    let prompt_text = replace(settings.prompts[chosen].prompt.as_str(), "${output}", text);
    Some(PostProcessRequest { provider, api_key, model, prompt_text })
}

/// The key and the model for a call, where both are there: a call without them is not made.
pub fn plan_call(settings: &PostProcessSettings) -> (r: Option<(String, String)>)
    ensures
        match r {
            Some(p) => given(
                found(json::pair_views(settings.api_keys@), settings.provider_id@, 0),
            ) && given(found(json::pair_views(settings.models@), settings.provider_id@, 0))
                && Some(p.0@) == found(
                json::pair_views(settings.api_keys@),
                settings.provider_id@,
                0,
            ) && Some(p.1@) == found(
                json::pair_views(settings.models@),
                settings.provider_id@,
                0,
            ),
            None => !(given(found(json::pair_views(settings.api_keys@), settings.provider_id@, 0))
                && given(found(json::pair_views(settings.models@), settings.provider_id@, 0))),
        },
{
    let id = settings.provider_id.as_str();
    match lookup(&settings.api_keys, id) {
        Some(key) => {
            if key.as_str().is_empty() {
                return None;
            }
            match lookup(&settings.models, id) {
                Some(model) => if model.as_str().is_empty() {
                    None
                } else {
                    Some((key, model))
                },
                None => None,
            }
        },
        None => None,
    }
}

proof fn lemma_no_place(s: Seq<char>, p: Seq<char>, t: Seq<char>, i: int)
    requires
        0 <= i <= s.len(),
        forall|k: int| i <= k ==> !text::occurs_at(s, p, k),
    ensures
        text::replaced_from(s, p, t, i) == s.skip(i),
    decreases s.len() - i,
{
    if i < s.len() {
        lemma_no_place(s, p, t, i + 1);
        assert(seq![s[i]] + s.skip(i + 1) =~= s.skip(i));
    } else {
        assert(s.skip(i) =~= Seq::<char>::empty());
    }
}

/// A prompt without a place for the text is sent as it is, and one that is nothing but the place
/// is sent as the text alone.
pub proof fn law_prompt_takes_the_text(prompt: Seq<char>, t: Seq<char>)
    ensures
        !text::occurs_in(prompt, "${output}"@) ==> text::replaced(prompt, "${output}"@, t) == prompt,
        text::replaced("${output}"@, "${output}"@, t) == t,
{
    let p = "${output}"@;
    reveal_strlit("${output}");
    if !text::occurs_in(prompt, p) {
        lemma_no_place(prompt, p, t, 0);
        assert(prompt.skip(0) =~= prompt);
    }
    assert(p.subrange(0, p.len() as int) =~= p);
    assert(text::occurs_at(p, p, 0));
    assert(text::replaced_from(p, p, t, p.len() as int) =~= Seq::<char>::empty());
    assert(t + Seq::<char>::empty() =~= t);
}

/// Trailing slashes of a service's address make no difference.
pub proof fn law_trailing_slash_is_ignored(base_url: Seq<char>, path: Seq<char>)
    ensures
        endpoint(base_url.push('/'), path) == endpoint(base_url, path),
{
    assert(base_url.push('/').drop_last() =~= base_url);
}

/// An answer that is JSON and lists at least one block of content, be it one or many, answers with
/// the text of the first block where that has one; an answer without blocks, or without a list of
/// them, answers nothing.
pub proof fn law_first_block_is_the_reply(body: Seq<char>, blocks: nat)
    ensures
        json::array_len_at(body, "/content"@) == Some(blocks) && blocks >= 1 ==> messages_answer(body)
            == json::string_at(body, "/content/0/text"@),
        json::array_len_at(body, "/content"@) == Some(0nat) ==> messages_answer(body) is None,
        json::array_len_at(body, "/content"@) is None ==> messages_answer(body) is None,
{
}

/// The value of the first pair with a key is found, whatever stands around it; a key that no pair
/// has is not found.
pub proof fn law_first_pair_is_found(
    pairs: Seq<(Seq<char>, Seq<char>)>,
    key: Seq<char>,
    i: int,
)
    ensures
        0 <= i < pairs.len() && pairs[i].0 == key && (forall|k: int|
            0 <= k < i ==> (#[trigger] pairs[k]).0 != key) ==> found(pairs, key, 0) == Some(
            pairs[i].1,
        ),
        (forall|k: int| 0 <= k < pairs.len() ==> (#[trigger] pairs[k]).0 != key) ==> found(
            pairs,
            key,
            0,
        ) is None,
{
    if 0 <= i < pairs.len() && pairs[i].0 == key && (forall|k: int|
        0 <= k < i ==> (#[trigger] pairs[k]).0 != key) {
        lemma_found_at(pairs, key, 0, i);
    }
    if forall|k: int| 0 <= k < pairs.len() ==> (#[trigger] pairs[k]).0 != key {
        lemma_not_found(pairs, key, 0);
    }
}

proof fn lemma_found_at(pairs: Seq<(Seq<char>, Seq<char>)>, key: Seq<char>, from: int, i: int)
    requires
        0 <= from <= i < pairs.len(),
        pairs[i].0 == key,
        forall|k: int| 0 <= k < i ==> (#[trigger] pairs[k]).0 != key,
    ensures
        found(pairs, key, from) == Some(pairs[i].1),
    decreases i - from,
{
    if from < i {
        lemma_found_at(pairs, key, from + 1, i);
    }
}

proof fn lemma_not_found(pairs: Seq<(Seq<char>, Seq<char>)>, key: Seq<char>, from: int)
    requires
        0 <= from,
        forall|k: int| 0 <= k < pairs.len() ==> (#[trigger] pairs[k]).0 != key,
    ensures
        found(pairs, key, from) is None,
    decreases pairs.len() - from,
{
    if from < pairs.len() {
        lemma_not_found(pairs, key, from + 1);
    }
}

/// A service is reached at the address that the user has given for it, whatever it is, and at its
/// own otherwise: the known services each have one, and any other is taken to run on this machine.
/// Only the address of the service called custom can be edited.
pub proof fn law_given_address_is_used(
    p: PostProcessProvider,
    id: Seq<char>,
    urls: Seq<(Seq<char>, Seq<char>)>,
    i: int,
)
    requires
        is_provider(p, id, urls),
    ensures
        p.id@ == id,
        p.label@ == id,
        p.allow_base_url_edit <==> id == "custom"@,
        0 <= i < urls.len() && urls[i].0 == id && (forall|k: int|
            0 <= k < i ==> (#[trigger] urls[k]).0 != id) ==> p.base_url@ == urls[i].1,
        (forall|k: int| 0 <= k < urls.len() ==> (#[trigger] urls[k]).0 != id) ==> {
            &&& id == "openai"@ ==> p.base_url@ == "https://api.openai.com/v1"@
            &&& id == "anthropic"@ ==> p.base_url@ == "https://api.anthropic.com/v1"@
            &&& id == "openrouter"@ ==> p.base_url@ == "https://openrouter.ai/api/v1"@
            &&& id == "groq"@ ==> p.base_url@ == "https://api.groq.com/openai/v1"@
            &&& id == "cerebras"@ ==> p.base_url@ == "https://api.cerebras.ai/v1"@
            &&& id != "openai"@ && id != "anthropic"@ && id != "openrouter"@ && id != "groq"@ && id
                != "cerebras"@ ==> p.base_url@ == "http://localhost:11434/v1"@
        },
{
    law_first_pair_is_found(urls, id, i);
    reveal_strlit("openai");
    reveal_strlit("anthropic");
    reveal_strlit("openrouter");
    reveal_strlit("groq");
    reveal_strlit("cerebras");
    assert("openai"@.len() == 6 && "anthropic"@.len() == 9 && "openrouter"@.len() == 10
        && "groq"@.len() == 4 && "cerebras"@.len() == 8);
}

/// Every request says what it is and who sends it. A key goes along wherever there is one: as the
/// bearer's, or for Anthropic's service in a header of its own with the version of its interface.
/// Without a key no header speaks of one.
pub proof fn law_key_goes_along(provider_id: Seq<char>, api_key: Seq<char>)
    ensures
        ({
            let h = fixed_headers() + key_headers(provider_id, api_key);
            &&& h.contains(("content-type"@, "application/json"@))
            &&& h.contains(("referer"@, "https://github.com/rohithmahesh3/Dikt"@))
            &&& h.contains(("user-agent"@, "Dikt/1.0 (+https://github.com/rohithmahesh3/Dikt)"@))
            &&& h.contains(("x-title"@, "Dikt"@))
            &&& api_key.len() == 0 ==> h.len() == 4
            &&& api_key.len() > 0 && provider_id == "anthropic"@ ==> h.len() == 6 && h.contains(
                ("x-api-key"@, api_key),
            ) && h.contains(("anthropic-version"@, "2023-06-01"@))
            &&& api_key.len() > 0 && provider_id != "anthropic"@ ==> h.len() == 5 && h.contains(
                ("authorization"@, "Bearer "@ + api_key),
            )
        }),
{
    let h = fixed_headers() + key_headers(provider_id, api_key);
    assert(h[0] == ("content-type"@, "application/json"@));
    assert(h[1] == ("referer"@, "https://github.com/rohithmahesh3/Dikt"@));
    assert(h[2] == ("user-agent"@, "Dikt/1.0 (+https://github.com/rohithmahesh3/Dikt)"@));
    assert(h[3] == ("x-title"@, "Dikt"@));
    if api_key.len() > 0 {
        if provider_id == "anthropic"@ {
            assert(h[4] == ("x-api-key"@, api_key));
            assert(h[5] == ("anthropic-version"@, "2023-06-01"@));
        } else {
            assert(h[4] == ("authorization"@, "Bearer "@ + api_key));
        }
    }
}

/// A key of visible ASCII characters can always be sent; one with a line end or another control
/// character never can.
pub proof fn law_visible_keys_can_be_sent(key: Seq<char>, i: int)
    ensures
        (forall|k: int| 0 <= k < key.len() ==> 0x20 <= (#[trigger] key[k]) as int <= 0x7E)
            ==> header_safe(key),
        0 <= i < key.len() && (key[i] == '\n' || key[i] == '\r' || key[i] as int == 0 || key[i] as int
            == 127) ==> !header_safe(key),
        (forall|k: int|
            0 <= k < key.len() ==> #[trigger] key[k] == '\t' || key[k] as int >= 128) ==> header_safe(
            key,
        ),
{
    if 0 <= i < key.len() && (key[i] == '\n' || key[i] == '\r' || key[i] as int == 0 || key[i] as int
        == 127) {
        assert(!header_char(key[i]));
    }
}

/// A function of a service is reached at the service's address without the slashes at its end,
/// followed by the function's path; a chat has its own path with Anthropic's service.
pub proof fn law_functions_stand_behind_the_address(
    base: Seq<char>,
    slashes: Seq<char>,
    path: Seq<char>,
    id: Seq<char>,
)
    requires
        base.len() == 0 || base.last() != '/',
        forall|i: int| 0 <= i < slashes.len() ==> #[trigger] slashes[i] == '/',
    ensures
        endpoint(base + slashes, path) == base + path,
        chat_path(id) == (if id == "anthropic"@ {
            "/messages"@
        } else {
            "/chat/completions"@
        }),
{
    text::law_trailing_characters_are_dropped(base, '/', slashes);
}

/// A prompt goes out once, as the user's, to the model that was asked for.
pub proof fn law_prompt_goes_out_as_the_users(model: Seq<char>, prompt: Seq<char>)
    ensures
        ({
            let f = messages_fields(model, prompt);
            &&& f.len() == 3
            &&& f.contains(("model"@, JsonView::Text(model)))
            &&& f.contains(("max_tokens"@, JsonView::Unsigned(4096)))
            &&& f[2].0 == "messages"@
            &&& f[2].1 matches JsonView::Objects(m) && m.len() == 1 && m[0].len() == 2 && m[0][0] == (
                "role"@,
                "user"@,
            ) && m[0][1] == ("content"@, prompt)
        }),
{
    let f = messages_fields(model, prompt);
    assert(f[0] == ("model"@, JsonView::Text(model)));
    assert(f[1] == ("max_tokens"@, JsonView::Unsigned(4096)));
}

/// Every entry of a keyed list that has an id is listed by it, and one that has only a name by that;
/// every entry of a bare list that is a text is listed. One more entry adds at most itself, at the
/// end.
pub proof fn law_every_named_model_is_listed(body: Seq<char>, n: nat, i: nat)
    requires
        i < n,
    ensures
        ({
            let id = json::string_at(body, "/data/"@ + text::dec(i) + "/id"@);
            let name = json::string_at(body, "/data/"@ + text::dec(i) + "/name"@);
            let bare = json::string_at(body, "/"@ + text::dec(i));
            let keyed_list = json::array_len_at(body, "/data"@) == Some(n);
            let bare_list = json::array_len_at(body, "/data"@) is None && json::array_len_at(
                body,
                ""@,
            ) == Some(n);
            &&& keyed_list && id is Some ==> listed_models(body).contains(id->0)
            &&& keyed_list && id is None && name is Some ==> listed_models(body).contains(name->0)
            &&& bare_list && bare is Some ==> listed_models(body).contains(bare->0)
            &&& keyed_list || bare_list ==> listed_models(body).len() <= n
            &&& i == n - 1 && keyed_list && id is Some ==> listed_models(body).last() == id->0
        }),
        json::array_len_at(body, "/data"@) is None && json::array_len_at(body, ""@) is None
            ==> listed_models(body).len() == 0,
{
    reveal_strlit("");
    assert("/"@ + text::dec(i) + ""@ =~= "/"@ + text::dec(i));
    lemma_named_model_is_listed(body, true, n, i);
    lemma_named_model_is_listed(body, false, n, i);
}

proof fn lemma_named_model_is_listed(body: Seq<char>, keyed: bool, n: nat, i: nat)
    requires
        i < n,
    ensures
        keyed && keyed_name(body, i) is Some ==> model_names(body, keyed, n).contains(
            keyed_name(body, i)->0,
        ),
        !keyed && bare_name(body, i) is Some ==> model_names(body, keyed, n).contains(
            bare_name(body, i)->0,
        ),
        model_names(body, keyed, n).len() <= n,
    decreases n,
{
    let fewer = (n - 1) as nat;
    let before = model_names(body, keyed, fewer);
    let after = model_names(body, keyed, n);
    lemma_names_are_few(body, keyed, n);
    if i == fewer {
        if after.len() > before.len() {
            assert(after[before.len() as int] == after.last());
        }
    } else {
        lemma_named_model_is_listed(body, keyed, fewer, i);
        assert forall|name: Seq<char>| before.contains(name) implies after.contains(name) by {
            let k = choose|k: int| 0 <= k < before.len() && before[k] == name;
            assert(after[k] == name);
        }
    }
}

proof fn lemma_names_are_few(body: Seq<char>, keyed: bool, n: nat)
    ensures
        model_names(body, keyed, n).len() <= n,
    decreases n,
{
    if n > 0 {
        lemma_names_are_few(body, keyed, (n - 1) as nat);
    }
}

/// The prompt in use is the first with the selected id, or none where that id is gone; with nothing
/// selected it is the first of all.
pub proof fn law_selected_prompt_is_used(prompts: Seq<LLMPrompt>, id: Seq<char>, i: int)
    ensures
        0 <= i < prompts.len() && prompts[i].id@ == id && (forall|k: int|
            0 <= k < i ==> (#[trigger] prompts[k]).id@ != id) ==> chosen_prompt(prompts, Some(id))
            == Some(i),
        (forall|k: int| 0 <= k < prompts.len() ==> (#[trigger] prompts[k]).id@ != id)
            ==> chosen_prompt(prompts, Some(id)) is None,
        prompts.len() > 0 ==> chosen_prompt(prompts, None) == Some(0int),
        prompts.len() == 0 ==> chosen_prompt(prompts, None) is None,
{
    if 0 <= i < prompts.len() && prompts[i].id@ == id && (forall|k: int|
        0 <= k < i ==> (#[trigger] prompts[k]).id@ != id) {
        lemma_prompt_at(prompts, id, 0, i);
    }
    if forall|k: int| 0 <= k < prompts.len() ==> (#[trigger] prompts[k]).id@ != id {
        lemma_no_prompt(prompts, id, 0);
    }
}

proof fn lemma_prompt_at(prompts: Seq<LLMPrompt>, id: Seq<char>, from: int, i: int)
    requires
        0 <= from <= i < prompts.len(),
        prompts[i].id@ == id,
        forall|k: int| 0 <= k < i ==> (#[trigger] prompts[k]).id@ != id,
    ensures
        prompt_place(prompts, id, from) == Some(i),
    decreases i - from,
{
    if from < i {
        lemma_prompt_at(prompts, id, from + 1, i);
    }
}

proof fn lemma_no_prompt(prompts: Seq<LLMPrompt>, id: Seq<char>, from: int)
    requires
        0 <= from,
        forall|k: int| 0 <= k < prompts.len() ==> (#[trigger] prompts[k]).id@ != id,
    ensures
        prompt_place(prompts, id, from) is None,
    decreases prompts.len() - from,
{
    if from < prompts.len() {
        lemma_no_prompt(prompts, id, from + 1);
    }
}

/// A text is post-processed whenever that is switched on and the chosen service has a key and a
/// model, neither of them empty, and there is a prompt; where one of them is missing it is not.
pub proof fn law_complete_settings_post_process(
    s: PostProcessSettings,
    key: Seq<char>,
    model: Seq<char>,
    i: int,
    j: int,
)
    requires
        0 <= i < s.api_keys@.len(),
        s.api_keys@[i].0@ == s.provider_id@ && s.api_keys@[i].1@ == key,
        forall|k: int| 0 <= k < i ==> (#[trigger] s.api_keys@[k]).0@ != s.provider_id@,
        0 <= j < s.models@.len(),
        s.models@[j].0@ == s.provider_id@ && s.models@[j].1@ == model,
        forall|k: int| 0 <= k < j ==> (#[trigger] s.models@[k]).0@ != s.provider_id@,
        s.prompts@.len() > 0,
        s.selected_prompt_id is None,
    ensures
        can_post_process(s) <==> s.enabled && key.len() > 0 && model.len() > 0,
{
    let keys = json::pair_views(s.api_keys@);
    let models = json::pair_views(s.models@);
    assert forall|k: int| 0 <= k < i implies (#[trigger] keys[k]).0 != s.provider_id@ by {
        assert(s.api_keys@[k].0@ != s.provider_id@);
    }
    assert forall|k: int| 0 <= k < j implies (#[trigger] models[k]).0 != s.provider_id@ by {
        assert(s.models@[k].0@ != s.provider_id@);
    }
    assert(keys[i] == (s.api_keys@[i].0@, s.api_keys@[i].1@));
    assert(models[j] == (s.models@[j].0@, s.models@[j].1@));
    law_first_pair_is_found(keys, s.provider_id@, i);
    law_first_pair_is_found(models, s.provider_id@, j);
}

/// The text takes the place of every `${output}` of a prompt, wherever it stands, and the rest of
/// the prompt stays.
pub proof fn law_text_stands_for_every_place(before: Seq<char>, after: Seq<char>, t: Seq<char>)
    requires
        !text::occurs_in(before, "${output}"@),
    ensures
        text::replaced(before + "${output}"@ + after, "${output}"@, t) == before + t + text::replaced(
            after,
            "${output}"@,
            t,
        ),
{
    let p = "${output}"@;
    reveal_strlit("${output}");
    let s = before + p + after;
    assert forall|k: int| 0 <= k < before.len() implies !#[trigger] text::occurs_at(s, p, k) by {
        if text::occurs_at(s, p, k) {
            if k + p.len() <= before.len() {
                assert(before.subrange(k, k + p.len()) =~= s.subrange(k, k + p.len()));
                assert(text::occurs_at(before, p, k));
            } else {
                let j = before.len() - k;
                assert(s.subrange(k, k + p.len())[j] == s[before.len() as int]);
                assert(s[before.len() as int] == p[0]);
                assert(p[j] != '$');
            }
        }
    }
    text::law_each_occurrence_is_replaced(before, after, p, t);
}

/// Without any one of what it needs nothing is post-processed: where it is not asked for, where the
/// provider has no key or no model, and where there is no prompt.
pub proof fn law_incomplete_settings_do_not_post_process(s: PostProcessSettings)
    ensures
        !s.enabled ==> !can_post_process(s),
        (forall|k: int|
            0 <= k < s.api_keys@.len() ==> (#[trigger] s.api_keys@[k]).0@ != s.provider_id@)
            ==> !can_post_process(s),
        (forall|k: int|
            0 <= k < s.models@.len() ==> (#[trigger] s.models@[k]).0@ != s.provider_id@)
            ==> !can_post_process(s),
        s.prompts@.len() == 0 ==> !can_post_process(s),
{
    let keys = json::pair_views(s.api_keys@);
    let models = json::pair_views(s.models@);
    if forall|k: int| 0 <= k < s.api_keys@.len() ==> (#[trigger] s.api_keys@[k]).0@ != s.provider_id@ {
        assert forall|k: int| 0 <= k < keys.len() implies (#[trigger] keys[k]).0 != s.provider_id@ by {
            assert(s.api_keys@[k].0@ != s.provider_id@);
        }
        lemma_not_found(keys, s.provider_id@, 0);
    }
    if forall|k: int| 0 <= k < s.models@.len() ==> (#[trigger] s.models@[k]).0@ != s.provider_id@ {
        assert forall|k: int| 0 <= k < models.len() implies (#[trigger] models[k]).0
            != s.provider_id@ by {
            assert(s.models@[k].0@ != s.provider_id@);
        }
        lemma_not_found(models, s.provider_id@, 0);
    }
}

} // verus!
