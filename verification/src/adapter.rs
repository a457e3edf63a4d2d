//! Boundary adapter for the single-shot chat entry point: decodes a
//! self-contained JSON request into an internal request value, and encodes
//! internal results back into the `{ok, reply, error}` response envelope.
//!
//! Parsing of the incoming text is delegated to `serde_json` behind
//! trusted wrappers; everything the library then decides — which requests
//! are rejected and with which envelope, which defaults apply, how the
//! response is framed — is verified here.

use vstd::prelude::*;
use crate::config::opt_text;
use crate::text::{trim_of, trim_text};

verus! {

/// Whether the text parses as a JSON object.
pub uninterp spec fn is_json_object(s: Seq<char>) -> bool;

/// The string value of the named field of the JSON object the text parses
/// to; nothing when the text is not an object, the field is absent, or the
/// field is not a string.
pub uninterp spec fn json_str_field_of(s: Seq<char>, key: Seq<char>) -> Option<Seq<char>>;

/// The JSON text of the named numeric field of the JSON object the text
/// parses to; nothing when absent or not a number.
pub uninterp spec fn json_num_field_of(s: Seq<char>, key: Seq<char>) -> Option<Seq<char>>;

/// The boolean value of the named field of the JSON object the text
/// parses to; nothing when absent or not a boolean.
pub uninterp spec fn json_bool_field_of(s: Seq<char>, key: Seq<char>) -> Option<bool>;

/// The JSON string literal encoding a text: quoted and escaped.
pub uninterp spec fn json_string_of(s: Seq<char>) -> Seq<char>;

/// Relies on `serde_json::from_str::<Value>`: whether the text is
/// well-formed JSON whose top level is an object. The answer depends on
/// the text alone.
#[verifier::external_body]
pub(crate) fn json_is_object(s: &str) -> (r: bool)
    ensures
        r == is_json_object(s@),
{
    match serde_json::from_str::<serde_json::Value>(s) {
        Ok(v) => v.is_object(),
        Err(_) => false,
    }
}

/// Relies on `serde_json::from_str::<Value>` with `Value::get` and
/// `Value::as_str`: the string value of one field of the parsed object.
/// The result depends on the text and the key alone.
#[verifier::external_body]
pub(crate) fn json_str_field(s: &str, key: &str) -> (r: Option<String>)
    ensures
        opt_text(r) == json_str_field_of(s@, key@),
{
    match serde_json::from_str::<serde_json::Value>(s) {
        Ok(v) => match v.get(key) {
            Some(f) => match f.as_str() {
                Some(t) => Some(t.to_string()),
                None => None,
            },
            None => None,
        },
        Err(_) => None,
    }
}

/// Relies on `serde_json::from_str::<Value>` with `Value::get`,
/// `Value::is_number` and the `Value` display form: the JSON text of one
/// numeric field of the parsed object. The result depends on the text and
/// the key alone.
#[verifier::external_body]
pub(crate) fn json_num_field(s: &str, key: &str) -> (r: Option<String>)
    ensures
        opt_text(r) == json_num_field_of(s@, key@),
{
    match serde_json::from_str::<serde_json::Value>(s) {
        Ok(v) => match v.get(key) {
            Some(f) if f.is_number() => Some(f.to_string()),
            _ => None,
        },
        Err(_) => None,
    }
}

/// Relies on `serde_json::from_str::<Value>` with `Value::get` and
/// `Value::as_bool`: the boolean value of one field of the parsed object.
/// The result depends on the text and the key alone.
#[verifier::external_body]
pub(crate) fn json_bool_field(s: &str, key: &str) -> (r: Option<bool>)
    ensures
        r == json_bool_field_of(s@, key@),
{
    match serde_json::from_str::<serde_json::Value>(s) {
        Ok(v) => match v.get(key) {
            Some(f) => f.as_bool(),
            None => None,
        },
        Err(_) => None,
    }
}

/// Relies on the `serde_json::Value` display form of a string value: the
/// quoted, escaped JSON string literal for a text. The result depends on
/// the text alone.
#[verifier::external_body]
pub(crate) fn json_quote(s: &str) -> (r: String)
    ensures
        r@ == json_string_of(s@),
{
    serde_json::Value::String(s.to_string()).to_string()
}

/// The provider used when the request names none.
pub fn default_provider() -> (r: String)
    ensures
        r@ == "ollama"@,
{
    String::from_str("ollama")
}

/// The model used when the request names none.
pub fn default_model() -> (r: String)
    ensures
        r@ == "gpt-oss:20b"@,
{
    String::from_str("gpt-oss:20b")
}

/// The sampling temperature used when the request names none, as the JSON
/// number text the host hands to the provider.
pub fn default_temperature_text() -> (r: String)
    ensures
        r@ == "0.2"@,
{
    String::from_str("0.2")
}

/// A validated chat request, ready for one provider call: the prompt is
/// non-empty after trimming, defaults are applied, and the provider
/// selection fields are trimmed. The temperature is carried as the JSON
/// number text the request gave.
pub struct ChatRequest {
    pub prompt: String,
    pub system_prompt: Option<String>,
    pub provider: String,
    pub model: String,
    pub api_url: Option<String>,
    pub api_key: Option<String>,
    pub temperature_text: String,
}

/// Abstract value of a [`ChatRequest`].
pub ghost struct ChatRequestView {
    pub prompt: Seq<char>,
    pub system_prompt: Option<Seq<char>>,
    pub provider: Seq<char>,
    pub model: Seq<char>,
    pub api_url: Option<Seq<char>>,
    pub api_key: Option<Seq<char>>,
    pub temperature_text: Seq<char>,
}

impl View for ChatRequest {
    type V = ChatRequestView;

    open spec fn view(&self) -> ChatRequestView {
        ChatRequestView {
            prompt: self.prompt@,
            system_prompt: opt_text(self.system_prompt),
            provider: self.provider@,
            model: self.model@,
            api_url: opt_text(self.api_url),
            api_key: opt_text(self.api_key),
            temperature_text: self.temperature_text@,
        }
    }
}

/// A field's value, or the default for an absent field.
pub open spec fn or_default(field: Option<Seq<char>>, default: Seq<char>) -> Seq<char> {
    match field {
        Some(t) => t,
        None => default,
    }
}

/// An optional field, trimmed when present.
pub open spec fn opt_trim(field: Option<Seq<char>>) -> Option<Seq<char>> {
    match field {
        Some(t) => Some(trim_of(t)),
        None => None,
    }
}

/// The chat request a well-formed request text denotes.
pub open spec fn spec_chat_request(s: Seq<char>) -> ChatRequestView {
    ChatRequestView {
        prompt: trim_of(or_default(json_str_field_of(s, "prompt"@), Seq::empty())),
        system_prompt: json_str_field_of(s, "system_prompt"@),
        provider: trim_of(or_default(json_str_field_of(s, "provider"@), "ollama"@)),
        model: trim_of(or_default(json_str_field_of(s, "model"@), "gpt-oss:20b"@)),
        api_url: opt_trim(json_str_field_of(s, "api_url"@)),
        api_key: opt_trim(json_str_field_of(s, "api_key"@)),
        temperature_text: or_default(json_num_field_of(s, "temperature"@), "0.2"@),
    }
}

/// The JSON encoding of an optional string value: the quoted string, or
/// `null`.
pub open spec fn spec_json_opt(o: Option<Seq<char>>) -> Seq<char> {
    match o {
        Some(s) => json_string_of(s),
        None => "null"@,
    }
}

/// The `{ok, reply, error}` response envelope for one outcome.
pub open spec fn spec_response(
    ok: bool,
    reply: Option<Seq<char>>,
    error: Option<Seq<char>>,
) -> Seq<char> {
    "{\"ok\":"@ + (if ok {
        "true"@
    } else {
        "false"@
    }) + ",\"reply\":"@ + spec_json_opt(reply) + ",\"error\":"@ + spec_json_opt(error) + "}"@
}

/// Encodes one outcome as the response envelope, always a well-formed
/// JSON object.
pub fn make_response(ok: bool, reply: Option<String>, error: Option<String>) -> (r: String)
    ensures
        r@ == spec_response(ok, opt_text(reply), opt_text(error)),
{
    let mut r = String::from_str("{\"ok\":");
    r.append(if ok {
        "true"
    } else {
        "false"
    });
    r.append(",\"reply\":");
    match &reply {
        Some(s) => r.append(json_quote(s.as_str()).as_str()),
        None => r.append("null"),
    }
    r.append(",\"error\":");
    match &error {
        Some(s) => r.append(json_quote(s.as_str()).as_str()),
        None => r.append("null"),
    }
    r.append("}");
    proof {
        assert(r@ =~= spec_response(ok, opt_text(reply), opt_text(error)));
    }
    r
}

/// What the adapter decides for one incoming request text: reject it with
/// a ready response envelope, or hand the host a validated request to
/// perform one provider call with.
pub enum RequestStep {
    Reject(String),
    Proceed(ChatRequest),
}

/// Decodes and validates one request text. A text that is not a JSON
/// object, lacks a string `prompt` field, or whose prompt is empty after
/// trimming is rejected with the exact envelope; anything else proceeds as
/// the denoted chat request.
pub fn prepare_request(request_json: &str) -> (r: RequestStep)
    ensures
        !is_json_object(request_json@) ==> (r matches RequestStep::Reject(e) && e@
            == spec_response(
            false,
            None,
            Some("invalid request JSON: expected an object"@),
        )),
        is_json_object(request_json@) && json_str_field_of(request_json@, "prompt"@) is None
            ==> (r matches RequestStep::Reject(e) && e@ == spec_response(
            false,
            None,
            Some("invalid request JSON: missing field `prompt`"@),
        )),
        is_json_object(request_json@) && (match json_str_field_of(request_json@, "prompt"@) {
            Some(p) => trim_of(p).len() == 0,
            None => false,
        }) ==> (r matches RequestStep::Reject(e) && e@ == spec_response(
            false,
            None,
            Some("prompt must not be empty"@),
        )),
        is_json_object(request_json@) && (match json_str_field_of(request_json@, "prompt"@) {
            Some(p) => trim_of(p).len() > 0,
            None => false,
        }) ==> (r matches RequestStep::Proceed(q) && q@ == spec_chat_request(request_json@)),
{
    if !json_is_object(request_json) {
        return RequestStep::Reject(
            make_response(
                false,
                None,
                Some(String::from_str("invalid request JSON: expected an object")),
            ),
        );
    }
    let prompt_field = match json_str_field(request_json, "prompt") {
        Some(p) => p,
        None => {
            return RequestStep::Reject(
                make_response(
                    false,
                    None,
                    Some(String::from_str("invalid request JSON: missing field `prompt`")),
                ),
            );
        },
    };
    let prompt = String::from_str(trim_text(prompt_field.as_str()));
    if prompt.as_str().is_empty() {
        return RequestStep::Reject(
            make_response(false, None, Some(String::from_str("prompt must not be empty"))),
        );
    }
    let provider_field = match json_str_field(request_json, "provider") {
        Some(p) => p,
        None => default_provider(),
    };
    let model_field = match json_str_field(request_json, "model") {
        Some(m) => m,
        None => default_model(),
    };
    let api_url = match json_str_field(request_json, "api_url") {
        Some(u) => Some(String::from_str(trim_text(u.as_str()))),
        None => None,
    };
    let api_key = match json_str_field(request_json, "api_key") {
        Some(k) => Some(String::from_str(trim_text(k.as_str()))),
        None => None,
    };
    let temperature_text = match json_num_field(request_json, "temperature") {
        Some(t) => t,
        None => default_temperature_text(),
    };
    RequestStep::Proceed(
        ChatRequest {
            prompt,
            system_prompt: json_str_field(request_json, "system_prompt"),
            provider: String::from_str(trim_text(provider_field.as_str())),
            model: String::from_str(trim_text(model_field.as_str())),
            api_url,
            api_key,
            temperature_text,
        },
    )
}

/// Encodes the outcome of the provider call the host performed: a reply
/// becomes a success envelope, a failure description an error envelope.
/// Internal failures are carried as text and never escape unencoded.
pub fn finish_request(outcome: Result<String, String>) -> (r: String)
    ensures
        (outcome matches Ok(reply) ==> r@ == spec_response(true, Some(reply@), None)),
        (outcome matches Err(e) ==> r@ == spec_response(false, None, Some(e@))),
{
    match outcome {
        Ok(reply) => make_response(true, Some(reply), None),
        Err(e) => make_response(false, None, Some(e)),
    }
}

} // verus!
