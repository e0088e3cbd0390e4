use vstd::prelude::*;
use vstd::string::*;
use crate::provider::{CallError, Provider};

verus! {

/// The JSON text of a string: the characters between quotes, with quotes,
/// backslashes and control characters escaped.
pub uninterp spec fn json_quoted(s: Seq<char>) -> Seq<char>;

/// Relies on serde_json::to_string on a `str`: it writes the escaped string
/// into a `Vec<u8>`, which cannot fail, so the result is always `Ok`.
#[verifier::external_body]
fn quote(s: &str) -> (r: Result<String, serde_json::Error>)
    ensures
        r is Ok,
        r->Ok_0@ == json_quoted(s@),
{
    serde_json::to_string(s)
}

/// The JSON text of `s`.
fn quoted(s: &str) -> (r: String)
    ensures
        r@ == json_quoted(s@),
{
    match quote(s) {
        Ok(q) => q,
        // `quote` never fails on a string.
        Err(_) => String::new(),
    }
}

/// One HTTP POST, ready to be sent.
pub struct Request {
    pub url: String,
    pub content_type: String,
    pub authorization: String,
    pub body: String,
}

/// The chat-completions endpoint of OpenAI.
pub open spec fn openai_url() -> Seq<char> {
    "https://api.openai.com/v1/chat/completions"@
}

/// The body that asks `model` to answer `prompt` with deterministic
/// sampling: one message from the user, with the prompt verbatim.
pub open spec fn openai_body(model: Seq<char>, prompt: Seq<char>) -> Seq<char> {
    "{\"model\":"@ + json_quoted(model) + ",\"temperature\":0.0,\"messages\":[{\"role\":\"user\",\"content\":"@
        + json_quoted(prompt) + "}]}"@
}

/// What `build_request` returns for `prompt` and `provider`: the request,
/// or `UnsupportedProvider` for a provider that has no request format.
pub open spec fn is_request_for(prompt: Seq<char>, provider: Provider, r: Result<Request, CallError>) -> bool {
    match provider {
        Provider::OpenAI { model_name, api_key } => r is Ok && r->Ok_0.url@ == openai_url()
            && r->Ok_0.content_type@ == "application/json"@
            && r->Ok_0.authorization@ == "Bearer "@ + api_key@
            && r->Ok_0.body@ == openai_body(model_name@, prompt),
        Provider::Anthropic { .. } => r is Err && r->Err_0 == CallError::UnsupportedProvider,
    }
}

/// The request for a prompt and a provider is fixed by them alone: built
/// twice, it is the same, byte for byte, sampling temperature included.
pub proof fn request_is_deterministic(
    prompt: Seq<char>,
    provider: Provider,
    first: Result<Request, CallError>,
    second: Result<Request, CallError>,
)
    requires
        is_request_for(prompt, provider, first),
        is_request_for(prompt, provider, second),
    ensures
        first is Ok <==> second is Ok,
        first is Ok ==> first->Ok_0.url@ == second->Ok_0.url@
            && first->Ok_0.content_type@ == second->Ok_0.content_type@
            && first->Ok_0.authorization@ == second->Ok_0.authorization@
            && first->Ok_0.body@ == second->Ok_0.body@,
        first is Err ==> first->Err_0 == second->Err_0,
{
}

/// Builds the request that asks `provider` to answer `prompt`. Nothing is
/// sent: a provider without a request format fails here, before any I/O.
pub fn build_request(prompt: &str, provider: &Provider) -> (r: Result<Request, CallError>)
    ensures
        is_request_for(prompt@, *provider, r),
{
    match provider {
        Provider::OpenAI { model_name, api_key } => {
            let model = quoted(model_name.as_str());
            let content = quoted(prompt);
            let mut body = String::from_str("{\"model\":");
            body.append(model.as_str());
            body.append(",\"temperature\":0.0,\"messages\":[{\"role\":\"user\",\"content\":");
            body.append(content.as_str());
            body.append("}]}");
            let mut authorization = String::from_str("Bearer ");
            authorization.append(api_key.as_str());
            Ok(Request {
                url: String::from_str("https://api.openai.com/v1/chat/completions"),
                content_type: String::from_str("application/json"),
                authorization,
                body,
            })
        },
        Provider::Anthropic { .. } => Err(CallError::UnsupportedProvider),
    }
}

} // verus!
