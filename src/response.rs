use vstd::prelude::*;
use crate::json::{element, json_model, member, parse_model, parse_value, text_of, JsonModel};
use crate::provider::{CallError, Provider};

verus! {

/// One step down a JSON document: a member of an object, or an element of
/// an array.
pub ghost enum Step {
    Key(Seq<char>),
    Index(nat),
}

/// The part of `doc` that one step reaches, if any.
pub open spec fn step(doc: JsonModel, s: Step) -> Option<JsonModel> {
    match (doc, s) {
        (JsonModel::Object(o), Step::Key(k)) => if o.contains_key(k) {
            Some(o[k])
        } else {
            None
        },
        (JsonModel::Array(a), Step::Index(i)) => if i < a.len() {
            Some(a[i as int])
        } else {
            None
        },
        _ => None,
    }
}

/// The part of `doc` that `path` reaches, if every step of it exists.
pub open spec fn follow(doc: JsonModel, path: Seq<Step>) -> Option<JsonModel>
    decreases path.len(),
{
    if path.len() == 0 {
        Some(doc)
    } else {
        match step(doc, path[0]) {
            Some(d) => follow(d, path.drop_first()),
            None => None,
        }
    }
}

/// Where OpenAI puts the generated text: `choices[0].message.content`.
pub open spec fn openai_path() -> Seq<Step> {
    seq![Step::Key("choices"@), Step::Index(0), Step::Key("message"@), Step::Key("content"@)]
}

/// Where Anthropic puts the generated text: `content[0].text`.
pub open spec fn anthropic_path() -> Seq<Step> {
    seq![Step::Key("content"@), Step::Index(0), Step::Key("text"@)]
}

/// Where a provider puts the generated text in its answer.
pub open spec fn content_path(provider: Provider) -> Seq<Step> {
    match provider {
        Provider::OpenAI { .. } => openai_path(),
        Provider::Anthropic { .. } => anthropic_path(),
    }
}

/// The generated text of an answer, if the provider's path leads to a string.
pub open spec fn content_of(provider: Provider, doc: JsonModel) -> Option<Seq<char>> {
    match follow(doc, content_path(provider)) {
        Some(JsonModel::Str(s)) => Some(s),
        _ => None,
    }
}

/// What one call makes of the body of an answer.
pub open spec fn answer_of(provider: Provider, body: Seq<char>) -> Result<Seq<char>, CallError> {
    match parse_model(body) {
        None => Err(CallError::Decode),
        Some(doc) => match content_of(provider, doc) {
            Some(s) => Ok(s),
            None => Err(CallError::ExtractionFailed),
        },
    }
}

proof fn lemma_follow_cons(doc: JsonModel, s: Step, rest: Seq<Step>)
    ensures
        follow(doc, seq![s] + rest) == (match step(doc, s) {
            Some(d) => follow(d, rest),
            None => None,
        }),
{
    assert((seq![s] + rest).drop_first() =~= rest);
}

proof fn lemma_follow_empty(doc: JsonModel)
    ensures
        follow(doc, Seq::<Step>::empty()) == Some(doc),
{
}

/// Follows `choices[0].message.content`.
fn openai_leaf(v: &serde_json::Value) -> (r: Option<&serde_json::Value>)
    ensures
        r is Some <==> follow(json_model(*v), openai_path()) is Some,
        r is Some ==> json_model(*r->Some_0) == follow(json_model(*v), openai_path())->Some_0,
{
    let ghost p4 = seq![Step::Key("content"@)];
    let ghost p3 = seq![Step::Key("message"@)] + p4;
    let ghost p2 = seq![Step::Index(0)] + p3;
    let ghost p1 = seq![Step::Key("choices"@)] + p2;
    proof {
        assert(p1 =~= openai_path());
        assert(p4 =~= seq![Step::Key("content"@)] + Seq::<Step>::empty());
    }
    let choices = member(v, "choices");
    proof { lemma_follow_cons(json_model(*v), Step::Key("choices"@), p2); }
    match choices {
        None => None,
        Some(choices) => {
            let choice = element(choices, 0);
            proof { lemma_follow_cons(json_model(*choices), Step::Index(0), p3); }
            match choice {
                None => None,
                Some(choice) => {
                    let message = member(choice, "message");
                    proof { lemma_follow_cons(json_model(*choice), Step::Key("message"@), p4); }
                    match message {
                        None => None,
                        Some(message) => {
                            let content = member(message, "content");
                            proof {
                                lemma_follow_cons(json_model(*message), Step::Key("content"@), Seq::empty());
                                if let Some(c) = content {
                                    lemma_follow_empty(json_model(*c));
                                }
                            }
                            content
                        },
                    }
                },
            }
        },
    }
}

/// Follows `content[0].text`.
fn anthropic_leaf(v: &serde_json::Value) -> (r: Option<&serde_json::Value>)
    ensures
        r is Some <==> follow(json_model(*v), anthropic_path()) is Some,
        r is Some ==> json_model(*r->Some_0) == follow(json_model(*v), anthropic_path())->Some_0,
{
    let ghost p3 = seq![Step::Key("text"@)];
    let ghost p2 = seq![Step::Index(0)] + p3;
    let ghost p1 = seq![Step::Key("content"@)] + p2;
    proof {
        assert(p1 =~= anthropic_path());
        assert(p3 =~= seq![Step::Key("text"@)] + Seq::<Step>::empty());
    }
    let blocks = member(v, "content");
    proof { lemma_follow_cons(json_model(*v), Step::Key("content"@), p2); }
    match blocks {
        None => None,
        Some(blocks) => {
            let block = element(blocks, 0);
            proof { lemma_follow_cons(json_model(*blocks), Step::Index(0), p3); }
            match block {
                None => None,
                Some(block) => {
                    let text = member(block, "text");
                    proof {
                        lemma_follow_cons(json_model(*block), Step::Key("text"@), Seq::empty());
                        if let Some(t) = text {
                            lemma_follow_empty(json_model(*t));
                        }
                    }
                    text
                },
            }
        },
    }
}

/// Takes the generated text out of a decoded answer.
pub fn extract_content(provider: &Provider, v: &serde_json::Value) -> (r: Result<String, CallError>)
    ensures
        r is Ok <==> content_of(*provider, json_model(*v)) is Some,
        r is Ok ==> r->Ok_0@ == content_of(*provider, json_model(*v))->Some_0,
        r is Err ==> r->Err_0 == CallError::ExtractionFailed,
{
    let leaf = match provider {
        Provider::OpenAI { .. } => openai_leaf(v),
        Provider::Anthropic { .. } => anthropic_leaf(v),
    };
    match leaf {
        None => Err(CallError::ExtractionFailed),
        Some(leaf) => match text_of(leaf) {
            None => Err(CallError::ExtractionFailed),
            Some(s) => Ok(s.to_string()),
        },
    }
}

/// `r` carries the outcome `expected`: the same text, or the same error.
pub open spec fn carries(r: Result<String, CallError>, expected: Result<Seq<char>, CallError>) -> bool {
    match expected {
        Ok(s) => r is Ok && r->Ok_0@ == s,
        Err(e) => r == Err::<String, CallError>(e),
    }
}

/// Decodes the body of an answer and takes the generated text out of it.
pub fn parse_response(provider: &Provider, body: &str) -> (r: Result<String, CallError>)
    ensures
        carries(r, answer_of(*provider, body@)),
{
    match parse_value(body) {
        Err(_) => Err(CallError::Decode),
        Ok(v) => extract_content(provider, &v),
    }
}

} // verus!
