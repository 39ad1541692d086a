use vstd::prelude::*;
use vstd::string::StringExecFns;
use crate::error::{message_of, LlmError};
use crate::text::{contains, occurs_at};
use crate::json::{field_of, parse_json, parsed_json, then_field, then_item, then_text, Json};
use crate::provider::Route;

verus! {

/// The answer's text in a response of `route`, where the response has one
/// where that backend puts it.
pub open spec fn content_of(j: Json, route: Route) -> Option<Seq<char>> {
    match route {
        Route::OpenAi | Route::LmStudio => then_text(
            then_field(then_field(then_item(field_of(j, "choices"@), 0), "message"@), "content"@),
        ),
        Route::Anthropic => then_text(then_field(then_item(field_of(j, "content"@), 0), "text"@)),
        Route::Google => then_text(
            then_field(
                then_item(
                    then_field(then_field(then_item(field_of(j, "candidates"@), 0), "content"@), "parts"@),
                    0,
                ),
                "text"@,
            ),
        ),
        Route::Ollama => then_text(field_of(j, "response"@)),
    }
}

/// What a response tree comes to: its text where there is some, else an
/// error that carries the raw response.
pub open spec fn normalized(j: Json, raw: Seq<char>, route: Route) -> Result<Seq<char>, Seq<char>> {
    match content_of(j, route) {
        Some(t) => if t.len() > 0 {
            Ok(t)
        } else {
            Err(raw)
        },
        None => Err(raw),
    }
}

pub open spec fn owned(o: Option<&Json>) -> Option<Json> {
    match o {
        Some(x) => Some(*x),
        None => None,
    }
}

fn step_field<'a>(o: Option<&'a Json>, key: &str) -> (r: Option<&'a Json>)
    ensures
        match r {
            Some(x) => then_field(owned(o), key@) == Some(*x),
            None => then_field(owned(o), key@) is None,
        },
{
    match o {
        Some(j) => j.field(&String::from_str(key)),
        None => None,
    }
}

fn step_item<'a>(o: Option<&'a Json>, i: usize) -> (r: Option<&'a Json>)
    ensures
        match r {
            Some(x) => then_item(owned(o), i as int) == Some(*x),
            None => then_item(owned(o), i as int) is None,
        },
{
    match o {
        Some(j) => j.item(i),
        None => None,
    }
}

fn step_text<'a>(o: Option<&'a Json>) -> (r: Option<&'a String>)
    ensures
        match r {
            Some(s) => then_text(owned(o)) == Some(s@),
            None => then_text(owned(o)) is None,
        },
{
    match o {
        Some(j) => j.text(),
        None => None,
    }
}

/// The answer's text in the response tree `j` of `route`, where there is one.
pub fn extract_content(j: &Json, route: Route) -> (r: Option<String>)
    ensures
        match content_of(*j, route) {
            Some(t) => r matches Some(s) && s@ == t,
            None => r is None,
        },
{
    let top = Some(j);
    let found = match route {
        Route::OpenAi | Route::LmStudio => step_text(
            step_field(step_field(step_item(step_field(top, "choices"), 0), "message"), "content"),
        ),
        Route::Anthropic => step_text(step_field(step_item(step_field(top, "content"), 0), "text")),
        Route::Google => step_text(
            step_field(
                step_item(
                    step_field(step_field(step_item(step_field(top, "candidates"), 0), "content"), "parts"),
                    0,
                ),
                "text",
            ),
        ),
        Route::Ollama => step_text(step_field(top, "response")),
    };
    match found {
        Some(s) => Some(String::from_str(s.as_str())),
        None => None,
    }
}

/// The answer's text in the response tree `j` of `route`; where it is missing
/// or empty, the error carries `raw`, the response as it came.
pub fn normalize_json(j: &Json, raw: &str, route: Route) -> (r: Result<String, LlmError>)
    ensures
        match normalized(*j, raw@, route) {
            Ok(t) => r matches Ok(s) && s@ == t,
            Err(_) => r matches Err(LlmError::EmptyOrMissingContent { raw: x }) && x@ == raw@,
        },
{
    match extract_content(j, route) {
        Some(s) => if !s.as_str().is_empty() {
            Ok(s)
        } else {
            Err(LlmError::EmptyOrMissingContent { raw: String::from_str(raw) })
        },
        None => Err(LlmError::EmptyOrMissingContent { raw: String::from_str(raw) }),
    }
}

/// The answer's text in the response body `raw` of `route`. A body that is not
/// JSON, and one without text where `route` puts it, are refused with `raw`.
pub fn normalize_response(raw: &str, route: Route) -> (r: Result<String, LlmError>)
    ensures
        match parsed_json(raw@) {
            None => r matches Err(LlmError::MalformedResponse { raw: x }) && x@ == raw@,
            Some(j) => match normalized(j, raw@, route) {
                Ok(t) => r matches Ok(s) && s@ == t,
                Err(_) => r matches Err(LlmError::EmptyOrMissingContent { raw: x }) && x@ == raw@,
            },
        },
{
    match parse_json(raw) {
        Some(j) => normalize_json(&j, raw, route),
        None => Err(LlmError::MalformedResponse { raw: String::from_str(raw) }),
    }
}

/// A response without text where its backend puts it is refused, and the
/// refusal's message holds the whole raw response.
pub proof fn lemma_missing_content_reported(j: Json, raw: String, route: Route)
    requires
        content_of(j, route) is None,
    ensures
        normalized(j, raw@, route) == Err::<Seq<char>, Seq<char>>(raw@),
        contains(message_of(LlmError::EmptyOrMissingContent { raw }), raw@),
{
    let m = message_of(LlmError::EmptyOrMissingContent { raw });
    let k = "LLM returned empty or invalid content. Full response: "@.len() as int;
    assert(m.subrange(k, k + raw@.len()) =~= raw@);
    assert(occurs_at(m, raw@, k));
}

/// Whether an HTTP status means success.
pub open spec fn is_success(status: u16) -> bool {
    200 <= status < 300
}

/// The answer to a request of `route` that came back with `status` and `body`:
/// a status other than success is refused with the body, else the body is
/// normalized.
pub fn interpret_reply(status: u16, body: &str, route: Route) -> (r: Result<String, LlmError>)
    ensures
        !is_success(status) ==> (r matches Err(LlmError::ProviderHttp { status: s, body: b }) && s
            == status && b@ == body@),
        is_success(status) ==> match parsed_json(body@) {
            None => r matches Err(LlmError::MalformedResponse { raw: x }) && x@ == body@,
            Some(j) => match normalized(j, body@, route) {
                Ok(t) => r matches Ok(s) && s@ == t,
                Err(_) => r matches Err(LlmError::EmptyOrMissingContent { raw: x }) && x@ == body@,
            },
        },
{
    if status < 200 || status >= 300 {
        return Err(LlmError::ProviderHttp { status, body: String::from_str(body) });
    }
    normalize_response(body, route)
}

} // verus!
