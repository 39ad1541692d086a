use vstd::prelude::*;
use vstd::string::StringExecFns;
use crate::error::LlmError;
use crate::json::{quote_json, quoted};
use crate::text::{chars_of, same_text, slice_chars, starts_with, starts_with_exec, string_of};

verus! {

/// A provider selection as the caller names it.
#[derive(Clone, Copy, Debug, PartialEq, Eq, Structural)]
pub enum Provider {
    OpenAi,
    Anthropic,
    Google,
    Local,
}

/// A concrete backend: each has its own request shape and response path.
#[derive(Clone, Copy, Debug, PartialEq, Eq, Structural)]
pub enum Route {
    OpenAi,
    Anthropic,
    Google,
    Ollama,
    LmStudio,
}

/// A POST request, ready to be sent as it stands.
#[derive(Debug)]
pub struct HttpRequest {
    pub url: String,
    pub headers: Vec<(String, String)>,
    pub body: String,
}

pub struct RequestView {
    pub url: Seq<char>,
    pub headers: Seq<(Seq<char>, Seq<char>)>,
    pub body: Seq<char>,
}

impl View for HttpRequest {
    type V = RequestView;

    open spec fn view(&self) -> RequestView {
        RequestView {
            url: self.url@,
            headers: self.headers@.map_values(|h: (String, String)| (h.0@, h.1@)),
            body: self.body@,
        }
    }
}

/// A request and the backend whose response shape its answer has.
#[derive(Debug)]
pub struct Invocation {
    pub route: Route,
    pub request: HttpRequest,
}

pub const OLLAMA_PREFIX: &'static str = "Ollama: ";

pub const LM_STUDIO_PREFIX: &'static str = "LM Studio: ";

pub const OPENAI_URL: &'static str = "https://api.openai.com/v1/chat/completions";

pub const ANTHROPIC_URL: &'static str = "https://api.anthropic.com/v1/messages";

pub const GOOGLE_URL_HEAD: &'static str = "https://generativelanguage.googleapis.com/v1beta/models/";

pub const GOOGLE_URL_MIDDLE: &'static str = ":generateContent?key=";

pub const OLLAMA_URL: &'static str = "http://localhost:11434/api/generate";

pub const LM_STUDIO_URL: &'static str = "http://localhost:1234/v1/chat/completions";

pub const ANTHROPIC_VERSION: &'static str = "2023-06-01";

/// The provider that `tag` names.
pub open spec fn provider_of(tag: Seq<char>) -> Option<Provider> {
    if tag == "openai"@ {
        Some(Provider::OpenAi)
    } else if tag == "anthropic"@ {
        Some(Provider::Anthropic)
    } else if tag == "google"@ {
        Some(Provider::Google)
    } else if tag == "local"@ {
        Some(Provider::Local)
    } else {
        None
    }
}

/// The local runtime that the prefix of `model` names, and the bare model name.
pub open spec fn local_route_of(model: Seq<char>) -> Option<(Route, Seq<char>)> {
    if starts_with(model, OLLAMA_PREFIX@) {
        Some((Route::Ollama, model.skip(OLLAMA_PREFIX@.len() as int)))
    } else if starts_with(model, LM_STUDIO_PREFIX@) {
        Some((Route::LmStudio, model.skip(LM_STUDIO_PREFIX@.len() as int)))
    } else {
        None
    }
}

/// The backend for a provider tag and model, and the model name it is sent.
pub open spec fn route_of(tag: Seq<char>, model: Seq<char>) -> Option<(Route, Seq<char>)> {
    match provider_of(tag) {
        Some(Provider::OpenAi) => Some((Route::OpenAi, model)),
        Some(Provider::Anthropic) => Some((Route::Anthropic, model)),
        Some(Provider::Google) => Some((Route::Google, model)),
        Some(Provider::Local) => local_route_of(model),
        None => None,
    }
}

/// `[{"role":"user","content":<prompt>}]`
pub open spec fn user_messages(prompt: Seq<char>) -> Seq<char> {
    "[{\"role\":\"user\",\"content\":"@ + quoted(prompt) + "}]"@
}

pub open spec fn json_header() -> (Seq<char>, Seq<char>) {
    ("Content-Type"@, "application/json"@)
}

/// The request that asks `route` to answer `prompt` with `model`.
pub open spec fn request_of(route: Route, model: Seq<char>, key: Seq<char>, prompt: Seq<char>) -> RequestView {
    match route {
        Route::OpenAi => RequestView {
            url: OPENAI_URL@,
            headers: seq![("Authorization"@, "Bearer "@ + key), json_header()],
            body: "{\"model\":"@ + quoted(model) + ",\"messages\":"@ + user_messages(prompt) + "}"@,
        },
        Route::Anthropic => RequestView {
            url: ANTHROPIC_URL@,
            headers: seq![("x-api-key"@, key), ("anthropic-version"@, ANTHROPIC_VERSION@), json_header()],
            body: "{\"model\":"@ + quoted(model) + ",\"max_tokens\":2048,\"messages\":"@
                + user_messages(prompt) + "}"@,
        },
        Route::Google => RequestView {
            url: GOOGLE_URL_HEAD@ + model + GOOGLE_URL_MIDDLE@ + key,
            headers: seq![json_header()],
            body: "{\"contents\":[{\"parts\":[{\"text\":"@ + quoted(prompt) + "}]}]}"@,
        },
        Route::Ollama => RequestView {
            url: OLLAMA_URL@,
            headers: seq![json_header()],
            body: "{\"model\":"@ + quoted(model) + ",\"prompt\":"@ + quoted(prompt)
                + ",\"stream\":false,\"keep_alive\":\"5m\"}"@,
        },
        Route::LmStudio => RequestView {
            url: LM_STUDIO_URL@,
            headers: seq![json_header()],
            body: "{\"model\":"@ + quoted(model) + ",\"messages\":"@ + user_messages(prompt)
                + ",\"stream\":false}"@,
        },
    }
}

/// What a planned invocation is: the backend and the request for `prompt`, or
/// the refusal of the provider selection.
pub open spec fn planned(
    r: Result<Invocation, LlmError>,
    provider: Seq<char>,
    api_key: Seq<char>,
    model: Seq<char>,
    prompt: Seq<char>,
) -> bool {
    match route_of(provider, model) {
        Some((route, name)) => r matches Ok(inv) && inv.route == route && inv.request@
            == request_of(route, name, api_key, prompt),
        None => r matches Err(LlmError::UnsupportedProvider { name }) && (provider_of(provider)
            is None ==> name@ == provider) && (provider_of(provider) is Some ==> name@ == model),
    }
}

/// The provider that `tag` names; an unknown tag is refused.
pub fn parse_provider(tag: &str) -> (r: Result<Provider, LlmError>)
    ensures
        match provider_of(tag@) {
            Some(p) => r == Ok::<Provider, LlmError>(p),
            None => r matches Err(LlmError::UnsupportedProvider { name }) && name@ == tag@,
        },
{
    if same_text(tag, "openai") {
        Ok(Provider::OpenAi)
    } else if same_text(tag, "anthropic") {
        Ok(Provider::Anthropic)
    } else if same_text(tag, "google") {
        Ok(Provider::Google)
    } else if same_text(tag, "local") {
        Ok(Provider::Local)
    } else {
        Err(LlmError::UnsupportedProvider { name: String::from_str(tag) })
    }
}

/// Splits a local model name into its runtime and its bare name; a name
/// without a known runtime prefix is refused.
pub fn resolve_local_model(model: &str) -> (r: Result<(Route, String), LlmError>)
    ensures
        match local_route_of(model@) {
            Some((route, bare)) => r matches Ok((x, b)) && x == route && b@ == bare,
            None => r matches Err(LlmError::UnsupportedProvider { name }) && name@ == model@,
        },
{
    let m = chars_of(model);
    let ollama = chars_of(OLLAMA_PREFIX);
    let lm_studio = chars_of(LM_STUDIO_PREFIX);
    if starts_with_exec(&m, &ollama) {
        let bare = slice_chars(&m, ollama.len(), m.len());
        assert(bare@ =~= model@.skip(OLLAMA_PREFIX@.len() as int));
        Ok((Route::Ollama, string_of(&bare)))
    } else if starts_with_exec(&m, &lm_studio) {
        let bare = slice_chars(&m, lm_studio.len(), m.len());
        assert(bare@ =~= model@.skip(LM_STUDIO_PREFIX@.len() as int));
        Ok((Route::LmStudio, string_of(&bare)))
    } else {
        Err(LlmError::UnsupportedProvider { name: String::from_str(model) })
    }
}

/// The backend for a provider tag and model, and the model name it is sent.
pub fn resolve_route(tag: &str, model: &str) -> (r: Result<(Route, String), LlmError>)
    ensures
        match route_of(tag@, model@) {
            Some((route, name)) => r matches Ok((x, n)) && x == route && n@ == name,
            None => r matches Err(LlmError::UnsupportedProvider { name }) && (provider_of(tag@)
                is None ==> name@ == tag@) && (provider_of(tag@) is Some ==> name@ == model@),
        },
{
    match parse_provider(tag)? {
        Provider::OpenAi => Ok((Route::OpenAi, String::from_str(model))),
        Provider::Anthropic => Ok((Route::Anthropic, String::from_str(model))),
        Provider::Google => Ok((Route::Google, String::from_str(model))),
        Provider::Local => resolve_local_model(model),
    }
}

fn header(name: &str, value: &str) -> (r: (String, String))
    ensures
        r.0@ == name@,
        r.1@ == value@,
{
    (String::from_str(name), String::from_str(value))
}

fn user_messages_exec(prompt: &str) -> (r: String)
    ensures
        r@ == user_messages(prompt@),
{
    let mut b = String::from_str("[{\"role\":\"user\",\"content\":");
    b.append(quote_json(prompt).as_str());
    b.append("}]");
    b
}

/// The request that asks `route` to answer `prompt` with `model`.
pub fn build_request(route: Route, model: &str, api_key: &str, prompt: &str) -> (r: HttpRequest)
    ensures
        r@ == request_of(route, model@, api_key@, prompt@),
{
    let mut headers: Vec<(String, String)> = Vec::new();
    let url;
    let mut body;
    match route {
        Route::OpenAi => {
            url = String::from_str(OPENAI_URL);
            headers.push(header("Authorization", String::from_str("Bearer ").concat(api_key).as_str()));
            body = String::from_str("{\"model\":");
            body.append(quote_json(model).as_str());
            body.append(",\"messages\":");
            body.append(user_messages_exec(prompt).as_str());
            body.append("}");
        },
        Route::Anthropic => {
            url = String::from_str(ANTHROPIC_URL);
            headers.push(header("x-api-key", api_key));
            headers.push(header("anthropic-version", ANTHROPIC_VERSION));
            body = String::from_str("{\"model\":");
            body.append(quote_json(model).as_str());
            body.append(",\"max_tokens\":2048,\"messages\":");
            body.append(user_messages_exec(prompt).as_str());
            body.append("}");
        },
        Route::Google => {
            let mut u = String::from_str(GOOGLE_URL_HEAD);
            u.append(model);
            u.append(GOOGLE_URL_MIDDLE);
            u.append(api_key);
            url = u;
            body = String::from_str("{\"contents\":[{\"parts\":[{\"text\":");
            body.append(quote_json(prompt).as_str());
            body.append("}]}]}");
        },
        Route::Ollama => {
            url = String::from_str(OLLAMA_URL);
            body = String::from_str("{\"model\":");
            body.append(quote_json(model).as_str());
            body.append(",\"prompt\":");
            body.append(quote_json(prompt).as_str());
            body.append(",\"stream\":false,\"keep_alive\":\"5m\"}");
        },
        Route::LmStudio => {
            url = String::from_str(LM_STUDIO_URL);
            body = String::from_str("{\"model\":");
            body.append(quote_json(model).as_str());
            body.append(",\"messages\":");
            body.append(user_messages_exec(prompt).as_str());
            body.append(",\"stream\":false}");
        },
    }
    headers.push(header("Content-Type", "application/json"));
    let r = HttpRequest { url, headers, body };
    assert(r@.headers =~= request_of(route, model@, api_key@, prompt@).headers);
    assert(r@.body =~= request_of(route, model@, api_key@, prompt@).body);
    r
}

/// Decides which backend answers and what is sent to it. Nothing is sent for
/// an unknown provider tag or an unknown local runtime.
pub fn plan_invocation(provider: &str, api_key: &str, model: &str, prompt: &str) -> (r: Result<Invocation, LlmError>)
    ensures
        planned(r, provider@, api_key@, model@, prompt@),
{
    let (route, name) = resolve_route(provider, model)?;
    let request = build_request(route, name.as_str(), api_key, prompt);
    Ok(Invocation { route, request })
}

} // verus!
