use vstd::prelude::*;
use vstd::string::StringExecFns;
use crate::error::LlmError;
use crate::json::parsed_json;
use crate::normalize::{interpret_reply, is_success, normalized};
use crate::prompt::{assemble_prompt, prompt_of, PromptSections};
use crate::provider::{plan_invocation, planned, Invocation, Route};
use crate::tables::{describe_statements, extract_describe_statements, texts};

verus! {

pub const TABLES_PROMPT_HEAD: &'static str = "Eres un asistente experto en bases de datos y análisis de código. Analiza el siguiente código fuente y detecta todas las tablas físicas referenciadas en él. Por cada tabla detectada, devuelve ÚNICAMENTE una sentencia SQL 'DESCRIBE <tabla>;' terminada en punto y coma. No devuelvas ningún otro texto, comentarios, explicaciones ni bloques de código, solo las sentencias DESCRIBE separadas por saltos de línea.\n\n--- INICIO DEL ARCHIVO ---\n";

pub const TABLES_PROMPT_TAIL: &'static str = "\n--- FIN DEL ARCHIVO ---\n\nRecuerda: Devuelve solamente las sentencias DESCRIBE; nada más.";

/// The prompt that asks for one DESCRIBE statement per table that a file uses.
pub open spec fn tables_prompt_of(file_content: Seq<char>) -> Seq<char> {
    TABLES_PROMPT_HEAD@ + file_content + TABLES_PROMPT_TAIL@
}

/// The prompt that asks for one DESCRIBE statement per table that `file_content` uses.
pub fn tables_prompt(file_content: &str) -> (r: String)
    ensures
        r@ == tables_prompt_of(file_content@),
{
    let mut p = String::from_str(TABLES_PROMPT_HEAD);
    p.append(file_content);
    p.append(TABLES_PROMPT_TAIL);
    p
}

/// The request for a code review of `sections` by the selected provider.
pub fn review_invocation(sections: &PromptSections, provider: &str, api_key: &str, model: &str) -> (r: Result<Invocation, LlmError>)
    ensures
        planned(r, provider@, api_key@, model@, prompt_of(*sections)),
{
    let prompt = assemble_prompt(sections);
    plan_invocation(provider, api_key, model, prompt.as_str())
}

/// The request that asks the selected provider for the tables that
/// `file_content` uses.
pub fn tables_invocation(file_content: &str, provider: &str, api_key: &str, model: &str) -> (r: Result<Invocation, LlmError>)
    ensures
        planned(r, provider@, api_key@, model@, tables_prompt_of(file_content@)),
{
    let prompt = tables_prompt(file_content);
    plan_invocation(provider, api_key, model, prompt.as_str())
}

/// The DESCRIBE statements in the reply to a table request of `route`.
pub fn finish_tables(status: u16, body: &str, route: Route) -> (r: Result<Vec<String>, LlmError>)
    ensures
        !is_success(status) ==> (r matches Err(LlmError::ProviderHttp { status: s, body: b }) && s
            == status && b@ == body@),
        is_success(status) ==> match parsed_json(body@) {
            None => r matches Err(LlmError::MalformedResponse { raw: x }) && x@ == body@,
            Some(j) => match normalized(j, body@, route) {
                Ok(t) => if describe_statements(t).len() > 0 {
                    r matches Ok(v) && texts(v@) == describe_statements(t)
                } else {
                    r matches Err(LlmError::NoStatementsFound { raw: x }) && x@ == t
                },
                Err(_) => r matches Err(LlmError::EmptyOrMissingContent { raw: x }) && x@ == body@,
            },
        },
{
    let text = interpret_reply(status, body, route)?;
    extract_describe_statements(text.as_str())
}

} // verus!
