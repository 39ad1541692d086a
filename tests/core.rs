use llm_review::analysis::{finish_tables, tables_invocation, tables_prompt};
use llm_review::config::{config_text, load_config, parse_config, LlmConfig};
use llm_review::discovery::{discover_models, listing_of};
use llm_review::error::LlmError;
use llm_review::normalize::{interpret_reply, normalize_response};
use llm_review::prompt::{assemble_prompt, PromptSections};
use llm_review::provider::{build_request, parse_provider, plan_invocation, resolve_route, Provider, Route};
use llm_review::tables::{extract_describe_statements, is_describe_lowered};

fn sections(example: Option<&str>, context: Option<&str>) -> PromptSections {
    PromptSections {
        output_language: "English".to_string(),
        standards_text: "Use snake_case.".to_string(),
        example_text: example.map(|s| s.to_string()),
        additional_context_text: context.map(|s| s.to_string()),
        target_file_contents: vec!["fn a() {}".to_string(), "fn b() {}".to_string()],
    }
}

#[test]
fn prompt_is_deterministic() {
    let s = sections(Some("fn good() {}"), Some("users(id)"));
    assert_eq!(assemble_prompt(&s), assemble_prompt(&s));
}

#[test]
fn prompt_without_example_has_no_example_delimiters() {
    let p = assemble_prompt(&sections(None, None));
    assert!(!p.contains("INICIO EJEMPLO DE CÓDIGO"));
    assert!(!p.contains("FIN EJEMPLO DE CÓDIGO"));
    assert!(!p.contains("CONTEXTO ADICIONAL"));
    assert!(p.contains("Responde en formato Markdown y en English."));
    assert!(p.contains("--- INICIO ESTÁNDARES DE CODIFICACIÓN ---\nUse snake_case.\n--- FIN ESTÁNDARES DE CODIFICACIÓN ---\n"));
    assert!(p.ends_with("--- INICIO ARCHIVOS DE CÓDIGO A ANALIZAR ---\nfn a() {}\n---\nfn b() {}\n--- FIN ARCHIVOS DE CÓDIGO A ANALIZAR ---"));
}

#[test]
fn prompt_with_empty_example_equals_prompt_without() {
    assert_eq!(assemble_prompt(&sections(Some(""), Some(""))), assemble_prompt(&sections(None, None)));
}

#[test]
fn prompt_with_example_and_context_has_both_blocks() {
    let p = assemble_prompt(&sections(Some("fn good() {}"), Some("users(id)")));
    assert!(p.contains("--- INICIO EJEMPLO DE CÓDIGO ---\nfn good() {}\n--- FIN EJEMPLO DE CÓDIGO ---\n"));
    assert!(p.contains("\n\n--- INICIO CONTEXTO ADICIONAL ---\nusers(id)\n--- FIN CONTEXTO ADICIONAL ---\n--- INICIO ARCHIVOS"));
    let e = p.find("INICIO EJEMPLO").unwrap();
    let c = p.find("INICIO CONTEXTO").unwrap();
    let s = p.find("INICIO ESTÁNDARES").unwrap();
    assert!(s < e && e < c);
}

#[test]
fn normalizes_openai() {
    let r = normalize_response(r#"{"choices":[{"message":{"content":"ok"}}]}"#, Route::OpenAi);
    assert_eq!(r.unwrap(), "ok");
}

#[test]
fn normalizes_lm_studio() {
    let r = normalize_response(r#"{"choices":[{"message":{"role":"assistant","content":"fine"}}]}"#, Route::LmStudio);
    assert_eq!(r.unwrap(), "fine");
}

#[test]
fn normalizes_anthropic() {
    let r = normalize_response(r#"{"content":[{"type":"text","text":"hola"}]}"#, Route::Anthropic);
    assert_eq!(r.unwrap(), "hola");
}

#[test]
fn normalizes_google() {
    let r = normalize_response(
        r#"{"candidates":[{"content":{"parts":[{"text":"g"},{"text":"second"}]}}]}"#,
        Route::Google,
    );
    assert_eq!(r.unwrap(), "g");
}

#[test]
fn normalizes_ollama() {
    let r = normalize_response(r#"{"model":"llama3","response":"local answer","done":true}"#, Route::Ollama);
    assert_eq!(r.unwrap(), "local answer");
}

#[test]
fn missing_path_reports_raw_payload() {
    let raw = r#"{"error":{"message":"bad key"}}"#;
    let e = normalize_response(raw, Route::OpenAi).unwrap_err();
    assert!(matches!(&e, LlmError::EmptyOrMissingContent { raw: x } if x == raw));
    assert!(e.message().contains(raw));
}

#[test]
fn empty_content_is_refused() {
    let raw = r#"{"response":""}"#;
    let e = normalize_response(raw, Route::Ollama).unwrap_err();
    assert!(matches!(e, LlmError::EmptyOrMissingContent { .. }));
}

#[test]
fn non_string_content_is_refused() {
    let e = normalize_response(r#"{"content":[{"text":7}]}"#, Route::Anthropic).unwrap_err();
    assert!(matches!(e, LlmError::EmptyOrMissingContent { .. }));
}

#[test]
fn malformed_payload_is_refused() {
    let e = normalize_response("not json", Route::OpenAi).unwrap_err();
    assert!(matches!(&e, LlmError::MalformedResponse { raw } if raw == "not json"));
}

#[test]
fn error_status_is_refused_with_body() {
    let e = interpret_reply(401, "denied", Route::OpenAi).unwrap_err();
    assert!(matches!(&e, LlmError::ProviderHttp { status: 401, body } if body == "denied"));
    let ok = interpret_reply(200, r#"{"response":"x"}"#, Route::Ollama).unwrap();
    assert_eq!(ok, "x");
}

#[test]
fn describe_statements_from_fenced_text() {
    let r = extract_describe_statements("```\nDESCRIBE users;\nSELECT 1;\n```").unwrap();
    assert_eq!(r, vec!["DESCRIBE users;".to_string()]);
}

#[test]
fn no_describe_statements_is_refused() {
    let e = extract_describe_statements("no tables here").unwrap_err();
    assert!(matches!(&e, LlmError::NoStatementsFound { raw } if raw == "no tables here"));
    assert!(e.message().contains("no tables here"));
}

#[test]
fn describe_statements_keep_order_and_duplicates() {
    let r = extract_describe_statements("`desc orders`;  Describe users ;DESCRIBE users;\r\nfoo;describe\r\nitems").unwrap();
    assert_eq!(
        r,
        vec![
            "desc orders;".to_string(),
            "Describe users;".to_string(),
            "DESCRIBE users;".to_string(),
            "describe\nitems;".to_string(),
        ]
    );
}

#[test]
fn describe_check_on_lowered_text() {
    assert!(is_describe_lowered("describe users"));
    assert!(is_describe_lowered("please describe x"));
    assert!(is_describe_lowered("desc t"));
    assert!(!is_describe_lowered("descx t"));
    assert!(!is_describe_lowered("DESCRIBE users"));
    assert!(!is_describe_lowered(""));
}

#[test]
fn no_runtime_gives_no_models() {
    assert!(discover_models(None, None).is_empty());
}

#[test]
fn runtimes_listings_are_tagged_in_order() {
    let ollama = r#"{"models":[{"name":"llama3"},{"size":1},{"name":"phi"}]}"#;
    let lm = r#"{"data":[{"id":"qwen"}]}"#;
    assert_eq!(
        discover_models(Some(ollama), Some(lm)),
        vec!["Ollama: llama3".to_string(), "Ollama: phi".to_string(), "LM Studio: qwen".to_string()]
    );
    assert_eq!(discover_models(Some("<html>"), Some(lm)), vec!["LM Studio: qwen".to_string()]);
    assert!(discover_models(Some(r#"{"models":"none"}"#), None).is_empty());
}

#[test]
fn config_round_trips() {
    let c = LlmConfig {
        llm_provider: "anthropic".to_string(),
        api_key: "k\"e\\y".to_string(),
        model: "sonnet-model".to_string(),
    };
    let text = config_text(&c);
    assert_eq!(
        text,
        "{\n  \"llm_provider\": \"anthropic\",\n  \"api_key\": \"k\\\"e\\\\y\",\n  \"model\": \"sonnet-model\"\n}"
    );
    let back = load_config(Some(&text)).unwrap();
    assert_eq!(back.llm_provider, "anthropic");
    assert_eq!(back.api_key, "k\"e\\y");
    assert_eq!(back.model, "sonnet-model");
}

#[test]
fn missing_config_is_not_found() {
    assert!(matches!(load_config(None), Err(LlmError::ConfigNotFound)));
}

#[test]
fn malformed_config_is_a_parse_error() {
    assert!(matches!(parse_config("{"), Err(LlmError::ConfigParse { .. })));
    assert!(matches!(parse_config(r#"{"llm_provider":"openai","api_key":"k"}"#), Err(LlmError::ConfigParse { .. })));
}

#[test]
fn unknown_provider_is_refused_before_any_request() {
    let r = plan_invocation("cohere", "k", "m", "p");
    assert!(matches!(r, Err(LlmError::UnsupportedProvider { name }) if name == "cohere"));
    assert!(matches!(parse_provider("OpenAI"), Err(LlmError::UnsupportedProvider { .. })));
    assert!(matches!(parse_provider("local"), Ok(Provider::Local)));
}

#[test]
fn unknown_local_runtime_is_refused() {
    let r = resolve_route("local", "GPT4All: x");
    assert!(matches!(r, Err(LlmError::UnsupportedProvider { name }) if name == "GPT4All: x"));
}

#[test]
fn local_models_are_split() {
    let (route, name) = resolve_route("local", "Ollama: llama3:8b").unwrap();
    assert_eq!(route, Route::Ollama);
    assert_eq!(name, "llama3:8b");
    let (route, name) = resolve_route("local", "LM Studio: qwen").unwrap();
    assert_eq!(route, Route::LmStudio);
    assert_eq!(name, "qwen");
}

#[test]
fn openai_request_shape() {
    let inv = plan_invocation("openai", "sk", "gpt-4o", "say \"hi\"\n").unwrap();
    assert_eq!(inv.route, Route::OpenAi);
    assert_eq!(inv.request.url, "https://api.openai.com/v1/chat/completions");
    assert_eq!(
        inv.request.headers,
        vec![
            ("Authorization".to_string(), "Bearer sk".to_string()),
            ("Content-Type".to_string(), "application/json".to_string()),
        ]
    );
    assert_eq!(
        inv.request.body,
        r#"{"model":"gpt-4o","messages":[{"role":"user","content":"say \"hi\"\n"}]}"#
    );
}

#[test]
fn anthropic_request_shape() {
    let r = build_request(Route::Anthropic, "sonnet-model", "key", "p");
    assert_eq!(r.url, "https://api.anthropic.com/v1/messages");
    assert_eq!(r.headers[0], ("x-api-key".to_string(), "key".to_string()));
    assert_eq!(r.headers[1], ("anthropic-version".to_string(), "2023-06-01".to_string()));
    assert_eq!(r.body, r#"{"model":"sonnet-model","max_tokens":2048,"messages":[{"role":"user","content":"p"}]}"#);
}

#[test]
fn google_request_shape() {
    let r = build_request(Route::Google, "gemini-pro", "key", "p");
    assert_eq!(
        r.url,
        "https://generativelanguage.googleapis.com/v1beta/models/gemini-pro:generateContent?key=key"
    );
    assert_eq!(r.body, r#"{"contents":[{"parts":[{"text":"p"}]}]}"#);
}

#[test]
fn local_request_shapes() {
    let inv = plan_invocation("local", "", "Ollama: llama3", "p").unwrap();
    assert_eq!(inv.request.url, "http://localhost:11434/api/generate");
    assert_eq!(inv.request.body, r#"{"model":"llama3","prompt":"p","stream":false,"keep_alive":"5m"}"#);
    let inv = plan_invocation("local", "", "LM Studio: qwen", "p").unwrap();
    assert_eq!(inv.request.url, "http://localhost:1234/v1/chat/completions");
    assert_eq!(
        inv.request.body,
        r#"{"model":"qwen","messages":[{"role":"user","content":"p"}],"stream":false}"#
    );
}

#[test]
fn tables_flow() {
    let p = tables_prompt("SELECT * FROM t");
    assert!(p.contains("--- INICIO DEL ARCHIVO ---\nSELECT * FROM t\n--- FIN DEL ARCHIVO ---"));
    let inv = tables_invocation("SELECT * FROM t", "local", "", "Ollama: m").unwrap();
    assert_eq!(inv.route, Route::Ollama);
    let r = finish_tables(200, r#"{"response":"DESCRIBE t;"}"#, Route::Ollama).unwrap();
    assert_eq!(r, vec!["DESCRIBE t;".to_string()]);
    let e = finish_tables(200, r#"{"response":"none"}"#, Route::Ollama).unwrap_err();
    assert!(matches!(e, LlmError::NoStatementsFound { raw } if raw == "none"));
}

#[test]
fn failed_listing_counts_as_absent() {
    assert_eq!(listing_of(200, "x".to_string()), Some("x".to_string()));
    assert_eq!(listing_of(404, "x".to_string()), None);
    assert_eq!(listing_of(500, "x".to_string()), None);
}
