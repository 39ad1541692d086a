use vstd::prelude::*;
use vstd::string::StringExecFns;
use crate::error::LlmError;
use crate::json::{member, field_of, parse_json, parsed_json, quote_json, quoted, text_of, Json};

verus! {

/// The provider selection that is saved between sessions.
#[derive(Debug)]
pub struct LlmConfig {
    pub llm_provider: String,
    pub api_key: String,
    pub model: String,
}

pub struct ConfigView {
    pub llm_provider: Seq<char>,
    pub api_key: Seq<char>,
    pub model: Seq<char>,
}

impl View for LlmConfig {
    type V = ConfigView;

    open spec fn view(&self) -> ConfigView {
        ConfigView { llm_provider: self.llm_provider@, api_key: self.api_key@, model: self.model@ }
    }
}

/// The name of the file that holds the saved configuration.
pub const CONFIG_FILE_NAME: &'static str = "model.json";

/// The saved record: one JSON object with the three fields, two spaces of
/// indentation.
pub open spec fn config_text_of(c: ConfigView) -> Seq<char> {
    "{\n  \"llm_provider\": "@ + quoted(c.llm_provider) + ",\n  \"api_key\": "@ + quoted(c.api_key)
        + ",\n  \"model\": "@ + quoted(c.model) + "\n}"@
}

/// The text of member `key` of `j`, where `j` is an object with such a member
/// and it is a string.
pub open spec fn text_field(j: Json, key: Seq<char>) -> Option<Seq<char>> {
    match field_of(j, key) {
        Some(v) => text_of(v),
        None => None,
    }
}

/// The configuration a JSON tree holds, where it has all three fields as strings.
pub open spec fn config_of(j: Json) -> Option<ConfigView> {
    match (text_field(j, "llm_provider"@), text_field(j, "api_key"@), text_field(j, "model"@)) {
        (Some(p), Some(k), Some(m)) => Some(ConfigView { llm_provider: p, api_key: k, model: m }),
        _ => None,
    }
}

/// The record as it is written, read back as a JSON object, gives the same
/// three fields.
pub proof fn lemma_saved_record_decodes(c: LlmConfig, fields: Vec<(String, Json)>)
    requires
        fields@.len() == 3,
        fields@[0].0@ == "llm_provider"@,
        fields@[0].1 == Json::Str(c.llm_provider),
        fields@[1].0@ == "api_key"@,
        fields@[1].1 == Json::Str(c.api_key),
        fields@[2].0@ == "model"@,
        fields@[2].1 == Json::Str(c.model),
    ensures
        config_of(Json::Object(fields)) == Some(c@),
{
    reveal_strlit("llm_provider");
    reveal_strlit("api_key");
    reveal_strlit("model");
    let f = fields@;
    assert(f.drop_first().drop_first().drop_first().len() == 0);
    assert("api_key"@[0] != "llm_provider"@[0]);
    assert("model"@[0] != "llm_provider"@[0]);
    assert("model"@ != "api_key"@);
    assert(member(f, "llm_provider"@) == Some(f[0].1));
    assert(f.drop_first()[0] == f[1]);
    assert(member(f, "api_key"@) == member(f.drop_first(), "api_key"@));
    assert(member(f, "api_key"@) == Some(f[1].1));
    assert(f.drop_first().drop_first()[0] == f[2]);
    assert("model"@[0] != "api_key"@[0]);
    assert(member(f, "model"@) == member(f.drop_first(), "model"@));
    assert(member(f.drop_first(), "model"@) == member(f.drop_first().drop_first(), "model"@));
    assert(member(f, "model"@) == Some(f[2].1));
}

/// The text of the saved record for `c`.
pub fn config_text(c: &LlmConfig) -> (r: String)
    ensures
        r@ == config_text_of(c@),
{
    let mut t = String::from_str("{\n  \"llm_provider\": ");
    t.append(quote_json(c.llm_provider.as_str()).as_str());
    t.append(",\n  \"api_key\": ");
    t.append(quote_json(c.api_key.as_str()).as_str());
    t.append(",\n  \"model\": ");
    t.append(quote_json(c.model.as_str()).as_str());
    t.append("\n}");
    t
}

fn text_member(j: &Json, key: &str) -> (r: Option<String>)
    ensures
        match text_field(*j, key@) {
            Some(t) => r matches Some(s) && s@ == t,
            None => r is None,
        },
{
    match j.field(&String::from_str(key)) {
        Some(v) => match v.text() {
            Some(s) => Some(String::from_str(s.as_str())),
            None => None,
        },
        None => None,
    }
}

/// The configuration in a JSON tree; a tree without the three string fields
/// is refused.
pub fn config_from_json(j: &Json) -> (r: Result<LlmConfig, LlmError>)
    ensures
        match config_of(*j) {
            Some(c) => r matches Ok(x) && x@ == c,
            None => r matches Err(LlmError::ConfigParse { .. }),
        },
{
    let p = text_member(j, "llm_provider");
    let k = text_member(j, "api_key");
    let m = text_member(j, "model");
    match (p, k, m) {
        (Some(p), Some(k), Some(m)) => Ok(LlmConfig { llm_provider: p, api_key: k, model: m }),
        _ => Err(
            LlmError::ConfigParse {
                detail: String::from_str(
                    "expected an object with the string fields llm_provider, api_key and model",
                ),
            },
        ),
    }
}

/// The configuration in the saved record's text; text that is not JSON, or
/// lacks a field, is refused.
pub fn parse_config(text: &str) -> (r: Result<LlmConfig, LlmError>)
    ensures
        match parsed_json(text@) {
            Some(j) => match config_of(j) {
                Some(c) => r matches Ok(x) && x@ == c,
                None => r matches Err(LlmError::ConfigParse { .. }),
            },
            None => r matches Err(LlmError::ConfigParse { .. }),
        },
{
    match parse_json(text) {
        Some(j) => config_from_json(&j),
        None => Err(LlmError::ConfigParse { detail: String::from_str("the record is not JSON") }),
    }
}

/// The saved configuration, from the record's text where a record exists.
pub fn load_config(stored: Option<&str>) -> (r: Result<LlmConfig, LlmError>)
    ensures
        stored is None ==> r matches Err(LlmError::ConfigNotFound),
        stored matches Some(text) ==> match parsed_json(text@) {
            Some(j) => match config_of(j) {
                Some(c) => r matches Ok(x) && x@ == c,
                None => r matches Err(LlmError::ConfigParse { .. }),
            },
            None => r matches Err(LlmError::ConfigParse { .. }),
        },
{
    match stored {
        Some(text) => parse_config(text),
        None => Err(LlmError::ConfigNotFound),
    }
}

} // verus!
