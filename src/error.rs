use vstd::prelude::*;
use vstd::string::StringExecFns;

verus! {

/// Every way an operation of the library can fail.
#[derive(Debug)]
pub enum LlmError {
    /// A file could not be read or written.
    Io { path: String, detail: String },
    /// A provider's endpoint could not be reached.
    Network { detail: String },
    /// A provider answered with a status other than success.
    ProviderHttp { status: u16, body: String },
    /// A provider's answer is not JSON.
    MalformedResponse { raw: String },
    /// A provider's answer has no text where its shape puts it, or the text is empty.
    EmptyOrMissingContent { raw: String },
    /// An unknown provider tag, or a local model without a known runtime prefix.
    UnsupportedProvider { name: String },
    /// A response held no DESCRIBE statement.
    NoStatementsFound { raw: String },
    /// No configuration has been saved.
    ConfigNotFound,
    /// The saved configuration does not hold the expected record.
    ConfigParse { detail: String },
}

pub open spec fn message_of(e: LlmError) -> Seq<char> {
    match e {
        LlmError::Io { path, detail } => "Failed to read file "@ + path@ + ": "@ + detail@,
        LlmError::Network { detail } => "Network error: "@ + detail@,
        LlmError::ProviderHttp { status, body } => "Provider returned an error status. Full response: "@ + body@,
        LlmError::MalformedResponse { raw } => "LLM response is not valid JSON. Full response: "@ + raw@,
        LlmError::EmptyOrMissingContent { raw } => "LLM returned empty or invalid content. Full response: "@ + raw@,
        LlmError::UnsupportedProvider { name } => "Proveedor de LLM no válido: "@ + name@,
        LlmError::NoStatementsFound { raw } => "LLM did not return any DESCRIBE statements. Full response:\n"@ + raw@,
        LlmError::ConfigNotFound => "No saved configuration found."@,
        LlmError::ConfigParse { detail } => "Saved configuration is not valid: "@ + detail@,
    }
}

impl LlmError {
    /// The text shown for this error; it carries the raw payload where there is one.
    pub fn message(&self) -> (r: String)
        ensures
            r@ == message_of(*self),
    {
        match self {
            LlmError::Io { path, detail } => {
                let mut m = String::from_str("Failed to read file ");
                m.append(path.as_str());
                m.append(": ");
                m.append(detail.as_str());
                m
            },
            LlmError::Network { detail } => String::from_str("Network error: ").concat(detail.as_str()),
            LlmError::ProviderHttp { status, body } => String::from_str(
                "Provider returned an error status. Full response: ",
            ).concat(body.as_str()),
            LlmError::MalformedResponse { raw } => String::from_str(
                "LLM response is not valid JSON. Full response: ",
            ).concat(raw.as_str()),
            LlmError::EmptyOrMissingContent { raw } => String::from_str(
                "LLM returned empty or invalid content. Full response: ",
            ).concat(raw.as_str()),
            LlmError::UnsupportedProvider { name } => String::from_str("Proveedor de LLM no válido: ").concat(name.as_str()),
            LlmError::NoStatementsFound { raw } => String::from_str(
                "LLM did not return any DESCRIBE statements. Full response:\n",
            ).concat(raw.as_str()),
            LlmError::ConfigNotFound => String::from_str("No saved configuration found."),
            LlmError::ConfigParse { detail } => String::from_str(
                "Saved configuration is not valid: ",
            ).concat(detail.as_str()),
        }
    }
}

} // verus!
