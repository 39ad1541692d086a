use vstd::prelude::*;
use vstd::string::StringExecFns;
use crate::json::{field_of, parse_json, parsed_json, text_of, Json};
use crate::provider::{LM_STUDIO_PREFIX, OLLAMA_PREFIX};
use crate::normalize::is_success;
use crate::tables::texts;

verus! {

/// Where the Ollama runtime lists its models.
pub const OLLAMA_TAGS_URL: &'static str = "http://localhost:11434/api/tags";

/// Where the LM Studio runtime lists its models.
pub const LM_STUDIO_MODELS_URL: &'static str = "http://localhost:1234/v1/models";

/// `prefix` before member `name_key` of each item that has it as a string, in order.
pub open spec fn tagged(items: Seq<Json>, name_key: Seq<char>, prefix: Seq<char>) -> Seq<Seq<char>>
    decreases items.len(),
{
    if items.len() == 0 {
        Seq::empty()
    } else {
        let r = tagged(items.drop_last(), name_key, prefix);
        match field_of(items.last(), name_key) {
            Some(v) => match text_of(v) {
                Some(name) => r.push(prefix + name),
                None => r,
            },
            None => r,
        }
    }
}

/// The tagged names in the array under `list_key` of a runtime's listing.
pub open spec fn listed(j: Json, list_key: Seq<char>, name_key: Seq<char>, prefix: Seq<char>) -> Seq<Seq<char>> {
    match field_of(j, list_key) {
        Some(Json::Array(items)) => tagged(items@, name_key, prefix),
        _ => Seq::empty(),
    }
}

/// The tagged names in a probe's answer; an absent answer, or one that is not
/// JSON, gives none.
pub open spec fn probed(body: Option<Seq<char>>, list_key: Seq<char>, name_key: Seq<char>, prefix: Seq<char>) -> Seq<Seq<char>> {
    match body {
        Some(b) => match parsed_json(b) {
            Some(j) => listed(j, list_key, name_key, prefix),
            None => Seq::empty(),
        },
        None => Seq::empty(),
    }
}

/// All the local models that the two runtimes' answers list, Ollama's first.
pub open spec fn discovered(ollama: Option<Seq<char>>, lm_studio: Option<Seq<char>>) -> Seq<Seq<char>> {
    probed(ollama, "models"@, "name"@, OLLAMA_PREFIX@) + probed(
        lm_studio,
        "data"@,
        "id"@,
        LM_STUDIO_PREFIX@,
    )
}

/// With neither runtime answering, no model is found, and discovery does not fail.
pub proof fn lemma_no_runtime_no_models()
    ensures
        discovered(None, None) == Seq::<Seq<char>>::empty(),
{
    assert(discovered(None, None) =~= Seq::<Seq<char>>::empty());
}

pub open spec fn text_opt(o: Option<&str>) -> Option<Seq<char>> {
    match o {
        Some(s) => Some(s@),
        None => None,
    }
}

/// The body of a runtime's listing that counts: the body where the runtime
/// answered with success, else none, as if it were absent.
pub fn listing_of(status: u16, body: String) -> (r: Option<String>)
    ensures
        is_success(status) ==> r == Some(body),
        !is_success(status) ==> r is None,
{
    if 200 <= status && status < 300 {
        Some(body)
    } else {
        None
    }
}

/// The models that a runtime's listing `j` names, each after `prefix`.
pub fn listed_models(j: &Json, list_key: &str, name_key: &str, prefix: &str) -> (r: Vec<String>)
    ensures
        texts(r@) == listed(*j, list_key@, name_key@, prefix@),
{
    let mut out: Vec<String> = Vec::new();
    match j.field(&String::from_str(list_key)) {
        Some(Json::Array(items)) => {
            let key = String::from_str(name_key);
            let mut i: usize = 0;
            while i < items.len()
                invariant
                    i <= items@.len(),
                    key@ == name_key@,
                    texts(out@) == tagged(items@.take(i as int), name_key@, prefix@),
                decreases items@.len() - i,
            {
                assert(items@.take(i + 1).drop_last() =~= items@.take(i as int));
                match items[i].field(&key) {
                    Some(v) => match v.text() {
                        Some(name) => {
                            out.push(String::from_str(prefix).concat(name.as_str()));
                        },
                        None => {},
                    },
                    None => {},
                }
                assert(texts(out@) =~= tagged(items@.take(i + 1), name_key@, prefix@));
                i += 1;
            }
            assert(items@.take(items@.len() as int) =~= items@);
        },
        _ => {
            assert(texts(out@) =~= Seq::<Seq<char>>::empty());
        },
    }
    out
}

fn probe_models(body: Option<&str>, list_key: &str, name_key: &str, prefix: &str) -> (r: Vec<String>)
    ensures
        texts(r@) == probed(text_opt(body), list_key@, name_key@, prefix@),
{
    let empty: Vec<String> = Vec::new();
    assert(texts(empty@) =~= Seq::<Seq<char>>::empty());
    match body {
        Some(b) => match parse_json(b) {
            Some(j) => listed_models(&j, list_key, name_key, prefix),
            None => empty,
        },
        None => empty,
    }
}

/// The local models that the two runtimes list, each after the tag of its
/// runtime, Ollama's first. Each argument is the body of a runtime's listing,
/// or `None` where the runtime did not answer with success; a runtime that did
/// not answer, or answered with something other than JSON, adds nothing.
pub fn discover_models(ollama: Option<&str>, lm_studio: Option<&str>) -> (r: Vec<String>)
    ensures
        texts(r@) == discovered(text_opt(ollama), text_opt(lm_studio)),
{
    let mut first = probe_models(ollama, "models", "name", OLLAMA_PREFIX);
    let mut second = probe_models(lm_studio, "data", "id", LM_STUDIO_PREFIX);
    let ghost a = first@;
    let ghost b = second@;
    first.append(&mut second);
    assert(texts(first@) =~= texts(a) + texts(b));
    first
}

} // verus!
