use vstd::prelude::*;

verus! {

#[verifier::external_type_specification]
#[verifier::external_body]
pub struct ExValue(serde_json::Value);

/// A JSON document as a tree of plain values. Numbers keep their text; an
/// object keeps its members as key and value pairs.
#[derive(Debug)]
pub enum Json {
    Null,
    Bool(bool),
    Number(String),
    Str(String),
    Array(Vec<Json>),
    Object(Vec<(String, Json)>),
}

/// The tree that `text` denotes as one JSON document, or `None` where it is
/// not one.
pub uninterp spec fn parsed_json(text: Seq<char>) -> Option<Json>;

/// The JSON string literal that stands for `s`, quotes and escapes included.
pub uninterp spec fn quoted(s: Seq<char>) -> Seq<char>;

/// Moves a `serde_json::Value` into the library's own tree, node for node;
/// relies on `serde_json::Number`'s `Display` for the text of a number.
#[verifier::external_body]
fn json_from_value(v: serde_json::Value) -> Json {
    match v {
        serde_json::Value::Null => Json::Null,
        serde_json::Value::Bool(b) => Json::Bool(b),
        serde_json::Value::Number(n) => Json::Number(n.to_string()),
        serde_json::Value::String(s) => Json::Str(s),
        serde_json::Value::Array(a) => Json::Array(a.into_iter().map(json_from_value).collect()),
        serde_json::Value::Object(m) => Json::Object(
            m.into_iter().map(|(k, x)| (k, json_from_value(x))).collect(),
        ),
    }
}

/// Relies on `serde_json::from_str` into a `serde_json::Value`: whether `text`
/// is one JSON document, and which tree it holds, depend on `text` alone.
#[verifier::external_body]
pub(crate) fn parse_json(text: &str) -> (r: Option<Json>)
    ensures
        r == parsed_json(text@),
{
    serde_json::from_str::<serde_json::Value>(text).ok().map(json_from_value)
}

/// Relies on `serde_json::to_string` on a `str`: the JSON string literal for
/// `s`, which depends on `s` alone.
#[verifier::external_body]
pub(crate) fn quote_json(s: &str) -> (r: String)
    ensures
        r@ == quoted(s@),
{
    match serde_json::to_string(s) {
        Ok(t) => t,
        Err(_) => String::new(),
    }
}

/// The value of the first member of `fields` named `key`.
pub open spec fn member(fields: Seq<(String, Json)>, key: Seq<char>) -> Option<Json>
    decreases fields.len(),
{
    if fields.len() == 0 {
        None
    } else if fields[0].0@ == key {
        Some(fields[0].1)
    } else {
        member(fields.drop_first(), key)
    }
}

/// `j[key]` where `j` is an object.
pub open spec fn field_of(j: Json, key: Seq<char>) -> Option<Json> {
    match j {
        Json::Object(fields) => member(fields@, key),
        _ => None,
    }
}

/// `j[i]` where `j` is an array.
pub open spec fn item_of(j: Json, i: int) -> Option<Json> {
    match j {
        Json::Array(items) => if 0 <= i < items@.len() {
            Some(items@[i])
        } else {
            None
        },
        _ => None,
    }
}

/// The text of `j` where `j` is a string.
pub open spec fn text_of(j: Json) -> Option<Seq<char>> {
    match j {
        Json::Str(s) => Some(s@),
        _ => None,
    }
}

/// `field_of` after `o`, where `o` is present.
pub open spec fn then_field(o: Option<Json>, key: Seq<char>) -> Option<Json> {
    match o {
        Some(j) => field_of(j, key),
        None => None,
    }
}

/// `item_of` after `o`, where `o` is present.
pub open spec fn then_item(o: Option<Json>, i: int) -> Option<Json> {
    match o {
        Some(j) => item_of(j, i),
        None => None,
    }
}

/// `text_of` after `o`, where `o` is present.
pub open spec fn then_text(o: Option<Json>) -> Option<Seq<char>> {
    match o {
        Some(j) => text_of(j),
        None => None,
    }
}

impl Json {
    /// The member named `key`, where `self` is an object that has one.
    pub fn field<'a>(&'a self, key: &String) -> (r: Option<&'a Json>)
        ensures
            match r {
                Some(x) => field_of(*self, key@) == Some(*x),
                None => field_of(*self, key@) is None,
            },
    {
        match self {
            Json::Object(fields) => {
                let mut k: usize = 0;
                assert(fields@.subrange(0, fields@.len() as int) =~= fields@);
                while k < fields.len()
                    invariant
                        k <= fields@.len(),
                        field_of(*self, key@) == member(fields@, key@),
                        member(fields@, key@) == member(fields@.subrange(k as int, fields@.len() as int), key@),
                    decreases fields@.len() - k,
                {
                    assert(fields@.subrange(k as int, fields@.len() as int).drop_first()
                        =~= fields@.subrange(k + 1, fields@.len() as int));
                    if fields[k].0 == *key {
                        assert(fields@.subrange(k as int, fields@.len() as int)[0] == fields@[k as int]);
                        return Some(&fields[k].1);
                    }
                    k += 1;
                }
                None
            },
            _ => None,
        }
    }

    /// The item at `i`, where `self` is an array that long.
    pub fn item<'a>(&'a self, i: usize) -> (r: Option<&'a Json>)
        ensures
            match r {
                Some(x) => item_of(*self, i as int) == Some(*x),
                None => item_of(*self, i as int) is None,
            },
    {
        match self {
            Json::Array(items) => if i < items.len() {
                Some(&items[i])
            } else {
                None
            },
            _ => None,
        }
    }

    /// The text, where `self` is a string.
    pub fn text(&self) -> (r: Option<&String>)
        ensures
            match r {
                Some(s) => text_of(*self) == Some(s@),
                None => text_of(*self) is None,
            },
    {
        match self {
            Json::Str(s) => Some(s),
            _ => None,
        }
    }
}

} // verus!
