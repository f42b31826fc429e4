//! Reading strings out of a JSON document by the keys that lead to them.
//!
//! Documents are parsed and held by `serde_json`. Of a document this module
//! reads only strings that are reached from the root through object members.

use vstd::prelude::*;

verus! {

/// A path into a JSON document: the member names to step through, outermost
/// first.
pub type JsonPath = Seq<Seq<char>>;

#[verifier::external_type_specification]
#[verifier::external_body]
pub struct ExJsonValue(serde_json::Value);

#[verifier::external_type_specification]
#[verifier::external_body]
pub struct ExJsonError(serde_json::Error);

/// The strings of a JSON value, each under the path that leads to it: the
/// map holds a string under a path exactly if stepping from the value
/// through the object members that the path names ends at that JSON string.
/// A value that is itself a string holds it under the empty path.
pub uninterp spec fn json_strings(value: serde_json::Value) -> Map<JsonPath, Seq<char>>;

/// The strings of the document that a text is, as `json_strings` gives them
/// for what `serde_json::from_str` makes of the text; `None` for a text that
/// it refuses.
pub uninterp spec fn json_document(text: Seq<char>) -> Option<Map<JsonPath, Seq<char>>>;

/// The strings that lie under `prefix`, each under the rest of its path.
pub open spec fn strings_under(strings: Map<JsonPath, Seq<char>>, prefix: JsonPath) -> Map<
    JsonPath,
    Seq<char>,
> {
    Map::new(
        |rest: JsonPath| strings.contains_key(prefix + rest),
        |rest: JsonPath| strings[prefix + rest],
    )
}

/// The string under `path`, if there is one.
pub open spec fn string_under(strings: Map<JsonPath, Seq<char>>, path: JsonPath) -> Option<
    Seq<char>,
> {
    if strings.contains_key(path) {
        Some(strings[path])
    } else {
        None
    }
}

/// The member names that a list of keys spells.
pub open spec fn path_of(keys: Seq<&str>) -> JsonPath {
    keys.map_values(|key: &str| key@)
}

/// Stepping under `a` and then under `b` is stepping under `a + b`.
pub proof fn lemma_strings_under_concat(strings: Map<JsonPath, Seq<char>>, a: JsonPath, b: JsonPath)
    ensures
        strings_under(strings_under(strings, a), b) == strings_under(strings, a + b),
{
    assert forall|rest: JsonPath| a + (b + rest) == (a + b) + rest by {
        assert(a + (b + rest) =~= (a + b) + rest);
    }
    assert(strings_under(strings_under(strings, a), b) =~= strings_under(strings, a + b));
}

/// Stepping under the empty path changes nothing.
pub proof fn lemma_strings_under_empty(strings: Map<JsonPath, Seq<char>>)
    ensures
        strings_under(strings, Seq::empty()) == strings,
{
    assert forall|rest: JsonPath| Seq::<Seq<char>>::empty() + rest == rest by {
        assert(Seq::<Seq<char>>::empty() + rest =~= rest);
    }
    assert(strings_under(strings, Seq::empty()) =~= strings);
}

/// Calls `serde_json::from_str` for a `serde_json::Value`.
///
/// Trusted: whether the text is accepted, and which strings the document
/// then holds under which paths, depends on the text alone.
#[verifier::external_body]
pub(crate) fn json_from_str(text: &str) -> (r: Result<serde_json::Value, serde_json::Error>)
    ensures
        match r {
            Ok(value) => json_document(text@) == Some(json_strings(value)),
            Err(_) => json_document(text@) is None,
        },
{
    serde_json::from_str::<serde_json::Value>(text)
}

/// Calls `serde_json::Value::get` with a string key.
///
/// Trusted: for an object with a member of that name the call gives the
/// member, whose strings are those of the object under the name; for any
/// other value it gives `None`, and the value then holds no string under
/// the name.
#[verifier::external_body]
fn json_get<'a>(value: &'a serde_json::Value, key: &str) -> (r: Option<&'a serde_json::Value>)
    ensures
        match r {
            Some(member) => json_strings(*member) == strings_under(
                json_strings(*value),
                seq![key@],
            ),
            None => strings_under(json_strings(*value), seq![key@]) == Map::<
                JsonPath,
                Seq<char>,
            >::empty(),
        },
{
    value.get(key)
}

/// Calls `serde_json::Value::as_str`.
///
/// Trusted: the call gives the text of a value that is a JSON string, and
/// `None` for any other value.
#[verifier::external_body]
fn json_as_str<'a>(value: &'a serde_json::Value) -> (r: Option<&'a str>)
    ensures
        match r {
            Some(text) => string_under(json_strings(*value), Seq::empty()) == Some(text@),
            None => string_under(json_strings(*value), Seq::empty()) is None,
        },
{
    value.as_str()
}

/// The string that a parsed document holds under the path that `keys` spell.
pub fn string_at(document: &serde_json::Value, keys: &[&str]) -> (r: Option<String>)
    ensures
        match string_under(json_strings(*document), path_of(keys@)) {
            Some(text) => r matches Some(found) && found@ == text,
            None => r is None,
        },
{
    let ghost strings = json_strings(*document);
    let ghost path = path_of(keys@);
    let mut current: &serde_json::Value = document;
    let mut i: usize = 0;
    proof {
        lemma_strings_under_empty(strings);
        assert(path.subrange(0, 0) =~= Seq::<Seq<char>>::empty());
    }
    while i < keys.len()
        invariant
            i <= keys.len(),
            strings == json_strings(*document),
            path == path_of(keys@),
            json_strings(*current) == strings_under(strings, path.subrange(0, i as int)),
        decreases keys.len() - i,
    {
        let ghost done = path.subrange(0, i as int);
        proof {
            lemma_strings_under_concat(strings, done, seq![keys@[i as int]@]);
            assert(done + seq![keys@[i as int]@] =~= path.subrange(0, i + 1));
        }
        match json_get(current, keys[i]) {
            Some(member) => {
                current = member;
            },
            None => {
                proof {
                    let reached = path.subrange(0, i + 1);
                    let rest = path.subrange(i + 1, path.len() as int);
                    assert(reached + rest =~= path);
                    assert(!strings_under(strings, reached).contains_key(rest));
                }
                return None;
            },
        }
        i += 1;
    }
    proof {
        assert(path.subrange(0, path.len() as int) =~= path);
        assert(path + Seq::<Seq<char>>::empty() =~= path);
    }
    match json_as_str(current) {
        Some(text) => Some(text.to_owned()),
        None => None,
    }
}

} // verus!
