//! Reading the keys of a document, with an error that names the key.
use crate::error::{invalid_key_type, missing_key, outcome, ErrorView, RedfishError};
use crate::json::{
    as_entries, as_text, as_truth, lookup, member, Json, JsonView, Object, ObjectView,
};
use crate::text::{after_last, last_segment};
use vstd::prelude::*;
use vstd::string::*;

verus! {

/// `found`, or that `key` is of another type than `expected_type`, or missing.
pub open spec fn typed<V>(
    present: bool,
    found: Option<V>,
    key: Seq<char>,
    expected_type: Seq<char>,
    url: Seq<char>,
) -> Result<V, ErrorView> {
    if !present {
        Err(ErrorView::MissingKey { key, url })
    } else {
        match found {
            Some(v) => Ok(v),
            None => Err(ErrorView::InvalidKeyType { key, expected_type, url }),
        }
    }
}

/// The value under `key`.
pub open spec fn value_of(o: ObjectView, key: Seq<char>, url: Seq<char>) -> Result<
    JsonView,
    ErrorView,
> {
    match lookup(o, key) {
        Some(v) => Ok(v),
        None => Err(ErrorView::MissingKey { key, url }),
    }
}

/// The string under `key`.
pub open spec fn text_of(o: ObjectView, key: Seq<char>, url: Seq<char>) -> Result<
    Seq<char>,
    ErrorView,
> {
    typed(lookup(o, key) is Some, as_text(lookup(o, key)), key, "&str"@, url)
}

/// The truth value under `key`.
pub open spec fn truth_of(o: ObjectView, key: Seq<char>, url: Seq<char>) -> Result<
    bool,
    ErrorView,
> {
    typed(lookup(o, key) is Some, as_truth(lookup(o, key)), key, "bool"@, url)
}

/// The object under `key`.
pub open spec fn entries_of(o: ObjectView, key: Seq<char>, url: Seq<char>) -> Result<
    ObjectView,
    ErrorView,
> {
    typed(lookup(o, key) is Some, as_entries(lookup(o, key)), key, "Object"@, url)
}

/// The link that an object in a collection is.
pub open spec fn link(j: JsonView) -> Option<Seq<char>> {
    as_text(member(j, "@odata.id"@))
}

/// The names of the documents that an array of links leads to, where every
/// element is a link.
pub open spec fn link_names(j: Option<JsonView>) -> Option<Seq<Seq<char>>> {
    match j {
        Some(JsonView::Array(a)) => if forall|i: int| 0 <= i < a.len() ==> link(#[trigger] a[i]) is Some {
            Some(a.map_values(|l: JsonView| after_last(link(l)->0, '/')))
        } else {
            None
        },
        _ => None,
    }
}

/// The names of the documents that a collection leads to.
pub open spec fn member_names(o: ObjectView, url: Seq<char>) -> Result<
    Seq<Seq<char>>,
    ErrorView,
> {
    let found = lookup(o, "Members"@);
    typed(found is Some, link_names(found), "Members"@, "Vec<ODataId>"@, url)
}

/// The value under `key`.
pub fn get_value<'a>(map: &'a Object, key: &str, url: &str) -> (r: Result<&'a Json, RedfishError>)
    ensures
        outcome(r) == value_of(map@, key@, url@),
{
    match map.get(key) {
        Some(v) => Ok(v),
        None => Err(missing_key(key, url)),
    }
}

/// The string under `key`.
pub fn get_str<'a>(map: &'a Object, key: &str, url: &str) -> (r: Result<&'a str, RedfishError>)
    ensures
        outcome(r) == text_of(map@, key@, url@),
{
    match map.get(key) {
        Some(v) => match v.as_str() {
            Some(s) => Ok(s),
            None => Err(invalid_key_type(key, "&str", url)),
        },
        None => Err(missing_key(key, url)),
    }
}

/// The truth value under `key`.
pub fn get_bool(map: &Object, key: &str, url: &str) -> (r: Result<bool, RedfishError>)
    ensures
        outcome(r) == truth_of(map@, key@, url@),
{
    match map.get(key) {
        Some(v) => match v.as_bool() {
            Some(b) => Ok(b),
            None => Err(invalid_key_type(key, "bool", url)),
        },
        None => Err(missing_key(key, url)),
    }
}

/// The object under `key`.
pub fn get_object<'a>(map: &'a Object, key: &str, url: &str) -> (r: Result<
    &'a Object,
    RedfishError,
>)
    ensures
        outcome(r) == entries_of(map@, key@, url@),
{
    match map.get(key) {
        Some(v) => match v.as_object() {
            Some(o) => Ok(o),
            None => Err(invalid_key_type(key, "Object", url)),
        },
        None => Err(missing_key(key, url)),
    }
}

/// The names of the documents that an array of links leads to, where every
/// element is a link.
fn get_link_names(j: &Json) -> (r: Option<Vec<String>>)
    ensures
        r.deep_view() == link_names(Some(j@)),
{
    match j {
        Json::Array(v) => {
            let ghost a = crate::json::array_model(v@);
            let mut names: Vec<String> = Vec::new();
            let mut i: usize = 0;
            while i < v.len()
                invariant
                    i <= v.len(),
                    a == crate::json::array_model(v@),
                    j@ == JsonView::Array(a),
                    names.len() == i,
                    forall|k: int|
                        0 <= k < i ==> link(#[trigger] a[k]) is Some && names@[k]@ == after_last(
                            link(a[k])->0,
                            '/',
                        ),
                decreases v.len() - i,
            {
                assert(a[i as int] == v@[i as int]@);
                match v[i].get("@odata.id") {
                    Some(l) => match l.as_str() {
                        Some(s) => names.push(last_segment(s, '/').to_owned()),
                        None => {
                            assert(link(a[i as int]) is None);
                            return None;
                        },
                    },
                    None => {
                        assert(link(a[i as int]) is None);
                        return None;
                    },
                }
                i = i + 1;
            }
            assert(names.deep_view() =~= a.map_values(
                |l: JsonView| after_last(link(l)->0, '/'),
            ));
            Some(names)
        },
        _ => None,
    }
}

/// The names of the documents that a collection leads to.
pub fn get_member_names(map: &Object, url: &str) -> (r: Result<Vec<String>, RedfishError>)
    ensures
        outcome(r) == member_names(map@, url@),
{
    match map.get("Members") {
        Some(v) => match get_link_names(v) {
            Some(names) => Ok(names),
            None => Err(invalid_key_type("Members", "Vec<ODataId>", url)),
        },
        None => Err(missing_key("Members", url)),
    }
}

} // verus!
