//! JSON documents as this library sees them.
//!
//! A document is a `serde_json::Value`. The library never looks inside one
//! beyond its top level: it asks whether the document is an object, and if so
//! which value stands under which key. Everything else is carried through
//! untouched. The items marked `external_body` below are the only places where
//! `serde_json` is called; their contracts are taken on trust.

use vstd::prelude::*;

verus! {

#[verifier::external_type_specification]
#[verifier::external_body]
pub struct ExJsonValue(serde_json::Value);

#[verifier::external_type_specification]
#[verifier::external_body]
#[verifier::reject_recursive_types(K)]
#[verifier::reject_recursive_types(V)]
pub struct ExJsonObject<K, V>(serde_json::Map<K, V>);

#[verifier::external_type_specification]
#[verifier::external_body]
pub struct ExJsonError(serde_json::Error);

/// The top-level fields of a JSON object, by key.
pub type Fields = Map<Seq<char>, serde_json::Value>;

/// What `serde_json::from_str` makes of a text: the document, or the parser's
/// diagnostic. Parsing reads nothing but the text.
pub uninterp spec fn json_parsing(text: Seq<char>) -> Result<serde_json::Value, serde_json::Error>;

/// The key/value pairs that a `serde_json::Map` holds.
pub uninterp spec fn object_entries(object: serde_json::Map<String, serde_json::Value>) -> Fields;

/// The fields of a document that is a JSON object; `None` for a document of
/// any other kind (null, boolean, number, string, array).
pub uninterp spec fn value_fields(value: serde_json::Value) -> Option<Fields>;

/// Calls `serde_json::from_str` at type `Value`. Trusted: the outcome is the
/// one that `json_parsing` names for this text.
#[verifier::external_body]
pub(crate) fn parse_json(text: &str) -> (parsed: Result<serde_json::Value, serde_json::Error>)
    ensures
        parsed == json_parsing(text@),
{
    serde_json::from_str::<serde_json::Value>(text)
}

/// Takes the map out of a `Value::Object`. Trusted: an object yields its map,
/// whose entries are the document's fields; any other document is handed back
/// as it came.
#[verifier::external_body]
pub(crate) fn into_object(value: serde_json::Value) -> (split: Result<
    serde_json::Map<String, serde_json::Value>,
    serde_json::Value,
>)
    ensures
        match split {
            Ok(object) => value_fields(value) == Some(object_entries(object)),
            Err(other) => value_fields(value) is None && other == value,
        },
{
    match value {
        serde_json::Value::Object(object) => Ok(object),
        other => Err(other),
    }
}

/// Builds `Value::Object` around a map. Trusted: the document is an object
/// whose fields are the map's entries.
#[verifier::external_body]
pub(crate) fn object_value(object: serde_json::Map<String, serde_json::Value>) -> (value:
    serde_json::Value)
    ensures
        value_fields(value) == Some(object_entries(object)),
{
    serde_json::Value::Object(object)
}

/// Calls `Map::into_iter` and collects what it yields. Trusted: every entry of
/// the map comes out exactly once, so no key comes out twice.
#[verifier::external_body]
pub(crate) fn into_entries(object: serde_json::Map<String, serde_json::Value>) -> (entries: Vec<
    (String, serde_json::Value),
>)
    ensures
        lists_fields(entries@, object_entries(object)),
{
    object.into_iter().collect()
}

/// Calls `Map::insert`. Trusted: afterwards the key maps to the given value,
/// replacing whatever stood there, and every other entry is as before.
#[verifier::external_body]
pub(crate) fn insert_entry(
    object: &mut serde_json::Map<String, serde_json::Value>,
    key: String,
    value: serde_json::Value,
)
    ensures
        object_entries(*final(object)) == object_entries(*old(object)).insert(key@, value),
{
    object.insert(key, value);
}

/// `entries` lists the pairs of `fields`, each key once, in some order.
pub open spec fn lists_fields(entries: Seq<(String, serde_json::Value)>, fields: Fields) -> bool {
    &&& forall|i: int, j: int|
        0 <= i < j < entries.len() ==> (#[trigger] entries[i]).0@ != (#[trigger] entries[j]).0@
    &&& forall|i: int|
        0 <= i < entries.len() ==> fields.contains_pair((#[trigger] entries[i]).0@, entries[i].1)
    &&& forall|key: Seq<char>| #[trigger]
        fields.contains_key(key) ==> exists|i: int|
            0 <= i < entries.len() && (#[trigger] entries[i]).0@ == key
}

/// Some entry of `entries` from position `from` on has the key `key`.
pub open spec fn taken(entries: Seq<(String, serde_json::Value)>, from: int, key: Seq<char>) -> bool {
    exists|j: int| from <= j < entries.len() && (#[trigger] entries[j]).0@ == key
}

/// The shallow merge: every key of `overrides` takes its value from there,
/// whole; every other key of `base` keeps its value.
pub open spec fn merged_fields(base: Fields, overrides: Fields) -> Fields {
    base.union_prefer_right(overrides)
}

/// What an override does to a base document. Only an object laid over an
/// object changes anything.
pub open spec fn overridden(
    base: serde_json::Value,
    overrides: serde_json::Value,
    merged: serde_json::Value,
) -> bool {
    match (value_fields(base), value_fields(overrides)) {
        (Some(b), Some(o)) => value_fields(merged) == Some(merged_fields(b, o)),
        _ => merged == base,
    }
}

/// In a merge the override wins: a key of `overrides` has the override's
/// value, any other key of `base` keeps the base's value, and no key appears
/// that neither had.
pub proof fn lemma_merge_precedence(base: Fields, overrides: Fields)
    ensures
        forall|key: Seq<char>| #[trigger]
            merged_fields(base, overrides).contains_key(key) <==> base.contains_key(key)
                || overrides.contains_key(key),
        forall|key: Seq<char>|
            overrides.contains_key(key) ==> #[trigger] merged_fields(base, overrides)[key]
                == overrides[key],
        forall|key: Seq<char>|
            base.contains_key(key) && !overrides.contains_key(key) ==> #[trigger] merged_fields(
                base,
                overrides,
            )[key] == base[key],
{
}

/// An override that is not an object changes nothing, and neither does any
/// override of a base that is not an object.
pub proof fn lemma_non_object_is_no_op(
    base: serde_json::Value,
    overrides: serde_json::Value,
    merged: serde_json::Value,
)
    requires
        value_fields(overrides) is None || value_fields(base) is None,
        overridden(base, overrides, merged),
    ensures
        merged == base,
{
}

/// Lays `overrides` over `base`, one top-level key at a time. A nested object
/// or array in `overrides` replaces the base's value under that key outright.
/// When either document is not an object, `base` comes back as it was.
pub fn merge_override(base: serde_json::Value, overrides: serde_json::Value) -> (merged:
    serde_json::Value)
    ensures
        overridden(base, overrides, merged),
{
    let patch = match into_object(overrides) {
        Ok(patch) => patch,
        Err(_) => {
            return base;
        },
    };
    let mut target = match into_object(base) {
        Ok(target) => target,
        Err(untouched) => {
            return untouched;
        },
    };
    let ghost before = object_entries(target);
    let ghost laid = object_entries(patch);
    let mut pending = into_entries(patch);
    let ghost all = pending@;
    while pending.len() > 0
        invariant
            lists_fields(all, laid),
            pending@.len() <= all.len(),
            pending@ == all.subrange(0, pending@.len() as int),
            forall|key: Seq<char>| #[trigger]
                object_entries(target).contains_key(key) ==> before.contains_key(key)
                    || taken(all, pending@.len() as int, key),
            forall|j: int|
                pending@.len() <= j < all.len() ==> object_entries(target).contains_pair(
                    (#[trigger] all[j]).0@,
                    all[j].1,
                ),
            forall|key: Seq<char>| #[trigger]
                before.contains_key(key) && !taken(all, pending@.len() as int, key)
                    ==> object_entries(target).contains_pair(key, before[key]),
        decreases pending.len(),
    {
        let ghost n = pending@.len() - 1;
        let entry = pending.pop().unwrap();
        assert(entry == all[n]);
        let ghost earlier = object_entries(target);
        insert_entry(&mut target, entry.0, entry.1);
        proof {
            let now = object_entries(target);
            assert(now == earlier.insert(all[n].0@, all[n].1));
            assert forall|key: Seq<char>| #[trigger] now.contains_key(key) implies
                before.contains_key(key) || taken(all, n, key) by {
                if key != all[n].0@ && !before.contains_key(key) {
                    assert(earlier.contains_key(key));
                    let j = choose|j: int| n + 1 <= j < all.len() && (#[trigger] all[j]).0@ == key;
                    assert(n <= j < all.len() && all[j].0@ == key);
                }
            }
            assert forall|key: Seq<char>| #[trigger]
                before.contains_key(key) && !taken(all, n, key) implies now.contains_pair(
                key,
                before[key],
            ) by {
                assert(key != all[n].0@);
                if taken(all, n + 1, key) {
                    let j = choose|j: int| n + 1 <= j < all.len() && (#[trigger] all[j]).0@ == key;
                    assert(n <= j < all.len() && all[j].0@ == key);
                }
            }
        }
    }
    let merged = object_value(target);
    proof {
        let got = object_entries(target);
        assert forall|key: Seq<char>| laid.contains_key(key) implies got.contains_pair(
            key,
            laid[key],
        ) by {
            let j = choose|j: int| 0 <= j < all.len() && (#[trigger] all[j]).0@ == key;
            assert(laid.contains_pair(all[j].0@, all[j].1));
            assert(got.contains_pair(all[j].0@, all[j].1));
        }
        assert forall|key: Seq<char>| !laid.contains_key(key) implies (got.contains_key(key)
            <==> before.contains_key(key)) && (before.contains_key(key) ==> got[key]
            == before[key]) by {
            if taken(all, 0, key) {
                let j = choose|j: int| 0 <= j < all.len() && (#[trigger] all[j]).0@ == key;
                assert(laid.contains_pair(all[j].0@, all[j].1));
            }
        }
        assert(got =~= merged_fields(before, laid));
    }
    merged
}

} // verus!
