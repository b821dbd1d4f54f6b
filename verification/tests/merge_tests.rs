//! The shallow merge of two JSON documents.

use bevy_config_file::merge_override;
use serde_json::Value;

fn doc(text: &str) -> Value {
    serde_json::from_str(text).unwrap()
}

#[test]
fn overridden_keys_replace_and_others_persist() {
    let merged = merge_override(doc(r#"{"value": 42, "name": "test"}"#), doc(r#"{"value": 100}"#));
    assert_eq!(merged, doc(r#"{"value": 100, "name": "test"}"#));
}

#[test]
fn new_keys_are_added() {
    let merged = merge_override(doc(r#"{"a": 1}"#), doc(r#"{"b": 2, "c": null}"#));
    assert_eq!(merged, doc(r#"{"a": 1, "b": 2, "c": null}"#));
}

#[test]
fn nested_objects_are_replaced_not_merged() {
    let merged = merge_override(
        doc(r#"{"window": {"width": 800, "height": 600}, "title": "game"}"#),
        doc(r#"{"window": {"width": 1024}}"#),
    );
    assert_eq!(merged, doc(r#"{"window": {"width": 1024}, "title": "game"}"#));
}

#[test]
fn arrays_are_replaced_whole() {
    let merged = merge_override(doc(r#"{"keys": [1, 2, 3]}"#), doc(r#"{"keys": [9]}"#));
    assert_eq!(merged, doc(r#"{"keys": [9]}"#));
}

#[test]
fn empty_override_changes_nothing() {
    let base = doc(r#"{"a": 1, "b": [true]}"#);
    assert_eq!(merge_override(base.clone(), doc("{}")), base);
}

#[test]
fn override_of_an_empty_base_is_the_override() {
    let patch = doc(r#"{"a": 1, "b": {"c": 2}}"#);
    assert_eq!(merge_override(doc("{}"), patch.clone()), patch);
}

#[test]
fn many_keys_are_all_laid_over() {
    let merged = merge_override(
        doc(r#"{"a": 0, "b": 0, "c": 0, "d": 0, "e": 0}"#),
        doc(r#"{"e": 5, "a": 1, "c": 3, "f": 6}"#),
    );
    assert_eq!(merged, doc(r#"{"a": 1, "b": 0, "c": 3, "d": 0, "e": 5, "f": 6}"#));
}

#[test]
fn non_object_override_leaves_the_base() {
    let base = doc(r#"{"value": 42, "name": "test"}"#);
    for text in ["[1, 2]", "7", "\"text\"", "false", "null", "[{\"value\": 1}]"] {
        assert_eq!(merge_override(base.clone(), doc(text)), base);
    }
}

#[test]
fn non_object_base_is_left_alone() {
    for text in ["[1, 2]", "7", "\"text\"", "true", "null"] {
        let base = doc(text);
        assert_eq!(merge_override(base.clone(), doc(r#"{"value": 1}"#)), base);
    }
}

#[test]
fn merge_is_idempotent_on_the_same_override() {
    let patch = doc(r#"{"b": 2}"#);
    let once = merge_override(doc(r#"{"a": 1, "b": 0}"#), patch.clone());
    let twice = merge_override(once.clone(), patch);
    assert_eq!(once, twice);
}
