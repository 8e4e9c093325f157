use serde_json::Value;
use tauri_config::doc::{merge_into, merge_value, Doc};

fn num(n: &str) -> Doc {
    Doc::Number(n.to_string())
}

fn text(s: &str) -> Doc {
    Doc::Text(s.to_string())
}

fn obj(entries: Vec<(&str, Doc)>) -> Doc {
    Doc::Object(entries.into_iter().map(|(k, v)| (k.to_string(), v)).collect())
}

fn from_json(v: &Value) -> Doc {
    match v {
        Value::Null => Doc::Null,
        Value::Bool(b) => Doc::Bool(*b),
        Value::Number(n) => Doc::Number(n.to_string()),
        Value::String(s) => Doc::Text(s.clone()),
        Value::Array(items) => Doc::Array(items.iter().map(from_json).collect()),
        Value::Object(map) => Doc::Object(map.iter().map(|(k, v)| (k.clone(), from_json(v))).collect()),
    }
}

fn to_json(d: &Doc) -> Value {
    match d {
        Doc::Null => Value::Null,
        Doc::Bool(b) => Value::Bool(*b),
        Doc::Number(n) => serde_json::from_str(n).unwrap(),
        Doc::Text(s) => Value::String(s.clone()),
        Doc::Array(items) => Value::Array(items.iter().map(to_json).collect()),
        Doc::Object(entries) => {
            let mut map = serde_json::Map::new();
            for (k, v) in entries {
                map.insert(k.clone(), to_json(v));
            }
            Value::Object(map)
        }
    }
}

fn assert_same_as_json_patch(base: &str, overlay: &str) {
    let base_json: Value = serde_json::from_str(base).unwrap();
    let overlay_json: Value = serde_json::from_str(overlay).unwrap();
    let mut expected = base_json.clone();
    json_patch::merge(&mut expected, &overlay_json);
    let mut doc = from_json(&base_json);
    merge_into(&mut doc, &from_json(&overlay_json));
    assert_eq!(to_json(&doc), expected);
}

#[test]
fn later_overlay_takes_precedence() {
    let mut a = obj(vec![("x", num("1")), ("y", num("1")), ("z", num("1"))]);
    let b = obj(vec![("x", num("2")), ("y", num("2"))]);
    let c = obj(vec![("x", num("3"))]);
    merge_into(&mut a, &b);
    merge_into(&mut a, &c);
    assert_eq!(a, obj(vec![("x", num("3")), ("y", num("2")), ("z", num("1"))]));
}

#[test]
fn nested_objects_merge_at_every_level() {
    let mut a = obj(vec![("o", obj(vec![("p", obj(vec![("q", num("1")), ("r", num("1"))]))]))]);
    let b = obj(vec![("o", obj(vec![("p", obj(vec![("q", num("2"))]))]))]);
    let c = obj(vec![("o", obj(vec![("p", obj(vec![("s", num("3"))]))]))]);
    merge_into(&mut a, &b);
    merge_into(&mut a, &c);
    assert_eq!(
        a,
        obj(vec![("o", obj(vec![("p", obj(vec![("q", num("2")), ("r", num("1")), ("s", num("3"))]))]))])
    );
}

#[test]
fn empty_overlay_keeps_document() {
    let original = obj(vec![("a", num("1")), ("b", obj(vec![("c", text("x"))]))]);
    let mut doc = original.copy();
    merge_into(&mut doc, &obj(vec![]));
    assert_eq!(doc, original);
}

#[test]
fn null_removes_object_valued_key() {
    let mut doc = obj(vec![("a", num("1")), ("b", obj(vec![("c", num("2"))]))]);
    merge_into(&mut doc, &obj(vec![("b", Doc::Null)]));
    assert_eq!(doc, obj(vec![("a", num("1"))]));
}

#[test]
fn null_for_absent_key_changes_nothing() {
    let mut doc = obj(vec![("a", num("1"))]);
    merge_into(&mut doc, &obj(vec![("z", Doc::Null)]));
    assert_eq!(doc, obj(vec![("a", num("1"))]));
}

#[test]
fn scalar_replaces_object() {
    let mut doc = obj(vec![("a", obj(vec![("b", num("1"))]))]);
    merge_into(&mut doc, &obj(vec![("a", text("flat"))]));
    assert_eq!(doc, obj(vec![("a", text("flat"))]));
}

#[test]
fn object_replaces_scalar() {
    let mut doc = obj(vec![("a", num("5"))]);
    merge_into(&mut doc, &obj(vec![("a", obj(vec![("b", Doc::Bool(true)), ("c", Doc::Null)]))]));
    assert_eq!(doc, obj(vec![("a", obj(vec![("b", Doc::Bool(true))]))]));
}

#[test]
fn arrays_are_replaced_whole() {
    let mut doc = obj(vec![("a", Doc::Array(vec![num("1"), num("2"), num("3")]))]);
    merge_into(&mut doc, &obj(vec![("a", Doc::Array(vec![num("9")]))]));
    assert_eq!(doc, obj(vec![("a", Doc::Array(vec![num("9")]))]));
}

#[test]
fn non_object_overlay_replaces_document() {
    let doc = obj(vec![("a", num("1"))]);
    assert_eq!(merge_value(doc, &Doc::Array(vec![])), Doc::Array(vec![]));
    assert_eq!(merge_value(num("1"), &Doc::Null), Doc::Null);
}

#[test]
fn empty_overlay_turns_scalar_into_object() {
    assert_eq!(merge_value(num("1"), &obj(vec![])), obj(vec![]));
}

#[test]
fn agrees_with_json_patch_merge() {
    assert_same_as_json_patch(r#"{"a":1,"b":{"c":2}}"#, r#"{"b":{"c":3}}"#);
    assert_same_as_json_patch(r#"{"a":"b","c":{"d":"e","f":"g"}}"#, r#"{"a":"z","c":{"f":null}}"#);
    assert_same_as_json_patch(r#"{"a":[1,2]}"#, r#"{"a":[3]}"#);
    assert_same_as_json_patch(r#"{"a":{"b":1}}"#, r#"{"a":null,"x":{"y":null,"z":[]}}"#);
    assert_same_as_json_patch(r#"[1,2]"#, r#"{"a":{"b":null}}"#);
    assert_same_as_json_patch(r#"{"e":null}"#, r#"{"a":1}"#);
}

#[test]
fn copy_is_deep_and_equal() {
    let d = obj(vec![("a", Doc::Array(vec![text("s"), Doc::Bool(false)])), ("n", Doc::Null)]);
    assert_eq!(d.copy(), d);
}
