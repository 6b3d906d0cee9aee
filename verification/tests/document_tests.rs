//! Documents, their diffs and patches, cross-checked against the JSON
//! Patch implementation on real JSON objects.

use clever_operator::document::{apply, diff, Document, Value};

fn doc(pairs: &[(&str, &str)]) -> Document {
    let mut d = Document::new();
    for (k, v) in pairs {
        d.set(k, Value::Str(v.to_string()));
    }
    d
}

fn to_json(d: &Document) -> serde_json::Value {
    let mut map = serde_json::Map::new();
    for (k, v) in &d.fields {
        let jv = match v {
            Value::Null => serde_json::Value::Null,
            Value::Bool(b) => serde_json::Value::Bool(*b),
            Value::Int(n) => serde_json::Value::from(*n),
            Value::Str(s) => serde_json::Value::String(s.clone()),
        };
        map.insert(k.clone(), jv);
    }
    serde_json::Value::Object(map)
}

#[test]
fn diff_of_identical_documents_is_empty() {
    let a = doc(&[("/spec/plan", "plan_x"), ("/spec/region", "par")]);
    let b = doc(&[("/spec/plan", "plan_x"), ("/spec/region", "par")]);
    let p = diff(&a, &b);
    assert!(p.is_empty());
}

#[test]
fn patch_rebuilds_the_target() {
    let a = doc(&[("/a", "1"), ("/b", "2"), ("/d", "4")]);
    let b = doc(&[("/b", "2"), ("/c", "3"), ("/d", "5")]);
    let p = diff(&a, &b);
    let rebuilt = apply(&a, &p).unwrap();
    let pb = diff(&rebuilt, &b);
    assert!(pb.is_empty());
}

#[test]
fn patch_agrees_with_json_patch() {
    let a = doc(&[("/a", "1"), ("/b", "2"), ("/d", "4")]);
    let b = doc(&[("/b", "2"), ("/c", "3"), ("/d", "5")]);

    // our patch applied to our document rebuilds b
    let ours = apply(&a, &diff(&a, &b)).unwrap();

    // the JSON Patch diff applied to the JSON form rebuilds b's JSON form
    let mut ja = to_json(&a);
    let jb = to_json(&b);
    let jp = json_patch::diff(&ja, &jb);
    json_patch::patch(&mut ja, &jp).unwrap();
    assert_eq!(ja, jb);
    assert_eq!(to_json(&ours), jb);
}

#[test]
fn empty_patch_applies_as_identity() {
    let a = doc(&[("/a", "1")]);
    let p = diff(&a, &a);
    let r = apply(&a, &p).unwrap();
    assert!(diff(&a, &r).is_empty());
}

#[test]
fn mixed_value_shapes_round_trip() {
    let mut a = Document::new();
    a.set("/bool", Value::Bool(true));
    a.set("/int", Value::Int(-7));
    a.set("/null", Value::Null);
    a.set("/str", Value::Str("x".to_string()));
    let mut b = Document::new();
    b.set("/bool", Value::Bool(false));
    b.set("/int", Value::Int(-7));
    b.set("/other", Value::Str("y".to_string()));
    let r = apply(&a, &diff(&a, &b)).unwrap();
    assert!(diff(&r, &b).is_empty());
}

#[test]
fn set_replaces_and_keeps_order() {
    let mut d = doc(&[("/b", "1"), ("/a", "0")]);
    d.set("/b", Value::Str("2".to_string()));
    assert_eq!(d.fields.len(), 2);
    assert_eq!(d.fields[0].0, "/a");
    assert_eq!(d.fields[1].0, "/b");
    match &d.fields[1].1 {
        Value::Str(s) => assert_eq!(s, "2"),
        _ => panic!("expected a string"),
    }
}

#[test]
fn get_finds_what_set_stored() {
    let d = doc(&[("/a", "1"), ("/b", "2")]);
    assert!(matches!(d.get("/a"), Some(Value::Str(s)) if s == "1"));
    assert!(d.get("/missing").is_none());
}
