use resident::json::{enum_json, recursive_map, JsonValue, ToTera};

fn s(text: &str) -> JsonValue {
    JsonValue::Str(text.to_string())
}

fn obj(members: Vec<(&str, JsonValue)>) -> JsonValue {
    JsonValue::Object(members.into_iter().map(|(k, v)| (k.to_string(), v)).collect())
}

fn tagged(tag: &str, value: JsonValue) -> JsonValue {
    obj(vec![("type", s(tag)), ("value", value)])
}

#[test]
fn it_works() {
    let members: Vec<String> = ["A", "B", "C"].iter().map(|m| m.to_string()).collect();
    let my_struct = obj(vec![("a", enum_json(&members, "A"))]);
    println!("{my_struct:#?}");
    assert_eq!(
        my_struct,
        obj(vec![(
            "a",
            obj(vec![
                ("type", s("enum")),
                ("members", JsonValue::Array(vec![s("A"), s("B"), s("C")])),
                ("kind", s("A")),
            ]),
        )])
    );

    let v = obj(vec![
        ("a", JsonValue::Number("1".to_string())),
        ("b", s("abc")),
        ("c", JsonValue::Array(vec![s("a"), s("b"), s("c")])),
        (
            "d",
            obj(vec![
                ("kind", s("b")),
                ("members", JsonValue::Array(vec![s("a"), s("b"), s("c")])),
                ("type", s("enum")),
            ]),
        ),
    ]);
    let dst = recursive_map(&v);
    println!("{dst:#?}");
    let expected = obj(vec![
        ("a", tagged("number", JsonValue::Number("1".to_string()))),
        ("b", tagged("string", s("abc"))),
        (
            "c",
            JsonValue::Array(vec![
                tagged("string", s("a")),
                tagged("string", s("b")),
                tagged("string", s("c")),
            ]),
        ),
        (
            "d",
            obj(vec![
                ("kind", s("b")),
                ("members", JsonValue::Array(vec![s("a"), s("b"), s("c")])),
                ("type", s("enum")),
            ]),
        ),
    ]);
    assert_eq!(dst, expected);
}

#[test]
fn recursive_map_wraps_scalars() {
    assert_eq!(recursive_map(&JsonValue::Null), obj(vec![("type", s("null"))]));
    assert_eq!(
        recursive_map(&JsonValue::Bool(true)),
        tagged("bool", JsonValue::Bool(true))
    );
    assert_eq!(
        recursive_map(&JsonValue::Number("2.5".to_string())),
        tagged("number", JsonValue::Number("2.5".to_string()))
    );
    assert_eq!(recursive_map(&s("x")), tagged("string", s("x")));
}

#[test]
fn recursive_map_empty_containers() {
    assert_eq!(recursive_map(&JsonValue::Array(vec![])), JsonValue::Array(vec![]));
    assert_eq!(recursive_map(&JsonValue::Object(vec![])), JsonValue::Object(vec![]));
}

#[test]
fn recursive_map_nested_objects() {
    let v = obj(vec![("outer", obj(vec![("inner", JsonValue::Null)]))]);
    let expected = obj(vec![("outer", obj(vec![("inner", obj(vec![("type", s("null"))]))]))]);
    assert_eq!(recursive_map(&v), expected);
}

#[test]
fn recursive_map_keeps_kind_objects() {
    let v = obj(vec![("kind", JsonValue::Bool(false)), ("x", JsonValue::Null)]);
    assert_eq!(recursive_map(&v), obj(vec![("kind", JsonValue::Bool(false)), ("x", JsonValue::Null)]));
}

#[test]
fn recursive_map_is_not_idempotent() {
    let once = recursive_map(&s("v"));
    let twice = recursive_map(&once);
    assert_ne!(once, twice);
    assert_eq!(
        twice,
        obj(vec![("type", tagged("string", s("string"))), ("value", tagged("string", s("v")))])
    );
}

#[test]
fn to_tera_matches_recursive_map() {
    let v = obj(vec![("host", s("localhost:8000")), ("current", JsonValue::Null)]);
    assert_eq!(v.to_tera(), recursive_map(&v));
}

#[test]
fn deep_copy_is_equal() {
    let v = obj(vec![("a", JsonValue::Array(vec![JsonValue::Bool(true), s("z")]))]);
    assert_eq!(v.deep_copy(), v);
}

#[test]
fn template_forms_differ_for_different_values() {
    let values = vec![
        JsonValue::Null,
        JsonValue::Bool(false),
        s("null"),
        obj(vec![("type", s("null"))]),
        obj(vec![("type", s("string")), ("value", s("x"))]),
        s("x"),
        JsonValue::Array(vec![JsonValue::Null]),
        obj(vec![("kind", s("x"))]),
    ];
    for (i, a) in values.iter().enumerate() {
        for (j, b) in values.iter().enumerate() {
            assert_eq!(i == j, recursive_map(a) == recursive_map(b));
        }
    }
}

#[test]
fn enum_layout_is_kept_in_template_form() {
    let members = vec!["A".to_string(), "B".to_string(), "C".to_string()];
    let e = enum_json(&members, "A");
    assert_eq!(
        e,
        obj(vec![
            ("type", s("enum")),
            ("members", JsonValue::Array(vec![s("A"), s("B"), s("C")])),
            ("kind", s("A")),
        ])
    );
    assert_eq!(recursive_map(&e), e);
    let inside = obj(vec![("a", e.deep_copy())]);
    assert_eq!(recursive_map(&inside), obj(vec![("a", e)]));
    assert_eq!(enum_json(&Vec::new(), "X"), obj(vec![
        ("type", s("enum")),
        ("members", JsonValue::Array(vec![])),
        ("kind", s("X")),
    ]));
}
