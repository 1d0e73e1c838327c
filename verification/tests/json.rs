use todoist_rest::error::{DeserializationError, Field};
use todoist_rest::json::{find, Json};
use todoist_rest::wire::{
    as_small_number, copy_text, read_optional_number, read_optional_text, read_required_flag,
    read_required_number, read_required_numbers, read_required_text, write_member, write_numbers,
    write_optional_number,
};

#[test]
fn scalars_are_parsed() {
    assert_eq!(Json::parse("null"), Ok(Json::Null));
    assert_eq!(Json::parse("true"), Ok(Json::Bool(true)));
    assert_eq!(Json::parse("false"), Ok(Json::Bool(false)));
    assert_eq!(Json::parse("0"), Ok(Json::Number(0)));
    assert_eq!(Json::parse("18446744073709551615"), Ok(Json::Number(u64::MAX)));
    assert_eq!(Json::parse("\"a\\\"b\\u00e9\""), Ok(Json::Text(String::from("a\"b\u{e9}"))));
    assert_eq!(Json::parse("  \"\"  "), Ok(Json::Text(String::new())));
}

#[test]
fn other_numbers_are_kept_as_parsed() {
    match Json::parse("-7").unwrap() {
        Json::Inexact(n) => assert_eq!(n.as_i64(), Some(-7)),
        other => panic!("unexpected {:?}", other),
    }
    match Json::parse("1.5").unwrap() {
        Json::Inexact(n) => assert_eq!(n.as_f64(), Some(1.5)),
        other => panic!("unexpected {:?}", other),
    }
    match Json::parse("1.0").unwrap() {
        Json::Inexact(n) => assert_eq!(n.as_u64(), None),
        other => panic!("unexpected {:?}", other),
    }
    match Json::parse("18446744073709551616").unwrap() {
        Json::Inexact(n) => assert_eq!(n.as_u64(), None),
        other => panic!("unexpected {:?}", other),
    }
}

#[test]
fn arrays_and_objects_are_parsed_in_order() {
    assert_eq!(
        Json::parse("[1, [], {\"b\": null, \"a\": [true]}]"),
        Ok(Json::Array(vec![
            Json::Number(1),
            Json::Array(Vec::new()),
            Json::Object(vec![
                (String::from("b"), Json::Null),
                (String::from("a"), Json::Array(vec![Json::Bool(true)])),
            ]),
        ]))
    );
    assert_eq!(Json::parse("{}"), Ok(Json::Object(Vec::new())));
}

#[test]
fn repeated_key_keeps_its_place_and_the_last_value() {
    assert_eq!(
        Json::parse("{\"a\":1,\"b\":2,\"a\":3}"),
        Ok(Json::Object(vec![
            (String::from("a"), Json::Number(3)),
            (String::from("b"), Json::Number(2)),
        ]))
    );
}

#[test]
fn malformed_text_is_refused() {
    for text in ["", " ", "{", "[1,]", "{\"a\" 1}", "tru", "\"open", "1 2", "'a'", "{\"a\":1,}"] {
        assert_eq!(Json::parse(text), Err(DeserializationError::Syntax));
    }
}

#[test]
fn documents_are_printed_compactly() {
    assert_eq!(Json::Null.render(), "null");
    assert_eq!(Json::Bool(true).render(), "true");
    assert_eq!(Json::Number(0).render(), "0");
    assert_eq!(Json::Number(u64::MAX).render(), "18446744073709551615");
    assert_eq!(Json::Text(String::from("a\"b\\c\n")).render(), "\"a\\\"b\\\\c\\n\"");
    assert_eq!(Json::Array(Vec::new()).render(), "[]");
    assert_eq!(Json::Object(Vec::new()).render(), "{}");
    let doc = Json::Object(vec![
        (String::from("z"), Json::Array(vec![Json::Number(1), Json::Null])),
        (String::from("a"), Json::Object(vec![(String::from("k"), Json::Bool(false))])),
    ]);
    assert_eq!(doc.render(), "{\"z\":[1,null],\"a\":{\"k\":false}}");
}

#[test]
fn what_is_parsed_is_printed_alike() {
    for text in [
        "null",
        "[1,-2,3.5,\"x\",{\"k\":[]}]",
        "{\"content\":\"c\",\"n\":-0.25,\"big\":18446744073709551615}",
    ] {
        assert_eq!(Json::parse(text).unwrap().render(), text);
    }
}

#[test]
fn members_are_found_by_key() {
    let doc = Json::parse("{\"a\":1,\"b\":\"x\",\"\":null}").unwrap();
    assert_eq!(doc.get("a"), Some(&Json::Number(1)));
    assert_eq!(doc.get("b"), Some(&Json::Text(String::from("x"))));
    assert_eq!(doc.get(""), Some(&Json::Null));
    assert_eq!(doc.get("c"), None);
    assert_eq!(doc.get("A"), None);
    assert_eq!(Json::Null.get("a"), None);
    assert_eq!(Json::Array(vec![Json::Number(1)]).get("0"), None);
    assert_eq!(Json::Text(String::from("a")).get("a"), None);
}

#[test]
fn first_member_of_a_key_is_found() {
    let members = vec![
        (String::from("k"), Json::Number(1)),
        (String::from("other"), Json::Null),
        (String::from("k"), Json::Number(2)),
    ];
    assert_eq!(find(&members, "k"), Some(&Json::Number(1)));
    assert_eq!(find(&members, "other"), Some(&Json::Null));
    assert_eq!(find(&members, "none"), None);
    assert_eq!(find(&Vec::new(), "k"), None);
}

#[test]
fn keys_have_their_wire_names() {
    let names: [(Field, &str); 20] = [
        (Field::Id, "id"),
        (Field::ProjectId, "project_id"),
        (Field::Content, "content"),
        (Field::Completed, "completed"),
        (Field::LabelIds, "label_ids"),
        (Field::Order, "order"),
        (Field::Indent, "indent"),
        (Field::Priority, "priority"),
        (Field::Due, "due"),
        (Field::Url, "url"),
        (Field::CommentCount, "comment_count"),
        (Field::Name, "name"),
        (Field::String, "string"),
        (Field::Date, "date"),
        (Field::Datetime, "datetime"),
        (Field::Timezone, "timezone"),
        (Field::DueDatetime, "due_datetime"),
        (Field::DueDate, "due_date"),
        (Field::DueString, "due_string"),
        (Field::DueLang, "due_lang"),
    ];
    for (field, name) in names {
        assert_eq!(field.key(), name);
    }
    for (i, a) in names.iter().enumerate() {
        for (j, b) in names.iter().enumerate() {
            assert_eq!(a.0.key() == b.0.key(), i == j);
        }
    }
}

#[test]
fn small_numbers_are_told_apart() {
    assert_eq!(as_small_number(&Json::Number(0)), Some(0));
    assert_eq!(as_small_number(&Json::Number(4294967295)), Some(u32::MAX));
    assert_eq!(as_small_number(&Json::Number(4294967296)), None);
    assert_eq!(as_small_number(&Json::Number(u64::MAX)), None);
    assert_eq!(as_small_number(&Json::Null), None);
    assert_eq!(as_small_number(&Json::Text(String::from("1"))), None);
    assert_eq!(as_small_number(&Json::parse("-1").unwrap()), None);
    assert_eq!(as_small_number(&Json::parse("1.0").unwrap()), None);
}

fn sample() -> Vec<(String, Json)> {
    vec![
        (String::from("id"), Json::Number(7)),
        (String::from("order"), Json::Null),
        (String::from("content"), Json::Text(String::from("c"))),
        (String::from("completed"), Json::Bool(true)),
        (String::from("label_ids"), Json::Array(vec![Json::Number(3), Json::Number(1)])),
        (String::from("indent"), Json::Text(String::from("2"))),
    ]
}

#[test]
fn numbers_are_read() {
    let members = sample();
    assert_eq!(read_required_number(&members, Field::Id), Ok(7));
    assert_eq!(
        read_required_number(&members, Field::Priority),
        Err(DeserializationError::Missing(Field::Priority))
    );
    assert_eq!(
        read_required_number(&members, Field::Order),
        Err(DeserializationError::Invalid(Field::Order))
    );
    assert_eq!(
        read_required_number(&members, Field::Indent),
        Err(DeserializationError::Invalid(Field::Indent))
    );
    assert_eq!(read_optional_number(&members, Field::Id), Ok(Some(7)));
    assert_eq!(read_optional_number(&members, Field::Priority), Ok(None));
    assert_eq!(read_optional_number(&members, Field::Order), Ok(None));
    assert_eq!(
        read_optional_number(&members, Field::Indent),
        Err(DeserializationError::Invalid(Field::Indent))
    );
}

#[test]
fn texts_are_read() {
    let members = sample();
    assert_eq!(read_required_text(&members, Field::Content), Ok(String::from("c")));
    assert_eq!(
        read_required_text(&members, Field::Name),
        Err(DeserializationError::Missing(Field::Name))
    );
    assert_eq!(
        read_required_text(&members, Field::Order),
        Err(DeserializationError::Invalid(Field::Order))
    );
    assert_eq!(
        read_required_text(&members, Field::Id),
        Err(DeserializationError::Invalid(Field::Id))
    );
    assert_eq!(read_optional_text(&members, Field::Content), Ok(Some(String::from("c"))));
    assert_eq!(read_optional_text(&members, Field::Url), Ok(None));
    assert_eq!(read_optional_text(&members, Field::Order), Ok(None));
    assert_eq!(
        read_optional_text(&members, Field::Completed),
        Err(DeserializationError::Invalid(Field::Completed))
    );
}

#[test]
fn flags_and_lists_are_read() {
    let members = sample();
    assert_eq!(read_required_flag(&members, Field::Completed), Ok(true));
    assert_eq!(
        read_required_flag(&members, Field::Due),
        Err(DeserializationError::Missing(Field::Due))
    );
    assert_eq!(
        read_required_flag(&members, Field::Id),
        Err(DeserializationError::Invalid(Field::Id))
    );
    assert_eq!(read_required_numbers(&members, Field::LabelIds), Ok(vec![3, 1]));
    assert_eq!(
        read_required_numbers(&members, Field::Url),
        Err(DeserializationError::Missing(Field::Url))
    );
    assert_eq!(
        read_required_numbers(&members, Field::Content),
        Err(DeserializationError::Invalid(Field::Content))
    );
}

#[test]
fn values_are_built_for_writing() {
    assert_eq!(write_optional_number(None), Json::Null);
    assert_eq!(write_optional_number(Some(0)), Json::Number(0));
    assert_eq!(write_optional_number(Some(u32::MAX)), Json::Number(4294967295));
    assert_eq!(write_numbers(&Vec::new()), Json::Array(Vec::new()));
    assert_eq!(
        write_numbers(&vec![10, 4, 1]),
        Json::Array(vec![Json::Number(10), Json::Number(4), Json::Number(1)])
    );
    assert_eq!(
        write_member(Field::DueLang, Json::Text(String::from("en"))),
        (String::from("due_lang"), Json::Text(String::from("en")))
    );
}

#[test]
fn optional_text_is_copied() {
    assert_eq!(copy_text(&None), None);
    assert_eq!(copy_text(&Some(String::from("x"))), Some(String::from("x")));
}
