use todoist_rest::error::{DeserializationError, Field};
use todoist_rest::model::task::{Due, DueForm};

#[test]
fn create_due() {
    let due = Due::create("tomorrow at noon");
    assert_eq!(due.string(), "tomorrow at noon");
}

#[test]
fn set_due_date() {
    let mut due = Due::create("tomorrow at noon");
    due.set_date("2017-12-25");
    assert_eq!(due.date(), Some(String::from("2017-12-25")));
    assert_eq!(due.string(), "2017-12-25");
}

#[test]
fn created_due_has_only_a_description() {
    let due = Due::create("tomorrow at noon");
    assert_eq!(due.string(), "tomorrow at noon");
    assert_eq!(due.date(), None);
    assert_eq!(due.datetime(), None);
    assert_eq!(due.timezone(), None);
}

#[test]
fn created_due_may_be_empty() {
    let due = Due::create("");
    assert_eq!(due.string(), "");
    assert_eq!(due.date(), None);
}

#[test]
fn set_date_mirrors_and_clears_the_time() {
    let mut due = Due::create("tomorrow at noon");
    due.set_date("2017-12-25");
    assert_eq!(due.string(), "2017-12-25");
    assert_eq!(due.date(), Some(String::from("2017-12-25")));
    assert_eq!(due.datetime(), None);
    assert_eq!(due.timezone(), None);
}

#[test]
fn set_datetime_mirrors_and_clears_the_day() {
    let mut due = Due::create("tomorrow at noon");
    due.set_date("2017-12-25");
    due.set_datetime("2017-12-25T12:00:00Z");
    assert_eq!(due.string(), "2017-12-25T12:00:00Z");
    assert_eq!(due.datetime(), Some(String::from("2017-12-25T12:00:00Z")));
    assert_eq!(due.date(), None);
    assert_eq!(due.timezone(), None);
}

#[test]
fn set_string_clears_day_time_and_zone() {
    let mut due = Due::from_json(
        r#"{"string":"tomorrow at 12","date":"2016-09-01","datetime":"2016-09-01T09:00:00Z","timezone":"Europe/Moscow"}"#,
    )
    .unwrap();
    assert_eq!(due.timezone(), Some(String::from("Europe/Moscow")));
    due.set_string("monday");
    assert_eq!(due.string(), "monday");
    assert_eq!(due.date(), None);
    assert_eq!(due.datetime(), None);
    assert_eq!(due.timezone(), None);
}

#[test]
fn set_date_clears_a_zone_that_was_read() {
    let mut due = Due::from_json(
        r#"{"string":"tomorrow at 12","datetime":"2016-09-01T09:00:00Z","timezone":"Europe/Moscow"}"#,
    )
    .unwrap();
    due.set_date("2017-12-25");
    assert_eq!(due.string(), "2017-12-25");
    assert_eq!(due.date(), Some(String::from("2017-12-25")));
    assert_eq!(due.datetime(), None);
    assert_eq!(due.timezone(), None);
}

#[test]
fn setters_do_not_check_the_format() {
    let mut due = Due::create("x");
    due.set_date("not a date");
    assert_eq!(due.date(), Some(String::from("not a date")));
    due.set_datetime("");
    assert_eq!(due.datetime(), Some(String::new()));
    assert_eq!(due.string(), "");
}

#[test]
fn clone_of_due_keeps_every_field() {
    let due = Due::from_json(
        r#"{"string":"s","date":"d","datetime":"t","timezone":"z"}"#,
    )
    .unwrap();
    let copy = due.clone();
    assert_eq!(copy.string(), "s");
    assert_eq!(copy.date(), Some(String::from("d")));
    assert_eq!(copy.datetime(), Some(String::from("t")));
    assert_eq!(copy.timezone(), Some(String::from("z")));
}

#[test]
fn due_is_read_with_all_keys() {
    let due = Due::from_json(
        r#"{"date":"2016-09-01","recurring":true,"datetime":"2016-09-01T09:00:00Z","string":"tomorrow at 12","timezone":"Europe/Moscow"}"#,
    )
    .unwrap();
    assert_eq!(due.string(), "tomorrow at 12");
    assert_eq!(due.date(), Some(String::from("2016-09-01")));
    assert_eq!(due.datetime(), Some(String::from("2016-09-01T09:00:00Z")));
    assert_eq!(due.timezone(), Some(String::from("Europe/Moscow")));
}

#[test]
fn due_is_read_with_the_description_alone() {
    let due = Due::from_json(r#"{"string":"every day"}"#).unwrap();
    assert_eq!(due.string(), "every day");
    assert_eq!(due.date(), None);
    assert_eq!(due.datetime(), None);
    assert_eq!(due.timezone(), None);
}

#[test]
fn due_reads_null_as_absent() {
    let due =
        Due::from_json(r#"{"string":"s","date":null,"datetime":null,"timezone":null}"#).unwrap();
    assert_eq!(due.date(), None);
    assert_eq!(due.datetime(), None);
    assert_eq!(due.timezone(), None);
}

#[test]
fn due_without_description_is_refused() {
    let r = Due::from_json(r#"{"date":"2016-09-01"}"#);
    assert_eq!(r.err(), Some(DeserializationError::Missing(Field::String)));
}

#[test]
fn due_with_a_null_description_is_refused() {
    let r = Due::from_json(r#"{"string":null}"#);
    assert_eq!(r.err(), Some(DeserializationError::Invalid(Field::String)));
}

#[test]
fn due_with_mistyped_keys_is_refused() {
    assert_eq!(
        Due::from_json(r#"{"string":1}"#).err(),
        Some(DeserializationError::Invalid(Field::String))
    );
    assert_eq!(
        Due::from_json(r#"{"string":"s","date":20160901}"#).err(),
        Some(DeserializationError::Invalid(Field::Date))
    );
    assert_eq!(
        Due::from_json(r#"{"string":"s","datetime":true}"#).err(),
        Some(DeserializationError::Invalid(Field::Datetime))
    );
    assert_eq!(
        Due::from_json(r#"{"string":"s","timezone":[]}"#).err(),
        Some(DeserializationError::Invalid(Field::Timezone))
    );
}

#[test]
fn due_reports_the_earliest_key_that_fails() {
    assert_eq!(
        Due::from_json(r#"{"timezone":1,"datetime":2,"date":3}"#).err(),
        Some(DeserializationError::Missing(Field::String))
    );
    assert_eq!(
        Due::from_json(r#"{"timezone":1,"datetime":2,"date":3,"string":"s"}"#).err(),
        Some(DeserializationError::Invalid(Field::Date))
    );
    assert_eq!(
        Due::from_json(r#"{"timezone":1,"datetime":2,"string":"s"}"#).err(),
        Some(DeserializationError::Invalid(Field::Datetime))
    );
}

#[test]
fn due_that_is_no_object_is_refused() {
    assert_eq!(Due::from_json("\"tomorrow\"").err(), Some(DeserializationError::NotAnObject));
    assert_eq!(Due::from_json("[]").err(), Some(DeserializationError::NotAnObject));
    assert_eq!(Due::from_json("null").err(), Some(DeserializationError::NotAnObject));
}

#[test]
fn due_from_text_that_is_no_json_is_refused() {
    assert_eq!(Due::from_json("{\"string\":").err(), Some(DeserializationError::Syntax));
    assert_eq!(Due::from_json("").err(), Some(DeserializationError::Syntax));
}

#[test]
fn form_of_no_due() {
    assert!(matches!(DueForm::of(&None), DueForm::NoDue));
}

#[test]
fn form_prefers_the_time() {
    let due = Due::from_json(r#"{"string":"s","date":"d","datetime":"t"}"#).unwrap();
    match DueForm::of(&Some(due)) {
        DueForm::DateTime(moment) => assert_eq!(moment, "t"),
        other => panic!("unexpected form {:?}", other),
    }
}

#[test]
fn form_takes_the_day_without_a_time() {
    let mut due = Due::create("s");
    due.set_date("2017-12-25");
    match DueForm::of(&Some(due)) {
        DueForm::DateOnly(day) => assert_eq!(day, "2017-12-25"),
        other => panic!("unexpected form {:?}", other),
    }
}

#[test]
fn form_falls_back_to_the_description() {
    let due = Due::create("tomorrow at noon");
    match DueForm::of(&Some(due)) {
        DueForm::StringOnly(text) => assert_eq!(text, "tomorrow at noon"),
        other => panic!("unexpected form {:?}", other),
    }
}

#[test]
fn form_writes_its_members_at_the_end() {
    let mut members = vec![(String::from("content"), todoist_rest::json::Json::Null)];
    DueForm::StringOnly(String::from("monday")).write(&mut members);
    assert_eq!(members.len(), 3);
    assert_eq!(members[0].0, "content");
    assert_eq!(members[1].0, "due_string");
    assert_eq!(members[1].1, todoist_rest::json::Json::Text(String::from("monday")));
    assert_eq!(members[2].0, "due_lang");
    assert_eq!(members[2].1, todoist_rest::json::Json::Text(String::from("en")));

    let mut members = Vec::new();
    DueForm::NoDue.write(&mut members);
    assert!(members.is_empty());

    let mut members = Vec::new();
    DueForm::DateOnly(String::from("2017-12-25")).write(&mut members);
    assert_eq!(members.len(), 1);
    assert_eq!(members[0].0, "due_date");

    let mut members = Vec::new();
    DueForm::DateTime(String::from("2017-12-25T12:00:00Z")).write(&mut members);
    assert_eq!(members.len(), 1);
    assert_eq!(members[0].0, "due_datetime");
    assert_eq!(
        members[0].1,
        todoist_rest::json::Json::Text(String::from("2017-12-25T12:00:00Z"))
    );
}
