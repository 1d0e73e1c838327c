//! Reading the members of a wire object, key by key, and building the values
//! that are written back.
//!
//! A key that may be absent reads as `None` both where the object lacks it and
//! where it holds `null`. A key that must be there is `Missing` where the
//! object lacks it and `Invalid` where it holds anything but a value of its
//! type, `null` included.

use vstd::prelude::*;
use vstd::string::StringExecFns;
use crate::error::{DeserializationError, Field};
use crate::json::{items_view, lemma_view_array, find, member, members_view, Json, JsonView};

verus! {

/// The text that may stand in an optional field.
pub open spec fn text_view(text: Option<String>) -> Option<Seq<char>> {
    match text {
        Some(t) => Some(t@),
        None => None,
    }
}

/// Copies an optional text.
pub fn copy_text(text: &Option<String>) -> (r: Option<String>)
    ensures
        text_view(r) == text_view(*text),
{
    match text {
        Some(t) => Some(t.clone()),
        None => None,
    }
}

/// The outcome of a reading, with what was read taken by its view.
pub open spec fn result_view<T: View>(reading: Result<T, DeserializationError>) -> Result<
    T::V,
    DeserializationError,
> {
    match reading {
        Ok(value) => Ok(value@),
        Err(e) => Err(e),
    }
}

/// The outcome of reading a text that may be absent, taken by its view.
pub open spec fn optional_text_view(reading: Result<Option<String>, DeserializationError>) -> Result<
    Option<Seq<char>>,
    DeserializationError,
> {
    match reading {
        Ok(text) => Ok(text_view(text)),
        Err(e) => Err(e),
    }
}

/// What an object holds under a key of the wire format.
pub open spec fn entry(members: Seq<(Seq<char>, JsonView)>, field: Field) -> Option<JsonView> {
    member(members, field.name())
}

/// Whether a value is a whole number that fits 32 bits.
pub open spec fn is_small_number(value: JsonView) -> bool {
    value matches JsonView::Number(n) && n <= u32::MAX
}

/// The number that a value for which `is_small_number` holds stands for.
pub open spec fn small_number(value: JsonView) -> u32 {
    value->Number_0 as u32
}

/// A number under a key that must be there.
pub open spec fn required_number(members: Seq<(Seq<char>, JsonView)>, field: Field) -> Result<
    u32,
    DeserializationError,
> {
    match entry(members, field) {
        None => Err(DeserializationError::Missing(field)),
        Some(value) => if is_small_number(value) {
            Ok(small_number(value))
        } else {
            Err(DeserializationError::Invalid(field))
        },
    }
}

/// A number under a key that may be absent.
pub open spec fn optional_number(members: Seq<(Seq<char>, JsonView)>, field: Field) -> Result<
    Option<u32>,
    DeserializationError,
> {
    match entry(members, field) {
        None => Ok(None),
        Some(JsonView::Null) => Ok(None),
        Some(value) => if is_small_number(value) {
            Ok(Some(small_number(value)))
        } else {
            Err(DeserializationError::Invalid(field))
        },
    }
}

/// A string under a key that must be there.
pub open spec fn required_text(members: Seq<(Seq<char>, JsonView)>, field: Field) -> Result<
    Seq<char>,
    DeserializationError,
> {
    match entry(members, field) {
        None => Err(DeserializationError::Missing(field)),
        Some(JsonView::Text(text)) => Ok(text),
        Some(_) => Err(DeserializationError::Invalid(field)),
    }
}

/// A string under a key that may be absent.
pub open spec fn optional_text(members: Seq<(Seq<char>, JsonView)>, field: Field) -> Result<
    Option<Seq<char>>,
    DeserializationError,
> {
    match entry(members, field) {
        None => Ok(None),
        Some(JsonView::Null) => Ok(None),
        Some(JsonView::Text(text)) => Ok(Some(text)),
        Some(_) => Err(DeserializationError::Invalid(field)),
    }
}

/// A boolean under a key that must be there.
pub open spec fn required_flag(members: Seq<(Seq<char>, JsonView)>, field: Field) -> Result<
    bool,
    DeserializationError,
> {
    match entry(members, field) {
        None => Err(DeserializationError::Missing(field)),
        Some(JsonView::Bool(flag)) => Ok(flag),
        Some(_) => Err(DeserializationError::Invalid(field)),
    }
}

/// An array of numbers under a key that must be there.
pub open spec fn required_numbers(members: Seq<(Seq<char>, JsonView)>, field: Field) -> Result<
    Seq<u32>,
    DeserializationError,
> {
    match entry(members, field) {
        None => Err(DeserializationError::Missing(field)),
        Some(JsonView::Array(items)) => if forall|i: int|
            0 <= i < items.len() ==> is_small_number(#[trigger] items[i]) {
            Ok(Seq::new(items.len(), |i: int| small_number(items[i])))
        } else {
            Err(DeserializationError::Invalid(field))
        },
        Some(_) => Err(DeserializationError::Invalid(field)),
    }
}

/// The failure of a reading, if it failed.
pub open spec fn fault<T>(reading: Result<T, DeserializationError>) -> Option<
    DeserializationError,
> {
    match reading {
        Ok(_) => None,
        Err(e) => Some(e),
    }
}

/// The earlier of two failures: the first where there is one, else the second.
pub open spec fn earlier(first: Option<DeserializationError>, second: Option<DeserializationError>) -> Option<
    DeserializationError,
> {
    if first is Some {
        first
    } else {
        second
    }
}

/// The number in a value, where it is a whole number that fits 32 bits.
pub fn as_small_number(value: &Json) -> (r: Option<u32>)
    ensures
        r == if is_small_number(value@) {
            Some(small_number(value@))
        } else {
            None
        },
{
    match value {
        Json::Number(n) => if *n <= u32::MAX as u64 {
            Some(*n as u32)
        } else {
            None
        },
        _ => None,
    }
}

/// Reads a number under a key that must be there.
pub fn read_required_number(members: &Vec<(String, Json)>, field: Field) -> (r: Result<
    u32,
    DeserializationError,
>)
    ensures
        r == required_number(members_view(members@), field),
{
    match find(members, field.key()) {
        None => Err(DeserializationError::Missing(field)),
        Some(value) => match as_small_number(value) {
            Some(n) => Ok(n),
            None => Err(DeserializationError::Invalid(field)),
        },
    }
}

/// Reads a number under a key that may be absent.
pub fn read_optional_number(members: &Vec<(String, Json)>, field: Field) -> (r: Result<
    Option<u32>,
    DeserializationError,
>)
    ensures
        r == optional_number(members_view(members@), field),
{
    match find(members, field.key()) {
        None => Ok(None),
        Some(Json::Null) => Ok(None),
        Some(value) => match as_small_number(value) {
            Some(n) => Ok(Some(n)),
            None => Err(DeserializationError::Invalid(field)),
        },
    }
}

/// Reads a string under a key that must be there.
pub fn read_required_text(members: &Vec<(String, Json)>, field: Field) -> (r: Result<
    String,
    DeserializationError,
>)
    ensures
        result_view(r) == required_text(members_view(members@), field),
{
    match find(members, field.key()) {
        None => Err(DeserializationError::Missing(field)),
        Some(Json::Text(text)) => Ok(text.clone()),
        Some(_) => Err(DeserializationError::Invalid(field)),
    }
}

/// Reads a string under a key that may be absent.
pub fn read_optional_text(members: &Vec<(String, Json)>, field: Field) -> (r: Result<
    Option<String>,
    DeserializationError,
>)
    ensures
        optional_text_view(r) == optional_text(members_view(members@), field),
{
    match find(members, field.key()) {
        None => Ok(None),
        Some(Json::Null) => Ok(None),
        Some(Json::Text(text)) => Ok(Some(text.clone())),
        Some(_) => Err(DeserializationError::Invalid(field)),
    }
}

/// Reads a boolean under a key that must be there.
pub fn read_required_flag(members: &Vec<(String, Json)>, field: Field) -> (r: Result<
    bool,
    DeserializationError,
>)
    ensures
        r == required_flag(members_view(members@), field),
{
    match find(members, field.key()) {
        None => Err(DeserializationError::Missing(field)),
        Some(Json::Bool(flag)) => Ok(*flag),
        Some(_) => Err(DeserializationError::Invalid(field)),
    }
}

/// Reads an array of numbers under a key that must be there.
pub fn read_required_numbers(members: &Vec<(String, Json)>, field: Field) -> (r: Result<
    Vec<u32>,
    DeserializationError,
>)
    ensures
        result_view(r) == required_numbers(members_view(members@), field),
{
    match find(members, field.key()) {
        None => Err(DeserializationError::Missing(field)),
        Some(Json::Array(items)) => {
            proof {
                lemma_view_array(*items);
            }
            let ghost views = items_view(items@);
            let mut numbers: Vec<u32> = Vec::new();
            let mut i: usize = 0;
            while i < items.len()
                invariant
                    i <= items.len(),
                    views == items_view(items@),
                    entry(members_view(members@), field) == Some(JsonView::Array(views)),
                    numbers@.len() == i,
                    forall|j: int| 0 <= j < i ==> is_small_number(#[trigger] views[j]),
                    forall|j: int| 0 <= j < i ==> numbers@[j] == small_number(views[j]),
                decreases items.len() - i,
            {
                match as_small_number(&items[i]) {
                    Some(n) => {
                        numbers.push(n);
                    },
                    None => {
                        assert(!is_small_number(views[i as int]));
                        return Err(DeserializationError::Invalid(field));
                    },
                }
                i += 1;
            }
            assert(numbers@ =~= Seq::new(views.len(), |j: int| small_number(views[j])));
            Ok(numbers)
        },
        Some(_) => Err(DeserializationError::Invalid(field)),
    }
}

/// The value written for a number.
pub open spec fn number_value(number: u32) -> JsonView {
    JsonView::Number(number as u64)
}

/// The value written for a number that may be absent: `null` where it is.
pub open spec fn optional_number_value(number: Option<u32>) -> JsonView {
    match number {
        Some(n) => number_value(n),
        None => JsonView::Null,
    }
}

/// The value written for a list of numbers.
pub open spec fn numbers_value(numbers: Seq<u32>) -> JsonView {
    JsonView::Array(Seq::new(numbers.len(), |i: int| number_value(numbers[i])))
}

/// Builds the value written for a number that may be absent.
pub fn write_optional_number(number: Option<u32>) -> (json: Json)
    ensures
        json@ == optional_number_value(number),
{
    match number {
        Some(n) => Json::Number(n as u64),
        None => Json::Null,
    }
}

/// Builds the value written for a list of numbers.
pub fn write_numbers(numbers: &Vec<u32>) -> (json: Json)
    ensures
        json@ == numbers_value(numbers@),
{
    let mut items: Vec<Json> = Vec::new();
    let mut i: usize = 0;
    while i < numbers.len()
        invariant
            i <= numbers.len(),
            items@.len() == i,
            forall|j: int| 0 <= j < i ==> (#[trigger] items@[j])@ == number_value(numbers@[j]),
        decreases numbers.len() - i,
    {
        items.push(Json::Number(numbers[i] as u64));
        i += 1;
    }
    proof {
        lemma_view_array(items);
        assert(items_view(items@) =~= Seq::new(
            numbers@.len(),
            |i: int| number_value(numbers@[i]),
        ));
    }
    Json::Array(items)
}

/// Builds a member of an object that is written.
pub fn write_member(field: Field, value: Json) -> (m: (String, Json))
    ensures
        m.0@ == field.name(),
        m.1 == value,
{
    (String::from_str(field.key()), value)
}

} // verus!
