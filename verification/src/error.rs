//! The keys of the wire format and the failures that the library reports.

use vstd::prelude::*;

verus! {

/// A key of the JSON wire format, in either direction.
#[derive(Debug, Clone, Copy, PartialEq, Eq, Structural)]
pub enum Field {
    /// `id`
    Id,
    /// `project_id`
    ProjectId,
    /// `content`
    Content,
    /// `completed`
    Completed,
    /// `label_ids`
    LabelIds,
    /// `order`
    Order,
    /// `indent`
    Indent,
    /// `priority`
    Priority,
    /// `due`
    Due,
    /// `url`
    Url,
    /// `comment_count`
    CommentCount,
    /// `name`
    Name,
    /// `string`, inside a due object
    String,
    /// `date`, inside a due object
    Date,
    /// `datetime`, inside a due object
    Datetime,
    /// `timezone`, inside a due object
    Timezone,
    /// `due_datetime`, written only
    DueDatetime,
    /// `due_date`, written only
    DueDate,
    /// `due_string`, written only
    DueString,
    /// `due_lang`, written only
    DueLang,
}

impl Field {
    /// The key as it stands on the wire.
    pub open spec fn name(self) -> Seq<char> {
        match self {
            Field::Id => "id"@,
            Field::ProjectId => "project_id"@,
            Field::Content => "content"@,
            Field::Completed => "completed"@,
            Field::LabelIds => "label_ids"@,
            Field::Order => "order"@,
            Field::Indent => "indent"@,
            Field::Priority => "priority"@,
            Field::Due => "due"@,
            Field::Url => "url"@,
            Field::CommentCount => "comment_count"@,
            Field::Name => "name"@,
            Field::String => "string"@,
            Field::Date => "date"@,
            Field::Datetime => "datetime"@,
            Field::Timezone => "timezone"@,
            Field::DueDatetime => "due_datetime"@,
            Field::DueDate => "due_date"@,
            Field::DueString => "due_string"@,
            Field::DueLang => "due_lang"@,
        }
    }

    /// The key as it stands on the wire.
    pub fn key(self) -> (r: &'static str)
        ensures
            r@ == self.name(),
    {
        match self {
            Field::Id => "id",
            Field::ProjectId => "project_id",
            Field::Content => "content",
            Field::Completed => "completed",
            Field::LabelIds => "label_ids",
            Field::Order => "order",
            Field::Indent => "indent",
            Field::Priority => "priority",
            Field::Due => "due",
            Field::Url => "url",
            Field::CommentCount => "comment_count",
            Field::Name => "name",
            Field::String => "string",
            Field::Date => "date",
            Field::Datetime => "datetime",
            Field::Timezone => "timezone",
            Field::DueDatetime => "due_datetime",
            Field::DueDate => "due_date",
            Field::DueString => "due_string",
            Field::DueLang => "due_lang",
        }
    }

    /// No two keys share a name.
    pub proof fn lemma_names_differ(a: Field, b: Field)
        ensures
            a.name() == b.name() <==> a == b,
    {
        reveal_strlit("id");
        reveal_strlit("project_id");
        reveal_strlit("content");
        reveal_strlit("completed");
        reveal_strlit("label_ids");
        reveal_strlit("order");
        reveal_strlit("indent");
        reveal_strlit("priority");
        reveal_strlit("due");
        reveal_strlit("url");
        reveal_strlit("comment_count");
        reveal_strlit("name");
        reveal_strlit("string");
        reveal_strlit("date");
        reveal_strlit("datetime");
        reveal_strlit("timezone");
        reveal_strlit("due_datetime");
        reveal_strlit("due_date");
        reveal_strlit("due_string");
        reveal_strlit("due_lang");
        // Two names of the same length differ in their first or in their fifth
        // character.
        if a != b && a.name() == b.name() {
            assert(a.name().len() == b.name().len());
            assert(a.name()[0] == b.name()[0]);
            assert(a.name()[4] == b.name()[4]);
        }
    }
}

/// The name of a key is the name of no other key.
pub proof fn lemma_name_is_its_own(field: Field)
    ensures
        forall|other: Field| other != field ==> #[trigger] other.name() != field.name(),
{
    assert forall|other: Field| other != field implies #[trigger] other.name() != field.name() by {
        Field::lemma_names_differ(other, field);
    }
}

/// Why a JSON text could not be read as a record.
#[derive(Debug, Clone, Copy, PartialEq, Eq, Structural)]
pub enum DeserializationError {
    /// The text is not a JSON document.
    Syntax,
    /// The document is not a JSON object.
    NotAnObject,
    /// A required key is absent.
    Missing(Field),
    /// The value under a key has the wrong type or lies outside the key's domain.
    Invalid(Field),
}

/// Why a mutator refused a value.
#[derive(Debug, Clone, Copy, PartialEq, Eq, Structural)]
pub enum ValidationError {
    /// The priority offered is not one of 1, 2, 3, 4.
    PriorityOutOfRange(u32),
}

} // verus!
