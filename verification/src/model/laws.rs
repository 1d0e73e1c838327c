//! What holds of the wire format of a task, whatever the task or the document.

use vstd::prelude::*;
use crate::error::{lemma_name_is_its_own, DeserializationError, Field};
use crate::json::{
    distinct_keys, lemma_member_absent, lemma_member_after_update, lemma_member_found,
    lemma_member_ignores_order, lemma_member_passes_over, JsonView,
};
use crate::model::project::decode_project;
use crate::model::task::{
    decode_due, decode_task, due_language, encode_task, is_due_key, is_priority, is_task_key,
    optional_due, other_than, required_priority, task_members, without, DueView, TaskView,
};
use crate::wire::{
    entry, optional_number, optional_text, required_numbers, required_text, small_number,
};

verus! {

/// Taking a label away leaves no occurrence of it, keeps every other label
/// that was there and brings in none.
pub proof fn lemma_removal_is_exact(labels: Seq<u32>, label: u32)
    ensures
        !without(labels, label).contains(label),
        forall|other: u32|
            other != label ==> (without(labels, label).contains(other) <==> labels.contains(other)),
        without(labels, label).len() <= labels.len(),
{
    let keep = other_than(label);
    let left = without(labels, label);
    labels.lemma_filter_len(keep);
    assert forall|i: int| 0 <= i < left.len() implies left[i] != label by {
        labels.lemma_filter_pred(keep, i);
    }
    assert forall|other: u32| other != label implies (left.contains(other) <==> labels.contains(
        other,
    )) by {
        if left.contains(other) {
            labels.lemma_filter_contains_rev(keep, other);
        }
        if labels.contains(other) {
            let i = labels.lemma_contains_to_index(other);
            labels.lemma_filter_contains(keep, i);
        }
    }
}

/// Taking away a label that is not there changes nothing.
pub proof fn lemma_removal_of_absent(labels: Seq<u32>, label: u32)
    requires
        !labels.contains(label),
    ensures
        without(labels, label) == labels,
    decreases labels.len(),
{
    reveal(Seq::filter);
    if labels.len() > 0 {
        let front = labels.drop_last();
        assert forall|i: int| 0 <= i < front.len() implies front[i] != label by {
            assert(front[i] == labels[i]);
        }
        lemma_removal_of_absent(front, label);
        assert(labels.last() == labels[labels.len() - 1]);
        assert(front.push(labels.last()) =~= labels);
    }
}

/// Taking a label away goes part by part: from two lists joined it takes what
/// it takes from each, in place. So the labels that stay keep their order.
pub proof fn lemma_removal_keeps_order(front: Seq<u32>, back: Seq<u32>, kept: u32, label: u32)
    requires
        kept != label,
    ensures
        without(front + back, label) == without(front, label) + without(back, label),
        without(seq![label], label) == Seq::<u32>::empty(),
        without(seq![kept], label) == seq![kept],
{
    reveal(Seq::filter);
    Seq::filter_distributes_over_add(front, back, other_than(label));
    assert(seq![label].drop_last() =~= Seq::<u32>::empty());
    assert(without(Seq::<u32>::empty(), label) =~= Seq::<u32>::empty());
}

/// The five keys that are written for every task stand first, in this order,
/// and nothing is written under a key of what only the service assigns, nor
/// under `completed` or `due`.
pub proof fn lemma_written_keys(task: TaskView)
    ensures
        task_members(task).len() >= 5,
        task_members(task)[0].0 == Field::Content.name(),
        task_members(task)[1].0 == Field::ProjectId.name(),
        task_members(task)[2].0 == Field::Order.name(),
        task_members(task)[3].0 == Field::LabelIds.name(),
        task_members(task)[4].0 == Field::Priority.name(),
        entry(task_members(task), Field::Id) is None,
        entry(task_members(task), Field::Completed) is None,
        entry(task_members(task), Field::Indent) is None,
        entry(task_members(task), Field::Url) is None,
        entry(task_members(task), Field::CommentCount) is None,
        entry(task_members(task), Field::Due) is None,
{
    let members = task_members(task);
    lemma_name_is_its_own(Field::Id);
    lemma_name_is_its_own(Field::Completed);
    lemma_name_is_its_own(Field::Indent);
    lemma_name_is_its_own(Field::Url);
    lemma_name_is_its_own(Field::CommentCount);
    lemma_name_is_its_own(Field::Due);
    lemma_member_absent(members, Field::Id.name());
    lemma_member_absent(members, Field::Completed.name());
    lemma_member_absent(members, Field::Indent.name());
    lemma_member_absent(members, Field::Url.name());
    lemma_member_absent(members, Field::CommentCount.name());
    lemma_member_absent(members, Field::Due.name());
}

/// A task that has a due time is sent with `due_datetime` and with no other
/// due key, whether or not it has a due day as well.
pub proof fn lemma_time_is_sent_alone(task: TaskView, due: DueView, moment: Seq<char>)
    requires
        task.due == Some(due),
        due.datetime == Some(moment),
    ensures
        entry(task_members(task), Field::DueDatetime) == Some(JsonView::Text(moment)),
        entry(task_members(task), Field::DueDate) is None,
        entry(task_members(task), Field::DueString) is None,
        entry(task_members(task), Field::DueLang) is None,
        task_members(task).len() == 6,
{
    let members = task_members(task);
    lemma_name_is_its_own(Field::DueDatetime);
    lemma_name_is_its_own(Field::DueDate);
    lemma_name_is_its_own(Field::DueString);
    lemma_name_is_its_own(Field::DueLang);
    lemma_member_found(members, Field::DueDatetime.name(), 5);
    lemma_member_absent(members, Field::DueDate.name());
    lemma_member_absent(members, Field::DueString.name());
    lemma_member_absent(members, Field::DueLang.name());
}

/// A task that has a due day and no due time is sent with `due_date` and with
/// no other due key.
pub proof fn lemma_day_is_sent_alone(task: TaskView, due: DueView, day: Seq<char>)
    requires
        task.due == Some(due),
        due.datetime is None,
        due.date == Some(day),
    ensures
        entry(task_members(task), Field::DueDate) == Some(JsonView::Text(day)),
        entry(task_members(task), Field::DueDatetime) is None,
        entry(task_members(task), Field::DueString) is None,
        entry(task_members(task), Field::DueLang) is None,
        task_members(task).len() == 6,
{
    let members = task_members(task);
    lemma_name_is_its_own(Field::DueDatetime);
    lemma_name_is_its_own(Field::DueDate);
    lemma_name_is_its_own(Field::DueString);
    lemma_name_is_its_own(Field::DueLang);
    lemma_member_found(members, Field::DueDate.name(), 5);
    lemma_member_absent(members, Field::DueDatetime.name());
    lemma_member_absent(members, Field::DueString.name());
    lemma_member_absent(members, Field::DueLang.name());
}

/// A task whose due date is a description only is sent with `due_string` and
/// with `due_lang`, which is "en", and with no other due key.
pub proof fn lemma_description_is_sent_with_language(task: TaskView, due: DueView)
    requires
        task.due == Some(due),
        due.datetime is None,
        due.date is None,
    ensures
        entry(task_members(task), Field::DueString) == Some(JsonView::Text(due.string)),
        entry(task_members(task), Field::DueLang) == Some(JsonView::Text(due_language())),
        entry(task_members(task), Field::DueDatetime) is None,
        entry(task_members(task), Field::DueDate) is None,
        task_members(task).len() == 7,
{
    let members = task_members(task);
    lemma_name_is_its_own(Field::DueDatetime);
    lemma_name_is_its_own(Field::DueDate);
    lemma_name_is_its_own(Field::DueString);
    lemma_name_is_its_own(Field::DueLang);
    lemma_member_found(members, Field::DueString.name(), 5);
    lemma_member_found(members, Field::DueLang.name(), 6);
    lemma_member_absent(members, Field::DueDatetime.name());
    lemma_member_absent(members, Field::DueDate.name());
}

/// A task without a due date is sent with no due key at all.
pub proof fn lemma_no_due_is_sent_as_nothing(task: TaskView)
    requires
        task.due is None,
    ensures
        entry(task_members(task), Field::DueDatetime) is None,
        entry(task_members(task), Field::DueDate) is None,
        entry(task_members(task), Field::DueString) is None,
        entry(task_members(task), Field::DueLang) is None,
        task_members(task).len() == 5,
{
    let members = task_members(task);
    lemma_name_is_its_own(Field::DueDatetime);
    lemma_name_is_its_own(Field::DueDate);
    lemma_name_is_its_own(Field::DueString);
    lemma_name_is_its_own(Field::DueLang);
    lemma_member_absent(members, Field::DueDatetime.name());
    lemma_member_absent(members, Field::DueDate.name());
    lemma_member_absent(members, Field::DueString.name());
    lemma_member_absent(members, Field::DueLang.name());
}

/// Reading the keys of a task back from what was written for it gives what
/// the client sets (the content, the project, the position, the labels and
/// the priority) and nothing for what only the service assigns.
pub proof fn lemma_written_then_read(task: TaskView)
    ensures
        required_text(task_members(task), Field::Content) == Ok::<
            Seq<char>,
            DeserializationError,
        >(task.content),
        optional_number(task_members(task), Field::ProjectId) == Ok::<
            Option<u32>,
            DeserializationError,
        >(task.project_id),
        optional_number(task_members(task), Field::Order) == Ok::<
            Option<u32>,
            DeserializationError,
        >(task.order),
        required_numbers(task_members(task), Field::LabelIds) == Ok::<
            Seq<u32>,
            DeserializationError,
        >(task.label_ids),
        required_priority(task_members(task)) == if is_priority(task.priority) {
            Ok::<u32, DeserializationError>(task.priority)
        } else {
            Err::<u32, DeserializationError>(DeserializationError::Invalid(Field::Priority))
        },
        optional_number(task_members(task), Field::Id) == Ok::<Option<u32>, DeserializationError>(
            None,
        ),
        optional_number(task_members(task), Field::Indent) == Ok::<
            Option<u32>,
            DeserializationError,
        >(None),
        optional_text(task_members(task), Field::Url) == Ok::<
            Option<Seq<char>>,
            DeserializationError,
        >(None),
        optional_number(task_members(task), Field::CommentCount) == Ok::<
            Option<u32>,
            DeserializationError,
        >(None),
        optional_due(task_members(task)) == Ok::<Option<DueView>, DeserializationError>(None),
{
    let members = task_members(task);
    lemma_written_keys(task);
    lemma_name_is_its_own(Field::Content);
    lemma_name_is_its_own(Field::ProjectId);
    lemma_name_is_its_own(Field::Order);
    lemma_name_is_its_own(Field::LabelIds);
    lemma_name_is_its_own(Field::Priority);
    lemma_member_found(members, Field::Content.name(), 0);
    lemma_member_found(members, Field::ProjectId.name(), 1);
    lemma_member_found(members, Field::Order.name(), 2);
    lemma_member_found(members, Field::LabelIds.name(), 3);
    lemma_member_found(members, Field::Priority.name(), 4);
    let items = members[3].1->Array_0;
    assert(Seq::new(items.len(), |i: int| small_number(items[i])) =~= task.label_ids);
}

/// What is written for a task cannot be read as a task: `completed`, which a
/// task that is read must have, is never written.
pub proof fn lemma_written_task_is_not_read(task: TaskView)
    ensures
        decode_task(encode_task(task)) == Err::<TaskView, DeserializationError>(
            DeserializationError::Missing(Field::Completed),
        ),
{
    lemma_written_keys(task);
    lemma_written_then_read(task);
}

/// Where a document reads as a task and holds a string under `datetime` in its
/// `due` object, what is written for that task holds the same string under
/// `due_datetime`, and no other due key.
pub proof fn lemma_read_then_written_keeps_time(
    doc: JsonView,
    due: JsonView,
    moment: Seq<char>,
    task: TaskView,
)
    requires
        decode_task(doc) == Ok::<TaskView, DeserializationError>(task),
        doc.get(Field::Due.name()) == Some(due),
        due.get(Field::Datetime.name()) == Some(JsonView::Text(moment)),
    ensures
        encode_task(task).get(Field::DueDatetime.name()) == Some(JsonView::Text(moment)),
        encode_task(task).get(Field::DueDate.name()) is None,
        encode_task(task).get(Field::DueString.name()) is None,
        encode_task(task).get(Field::DueLang.name()) is None,
{
    lemma_time_is_sent_alone(task, task.due->0, moment);
}

/// Where a document reads as a task and its `due` object holds no string under
/// `datetime` but one under `date`, what is written for that task holds the
/// same string under `due_date`, and no other due key.
pub proof fn lemma_read_then_written_keeps_day(
    doc: JsonView,
    due: JsonView,
    day: Seq<char>,
    task: TaskView,
)
    requires
        decode_task(doc) == Ok::<TaskView, DeserializationError>(task),
        doc.get(Field::Due.name()) == Some(due),
        due.get(Field::Datetime.name()) is None || due.get(Field::Datetime.name()) == Some(
            JsonView::Null,
        ),
        due.get(Field::Date.name()) == Some(JsonView::Text(day)),
    ensures
        encode_task(task).get(Field::DueDate.name()) == Some(JsonView::Text(day)),
        encode_task(task).get(Field::DueDatetime.name()) is None,
        encode_task(task).get(Field::DueString.name()) is None,
        encode_task(task).get(Field::DueLang.name()) is None,
{
    lemma_day_is_sent_alone(task, task.due->0, day);
}

/// A task that was read has a priority from 1 to 4.
pub proof fn lemma_read_priority_in_range(doc: JsonView, task: TaskView)
    requires
        decode_task(doc) == Ok::<TaskView, DeserializationError>(task),
    ensures
        is_priority(task.priority),
{
}

/// With the value under `due` replaced by one that reads as the same due
/// date, a document reads as the same task.
proof fn lemma_due_replaced_alike(members: Seq<(Seq<char>, JsonView)>, at: int, value: JsonView)
    requires
        0 <= at < members.len(),
        members[at].0 == Field::Due.name(),
        optional_due(members.update(at, (Field::Due.name(), value))) == optional_due(members),
    ensures
        decode_task(JsonView::Object(members.update(at, (Field::Due.name(), value))))
            == decode_task(JsonView::Object(members)),
{
    let updated = members.update(at, (Field::Due.name(), value));
    lemma_name_is_its_own(Field::Due);
    assert forall|field: Field| field != Field::Due implies entry(updated, field) == entry(
        members,
        field,
    ) by {
        lemma_member_after_update(members, at, value, field.name());
    }
}

/// The order of the members of a task's `due` object does not matter either:
/// with that object replaced by another that has the same members, where no
/// key is repeated, a document reads as it read before.
pub proof fn lemma_reading_ignores_order_in_due(
    members: Seq<(Seq<char>, JsonView)>,
    at: int,
    due: Seq<(Seq<char>, JsonView)>,
    reordered: Seq<(Seq<char>, JsonView)>,
)
    requires
        0 <= at < members.len(),
        members[at] == (Field::Due.name(), JsonView::Object(due)),
        distinct_keys(due),
        forall|m: (Seq<char>, JsonView)| due.contains(m) <==> reordered.contains(m),
    ensures
        decode_task(
            JsonView::Object(members.update(at, (Field::Due.name(), JsonView::Object(reordered)))),
        ) == decode_task(JsonView::Object(members)),
{
    lemma_reading_ignores_order(due, reordered);
    lemma_member_after_update(members, at, JsonView::Object(reordered), Field::Due.name());
    lemma_due_replaced_alike(members, at, JsonView::Object(reordered));
}

/// A key that is not a key of a task is passed over: with such a member put
/// in at whatever place, a document reads as it read without it.
pub proof fn lemma_unknown_key_is_passed_over(
    members: Seq<(Seq<char>, JsonView)>,
    at: int,
    extra: (Seq<char>, JsonView),
)
    requires
        0 <= at <= members.len(),
        !is_task_key(extra.0),
    ensures
        decode_task(JsonView::Object(members.insert(at, extra))) == decode_task(
            JsonView::Object(members),
        ),
{
    lemma_member_passes_over(members, at, extra, Field::Id.name());
    lemma_member_passes_over(members, at, extra, Field::ProjectId.name());
    lemma_member_passes_over(members, at, extra, Field::Content.name());
    lemma_member_passes_over(members, at, extra, Field::Completed.name());
    lemma_member_passes_over(members, at, extra, Field::LabelIds.name());
    lemma_member_passes_over(members, at, extra, Field::Order.name());
    lemma_member_passes_over(members, at, extra, Field::Indent.name());
    lemma_member_passes_over(members, at, extra, Field::Priority.name());
    lemma_member_passes_over(members, at, extra, Field::Due.name());
    lemma_member_passes_over(members, at, extra, Field::Url.name());
    lemma_member_passes_over(members, at, extra, Field::CommentCount.name());
}

/// A key that is not a key of a due date is passed over as well, such as the
/// flag that tells whether the task recurs.
pub proof fn lemma_unknown_due_key_is_passed_over(
    members: Seq<(Seq<char>, JsonView)>,
    at: int,
    extra: (Seq<char>, JsonView),
)
    requires
        0 <= at <= members.len(),
        !is_due_key(extra.0),
    ensures
        decode_due(JsonView::Object(members.insert(at, extra))) == decode_due(
            JsonView::Object(members),
        ),
{
    lemma_member_passes_over(members, at, extra, Field::String.name());
    lemma_member_passes_over(members, at, extra, Field::Date.name());
    lemma_member_passes_over(members, at, extra, Field::Datetime.name());
    lemma_member_passes_over(members, at, extra, Field::Timezone.name());
}

/// What the client sets comes through reading and writing: where a document
/// reads as a task, what is written for that task holds the document's own
/// content, labels and priority, and its project and position where the
/// document had them (`null` where it had not).
pub proof fn lemma_read_then_written_keeps_what_the_client_sets(doc: JsonView, task: TaskView)
    requires
        decode_task(doc) == Ok::<TaskView, DeserializationError>(task),
    ensures
        encode_task(task).get(Field::Content.name()) == doc.get(Field::Content.name()),
        encode_task(task).get(Field::LabelIds.name()) == doc.get(Field::LabelIds.name()),
        encode_task(task).get(Field::Priority.name()) == doc.get(Field::Priority.name()),
        encode_task(task).get(Field::ProjectId.name()) == Some(
            match doc.get(Field::ProjectId.name()) {
                Some(id) => id,
                None => JsonView::Null,
            },
        ),
        encode_task(task).get(Field::Order.name()) == Some(
            match doc.get(Field::Order.name()) {
                Some(position) => position,
                None => JsonView::Null,
            },
        ),
{
    let members = task_members(task);
    lemma_name_is_its_own(Field::Content);
    lemma_name_is_its_own(Field::ProjectId);
    lemma_name_is_its_own(Field::Order);
    lemma_name_is_its_own(Field::LabelIds);
    lemma_name_is_its_own(Field::Priority);
    lemma_member_found(members, Field::Content.name(), 0);
    lemma_member_found(members, Field::ProjectId.name(), 1);
    lemma_member_found(members, Field::Order.name(), 2);
    lemma_member_found(members, Field::LabelIds.name(), 3);
    lemma_member_found(members, Field::Priority.name(), 4);
    let read = doc.get(Field::LabelIds.name())->0->Array_0;
    assert(members[3].1->Array_0 =~= read);
}

/// The order of the members of a document does not matter to what is read
/// from it: an object without a repeated key and another that has the same
/// members read as the same task, the same project and the same due date, or
/// fail alike.
pub proof fn lemma_reading_ignores_order(
    a: Seq<(Seq<char>, JsonView)>,
    b: Seq<(Seq<char>, JsonView)>,
)
    requires
        distinct_keys(a),
        forall|m: (Seq<char>, JsonView)| a.contains(m) <==> b.contains(m),
    ensures
        decode_task(JsonView::Object(a)) == decode_task(JsonView::Object(b)),
        decode_project(JsonView::Object(a)) == decode_project(JsonView::Object(b)),
        decode_due(JsonView::Object(a)) == decode_due(JsonView::Object(b)),
{
    assert forall|field: Field| entry(a, field) == entry(b, field) by {
        lemma_member_ignores_order(a, b, field.name());
    }
}

} // verus!
