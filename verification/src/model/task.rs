//! A task, when it is due, and what of it is sent to the service.

use vstd::prelude::*;
use vstd::string::StringExecFns;
use crate::error::{DeserializationError, Field, ValidationError};
use crate::json::{find, lemma_view_object, members_view, parsed, rendered, Json, JsonView};
use crate::wire::{
    copy_text, earlier, entry, fault, number_value, numbers_value, optional_number,
    optional_number_value, optional_text, read_optional_number, read_optional_text,
    read_required_flag, read_required_number, read_required_numbers, read_required_text,
    required_flag, required_number, required_numbers, required_text, result_view, text_view,
    write_member, write_numbers, write_optional_number,
};

verus! {

/// When a task is due.
///
/// `string` is always there: what a person wrote, or a mirror of the date or
/// the time that was set last. Of `date` and `datetime` the setters leave at
/// most one.
#[derive(Debug)]
pub struct Due {
    string: String,
    date: Option<String>,
    datetime: Option<String>,
    timezone: Option<String>,
}

/// What a [`Due`] holds.
pub struct DueView {
    /// The description in free text.
    pub string: Seq<char>,
    /// The day, as `YYYY-MM-DD`, where the task is due on a whole day.
    pub date: Option<Seq<char>>,
    /// The moment, as an RFC 3339 time in UTC, where the task is due at an exact time.
    pub datetime: Option<Seq<char>>,
    /// The time zone of the person, for information.
    pub timezone: Option<Seq<char>>,
}

impl View for Due {
    type V = DueView;

    closed spec fn view(&self) -> DueView {
        DueView {
            string: self.string@,
            date: text_view(self.date),
            datetime: text_view(self.datetime),
            timezone: text_view(self.timezone),
        }
    }
}

impl Clone for Due {
    fn clone(&self) -> (r: Due)
        ensures
            r@ == self@,
    {
        Due {
            string: self.string.clone(),
            date: copy_text(&self.date),
            datetime: copy_text(&self.datetime),
            timezone: copy_text(&self.timezone),
        }
    }
}

/// The due date that may stand in a task.
pub open spec fn due_view(due: Option<Due>) -> Option<DueView> {
    match due {
        Some(d) => Some(d@),
        None => None,
    }
}

impl Due {
    /// A due date that a person described in free text, such as "tomorrow at
    /// noon". Neither a day nor a time is set.
    pub fn create(string: &str) -> (due: Due)
        ensures
            due@ == (DueView { string: string@, date: None, datetime: None, timezone: None }),
    {
        Due { string: String::from_str(string), date: None, datetime: None, timezone: None }
    }

    /// Replaces the description and forgets the day, the time and the zone.
    pub fn set_string(&mut self, string: &str)
        ensures
            final(self)@ == (DueView { string: string@, date: None, datetime: None, timezone: None }),
    {
        self.string = String::from_str(string);
        self.date = None;
        self.datetime = None;
        self.timezone = None;
    }

    /// Sets the day on which the task is due, mirrors it into the description
    /// and forgets the time and the zone.
    pub fn set_date(&mut self, date: &str)
        ensures
            final(self)@ == (DueView {
                string: date@,
                date: Some(date@),
                datetime: None,
                timezone: None,
            }),
    {
        self.string = String::from_str(date);
        self.date = Some(String::from_str(date));
        self.datetime = None;
        self.timezone = None;
    }

    /// Sets the moment at which the task is due, mirrors it into the
    /// description and forgets the day and the zone.
    pub fn set_datetime(&mut self, datetime: &str)
        ensures
            final(self)@ == (DueView {
                string: datetime@,
                date: None,
                datetime: Some(datetime@),
                timezone: None,
            }),
    {
        self.string = String::from_str(datetime);
        self.date = None;
        self.datetime = Some(String::from_str(datetime));
        self.timezone = None;
    }

    /// The description.
    pub fn string(&self) -> (r: &str)
        ensures
            r@ == self@.string,
    {
        self.string.as_str()
    }

    /// The day, where one is set.
    pub fn date(&self) -> (r: Option<String>)
        ensures
            text_view(r) == self@.date,
    {
        copy_text(&self.date)
    }

    /// The moment, where one is set.
    pub fn datetime(&self) -> (r: Option<String>)
        ensures
            text_view(r) == self@.datetime,
    {
        copy_text(&self.datetime)
    }

    /// The time zone, where the service gave one.
    pub fn timezone(&self) -> (r: Option<String>)
        ensures
            text_view(r) == self@.timezone,
    {
        copy_text(&self.timezone)
    }
}

/// Whether a name is one of the keys that are read for a due date.
pub open spec fn is_due_key(name: Seq<char>) -> bool {
    ||| name == Field::String.name()
    ||| name == Field::Date.name()
    ||| name == Field::Datetime.name()
    ||| name == Field::Timezone.name()
}

/// The due date that the members of a `due` object stand for. `string` must be
/// there; `date`, `datetime` and `timezone` may be absent; any other key is
/// passed over. Of several failures the one on the earliest of these four keys
/// is reported.
pub open spec fn decode_due_members(members: Seq<(Seq<char>, JsonView)>) -> Result<
    DueView,
    DeserializationError,
> {
    let string = required_text(members, Field::String);
    let date = optional_text(members, Field::Date);
    let datetime = optional_text(members, Field::Datetime);
    let timezone = optional_text(members, Field::Timezone);
    match earlier(fault(string), earlier(fault(date), earlier(fault(datetime), fault(timezone)))) {
        Some(e) => Err(e),
        None => Ok(
            DueView {
                string: string->Ok_0,
                date: date->Ok_0,
                datetime: datetime->Ok_0,
                timezone: timezone->Ok_0,
            },
        ),
    }
}

/// The due date that a document stands for.
pub open spec fn decode_due(doc: JsonView) -> Result<DueView, DeserializationError> {
    match doc {
        JsonView::Object(members) => decode_due_members(members),
        _ => Err(DeserializationError::NotAnObject),
    }
}

/// The due date that a JSON text stands for.
pub open spec fn decode_due_text(text: Seq<char>) -> Result<DueView, DeserializationError> {
    match parsed(text) {
        Some(doc) => decode_due(doc),
        None => Err(DeserializationError::Syntax),
    }
}

impl Due {
    /// Reads a due date from the members of a `due` object.
    pub fn from_members(members: &Vec<(String, Json)>) -> (r: Result<Due, DeserializationError>)
        ensures
            result_view(r) == decode_due_members(members_view(members@)),
    {
        let string = match read_required_text(members, Field::String) {
            Ok(text) => text,
            Err(e) => { return Err(e); },
        };
        let date = match read_optional_text(members, Field::Date) {
            Ok(text) => text,
            Err(e) => { return Err(e); },
        };
        let datetime = match read_optional_text(members, Field::Datetime) {
            Ok(text) => text,
            Err(e) => { return Err(e); },
        };
        let timezone = match read_optional_text(members, Field::Timezone) {
            Ok(text) => text,
            Err(e) => { return Err(e); },
        };
        Ok(Due { string, date, datetime, timezone })
    }

    /// Reads a due date from a document of the service.
    pub fn deserialize(doc: &Json) -> (r: Result<Due, DeserializationError>)
        ensures
            result_view(r) == decode_due(doc@),
    {
        match doc {
            Json::Object(members) => {
                proof {
                    lemma_view_object(*members);
                }
                Due::from_members(members)
            },
            _ => Err(DeserializationError::NotAnObject),
        }
    }

    /// Reads a due date from a JSON text of the service.
    pub fn from_json(text: &str) -> (r: Result<Due, DeserializationError>)
        ensures
            result_view(r) == decode_due_text(text@),
    {
        match Json::parse(text) {
            Ok(doc) => Due::deserialize(&doc),
            Err(e) => Err(e),
        }
    }
}

/// The one form of a due date that is sent to the service.
#[derive(Debug)]
pub enum DueForm {
    /// The task has no due date.
    NoDue,
    /// Only a description is known.
    StringOnly(String),
    /// A day is set, and no time.
    DateOnly(String),
    /// A time is set.
    DateTime(String),
}

/// What a [`DueForm`] holds.
pub enum DueFormView {
    NoDue,
    StringOnly(Seq<char>),
    DateOnly(Seq<char>),
    DateTime(Seq<char>),
}

impl View for DueForm {
    type V = DueFormView;

    open spec fn view(&self) -> DueFormView {
        match self {
            DueForm::NoDue => DueFormView::NoDue,
            DueForm::StringOnly(text) => DueFormView::StringOnly(text@),
            DueForm::DateOnly(day) => DueFormView::DateOnly(day@),
            DueForm::DateTime(moment) => DueFormView::DateTime(moment@),
        }
    }
}

/// The form in which a due date is sent: the time where one is set, else the
/// day where one is set, else the description.
pub open spec fn due_form(due: Option<DueView>) -> DueFormView {
    match due {
        None => DueFormView::NoDue,
        Some(d) => match d.datetime {
            Some(moment) => DueFormView::DateTime(moment),
            None => match d.date {
                Some(day) => DueFormView::DateOnly(day),
                None => DueFormView::StringOnly(d.string),
            },
        },
    }
}

/// The language in which a description is sent.
pub open spec fn due_language() -> Seq<char> {
    "en"@
}

/// The members that are written for a due date: one for a time, one for a
/// day, two for a description, none where there is no due date.
pub open spec fn due_members(form: DueFormView) -> Seq<(Seq<char>, JsonView)> {
    match form {
        DueFormView::NoDue => seq![],
        DueFormView::StringOnly(text) => seq![
            (Field::DueString.name(), JsonView::Text(text)),
            (Field::DueLang.name(), JsonView::Text(due_language())),
        ],
        DueFormView::DateOnly(day) => seq![(Field::DueDate.name(), JsonView::Text(day))],
        DueFormView::DateTime(moment) => seq![(Field::DueDatetime.name(), JsonView::Text(moment))],
    }
}

impl DueForm {
    /// Picks the form in which a due date is sent.
    pub fn of(due: &Option<Due>) -> (form: DueForm)
        ensures
            form@ == due_form(due_view(*due)),
    {
        match due {
            None => DueForm::NoDue,
            Some(d) => match &d.datetime {
                Some(moment) => DueForm::DateTime(moment.clone()),
                None => match &d.date {
                    Some(day) => DueForm::DateOnly(day.clone()),
                    None => DueForm::StringOnly(d.string.clone()),
                },
            },
        }
    }

    /// Puts the members that are written for this form at the end of an object.
    pub fn write(self, members: &mut Vec<(String, Json)>)
        ensures
            members_view(final(members)@) == members_view(old(members)@) + due_members(self@),
    {
        match self {
            DueForm::NoDue => {},
            DueForm::StringOnly(text) => {
                members.push(write_member(Field::DueString, Json::Text(text)));
                members.push(write_member(Field::DueLang, Json::Text(String::from_str("en"))));
            },
            DueForm::DateOnly(day) => {
                members.push(write_member(Field::DueDate, Json::Text(day)));
            },
            DueForm::DateTime(moment) => {
                members.push(write_member(Field::DueDatetime, Json::Text(moment)));
            },
        }
    }
}

/// How urgent a task is. The service numbers the four levels from 1 to 4.
#[derive(Debug, Clone, Copy, PartialEq, Eq, Structural)]
enum Priority {
    Normal,
    Medium,
    High,
    Urgent,
}

impl Priority {
    /// The level's number.
    spec fn number(self) -> u32 {
        match self {
            Priority::Normal => 1,
            Priority::Medium => 2,
            Priority::High => 3,
            Priority::Urgent => 4,
        }
    }

    /// The level's number.
    fn to_number(self) -> (n: u32)
        ensures
            n == self.number(),
    {
        match self {
            Priority::Normal => 1,
            Priority::Medium => 2,
            Priority::High => 3,
            Priority::Urgent => 4,
        }
    }

    /// The level with a given number, where there is one.
    fn from_number(n: u32) -> (r: Option<Priority>)
        ensures
            r is Some <==> is_priority(n),
            r matches Some(p) ==> p.number() == n,
    {
        if n == 1 {
            Some(Priority::Normal)
        } else if n == 2 {
            Some(Priority::Medium)
        } else if n == 3 {
            Some(Priority::High)
        } else if n == 4 {
            Some(Priority::Urgent)
        } else {
            None
        }
    }
}

/// A task.
///
/// The priority is always one of 1 (normal), 2, 3 and 4 (urgent): the task
/// holds it as one of four levels.
#[derive(Debug)]
pub struct Task {
    id: Option<u32>,
    project_id: Option<u32>,
    content: String,
    completed: bool,
    label_ids: Vec<u32>,
    order: Option<u32>,
    indent: Option<u32>,
    priority: Priority,
    due: Option<Due>,
    url: Option<String>,
    comment_count: Option<u32>,
}

/// What a [`Task`] holds.
pub struct TaskView {
    /// The identifier that the service gave, absent before the task is stored.
    pub id: Option<u32>,
    /// The project that owns the task.
    pub project_id: Option<u32>,
    /// The visible text.
    pub content: Seq<char>,
    /// Whether the task is done.
    pub completed: bool,
    /// The labels, in the order in which they are shown.
    pub label_ids: Seq<u32>,
    /// The position among the sibling tasks.
    pub order: Option<u32>,
    /// The depth of nesting.
    pub indent: Option<u32>,
    /// The priority, from 1 (normal) to 4 (urgent).
    pub priority: u32,
    /// When the task is due, if ever.
    pub due: Option<DueView>,
    /// Where the task can be seen on the web.
    pub url: Option<Seq<char>>,
    /// How many comments the task has.
    pub comment_count: Option<u32>,
}

/// The test that tells the other labels from a given one.
pub open spec fn other_than(label: u32) -> spec_fn(u32) -> bool {
    |id: u32| id != label
}

/// The labels that are left when every occurrence of one label is taken away:
/// the others, in the order in which they stood.
pub open spec fn without(labels: Seq<u32>, label: u32) -> Seq<u32> {
    labels.filter(other_than(label))
}

/// Whether a number is a priority: 1, 2, 3 or 4.
pub open spec fn is_priority(n: u32) -> bool {
    1 <= n <= 4
}

impl View for Task {
    type V = TaskView;

    closed spec fn view(&self) -> TaskView {
        TaskView {
            id: self.id,
            project_id: self.project_id,
            content: self.content@,
            completed: self.completed,
            label_ids: self.label_ids@,
            order: self.order,
            indent: self.indent,
            priority: self.priority.number(),
            due: due_view(self.due),
            url: text_view(self.url),
            comment_count: self.comment_count,
        }
    }
}

impl Task {
    /// Whatever was done to a task, its priority is one of 1, 2, 3 and 4.
    pub proof fn lemma_priority_in_range(self)
        ensures
            is_priority(self@.priority),
    {
    }

    /// A task that is not stored yet: normal priority, not completed, no
    /// labels, no due date, and nothing of what the service assigns.
    pub fn create(content: &str) -> (task: Task)
        ensures
            task@ == (TaskView {
                id: None,
                project_id: None,
                content: content@,
                completed: false,
                label_ids: Seq::empty(),
                order: None,
                indent: None,
                priority: 1,
                due: None,
                url: None,
                comment_count: None,
            }),
    {
        Task {
            id: None,
            project_id: None,
            content: String::from_str(content),
            completed: false,
            label_ids: Vec::new(),
            order: None,
            indent: None,
            priority: Priority::Normal,
            due: None,
            url: None,
            comment_count: None,
        }
    }

    /// Replaces the due date; `None` clears it.
    pub fn set_due(&mut self, due: Option<Due>)
        ensures
            final(self)@ == (TaskView { due: due_view(due), ..old(self)@ }),
    {
        self.due = due;
    }

    /// Sets the priority where it is one of 1, 2, 3 and 4, and refuses any
    /// other number, leaving the task as it was.
    pub fn set_priority(&mut self, priority: u32) -> (r: Result<(), ValidationError>)
        ensures
            is_priority(priority) ==> r == Ok::<(), ValidationError>(()) && final(self)@ == (TaskView {
                priority,
                ..old(self)@
            }),
            !is_priority(priority) ==> r == Err::<(), ValidationError>(
                ValidationError::PriorityOutOfRange(priority),
            ) && final(self)@ == old(self)@,
    {
        match Priority::from_number(priority) {
            Some(level) => {
                self.priority = level;
                Ok(())
            },
            None => Err(ValidationError::PriorityOutOfRange(priority)),
        }
    }

    /// Takes every occurrence of a label off the task; the other labels keep
    /// their order.
    pub fn remove_label_id(&mut self, label_id: u32)
        ensures
            final(self)@ == (TaskView {
                label_ids: without(old(self)@.label_ids, label_id),
                ..old(self)@
            }),
    {
        let mut kept: Vec<u32> = Vec::new();
        let mut i: usize = 0;
        while i < self.label_ids.len()
            invariant
                i <= self.label_ids.len(),
                *self == *old(self),
                kept@ == without(self.label_ids@.take(i as int), label_id),
            decreases self.label_ids.len() - i,
        {
            let id = self.label_ids[i];
            proof {
                let before = self.label_ids@.take(i as int);
                assert(self.label_ids@.take(i + 1) =~= before.push(id));
                assert(before.push(id).drop_last() =~= before);
                reveal(Seq::filter);
            }
            if id != label_id {
                kept.push(id);
            }
            i += 1;
        }
        assert(self.label_ids@.take(i as int) =~= self.label_ids@);
        self.label_ids = kept;
    }

    /// Puts a label at the end of the task's labels. A label may occur twice.
    pub fn add_label_id(&mut self, label_id: u32)
        ensures
            final(self)@ == (TaskView {
                label_ids: old(self)@.label_ids.push(label_id),
                ..old(self)@
            }),
    {
        self.label_ids.push(label_id);
    }

    /// Replaces the visible text.
    pub fn set_content(&mut self, content: &str)
        ensures
            final(self)@ == (TaskView { content: content@, ..old(self)@ }),
    {
        self.content = String::from_str(content);
    }

    /// Marks the task as done or not done.
    pub fn set_completed(&mut self, completed: bool)
        ensures
            final(self)@ == (TaskView { completed, ..old(self)@ }),
    {
        self.completed = completed;
    }

    /// The identifier that the service gave.
    pub fn id(&self) -> (r: &Option<u32>)
        ensures
            *r == self@.id,
    {
        &self.id
    }

    /// The project that owns the task.
    pub fn project_id(&self) -> (r: &Option<u32>)
        ensures
            *r == self@.project_id,
    {
        &self.project_id
    }

    /// The visible text.
    pub fn content(&self) -> (r: &str)
        ensures
            r@ == self@.content,
    {
        self.content.as_str()
    }

    /// Whether the task is done.
    pub fn completed(&self) -> (r: bool)
        ensures
            r == self@.completed,
    {
        self.completed
    }

    /// The labels, in their order.
    pub fn label_ids(&self) -> (r: Vec<u32>)
        ensures
            r@ == self@.label_ids,
    {
        self.label_ids.clone()
    }

    /// The position among the sibling tasks.
    pub fn order(&self) -> (r: &Option<u32>)
        ensures
            *r == self@.order,
    {
        &self.order
    }

    /// The depth of nesting.
    pub fn indent(&self) -> (r: &Option<u32>)
        ensures
            *r == self@.indent,
    {
        &self.indent
    }

    /// The priority: 1, 2, 3 or 4.
    pub fn priority(&self) -> (r: u32)
        ensures
            r == self@.priority,
            is_priority(r),
    {
        self.priority.to_number()
    }

    /// When the task is due, if ever.
    pub fn due(&self) -> (r: Option<Due>)
        ensures
            due_view(r) == self@.due,
    {
        match &self.due {
            Some(due) => Some(due.clone()),
            None => None,
        }
    }

    /// Where the task can be seen on the web.
    pub fn url(&self) -> (r: &Option<String>)
        ensures
            text_view(*r) == self@.url,
    {
        &self.url
    }

    /// How many comments the task has.
    pub fn comment_count(&self) -> (r: &Option<u32>)
        ensures
            *r == self@.comment_count,
    {
        &self.comment_count
    }
}

/// The due date under `due`: none where the key is absent or holds `null`.
pub open spec fn optional_due(members: Seq<(Seq<char>, JsonView)>) -> Result<
    Option<DueView>,
    DeserializationError,
> {
    match entry(members, Field::Due) {
        None => Ok(None),
        Some(JsonView::Null) => Ok(None),
        Some(JsonView::Object(inner)) => match decode_due_members(inner) {
            Ok(due) => Ok(Some(due)),
            Err(e) => Err(e),
        },
        Some(_) => Err(DeserializationError::Invalid(Field::Due)),
    }
}

/// The priority under `priority`: a number that must be there and be one of
/// 1, 2, 3 and 4.
pub open spec fn required_priority(members: Seq<(Seq<char>, JsonView)>) -> Result<
    u32,
    DeserializationError,
> {
    match required_number(members, Field::Priority) {
        Ok(n) => if is_priority(n) {
            Ok(n)
        } else {
            Err(DeserializationError::Invalid(Field::Priority))
        },
        Err(e) => Err(e),
    }
}

/// Whether a name is one of the keys that are read for a task.
pub open spec fn is_task_key(name: Seq<char>) -> bool {
    ||| name == Field::Id.name()
    ||| name == Field::ProjectId.name()
    ||| name == Field::Content.name()
    ||| name == Field::Completed.name()
    ||| name == Field::LabelIds.name()
    ||| name == Field::Order.name()
    ||| name == Field::Indent.name()
    ||| name == Field::Priority.name()
    ||| name == Field::Due.name()
    ||| name == Field::Url.name()
    ||| name == Field::CommentCount.name()
}

/// The first failure among the keys of a task, in the order `id`,
/// `project_id`, `content`, `completed`, `label_ids`, `order`, `indent`,
/// `priority`, `due`, `url`, `comment_count`.
pub open spec fn task_fault(members: Seq<(Seq<char>, JsonView)>) -> Option<DeserializationError> {
    earlier(
        fault(optional_number(members, Field::Id)),
        earlier(
            fault(optional_number(members, Field::ProjectId)),
            earlier(
                fault(required_text(members, Field::Content)),
                earlier(
                    fault(required_flag(members, Field::Completed)),
                    earlier(
                        fault(required_numbers(members, Field::LabelIds)),
                        earlier(
                            fault(optional_number(members, Field::Order)),
                            earlier(
                                fault(optional_number(members, Field::Indent)),
                                earlier(
                                    fault(required_priority(members)),
                                    earlier(
                                        fault(optional_due(members)),
                                        earlier(
                                            fault(optional_text(members, Field::Url)),
                                            fault(optional_number(members, Field::CommentCount)),
                                        ),
                                    ),
                                ),
                            ),
                        ),
                    ),
                ),
            ),
        ),
    )
}

/// The task that the members of an object stand for. `content`, `completed`,
/// `label_ids` and `priority` must be there; the other keys of a task may be
/// absent; any other key is passed over.
pub open spec fn decode_task_members(members: Seq<(Seq<char>, JsonView)>) -> Result<
    TaskView,
    DeserializationError,
> {
    match task_fault(members) {
        Some(e) => Err(e),
        None => Ok(
            TaskView {
                id: optional_number(members, Field::Id)->Ok_0,
                project_id: optional_number(members, Field::ProjectId)->Ok_0,
                content: required_text(members, Field::Content)->Ok_0,
                completed: required_flag(members, Field::Completed)->Ok_0,
                label_ids: required_numbers(members, Field::LabelIds)->Ok_0,
                order: optional_number(members, Field::Order)->Ok_0,
                indent: optional_number(members, Field::Indent)->Ok_0,
                priority: required_priority(members)->Ok_0,
                due: optional_due(members)->Ok_0,
                url: optional_text(members, Field::Url)->Ok_0,
                comment_count: optional_number(members, Field::CommentCount)->Ok_0,
            },
        ),
    }
}

/// The task that a document of the service stands for.
pub open spec fn decode_task(doc: JsonView) -> Result<TaskView, DeserializationError> {
    match doc {
        JsonView::Object(members) => decode_task_members(members),
        _ => Err(DeserializationError::NotAnObject),
    }
}

/// The task that a JSON text of the service stands for.
pub open spec fn decode_task_text(text: Seq<char>) -> Result<TaskView, DeserializationError> {
    match parsed(text) {
        Some(doc) => decode_task(doc),
        None => Err(DeserializationError::Syntax),
    }
}

/// The members that are written for a task: `content`, `project_id`, `order`,
/// `label_ids` and `priority`, in this order, then those of its due date.
/// Nothing that only the service assigns is among them.
pub open spec fn task_members(task: TaskView) -> Seq<(Seq<char>, JsonView)> {
    seq![
        (Field::Content.name(), JsonView::Text(task.content)),
        (Field::ProjectId.name(), optional_number_value(task.project_id)),
        (Field::Order.name(), optional_number_value(task.order)),
        (Field::LabelIds.name(), numbers_value(task.label_ids)),
        (Field::Priority.name(), number_value(task.priority)),
    ] + due_members(due_form(task.due))
}

/// The document that is sent to the service for a task.
pub open spec fn encode_task(task: TaskView) -> JsonView {
    JsonView::Object(task_members(task))
}

/// The outcome of reading a due date that may be absent, taken by its view.
pub open spec fn optional_due_view(reading: Result<Option<Due>, DeserializationError>) -> Result<
    Option<DueView>,
    DeserializationError,
> {
    match reading {
        Ok(due) => Ok(due_view(due)),
        Err(e) => Err(e),
    }
}

/// Reads the due date under `due`.
pub fn read_optional_due(members: &Vec<(String, Json)>) -> (r: Result<
    Option<Due>,
    DeserializationError,
>)
    ensures
        optional_due_view(r) == optional_due(members_view(members@)),
{
    match find(members, Field::Due.key()) {
        None => Ok(None),
        Some(Json::Null) => Ok(None),
        Some(Json::Object(inner)) => {
            proof {
                lemma_view_object(*inner);
            }
            match Due::from_members(inner) {
                Ok(due) => Ok(Some(due)),
                Err(e) => Err(e),
            }
        },
        Some(_) => Err(DeserializationError::Invalid(Field::Due)),
    }
}

impl Task {
    /// Reads a task from the members of an object.
    pub fn from_members(members: &Vec<(String, Json)>) -> (r: Result<Task, DeserializationError>)
        ensures
            result_view(r) == decode_task_members(members_view(members@)),
    {
        let id = match read_optional_number(members, Field::Id) {
            Ok(n) => n,
            Err(e) => { return Err(e); },
        };
        let project_id = match read_optional_number(members, Field::ProjectId) {
            Ok(n) => n,
            Err(e) => { return Err(e); },
        };
        let content = match read_required_text(members, Field::Content) {
            Ok(text) => text,
            Err(e) => { return Err(e); },
        };
        let completed = match read_required_flag(members, Field::Completed) {
            Ok(flag) => flag,
            Err(e) => { return Err(e); },
        };
        let label_ids = match read_required_numbers(members, Field::LabelIds) {
            Ok(numbers) => numbers,
            Err(e) => { return Err(e); },
        };
        let order = match read_optional_number(members, Field::Order) {
            Ok(n) => n,
            Err(e) => { return Err(e); },
        };
        let indent = match read_optional_number(members, Field::Indent) {
            Ok(n) => n,
            Err(e) => { return Err(e); },
        };
        let priority = match read_required_number(members, Field::Priority) {
            Ok(n) => match Priority::from_number(n) {
                Some(level) => level,
                None => { return Err(DeserializationError::Invalid(Field::Priority)); },
            },
            Err(e) => { return Err(e); },
        };
        let due = match read_optional_due(members) {
            Ok(due) => due,
            Err(e) => { return Err(e); },
        };
        let url = match read_optional_text(members, Field::Url) {
            Ok(text) => text,
            Err(e) => { return Err(e); },
        };
        let comment_count = match read_optional_number(members, Field::CommentCount) {
            Ok(n) => n,
            Err(e) => { return Err(e); },
        };
        Ok(
            Task {
                id,
                project_id,
                content,
                completed,
                label_ids,
                order,
                indent,
                priority,
                due,
                url,
                comment_count,
            },
        )
    }

    /// Reads a task from a document of the service.
    pub fn deserialize(doc: &Json) -> (r: Result<Task, DeserializationError>)
        ensures
            result_view(r) == decode_task(doc@),
    {
        match doc {
            Json::Object(members) => {
                proof {
                    lemma_view_object(*members);
                }
                Task::from_members(members)
            },
            _ => Err(DeserializationError::NotAnObject),
        }
    }

    /// Reads a task from a JSON text of the service.
    pub fn from_json(text: &str) -> (r: Result<Task, DeserializationError>)
        ensures
            result_view(r) == decode_task_text(text@),
    {
        match Json::parse(text) {
            Ok(doc) => Task::deserialize(&doc),
            Err(e) => Err(e),
        }
    }

    /// The form in which the task's due date is sent.
    pub fn due_form(&self) -> (form: DueForm)
        ensures
            form@ == due_form(self@.due),
    {
        DueForm::of(&self.due)
    }

    /// Builds the document that is sent to the service for the task.
    pub fn serialize(&self) -> (doc: Json)
        ensures
            doc@ == encode_task(self@),
    {
        let mut members: Vec<(String, Json)> = Vec::new();
        members.push(write_member(Field::Content, Json::Text(self.content.clone())));
        members.push(write_member(Field::ProjectId, write_optional_number(self.project_id)));
        members.push(write_member(Field::Order, write_optional_number(self.order)));
        members.push(write_member(Field::LabelIds, write_numbers(&self.label_ids)));
        members.push(
            write_member(Field::Priority, Json::Number(self.priority.to_number() as u64)),
        );
        self.due_form().write(&mut members);
        proof {
            lemma_view_object(members);
            assert(members_view(members@) =~= task_members(self@));
        }
        Json::Object(members)
    }

    /// Prints what is sent to the service for the task, as compact JSON text.
    pub fn to_json(&self) -> (text: String)
        ensures
            text@ == rendered(encode_task(self@)),
    {
        self.serialize().render()
    }
}

} // verus!
