//! A project that tasks are grouped into.

use vstd::prelude::*;
use vstd::string::StringExecFns;
use crate::error::{DeserializationError, Field};
use crate::json::{lemma_view_object, members_view, parsed, rendered, Json, JsonView};
use crate::wire::{
    earlier, fault, optional_number, optional_number_value, read_optional_number,
    read_required_text, required_text, result_view, write_member, write_optional_number,
};

verus! {

/// A project.
#[derive(Debug)]
pub struct Project {
    id: Option<u32>,
    name: String,
    order: Option<u32>,
    indent: Option<u32>,
    comment_count: Option<u32>,
}

/// What a [`Project`] holds.
pub struct ProjectView {
    /// The identifier that the service gave, absent before the project is stored.
    pub id: Option<u32>,
    /// The project's name.
    pub name: Seq<char>,
    /// The position in the list of projects.
    pub order: Option<u32>,
    /// The depth of nesting.
    pub indent: Option<u32>,
    /// How many comments the project has.
    pub comment_count: Option<u32>,
}

impl View for Project {
    type V = ProjectView;

    closed spec fn view(&self) -> ProjectView {
        ProjectView {
            id: self.id,
            name: self.name@,
            order: self.order,
            indent: self.indent,
            comment_count: self.comment_count,
        }
    }
}

impl Project {
    /// A project that is not stored yet: it has a name and nothing of what the
    /// service assigns.
    pub fn create(name: &str) -> (project: Project)
        ensures
            project@ == (ProjectView {
                id: None,
                name: name@,
                order: None,
                indent: None,
                comment_count: None,
            }),
    {
        Project { id: None, name: String::from_str(name), order: None, indent: None, comment_count: None }
    }

    /// The project's name.
    pub fn name(&self) -> (r: &str)
        ensures
            r@ == self@.name,
    {
        self.name.as_str()
    }

    /// The identifier that the service gave.
    pub fn id(&self) -> (r: &Option<u32>)
        ensures
            *r == self@.id,
    {
        &self.id
    }

    /// The position in the list of projects.
    pub fn order(&self) -> (r: &Option<u32>)
        ensures
            *r == self@.order,
    {
        &self.order
    }

    /// The depth of nesting.
    pub fn indent(&self) -> (r: &Option<u32>)
        ensures
            *r == self@.indent,
    {
        &self.indent
    }

    /// How many comments the project has.
    pub fn comment_count(&self) -> (r: &Option<u32>)
        ensures
            *r == self@.comment_count,
    {
        &self.comment_count
    }
}

/// The project that the members of an object stand for. `name` must be
/// there; `id`, `order`, `indent` and `comment_count` may be absent; any other
/// key is passed over. Of several failures the one on the earliest key, in the
/// order `id`, `name`, `order`, `indent`, `comment_count`, is reported.
pub open spec fn decode_project_members(members: Seq<(Seq<char>, JsonView)>) -> Result<
    ProjectView,
    DeserializationError,
> {
    let id = optional_number(members, Field::Id);
    let name = required_text(members, Field::Name);
    let order = optional_number(members, Field::Order);
    let indent = optional_number(members, Field::Indent);
    let comment_count = optional_number(members, Field::CommentCount);
    match earlier(
        fault(id),
        earlier(fault(name), earlier(fault(order), earlier(fault(indent), fault(comment_count)))),
    ) {
        Some(e) => Err(e),
        None => Ok(
            ProjectView {
                id: id->Ok_0,
                name: name->Ok_0,
                order: order->Ok_0,
                indent: indent->Ok_0,
                comment_count: comment_count->Ok_0,
            },
        ),
    }
}

/// The project that a document of the service stands for.
pub open spec fn decode_project(doc: JsonView) -> Result<ProjectView, DeserializationError> {
    match doc {
        JsonView::Object(members) => decode_project_members(members),
        _ => Err(DeserializationError::NotAnObject),
    }
}

/// The project that a JSON text of the service stands for.
pub open spec fn decode_project_text(text: Seq<char>) -> Result<ProjectView, DeserializationError> {
    match parsed(text) {
        Some(doc) => decode_project(doc),
        None => Err(DeserializationError::Syntax),
    }
}

/// The document that is written for a project: every field under its key, in
/// the order `id`, `name`, `order`, `indent`, `comment_count`, with `null` for
/// a number that is absent.
pub open spec fn encode_project(project: ProjectView) -> JsonView {
    JsonView::Object(
        seq![
            (Field::Id.name(), optional_number_value(project.id)),
            (Field::Name.name(), JsonView::Text(project.name)),
            (Field::Order.name(), optional_number_value(project.order)),
            (Field::Indent.name(), optional_number_value(project.indent)),
            (Field::CommentCount.name(), optional_number_value(project.comment_count)),
        ],
    )
}

impl Project {
    /// Reads a project from a document of the service.
    pub fn deserialize(doc: &Json) -> (r: Result<Project, DeserializationError>)
        ensures
            result_view(r) == decode_project(doc@),
    {
        match doc {
            Json::Object(members) => {
                proof {
                    lemma_view_object(*members);
                }
                let id = match read_optional_number(members, Field::Id) {
                    Ok(n) => n,
                    Err(e) => { return Err(e); },
                };
                let name = match read_required_text(members, Field::Name) {
                    Ok(text) => text,
                    Err(e) => { return Err(e); },
                };
                let order = match read_optional_number(members, Field::Order) {
                    Ok(n) => n,
                    Err(e) => { return Err(e); },
                };
                let indent = match read_optional_number(members, Field::Indent) {
                    Ok(n) => n,
                    Err(e) => { return Err(e); },
                };
                let comment_count = match read_optional_number(members, Field::CommentCount) {
                    Ok(n) => n,
                    Err(e) => { return Err(e); },
                };
                Ok(Project { id, name, order, indent, comment_count })
            },
            _ => Err(DeserializationError::NotAnObject),
        }
    }

    /// Reads a project from a JSON text of the service.
    pub fn from_json(text: &str) -> (r: Result<Project, DeserializationError>)
        ensures
            result_view(r) == decode_project_text(text@),
    {
        match Json::parse(text) {
            Ok(doc) => Project::deserialize(&doc),
            Err(e) => Err(e),
        }
    }

    /// Builds the document that is written for the project.
    pub fn serialize(&self) -> (doc: Json)
        ensures
            doc@ == encode_project(self@),
    {
        let mut members: Vec<(String, Json)> = Vec::new();
        members.push(write_member(Field::Id, write_optional_number(self.id)));
        members.push(write_member(Field::Name, Json::Text(self.name.clone())));
        members.push(write_member(Field::Order, write_optional_number(self.order)));
        members.push(write_member(Field::Indent, write_optional_number(self.indent)));
        members.push(write_member(Field::CommentCount, write_optional_number(self.comment_count)));
        proof {
            lemma_view_object(members);
            assert(members_view(members@) =~= encode_project(self@)->Object_0);
        }
        Json::Object(members)
    }

    /// Prints the project as compact JSON text.
    pub fn to_json(&self) -> (text: String)
        ensures
            text@ == rendered(encode_project(self@)),
    {
        self.serialize().render()
    }
}

} // verus!
