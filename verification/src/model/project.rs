//! The project aggregate: a diagram and its conversation under one identity.
use vstd::prelude::*;
use crate::model::chat::ChatLog;
use crate::model::diagram::Diagram;

verus! {

/// `uuid::Uuid`, an identifier of 128 bits. It is carried and never looked into.
#[verifier::external_type_specification]
#[verifier::external_body]
pub struct ExUuid(uuid::Uuid);

/// `chrono::NaiveDateTime`, a date and time without a zone; here always in
/// UTC. It is carried and never looked into.
#[verifier::external_type_specification]
#[verifier::external_body]
pub struct ExNaiveDateTime(chrono::NaiveDateTime);

/// `Clone` for `uuid::Uuid`, a `Copy` type: the copy is the same identifier.
pub assume_specification[ <uuid::Uuid as Clone>::clone ](id: &uuid::Uuid) -> (copy: uuid::Uuid)
    ensures
        copy == *id,
;

/// `Clone` for `chrono::NaiveDateTime`, a `Copy` type: the copy is the same moment.
pub assume_specification[ <chrono::NaiveDateTime as Clone>::clone ](at: &chrono::NaiveDateTime) -> (copy: chrono::NaiveDateTime)
    ensures
        copy == *at,
;

/// The text of an identifier: 32 lower-case hexadecimal digits in five
/// groups, with hyphens between them.
pub uninterp spec fn uuid_text(id: uuid::Uuid) -> Seq<char>;

/// `ToString` for `uuid::Uuid`, which writes the hyphenated lower-case form.
#[verifier::external_body]
fn hyphenated(id: &uuid::Uuid) -> (text: String)
    ensures
        text@ == uuid_text(*id),
{
    id.to_string()
}

/// The 128 bits of an identifier, as `uuid::Uuid::as_u128` gives them: the
/// first byte of the identifier is the highest. The version stands in the
/// four bits from bit 76 on, the variant in the bits from bit 62 on, counted
/// from the lowest.
pub uninterp spec fn uuid_bits(id: uuid::Uuid) -> u128;

/// `chrono::Utc::now`, as a date and time in UTC: the present moment by the
/// system clock, of which nothing is known beforehand. (The outside code
/// takes the clock to stand after the Unix epoch.)
#[verifier::external_body]
fn now() -> chrono::NaiveDateTime {
    chrono::Utc::now().naive_utc()
}

/// The identity of a project.
#[derive(Debug, Clone, PartialEq)]
pub struct ProjectId(pub uuid::Uuid);

impl ProjectId {
    /// A fresh identity, drawn at random: an identifier of version 4.
    pub fn new() -> (id: ProjectId)
        ensures
            spec_is_random_form(uuid_bits(id.0)),
    {
        ProjectId(random_uuid())
    }

    /// The identity as text, in the form in which it is sent to a client.
    pub fn to_text(&self) -> (text: String)
        ensures
            text@ == uuid_text(self.0),
    {
        hyphenated(&self.0)
    }
}

/// Whether 128 bits have the form of a random identifier: the version is 4
/// and the variant is that of RFC 9562. The other 122 bits are free.
pub open spec fn spec_is_random_form(bits: u128) -> bool {
    bits & 0x0000_0000_0000_F000_C000_0000_0000_0000u128
        == 0x0000_0000_0000_4000_8000_0000_0000_0000u128
}

/// `uuid::Uuid::new_v4`: a random identifier. Which one is not known
/// beforehand; every one has the version 4 and the variant of RFC 9562,
/// since the outside code sets those six bits and draws the rest.
#[verifier::external_body]
fn random_uuid() -> (id: uuid::Uuid)
    ensures
        spec_is_random_form(uuid_bits(id)),
{
    uuid::Uuid::new_v4()
}

/// A saved piece of work: what was drawn, what was said, and when it last changed.
#[derive(Debug, Clone)]
pub struct Project {
    pub id: ProjectId,
    pub title: String,
    pub scenario_id: String,
    /// The moment of the last change, in UTC.
    pub last_modified: chrono::NaiveDateTime,
    pub diagram: Diagram,
    pub chat_history: Vec<ChatLog>,
    pub evaluation: Option<serde_json::Value>,
}

impl Project {
    /// Assembles a project from its parts, as they were stored.
    pub fn restore(
        id: ProjectId,
        title: String,
        scenario_id: String,
        last_modified: chrono::NaiveDateTime,
        diagram: Option<Diagram>,
        chat_history: Option<Vec<ChatLog>>,
        evaluation: Option<serde_json::Value>,
    ) -> (project: Project)
        ensures
            project.id == id,
            project.title == title,
            project.scenario_id == scenario_id,
            project.last_modified == last_modified,
            project.evaluation == evaluation,
            match diagram {
                Some(d) => project.diagram == d,
                None => project.diagram.spec_is_blank(),
            },
            match chat_history {
                Some(turns) => project.chat_history == turns,
                None => project.chat_history@.len() == 0,
            },
    {
        let diagram = match diagram {
            Some(d) => d,
            None => Diagram::blank(),
        };
        let chat_history = match chat_history {
            Some(turns) => turns,
            None => Vec::new(),
        };
        Project { id, title, scenario_id, last_modified, diagram, chat_history, evaluation }
    }

    /// A project that was modified just now and has not been evaluated.
    pub fn new(
        id: ProjectId,
        title: String,
        scenario_id: String,
        diagram: Diagram,
        chat_history: Vec<ChatLog>,
    ) -> (project: Project)
        ensures
            project.id == id,
            project.title == title,
            project.scenario_id == scenario_id,
            project.diagram == diagram,
            project.chat_history == chat_history,
            project.evaluation is None,
    {
        Project {
            id,
            title,
            scenario_id,
            last_modified: now(),
            diagram,
            chat_history,
            evaluation: None,
        }
    }

    /// The project after its title was changed to `new_title` at the moment
    /// `at`; an empty title changes nothing.
    pub open spec fn spec_retitled(self, new_title: String, at: chrono::NaiveDateTime) -> Project {
        if new_title@.len() == 0 {
            self
        } else {
            Project { title: new_title, last_modified: at, ..self }
        }
    }

    /// Gives the project a new title and records `at` as the moment of the
    /// change. An empty title is ignored, and the project stays as it is.
    pub fn change_title_at(&mut self, new_title: String, at: chrono::NaiveDateTime)
        ensures
            *final(self) == old(self).spec_retitled(new_title, at),
    {
        if !new_title.as_str().is_empty() {
            self.title = new_title;
            self.last_modified = at;
        }
    }

    /// Gives the project a new title and records the present moment as that
    /// of the change. An empty title is ignored, and the project stays as it is.
    pub fn change_title(&mut self, new_title: String)
        ensures
            exists|at: chrono::NaiveDateTime|
                *final(self) == old(self).spec_retitled(new_title, at),
    {
        if !new_title.as_str().is_empty() {
            let at = now();
            self.change_title_at(new_title, at);
        } else {
            proof {
                let ghost at = old(self).last_modified;
                assert(*self == old(self).spec_retitled(new_title, at));
            }
        }
    }
}

} // verus!
