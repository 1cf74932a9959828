//! The architecture evaluator: the prompt that a diagram is judged with, and
//! the reading of the model's verdict.
use vstd::prelude::*;
use vstd::string::StringExecFns;
use crate::gateway::UpstreamError;
use crate::injector::{inject_requirements, spec_inject};
use crate::json::{
    empty_object, integer_value, json_parse, json_text, json_view, parse, set_member, spec_member,
    text_value, to_text, Json,
};
use crate::text::{replace_all, spec_replace_all, spec_trim, trim};

verus! {

/// Where the template of the system prompt expects the list of components.
pub const COMPONENTS_PLACEHOLDER: &'static str = "{{AVAILABLE_COMPONENTS}}";

/// The label between the system prompt and the learner's design.
pub const DESIGN_DATA_LABEL: &'static str = "\nUser Design Data:\n";

/// The fence that opens a block of JSON in the model's reply.
pub const JSON_FENCE: &'static str = "```json";

/// The fence that closes a block, or opens one without a language.
pub const PLAIN_FENCE: &'static str = "```";

/// The catalog of architecture components, by category.
#[derive(Debug, Clone)]
pub struct ArchitectureDefs {
    pub categories: Vec<Category>,
}

/// One category of components.
#[derive(Debug, Clone)]
pub struct Category {
    pub items: Vec<Item>,
}

/// One component; only the name of its type matters here.
#[derive(Debug, Clone)]
pub struct Item {
    pub component_type: String,
}

/// The entry of one component in the list: indented, quoted, on a line of its own.
pub open spec fn spec_component_entry(component_type: Seq<char>) -> Seq<char> {
    "    - \""@ + component_type + "\"\n"@
}

/// The entries of the components of one category, in order.
pub open spec fn spec_category_entries(items: Seq<Item>) -> Seq<char>
    decreases items.len(),
{
    if items.len() == 0 {
        Seq::empty()
    } else {
        spec_category_entries(items.drop_last()) + spec_component_entry(items.last().component_type@)
    }
}

/// The entries of all components, category by category.
pub open spec fn spec_component_list(categories: Seq<Category>) -> Seq<char>
    decreases categories.len(),
{
    if categories.len() == 0 {
        Seq::empty()
    } else {
        spec_component_list(categories.drop_last()) + spec_category_entries(
            categories.last().items@,
        )
    }
}

/// The system prompt: the template with the list of components in the place
/// of every placeholder.
pub open spec fn spec_system_prompt(template: Seq<char>, defs: ArchitectureDefs) -> Seq<char> {
    spec_replace_all(template, COMPONENTS_PLACEHOLDER@, spec_component_list(defs.categories@))
}

/// The evaluation prompt: the system prompt, the label, and the payload after
/// injection, printed as JSON.
pub open spec fn spec_evaluation_prompt(system_prompt: Seq<char>, payload: Json) -> Seq<char> {
    system_prompt + DESIGN_DATA_LABEL@ + json_text(spec_inject(payload))
}

/// The model's reply without code fences and without white space around it.
pub open spec fn spec_clean_reply(reply: Seq<char>) -> Seq<char> {
    spec_trim(spec_replace_all(spec_replace_all(reply, JSON_FENCE@, ""@), PLAIN_FENCE@, ""@))
}

/// An envelope of three members: a score of zero, a feedback text and a status.
pub open spec fn spec_envelope(feedback: Seq<char>, status: Seq<char>) -> Json {
    Json::Object(
        Map::empty().insert("score"@, Json::Int(0)).insert("feedback"@, Json::Text(feedback)).insert(
            "status"@,
            Json::Text(status),
        ),
    )
}

/// The answer to a reply that was cleaned and then parsed: the document that
/// was read or, where none was, the cleaned text with the status
/// `partial_success`.
pub open spec fn spec_verdict(clean: Seq<char>, parsed: Option<Json>) -> Json {
    match parsed {
        Some(doc) => doc,
        None => spec_envelope(clean, "partial_success"@),
    }
}

/// The answer to a reply of the model.
pub open spec fn spec_read_verdict(reply: Seq<char>) -> Json {
    spec_verdict(spec_clean_reply(reply), json_parse(spec_clean_reply(reply)))
}

/// The answer to the outcome of an exchange with the model: the verdict read
/// from the reply, or the envelope of an error where there was no reply.
pub open spec fn spec_evaluation_response(outcome: Result<Seq<char>, UpstreamError>) -> Json {
    match outcome {
        Ok(reply) => spec_read_verdict(reply),
        Err(_) => spec_envelope("Error"@, "error"@),
    }
}

/// Writes the entries of the components of one category.
pub fn category_entries(category: &Category) -> (entries: String)
    ensures
        entries@ == spec_category_entries(category.items@),
{
    let mut entries = String::new();
    let mut i: usize = 0;
    while i < category.items.len()
        invariant
            i <= category.items.len(),
            entries@ == spec_category_entries(category.items@.subrange(0, i as int)),
        decreases category.items.len() - i,
    {
        proof {
            assert(category.items@.subrange(0, i as int + 1).drop_last()
                =~= category.items@.subrange(0, i as int));
        }
        entries.append("    - \"");
        entries.append(category.items[i].component_type.as_str());
        entries.append("\"\n");
        proof {
            let name = category.items@[i as int].component_type@;
            let before = spec_category_entries(category.items@.subrange(0, i as int));
            assert(before + "    - \""@ + name + "\"\n"@ =~= before + spec_component_entry(name));
        }
        i = i + 1;
    }
    assert(category.items@.subrange(0, i as int) =~= category.items@);
    entries
}

/// Writes the list of permitted components: one entry for each component of
/// each category, in the order of the catalog.
pub fn component_list(defs: &ArchitectureDefs) -> (list: String)
    ensures
        list@ == spec_component_list(defs.categories@),
{
    let mut list = String::new();
    let mut i: usize = 0;
    while i < defs.categories.len()
        invariant
            i <= defs.categories.len(),
            list@ == spec_component_list(defs.categories@.subrange(0, i as int)),
        decreases defs.categories.len() - i,
    {
        proof {
            assert(defs.categories@.subrange(0, i as int + 1).drop_last()
                =~= defs.categories@.subrange(0, i as int));
        }
        let entries = category_entries(&defs.categories[i]);
        list.append(entries.as_str());
        i = i + 1;
    }
    assert(defs.categories@.subrange(0, i as int) =~= defs.categories@);
    list
}

/// Renders the system prompt from its template and the component catalog.
pub fn build_system_prompt(template: &str, defs: &ArchitectureDefs) -> (prompt: String)
    ensures
        prompt@ == spec_system_prompt(template@, *defs),
{
    let components = component_list(defs);
    proof {
        reveal_strlit("{{AVAILABLE_COMPONENTS}}");
    }
    replace_all(template, COMPONENTS_PLACEHOLDER, components.as_str())
}

/// Builds the prompt that a design is evaluated with. The payload goes into
/// it after injection, so that a custom scenario is judged against the
/// requirements of the catalog.
pub fn build_evaluation_prompt(system_prompt: &str, payload: &serde_json::Value) -> (prompt: String)
    ensures
        prompt@ == spec_evaluation_prompt(system_prompt@, json_view(*payload)),
{
    let injected = inject_requirements(payload);
    let mut prompt = system_prompt.to_string();
    prompt.append(DESIGN_DATA_LABEL);
    prompt.append(to_text(&injected).as_str());
    prompt
}

/// What an evaluator is set up with once and never changes afterwards: the
/// system prompt, rendered from the template and the component catalog.
#[derive(Debug, Clone)]
pub struct Evaluator {
    system_prompt: String,
}

impl Evaluator {
    /// The characters of the system prompt that the evaluator holds.
    pub closed spec fn spec_system_prompt(&self) -> Seq<char> {
        self.system_prompt@
    }

    /// Sets an evaluator up from the template and the component catalog.
    pub fn new(template: &str, defs: &ArchitectureDefs) -> (evaluator: Evaluator)
        ensures
            evaluator.spec_system_prompt() == spec_system_prompt(template@, *defs),
    {
        Evaluator { system_prompt: build_system_prompt(template, defs) }
    }

    /// The system prompt that the evaluator holds.
    pub fn system_prompt(&self) -> (prompt: &str)
        ensures
            prompt@ == self.spec_system_prompt(),
    {
        self.system_prompt.as_str()
    }

    /// Builds the prompt for one payload.
    pub fn prompt_for(&self, payload: &serde_json::Value) -> (prompt: String)
        ensures
            prompt@ == spec_evaluation_prompt(self.spec_system_prompt(), json_view(*payload)),
    {
        build_evaluation_prompt(self.system_prompt.as_str(), payload)
    }
}

/// Strips the code fences from a reply of the model, and the white space
/// around what is left.
pub fn clean_reply(reply: &str) -> (clean: String)
    ensures
        clean@ == spec_clean_reply(reply@),
{
    proof {
        reveal_strlit("```json");
        reveal_strlit("```");
    }
    let unfenced = replace_all(reply, JSON_FENCE, "");
    let bare = replace_all(unfenced.as_str(), PLAIN_FENCE, "");
    trim(bare.as_str()).to_string()
}

/// Makes an envelope with a score of zero.
pub fn envelope(feedback: &str, status: &str) -> (doc: serde_json::Value)
    ensures
        json_view(doc) == spec_envelope(feedback@, status@),
{
    let mut doc = empty_object();
    set_member(&mut doc, "score", integer_value(0));
    set_member(&mut doc, "feedback", text_value(feedback));
    set_member(&mut doc, "status", text_value(status));
    doc
}

/// Gives the answer to a cleaned reply, given what parsing it brought: the
/// document itself, or the envelope that carries the text with the status
/// `partial_success`.
pub fn verdict_from_parse(clean: &str, parsed: Option<serde_json::Value>) -> (doc: serde_json::Value)
    ensures
        json_view(doc) == spec_verdict(
            clean@,
            match parsed {
                Some(v) => Some(json_view(v)),
                None => None,
            },
        ),
{
    match parsed {
        Some(v) => v,
        None => envelope(clean, "partial_success"),
    }
}

/// Reads the verdict from a reply of the model. A reply that is no JSON after
/// cleaning is no failure: its text is handed on as feedback.
pub fn read_verdict(reply: &str) -> (doc: serde_json::Value)
    ensures
        json_view(doc) == spec_read_verdict(reply@),
{
    let clean = clean_reply(reply);
    let parsed = match parse(clean.as_str()) {
        Ok(v) => Some(v),
        Err(_) => None,
    };
    verdict_from_parse(clean.as_str(), parsed)
}

/// Gives the answer to an evaluation request from the outcome of the exchange
/// with the model. Every outcome has an answer; a failure shows in its status.
pub fn evaluation_response(outcome: &Result<String, UpstreamError>) -> (doc: serde_json::Value)
    ensures
        json_view(doc) == spec_evaluation_response(
            match *outcome {
                Ok(reply) => Ok(reply@),
                Err(e) => Err(e),
            },
        ),
{
    match outcome {
        Ok(reply) => read_verdict(reply.as_str()),
        Err(_) => envelope("Error", "error"),
    }
}

/// The three member names of an envelope are different names.
proof fn lemma_envelope_names_differ()
    ensures
        "score"@ != "feedback"@,
        "score"@ != "status"@,
        "feedback"@ != "status"@,
{
    reveal_strlit("score");
    reveal_strlit("feedback");
    reveal_strlit("status");
    assert("score"@.len() == 5);
    assert("feedback"@.len() == 8);
    assert("status"@.len() == 6);
}

/// The members of an envelope: a score of zero, the feedback and the status.
pub proof fn lemma_envelope_members(feedback: Seq<char>, status: Seq<char>)
    ensures
        spec_member(spec_envelope(feedback, status), "score"@) == Some(Json::Int(0)),
        spec_member(spec_envelope(feedback, status), "feedback"@) == Some(Json::Text(feedback)),
        spec_member(spec_envelope(feedback, status), "status"@) == Some(Json::Text(status)),
{
    lemma_envelope_names_differ();
}

/// A reply that is no JSON after cleaning is answered with the status
/// `partial_success`, the cleaned text as feedback, and a score of zero.
pub proof fn lemma_unparseable_reply_is_partial_success(reply: Seq<char>)
    requires
        json_parse(spec_clean_reply(reply)) is None,
    ensures
        spec_member(spec_read_verdict(reply), "status"@) == Some(Json::Text("partial_success"@)),
        spec_member(spec_read_verdict(reply), "feedback"@) == Some(
            Json::Text(spec_clean_reply(reply)),
        ),
        spec_member(spec_read_verdict(reply), "score"@) == Some(Json::Int(0)),
{
    lemma_envelope_members(spec_clean_reply(reply), "partial_success"@);
}

} // verus!
