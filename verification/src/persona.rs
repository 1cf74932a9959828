//! The persona prompt builder: one system instruction from a scenario's
//! hidden context and the stakeholder's role.
use vstd::prelude::*;
use vstd::string::StringExecFns;
use crate::catalog::{
    get_partner_instruction, spec_partner_instruction, Scenario, CUSTOM_FALLBACK_INSTRUCTION,
    DIRECTIVE_CLOSING, DIRECTIVE_OPENING, GENERIC_CUSTOMER_CONTEXT,
};
use crate::model::chat::{ChatRequest, Conversation};
use crate::text::str_eq;

verus! {

/// The role that is taken where a request names none.
pub const DEFAULT_ROLE: &'static str = "ceo";

/// What stands between the base instruction and the role's overlay.
pub const OVERLAY_SEPARATOR: &'static str = "\n\n";

/// The base instruction of a request, with the number of leading turns that
/// went into it and are therefore no part of the dialogue.
#[derive(Debug, Clone)]
pub struct BaseInstruction {
    pub text: String,
    pub consumed_turns: usize,
}

/// Whether a conversation opens with a turn that carries its own instruction:
/// the scenario is custom and the first turn has the role `system`.
pub open spec fn spec_brings_instruction(c: Conversation) -> bool {
    Scenario::spec_parse(c.scenario_id) == Scenario::Custom && c.turns.len() > 0
        && c.turns[0].role == "system"@
}

/// The number of leading turns that the instruction takes up: one or none.
pub open spec fn spec_consumed_turns(c: Conversation) -> nat {
    if spec_brings_instruction(c) {
        1
    } else {
        0
    }
}

/// The instruction of a listed or unlisted scenario: its hidden context,
/// wrapped in the directive to answer in character.
pub open spec fn spec_wrapped_context(scenario: Scenario) -> Seq<char> {
    DIRECTIVE_OPENING@ + scenario.spec_hidden_context() + DIRECTIVE_CLOSING@
}

/// The base instruction of a conversation. A custom scenario takes the content
/// of its opening `system` turn, or the fallback where it has none; any other
/// scenario takes its hidden context from the catalog, wrapped in the directive.
pub open spec fn spec_base_instruction(c: Conversation) -> Seq<char> {
    let scenario = Scenario::spec_parse(c.scenario_id);
    if scenario == Scenario::Custom {
        if spec_brings_instruction(c) {
            c.turns[0].content
        } else {
            CUSTOM_FALLBACK_INSTRUCTION@
        }
    } else {
        spec_wrapped_context(scenario)
    }
}

/// The name of the role that a conversation asks for.
pub open spec fn spec_role_name(c: Conversation) -> Seq<char> {
    match c.partner_role {
        Some(role) => role,
        None => DEFAULT_ROLE@,
    }
}

/// The whole system instruction: the base instruction, a blank line, and the
/// overlay of the role.
pub open spec fn spec_system_instruction(c: Conversation) -> Seq<char> {
    spec_base_instruction(c) + OVERLAY_SEPARATOR@ + spec_partner_instruction(spec_role_name(c))
}

/// A scenario that the catalog does not list, and that is not custom, speaks
/// as the generic customer: its base instruction is the generic persona text
/// inside the directive, whatever the identifier and the transcript are.
pub proof fn lemma_unlisted_scenario_is_generic(c: Conversation)
    requires
        c.scenario_id != "custom"@,
        c.scenario_id != "internal_tool"@,
        c.scenario_id != "sns_app"@,
    ensures
        Scenario::spec_parse(c.scenario_id).spec_hidden_context() == GENERIC_CUSTOMER_CONTEXT@,
        spec_base_instruction(c) == DIRECTIVE_OPENING@ + GENERIC_CUSTOMER_CONTEXT@
            + DIRECTIVE_CLOSING@,
        spec_consumed_turns(c) == 0,
{
}

/// Wraps the hidden context of a scenario in the directive to answer in
/// character, briefly and conversationally.
pub fn wrapped_context(scenario: Scenario) -> (text: String)
    ensures
        text@ == spec_wrapped_context(scenario),
{
    let mut text = DIRECTIVE_OPENING.to_string();
    text.append(scenario.hidden_context());
    text.append(DIRECTIVE_CLOSING);
    text
}

/// Finds the base instruction of a request and says how many leading turns it
/// took up.
pub fn base_instruction(req: &ChatRequest) -> (base: BaseInstruction)
    ensures
        base.text@ == spec_base_instruction(req@),
        base.consumed_turns == spec_consumed_turns(req@),
{
    let scenario = Scenario::parse(req.scenario_id.as_str());
    match scenario {
        Scenario::Custom => {
            if req.messages.len() > 0 && str_eq(req.messages[0].role.as_str(), "system") {
                BaseInstruction { text: req.messages[0].content.clone(), consumed_turns: 1 }
            } else {
                BaseInstruction {
                    text: CUSTOM_FALLBACK_INSTRUCTION.to_string(),
                    consumed_turns: 0,
                }
            }
        },
        _ => BaseInstruction { text: wrapped_context(scenario), consumed_turns: 0 },
    }
}

/// The name of the role that a request asks for, `ceo` where it names none.
pub fn role_name(req: &ChatRequest) -> (name: &str)
    ensures
        name@ == spec_role_name(req@),
{
    match &req.partner_role {
        Some(role) => role.as_str(),
        None => DEFAULT_ROLE,
    }
}

/// Joins a base instruction and the overlay of a role into the system instruction.
pub fn with_overlay(base: &str, role: &str) -> (text: String)
    ensures
        text@ == base@ + OVERLAY_SEPARATOR@ + spec_partner_instruction(role@),
{
    let mut text = base.to_string();
    text.append(OVERLAY_SEPARATOR);
    text.append(get_partner_instruction(role));
    text
}

/// Builds the system instruction of a request.
pub fn system_instruction(req: &ChatRequest) -> (text: String)
    ensures
        text@ == spec_system_instruction(req@),
{
    let base = base_instruction(req);
    with_overlay(base.text.as_str(), role_name(req))
}

} // verus!
