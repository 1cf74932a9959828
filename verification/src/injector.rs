//! The requirement injector: in a custom scenario the requirements that an
//! evaluation is made against come from the catalog, never from the client.
use vstd::prelude::*;
use crate::catalog::{get_difficulty_specs, spec_difficulty_specs, Difficulty};
use crate::json::{json_view, member, set_member, spec_member, spec_with_member, Json};

verus! {

/// The difficulty that is taken where a scenario declares none.
pub const DEFAULT_DIFFICULTY: &'static str = "medium";

/// Whether a scenario declares itself custom: it has the member `isCustom`
/// with the boolean value true.
pub open spec fn spec_is_custom(scenario: Json) -> bool {
    spec_member(scenario, "isCustom"@) == Some(Json::Bool(true))
}

/// The difficulty tag that a scenario declares: its member `difficulty` where
/// that is a string, and `medium` where the member is missing or no string.
pub open spec fn spec_declared_difficulty(scenario: Json) -> Seq<char> {
    match spec_member(scenario, "difficulty"@) {
        Some(Json::Text(tag)) => tag,
        _ => DEFAULT_DIFFICULTY@,
    }
}

/// Whether the requirements of a scenario are replaced: it is custom and has
/// a member `requirements`.
pub open spec fn spec_is_injected(scenario: Json) -> bool {
    spec_is_custom(scenario) && spec_member(scenario, "requirements"@) is Some
}

/// A scenario after injection: where it is custom and has requirements, they
/// are those of the catalog for its declared difficulty; else it is unchanged.
pub open spec fn spec_inject_scenario(scenario: Json) -> Json {
    if spec_is_injected(scenario) {
        spec_with_member(
            scenario,
            "requirements"@,
            spec_difficulty_specs(spec_declared_difficulty(scenario)),
        )
    } else {
        scenario
    }
}

/// A payload after injection: its member `scenario` is injected, and nothing
/// else changes.
pub open spec fn spec_inject(payload: Json) -> Json {
    match spec_member(payload, "scenario"@) {
        Some(scenario) => if spec_is_injected(scenario) {
            spec_with_member(payload, "scenario"@, spec_inject_scenario(scenario))
        } else {
            payload
        },
        None => payload,
    }
}

/// Tells whether a scenario declares itself custom.
pub fn is_custom(scenario: &serde_json::Value) -> (custom: bool)
    ensures
        custom == spec_is_custom(json_view(*scenario)),
{
    match member(scenario, "isCustom") {
        Some(flag) => match flag.as_bool() {
            Some(b) => b,
            None => false,
        },
        None => false,
    }
}

/// Reads the difficulty tag that a scenario declares, `medium` where it
/// declares none or something that is no string.
pub fn declared_difficulty(scenario: &serde_json::Value) -> (tag: &str)
    ensures
        tag@ == spec_declared_difficulty(json_view(*scenario)),
{
    match member(scenario, "difficulty") {
        Some(declared) => match declared.as_str() {
            Some(tag) => tag,
            None => DEFAULT_DIFFICULTY,
        },
        None => DEFAULT_DIFFICULTY,
    }
}

/// Sets the requirements of a scenario from the catalog, where the scenario is
/// custom and has requirements; whatever the client wrote there is dropped.
pub fn inject_scenario(scenario: &serde_json::Value) -> (injected: serde_json::Value)
    ensures
        json_view(injected) == spec_inject_scenario(json_view(*scenario)),
{
    let mut injected = scenario.clone();
    if is_custom(scenario) && member(scenario, "requirements").is_some() {
        let canonical = get_difficulty_specs(declared_difficulty(scenario));
        set_member(&mut injected, "requirements", canonical);
    }
    injected
}

/// Returns the payload of an evaluation request with the requirements of its
/// scenario set from the catalog. A payload without a scenario, or with one
/// that is not custom or has no requirements, comes back as it is.
pub fn inject_requirements(payload: &serde_json::Value) -> (injected: serde_json::Value)
    ensures
        json_view(injected) == spec_inject(json_view(*payload)),
{
    let mut injected = payload.clone();
    match member(payload, "scenario") {
        Some(scenario) => {
            if is_custom(scenario) && member(scenario, "requirements").is_some() {
                set_member(&mut injected, "scenario", inject_scenario(scenario));
            }
        },
        None => {},
    }
    injected
}

/// The three member names that the injector reads are different names.
proof fn lemma_member_names_differ()
    ensures
        "requirements"@ != "isCustom"@,
        "requirements"@ != "difficulty"@,
{
    reveal_strlit("requirements");
    reveal_strlit("isCustom");
    reveal_strlit("difficulty");
    assert("requirements"@.len() == 12);
    assert("isCustom"@.len() == 8);
    assert("difficulty"@.len() == 10);
}

/// The three listed difficulty tags are different tags.
proof fn lemma_tags_differ()
    ensures
        "small"@ != "medium"@,
        "small"@ != "large"@,
        "medium"@ != "large"@,
{
    reveal_strlit("small");
    reveal_strlit("medium");
    reveal_strlit("large");
    assert("small"@.len() == 5);
    assert("medium"@.len() == 6);
    assert("small"@[0] == 's');
    assert("large"@[0] == 'l');
}

/// The catalog decides by the tag alone: `small`, `medium` and `large` have
/// their own figures, and every other tag has the standard ones.
pub proof fn lemma_requirements_by_tag(tag: Seq<char>)
    ensures
        tag == "small"@ ==> spec_difficulty_specs(tag)
            == Difficulty::Small.spec_requirements().to_json(),
        tag == "medium"@ ==> spec_difficulty_specs(tag)
            == Difficulty::Medium.spec_requirements().to_json(),
        tag == "large"@ ==> spec_difficulty_specs(tag)
            == Difficulty::Large.spec_requirements().to_json(),
        tag != "small"@ && tag != "medium"@ && tag != "large"@ ==> spec_difficulty_specs(tag)
            == Difficulty::Other.spec_requirements().to_json(),
{
    lemma_tags_differ();
}

/// After injection, a custom scenario that has requirements has those of the
/// catalog for its declared difficulty, and its other members are untouched.
pub proof fn lemma_injected_requirements_are_canonical(scenario: Json)
    requires
        spec_is_custom(scenario),
        spec_member(scenario, "requirements"@) is Some,
    ensures
        spec_member(spec_inject_scenario(scenario), "requirements"@) == Some(
            spec_difficulty_specs(spec_declared_difficulty(scenario)),
        ),
        forall|key: Seq<char>|
            key != "requirements"@ ==> spec_member(spec_inject_scenario(scenario), key)
                == spec_member(scenario, key),
{
}

/// What the client wrote as requirements has no bearing on the outcome: two
/// custom scenarios that differ in their requirements alone are the same
/// scenario after injection.
pub proof fn lemma_client_requirements_are_discarded(scenario: Json, forged: Json)
    requires
        spec_is_custom(scenario),
        spec_member(scenario, "requirements"@) is Some,
    ensures
        spec_inject_scenario(spec_with_member(scenario, "requirements"@, forged))
            == spec_inject_scenario(scenario),
{
    lemma_member_names_differ();
    let tampered = spec_with_member(scenario, "requirements"@, forged);
    assert(spec_is_custom(tampered));
    assert(spec_declared_difficulty(tampered) == spec_declared_difficulty(scenario));
    let canonical = spec_difficulty_specs(spec_declared_difficulty(scenario));
    match scenario {
        Json::Object(members) => {
            assert(members.insert("requirements"@, forged).insert("requirements"@, canonical)
                =~= members.insert("requirements"@, canonical));
        },
        _ => {},
    }
}

/// The same holds of a whole payload: with a custom scenario that has
/// requirements, the injected payload carries the catalog's requirements for
/// the declared difficulty under `scenario`, and keeps every other member.
pub proof fn lemma_injected_payload(payload: Json)
    requires
        spec_member(payload, "scenario"@) is Some,
        spec_is_injected(spec_member(payload, "scenario"@).unwrap()),
    ensures
        spec_member(spec_inject(payload), "scenario"@) == Some(
            spec_inject_scenario(spec_member(payload, "scenario"@).unwrap()),
        ),
        forall|key: Seq<char>|
            key != "scenario"@ ==> spec_member(spec_inject(payload), key) == spec_member(
                payload,
                key,
            ),
{
}

} // verus!
