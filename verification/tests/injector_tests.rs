use design_interview::catalog::get_difficulty_specs;
use design_interview::injector::{
    declared_difficulty, inject_requirements, inject_scenario, is_custom,
};
use serde_json::Value;

fn json(text: &str) -> Value {
    serde_json::from_str(text).expect("valid JSON in the test")
}

fn requirements_of(payload: &Value) -> Value {
    payload.get("scenario").and_then(|s| s.get("requirements")).expect("requirements").clone()
}

#[test]
fn listed_difficulties_get_their_canonical_requirements() {
    for tag in ["small", "medium", "large"] {
        let payload = json(&format!(
            r#"{{"scenario":{{"isCustom":true,"difficulty":"{}","requirements":{{"users":"1B","budget":"unlimited"}}}},"nodes":[],"edges":[]}}"#,
            tag
        ));
        let injected = inject_requirements(&payload);
        assert_eq!(requirements_of(&injected), get_difficulty_specs(tag));
    }
}

#[test]
fn other_difficulties_get_the_standard_requirements() {
    let standard = json(
        r#"{"users":"10万DAU","traffic":"Standard","budget":"Standard","availability":"High"}"#,
    );
    for tag in ["", "unknown", "LARGE", "tiny"] {
        let payload = json(&format!(
            r#"{{"scenario":{{"isCustom":true,"difficulty":"{}","requirements":"whatever"}}}}"#,
            tag
        ));
        assert_eq!(requirements_of(&inject_requirements(&payload)), standard);
    }
}

#[test]
fn missing_or_non_text_difficulty_counts_as_medium() {
    let medium = get_difficulty_specs("medium");
    let payload = json(r#"{"scenario":{"isCustom":true,"requirements":{}}}"#);
    assert_eq!(requirements_of(&inject_requirements(&payload)), medium);
    let payload = json(r#"{"scenario":{"isCustom":true,"difficulty":3,"requirements":{}}}"#);
    assert_eq!(requirements_of(&inject_requirements(&payload)), medium);
    let payload = json(r#"{"scenario":{"isCustom":true,"difficulty":null,"requirements":{}}}"#);
    assert_eq!(requirements_of(&inject_requirements(&payload)), medium);
}

#[test]
fn client_requirements_have_no_bearing() {
    let honest = json(
        r#"{"scenario":{"isCustom":true,"difficulty":"large","requirements":{"users":"1000万ユーザー"}},"nodes":[1]}"#,
    );
    let forged = json(
        r#"{"scenario":{"isCustom":true,"difficulty":"large","requirements":{"users":"3 people","budget":"any"}},"nodes":[1]}"#,
    );
    assert_eq!(inject_requirements(&honest), inject_requirements(&forged));
}

#[test]
fn small_custom_scenario_is_judged_against_the_small_figures() {
    let payload = json(
        r#"{"scenario":{"isCustom":true,"difficulty":"small","requirements":{"users":"1B"}},"nodes":[{"id":"n1","type":"API Server","position":{"x":1.5,"y":-2.0}}],"edges":[{"source":"n1","target":"n2"}]}"#,
    );
    let injected = inject_requirements(&payload);
    let expected = json(
        r#"{"scenario":{"isCustom":true,"difficulty":"small","requirements":{"users":"50〜100人程度","traffic":"運用コストをかけられないため、メンテナンスフリーな構成を好む","budget":"月額5,000円以内 (可能な限り安く)","availability":"Best Effort (夜間停止可)"}},"nodes":[{"id":"n1","type":"API Server","position":{"x":1.5,"y":-2.0}}],"edges":[{"source":"n1","target":"n2"}]}"#,
    );
    assert_eq!(injected, expected);
    assert!(!injected.to_string().contains("1B"));
}

#[test]
fn payload_that_is_not_custom_is_left_alone() {
    for text in [
        r#"{"scenario":{"isCustom":false,"difficulty":"small","requirements":{"users":"1B"}}}"#,
        r#"{"scenario":{"difficulty":"small","requirements":{"users":"1B"}}}"#,
        r#"{"scenario":{"isCustom":"true","difficulty":"small","requirements":{"users":"1B"}}}"#,
        r#"{"scenario":{"isCustom":1,"requirements":{"users":"1B"}}}"#,
        r#"{"scenario":"custom","requirements":{"users":"1B"}}"#,
        r#"{"scenario":[true],"requirements":{"users":"1B"}}"#,
        r#"{"nodes":[],"edges":[]}"#,
        r#"[1,2,3]"#,
        r#""scenario""#,
        r#"null"#,
    ] {
        let payload = json(text);
        assert_eq!(inject_requirements(&payload), payload);
    }
}

#[test]
fn custom_scenario_without_requirements_gets_none() {
    let payload = json(r#"{"scenario":{"isCustom":true,"difficulty":"small"},"nodes":[]}"#);
    assert_eq!(inject_requirements(&payload), payload);
}

#[test]
fn only_the_requirements_change() {
    let payload = json(
        r#"{"scenario":{"isCustom":true,"difficulty":"medium","requirements":null,"title":"t"},"nodes":[{"id":"a"}],"extra":{"requirements":"kept"}}"#,
    );
    let injected = inject_requirements(&payload);
    assert_eq!(injected.get("nodes"), payload.get("nodes"));
    assert_eq!(injected.get("extra"), payload.get("extra"));
    let scenario = injected.get("scenario").expect("scenario");
    assert_eq!(scenario.get("title"), Some(&json(r#""t""#)));
    assert_eq!(scenario.get("isCustom"), Some(&json("true")));
    assert_eq!(scenario.get("difficulty"), Some(&json(r#""medium""#)));
    assert_eq!(scenario.get("requirements"), Some(&get_difficulty_specs("medium")));
    assert_eq!(scenario.as_object().expect("an object").len(), 4);
    assert_eq!(injected.as_object().expect("an object").len(), 3);
}

#[test]
fn scenario_alone_can_be_injected() {
    let scenario = json(r#"{"isCustom":true,"difficulty":"large","requirements":[]}"#);
    let injected = inject_scenario(&scenario);
    assert_eq!(injected.get("requirements"), Some(&get_difficulty_specs("large")));
    let plain = json(r#"{"isCustom":false,"requirements":[]}"#);
    assert_eq!(inject_scenario(&plain), plain);
}

#[test]
fn custom_flag_must_be_the_boolean_true() {
    assert!(is_custom(&json(r#"{"isCustom":true}"#)));
    assert!(!is_custom(&json(r#"{"isCustom":false}"#)));
    assert!(!is_custom(&json(r#"{"isCustom":"true"}"#)));
    assert!(!is_custom(&json(r#"{"iscustom":true}"#)));
    assert!(!is_custom(&json(r#"{}"#)));
    assert!(!is_custom(&json(r#"true"#)));
}

#[test]
fn declared_difficulty_is_read_from_the_scenario() {
    assert_eq!(declared_difficulty(&json(r#"{"difficulty":"small"}"#)), "small");
    assert_eq!(declared_difficulty(&json(r#"{"difficulty":"weird"}"#)), "weird");
    assert_eq!(declared_difficulty(&json(r#"{"difficulty":""}"#)), "");
    assert_eq!(declared_difficulty(&json(r#"{"difficulty":7}"#)), "medium");
    assert_eq!(declared_difficulty(&json(r#"{}"#)), "medium");
    assert_eq!(declared_difficulty(&json(r#"[]"#)), "medium");
}
