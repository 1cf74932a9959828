use design_interview::catalog::{
    get_difficulty_specs, get_partner_instruction, Difficulty, PersonaRole, Scenario,
};

fn text_of(doc: &serde_json::Value, key: &str) -> String {
    doc.get(key).and_then(|v| v.as_str()).expect("a string member").to_string()
}

fn member_count(doc: &serde_json::Value) -> usize {
    doc.as_object().expect("an object").len()
}

#[test]
fn cfo_overlay_is_the_cost_sensitive_stance() {
    assert_eq!(get_partner_instruction("cfo"), "\n【重要：あなたの役割 - 財務担当 (CFO)】\nあなたはコスト意識が非常に高い財務責任者として振る舞ってください。\n技術的な詳細は理解していませんが、「費用対効果」と「無駄の削減」には敏感です。\n・「その機能は本当に売上に貢献するのか？」「もっと安い方法はないのか？」としつこく聞いてください。\n・AWSやクラウドの高額なサービス名が出たら、コスト面での懸念を示してください。\n・安易なオーバースペック（過剰品質）を許さないでください。");
}

#[test]
fn cto_overlay_is_the_rigorous_stance() {
    assert_eq!(get_partner_instruction("cto"), "\n【重要：あなたの役割 - 技術責任者 (CTO)】\nあなたは技術に精通したCTOとして振る舞ってください。\n・セキュリティ、可用性、スケーラビリティについて厳しくチェックしてください。\n・単一障害点（SPOF）がある場合、即座に指摘してください。\n・「なんとなく」選ばれた技術選定を嫌います。すべての構成に技術的な根拠を求めてください。\n・甘い設計に対しては、プロフェッショナルとして厳しいフィードバックをしてください。");
}

#[test]
fn ceo_overlay_withholds_the_figures() {
    let overlay = get_partner_instruction("ceo");
    assert_eq!(overlay, "\n【重要：あなたの役割 - 非技術系オーナー (CEO)】\nあなたは技術に詳しくないビジネスオーナーです。夢やビジョンを語りますが、具体的な要件（数値）はあいまいで、気分で変わることがあります。\n\n【最重要ルール：Hidden_Context情報の隠蔽】\nあなたはシステム設定（Hidden_Context）として「正解の数値（ユーザー数や予算）」を知っていますが、**絶対にそれをそのまま答えないでください。**\n前述の `Behavior_Rules` に「聞かれたら答える」とあっても、CEOの場合は**「曖昧にはぐらかす」**ことを優先してください。\n\n【回答ガイドライン】\n1. ユーザーから「ユーザー数は？」「予算は？」と聞かれても、まずは「うーん、世界中でバズるくらい！」「安く済ませてよ」などと**感覚的な言葉**で返してください。\n2. 具体的な数字（例: 100万人、50万円）は使わず、「桁違いの規模」「お小遣い程度」のように言い換えてください。\n3. ユーザーが困って「具体的なサーバーのスペックを決めるために必要なんです」などと食い下がってきた場合のみ、「まあ、強いて言うなら...」と渋々、少しだけヒントを出してください。\n4. 専門用語を使われても「よく分からないけど、実現できるの？」「なんかカッコいい感じで頼むよ」と返してください。");
    assert!(overlay.contains("絶対にそれをそのまま答えないでください"));
    assert!(overlay.contains("少しだけヒントを出してください"));
}

#[test]
fn unlisted_role_gets_the_generic_overlay() {
    let generic = "\n【役割】一般的なクライアントとして振る舞ってください。";
    assert_eq!(get_partner_instruction("intern"), generic);
    assert_eq!(get_partner_instruction(""), generic);
    assert_eq!(get_partner_instruction("CEO"), generic);
    assert_eq!(get_partner_instruction("ceo "), generic);
}

#[test]
fn role_names_are_read_exactly() {
    assert_eq!(PersonaRole::parse("ceo"), PersonaRole::Ceo);
    assert_eq!(PersonaRole::parse("cto"), PersonaRole::Cto);
    assert_eq!(PersonaRole::parse("cfo"), PersonaRole::Cfo);
    assert_eq!(PersonaRole::parse("coo"), PersonaRole::Generic);
    assert_eq!(PersonaRole::Cfo.overlay(), get_partner_instruction("cfo"));
}

#[test]
fn scenario_identifiers_are_read_exactly() {
    assert_eq!(Scenario::parse("custom"), Scenario::Custom);
    assert_eq!(Scenario::parse("internal_tool"), Scenario::InternalTool);
    assert_eq!(Scenario::parse("sns_app"), Scenario::SnsApp);
    assert_eq!(Scenario::parse("Custom"), Scenario::Unlisted);
    assert_eq!(Scenario::parse("bank"), Scenario::Unlisted);
}

#[test]
fn hidden_contexts_come_from_the_catalog() {
    assert_eq!(Scenario::InternalTool.hidden_context(), "\n                あなたは「社内勤怠管理ツール」の発注担当者（総務部）です。\n                ITには詳しくありません。\n                【裏要件】\n                - 予算はとにかく安く済ませたい。\n                - 朝9時に社員50人が一斉にアクセスするが、それ以外は誰も使わない。\n                - データは消えると困るが、数分止まるくらいなら許容できる。\n            ");
    assert_eq!(Scenario::SnsApp.hidden_context(), "\n                あなたは「次世代SNSアプリ」のスタートアップCEOです。\n                野心的で、急成長を想定しています。\n                【裏要件】\n                - 世界中からアクセスがある想定。\n                - とにかく「サクサク動く」ことが最重要。\n                - 24時間365日止まってはいけない。\n            ");
    assert_eq!(Scenario::Unlisted.hidden_context(), "あなたは一般的なシステムの顧客です。");
    assert_eq!(Scenario::Custom.hidden_context(), "あなたは一般的なシステムの顧客です。");
}

#[test]
fn small_tier_has_the_small_figures() {
    let doc = get_difficulty_specs("small");
    assert_eq!(member_count(&doc), 4);
    assert_eq!(text_of(&doc, "users"), "50〜100人程度");
    assert_eq!(text_of(&doc, "traffic"), "運用コストをかけられないため、メンテナンスフリーな構成を好む");
    assert_eq!(text_of(&doc, "budget"), "月額5,000円以内 (可能な限り安く)");
    assert_eq!(text_of(&doc, "availability"), "Best Effort (夜間停止可)");
}

#[test]
fn medium_tier_has_the_medium_figures() {
    let doc = get_difficulty_specs("medium");
    assert_eq!(member_count(&doc), 4);
    assert_eq!(text_of(&doc, "users"), "10万DAU, ピーク時秒間100リクエスト");
    assert_eq!(text_of(&doc, "traffic"), "急激なアクセス増に耐えられるスケーラビリティが必須");
    assert_eq!(text_of(&doc, "budget"), "月額50万円〜100万円");
    assert_eq!(text_of(&doc, "availability"), "High (Multi-AZ推奨)");
}

#[test]
fn large_tier_has_the_large_figures() {
    let doc = get_difficulty_specs("large");
    assert_eq!(member_count(&doc), 4);
    assert_eq!(text_of(&doc, "users"), "1000万ユーザー, グローバル展開");
    assert_eq!(text_of(&doc, "traffic"), "単一障害点(SPOF)の完全排除と、データロス発生時の法的リスク回避");
    assert_eq!(text_of(&doc, "budget"), "無制限（可用性とレイテンシが最優先）");
    assert_eq!(text_of(&doc, "availability"), "Critical (24/7)");
}

#[test]
fn any_other_tag_has_the_standard_figures() {
    for tag in ["", "unknown", "Small", "huge", "medium "] {
        let doc = get_difficulty_specs(tag);
        assert_eq!(member_count(&doc), 4);
        assert_eq!(text_of(&doc, "users"), "10万DAU");
        assert_eq!(text_of(&doc, "traffic"), "Standard");
        assert_eq!(text_of(&doc, "budget"), "Standard");
        assert_eq!(text_of(&doc, "availability"), "High");
    }
}

#[test]
fn tiers_and_figures_agree_with_the_json_form() {
    assert_eq!(Difficulty::parse("large"), Difficulty::Large);
    assert_eq!(Difficulty::parse("xl"), Difficulty::Other);
    let spec = Difficulty::Small.requirements();
    assert_eq!(spec.users, "50〜100人程度");
    assert_eq!(spec.to_json(), get_difficulty_specs("small"));
    assert_ne!(get_difficulty_specs("small"), get_difficulty_specs("medium"));
}
