//! The scenario catalog: the fixed texts and requirement figures that the
//! prompts are assembled from, each reached through a small closed set of tags.
use vstd::prelude::*;
use crate::json::{empty_object, json_view, set_member, text_value, Json};
use crate::text::str_eq;

verus! {

/// What the client of the in-house attendance tool knows and does not volunteer.
pub const INTERNAL_TOOL_CONTEXT: &'static str = "\n                あなたは「社内勤怠管理ツール」の発注担当者（総務部）です。\n                ITには詳しくありません。\n                【裏要件】\n                - 予算はとにかく安く済ませたい。\n                - 朝9時に社員50人が一斉にアクセスするが、それ以外は誰も使わない。\n                - データは消えると困るが、数分止まるくらいなら許容できる。\n            ";

/// What the founder of the social-network start-up knows and does not volunteer.
pub const SNS_APP_CONTEXT: &'static str = "\n                あなたは「次世代SNSアプリ」のスタートアップCEOです。\n                野心的で、急成長を想定しています。\n                【裏要件】\n                - 世界中からアクセスがある想定。\n                - とにかく「サクサク動く」ことが最重要。\n                - 24時間365日止まってはいけない。\n            ";

/// The persona of a customer about whom nothing more is known.
pub const GENERIC_CUSTOMER_CONTEXT: &'static str = "あなたは一般的なシステムの顧客です。";

/// The instruction of a custom scenario that brings none of its own.
pub const CUSTOM_FALLBACK_INSTRUCTION: &'static str = "あなたはシステムアーキテクチャのクライアントです。";

/// What stands before the hidden context in the instruction of a listed scenario.
pub const DIRECTIVE_OPENING: &'static str = "\n            ";

/// The directive after the hidden context: answer in character, briefly and conversationally.
pub const DIRECTIVE_CLOSING: &'static str = "\n            ユーザー（システムアーキテクト）からの質問に対して、上記の立場・要件に基づいて回答してください。\n            回答は短潔に、かつ自然な会話口調で行ってください。\n            ";

/// The stance of a cost-sensitive finance officer.
pub const CFO_OVERLAY: &'static str = "\n【重要：あなたの役割 - 財務担当 (CFO)】\nあなたはコスト意識が非常に高い財務責任者として振る舞ってください。\n技術的な詳細は理解していませんが、「費用対効果」と「無駄の削減」には敏感です。\n・「その機能は本当に売上に貢献するのか？」「もっと安い方法はないのか？」としつこく聞いてください。\n・AWSやクラウドの高額なサービス名が出たら、コスト面での懸念を示してください。\n・安易なオーバースペック（過剰品質）を許さないでください。";

/// The stance of a rigorous technology officer.
pub const CTO_OVERLAY: &'static str = "\n【重要：あなたの役割 - 技術責任者 (CTO)】\nあなたは技術に精通したCTOとして振る舞ってください。\n・セキュリティ、可用性、スケーラビリティについて厳しくチェックしてください。\n・単一障害点（SPOF）がある場合、即座に指摘してください。\n・「なんとなく」選ばれた技術選定を嫌います。すべての構成に技術的な根拠を求めてください。\n・甘い設計に対しては、プロフェッショナルとして厳しいフィードバックをしてください。";

/// The stance of a non-technical owner, who withholds the exact figures and hints at them only when pressed.
pub const CEO_OVERLAY: &'static str = "\n【重要：あなたの役割 - 非技術系オーナー (CEO)】\nあなたは技術に詳しくないビジネスオーナーです。夢やビジョンを語りますが、具体的な要件（数値）はあいまいで、気分で変わることがあります。\n\n【最重要ルール：Hidden_Context情報の隠蔽】\nあなたはシステム設定（Hidden_Context）として「正解の数値（ユーザー数や予算）」を知っていますが、**絶対にそれをそのまま答えないでください。**\n前述の `Behavior_Rules` に「聞かれたら答える」とあっても、CEOの場合は**「曖昧にはぐらかす」**ことを優先してください。\n\n【回答ガイドライン】\n1. ユーザーから「ユーザー数は？」「予算は？」と聞かれても、まずは「うーん、世界中でバズるくらい！」「安く済ませてよ」などと**感覚的な言葉**で返してください。\n2. 具体的な数字（例: 100万人、50万円）は使わず、「桁違いの規模」「お小遣い程度」のように言い換えてください。\n3. ユーザーが困って「具体的なサーバーのスペックを決めるために必要なんです」などと食い下がってきた場合のみ、「まあ、強いて言うなら...」と渋々、少しだけヒントを出してください。\n4. 専門用語を使われても「よく分からないけど、実現できるの？」「なんかカッコいい感じで頼むよ」と返してください。";

/// The stance of a client with no particular role.
pub const GENERIC_OVERLAY: &'static str = "\n【役割】一般的なクライアントとして振る舞ってください。";


/// The interview situations that the catalog tells apart.
#[derive(Clone, Copy, Debug, PartialEq, Eq, Structural)]
pub enum Scenario {
    InternalTool,
    SnsApp,
    Custom,
    /// Any identifier that the catalog does not list.
    Unlisted,
}

impl Scenario {
    /// The scenario that an identifier names.
    pub open spec fn spec_parse(id: Seq<char>) -> Scenario {
        if id == "custom"@ {
            Scenario::Custom
        } else if id == "internal_tool"@ {
            Scenario::InternalTool
        } else if id == "sns_app"@ {
            Scenario::SnsApp
        } else {
            Scenario::Unlisted
        }
    }

    /// Reads a scenario identifier.
    pub fn parse(id: &str) -> (scenario: Scenario)
        ensures
            scenario == Self::spec_parse(id@),
    {
        if str_eq(id, "custom") {
            Scenario::Custom
        } else if str_eq(id, "internal_tool") {
            Scenario::InternalTool
        } else if str_eq(id, "sns_app") {
            Scenario::SnsApp
        } else {
            Scenario::Unlisted
        }
    }

    /// The hidden context of a scenario; one without an entry of its own has
    /// that of the generic customer.
    pub open spec fn spec_hidden_context(self) -> Seq<char> {
        match self {
            Scenario::InternalTool => INTERNAL_TOOL_CONTEXT@,
            Scenario::SnsApp => SNS_APP_CONTEXT@,
            _ => GENERIC_CUSTOMER_CONTEXT@,
        }
    }

    /// Looks up the hidden context of a scenario.
    pub fn hidden_context(self) -> (context: &'static str)
        ensures
            context@ == self.spec_hidden_context(),
    {
        match self {
            Scenario::InternalTool => INTERNAL_TOOL_CONTEXT,
            Scenario::SnsApp => SNS_APP_CONTEXT,
            _ => GENERIC_CUSTOMER_CONTEXT,
        }
    }
}

/// The stance that the simulated stakeholder takes.
#[derive(Clone, Copy, Debug, PartialEq, Eq, Structural)]
pub enum PersonaRole {
    Ceo,
    Cto,
    Cfo,
    /// Any role name that the catalog does not list.
    Generic,
}

impl PersonaRole {
    /// The role that a name stands for.
    pub open spec fn spec_parse(role: Seq<char>) -> PersonaRole {
        if role == "cfo"@ {
            PersonaRole::Cfo
        } else if role == "cto"@ {
            PersonaRole::Cto
        } else if role == "ceo"@ {
            PersonaRole::Ceo
        } else {
            PersonaRole::Generic
        }
    }

    /// Reads a role name.
    pub fn parse(role: &str) -> (parsed: PersonaRole)
        ensures
            parsed == Self::spec_parse(role@),
    {
        if str_eq(role, "cfo") {
            PersonaRole::Cfo
        } else if str_eq(role, "cto") {
            PersonaRole::Cto
        } else if str_eq(role, "ceo") {
            PersonaRole::Ceo
        } else {
            PersonaRole::Generic
        }
    }

    /// The behavioural overlay of a role.
    pub open spec fn spec_overlay(self) -> Seq<char> {
        match self {
            PersonaRole::Cfo => CFO_OVERLAY@,
            PersonaRole::Cto => CTO_OVERLAY@,
            PersonaRole::Ceo => CEO_OVERLAY@,
            PersonaRole::Generic => GENERIC_OVERLAY@,
        }
    }

    /// Looks up the behavioural overlay of a role.
    pub fn overlay(self) -> (text: &'static str)
        ensures
            text@ == self.spec_overlay(),
    {
        match self {
            PersonaRole::Cfo => CFO_OVERLAY,
            PersonaRole::Cto => CTO_OVERLAY,
            PersonaRole::Ceo => CEO_OVERLAY,
            PersonaRole::Generic => GENERIC_OVERLAY,
        }
    }
}

/// The overlay that belongs to a role name.
pub open spec fn spec_partner_instruction(role: Seq<char>) -> Seq<char> {
    PersonaRole::spec_parse(role).spec_overlay()
}

/// The behavioural overlay for a role name: one of four fixed texts, the
/// generic one for every name but `cfo`, `cto` and `ceo`.
pub fn get_partner_instruction(role: &str) -> (text: &'static str)
    ensures
        text@ == spec_partner_instruction(role@),
{
    PersonaRole::parse(role).overlay()
}

/// The users of the small tier.
pub const SMALL_USERS: &'static str = "50〜100人程度";
/// The traffic and operations of the small tier.
pub const SMALL_TRAFFIC: &'static str = "運用コストをかけられないため、メンテナンスフリーな構成を好む";
/// The budget of the small tier.
pub const SMALL_BUDGET: &'static str = "月額5,000円以内 (可能な限り安く)";
/// The availability asked of the small tier.
pub const SMALL_AVAILABILITY: &'static str = "Best Effort (夜間停止可)";
/// The users of the medium tier.
pub const MEDIUM_USERS: &'static str = "10万DAU, ピーク時秒間100リクエスト";
/// The traffic and operations of the medium tier.
pub const MEDIUM_TRAFFIC: &'static str = "急激なアクセス増に耐えられるスケーラビリティが必須";
/// The budget of the medium tier.
pub const MEDIUM_BUDGET: &'static str = "月額50万円〜100万円";
/// The availability asked of the medium tier.
pub const MEDIUM_AVAILABILITY: &'static str = "High (Multi-AZ推奨)";
/// The users of the large tier.
pub const LARGE_USERS: &'static str = "1000万ユーザー, グローバル展開";
/// The traffic and operations of the large tier.
pub const LARGE_TRAFFIC: &'static str = "単一障害点(SPOF)の完全排除と、データロス発生時の法的リスク回避";
/// The budget of the large tier.
pub const LARGE_BUDGET: &'static str = "無制限（可用性とレイテンシが最優先）";
/// The availability asked of the large tier.
pub const LARGE_AVAILABILITY: &'static str = "Critical (24/7)";
/// The users of every tier that is not listed.
pub const STANDARD_USERS: &'static str = "10万DAU";
/// The traffic and operations of every tier that is not listed.
pub const STANDARD_TRAFFIC: &'static str = "Standard";
/// The budget of every tier that is not listed.
pub const STANDARD_BUDGET: &'static str = "Standard";
/// The availability asked of every tier that is not listed.
pub const STANDARD_AVAILABILITY: &'static str = "High";

/// The tiers of a custom scenario.
#[derive(Clone, Copy, Debug, PartialEq, Eq, Structural)]
pub enum Difficulty {
    Small,
    Medium,
    Large,
    /// Any tag but `small`, `medium` and `large`.
    Other,
}

/// The requirement figures of one tier. The catalog alone makes them.
#[derive(Clone, Copy, Debug)]
pub struct DifficultySpec {
    pub users: &'static str,
    pub traffic: &'static str,
    pub budget: &'static str,
    pub availability: &'static str,
}

/// The four texts of a [`DifficultySpec`].
pub ghost struct DifficultySpecView {
    pub users: Seq<char>,
    pub traffic: Seq<char>,
    pub budget: Seq<char>,
    pub availability: Seq<char>,
}

impl View for DifficultySpec {
    type V = DifficultySpecView;

    open spec fn view(&self) -> DifficultySpecView {
        DifficultySpecView {
            users: self.users@,
            traffic: self.traffic@,
            budget: self.budget@,
            availability: self.availability@,
        }
    }
}

impl DifficultySpecView {
    /// The figures as a JSON object of four strings.
    pub open spec fn to_json(self) -> Json {
        Json::Object(
            Map::empty().insert("users"@, Json::Text(self.users)).insert(
                "traffic"@,
                Json::Text(self.traffic),
            ).insert("budget"@, Json::Text(self.budget)).insert(
                "availability"@,
                Json::Text(self.availability),
            ),
        )
    }
}

impl DifficultySpec {
    /// Writes the figures as a JSON object with the members `users`,
    /// `traffic`, `budget` and `availability`.
    pub fn to_json(&self) -> (doc: serde_json::Value)
        ensures
            json_view(doc) == self@.to_json(),
    {
        let mut doc = empty_object();
        set_member(&mut doc, "users", text_value(self.users));
        set_member(&mut doc, "traffic", text_value(self.traffic));
        set_member(&mut doc, "budget", text_value(self.budget));
        set_member(&mut doc, "availability", text_value(self.availability));
        doc
    }
}

impl Difficulty {
    /// The tier that a tag names.
    pub open spec fn spec_parse(tag: Seq<char>) -> Difficulty {
        if tag == "small"@ {
            Difficulty::Small
        } else if tag == "medium"@ {
            Difficulty::Medium
        } else if tag == "large"@ {
            Difficulty::Large
        } else {
            Difficulty::Other
        }
    }

    /// Reads a difficulty tag.
    pub fn parse(tag: &str) -> (tier: Difficulty)
        ensures
            tier == Self::spec_parse(tag@),
    {
        if str_eq(tag, "small") {
            Difficulty::Small
        } else if str_eq(tag, "medium") {
            Difficulty::Medium
        } else if str_eq(tag, "large") {
            Difficulty::Large
        } else {
            Difficulty::Other
        }
    }

    /// The canonical figures of a tier.
    pub open spec fn spec_requirements(self) -> DifficultySpecView {
        match self {
            Difficulty::Small => DifficultySpecView {
                users: SMALL_USERS@,
                traffic: SMALL_TRAFFIC@,
                budget: SMALL_BUDGET@,
                availability: SMALL_AVAILABILITY@,
            },
            Difficulty::Medium => DifficultySpecView {
                users: MEDIUM_USERS@,
                traffic: MEDIUM_TRAFFIC@,
                budget: MEDIUM_BUDGET@,
                availability: MEDIUM_AVAILABILITY@,
            },
            Difficulty::Large => DifficultySpecView {
                users: LARGE_USERS@,
                traffic: LARGE_TRAFFIC@,
                budget: LARGE_BUDGET@,
                availability: LARGE_AVAILABILITY@,
            },
            Difficulty::Other => DifficultySpecView {
                users: STANDARD_USERS@,
                traffic: STANDARD_TRAFFIC@,
                budget: STANDARD_BUDGET@,
                availability: STANDARD_AVAILABILITY@,
            },
        }
    }

    /// Looks up the canonical figures of a tier.
    pub fn requirements(self) -> (spec: DifficultySpec)
        ensures
            spec@ == self.spec_requirements(),
    {
        match self {
            Difficulty::Small => DifficultySpec {
                users: SMALL_USERS,
                traffic: SMALL_TRAFFIC,
                budget: SMALL_BUDGET,
                availability: SMALL_AVAILABILITY,
            },
            Difficulty::Medium => DifficultySpec {
                users: MEDIUM_USERS,
                traffic: MEDIUM_TRAFFIC,
                budget: MEDIUM_BUDGET,
                availability: MEDIUM_AVAILABILITY,
            },
            Difficulty::Large => DifficultySpec {
                users: LARGE_USERS,
                traffic: LARGE_TRAFFIC,
                budget: LARGE_BUDGET,
                availability: LARGE_AVAILABILITY,
            },
            Difficulty::Other => DifficultySpec {
                users: STANDARD_USERS,
                traffic: STANDARD_TRAFFIC,
                budget: STANDARD_BUDGET,
                availability: STANDARD_AVAILABILITY,
            },
        }
    }
}

/// The canonical requirements of a difficulty tag, as a JSON object.
pub open spec fn spec_difficulty_specs(tag: Seq<char>) -> Json {
    Difficulty::spec_parse(tag).spec_requirements().to_json()
}

/// The canonical requirements for a difficulty tag, as the JSON object that
/// an evaluation is made against: the figures of `small`, `medium` or `large`,
/// and the standard figures for every other tag.
pub fn get_difficulty_specs(difficulty: &str) -> (doc: serde_json::Value)
    ensures
        json_view(doc) == spec_difficulty_specs(difficulty@),
{
    Difficulty::parse(difficulty).requirements().to_json()
}

} // verus!
