//! Chat turns and the request that carries a whole conversation.
use vstd::prelude::*;

verus! {

/// One turn of a conversation. The role is `system`, `user` or `assistant`;
/// any other role is treated as the client's.
#[derive(Debug, Clone)]
pub struct ChatLog {
    pub role: String,
    pub content: String,
}

/// The characters of a turn's role and content.
pub ghost struct ChatTurn {
    pub role: Seq<char>,
    pub content: Seq<char>,
}

impl View for ChatLog {
    type V = ChatTurn;

    open spec fn view(&self) -> ChatTurn {
        ChatTurn { role: self.role@, content: self.content@ }
    }
}

/// The turns of a transcript, in order.
pub open spec fn spec_turns(messages: Seq<ChatLog>) -> Seq<ChatTurn> {
    Seq::new(messages.len(), |i: int| messages[i]@)
}

/// A conversation as the client sends it: the whole transcript comes with
/// every request, so nothing is kept between two of them.
#[derive(Debug, Clone)]
pub struct ChatRequest {
    pub scenario_id: String,
    /// The stakeholder's role; `ceo` where none is given.
    pub partner_role: Option<String>,
    pub messages: Vec<ChatLog>,
}

/// The mathematical content of a [`ChatRequest`].
pub ghost struct Conversation {
    pub scenario_id: Seq<char>,
    pub partner_role: Option<Seq<char>>,
    pub turns: Seq<ChatTurn>,
}

impl View for ChatRequest {
    type V = Conversation;

    open spec fn view(&self) -> Conversation {
        Conversation {
            scenario_id: self.scenario_id@,
            partner_role: match self.partner_role {
                Some(role) => Some(role@),
                None => None,
            },
            turns: spec_turns(self.messages@),
        }
    }
}

} // verus!
