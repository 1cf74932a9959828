//! The conversation orchestrator: which turns of a transcript are replayed to
//! the model, how they are rendered, and the prompt that results.
use vstd::prelude::*;
use vstd::string::StringExecFns;
use crate::model::chat::{spec_turns, ChatLog, ChatRequest, ChatTurn, Conversation};
use crate::persona::{
    base_instruction, role_name, spec_base_instruction, spec_consumed_turns,
    spec_system_instruction, with_overlay,
};
use crate::text::str_eq;

verus! {

/// The heading between the system instruction and the replayed dialogue.
pub const HISTORY_HEADING: &'static str = "\n\n--- 会話履歴 ---\n";

/// The cue after the dialogue, which asks for the stakeholder's next line.
pub const REPLY_CUE: &'static str = "Client: ";

/// The label of the learner's lines.
pub const ARCHITECT_LABEL: &'static str = "Architect";

/// The label of the stakeholder's lines.
pub const CLIENT_LABEL: &'static str = "Client";

/// The role under which the model's reply joins a transcript.
pub const ASSISTANT_ROLE: &'static str = "assistant";

/// The label of a role: the learner speaks as `user`, everyone else is the client.
pub open spec fn spec_speaker(role: Seq<char>) -> Seq<char> {
    if role == "user"@ {
        ARCHITECT_LABEL@
    } else {
        CLIENT_LABEL@
    }
}

/// Whether a turn is shown to the model as dialogue: every turn but a `system` one.
pub open spec fn spec_is_dialogue(turn: ChatTurn) -> bool {
    turn.role != "system"@
}

/// The line of one turn of dialogue: label, colon, content, line break.
pub open spec fn spec_line(turn: ChatTurn) -> Seq<char> {
    spec_speaker(turn.role) + ": "@ + turn.content + "\n"@
}

/// What one turn adds to the rendered dialogue: its line, or nothing for a
/// `system` turn.
pub open spec fn spec_render_turn(turn: ChatTurn) -> Seq<char> {
    if spec_is_dialogue(turn) {
        spec_line(turn)
    } else {
        Seq::empty()
    }
}

/// The rendered dialogue of a sequence of turns: their lines, in order.
pub open spec fn spec_render_turns(turns: Seq<ChatTurn>) -> Seq<char>
    decreases turns.len(),
{
    if turns.len() == 0 {
        Seq::empty()
    } else {
        spec_render_turns(turns.drop_last()) + spec_render_turn(turns.last())
    }
}

/// The turns that are left after the first `consumed` ones.
pub open spec fn spec_remaining(turns: Seq<ChatTurn>, consumed: nat) -> Seq<ChatTurn> {
    if consumed <= turns.len() {
        turns.skip(consumed as int)
    } else {
        Seq::empty()
    }
}

/// The prompt of a conversation: an instruction, the heading, the rendered
/// dialogue of all turns after the first `consumed`, and the cue.
pub open spec fn spec_prompt(instruction: Seq<char>, turns: Seq<ChatTurn>, consumed: nat) -> Seq<
    char,
> {
    instruction + HISTORY_HEADING@ + spec_render_turns(spec_remaining(turns, consumed))
        + REPLY_CUE@
}

/// The prompt that a conversation is put to the model with.
pub open spec fn spec_chat_prompt(c: Conversation) -> Seq<char> {
    spec_prompt(spec_system_instruction(c), c.turns, spec_consumed_turns(c))
}

/// Rendering goes turn by turn: a sequence with one more turn at its end
/// renders as the sequence, followed by what that turn adds.
pub proof fn lemma_render_push(turns: Seq<ChatTurn>, turn: ChatTurn)
    ensures
        spec_render_turns(turns.push(turn)) == spec_render_turns(turns) + spec_render_turn(turn),
{
    assert(turns.push(turn).drop_last() =~= turns);
}

/// Rendering two sequences of turns one after the other is rendering their
/// concatenation.
pub proof fn lemma_render_concat(front: Seq<ChatTurn>, back: Seq<ChatTurn>)
    ensures
        spec_render_turns(front + back) == spec_render_turns(front) + spec_render_turns(back),
    decreases back.len(),
{
    if back.len() == 0 {
        assert(front + back =~= front);
        assert(spec_render_turns(front) + Seq::<char>::empty() =~= spec_render_turns(front));
    } else {
        lemma_render_concat(front, back.drop_last());
        assert((front + back).drop_last() =~= front + back.drop_last());
        assert((front + back).last() == back.last());
        assert(spec_render_turns(front) + (spec_render_turns(back.drop_last())
            + spec_render_turn(back.last())) =~= (spec_render_turns(front) + spec_render_turns(
            back.drop_last(),
        )) + spec_render_turn(back.last()));
    }
}

/// A `system` turn never shows in the rendered dialogue, wherever it stands:
/// a transcript renders exactly as it does without that turn.
pub proof fn lemma_system_turn_is_not_rendered(turns: Seq<ChatTurn>, at: int)
    requires
        0 <= at < turns.len(),
        turns[at].role == "system"@,
    ensures
        spec_render_turns(turns) == spec_render_turns(turns.remove(at)),
{
    let front = turns.subrange(0, at);
    let back = turns.subrange(at + 1, turns.len() as int);
    let single = Seq::<ChatTurn>::empty().push(turns[at]);
    lemma_render_push(Seq::<ChatTurn>::empty(), turns[at]);
    assert(spec_render_turns(single) =~= Seq::<char>::empty());
    lemma_render_concat(front, single);
    lemma_render_concat(front + single, back);
    lemma_render_concat(front, back);
    assert(turns =~= (front + single) + back);
    assert(turns.remove(at) =~= front + back);
    assert(spec_render_turns(front) + Seq::<char>::empty() =~= spec_render_turns(front));
}

/// The rendered dialogue is made of the turns that are dialogue, and of them
/// alone: a transcript renders as the sequence of its turns that are not
/// `system` turns does.
pub proof fn lemma_render_is_of_dialogue_turns(turns: Seq<ChatTurn>)
    ensures
        spec_render_turns(turns) == spec_render_turns(
            turns.filter(|turn: ChatTurn| spec_is_dialogue(turn)),
        ),
    decreases turns.len(),
{
    reveal(Seq::filter);
    let keep = |turn: ChatTurn| spec_is_dialogue(turn);
    if turns.len() > 0 {
        lemma_render_is_of_dialogue_turns(turns.drop_last());
        let rest = turns.drop_last().filter(keep);
        if spec_is_dialogue(turns.last()) {
            lemma_render_push(rest, turns.last());
        } else {
            assert(spec_render_turns(turns.drop_last()) + Seq::<char>::empty()
                =~= spec_render_turns(turns.drop_last()));
        }
    }
}

/// A custom conversation that opens with a `system` turn takes that turn's
/// content as its base instruction and leaves the turn out of the dialogue
/// once: the prompt renders every turn after the first, and no other.
pub proof fn lemma_opening_instruction_is_consumed_once(c: Conversation)
    requires
        c.scenario_id == "custom"@,
        c.turns.len() > 0,
        c.turns[0].role == "system"@,
    ensures
        spec_base_instruction(c) == c.turns[0].content,
        spec_consumed_turns(c) == 1,
        spec_chat_prompt(c) == spec_system_instruction(c) + HISTORY_HEADING@ + spec_render_turns(
            c.turns.subrange(1, c.turns.len() as int),
        ) + REPLY_CUE@,
        spec_render_turns(c.turns) == spec_render_turns(c.turns.subrange(1, c.turns.len() as int)),
{
    lemma_system_turn_is_not_rendered(c.turns, 0);
    assert(c.turns.remove(0) =~= c.turns.subrange(1, c.turns.len() as int));
}

/// Writes the line of one turn, or nothing for a `system` turn.
pub fn render_turn(turn: &ChatLog) -> (line: String)
    ensures
        line@ == spec_render_turn(turn@),
{
    if str_eq(turn.role.as_str(), "system") {
        String::new()
    } else {
        let mut line = if str_eq(turn.role.as_str(), "user") {
            ARCHITECT_LABEL.to_string()
        } else {
            CLIENT_LABEL.to_string()
        };
        line.append(": ");
        line.append(turn.content.as_str());
        line.append("\n");
        line
    }
}

/// Renders the dialogue of a transcript from the turn at `start` on. Turns
/// with the role `system` are passed over wherever they stand.
pub fn render_transcript(messages: &Vec<ChatLog>, start: usize) -> (dialogue: String)
    ensures
        dialogue@ == spec_render_turns(spec_remaining(spec_turns(messages@), start as nat)),
{
    let mut dialogue = String::new();
    if start > messages.len() {
        return dialogue;
    }
    let ghost turns = spec_turns(messages@);
    let mut i: usize = start;
    while i < messages.len()
        invariant
            start <= i <= messages.len(),
            turns == spec_turns(messages@),
            dialogue@ == spec_render_turns(turns.subrange(start as int, i as int)),
        decreases messages.len() - i,
    {
        let line = render_turn(&messages[i]);
        proof {
            lemma_render_push(turns.subrange(start as int, i as int), turns[i as int]);
            assert(turns.subrange(start as int, i as int).push(turns[i as int])
                =~= turns.subrange(start as int, i as int + 1));
        }
        dialogue.append(line.as_str());
        i = i + 1;
    }
    assert(turns.subrange(start as int, i as int) =~= turns.skip(start as int));
    dialogue
}

/// Puts a prompt together from an instruction, a transcript and the number of
/// its leading turns that the instruction took up.
pub fn assemble_prompt(instruction: &str, messages: &Vec<ChatLog>, consumed: usize) -> (prompt:
    String)
    ensures
        prompt@ == spec_prompt(instruction@, spec_turns(messages@), consumed as nat),
{
    let mut prompt = instruction.to_string();
    prompt.append(HISTORY_HEADING);
    let dialogue = render_transcript(messages, consumed);
    prompt.append(dialogue.as_str());
    prompt.append(REPLY_CUE);
    prompt
}

/// Builds the prompt that a conversation is put to the model with: the system
/// instruction of the request, then its dialogue without the turn that the
/// instruction took up, then the cue for the next reply.
pub fn build_chat_prompt(req: &ChatRequest) -> (prompt: String)
    ensures
        prompt@ == spec_chat_prompt(req@),
{
    let base = base_instruction(req);
    let instruction = with_overlay(base.text.as_str(), role_name(req));
    assemble_prompt(instruction.as_str(), &req.messages, base.consumed_turns)
}

/// Adds the model's reply to a transcript as its next turn.
pub fn record_reply(messages: &mut Vec<ChatLog>, reply: String)
    ensures
        spec_turns(final(messages)@) == spec_turns(old(messages)@).push(
            ChatTurn { role: ASSISTANT_ROLE@, content: reply@ },
        ),
{
    let turn = ChatLog { role: ASSISTANT_ROLE.to_string(), content: reply };
    messages.push(turn);
    assert(spec_turns(messages@) =~= spec_turns(old(messages)@).push(
        ChatTurn { role: ASSISTANT_ROLE@, content: reply@ },
    ));
}

} // verus!
