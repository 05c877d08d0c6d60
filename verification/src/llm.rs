//! What is said to a text-generation backend, and what is read from it.

use std::sync::Arc;
use vstd::prelude::*;

pub mod openai;

verus! {

/// The role of the human participant.
pub const ROLE_USER: &'static str = "user";

/// The role of the instructions that frame a conversation.
pub const ROLE_SYSTEM: &'static str = "system";

/// The role of a persona that a backend speaks for.
pub const ROLE_ASSISTANT: &'static str = "assistant";

/// One turn of a conversation as a backend takes it.
#[derive(Debug)]
pub struct LLMConversation {
    pub role: String,
    pub content: Arc<String>,
}

/// An [`LLMConversation`] as plain values.
pub struct ConversationView {
    pub role: Seq<char>,
    pub content: Seq<char>,
}

impl View for LLMConversation {
    type V = ConversationView;

    open spec fn view(&self) -> ConversationView {
        ConversationView { role: self.role@, content: self.content@ }
    }
}

impl DeepView for LLMConversation {
    type V = ConversationView;

    open spec fn deep_view(&self) -> ConversationView {
        self@
    }
}

/// The conversation that asks one question: a single turn of the user.
pub open spec fn single_turn(prompt: Seq<char>) -> Seq<ConversationView> {
    seq![ConversationView { role: ROLE_USER@, content: prompt }]
}

/// Builds the conversation for a question that stands alone. It goes to the
/// backend with an empty system prompt.
pub fn single_chat_conversation(prompt: Arc<String>) -> (conversation: Vec<LLMConversation>)
    ensures
        conversation.deep_view() == single_turn(prompt@),
{
    let mut conversation: Vec<LLMConversation> = Vec::new();
    conversation.push(LLMConversation { role: String::from_str(ROLE_USER), content: prompt });
    assert(conversation.deep_view() =~= single_turn(prompt@));
    conversation
}

} // verus!
