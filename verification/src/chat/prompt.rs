//! The texts an agent sends to its backend, and the reading of the answer
//! that names the next speaker.

use crate::chat::content::echo_prefix;
use crate::chat::room::{find_position, lemma_position_of, position_of};
use crate::llm::{ConversationView, LLMConversation};
use crate::model::profile::{Profile, ProfileView};
use crate::text::{has_prefix, join_lines, join_with, same_text, skip_chars, starts_with};
use std::sync::Arc;
use vstd::prelude::*;

verus! {

/// What stands between two profiles of a summary.
pub const PROFILE_SEPARATOR: &'static str = "\n--------------";

/// The instructions that open a decision prompt, up to the profile summary.
pub const DECISION_INSTRUCTIONS: &'static str =
    "You are given a summary of profiles for all the LLM agent in the conversation.You are also given the recent conversation of the agents and the user. Based on that, output which LLM agent should reply in the conversation next. The output can be either of the two:\n\n* Agent ID with a prefix of @. This indicates which agent should reply next.\n* Simply response `no reply` that indicates no agent should reply to the conversation next.\n* Only select the profile from the profile summary. The recent conversations also contain the real user IDs that you shouldn't select from.\n        \nFollow the output format strictly and output nothing else.\nIf the last message is sent by the user, there always should have an agent to reply.Otherwise it's optional for other agents to reply.\nHere are the agent profile summary: \n";

/// What stands between the profile summary and the transcript.
pub const DECISION_TRANSCRIPT_HEADING: &'static str =
    "\n        Here are the recent conversations: \n";

/// What closes a decision prompt.
pub const DECISION_CLOSING: &'static str = "\n        ";

/// The instructions that open the system prompt of a reply, up to the id.
pub const REPLY_INSTRUCTIONS: &'static str =
    "You are simulating a profile in a group chat to reply a new message. You must reply the message.\nHere is the background of the profile: \nid: ";

/// The answer that says that nobody should speak next.
pub const NO_REPLY: &'static str = "no reply";

/// A turn of the conversation as it was read: who spoke, in which role,
/// the text, and whether that text is final.
#[derive(Debug)]
pub struct TranscriptEntry {
    pub from_user_id: String,
    pub from_username: String,
    pub role: String,
    pub text: String,
    /// Whether the content was complete when it was read. Where it was
    /// not, `text` is what there was of it.
    pub complete: bool,
    /// Whether the writer was found gone before it completed the content:
    /// then what there is of it is all there will be.
    pub closed: bool,
}

/// A [`TranscriptEntry`] as plain values.
pub struct EntryView {
    pub from_user_id: Seq<char>,
    pub from_username: Seq<char>,
    pub role: Seq<char>,
    pub text: Seq<char>,
    pub complete: bool,
    pub closed: bool,
}

impl EntryView {
    /// The turn has settled: its text will not change any more, because it
    /// is complete or because nobody is left to write it.
    pub open spec fn settled(self) -> bool {
        self.complete || self.closed
    }
}

impl View for TranscriptEntry {
    type V = EntryView;

    open spec fn view(&self) -> EntryView {
        EntryView {
            from_user_id: self.from_user_id@,
            from_username: self.from_username@,
            role: self.role@,
            text: self.text@,
            complete: self.complete,
            closed: self.closed,
        }
    }
}

impl DeepView for TranscriptEntry {
    type V = EntryView;

    open spec fn deep_view(&self) -> EntryView {
        self@
    }
}

/// Who speaks next.
#[derive(Clone, Copy, Debug, PartialEq, Eq, Structural)]
pub enum Decision {
    /// The persona at this position of the roster.
    Reply(usize),
    /// Nobody.
    NoReply,
}

/// Why a turn failed.
#[derive(Debug)]
pub enum AgentError {
    /// The decision names an id that no persona of the roster has.
    UnknownPersona(String),
    /// The decision is neither `@id` nor `no reply`.
    MalformedDecision(String),
    /// The backend failed; the text says how.
    BackendError(String),
}

/// An [`AgentError`] as plain values.
pub enum AgentErrorView {
    UnknownPersona(Seq<char>),
    MalformedDecision(Seq<char>),
    BackendError(Seq<char>),
}

impl View for AgentError {
    type V = AgentErrorView;

    open spec fn view(&self) -> AgentErrorView {
        match self {
            AgentError::UnknownPersona(id) => AgentErrorView::UnknownPersona(id@),
            AgentError::MalformedDecision(raw) => AgentErrorView::MalformedDecision(raw@),
            AgentError::BackendError(text) => AgentErrorView::BackendError(text@),
        }
    }
}

impl DeepView for AgentError {
    type V = AgentErrorView;

    open spec fn deep_view(&self) -> AgentErrorView {
        self@
    }
}

impl AgentErrorView {
    /// The failure in words.
    pub open spec fn describe(self) -> Seq<char> {
        match self {
            AgentErrorView::UnknownPersona(id) => "No profile found for id "@ + id,
            AgentErrorView::MalformedDecision(raw) => "Got unexpected result from plan agent: "@
                + raw,
            AgentErrorView::BackendError(text) => text,
        }
    }

    /// The notice that tells the room of the failure.
    pub open spec fn notice(self) -> Seq<char> {
        "Failed to handle message: "@ + self.describe()
    }
}

impl AgentError {
    /// The failure in words.
    pub fn describe(&self) -> (text: String)
        ensures
            text@ == self@.describe(),
    {
        match self {
            AgentError::UnknownPersona(id) => {
                let mut text = String::from_str("No profile found for id ");
                text.append(id.as_str());
                text
            },
            AgentError::MalformedDecision(raw) => {
                let mut text = String::from_str("Got unexpected result from plan agent: ");
                text.append(raw.as_str());
                text
            },
            AgentError::BackendError(text) => text.clone(),
        }
    }

    /// The notice that tells the room of the failure.
    pub fn notice(&self) -> (text: String)
        ensures
            text@ == self@.notice(),
    {
        let mut text = String::from_str("Failed to handle message: ");
        text.append(self.describe().as_str());
        text
    }
}

/// One profile as a summary shows it.
pub open spec fn profile_block(profile: ProfileView) -> Seq<char> {
    "ID: "@ + profile.id + "\nName: "@ + profile.name + "\nBackground: "@ + profile.background
}

/// The summary of a roster: one block per profile, in order, with a
/// separator line between neighbours.
pub open spec fn profiles_summary(roster: Seq<ProfileView>) -> Seq<char> {
    join_with(roster.map_values(|p: ProfileView| profile_block(p)), PROFILE_SEPARATOR@)
}

/// One turn as a transcript shows it: the speaker, then the text.
pub open spec fn transcript_line(entry: EntryView) -> Seq<char> {
    echo_prefix(entry.from_username, entry.from_user_id) + entry.text
}

/// The transcript of a history: one line per turn, oldest first.
pub open spec fn transcript(history: Seq<EntryView>) -> Seq<char> {
    join_with(history.map_values(|e: EntryView| transcript_line(e)), "\n"@)
}

/// The prompt that asks who speaks next.
pub open spec fn decision_prompt(summary: Seq<char>, history: Seq<EntryView>) -> Seq<char> {
    DECISION_INSTRUCTIONS@ + summary + DECISION_TRANSCRIPT_HEADING@ + transcript(history)
        + DECISION_CLOSING@
}

/// The system prompt under which a persona replies.
pub open spec fn reply_system_prompt(profile: ProfileView) -> Seq<char> {
    REPLY_INSTRUCTIONS@ + profile.id + "\nname: "@ + profile.name + "\nbackground:\n"@
        + profile.background
}

/// The history as the turns of a conversation: each keeps its role and
/// carries its transcript line.
pub open spec fn reply_conversation(history: Seq<EntryView>) -> Seq<ConversationView> {
    history.map_values(
        |e: EntryView| ConversationView { role: e.role, content: transcript_line(e) },
    )
}

/// The id that an answer addresses: what follows its first character, the
/// `@`.
pub open spec fn addressed_id(raw: Seq<char>) -> Seq<char> {
    raw.skip(1)
}

/// What the answer `raw` of the decision backend means for `roster`. An
/// answer that begins with `@` names a persona by the id that follows that
/// one `@`; the answer `no reply`, letter for letter, names nobody;
/// anything else is malformed.
pub open spec fn decision_of(raw: Seq<char>, roster: Seq<ProfileView>) -> Result<
    Decision,
    AgentErrorView,
> {
    if has_prefix(raw, seq!['@']) {
        match position_of(roster, addressed_id(raw)) {
            Some(i) => Ok(Decision::Reply(i as usize)),
            None => Err(AgentErrorView::UnknownPersona(addressed_id(raw))),
        }
    } else if raw == NO_REPLY@ {
        Ok(Decision::NoReply)
    } else {
        Err(AgentErrorView::MalformedDecision(raw))
    }
}

/// A decision is read in exactly one way. It names a persona only where
/// the answer is `@` followed by the id of that persona, which is the
/// first of the roster with that id; it names nobody only for the answer
/// `no reply`; an answer that begins with `@` and is not `@` followed by
/// an id of the roster is an unknown persona, with all that follows the
/// `@` as the id; any other answer is malformed. (The roster is one that a
/// machine can hold.)
pub proof fn lemma_decision_is_exact(raw: Seq<char>, roster: Seq<ProfileView>)
    requires
        roster.len() <= usize::MAX,
    ensures
        match decision_of(raw, roster) {
            Ok(Decision::Reply(i)) => {
                &&& i < roster.len()
                &&& raw == seq!['@'] + roster[i as int].id
                &&& forall|j: int| 0 <= j < i ==> raw != seq!['@'] + roster[j].id
            },
            Ok(Decision::NoReply) => raw == NO_REPLY@,
            Err(AgentErrorView::UnknownPersona(id)) => {
                &&& raw == seq!['@'] + id
                &&& forall|j: int| 0 <= j < roster.len() ==> raw != seq!['@'] + roster[j].id
            },
            Err(AgentErrorView::MalformedDecision(text)) => {
                &&& text == raw
                &&& !has_prefix(raw, seq!['@'])
                &&& raw != NO_REPLY@
            },
            Err(AgentErrorView::BackendError(_)) => false,
        },
{
    lemma_position_of(roster, addressed_id(raw));
    if has_prefix(raw, seq!['@']) {
        assert(raw.subrange(0, 1) == seq!['@']);
        assert(raw =~= seq!['@'] + raw.skip(1));
        assert forall|id: Seq<char>| raw == seq!['@'] + id implies id == raw.skip(1) by {
            assert((seq!['@'] + id).skip(1) =~= id);
        }
    }
}

/// Every persona can be addressed: the answer `@` followed by the id of a
/// persona of the roster names the first persona with that id, whatever
/// the id holds, be it an `@` of its own.
pub proof fn lemma_addressed_persona_replies(id: Seq<char>, roster: Seq<ProfileView>)
    requires
        roster.len() <= usize::MAX,
        exists|i: int| 0 <= i < roster.len() && roster[i].id == id,
    ensures
        decision_of(seq!['@'] + id, roster) matches Ok(Decision::Reply(i)) && i < roster.len()
            && roster[i as int].id == id,
{
    let raw = seq!['@'] + id;
    assert(raw.subrange(0, 1) =~= seq!['@']);
    assert(raw.skip(1) =~= id);
    lemma_position_of(roster, id);
}

/// Every turn of `history` has settled: what a prompt quotes from it are
/// finished texts, and never a reply that is still being written.
pub open spec fn all_settled(history: Seq<EntryView>) -> bool {
    forall|i: int| 0 <= i < history.len() ==> (#[trigger] history[i]).settled()
}

/// Finds the first turn that has not settled. `None` says that all have.
pub fn first_unsettled(recent_messages: &Vec<TranscriptEntry>) -> (found: Option<usize>)
    ensures
        match found {
            Some(i) => {
                &&& i < recent_messages.len()
                &&& !recent_messages[i as int]@.settled()
                &&& all_settled(recent_messages.deep_view().take(i as int))
            },
            None => all_settled(recent_messages.deep_view()),
        },
{
    let mut i: usize = 0;
    while i < recent_messages.len()
        invariant
            i <= recent_messages.len(),
            all_settled(recent_messages.deep_view().take(i as int)),
        decreases recent_messages.len() - i,
    {
        if !recent_messages[i].complete && !recent_messages[i].closed {
            return Some(i);
        }
        assert forall|j: int| 0 <= j < i + 1 implies (#[trigger] recent_messages.deep_view().take(
            i + 1,
        )[j]).settled() by {
            if j < i {
                assert(recent_messages.deep_view().take(i as int)[j].settled());
            }
        }
        i += 1;
    }
    assert(recent_messages.deep_view().take(recent_messages.len() as int)
        =~= recent_messages.deep_view());
    None
}

/// Summarizes the roster for the decision prompt.
pub fn summarize_profile(profiles: &Vec<Arc<Profile>>) -> (summary: String)
    ensures
        summary@ == profiles_summary(profiles.deep_view()),
{
    let ghost blocks = profiles.deep_view().map_values(|p: ProfileView| profile_block(p));
    let mut parts: Vec<String> = Vec::new();
    let mut i: usize = 0;
    while i < profiles.len()
        invariant
            i <= profiles.len(),
            blocks == profiles.deep_view().map_values(|p: ProfileView| profile_block(p)),
            parts.deep_view() == blocks.take(i as int),
        decreases profiles.len() - i,
    {
        let ghost before = parts.deep_view();
        let profile = &profiles[i];
        let mut block = String::from_str("ID: ");
        block.append(profile.id.as_str());
        block.append("\nName: ");
        block.append(profile.name.as_str());
        block.append("\nBackground: ");
        block.append(profile.background.as_str());
        assert(block@ == blocks[i as int]);
        parts.push(block);
        assert(parts.deep_view() =~= before.push(blocks[i as int]));
        assert(before.push(blocks[i as int]) =~= blocks.take(i + 1));
        i += 1;
    }
    assert(blocks.take(profiles.len() as int) =~= blocks);
    join_lines(&parts, PROFILE_SEPARATOR)
}

impl TranscriptEntry {
    /// This turn as a transcript shows it.
    pub fn line(&self) -> (line: String)
        ensures
            line@ == transcript_line(self@),
    {
        let mut line = crate::chat::content::make_echo_prefix(
            self.from_username.as_str(),
            self.from_user_id.as_str(),
        );
        line.append(self.text.as_str());
        line
    }
}

/// Builds the prompt that asks who speaks next, from the summary of the
/// roster and the history. Every turn of the history has settled: the
/// prompt never quotes a reply that is still being written.
pub fn get_prompt(profile_summary: &str, recent_messages: &Vec<TranscriptEntry>) -> (prompt: String)
    requires
        all_settled(recent_messages.deep_view()),
    ensures
        prompt@ == decision_prompt(profile_summary@, recent_messages.deep_view()),
{
    let ghost all = recent_messages.deep_view().map_values(|e: EntryView| transcript_line(e));
    let mut rendered: Vec<String> = Vec::new();
    let mut i: usize = 0;
    while i < recent_messages.len()
        invariant
            i <= recent_messages.len(),
            all == recent_messages.deep_view().map_values(|e: EntryView| transcript_line(e)),
            rendered.deep_view() == all.take(i as int),
        decreases recent_messages.len() - i,
    {
        let ghost before = rendered.deep_view();
        let line = recent_messages[i].line();
        assert(line@ == all[i as int]);
        rendered.push(line);
        assert(rendered.deep_view() =~= before.push(all[i as int]));
        assert(before.push(all[i as int]) =~= all.take(i + 1));
        i += 1;
    }
    assert(all.take(recent_messages.len() as int) =~= all);
    let recent = join_lines(&rendered, "\n");
    let mut prompt = String::from_str(DECISION_INSTRUCTIONS);
    prompt.append(profile_summary);
    prompt.append(DECISION_TRANSCRIPT_HEADING);
    prompt.append(recent.as_str());
    prompt.append(DECISION_CLOSING);
    prompt
}

/// Builds the system prompt under which `profile` replies.
pub fn system_prompt(profile: &Profile) -> (prompt: String)
    ensures
        prompt@ == reply_system_prompt(profile@),
{
    let mut prompt = String::from_str(REPLY_INSTRUCTIONS);
    prompt.append(profile.id.as_str());
    prompt.append("\nname: ");
    prompt.append(profile.name.as_str());
    prompt.append("\nbackground:\n");
    prompt.append(profile.background.as_str());
    prompt
}

/// Renders the history as the conversation a reply answers. Every turn of
/// the history has settled.
pub fn conversation(recent_messages: &Vec<TranscriptEntry>) -> (turns: Vec<LLMConversation>)
    requires
        all_settled(recent_messages.deep_view()),
    ensures
        turns.deep_view() == reply_conversation(recent_messages.deep_view()),
{
    let ghost all = reply_conversation(recent_messages.deep_view());
    let mut turns: Vec<LLMConversation> = Vec::new();
    let mut i: usize = 0;
    while i < recent_messages.len()
        invariant
            i <= recent_messages.len(),
            all == reply_conversation(recent_messages.deep_view()),
            turns.deep_view() == all.take(i as int),
        decreases recent_messages.len() - i,
    {
        let ghost before = turns.deep_view();
        let entry = &recent_messages[i];
        let turn = LLMConversation { role: entry.role.clone(), content: Arc::new(entry.line()) };
        assert(turn@ == all[i as int]);
        turns.push(turn);
        assert(turns.deep_view() =~= before.push(all[i as int]));
        assert(before.push(all[i as int]) =~= all.take(i + 1));
        i += 1;
    }
    assert(all.take(recent_messages.len() as int) =~= all);
    turns
}

/// Reads the answer of the decision backend against the roster.
pub fn parse_decision(raw: &str, profiles: &Vec<Arc<Profile>>) -> (decision: Result<
    Decision,
    AgentError,
>)
    ensures
        decision_of(raw@, profiles.deep_view()) == match decision {
            Ok(d) => Ok::<Decision, AgentErrorView>(d),
            Err(e) => Err::<Decision, AgentErrorView>(e@),
        },
{
    proof {
        reveal_strlit("@");
        assert("@"@ =~= seq!['@']);
    }
    if starts_with(raw, "@") {
        let id = skip_chars(raw, 1);
        match find_position(profiles, id.as_str()) {
            Some(i) => Ok(Decision::Reply(i)),
            None => Err(AgentError::UnknownPersona(id)),
        }
    } else if same_text(raw, NO_REPLY) {
        Ok(Decision::NoReply)
    } else {
        Err(AgentError::MalformedDecision(String::from_str(raw)))
    }
}

} // verus!
