//! The agent that takes turns in a room.
//!
//! After every chat message the agent asks its backend who should speak
//! next and, if a persona is named, lets that persona reply chunk by chunk.
//! The agent itself never waits: it is told what happened (a message came,
//! the backend answered, a chunk arrived) and answers with the next state
//! and with what is to be done next. Whoever drives it does the waiting.

use crate::chat::content::{strip_echo, strip_echo_prefix, ContentView, StreamingContent};
use crate::chat::message::{ChatMessage, ContentWriter, EnvelopeView, ErrorMessage, Message};
use crate::chat::prompt::{
    addressed_id, all_settled, conversation, decision_of, decision_prompt, first_unsettled,
    get_prompt, parse_decision, profiles_summary, reply_conversation, reply_system_prompt,
    summarize_profile, system_prompt, AgentError, AgentErrorView, Decision, EntryView,
    TranscriptEntry,
};
use crate::chat::room::{
    lemma_position_of, subscription_position, taken, ReceiveError, Room, RoomError,
};
use crate::llm::{LLMConversation, ROLE_ASSISTANT};
use crate::model::profile::ProfileView;
use std::sync::Arc;
use tokio::sync::broadcast::Receiver;
use vstd::prelude::*;

verus! {

/// Where the agent stands in its loop.
#[derive(Clone, Copy, Debug, PartialEq, Eq, Structural)]
pub enum Phase {
    /// Not started yet.
    Idle,
    /// Waiting for the next event of the room.
    AwaitEvent,
    /// A chat message came in; the backend is to say who speaks next.
    Deciding,
    /// A persona is replying; its chunks are being published.
    Replying,
    /// The room is gone. Nothing more will happen.
    Stopped,
}

/// What the driver of the agent does after an event of the room.
#[derive(Clone, Copy, Debug, PartialEq, Eq, Structural)]
pub enum Step {
    /// Nothing: take the next event.
    Continue,
    /// Wait until [`PlanAgent::pending`] names no message any more, then
    /// ask the backend for a decision with [`PlanAgent::prompt`].
    Decide,
    /// Nothing, but for a warning if the driver keeps a log: the agent fell
    /// behind and missed that many messages.
    Lagged(u64),
    /// No event is waiting yet.
    Wait,
    /// Leave the loop.
    Stop,
}

/// What a persona is to reply to.
#[derive(Debug)]
pub struct ReplyRequest {
    pub system_prompt: String,
    pub conversation: Vec<LLMConversation>,
}

/// How a turn went on after the backend answered.
#[derive(Debug)]
pub enum Turn {
    /// The agent was not waiting for this; nothing changed.
    Ignored,
    /// Nobody speaks; the agent waits for the next event.
    NoReply,
    /// A persona speaks: its message is announced in the room, and the
    /// driver is to stream the reply to this request into the agent.
    Reply(ReplyRequest),
    /// The turn failed, the room was told, and the agent waits for the next
    /// event.
    Failed(AgentError),
    /// The room could not be told anything any more; the agent stopped.
    Fatal(RoomError),
}

/// The turn-taking agent of one room.
pub struct PlanAgent {
    pub room: Arc<Room>,
    pub msg_receiver: Receiver<Message>,
    /// Every chat message received so far, oldest first.
    pub recent_chats: Vec<Arc<ChatMessage>>,
    /// For the messages of the history, oldest first, whether the writer
    /// was found gone before it completed the content. Messages beyond the
    /// end of this list count as not given up.
    pub closed: Vec<bool>,
    /// The history as it was last read: one entry per message.
    pub transcript: Vec<TranscriptEntry>,
    pub profiles_summarize: String,
    pub phase: Phase,
    /// The writer of the reply that is being written or, between replies,
    /// of the last one that was.
    pub reply: Option<ContentWriter>,
}

/// Who spoke and in which role, without the text.
pub open spec fn envelope_of(entry: EntryView) -> EnvelopeView {
    EnvelopeView {
        from_user_id: entry.from_user_id,
        from_username: entry.from_username,
        role: entry.role,
    }
}

/// The entry for a message whose content reads `text`, is complete or not
/// as `complete` says, and whose writer was found gone or not as `closed`
/// says.
pub open spec fn entry_with(
    envelope: EnvelopeView,
    text: Seq<char>,
    complete: bool,
    closed: bool,
) -> EntryView {
    EntryView {
        from_user_id: envelope.from_user_id,
        from_username: envelope.from_username,
        role: envelope.role,
        text,
        complete,
        closed,
    }
}

/// Makes another handle to the same value, by `Arc::clone` of std. The new
/// handle points to the very allocation of the old one, so the two are equal.
#[verifier::external_body]
fn share<T>(value: &Arc<T>) -> (handle: Arc<T>)
    ensures
        handle == value,
{
    Arc::clone(value)
}

/// The transcript entry of `msg` when its content reads `content` and its
/// writer was found gone or not as `closed` says: the envelope of the
/// message, the joined text without a leading echo of the speaker, and
/// whether the content is complete.
pub fn entry_of(msg: &ChatMessage, content: &StreamingContent, closed: bool) -> (entry:
    TranscriptEntry)
    ensures
        entry@ == entry_with(
            msg@,
            strip_echo(content@.text(), msg.from_username@, msg.from_user_id@),
            content@.complete,
            closed,
        ),
{
    TranscriptEntry {
        from_user_id: msg.from_user_id.clone(),
        from_username: msg.from_username.clone(),
        role: msg.role.clone(),
        text: content.display_text(msg.from_username.as_str(), msg.from_user_id.as_str()),
        complete: content.is_complete(),
        closed,
    }
}

impl PlanAgent {
    /// The envelopes of the history, oldest first.
    pub open spec fn history(&self) -> Seq<EnvelopeView> {
        self.recent_chats.deep_view()
    }

    /// The writer of the message at position `i` of the history was found
    /// gone before it completed the content.
    pub open spec fn gave_up(&self, i: int) -> bool {
        0 <= i < self.closed.len() && self.closed[i]
    }

    /// The agent is consistent: its summary is that of the room's roster,
    /// it has given up no message that it has not received, and while it
    /// is replying it holds the writer of a reply that is not complete yet.
    pub open spec fn wf(&self) -> bool {
        &&& self.profiles_summarize@ == profiles_summary(self.room.roster())
        &&& self.closed.len() <= self.recent_chats.len()
        &&& self.phase == Phase::Replying ==> (self.reply matches Some(writer)
            && !writer.written().complete)
    }

    /// The transcript has one entry for each message of the history, in
    /// order, with the envelope of that message and with the mark of a
    /// writer found gone. It says nothing of the texts: they are what the
    /// contents held when they were read.
    pub open spec fn transcribed(&self) -> bool {
        &&& self.transcript.deep_view().map_values(|e: EntryView| envelope_of(e))
            == self.history()
        &&& forall|i: int|
            0 <= i < self.transcript.len() ==> (#[trigger] self.transcript.deep_view()[i]).closed
                == self.gave_up(i)
    }

    /// The barrier is passed: the transcript covers the history and every
    /// turn of it has settled.
    pub open spec fn barrier_passed(&self) -> bool {
        self.transcribed() && all_settled(self.transcript.deep_view())
    }

    /// The room, the subscription, the history, the marks of writers found
    /// gone and the summary are as they were in `before`.
    pub open spec fn same_records_but_transcript(&self, before: &PlanAgent) -> bool {
        &&& self.room == before.room
        &&& self.msg_receiver == before.msg_receiver
        &&& self.recent_chats == before.recent_chats
        &&& self.closed == before.closed
        &&& self.profiles_summarize == before.profiles_summarize
    }

    /// Everything but the phase and the writer of the reply is as it was in
    /// `before`.
    pub open spec fn same_records(&self, before: &PlanAgent) -> bool {
        &&& self.room == before.room
        &&& self.msg_receiver == before.msg_receiver
        &&& self.recent_chats == before.recent_chats
        &&& self.closed == before.closed
        &&& self.transcript == before.transcript
        &&& self.profiles_summarize == before.profiles_summarize
    }

    /// Creates the agent of `room`. It subscribes at once, so it misses
    /// nothing that is published from now on, and waits to be started.
    pub fn new(room: Arc<Room>) -> (agent: PlanAgent)
        ensures
            agent.wf(),
            agent.room == room,
            agent.phase == Phase::Idle,
            agent.history() == Seq::<EnvelopeView>::empty(),
            agent.transcribed(),
    {
        let msg_receiver = room.subscribe();
        let profiles_summarize = summarize_profile(room.personas());
        let agent = PlanAgent {
            room,
            msg_receiver,
            recent_chats: Vec::new(),
            closed: Vec::new(),
            transcript: Vec::new(),
            profiles_summarize,
            phase: Phase::Idle,
            reply: None,
        };
        assert(agent.history() =~= Seq::<EnvelopeView>::empty());
        assert(agent.transcript.deep_view().map_values(|e: EntryView| envelope_of(e))
            =~= agent.history());
        agent
    }

    /// Starts the agent: from now on it waits for events. `true` tells the
    /// caller to run the loop; on an agent that was started before nothing
    /// changes and the answer is `false`.
    pub fn start(&mut self) -> (started: bool)
        ensures
            started == (old(self).phase == Phase::Idle),
            started ==> final(self).phase == Phase::AwaitEvent,
            !started ==> final(self).phase == old(self).phase,
            final(self).same_records(old(self)),
            final(self).reply == old(self).reply,
            old(self).wf() ==> final(self).wf(),
    {
        match self.phase {
            Phase::Idle => {
                self.phase = Phase::AwaitEvent;
                true
            },
            _ => false,
        }
    }

    /// How the agent `pre` answers the event `event`: `post` is the agent
    /// after it, but for its subscription, and `step` is what it asks of
    /// its driver. A chat message joins the history and calls for a
    /// decision; an error notice is not the agent's concern; a lag is
    /// survived; the end of the room ends the loop. An agent that is not
    /// waiting for an event takes none.
    pub open spec fn received(
        pre: &PlanAgent,
        event: Result<Message, ReceiveError>,
        post: &PlanAgent,
        step: Step,
    ) -> bool {
        &&& post.room == pre.room
        &&& post.closed == pre.closed
        &&& post.transcript == pre.transcript
        &&& post.profiles_summarize == pre.profiles_summarize
        &&& post.reply == pre.reply
        &&& if pre.phase != Phase::AwaitEvent {
            &&& post.recent_chats == pre.recent_chats
            &&& post.phase == pre.phase
            &&& step == Step::Wait
        } else {
            match event {
                Ok(Message::Chat(chat)) => {
                    &&& post.recent_chats@ == pre.recent_chats@.push(chat)
                    &&& post.history() == pre.history().push(chat@)
                    &&& post.phase == Phase::Deciding
                    &&& step == Step::Decide
                },
                Ok(Message::Error(_)) => {
                    &&& post.recent_chats == pre.recent_chats
                    &&& post.phase == Phase::AwaitEvent
                    &&& step == Step::Continue
                },
                Err(ReceiveError::Empty) => {
                    &&& post.recent_chats == pre.recent_chats
                    &&& post.phase == Phase::AwaitEvent
                    &&& step == Step::Wait
                },
                Err(ReceiveError::Lagged(n)) => {
                    &&& post.recent_chats == pre.recent_chats
                    &&& post.phase == Phase::AwaitEvent
                    &&& step == Step::Lagged(n)
                },
                Err(ReceiveError::Closed) => {
                    &&& post.recent_chats == pre.recent_chats
                    &&& post.phase == Phase::Stopped
                    &&& step == Step::Stop
                },
            }
        }
    }

    /// Takes a chat message into the history and turns to deciding.
    fn on_chat(&mut self, msg: Arc<ChatMessage>)
        requires
            old(self).phase == Phase::AwaitEvent,
        ensures
            PlanAgent::received(old(self), Ok(Message::Chat(msg)), final(self), Step::Decide),
            final(self).msg_receiver == old(self).msg_receiver,
    {
        self.recent_chats.push(msg);
        self.phase = Phase::Deciding;
        assert(self.history() =~= old(self).history().push(msg@));
    }

    /// Tells the agent what its subscription delivered.
    pub fn on_received(&mut self, event: Result<Message, ReceiveError>) -> (step: Step)
        ensures
            PlanAgent::received(old(self), event, final(self), step),
            final(self).msg_receiver == old(self).msg_receiver,
            old(self).wf() ==> final(self).wf(),
    {
        match self.phase {
            Phase::AwaitEvent => {},
            _ => {
                return Step::Wait;
            },
        }
        match event {
            Ok(Message::Chat(chat)) => {
                self.on_chat(chat);
                Step::Decide
            },
            Ok(Message::Error(_)) => Step::Continue,
            Err(ReceiveError::Empty) => Step::Wait,
            Err(ReceiveError::Lagged(n)) => Step::Lagged(n),
            Err(ReceiveError::Closed) => {
                self.phase = Phase::Stopped;
                Step::Stop
            },
        }
    }

    /// Takes the next event from the subscription, if the agent waits for
    /// one and one is there, and answers it as [`PlanAgent::on_received`]
    /// does; the subscription moves on as that event says. An agent that
    /// does not wait for an event leaves its subscription alone.
    pub fn loop_worker(&mut self) -> (step: Step)
        ensures
            exists|event: Result<Message, ReceiveError>|
                {
                    &&& #[trigger] PlanAgent::received(old(self), event, final(self), step)
                    &&& old(self).phase == Phase::AwaitEvent ==> taken(
                        subscription_position(old(self).msg_receiver),
                        event,
                        subscription_position(final(self).msg_receiver),
                    )
                },
            old(self).phase != Phase::AwaitEvent ==> final(self).msg_receiver == old(
                self,
            ).msg_receiver,
            old(self).wf() ==> final(self).wf(),
    {
        match self.phase {
            Phase::AwaitEvent => {},
            _ => {
                assert(PlanAgent::received(
                    old(self),
                    Err(ReceiveError::Empty),
                    self,
                    Step::Wait,
                ));
                return Step::Wait;
            },
        }
        let event = self.room.try_receive(&mut self.msg_receiver);
        let ghost handed = event;
        let step = self.on_received(event);
        assert(PlanAgent::received(old(self), handed, self, step) && taken(
            subscription_position(old(self).msg_receiver),
            handed,
            subscription_position(self.msg_receiver),
        ));
        step
    }

    /// Reads every message of the history as it is now and keeps the result
    /// as the transcript, whether the contents are complete or not.
    fn settle(&mut self)
        ensures
            final(self).transcribed(),
            final(self).same_records_but_transcript(old(self)),
            final(self).phase == old(self).phase,
            final(self).reply == old(self).reply,
    {
        let mut entries: Vec<TranscriptEntry> = Vec::new();
        let mut i: usize = 0;
        while i < self.recent_chats.len()
            invariant
                i <= self.recent_chats.len(),
                entries.len() == i,
                entries.deep_view().map_values(|e: EntryView| envelope_of(e))
                    == self.history().take(i as int),
                forall|j: int|
                    0 <= j < i ==> (#[trigger] entries.deep_view()[j]).closed == self.gave_up(j),
            decreases self.recent_chats.len() - i,
        {
            let ghost before = entries.deep_view();
            let msg = &self.recent_chats[i];
            let content = msg.read_current();
            let closed = i < self.closed.len() && self.closed[i];
            let entry = entry_of(msg, &content, closed);
            entries.push(entry);
            assert(entries.deep_view() =~= before.push(entry@));
            assert(envelope_of(entry@) == self.history()[i as int]);
            assert(before.push(entry@).map_values(|e: EntryView| envelope_of(e))
                =~= before.map_values(|e: EntryView| envelope_of(e)).push(envelope_of(entry@)));
            assert(self.history().take(i as int).push(self.history()[i as int])
                =~= self.history().take(i + 1));
            i += 1;
        }
        assert(self.history().take(self.recent_chats.len() as int) =~= self.history());
        self.transcript = entries;
    }

    /// Reads every message of the history as it is at this moment and
    /// says which one the decision still has to wait for: the first that
    /// has not settled, that is, whose content is not complete and whose
    /// writer has not been found gone. `None` says that the barrier is
    /// passed. The waiting itself is the driver's: it waits for the
    /// message named and asks again.
    pub fn pending(&mut self) -> (waiting_for: Option<usize>)
        ensures
            final(self).same_records_but_transcript(old(self)),
            final(self).phase == old(self).phase,
            final(self).reply == old(self).reply,
            final(self).transcribed(),
            match waiting_for {
                Some(i) => {
                    &&& i < final(self).transcript.len()
                    &&& !final(self).transcript[i as int]@.settled()
                    &&& all_settled(final(self).transcript.deep_view().take(i as int))
                },
                None => final(self).barrier_passed(),
            },
    {
        self.settle();
        first_unsettled(&self.transcript)
    }

    /// Tells the agent that the writer of the message at position `i` of
    /// the history is gone and has not completed it: what there is of the
    /// message is all there will be, and the decision no longer waits for
    /// it. The answer says whether there is such a message.
    pub fn on_wait_closed(&mut self, i: usize) -> (marked: bool)
        ensures
            marked == (i < old(self).recent_chats.len()),
            final(self).room == old(self).room,
            final(self).msg_receiver == old(self).msg_receiver,
            final(self).recent_chats == old(self).recent_chats,
            final(self).transcript == old(self).transcript,
            final(self).profiles_summarize == old(self).profiles_summarize,
            final(self).phase == old(self).phase,
            final(self).reply == old(self).reply,
            marked ==> final(self).gave_up(i as int),
            !marked ==> final(self).closed == old(self).closed,
            forall|j: int| j != i ==> final(self).gave_up(j) == old(self).gave_up(j),
            old(self).wf() ==> final(self).wf(),
    {
        if i >= self.recent_chats.len() {
            return false;
        }
        while self.closed.len() <= i
            invariant
                i < self.recent_chats.len(),
                self.room == old(self).room,
                self.msg_receiver == old(self).msg_receiver,
                self.recent_chats == old(self).recent_chats,
                self.transcript == old(self).transcript,
                self.profiles_summarize == old(self).profiles_summarize,
                self.phase == old(self).phase,
                self.reply == old(self).reply,
                old(self).closed.len() <= self.closed.len(),
                self.closed.len() <= old(self).closed.len() || self.closed.len() <= i + 1,
                forall|j: int| self.gave_up(j) == old(self).gave_up(j),
            decreases i + 1 - self.closed.len(),
        {
            self.closed.push(false);
        }
        self.closed.set(i, true);
        true
    }

    /// Builds the prompt that asks who speaks next, once the barrier is
    /// passed: the agent reads every message of the history as it is at
    /// this moment into its transcript, and where every turn has settled it
    /// renders them. Where one has not, there is no prompt yet, and
    /// [`PlanAgent::pending`] names the message to wait for. An agent that
    /// is not deciding has nothing to ask.
    pub fn prompt(&mut self) -> (prompt: Option<String>)
        ensures
            final(self).same_records_but_transcript(old(self)),
            final(self).phase == old(self).phase,
            final(self).reply == old(self).reply,
            match prompt {
                Some(text) => {
                    &&& old(self).phase == Phase::Deciding
                    &&& final(self).barrier_passed()
                    &&& text@ == decision_prompt(
                        final(self).profiles_summarize@,
                        final(self).transcript.deep_view(),
                    )
                },
                None => if old(self).phase == Phase::Deciding {
                    final(self).transcribed() && !all_settled(final(self).transcript.deep_view())
                } else {
                    final(self).transcript == old(self).transcript
                },
            },
    {
        match self.phase {
            Phase::Deciding => {},
            _ => {
                return None;
            },
        }
        match self.pending() {
            Some(i) => {
                assert(!self.transcript.deep_view()[i as int].settled());
                None
            },
            None => Some(get_prompt(self.profiles_summarize.as_str(), &self.transcript)),
        }
    }

    /// How the agent `pre` goes on once the backend has answered `answer`
    /// to its decision prompt: `post` is the agent after it and `turn` what
    /// it tells its driver.
    ///
    /// An agent that is not deciding, or whose history has not settled,
    /// has asked nothing, so the answer is not for it. For the others the
    /// answer `no reply` ends the turn. An answer that names a persona of
    /// the roster starts its reply: a message of that persona with empty
    /// content is announced in the room, and the request for the reply is
    /// handed out. Any other answer, and a failure of the backend, is told
    /// to the room as an error notice, and the agent waits for the next
    /// event. Only where the room takes no message at all does the agent
    /// stop.
    pub open spec fn decided(
        pre: &PlanAgent,
        answer: Result<String, String>,
        post: &PlanAgent,
        turn: Turn,
    ) -> bool {
        &&& post.same_records_but_transcript(pre)
        &&& if pre.phase != Phase::Deciding {
            &&& post.phase == pre.phase
            &&& post.transcript == pre.transcript
            &&& post.reply == pre.reply
            &&& turn is Ignored
        } else if !post.barrier_passed() {
            &&& post.transcribed()
            &&& post.phase == pre.phase
            &&& post.reply == pre.reply
            &&& turn is Ignored
        } else {
            let verdict = match answer {
                Ok(raw) => decision_of(raw@, pre.room.roster()),
                Err(text) => Err(AgentErrorView::BackendError(text@)),
            };
            match verdict {
                Ok(Decision::NoReply) => {
                    &&& post.reply == pre.reply
                    &&& post.phase == Phase::AwaitEvent
                    &&& turn is NoReply
                },
                Ok(Decision::Reply(i)) => {
                    ||| PlanAgent::replying(post, pre.room.roster()[i as int], turn)
                    ||| post.reply == pre.reply && PlanAgent::stopped(post, turn)
                },
                Err(e) => {
                    &&& post.reply == pre.reply
                    &&& PlanAgent::failed(post, e, turn) || PlanAgent::stopped(post, turn)
                },
            }
        }
    }

    /// The agent has announced the reply of `persona`, with a content that
    /// starts empty, and handed out the request for it.
    pub open spec fn replying(post: &PlanAgent, persona: ProfileView, turn: Turn) -> bool {
        &&& post.phase == Phase::Replying
        &&& post.reply matches Some(writer) && writer.target()@ == (EnvelopeView {
            from_user_id: persona.id,
            from_username: persona.name,
            role: ROLE_ASSISTANT@,
        }) && writer.target().first_content() == ContentView::announced() && writer.written()
            == ContentView::announced()
        &&& turn matches Turn::Reply(request) && request.system_prompt@ == reply_system_prompt(
            persona,
        ) && request.conversation.deep_view() == reply_conversation(post.transcript.deep_view())
    }

    /// The agent has told the room of the failure `e` and waits for the
    /// next event.
    pub open spec fn failed(post: &PlanAgent, e: AgentErrorView, turn: Turn) -> bool {
        &&& post.phase == Phase::AwaitEvent
        &&& turn matches Turn::Failed(err) && err@ == e
    }

    /// The room took no message, and the agent has stopped.
    pub open spec fn stopped(post: &PlanAgent, turn: Turn) -> bool {
        &&& post.phase == Phase::Stopped
        &&& turn == Turn::Fatal(RoomError::NoSubscribers)
    }

    /// How the agent `pre` takes the chunk `raw` of the running reply:
    /// `post` is the agent after it and `published` what it appended. The
    /// chunk loses a leading echo of the speaker and joins the content of
    /// the reply. An agent that is not replying takes no chunk.
    pub open spec fn chunk_taken(
        pre: &PlanAgent,
        raw: Seq<char>,
        post: &PlanAgent,
        published: Option<String>,
    ) -> bool {
        &&& post.same_records(pre)
        &&& post.phase == pre.phase
        &&& match pre.reply {
            Some(writer) if pre.phase == Phase::Replying => {
                let chunk = strip_echo(
                    raw,
                    writer.target().from_username@,
                    writer.target().from_user_id@,
                );
                &&& published matches Some(text) && text@ == chunk
                &&& post.reply matches Some(after) && after.target() == writer.target()
                    && after.written() == writer.written().publish(chunk)
            },
            _ => published is None && post.reply == pre.reply,
        }
    }

    /// How the running reply of the agent `pre` ends: `post` is the agent
    /// after it. What was written stays and is marked complete, and the
    /// agent is no longer replying. `ended` says whether there was a reply
    /// to end.
    pub open spec fn reply_ended(pre: &PlanAgent, post: &PlanAgent, ended: bool) -> bool {
        &&& post.same_records(pre)
        &&& match pre.reply {
            Some(writer) if pre.phase == Phase::Replying => {
                &&& ended
                &&& post.phase != Phase::Replying
                &&& post.reply matches Some(after) && after.target() == writer.target()
                    && after.written() == writer.written().completed()
            },
            _ => !ended && post.phase == pre.phase && post.reply == pre.reply,
        }
    }

    /// How a turn that failed goes on once the room has answered to the
    /// notice of the failure `err`: told, the room lets the agent wait for
    /// the next event; where the room took nothing, the agent stops.
    pub fn reported(&mut self, sent: Result<(), RoomError>, err: AgentError) -> (turn: Turn)
        ensures
            final(self).same_records(old(self)),
            final(self).reply == old(self).reply,
            sent is Ok ==> PlanAgent::failed(final(self), err@, turn),
            sent is Err ==> PlanAgent::stopped(final(self), turn),
    {
        match sent {
            Ok(_) => {
                self.phase = Phase::AwaitEvent;
                Turn::Failed(err)
            },
            Err(_) => {
                self.phase = Phase::Stopped;
                Turn::Fatal(RoomError::NoSubscribers)
            },
        }
    }

    /// How the start of a reply goes on once the room has answered to the
    /// announcement of its message: where the room took it, the agent is
    /// replying through `writer` and hands out `request`; where the room
    /// took nothing, no reply is begun and the agent stops.
    pub fn announced(
        &mut self,
        sent: Result<(), RoomError>,
        writer: ContentWriter,
        request: ReplyRequest,
    ) -> (turn: Turn)
        ensures
            final(self).same_records(old(self)),
            sent is Ok ==> final(self).phase == Phase::Replying && final(self).reply == Some(
                writer,
            ) && turn == Turn::Reply(request),
            sent is Err ==> final(self).phase == Phase::Stopped && final(self).reply == old(
                self,
            ).reply && turn == Turn::Fatal(RoomError::NoSubscribers),
    {
        match sent {
            Ok(_) => {
                self.phase = Phase::Replying;
                self.reply = Some(writer);
                Turn::Reply(request)
            },
            Err(_) => {
                self.phase = Phase::Stopped;
                Turn::Fatal(RoomError::NoSubscribers)
            },
        }
    }

    /// Tells the room of a failed turn and goes back to waiting.
    fn report(&mut self, err: AgentError) -> (turn: Turn)
        ensures
            final(self).same_records(old(self)),
            final(self).reply == old(self).reply,
            PlanAgent::failed(final(self), err@, turn) || PlanAgent::stopped(final(self), turn),
    {
        let notice = Arc::new(ErrorMessage { msg: err.notice() });
        let sent = self.room.send_error(notice);
        self.reported(sent, err)
    }

    /// Starts the reply of the persona at position `i` of the roster: the
    /// room sees its empty message before the first chunk exists.
    fn complete_chat(&mut self, i: usize) -> (turn: Turn)
        requires
            i < old(self).room.roster().len(),
            old(self).barrier_passed(),
        ensures
            final(self).same_records(old(self)),
            PlanAgent::replying(final(self), old(self).room.roster()[i as int], turn)
                || (final(self).reply == old(self).reply && PlanAgent::stopped(
                final(self),
                turn,
            )),
    {
        let room = share(&self.room);
        let persona = &room.personas()[i];
        let request = ReplyRequest {
            system_prompt: system_prompt(persona),
            conversation: conversation(&self.transcript),
        };
        let writer = ContentWriter::announce(
            persona.id.clone(),
            persona.name.clone(),
            String::from_str(ROLE_ASSISTANT),
        );
        let sent = room.send_chat(share(writer.message()));
        self.announced(sent, writer, request)
    }

    /// Tells the agent what the backend answered to the decision prompt:
    /// `Ok` with its text, or `Err` with the words of its failure.
    pub fn on_decision(&mut self, answer: Result<String, String>) -> (turn: Turn)
        ensures
            PlanAgent::decided(old(self), answer, final(self), turn),
            old(self).wf() ==> final(self).wf(),
    {
        match self.phase {
            Phase::Deciding => {},
            _ => {
                return Turn::Ignored;
            },
        }
        match self.pending() {
            Some(i) => {
                assert(!self.transcript.deep_view()[i as int].settled());
                return Turn::Ignored;
            },
            None => {},
        }
        let verdict = match answer {
            Ok(raw) => parse_decision(raw.as_str(), self.room.personas()),
            Err(text) => Err(AgentError::BackendError(text)),
        };
        match verdict {
            Ok(Decision::NoReply) => {
                self.phase = Phase::AwaitEvent;
                Turn::NoReply
            },
            Ok(Decision::Reply(i)) => {
                proof {
                    lemma_position_of(self.room.roster(), addressed_id(answer->Ok_0@));
                }
                self.complete_chat(i)
            },
            Err(err) => self.report(err),
        }
    }

    /// Takes one chunk of the running reply: removes a leading echo of the
    /// speaker from it, appends it to the content of the reply and gives
    /// back what was appended. An agent that is not replying takes no chunk.
    pub fn on_chunk(&mut self, raw: &str) -> (published: Option<String>)
        ensures
            PlanAgent::chunk_taken(old(self), raw@, final(self), published),
            old(self).wf() ==> final(self).wf(),
    {
        match self.phase {
            Phase::Replying => {},
            _ => {
                return None;
            },
        }
        match self.reply.take() {
            Some(mut writer) => {
                let chunk = strip_echo_prefix(
                    raw,
                    writer.message().from_username.as_str(),
                    writer.message().from_user_id.as_str(),
                );
                writer.publish_chunk(chunk.clone());
                self.reply = Some(writer);
                Some(chunk)
            },
            None => None,
        }
    }

    /// Ends the running reply after its last chunk: marks its content as
    /// complete and goes back to waiting. The answer says whether there
    /// was a reply to end.
    pub fn on_stream_end(&mut self) -> (ended: bool)
        ensures
            PlanAgent::reply_ended(old(self), final(self), ended),
            ended ==> final(self).phase == Phase::AwaitEvent,
            old(self).wf() ==> final(self).wf(),
    {
        if self.finish_reply() {
            self.phase = Phase::AwaitEvent;
            true
        } else {
            false
        }
    }

    /// Ends the running reply after the backend failed in the middle of
    /// it. What was written so far stays and is marked complete, so that no
    /// reader waits for ever; the room is told of the failure, and the
    /// agent goes back to waiting.
    pub fn on_stream_error(&mut self, text: String) -> (turn: Turn)
        ensures
            PlanAgent::reply_ended(old(self), final(self), !(turn is Ignored)),
            turn is Ignored || PlanAgent::failed(
                final(self),
                AgentErrorView::BackendError(text@),
                turn,
            ) || PlanAgent::stopped(final(self), turn),
            old(self).wf() ==> final(self).wf(),
    {
        if self.finish_reply() {
            self.phase = Phase::AwaitEvent;
            self.report(AgentError::BackendError(text))
        } else {
            Turn::Ignored
        }
    }

    /// Marks the content of the running reply as complete, if the agent is
    /// replying.
    fn finish_reply(&mut self) -> (ended: bool)
        ensures
            final(self).same_records(old(self)),
            final(self).phase == old(self).phase,
            match old(self).reply {
                Some(writer) if old(self).phase == Phase::Replying => {
                    &&& ended
                    &&& final(self).reply matches Some(after) && after.target() == writer.target()
                        && after.written() == writer.written().completed()
                },
                _ => !ended && final(self).reply == old(self).reply,
            },
    {
        match self.phase {
            Phase::Replying => {},
            _ => {
                return false;
            },
        }
        match self.reply.take() {
            Some(mut writer) => {
                writer.complete();
                self.reply = Some(writer);
                true
            },
            None => false,
        }
    }
}

/// The chunks of a reply as the agent appends them: each without a leading
/// echo of the speaker `name` with id `id`.
pub open spec fn normalized(raws: Seq<Seq<char>>, name: Seq<char>, id: Seq<char>) -> Seq<
    Seq<char>,
> {
    raws.map_values(|raw: Seq<char>| strip_echo(raw, name, id))
}

/// A run of a reply: `agents` holds the agent before the first chunk and
/// after each chunk, and `raws` the chunks as the backend gave them, each
/// taken as [`PlanAgent::chunk_taken`] says.
pub open spec fn is_reply_run(
    agents: Seq<PlanAgent>,
    raws: Seq<Seq<char>>,
    published: Seq<Option<String>>,
) -> bool {
    &&& agents.len() == raws.len() + 1
    &&& published.len() == raws.len()
    &&& agents[0].phase == Phase::Replying
    &&& agents[0].reply matches Some(writer) && writer.written() == ContentView::announced()
    &&& forall|k: int|
        0 <= k < raws.len() ==> #[trigger] PlanAgent::chunk_taken(
            &agents[k],
            raws[k],
            &agents[k + 1],
            published[k],
        )
}

/// After the first `k` chunks of a reply the agent is still replying, to
/// the same message, and has written exactly those chunks, normalized and
/// in order.
proof fn lemma_reply_after(
    agents: Seq<PlanAgent>,
    raws: Seq<Seq<char>>,
    published: Seq<Option<String>>,
    k: int,
)
    requires
        is_reply_run(agents, raws, published),
        0 <= k <= raws.len(),
    ensures
        agents[k].phase == Phase::Replying,
        agents[k].reply matches Some(writer) && writer.target() == agents[0].reply->0.target()
            && writer.written() == (ContentView {
            chunks: normalized(
                raws.take(k),
                agents[0].reply->0.target().from_username@,
                agents[0].reply->0.target().from_user_id@,
            ),
            complete: false,
        }),
    decreases k,
{
    let name = agents[0].reply->0.target().from_username@;
    let id = agents[0].reply->0.target().from_user_id@;
    if k == 0 {
        assert(normalized(raws.take(0), name, id) =~= Seq::<Seq<char>>::empty());
    } else {
        lemma_reply_after(agents, raws, published, k - 1);
        let j = k - 1;
        assert(PlanAgent::chunk_taken(&agents[j], raws[j], &agents[j + 1], published[j]));
        assert(normalized(raws.take(k), name, id) =~= normalized(raws.take(k - 1), name, id).push(
            strip_echo(raws[k - 1], name, id),
        ));
    }
}

/// A reply ends as its chunks: however many chunks the backend gave, once
/// the reply has ended the agent has written exactly those chunks, each
/// without a leading echo of its speaker and in order, and the content is
/// complete. No chunk that comes later changes it.
pub proof fn lemma_reply_is_its_chunks(
    agents: Seq<PlanAgent>,
    raws: Seq<Seq<char>>,
    published: Seq<Option<String>>,
    ended: PlanAgent,
    late: Seq<char>,
    later: PlanAgent,
    late_published: Option<String>,
)
    requires
        is_reply_run(agents, raws, published),
        PlanAgent::reply_ended(&agents.last(), &ended, true),
        PlanAgent::chunk_taken(&ended, late, &later, late_published),
    ensures
        ended.reply matches Some(writer) && writer.target() == agents[0].reply->0.target()
            && writer.written() == (ContentView {
            chunks: normalized(
                raws,
                agents[0].reply->0.target().from_username@,
                agents[0].reply->0.target().from_user_id@,
            ),
            complete: true,
        }),
        later.reply == ended.reply,
        late_published is None,
{
    lemma_reply_after(agents, raws, published, raws.len() as int);
    assert(raws.take(raws.len() as int) =~= raws);
}

} // verus!
