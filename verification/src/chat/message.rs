//! What travels through the room: chat messages, whose text may still be
//! growing, and error notices.

use crate::chat::content::{strip_echo, CellOp, ContentView, StreamingContent};
use std::sync::Arc;
use tokio::sync::watch::{Receiver, Sender};
use vstd::prelude::*;

verus! {

/// `tokio::sync::watch::Sender`, the writing end of a single-slot channel.
/// Nothing inside it is visible here.
#[verifier::external_type_specification]
#[verifier::external_body]
#[verifier::reject_recursive_types(T)]
pub struct ExWatchSender<T>(Sender<T>);

/// `tokio::sync::watch::Receiver`, a reading end of a single-slot channel.
/// Nothing inside it is visible here.
#[verifier::external_type_specification]
#[verifier::external_body]
#[verifier::reject_recursive_types(T)]
pub struct ExWatchReceiver<T>(Receiver<T>);

/// One turn of the conversation. The envelope never changes; the content
/// behind `content_stream` grows until the speaker completes it.
#[derive(Debug)]
pub struct ChatMessage {
    pub from_user_id: String,
    pub from_username: String,
    pub role: String,
    /// The single slot that holds the latest state of the content. The
    /// speaker writes to it, any number of readers watch it.
    pub content_stream: Arc<Sender<StreamingContent>>,
}

/// A failure that is shown to the participants in place of a reply.
#[derive(Debug)]
pub struct ErrorMessage {
    pub msg: String,
}

/// An event of the room.
#[derive(Clone, Debug)]
pub enum Message {
    Chat(Arc<ChatMessage>),
    Error(Arc<ErrorMessage>),
}

/// The envelope of a [`ChatMessage`] as plain values.
pub struct EnvelopeView {
    pub from_user_id: Seq<char>,
    pub from_username: Seq<char>,
    pub role: Seq<char>,
}

impl View for ChatMessage {
    type V = EnvelopeView;

    open spec fn view(&self) -> EnvelopeView {
        EnvelopeView {
            from_user_id: self.from_user_id@,
            from_username: self.from_username@,
            role: self.role@,
        }
    }
}

impl DeepView for ChatMessage {
    type V = EnvelopeView;

    open spec fn deep_view(&self) -> EnvelopeView {
        self@
    }
}

/// The content that a slot was opened with. What the slot holds later is
/// not a property of the handle and has no name.
pub uninterp spec fn opened_with(slot: Sender<StreamingContent>) -> ContentView;

/// Opens a slot that holds `init`, by `tokio::sync::watch::Sender::new`,
/// which stores its argument as the first value of the channel. Nothing
/// else is claimed of the slot: what it holds later depends on every
/// holder of the sender.
#[verifier::external_body]
fn slot_open(init: StreamingContent) -> (slot: Sender<StreamingContent>)
    ensures
        opened_with(slot) == init@,
{
    Sender::new(init)
}

/// Changes the content in the slot in place and wakes its readers, by
/// `tokio::sync::watch::Sender::send_modify`. The change is
/// [`StreamingContent::apply`] with `op`; it reaches the slot whether or not
/// anyone is reading.
#[verifier::external_body]
fn slot_apply(slot: &Sender<StreamingContent>, op: CellOp) {
    slot.send_modify(|content| content.apply(op))
}

/// Copies what the slot holds at this moment, by
/// `tokio::sync::watch::Sender::borrow`. Nothing is claimed of the copy:
/// the writer may have changed the slot at any time before the call.
#[verifier::external_body]
fn slot_read(slot: &Sender<StreamingContent>) -> (content: StreamingContent) {
    slot.borrow().clone()
}

/// Attaches a new reader to the slot, by
/// `tokio::sync::watch::Sender::subscribe`. The reader counts the state at
/// the time of the call as seen.
#[verifier::external_body]
fn slot_subscribe(slot: &Sender<StreamingContent>) -> (reader: Receiver<StreamingContent>) {
    slot.subscribe()
}

/// The text of a settled message as the decision and the replies quote it:
/// `None` while the content is incomplete, else the joined chunks without a
/// leading echo of the speaker.
pub open spec fn final_text(content: ContentView, name: Seq<char>, id: Seq<char>) -> Option<
    Seq<char>,
> {
    if content.complete {
        Some(strip_echo(content.text(), name, id))
    } else {
        None
    }
}

impl ChatMessage {
    /// The content this message started with.
    pub open spec fn first_content(&self) -> ContentView {
        opened_with(*self.content_stream)
    }

    /// Creates a message from `from_user_id` whose content starts as `content`.
    pub fn new(
        from_user_id: String,
        from_username: String,
        role: String,
        content: StreamingContent,
    ) -> (msg: ChatMessage)
        ensures
            msg@ == (EnvelopeView {
                from_user_id: from_user_id@,
                from_username: from_username@,
                role: role@,
            }),
            msg.first_content() == content@,
    {
        ChatMessage {
            from_user_id,
            from_username,
            role,
            content_stream: Arc::new(slot_open(content)),
        }
    }

    /// Creates the message of a reply that is about to start: its content is
    /// empty and incomplete, so that subscribers see the turn begin.
    fn announce(from_user_id: String, from_username: String, role: String) -> (msg:
        ChatMessage)
        ensures
            msg@ == (EnvelopeView {
                from_user_id: from_user_id@,
                from_username: from_username@,
                role: role@,
            }),
            msg.first_content() == ContentView::announced(),
    {
        ChatMessage::new(from_user_id, from_username, role, StreamingContent::announce())
    }

    /// Creates a message that was written in one piece: its content is the
    /// single chunk `text`, already complete.
    pub fn from_text(from_user_id: String, from_username: String, role: String, text: String) -> (msg:
        ChatMessage)
        ensures
            msg@ == (EnvelopeView {
                from_user_id: from_user_id@,
                from_username: from_username@,
                role: role@,
            }),
            msg.first_content() == ContentView::announced().publish(text@).completed(),
    {
        ChatMessage::new(from_user_id, from_username, role, StreamingContent::settled(text))
    }

    /// Changes the content as `op` says and signals the change to all
    /// readers. Only the writer of the message does this.
    fn apply(&self, op: CellOp) {
        slot_apply(&self.content_stream, op)
    }

    /// The content as it is at this moment, without waiting.
    pub fn read_current(&self) -> (content: StreamingContent) {
        slot_read(&self.content_stream)
    }

    /// Attaches an independent reader to the content.
    pub fn subscribe(&self) -> (reader: Receiver<StreamingContent>) {
        slot_subscribe(&self.content_stream)
    }

    /// The final text of `content`, taken as the content of this message:
    /// `None` while it is incomplete.
    pub fn settled_text(&self, content: &StreamingContent) -> (text: Option<String>)
        ensures
            text.deep_view() == final_text(content@, self.from_username@, self.from_user_id@),
    {
        if content.is_complete() {
            Some(content.display_text(self.from_username.as_str(), self.from_user_id.as_str()))
        } else {
            None
        }
    }

    /// The final text of this message if its content is complete by now,
    /// `None` if the speaker is still writing.
    pub fn read_content(&self) -> (text: Option<String>) {
        let content = self.read_current();
        self.settled_text(&content)
    }
}

/// The writing end of a reply. The writer keeps a record of its own of
/// what it has written and hands every change on to the slot of its
/// message. Its contracts speak of that record alone. That the slot holds
/// the same is meant, and holds as long as nobody else writes to the slot,
/// but nothing here proves it: the slot is shared, and open to whoever
/// holds the message.
pub struct ContentWriter {
    message: Arc<ChatMessage>,
    content: StreamingContent,
}

impl ContentWriter {
    /// The message whose content this writer writes.
    pub closed spec fn target(&self) -> Arc<ChatMessage> {
        self.message
    }

    /// What has been written so far.
    pub closed spec fn written(&self) -> ContentView {
        self.content@
    }

    /// Announces a reply of `from_user_id`: creates its message, with a
    /// content that is empty and incomplete, and the writer for it.
    pub fn announce(from_user_id: String, from_username: String, role: String) -> (writer:
        ContentWriter)
        ensures
            writer.target()@ == (EnvelopeView {
                from_user_id: from_user_id@,
                from_username: from_username@,
                role: role@,
            }),
            writer.target().first_content() == ContentView::announced(),
            writer.written() == ContentView::announced(),
    {
        ContentWriter {
            message: Arc::new(ChatMessage::announce(from_user_id, from_username, role)),
            content: StreamingContent::announce(),
        }
    }

    /// The message whose content this writer writes.
    pub fn message(&self) -> (message: &Arc<ChatMessage>)
        ensures
            *message == self.target(),
    {
        &self.message
    }

    /// What has been written so far.
    pub fn content(&self) -> (content: &StreamingContent)
        ensures
            content@ == self.written(),
    {
        &self.content
    }

    /// Appends `text` to the content and signals the change to all
    /// readers. A complete content takes no more.
    pub fn publish_chunk(&mut self, text: String)
        ensures
            final(self).written() == old(self).written().publish(text@),
            final(self).target() == old(self).target(),
    {
        self.content.publish_chunk(text.clone());
        self.message.apply(CellOp::Publish(text));
    }

    /// Marks the content as finished and signals the change to all
    /// readers.
    pub fn complete(&mut self)
        ensures
            final(self).written() == old(self).written().completed(),
            final(self).target() == old(self).target(),
    {
        self.content.complete();
        self.message.apply(CellOp::Complete);
    }
}

} // verus!
