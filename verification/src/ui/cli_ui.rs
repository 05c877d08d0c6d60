//! The terminal front end without the terminal: what is on the screen, how
//! it scrolls, and what a line typed by the human becomes.

use crate::chat::content::{ContentView, StreamingContent};
use crate::chat::message::{ChatMessage, EnvelopeView, ErrorMessage, Message};
use crate::chat::room::{ReceiveError, Room, RoomError};
use crate::llm::ROLE_USER;
use crate::text::{is_blank, lines, lines_of, trimmed};
use std::sync::Arc;
use vstd::prelude::*;

verus! {

/// How far one press of an arrow key scrolls.
pub const LINE_STEP: usize = 1;

/// How far one press of a page key scrolls.
pub const PAGE_STEP: usize = 10;

/// The human at the terminal and the room they talk in.
pub struct CliUI {
    pub room: Arc<Room>,
    pub user_id: Arc<String>,
    pub username: Arc<String>,
}

/// A key that scrolls the messages.
#[derive(Clone, Copy, Debug, PartialEq, Eq, Structural)]
pub enum ScrollKey {
    Up,
    Down,
    PageUp,
    PageDown,
}

/// What draining the subscription does after one event.
#[derive(Clone, Copy, Debug, PartialEq, Eq, Structural)]
pub enum Drain {
    /// The event is on the screen; take the next one.
    More,
    /// Nothing more for now: draw, and come back later.
    Done,
    /// The room is gone: leave, and say so.
    Closed,
}

/// One line of the message area.
#[derive(Debug, PartialEq, Eq)]
pub enum ViewLine {
    /// Who speaks: the name and the id as `name(@id)`. A colon and a space
    /// follow it on the screen.
    Speaker(String),
    /// One line of what was said.
    Text(String),
    /// The empty line after a message.
    Blank,
}

/// A [`ViewLine`] as plain values.
pub enum ViewLineView {
    Speaker(Seq<char>),
    Text(Seq<char>),
    Blank,
}

impl View for ViewLine {
    type V = ViewLineView;

    open spec fn view(&self) -> ViewLineView {
        match self {
            ViewLine::Speaker(label) => ViewLineView::Speaker(label@),
            ViewLine::Text(text) => ViewLineView::Text(text@),
            ViewLine::Blank => ViewLineView::Blank,
        }
    }
}

impl DeepView for ViewLine {
    type V = ViewLineView;

    open spec fn deep_view(&self) -> ViewLineView {
        self@
    }
}

/// What the terminal shows: the messages and the errors received so far,
/// and how far the messages are scrolled.
pub struct Screen {
    pub messages: Vec<Arc<ChatMessage>>,
    pub errors: Vec<Arc<ErrorMessage>>,
    pub vertical_scroll: usize,
}

/// The label of a speaker: the name, then the id in `(@..)`.
pub open spec fn speaker_label(envelope: EnvelopeView) -> Seq<char> {
    envelope.from_username + seq!['(', '@'] + envelope.from_user_id + seq![')']
}

/// The lines that show one message whose content reads `content`: the
/// speaker, the lines of the text so far, and an empty line.
pub open spec fn message_view(envelope: EnvelopeView, content: ContentView) -> Seq<ViewLineView> {
    seq![ViewLineView::Speaker(speaker_label(envelope))] + lines_of(content.text()).map_values(
        |line: Seq<char>| ViewLineView::Text(line),
    ) + seq![ViewLineView::Blank]
}

/// The scroll position that shows the last page of `total_lines` lines in
/// a window of `visible_height` lines.
pub open spec fn max_scroll(total_lines: int, visible_height: int) -> int {
    if total_lines > visible_height {
        total_lines - visible_height
    } else {
        0
    }
}

/// Where a scroll key leads from `position`: up and down by a line or a
/// page, never below zero and never beyond what the machine can count.
pub open spec fn scrolled(position: int, key: ScrollKey) -> int {
    match key {
        ScrollKey::Up => if position >= LINE_STEP {
            position - LINE_STEP
        } else {
            0
        },
        ScrollKey::PageUp => if position >= PAGE_STEP {
            position - PAGE_STEP
        } else {
            0
        },
        ScrollKey::Down => if position + LINE_STEP <= usize::MAX {
            position + LINE_STEP
        } else {
            usize::MAX as int
        },
        ScrollKey::PageDown => if position + PAGE_STEP <= usize::MAX {
            position + PAGE_STEP
        } else {
            usize::MAX as int
        },
    }
}

/// Renders one message whose content reads `content`.
pub fn message_lines(msg: &ChatMessage, content: &StreamingContent) -> (out: Vec<ViewLine>)
    ensures
        out.deep_view() == message_view(msg@, content@),
{
    proof {
        reveal_strlit("(@");
        reveal_strlit(")");
        assert("(@"@ =~= seq!['(', '@']);
        assert(")"@ =~= seq![')']);
    }
    let mut label = msg.from_username.clone();
    label.append("(@");
    label.append(msg.from_user_id.as_str());
    label.append(")");
    let mut out: Vec<ViewLine> = Vec::new();
    out.push(ViewLine::Speaker(label));
    let text = content.text();
    let body = lines(text.as_str());
    let ghost head = seq![ViewLineView::Speaker(speaker_label(msg@))];
    let ghost texts = lines_of(content@.text()).map_values(
        |line: Seq<char>| ViewLineView::Text(line),
    );
    assert(out.deep_view() =~= head + texts.take(0));
    let mut i: usize = 0;
    while i < body.len()
        invariant
            i <= body.len(),
            body.deep_view() == lines_of(content@.text()),
            texts == lines_of(content@.text()).map_values(
                |line: Seq<char>| ViewLineView::Text(line),
            ),
            out.deep_view() == head + texts.take(i as int),
        decreases body.len() - i,
    {
        let ghost before = out.deep_view();
        let line = ViewLine::Text(body[i].clone());
        assert(line@ == texts[i as int]);
        out.push(line);
        assert(out.deep_view() =~= before.push(texts[i as int]));
        assert(before.push(texts[i as int]) =~= head + texts.take(i + 1));
        i += 1;
    }
    let ghost before = out.deep_view();
    out.push(ViewLine::Blank);
    assert(out.deep_view() =~= before.push(ViewLineView::Blank));
    assert(texts.take(body.len() as int) =~= texts);
    assert(before.push(ViewLineView::Blank) =~= message_view(msg@, content@));
    out
}

impl CliUI {
    /// Seats the human `username`, known to the room as `user_id`.
    pub fn new(room: Arc<Room>, user_id: Arc<String>, username: Arc<String>) -> (ui: CliUI)
        ensures
            ui.room == room,
            ui.user_id == user_id,
            ui.username == username,
    {
        CliUI { room, user_id, username }
    }

    /// Turns what the human typed into a message: one chunk, already
    /// complete, in the role of the user. Input that holds nothing but
    /// white space makes no message.
    pub fn compose(&self, input: &str) -> (msg: Option<ChatMessage>)
        ensures
            match msg {
                Some(m) => {
                    &&& trimmed(input@).len() > 0
                    &&& m@ == (EnvelopeView {
                        from_user_id: self.user_id@,
                        from_username: self.username@,
                        role: ROLE_USER@,
                    })
                    &&& m.first_content() == ContentView::announced().publish(input@).completed()
                },
                None => trimmed(input@).len() == 0,
            },
    {
        if is_blank(input) {
            None
        } else {
            Some(
                ChatMessage::from_text(
                    String::from_str(self.user_id.as_str()),
                    String::from_str(self.username.as_str()),
                    String::from_str(ROLE_USER),
                    String::from_str(input),
                ),
            )
        }
    }

    /// Sends what the human typed to the room. `Ok(true)` says that a
    /// message went out, `Ok(false)` that the input was blank and nothing
    /// was sent.
    pub fn submit(&self, input: &str) -> (sent: Result<bool, RoomError>)
        ensures
            trimmed(input@).len() == 0 ==> sent == Ok::<bool, RoomError>(false),
            trimmed(input@).len() > 0 ==> sent == Ok::<bool, RoomError>(true) || sent == Err::<
                bool,
                RoomError,
            >(RoomError::NoSubscribers),
    {
        match self.compose(input) {
            Some(msg) => match self.room.send_chat(Arc::new(msg)) {
                Ok(_) => Ok(true),
                Err(e) => Err(e),
            },
            None => Ok(false),
        }
    }
}

impl Screen {
    /// The empty screen, scrolled to the top.
    pub fn new() -> (screen: Screen)
        ensures
            screen.messages@.len() == 0,
            screen.errors@.len() == 0,
            screen.vertical_scroll == 0,
    {
        Screen { messages: Vec::new(), errors: Vec::new(), vertical_scroll: 0 }
    }

    /// Puts one event of the room on the screen. A chat message joins the
    /// messages and moves the view to the bottom; an error notice joins
    /// the errors. An empty subscription and a lag end the draining for
    /// now; the end of the room ends it for good.
    pub fn on_event(&mut self, event: Result<Message, ReceiveError>) -> (drain: Drain)
        ensures
            match event {
                Ok(Message::Chat(chat)) => {
                    &&& final(self).messages@ == old(self).messages@.push(chat)
                    &&& final(self).errors == old(self).errors
                    &&& final(self).vertical_scroll == usize::MAX
                    &&& drain == Drain::More
                },
                Ok(Message::Error(notice)) => {
                    &&& final(self).messages == old(self).messages
                    &&& final(self).errors@ == old(self).errors@.push(notice)
                    &&& final(self).vertical_scroll == old(self).vertical_scroll
                    &&& drain == Drain::More
                },
                Err(e) => {
                    &&& *final(self) == *old(self)
                    &&& drain == if e == ReceiveError::Closed {
                        Drain::Closed
                    } else {
                        Drain::Done
                    }
                },
            },
    {
        match event {
            Ok(Message::Chat(chat)) => {
                self.messages.push(chat);
                self.follow();
                Drain::More
            },
            Ok(Message::Error(notice)) => {
                self.errors.push(notice);
                Drain::More
            },
            Err(ReceiveError::Closed) => Drain::Closed,
            Err(_) => Drain::Done,
        }
    }

    /// Moves the view to the bottom, as when new text has arrived. The
    /// position is cut down to the last page when the screen is drawn.
    pub fn follow(&mut self)
        ensures
            final(self).vertical_scroll == usize::MAX,
            final(self).messages == old(self).messages,
            final(self).errors == old(self).errors,
    {
        self.vertical_scroll = usize::MAX;
    }

    /// Scrolls as `key` asks.
    pub fn on_key(&mut self, key: ScrollKey)
        ensures
            final(self).vertical_scroll == scrolled(old(self).vertical_scroll as int, key),
            final(self).messages == old(self).messages,
            final(self).errors == old(self).errors,
    {
        self.vertical_scroll = match key {
            ScrollKey::Up => self.vertical_scroll.saturating_sub(LINE_STEP),
            ScrollKey::PageUp => self.vertical_scroll.saturating_sub(PAGE_STEP),
            ScrollKey::Down => self.vertical_scroll.saturating_add(LINE_STEP),
            ScrollKey::PageDown => self.vertical_scroll.saturating_add(PAGE_STEP),
        };
    }

    /// Cuts the scroll position down to the last page of `total_lines`
    /// lines in a window of `visible_height` lines, and gives it back.
    pub fn clamp(&mut self, total_lines: usize, visible_height: usize) -> (position: usize)
        ensures
            position == final(self).vertical_scroll,
            position == if old(self).vertical_scroll > max_scroll(
                total_lines as int,
                visible_height as int,
            ) {
                max_scroll(total_lines as int, visible_height as int)
            } else {
                old(self).vertical_scroll as int
            },
            final(self).messages == old(self).messages,
            final(self).errors == old(self).errors,
    {
        let last_page: usize = total_lines.saturating_sub(visible_height);
        if self.vertical_scroll > last_page {
            self.vertical_scroll = last_page;
        }
        self.vertical_scroll
    }
}

} // verus!
