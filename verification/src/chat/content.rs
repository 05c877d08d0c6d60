//! The growing text of one reply.
//!
//! A reply is an append-only sequence of chunks and a completion flag. The
//! flag goes from `false` to `true` once and never back; once it is `true`
//! the chunks no longer change.

use crate::text::{concat_all, has_prefix, join_chunks, skip_chars, starts_with};
use vstd::prelude::*;

verus! {

/// What readers see of a reply at one moment.
#[derive(Clone, Debug)]
pub struct StreamingContent {
    pub chunks: Vec<String>,
    pub complete: bool,
}

/// A [`StreamingContent`] as plain values.
pub struct ContentView {
    pub chunks: Seq<Seq<char>>,
    pub complete: bool,
}

/// A change that the writer of a reply asks for.
#[derive(Debug)]
pub enum CellOp {
    /// Append one chunk of text.
    Publish(String),
    /// Mark the reply as finished.
    Complete,
}

/// A [`CellOp`] as plain values.
pub enum CellOpView {
    Publish(Seq<char>),
    Complete,
}

/// What a reader that waits for the end of a reply does next.
#[derive(Clone, Copy, Debug, PartialEq, Eq, Structural)]
pub enum WaitStep {
    /// The reply is complete: its text is final.
    Settled,
    /// The writer is gone and the reply was never completed: what there is
    /// of it is all there will be.
    ChannelClosed,
    /// The reply is still being written: wait for the next change.
    Pending,
}

impl View for StreamingContent {
    type V = ContentView;

    open spec fn view(&self) -> ContentView {
        ContentView { chunks: self.chunks.deep_view(), complete: self.complete }
    }
}

impl View for CellOp {
    type V = CellOpView;

    open spec fn view(&self) -> CellOpView {
        match self {
            CellOp::Publish(text) => CellOpView::Publish(text@),
            CellOp::Complete => CellOpView::Complete,
        }
    }
}

impl ContentView {
    /// The reply that has just been announced: no chunk, not complete.
    pub open spec fn announced() -> ContentView {
        ContentView { chunks: Seq::empty(), complete: false }
    }

    /// The reply after one more chunk. A complete reply takes no more.
    pub open spec fn publish(self, text: Seq<char>) -> ContentView {
        if self.complete {
            self
        } else {
            ContentView { chunks: self.chunks.push(text), complete: false }
        }
    }

    /// The reply once it is marked finished, with the chunks it has.
    pub open spec fn completed(self) -> ContentView {
        ContentView { chunks: self.chunks, complete: true }
    }

    /// The reply after one operation of its writer.
    pub open spec fn apply(self, op: CellOpView) -> ContentView {
        match op {
            CellOpView::Publish(text) => self.publish(text),
            CellOpView::Complete => self.completed(),
        }
    }

    /// The reply after a run of operations, first to last.
    pub open spec fn run(self, ops: Seq<CellOpView>) -> ContentView
        decreases ops.len(),
    {
        if ops.len() == 0 {
            self
        } else {
            self.run(ops.drop_last()).apply(ops.last())
        }
    }

    /// All chunks joined with nothing between them.
    pub open spec fn text(self) -> Seq<char> {
        concat_all(self.chunks)
    }

    /// What a waiting reader does on seeing this state.
    pub open spec fn wait_step(self, writer_alive: bool) -> WaitStep {
        if self.complete {
            WaitStep::Settled
        } else if writer_alive {
            WaitStep::Pending
        } else {
            WaitStep::ChannelClosed
        }
    }
}

/// The text by which a backend may announce a speaker at the start of its
/// output: the display name, the id in `(@..)`, a colon and a space.
pub open spec fn echo_prefix(name: Seq<char>, id: Seq<char>) -> Seq<char> {
    name + seq!['(', '@'] + id + seq![')', ':', ' ']
}

/// `text` without a leading echo of its speaker; unchanged where it does
/// not begin with one.
pub open spec fn strip_echo(text: Seq<char>, name: Seq<char>, id: Seq<char>) -> Seq<char> {
    let prefix = echo_prefix(name, id);
    if has_prefix(text, prefix) {
        text.skip(prefix.len() as int)
    } else {
        text
    }
}

/// Builds the echo with which a speaker may be announced.
pub fn make_echo_prefix(name: &str, id: &str) -> (prefix: String)
    ensures
        prefix@ == echo_prefix(name@, id@),
{
    proof {
        reveal_strlit("(@");
        reveal_strlit("): ");
    }
    let mut prefix = String::from_str(name);
    prefix.append("(@");
    prefix.append(id);
    prefix.append("): ");
    assert("(@"@ =~= seq!['(', '@']);
    assert("): "@ =~= seq![')', ':', ' ']);
    prefix
}

/// Removes a leading echo of the speaker from `text`.
pub fn strip_echo_prefix(text: &str, name: &str, id: &str) -> (stripped: String)
    ensures
        stripped@ == strip_echo(text@, name@, id@),
{
    let prefix = make_echo_prefix(name, id);
    if starts_with(text, prefix.as_str()) {
        skip_chars(text, prefix.as_str().unicode_len())
    } else {
        String::from_str(text)
    }
}

impl StreamingContent {
    /// Creates the content of a reply that is about to start.
    pub fn announce() -> (content: StreamingContent)
        ensures
            content@ == ContentView::announced(),
    {
        let content = StreamingContent { chunks: Vec::new(), complete: false };
        assert(content.chunks.deep_view() =~= Seq::<Seq<char>>::empty());
        content
    }

    /// Creates the content of a message that was written in one piece, such
    /// as a line typed by a human: one chunk, already complete.
    pub fn settled(text: String) -> (content: StreamingContent)
        ensures
            content@ == ContentView::announced().publish(text@).completed(),
    {
        let mut chunks: Vec<String> = Vec::new();
        chunks.push(text);
        let content = StreamingContent { chunks, complete: true };
        assert(content.chunks.deep_view() =~= Seq::<Seq<char>>::empty().push(text@));
        content
    }

    /// Appends one chunk. A complete reply is left as it is.
    pub fn publish_chunk(&mut self, text: String)
        ensures
            final(self)@ == old(self)@.publish(text@),
    {
        if !self.complete {
            self.chunks.push(text);
            assert(self.chunks.deep_view() =~= old(self).chunks.deep_view().push(text@));
        }
    }

    /// Marks the reply as finished.
    pub fn complete(&mut self)
        ensures
            final(self)@ == old(self)@.completed(),
    {
        self.complete = true;
    }

    /// Carries out one operation of the writer.
    pub fn apply(&mut self, op: CellOp)
        ensures
            final(self)@ == old(self)@.apply(op@),
    {
        match op {
            CellOp::Publish(text) => self.publish_chunk(text),
            CellOp::Complete => self.complete(),
        }
    }

    /// Whether the reply is finished.
    pub fn is_complete(&self) -> (complete: bool)
        ensures
            complete == self@.complete,
    {
        self.complete
    }

    /// An independent copy of this state.
    pub fn snapshot(&self) -> (copy: StreamingContent)
        ensures
            copy@ == self@,
    {
        let mut chunks: Vec<String> = Vec::new();
        let mut i: usize = 0;
        while i < self.chunks.len()
            invariant
                i <= self.chunks.len(),
                chunks.deep_view() == self.chunks.deep_view().take(i as int),
            decreases self.chunks.len() - i,
        {
            let ghost before = chunks.deep_view();
            let chunk = self.chunks[i].clone();
            chunks.push(chunk);
            assert(chunks.deep_view() =~= before.push(self.chunks[i as int]@));
            assert(before.push(self.chunks[i as int]@) =~= self.chunks.deep_view().take(i + 1));
            i += 1;
        }
        assert(self.chunks.deep_view().take(self.chunks.len() as int) =~= self.chunks.deep_view());
        StreamingContent { chunks, complete: self.complete }
    }

    /// The text so far: all chunks joined with nothing between them.
    pub fn text(&self) -> (text: String)
        ensures
            text@ == self@.text(),
    {
        join_chunks(&self.chunks)
    }

    /// The text so far as its consumers want it: joined, and without a
    /// leading echo of the speaker `name` with id `id`.
    pub fn display_text(&self, name: &str, id: &str) -> (text: String)
        ensures
            text@ == strip_echo(self@.text(), name@, id@),
    {
        let joined = self.text();
        strip_echo_prefix(joined.as_str(), name, id)
    }

    /// Decides what a reader that waits for the end of the reply does on
    /// seeing this state. `writer_alive` says whether anyone can still write.
    pub fn wait_step(&self, writer_alive: bool) -> (step: WaitStep)
        ensures
            step == self@.wait_step(writer_alive),
    {
        if self.complete {
            WaitStep::Settled
        } else if writer_alive {
            WaitStep::Pending
        } else {
            WaitStep::ChannelClosed
        }
    }
}

/// Once a reply is complete, nothing its writer does changes it: whatever
/// operations follow, readers see the same chunks and the same flag.
pub proof fn lemma_complete_is_final(content: ContentView, ops: Seq<CellOpView>)
    requires
        content.complete,
    ensures
        content.run(ops) == content,
    decreases ops.len(),
{
    if ops.len() > 0 {
        lemma_complete_is_final(content, ops.drop_last());
    }
}

/// A reply only grows: after any run of operations the chunks that were
/// there are still there, in place, and a set completion flag is still set.
pub proof fn lemma_content_is_monotonic(content: ContentView, ops: Seq<CellOpView>)
    ensures
        content.chunks.len() <= content.run(ops).chunks.len(),
        content.run(ops).chunks.take(content.chunks.len() as int) == content.chunks,
        content.complete ==> content.run(ops).complete,
    decreases ops.len(),
{
    if ops.len() == 0 {
        assert(content.chunks.take(content.chunks.len() as int) =~= content.chunks);
    } else {
        lemma_content_is_monotonic(content, ops.drop_last());
        let before = content.run(ops.drop_last());
        let after = content.run(ops);
        assert(after.chunks.take(content.chunks.len() as int) =~= before.chunks.take(
            content.chunks.len() as int,
        ));
    }
}

/// Reading after completion gives the same final chunks however many
/// chunks were published before it and whatever the writer tries after it.
pub proof fn lemma_read_after_complete_is_stable(
    before: Seq<CellOpView>,
    after: Seq<CellOpView>,
)
    ensures
        ContentView::announced().run(before).completed().run(after)
            == ContentView::announced().run(before).completed(),
        ContentView::announced().run(before).completed().run(after).text()
            == ContentView::announced().run(before).text(),
{
    lemma_complete_is_final(ContentView::announced().run(before).completed(), after);
}

/// A reader that waits is released by completion alone: it settles as soon
/// as the reply is marked finished, with no chunk at all if none was
/// published, and it never settles before that while the writer lives.
pub proof fn lemma_wait_settles_on_completion(content: ContentView, writer_alive: bool)
    ensures
        content.completed().wait_step(writer_alive) == WaitStep::Settled,
        ContentView::announced().completed().wait_step(writer_alive) == WaitStep::Settled,
        ContentView::announced().completed().text() == Seq::<char>::empty(),
        content.wait_step(writer_alive) == WaitStep::Settled <==> content.complete,
{
}

/// Stripping leaves a text that does not begin with the echo unchanged.
pub proof fn lemma_strip_echo_without_echo(text: Seq<char>, name: Seq<char>, id: Seq<char>)
    requires
        !has_prefix(text, echo_prefix(name, id)),
    ensures
        strip_echo(text, name, id) == text,
{
}

/// Stripping twice is stripping once, wherever what is left after the first
/// pass does not itself begin with the echo.
pub proof fn lemma_strip_echo_idempotent(text: Seq<char>, name: Seq<char>, id: Seq<char>)
    requires
        !has_prefix(strip_echo(text, name, id), echo_prefix(name, id)),
    ensures
        strip_echo(strip_echo(text, name, id), name, id) == strip_echo(text, name, id),
{
}

/// Stripping removes exactly the echo: a text made of the echo and a rest
/// comes back as the rest.
pub proof fn lemma_strip_echo_removes_echo(rest: Seq<char>, name: Seq<char>, id: Seq<char>)
    ensures
        strip_echo(echo_prefix(name, id) + rest, name, id) == rest,
{
    let prefix = echo_prefix(name, id);
    let text = prefix + rest;
    assert(text.subrange(0, prefix.len() as int) =~= prefix);
    assert(text.skip(prefix.len() as int) =~= rest);
}

} // verus!
