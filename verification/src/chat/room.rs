//! The room: one broadcast hub with a fixed roster of personas.
//!
//! Every message published to the room is handed to every subscriber that
//! existed at the time, in the order of publication. A subscriber that
//! falls too far behind loses the oldest messages, is told how many, and
//! goes on from the oldest one still kept; a publisher never waits.

use crate::chat::message::{ChatMessage, ErrorMessage, Message};
use crate::model::profile::{Profile, ProfileView};
use crate::text::same_text;
use std::sync::Arc;
use tokio::sync::broadcast::error::TryRecvError;
use tokio::sync::broadcast::{Receiver, Sender};
use vstd::arithmetic::div_mod::{
    lemma_add_mod_noop_right, lemma_fundamental_div_mod, lemma_mod_multiples_vanish,
    lemma_small_mod,
};
use vstd::prelude::*;

verus! {

/// `tokio::sync::broadcast::Sender`, the publishing end of a broadcast
/// channel. Nothing inside it is visible here.
#[verifier::external_type_specification]
#[verifier::external_body]
#[verifier::reject_recursive_types(T)]
pub struct ExBroadcastSender<T>(Sender<T>);

/// `tokio::sync::broadcast::Receiver`, one subscription to a broadcast
/// channel. Nothing inside it is visible here.
#[verifier::external_type_specification]
#[verifier::external_body]
#[verifier::reject_recursive_types(T)]
pub struct ExBroadcastReceiver<T>(Receiver<T>);

/// The largest capacity a room can be opened with.
pub const MAX_CHANNEL_SIZE: usize = usize::MAX / 2;

/// Why a message could not be published.
#[derive(Clone, Copy, Debug, PartialEq, Eq, Structural)]
pub enum RoomError {
    /// Nobody is subscribed: the message could never be received.
    NoSubscribers,
}

/// Why a subscriber got no message.
#[derive(Clone, Copy, Debug, PartialEq, Eq, Structural)]
pub enum ReceiveError {
    /// Nothing is waiting for this subscriber right now.
    Empty,
    /// This subscriber fell behind and lost that many of its oldest
    /// messages. It goes on with the oldest message still kept.
    Lagged(u64),
    /// Every publisher is gone and the backlog is drained.
    Closed,
}

/// The broadcast hub of one chat session and the personas that take part.
pub struct Room {
    pub profiles: Vec<Arc<Profile>>,
    sender: Sender<Message>,
    /// How many undelivered messages the room keeps for a subscriber.
    channel_size: usize,
}

/// How many subscribers a hub had at the moment it was handed out on its
/// opening. How many it has later is the hub's own state, changes behind
/// every handle, and has no name.
pub uninterp spec fn hub_opening_subscribers(sender: Sender<Message>) -> nat;

/// Opens a hub whose ring has room for at least `capacity` messages, by
/// `tokio::sync::broadcast::channel`, and drops the receiver that comes
/// with it, which was the hub's only one: the hub is handed out with no
/// subscriber. The call panics on a capacity of zero or above
/// `usize::MAX / 2`, which `requires` leaves out.
#[verifier::external_body]
fn hub_open(capacity: usize) -> (sender: Sender<Message>)
    requires
        0 < capacity <= MAX_CHANNEL_SIZE,
    ensures
        hub_opening_subscribers(sender) == 0,
{
    tokio::sync::broadcast::channel(capacity).0
}

/// Hands `msg` to every current subscriber, by
/// `tokio::sync::broadcast::Sender::send`. `Some(n)` says that `n`
/// subscribers existed at that moment, and then there was at least one;
/// `None` says that there was none and the message is dropped. Which of the
/// two happens depends on the other holders of the hub.
#[verifier::external_body]
fn hub_send(sender: &Sender<Message>, msg: Message) -> (receivers: Option<usize>)
    ensures
        receivers matches Some(n) ==> n >= 1,
{
    sender.send(msg).ok()
}

/// Attaches a new subscriber that starts at the next message to be
/// published, by `tokio::sync::broadcast::Sender::subscribe`. Nothing is
/// claimed of the subscriber. (The call panics only once a quarter of all
/// the numbers a `usize` can hold are subscribed at the same time, which
/// no memory allows.)
#[verifier::external_body]
fn hub_subscribe(sender: &Sender<Message>) -> (receiver: Receiver<Message>) {
    sender.subscribe()
}

/// The position of a subscription: the number, counted from the opening of
/// the hub and wrapping round at the end of `u64`, of the next message it
/// will take. It is the subscription's own; which messages the hub still
/// holds at and after it is not a property of the handle and has no name.
pub uninterp spec fn subscription_position(receiver: Receiver<Message>) -> u64;

/// The position `by` messages after `position`, wrapping round at the end
/// of `u64`.
pub open spec fn advanced(position: u64, by: u64) -> u64 {
    ((position + by) % 0x1_0000_0000_0000_0000) as u64
}

/// How a subscription moves with what it is handed: by one past a message,
/// by the count of a lag past the messages it lost, and not at all where
/// nothing was waiting. Where the hub is closed it stays or, if the
/// message at its position has just been let go, moves past it.
pub open spec fn moved(before: u64, handed: Result<Message, ReceiveError>, after: u64) -> bool {
    match handed {
        Ok(_) => after == advanced(before, 1),
        Err(ReceiveError::Empty) => after == before,
        Err(ReceiveError::Lagged(n)) => n > 0 && after == advanced(before, n),
        Err(ReceiveError::Closed) => after == before || after == advanced(before, 1),
    }
}

/// Takes the next message for this subscriber if one is waiting, by
/// `tokio::sync::broadcast::Receiver::try_recv`. The call moves the cursor
/// of the receiver as [`moved`] says: one on with every message handed out,
/// on by the reported count with a lag, which is never zero, and not at
/// all on an empty backlog. Which of these happens depends on what the
/// other holders of the hub have published.
#[verifier::external_body]
fn hub_try_recv(receiver: &mut Receiver<Message>) -> (next: Result<Message, ReceiveError>)
    ensures
        moved(
            subscription_position(*old(receiver)),
            next,
            subscription_position(*final(receiver)),
        ),
{
    match receiver.try_recv() {
        Ok(msg) => Ok(msg),
        Err(TryRecvError::Empty) => Err(ReceiveError::Empty),
        Err(TryRecvError::Lagged(n)) => Err(ReceiveError::Lagged(n)),
        Err(TryRecvError::Closed) => Err(ReceiveError::Closed),
    }
}

/// Counts the messages that were published and that this subscriber has
/// not taken yet, those that the hub no longer holds for it included, by
/// `tokio::sync::broadcast::Receiver::len`. Nothing is claimed of the
/// count: it depends on what the other holders of the hub have published.
/// (The call can fail only after the hub's own count of messages has
/// wrapped round at the end of `u64`.)
#[verifier::external_body]
fn hub_len(receiver: &Receiver<Message>) -> (backlog: usize) {
    receiver.len()
}

/// How many of its oldest undelivered messages a subscriber loses that is
/// `backlog` messages behind, where `retention` are kept for it: all that
/// go beyond `retention`.
pub open spec fn overdue(backlog: nat, retention: nat) -> nat {
    if backlog > retention {
        (backlog - retention) as nat
    } else {
        0
    }
}

/// How a subscription of a room moves with what the room hands it: by one
/// past a message, by the count of a lag past the messages it lost, and
/// not at all where nothing was waiting. Where the room is closed the
/// subscription is at its end, and where it stands is left open.
pub open spec fn taken(before: u64, handed: Result<Message, ReceiveError>, after: u64) -> bool {
    match handed {
        Ok(_) => after == advanced(before, 1),
        Err(ReceiveError::Empty) => after == before,
        Err(ReceiveError::Lagged(n)) => n > 0 && after == advanced(before, n),
        Err(ReceiveError::Closed) => true,
    }
}

/// Moving on by `first` and then by `then` is moving on by both.
proof fn lemma_advanced_twice(position: u64, first: u64, then: u64)
    ensures
        advanced(advanced(position, first), then) == advanced(position, advanced(first, then)),
{
    let m = 0x1_0000_0000_0000_0000int;
    lemma_add_mod_noop_right(then as int, position + first, m);
    lemma_add_mod_noop_right(position as int, first + then, m);
    assert((then + (position + first) % m) % m == (then + (position + first)) % m);
    assert((position + (first + then) % m) % m == (position + (first + then)) % m);
    assert(then + (position + first) == position + (first + then));
    assert((position + first) % m + then == then + (position + first) % m);
}

/// Adds two counts of messages, wrapping round at the end of `u64`.
fn add_wrapping(a: u64, b: u64) -> (sum: u64)
    ensures
        sum == advanced(a, b),
{
    if b <= u64::MAX - a {
        proof {
            lemma_small_mod((a + b) as nat, 0x1_0000_0000_0000_0000);
        }
        a + b
    } else {
        proof {
            let m = 0x1_0000_0000_0000_0000int;
            lemma_mod_multiples_vanish(1, a + b - m, m);
            lemma_small_mod((a + b - m) as nat, m as nat);
        }
        b - (u64::MAX - a) - 1
    }
}

/// A run of one subscription: `at` holds the positions it stood at, from
/// the first to the last, and `handed` what it was handed between them,
/// each step moving it as [`taken`] says.
pub open spec fn is_run(at: Seq<u64>, handed: Seq<Result<Message, ReceiveError>>) -> bool {
    &&& at.len() == handed.len() + 1
    &&& forall|i: int| 0 <= i < handed.len() ==> taken(at[i], #[trigger] handed[i], at[i + 1])
}

/// How many messages lie between two positions that follow each other.
pub open spec fn step_length(before: u64, after: u64) -> nat {
    ((after - before) % 0x1_0000_0000_0000_0000) as nat
}

/// How many messages a subscription has gone past in the first `steps`
/// steps of a run: those it was handed and those it lost.
pub open spec fn travelled(at: Seq<u64>, steps: int) -> nat
    decreases steps,
{
    if steps <= 0 {
        0
    } else {
        travelled(at, steps - 1) + step_length(at[steps - 1], at[steps])
    }
}

/// Moving on from `from` by the messages that lie between `from` and `to`
/// leads to `to`, wherever the count began.
proof fn lemma_step_arrives(origin: int, gone: int, from: int, to: int)
    requires
        0 <= from < 0x1_0000_0000_0000_0000,
        0 <= to < 0x1_0000_0000_0000_0000,
        from == (origin + gone) % 0x1_0000_0000_0000_0000,
    ensures
        to == (origin + gone + (to - from) % 0x1_0000_0000_0000_0000) % 0x1_0000_0000_0000_0000,
{
    let m = 0x1_0000_0000_0000_0000int;
    let laps = (origin + gone) / m;
    lemma_fundamental_div_mod(origin + gone, m);
    lemma_add_mod_noop_right(origin + gone, to - from, m);
    assert(origin + gone + (to - from) == m * laps + to);
    lemma_mod_multiples_vanish(laps, to, m);
    lemma_small_mod(to as nat, m as nat);
}

/// Two counts that differ by less than `u64` has numbers lead to different
/// positions.
proof fn lemma_positions_differ(origin: int, less: int, more: int)
    requires
        0 <= less < more < 0x1_0000_0000_0000_0000,
    ensures
        (origin + less) % 0x1_0000_0000_0000_0000 != (origin + more) % 0x1_0000_0000_0000_0000,
{
    let m = 0x1_0000_0000_0000_0000int;
    lemma_fundamental_div_mod(origin + less, m);
    lemma_fundamental_div_mod(origin + more, m);
    let low = (origin + less) / m;
    let high = (origin + more) / m;
    if (origin + less) % m == (origin + more) % m {
        assert(more - less == m * high - m * low);
        assert(m * high - m * low == m * (high - low)) by (nonlinear_arith);
        assert(false) by (nonlinear_arith)
            requires
                0 < more - less < m,
                more - less == m * (high - low),
                m > 0,
        {
            if high - low <= 0 {
                assert(m * (high - low) <= 0);
            } else {
                assert(m * (high - low) >= m);
            }
        }
    }
}

/// In a run, the position after `steps` steps is the first position moved
/// on by all that was gone past, wrapping round at the end of `u64`.
proof fn lemma_position_after(at: Seq<u64>, steps: int)
    requires
        0 <= steps < at.len(),
    ensures
        at[steps] == (at[0] + travelled(at, steps)) % 0x1_0000_0000_0000_0000,
    decreases steps,
{
    if steps > 0 {
        lemma_position_after(at, steps - 1);
        lemma_step_arrives(
            at[0] as int,
            travelled(at, steps - 1) as int,
            at[steps - 1] as int,
            at[steps] as int,
        );
    } else {
        lemma_small_mod(at[0] as nat, 0x1_0000_0000_0000_0000);
    }
}

/// What a subscription has gone past never shrinks as its run goes on.
proof fn lemma_travelled_grows(at: Seq<u64>, earlier: int, later: int)
    requires
        0 <= earlier <= later,
    ensures
        travelled(at, earlier) <= travelled(at, later),
    decreases later - earlier,
{
    if earlier < later {
        lemma_travelled_grows(at, earlier, later - 1);
    }
}

/// No subscriber is handed a message twice, nor one out of order: in a run
/// of a subscription, each message is taken at a position that lies after
/// the positions of all messages taken before it, whatever lags came
/// between them. This holds as long as the subscription has gone past
/// fewer messages than `u64` has numbers, where the positions begin anew.
/// (That the message at a position is the one that was published there is
/// the hub's part and is not stated here.)
pub proof fn lemma_no_position_is_taken_twice(
    at: Seq<u64>,
    handed: Seq<Result<Message, ReceiveError>>,
    first: int,
    second: int,
)
    requires
        is_run(at, handed),
        travelled(at, handed.len() as int) < 0x1_0000_0000_0000_0000,
        0 <= first < second < handed.len(),
        handed[first] is Ok,
        handed[second] is Ok,
    ensures
        at[first] != at[second],
        travelled(at, first) < travelled(at, second),
        at[first] == (at[0] + travelled(at, first)) % 0x1_0000_0000_0000_0000,
        at[second] == (at[0] + travelled(at, second)) % 0x1_0000_0000_0000_0000,
{
    lemma_position_after(at, first);
    lemma_position_after(at, second);
    assert(taken(at[first], handed[first], at[first + 1]));
    lemma_one_step(at[first], at[first + 1]);
    assert(travelled(at, first + 1) == travelled(at, first) + 1);
    lemma_travelled_grows(at, first + 1, second);
    lemma_travelled_grows(at, second, handed.len() as int);
    lemma_positions_differ(
        at[0] as int,
        travelled(at, first) as int,
        travelled(at, second) as int,
    );
}

/// The step past one message has length one.
proof fn lemma_one_step(before: u64, after: u64)
    requires
        after == advanced(before, 1),
    ensures
        step_length(before, after) == 1,
{
    let m = 0x1_0000_0000_0000_0000int;
    if before + 1 < m {
        lemma_small_mod((before + 1) as nat, m as nat);
        lemma_small_mod(1, m as nat);
    } else {
        lemma_mod_multiples_vanish(1, 0, m);
        lemma_small_mod(0, m as nat);
        assert(after == 0);
        lemma_mod_multiples_vanish(-1, 1, m);
        lemma_small_mod(1, m as nat);
        assert(after - before == m * (-1) + 1);
    }
}

/// A subscriber that lagged goes on from further ahead: after a lag of `n`
/// the subscription stands exactly `n` positions on, and `n` is never
/// zero.
pub proof fn lemma_lag_skips_ahead(before: u64, n: u64, after: u64)
    requires
        taken(before, Err(ReceiveError::Lagged(n)), after),
    ensures
        n > 0,
        step_length(before, after) == n,
{
    let m = 0x1_0000_0000_0000_0000int;
    lemma_small_mod(n as nat, m as nat);
    if before + n < m {
        lemma_small_mod((before + n) as nat, m as nat);
    } else {
        lemma_mod_multiples_vanish(1, before + n - m, m);
        lemma_small_mod((before + n - m) as nat, m as nat);
        assert(after == before + n - m);
        lemma_mod_multiples_vanish(-1, n as int, m);
        assert(after - before == m * (-1) + n);
    }
}

/// The position of the first profile with id `id` in `roster`, if any.
pub open spec fn position_of(roster: Seq<ProfileView>, id: Seq<char>) -> Option<int>
    decreases roster.len(),
{
    if roster.len() == 0 {
        None
    } else if position_of(roster.drop_last(), id) is Some {
        position_of(roster.drop_last(), id)
    } else if roster.last().id == id {
        Some(roster.len() - 1)
    } else {
        None
    }
}

/// [`position_of`] finds the first match: the position it gives holds the
/// id and no earlier one does; it gives none only if no position holds it.
pub proof fn lemma_position_of(roster: Seq<ProfileView>, id: Seq<char>)
    ensures
        match position_of(roster, id) {
            Some(i) => 0 <= i < roster.len() && roster[i].id == id && forall|j: int|
                0 <= j < i ==> roster[j].id != id,
            None => forall|j: int| 0 <= j < roster.len() ==> roster[j].id != id,
        },
    decreases roster.len(),
{
    if roster.len() > 0 {
        let front = roster.drop_last();
        lemma_position_of(front, id);
        assert(forall|j: int| 0 <= j < front.len() ==> front[j] == roster[j]);
    }
}

impl Room {
    /// The roster as plain values.
    pub closed spec fn roster(&self) -> Seq<ProfileView> {
        self.profiles.deep_view()
    }

    /// How many undelivered messages the room keeps for a subscriber: one
    /// that is further behind loses its oldest.
    pub closed spec fn retention(&self) -> usize {
        self.channel_size
    }

    /// How many subscribers the room had when it was opened. (How many it
    /// has at a later moment is the hub's own state and has no name.)
    pub closed spec fn opening_subscribers(&self) -> nat {
        hub_opening_subscribers(self.sender)
    }

    /// Opens a room for `profiles` that keeps `channel_size` undelivered
    /// messages for each subscriber. The room opens with nobody subscribed.
    pub fn new(channel_size: usize, profiles: Vec<Arc<Profile>>) -> (room: Room)
        requires
            0 < channel_size <= MAX_CHANNEL_SIZE,
        ensures
            room.roster() == profiles.deep_view(),
            room.retention() == channel_size,
            room.opening_subscribers() == 0,
    {
        Room { profiles, sender: hub_open(channel_size), channel_size }
    }

    /// How many undelivered messages the room keeps for a subscriber.
    pub fn channel_size(&self) -> (kept: usize)
        ensures
            kept == self.retention(),
    {
        self.channel_size
    }

    /// Publishes a chat message to all current subscribers. It fails only
    /// where there is none; see [`Room::published`].
    pub fn send_chat(&self, msg: Arc<ChatMessage>) -> (sent: Result<(), RoomError>) {
        Room::published(hub_send(&self.sender, Message::Chat(msg)))
    }

    /// Publishes an error notice to all current subscribers. It fails only
    /// where there is none; see [`Room::published`].
    pub fn send_error(&self, msg: Arc<ErrorMessage>) -> (sent: Result<(), RoomError>) {
        Room::published(hub_send(&self.sender, Message::Error(msg)))
    }

    /// What a publisher is told, given how many subscribers the hub
    /// reported: success if it reported any, else `NoSubscribers`.
    pub fn published(receivers: Option<usize>) -> (sent: Result<(), RoomError>)
        ensures
            sent == match receivers {
                Some(_) => Ok::<(), RoomError>(()),
                None => Err::<(), RoomError>(RoomError::NoSubscribers),
            },
    {
        match receivers {
            Some(_) => Ok(()),
            None => Err(RoomError::NoSubscribers),
        }
    }

    /// Attaches a new subscriber. It starts at "now": it gets what is
    /// published after this call and nothing from before.
    pub fn subscribe(&self) -> (receiver: Receiver<Message>) {
        hub_subscribe(&self.sender)
    }

    /// How many of its oldest undelivered messages a subscriber loses that
    /// is `backlog` messages behind where `retention` are kept: none as
    /// long as it is not further behind than that, and else all that go
    /// beyond.
    pub fn excess(backlog: usize, retention: usize) -> (lost: usize)
        ensures
            lost == overdue(backlog as nat, retention as nat),
    {
        if backlog > retention {
            backlog - retention
        } else {
            0
        }
    }

    /// Moves a subscriber that is `backlog` messages behind on past the
    /// messages it loses where `retention` are kept, and says how far it
    /// moved: `Some` of the count of messages gone past, or `None` where
    /// the hub turned out to be closed on the way. A subscriber that is no
    /// more than `retention` behind is left where it is.
    pub fn skip_overdue(receiver: &mut Receiver<Message>, backlog: usize, retention: usize) -> (gone:
        Option<u64>)
        ensures
            gone matches Some(n) ==> subscription_position(*final(receiver)) == advanced(
                subscription_position(*old(receiver)),
                n,
            ),
            backlog <= retention ==> gone == Some(0u64) && *final(receiver) == *old(receiver),
    {
        let mut remaining: usize = Room::excess(backlog, retention);
        let mut gone: u64 = 0;
        proof {
            lemma_small_mod(subscription_position(*receiver) as nat, 0x1_0000_0000_0000_0000);
        }
        while remaining > 0
            invariant
                subscription_position(*receiver) == advanced(
                    subscription_position(*old(receiver)),
                    gone,
                ),
                backlog <= retention ==> *receiver == *old(receiver) && gone == 0,
                backlog <= retention ==> remaining == 0,
            decreases remaining,
        {
            let ghost here = subscription_position(*receiver);
            let ghost start = subscription_position(*old(receiver));
            match hub_try_recv(receiver) {
                Ok(_) => {
                    proof {
                        lemma_advanced_twice(start, gone, 1);
                    }
                    gone = add_wrapping(gone, 1);
                    remaining = remaining - 1;
                },
                Err(ReceiveError::Lagged(n)) => {
                    proof {
                        lemma_advanced_twice(start, gone, n);
                    }
                    gone = add_wrapping(gone, n);
                    if n >= remaining as u64 {
                        remaining = 0;
                    } else {
                        remaining = remaining - n as usize;
                    }
                },
                Err(ReceiveError::Empty) => {
                    remaining = 0;
                },
                Err(ReceiveError::Closed) => {
                    return None;
                },
            }
        }
        Some(gone)
    }

    /// What a subscriber is told after it was moved on past what it lost:
    /// of the lag, if it lost anything, and that the room is closed, if
    /// that showed. `None` says that it lost nothing and may take its next
    /// message.
    pub fn lag_of(gone: Option<u64>) -> (told: Option<ReceiveError>)
        ensures
            told == match gone {
                None => Some(ReceiveError::Closed),
                Some(n) => if n > 0 {
                    Some(ReceiveError::Lagged(n))
                } else {
                    None
                },
            },
    {
        match gone {
            None => Some(ReceiveError::Closed),
            Some(n) => if n > 0 {
                Some(ReceiveError::Lagged(n))
            } else {
                None
            },
        }
    }

    /// Brings a subscriber of a room that keeps `retention` messages up to
    /// what is kept for it: where it is further behind, it loses its oldest
    /// messages and is told how many. `None` says that it lost nothing; its
    /// next message can then be taken or waited for.
    pub fn catch_up(receiver: &mut Receiver<Message>, retention: usize) -> (told: Option<
        ReceiveError,
    >)
        ensures
            match told {
                Some(lag) => lag != ReceiveError::Empty && taken(
                    subscription_position(*old(receiver)),
                    Err(lag),
                    subscription_position(*final(receiver)),
                ),
                None => subscription_position(*final(receiver)) == subscription_position(
                    *old(receiver),
                ),
            },
    {
        let backlog: usize = hub_len(receiver);
        let gone = Room::skip_overdue(receiver, backlog, retention);
        proof {
            lemma_small_mod(subscription_position(*old(receiver)) as nat, 0x1_0000_0000_0000_0000);
        }
        Room::lag_of(gone)
    }

    /// Takes the next message for a subscriber of a room that keeps
    /// `retention` messages, without waiting. A subscriber that fell
    /// further behind than that first loses its oldest messages and is told
    /// of the lag, with their count; it goes on with the oldest message
    /// that is kept. Where nothing is waiting the subscription stays where
    /// it is.
    pub fn receive_within(receiver: &mut Receiver<Message>, retention: usize) -> (next: Result<
        Message,
        ReceiveError,
    >)
        ensures
            taken(
                subscription_position(*old(receiver)),
                next,
                subscription_position(*final(receiver)),
            ),
    {
        match Room::catch_up(receiver, retention) {
            Some(lag) => Err(lag),
            None => hub_try_recv(receiver),
        }
    }

    /// Takes the next message for a subscriber of this room without
    /// waiting: [`Room::receive_within`] what this room keeps.
    pub fn try_receive(&self, receiver: &mut Receiver<Message>) -> (next: Result<
        Message,
        ReceiveError,
    >)
        ensures
            taken(
                subscription_position(*old(receiver)),
                next,
                subscription_position(*final(receiver)),
            ),
    {
        Room::receive_within(receiver, self.channel_size)
    }

    /// The personas of the room, in roster order.
    pub fn personas(&self) -> (profiles: &Vec<Arc<Profile>>)
        ensures
            profiles.deep_view() == self.roster(),
    {
        &self.profiles
    }

    /// Looks up the persona with id `id`: the first one in the roster that
    /// has it.
    pub fn find_profile(&self, id: &str) -> (found: Option<&Arc<Profile>>)
        ensures
            match position_of(self.roster(), id@) {
                Some(i) => found matches Some(p) && p@ == self.roster()[i],
                None => found is None,
            },
    {
        proof {
            lemma_position_of(self.roster(), id@);
        }
        match find_position(&self.profiles, id) {
            Some(i) => Some(&self.profiles[i]),
            None => None,
        }
    }
}

/// Finds the position of the first profile with id `id`.
pub fn find_position(profiles: &Vec<Arc<Profile>>, id: &str) -> (found: Option<usize>)
    ensures
        match position_of(profiles.deep_view(), id@) {
            Some(i) => found == Some(i as usize) && i < profiles.len(),
            None => found is None,
        },
{
    let ghost roster = profiles.deep_view();
    let mut i: usize = 0;
    assert(roster.take(0) =~= Seq::<ProfileView>::empty());
    while i < profiles.len()
        invariant
            i <= profiles.len(),
            roster == profiles.deep_view(),
            position_of(roster.take(i as int), id@) is None,
        decreases profiles.len() - i,
    {
        let ghost upto = roster.take(i + 1);
        assert(upto.drop_last() =~= roster.take(i as int));
        assert(upto.last() == profiles[i as int]@);
        if same_text(profiles[i].id.as_str(), id) {
            proof {
                lemma_position_prefix(roster, id@, i + 1);
            }
            return Some(i);
        }
        i += 1;
    }
    assert(roster.take(profiles.len() as int) =~= roster);
    None
}

/// A match found among the first `n` profiles is the match in the whole
/// roster.
proof fn lemma_position_prefix(roster: Seq<ProfileView>, id: Seq<char>, n: int)
    requires
        0 <= n <= roster.len(),
        position_of(roster.take(n), id) is Some,
    ensures
        position_of(roster, id) == position_of(roster.take(n), id),
    decreases roster.len() - n,
{
    if n < roster.len() {
        assert(roster.take(n + 1).drop_last() =~= roster.take(n));
        lemma_position_prefix(roster, id, n + 1);
    } else {
        assert(roster.take(n) =~= roster);
    }
}

} // verus!
