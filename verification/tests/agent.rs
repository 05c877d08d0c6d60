use group_chat::chat::message::{ChatMessage, ContentWriter, ErrorMessage, Message};
use group_chat::chat::plan_agent::{entry_of, Phase, PlanAgent, ReplyRequest, Step, Turn};
use group_chat::chat::prompt::AgentError;
use group_chat::chat::room::{ReceiveError, Room, RoomError};
use group_chat::model::profile::Profile;
use std::sync::Arc;
use tokio::sync::broadcast::Receiver;

fn persona(id: &str, name: &str, background: &str) -> Arc<Profile> {
    let mut profile = Profile::template(id.to_string());
    profile.name = name.to_string();
    profile.background = background.to_string();
    Arc::new(profile)
}

fn human(text: &str) -> Arc<ChatMessage> {
    Arc::new(ChatMessage::from_text("u1".into(), "User".into(), "user".into(), text.into()))
}

fn started(room: &Arc<Room>) -> PlanAgent {
    let mut agent = PlanAgent::new(room.clone());
    assert!(agent.start());
    agent
}

fn next_chat(rx: &mut Receiver<Message>) -> Arc<ChatMessage> {
    match rx.try_recv() {
        Ok(Message::Chat(chat)) => chat,
        other => panic!("expected a chat message, got {:?}", other),
    }
}

fn next_error(rx: &mut Receiver<Message>) -> Arc<ErrorMessage> {
    match rx.try_recv() {
        Ok(Message::Error(err)) => err,
        other => panic!("expected an error notice, got {:?}", other),
    }
}

#[test]
fn new_agent_is_idle_with_the_summary_of_the_roster() {
    let room = Arc::new(Room::new(10, vec![persona("a", "Ann", "A baker.")]));
    let agent = PlanAgent::new(room.clone());
    assert_eq!(agent.phase, Phase::Idle);
    assert!(agent.recent_chats.is_empty());
    assert!(agent.transcript.is_empty());
    assert!(agent.reply.is_none());
    assert_eq!(agent.profiles_summarize, "ID: a\nName: Ann\nBackground: A baker.");
}

#[test]
fn start_is_idempotent() {
    let room = Arc::new(Room::new(10, Vec::new()));
    let mut agent = PlanAgent::new(room);
    assert!(agent.start());
    assert_eq!(agent.phase, Phase::AwaitEvent);
    assert!(!agent.start());
    assert_eq!(agent.phase, Phase::AwaitEvent);
    agent.on_received(Ok(Message::Chat(human("hi"))));
    assert_eq!(agent.phase, Phase::Deciding);
    assert!(!agent.start());
    assert_eq!(agent.phase, Phase::Deciding);
    assert_eq!(agent.recent_chats.len(), 1);
}

#[test]
fn idle_agent_takes_no_event() {
    let room = Arc::new(Room::new(10, Vec::new()));
    let mut agent = PlanAgent::new(room.clone());
    room.send_chat(human("hi")).unwrap();
    assert_eq!(agent.loop_worker(), Step::Wait);
    assert_eq!(agent.phase, Phase::Idle);
    assert!(agent.recent_chats.is_empty());
    assert_eq!(agent.on_received(Ok(Message::Chat(human("x")))), Step::Wait);
    assert!(agent.recent_chats.is_empty());
    agent.start();
    assert_eq!(agent.loop_worker(), Step::Decide);
    assert_eq!(agent.recent_chats.len(), 1);
}

#[test]
fn error_notices_are_not_the_agents_concern() {
    let room = Arc::new(Room::new(10, Vec::new()));
    let mut agent = started(&room);
    room.send_error(Arc::new(ErrorMessage { msg: "oops".into() })).unwrap();
    assert_eq!(agent.loop_worker(), Step::Continue);
    assert_eq!(agent.phase, Phase::AwaitEvent);
    assert!(agent.recent_chats.is_empty());
    assert_eq!(agent.loop_worker(), Step::Wait);
}

#[test]
fn lag_is_survived() {
    let room = Arc::new(Room::new(2, Vec::new()));
    let mut agent = started(&room);
    for text in ["m1", "m2", "m3", "m4"] {
        room.send_chat(human(text)).unwrap();
    }
    assert_eq!(agent.loop_worker(), Step::Lagged(2));
    assert_eq!(agent.phase, Phase::AwaitEvent);
    assert!(agent.recent_chats.is_empty());
    assert_eq!(agent.loop_worker(), Step::Decide);
    assert_eq!(agent.recent_chats[0].read_current().text(), "m3");
    assert_eq!(agent.on_received(Err(ReceiveError::Lagged(7))), Step::Wait);
}

#[test]
fn closed_room_stops_the_agent() {
    let room = Arc::new(Room::new(2, Vec::new()));
    let mut agent = started(&room);
    assert_eq!(agent.on_received(Err(ReceiveError::Empty)), Step::Wait);
    assert_eq!(agent.phase, Phase::AwaitEvent);
    assert_eq!(agent.on_received(Err(ReceiveError::Closed)), Step::Stop);
    assert_eq!(agent.phase, Phase::Stopped);
    assert_eq!(agent.loop_worker(), Step::Wait);
    assert_eq!(agent.phase, Phase::Stopped);
    assert!(!agent.start());
}

#[test]
fn no_reply_ends_the_turn() {
    let room = Arc::new(Room::new(10, vec![persona("a", "Ann", "")]));
    let mut watcher = room.subscribe();
    let mut agent = started(&room);
    room.send_chat(human("hi")).unwrap();
    assert_eq!(agent.loop_worker(), Step::Decide);
    assert!(agent.prompt().is_some());
    assert!(matches!(agent.on_decision(Ok("no reply".to_string())), Turn::NoReply));
    assert_eq!(agent.phase, Phase::AwaitEvent);
    next_chat(&mut watcher);
    assert_eq!(room.try_receive(&mut watcher).err(), Some(ReceiveError::Empty));
}

#[test]
fn unknown_persona_is_told_to_the_room_and_the_loop_goes_on() {
    let room = Arc::new(Room::new(10, vec![persona("alice", "Alice", "")]));
    let mut watcher = room.subscribe();
    let mut agent = started(&room);
    room.send_chat(human("hi")).unwrap();
    assert_eq!(agent.loop_worker(), Step::Decide);
    match agent.on_decision(Ok("@bob".to_string())) {
        Turn::Failed(AgentError::UnknownPersona(id)) => assert_eq!(id, "bob"),
        other => panic!("unexpected turn: {:?}", other),
    }
    assert_eq!(agent.phase, Phase::AwaitEvent);
    next_chat(&mut watcher);
    assert_eq!(
        next_error(&mut watcher).msg,
        "Failed to handle message: No profile found for id bob"
    );
    assert_eq!(agent.loop_worker(), Step::Continue);
    room.send_chat(human("again")).unwrap();
    assert_eq!(agent.loop_worker(), Step::Decide);
    assert_eq!(agent.recent_chats.len(), 2);
}

#[test]
fn malformed_decision_is_told_to_the_room() {
    let room = Arc::new(Room::new(10, vec![persona("alice", "Alice", "")]));
    let mut watcher = room.subscribe();
    let mut agent = started(&room);
    room.send_chat(human("hi")).unwrap();
    agent.loop_worker();
    match agent.on_decision(Ok("maybe later".to_string())) {
        Turn::Failed(AgentError::MalformedDecision(raw)) => assert_eq!(raw, "maybe later"),
        other => panic!("unexpected turn: {:?}", other),
    }
    assert_eq!(agent.phase, Phase::AwaitEvent);
    next_chat(&mut watcher);
    assert_eq!(
        next_error(&mut watcher).msg,
        "Failed to handle message: Got unexpected result from plan agent: maybe later"
    );
}

#[test]
fn backend_failure_is_told_to_the_room() {
    let room = Arc::new(Room::new(10, vec![persona("alice", "Alice", "")]));
    let mut watcher = room.subscribe();
    let mut agent = started(&room);
    room.send_chat(human("hi")).unwrap();
    agent.loop_worker();
    match agent.on_decision(Err("connection refused".to_string())) {
        Turn::Failed(AgentError::BackendError(text)) => assert_eq!(text, "connection refused"),
        other => panic!("unexpected turn: {:?}", other),
    }
    assert_eq!(agent.phase, Phase::AwaitEvent);
    next_chat(&mut watcher);
    assert_eq!(next_error(&mut watcher).msg, "Failed to handle message: connection refused");
}

#[test]
fn decision_out_of_phase_is_ignored() {
    let room = Arc::new(Room::new(10, vec![persona("a", "Ann", "")]));
    let mut watcher = room.subscribe();
    let mut agent = started(&room);
    assert!(matches!(agent.on_decision(Ok("@a".to_string())), Turn::Ignored));
    assert_eq!(agent.phase, Phase::AwaitEvent);
    assert!(agent.prompt().is_none());
    assert!(agent.on_chunk("x").is_none());
    assert!(!agent.on_stream_end());
    assert!(matches!(agent.on_stream_error("e".to_string()), Turn::Ignored));
    assert_eq!(agent.phase, Phase::AwaitEvent);
    assert_eq!(room.try_receive(&mut watcher).err(), Some(ReceiveError::Empty));
}

#[test]
fn end_to_end_reply_is_streamed() {
    let room = Arc::new(Room::new(10, vec![persona("a", "Ann", "")]));
    let mut watcher = room.subscribe();
    let mut agent = started(&room);

    room.send_chat(Arc::new(ChatMessage::from_text(
        "u1".into(),
        "User".into(),
        "user".into(),
        "hi".into(),
    )))
    .unwrap();

    let first = next_chat(&mut watcher);
    assert_eq!(first.from_user_id, "u1");
    assert_eq!(first.read_content(), Some("hi".to_string()));

    assert_eq!(agent.loop_worker(), Step::Decide);
    let prompt = agent.prompt().unwrap();
    assert!(prompt.contains("ID: a\nName: Ann\nBackground: "));
    assert!(prompt.ends_with("Here are the recent conversations: \nUser(@u1): hi\n        "));

    let request = match agent.on_decision(Ok("@a".to_string())) {
        Turn::Reply(request) => request,
        other => panic!("unexpected turn: {:?}", other),
    };
    assert_eq!(agent.phase, Phase::Replying);
    assert_eq!(request.conversation.len(), 1);
    assert_eq!(request.conversation[0].role, "user");
    assert_eq!(*request.conversation[0].content, "User(@u1): hi");

    let reply = next_chat(&mut watcher);
    assert_eq!(reply.from_user_id, "a");
    assert_eq!(reply.from_username, "Ann");
    assert_eq!(reply.role, "assistant");
    let reader = reply.subscribe();
    assert!(reader.borrow().chunks.is_empty());
    assert!(!reader.borrow().complete);

    assert_eq!(agent.on_chunk("Hello"), Some("Hello".to_string()));
    assert_eq!(reader.borrow().chunks, vec!["Hello".to_string()]);
    assert!(!reader.borrow().complete);

    assert_eq!(agent.on_chunk(" there"), Some(" there".to_string()));
    assert_eq!(reader.borrow().chunks, vec!["Hello".to_string(), " there".to_string()]);
    assert!(!reader.borrow().complete);

    assert!(agent.on_stream_end());
    assert!(reader.borrow().complete);
    assert_eq!(reader.borrow().chunks, vec!["Hello".to_string(), " there".to_string()]);
    assert_eq!(reply.read_content(), Some("Hello there".to_string()));
    assert_eq!(agent.phase, Phase::AwaitEvent);
    let written = agent.reply.as_ref().unwrap().content();
    assert!(written.complete);
    assert_eq!(written.chunks, vec!["Hello".to_string(), " there".to_string()]);

    assert_eq!(room.try_receive(&mut watcher).err(), Some(ReceiveError::Empty));
    assert_eq!(agent.loop_worker(), Step::Decide);
    assert_eq!(agent.recent_chats.len(), 2);
    assert!(Arc::ptr_eq(&agent.recent_chats[1], &reply));
}

#[test]
fn chunks_lose_the_echo_of_the_speaker() {
    let room = Arc::new(Room::new(10, vec![persona("a", "Ann", "")]));
    let mut watcher = room.subscribe();
    let mut agent = started(&room);
    room.send_chat(human("hi")).unwrap();
    agent.loop_worker();
    assert!(matches!(agent.on_decision(Ok("@a".to_string())), Turn::Reply(_)));
    next_chat(&mut watcher);
    let reply = next_chat(&mut watcher);
    assert_eq!(agent.on_chunk("Ann(@a): Hello"), Some("Hello".to_string()));
    assert_eq!(agent.on_chunk("Bob(@b): quoted"), Some("Bob(@b): quoted".to_string()));
    agent.on_stream_end();
    assert_eq!(reply.read_current().chunks, vec!["Hello".to_string(), "Bob(@b): quoted".into()]);
}

#[test]
fn failed_stream_still_completes_the_reply() {
    let room = Arc::new(Room::new(10, vec![persona("a", "Ann", "")]));
    let mut watcher = room.subscribe();
    let mut agent = started(&room);
    room.send_chat(human("hi")).unwrap();
    agent.loop_worker();
    assert!(matches!(agent.on_decision(Ok("@a".to_string())), Turn::Reply(_)));
    next_chat(&mut watcher);
    let reply = next_chat(&mut watcher);
    agent.on_chunk("Hel");
    match agent.on_stream_error("stream broke".to_string()) {
        Turn::Failed(AgentError::BackendError(text)) => assert_eq!(text, "stream broke"),
        other => panic!("unexpected turn: {:?}", other),
    }
    let content = reply.read_current();
    assert!(content.complete);
    assert_eq!(content.chunks, vec!["Hel".to_string()]);
    assert_eq!(agent.phase, Phase::AwaitEvent);
    assert!(agent.reply.as_ref().unwrap().content().complete);
    assert!(agent.on_chunk("late").is_none());
    assert_eq!(reply.read_current().chunks, vec!["Hel".to_string()]);
    assert_eq!(next_error(&mut watcher).msg, "Failed to handle message: stream broke");
}

#[test]
fn reply_request_describes_the_persona_and_the_history() {
    let room = Arc::new(Room::new(10, vec![persona("b", "Bob", "x"), persona("a", "Ann", "A baker.")]));
    let mut agent = started(&room);
    room.send_chat(human("hi")).unwrap();
    agent.loop_worker();
    let request = match agent.on_decision(Ok("@a".to_string())) {
        Turn::Reply(request) => request,
        other => panic!("unexpected turn: {:?}", other),
    };
    assert_eq!(
        request.system_prompt,
        "You are simulating a profile in a group chat to reply a new message. You must reply the message.\nHere is the background of the profile: \nid: a\nname: Ann\nbackground:\nA baker."
    );
    assert_eq!(agent.reply.as_ref().unwrap().message().from_user_id, "a");
    assert_eq!(agent.transcript.len(), 1);
    assert_eq!(agent.transcript[0].text, "hi");
}

#[test]
fn transcript_entries_quote_partial_text_without_echo() {
    let mut writer = ContentWriter::announce("a".into(), "Ann".into(), "assistant".into());
    writer.publish_chunk("Ann(@a): par".to_string());
    writer.publish_chunk("tial".to_string());
    let msg = writer.message();
    let entry = entry_of(msg, &msg.read_current(), false);
    assert_eq!(entry.from_user_id, "a");
    assert_eq!(entry.from_username, "Ann");
    assert_eq!(entry.role, "assistant");
    assert_eq!(entry.text, "partial");
    assert!(!entry.complete);
    assert_eq!(entry.line(), "Ann(@a): partial");
    writer.complete();
    let msg = writer.message();
    let entry = entry_of(msg, &msg.read_current(), false);
    assert_eq!(entry.text, "partial");
    assert!(entry.complete);
    assert!(!entry.closed);
    assert!(entry_of(msg, &msg.read_current(), true).closed);
}

#[test]
fn pending_names_the_message_the_decision_waits_for() {
    let room = Arc::new(Room::new(10, Vec::new()));
    let mut agent = started(&room);
    assert_eq!(agent.pending(), None);

    let mut first = ContentWriter::announce("a".into(), "Ann".into(), "assistant".into());
    let mut second = ContentWriter::announce("b".into(), "Bob".into(), "assistant".into());
    agent.recent_chats.push(human("hi"));
    agent.recent_chats.push(first.message().clone());
    agent.recent_chats.push(second.message().clone());
    first.publish_chunk("Hel".to_string());

    assert_eq!(agent.pending(), Some(1));
    assert_eq!(agent.transcript.len(), 3);
    assert!(agent.transcript[0].complete);
    assert!(!agent.transcript[1].complete);
    assert_eq!(agent.transcript[1].text, "Hel");

    second.complete();
    assert_eq!(agent.pending(), Some(1));
    first.publish_chunk("lo".to_string());
    first.complete();
    assert_eq!(agent.pending(), None);
    assert_eq!(agent.transcript[1].text, "Hello");
    assert!(agent.transcript.iter().all(|e| e.complete));
}

#[test]
fn there_is_no_prompt_before_the_barrier_is_passed() {
    let room = Arc::new(Room::new(10, vec![persona("a", "Ann", "")]));
    let mut agent = started(&room);
    let mut writer = ContentWriter::announce("b".into(), "Bob".into(), "assistant".into());
    writer.publish_chunk("half".to_string());
    assert_eq!(agent.on_received(Ok(Message::Chat(writer.message().clone()))), Step::Decide);
    assert!(agent.prompt().is_none());
    assert_eq!(agent.phase, Phase::Deciding);
    assert!(!agent.transcript[0].complete);
    assert_eq!(agent.pending(), Some(0));
    assert!(matches!(agent.on_decision(Ok("@a".to_string())), Turn::Ignored));
    assert!(matches!(agent.on_decision(Ok("no reply".to_string())), Turn::Ignored));
    assert_eq!(agent.phase, Phase::Deciding);
    writer.publish_chunk(" done".to_string());
    writer.complete();
    assert_eq!(agent.pending(), None);
    let ready = agent.prompt().unwrap();
    assert!(ready.ends_with("Bob(@b): half done\n        "));
    assert!(agent.transcript[0].complete);
    assert!(matches!(agent.on_decision(Ok("no reply".to_string())), Turn::NoReply));
    assert_eq!(agent.phase, Phase::AwaitEvent);
}

#[test]
fn a_message_whose_writer_is_gone_no_longer_holds_the_decision_up() {
    let room = Arc::new(Room::new(10, vec![persona("a", "Ann", "")]));
    let mut agent = started(&room);
    let mut gone = ContentWriter::announce("b".into(), "Bob".into(), "assistant".into());
    gone.publish_chunk("cut sh".to_string());
    let mut slow = ContentWriter::announce("c".into(), "Cy".into(), "assistant".into());
    agent.recent_chats.push(gone.message().clone());
    agent.recent_chats.push(slow.message().clone());
    agent.phase = Phase::Deciding;

    assert_eq!(agent.pending(), Some(0));
    assert!(!agent.on_wait_closed(2));
    assert_eq!(agent.pending(), Some(0));
    assert!(agent.on_wait_closed(0));
    assert_eq!(agent.closed, vec![true]);
    assert_eq!(agent.pending(), Some(1));
    assert!(agent.transcript[0].closed);
    assert!(!agent.transcript[0].complete);
    assert!(agent.prompt().is_none());

    slow.publish_chunk("ok".to_string());
    slow.complete();
    assert_eq!(agent.pending(), None);
    let prompt = agent.prompt().unwrap();
    assert!(prompt.ends_with("Bob(@b): cut sh\nCy(@c): ok\n        "));

    assert!(agent.on_wait_closed(1));
    assert_eq!(agent.closed, vec![true, true]);
    assert_eq!(agent.pending(), None);
}

#[test]
fn announced_goes_by_the_answer_of_the_room() {
    let room = Arc::new(Room::new(10, Vec::new()));
    let request = || ReplyRequest { system_prompt: "sys".to_string(), conversation: Vec::new() };

    let mut agent = started(&room);
    let writer = ContentWriter::announce("a".into(), "Ann".into(), "assistant".into());
    let message = writer.message().clone();
    match agent.announced(Ok(()), writer, request()) {
        Turn::Reply(handed) => assert_eq!(handed.system_prompt, "sys"),
        other => panic!("unexpected turn: {:?}", other),
    }
    assert_eq!(agent.phase, Phase::Replying);
    assert!(Arc::ptr_eq(agent.reply.as_ref().unwrap().message(), &message));

    let mut agent = started(&room);
    let writer = ContentWriter::announce("a".into(), "Ann".into(), "assistant".into());
    match agent.announced(Err(RoomError::NoSubscribers), writer, request()) {
        Turn::Fatal(RoomError::NoSubscribers) => {}
        other => panic!("unexpected turn: {:?}", other),
    }
    assert_eq!(agent.phase, Phase::Stopped);
    assert!(agent.reply.is_none());
}

#[test]
fn reported_goes_by_the_answer_of_the_room() {
    let room = Arc::new(Room::new(10, Vec::new()));
    let mut agent = started(&room);
    agent.phase = Phase::Deciding;
    match agent.reported(Ok(()), AgentError::UnknownPersona("bob".to_string())) {
        Turn::Failed(AgentError::UnknownPersona(id)) => assert_eq!(id, "bob"),
        other => panic!("unexpected turn: {:?}", other),
    }
    assert_eq!(agent.phase, Phase::AwaitEvent);

    agent.phase = Phase::Deciding;
    match agent.reported(Err(RoomError::NoSubscribers), AgentError::BackendError("x".into())) {
        Turn::Fatal(RoomError::NoSubscribers) => {}
        other => panic!("unexpected turn: {:?}", other),
    }
    assert_eq!(agent.phase, Phase::Stopped);
}

#[test]
fn turn_is_fatal_when_the_room_takes_nothing() {
    let room = Arc::new(Room::new(10, vec![persona("a", "Ann", "")]));
    let elsewhere = Room::new(10, Vec::new());

    let mut agent = started(&room);
    agent.msg_receiver = elsewhere.subscribe();
    agent.on_received(Ok(Message::Chat(human("hi"))));
    match agent.on_decision(Ok("@a".to_string())) {
        Turn::Fatal(RoomError::NoSubscribers) => {}
        other => panic!("unexpected turn: {:?}", other),
    }
    assert_eq!(agent.phase, Phase::Stopped);
    assert!(agent.reply.is_none());
    assert!(agent.on_chunk("x").is_none());

    let mut agent = started(&room);
    agent.msg_receiver = elsewhere.subscribe();
    agent.on_received(Ok(Message::Chat(human("hi"))));
    match agent.on_decision(Ok("nonsense".to_string())) {
        Turn::Fatal(RoomError::NoSubscribers) => {}
        other => panic!("unexpected turn: {:?}", other),
    }
    assert_eq!(agent.phase, Phase::Stopped);
    assert_eq!(agent.loop_worker(), Step::Wait);
}

#[test]
fn turn_goes_on_while_the_room_has_a_subscriber() {
    let room = Arc::new(Room::new(10, vec![persona("a", "Ann", "")]));
    let mut agent = started(&room);
    agent.on_received(Ok(Message::Chat(human("hi"))));
    match agent.on_decision(Ok("@a".to_string())) {
        Turn::Reply(_) => assert_eq!(agent.phase, Phase::Replying),
        other => panic!("unexpected turn: {:?}", other),
    }
}

#[test]
fn doubled_at_names_nobody_of_the_roster() {
    let room = Arc::new(Room::new(10, vec![persona("alice", "Alice", "")]));
    let mut watcher = room.subscribe();
    let mut agent = started(&room);
    room.send_chat(human("hi")).unwrap();
    agent.loop_worker();
    match agent.on_decision(Ok("@@alice".to_string())) {
        Turn::Failed(AgentError::UnknownPersona(id)) => assert_eq!(id, "@alice"),
        other => panic!("unexpected turn: {:?}", other),
    }
    assert_eq!(agent.phase, Phase::AwaitEvent);
    assert!(agent.reply.is_none());
    next_chat(&mut watcher);
    assert_eq!(
        next_error(&mut watcher).msg,
        "Failed to handle message: No profile found for id @alice"
    );
    assert_eq!(room.try_receive(&mut watcher).err(), Some(ReceiveError::Empty));
}
