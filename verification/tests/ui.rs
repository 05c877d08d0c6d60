use group_chat::chat::content::StreamingContent;
use group_chat::chat::message::{ChatMessage, ContentWriter, ErrorMessage, Message};
use group_chat::chat::room::{ReceiveError, Room, RoomError};
use group_chat::ui::cli_ui::{
    message_lines, CliUI, Drain, Screen, ScrollKey, ViewLine, LINE_STEP, PAGE_STEP,
};
use std::sync::Arc;

fn ui(room: &Arc<Room>) -> CliUI {
    CliUI::new(room.clone(), Arc::new("tuser".to_string()), Arc::new("Test User".to_string()))
}

#[test]
fn blank_input_makes_no_message() {
    let room = Arc::new(Room::new(10, Vec::new()));
    let ui = ui(&room);
    assert!(ui.compose("").is_none());
    assert!(ui.compose("   ").is_none());
    assert!(ui.compose("\n\t ").is_none());
}

#[test]
fn input_becomes_a_complete_single_chunk_message() {
    let room = Arc::new(Room::new(10, Vec::new()));
    let ui = ui(&room);
    let msg = ui.compose(" hi there \nsecond line").unwrap();
    assert_eq!(msg.from_user_id, "tuser");
    assert_eq!(msg.from_username, "Test User");
    assert_eq!(msg.role, "user");
    let content = msg.read_current();
    assert!(content.complete);
    assert_eq!(content.chunks, vec![" hi there \nsecond line".to_string()]);
}

#[test]
fn submit_sends_non_blank_input_only() {
    let room = Arc::new(Room::new(10, Vec::new()));
    let ui = ui(&room);
    assert_eq!(ui.submit("  "), Ok(false));
    assert_eq!(ui.submit("hi"), Err(RoomError::NoSubscribers));
    let mut rx = room.subscribe();
    assert_eq!(ui.submit("  "), Ok(false));
    assert_eq!(room.try_receive(&mut rx).err(), Some(ReceiveError::Empty));
    assert_eq!(ui.submit("hi"), Ok(true));
    match room.try_receive(&mut rx) {
        Ok(Message::Chat(chat)) => assert_eq!(chat.read_content(), Some("hi".to_string())),
        other => panic!("unexpected: {:?}", other),
    }
}

#[test]
fn scroll_keys_move_by_a_line_or_a_page() {
    let mut screen = Screen::new();
    assert_eq!(screen.vertical_scroll, 0);
    screen.on_key(ScrollKey::Up);
    assert_eq!(screen.vertical_scroll, 0);
    screen.on_key(ScrollKey::PageUp);
    assert_eq!(screen.vertical_scroll, 0);
    screen.on_key(ScrollKey::Down);
    assert_eq!(screen.vertical_scroll, 1);
    screen.on_key(ScrollKey::PageDown);
    assert_eq!(screen.vertical_scroll, 11);
    screen.on_key(ScrollKey::Up);
    assert_eq!(screen.vertical_scroll, 10);
    screen.on_key(ScrollKey::PageUp);
    assert_eq!(screen.vertical_scroll, 0);
    screen.vertical_scroll = 7;
    screen.on_key(ScrollKey::PageUp);
    assert_eq!(screen.vertical_scroll, 0);
    assert_eq!(LINE_STEP, 1);
    assert_eq!(PAGE_STEP, 10);
}

#[test]
fn scroll_saturates_at_the_top_of_the_range() {
    let mut screen = Screen::new();
    screen.follow();
    assert_eq!(screen.vertical_scroll, usize::MAX);
    screen.on_key(ScrollKey::Down);
    assert_eq!(screen.vertical_scroll, usize::MAX);
    screen.on_key(ScrollKey::PageDown);
    assert_eq!(screen.vertical_scroll, usize::MAX);
    screen.vertical_scroll = usize::MAX - 3;
    screen.on_key(ScrollKey::PageDown);
    assert_eq!(screen.vertical_scroll, usize::MAX);
    screen.on_key(ScrollKey::Up);
    assert_eq!(screen.vertical_scroll, usize::MAX - 1);
}

#[test]
fn clamp_cuts_down_to_the_last_page() {
    let mut screen = Screen::new();
    screen.follow();
    assert_eq!(screen.clamp(30, 10), 20);
    assert_eq!(screen.vertical_scroll, 20);
    assert_eq!(screen.clamp(30, 10), 20);
    screen.vertical_scroll = 5;
    assert_eq!(screen.clamp(30, 10), 5);
    assert_eq!(screen.clamp(8, 10), 0);
    screen.follow();
    assert_eq!(screen.clamp(10, 10), 0);
    screen.follow();
    assert_eq!(screen.clamp(0, 0), 0);
    screen.follow();
    assert_eq!(screen.clamp(11, 10), 1);
}

#[test]
fn events_go_to_their_place_on_the_screen() {
    let mut screen = Screen::new();
    let chat = Arc::new(ChatMessage::from_text("u".into(), "U".into(), "user".into(), "hi".into()));
    assert_eq!(screen.on_event(Ok(Message::Chat(chat.clone()))), Drain::More);
    assert_eq!(screen.messages.len(), 1);
    assert!(Arc::ptr_eq(&screen.messages[0], &chat));
    assert_eq!(screen.vertical_scroll, usize::MAX);
    screen.vertical_scroll = 3;
    let notice = Arc::new(ErrorMessage { msg: "oops".to_string() });
    assert_eq!(screen.on_event(Ok(Message::Error(notice))), Drain::More);
    assert_eq!(screen.errors.len(), 1);
    assert_eq!(screen.errors[0].msg, "oops");
    assert_eq!(screen.vertical_scroll, 3);
    assert_eq!(screen.on_event(Err(ReceiveError::Empty)), Drain::Done);
    assert_eq!(screen.on_event(Err(ReceiveError::Lagged(4))), Drain::Done);
    assert_eq!(screen.on_event(Err(ReceiveError::Closed)), Drain::Closed);
    assert_eq!(screen.messages.len(), 1);
    assert_eq!(screen.errors.len(), 1);
    assert_eq!(screen.vertical_scroll, 3);
}

#[test]
fn message_is_shown_as_speaker_text_and_blank() {
    let writer = ContentWriter::announce("a".into(), "Ann".into(), "assistant".into());
    let msg = writer.message();
    let mut content = StreamingContent::announce();
    assert_eq!(
        message_lines(msg, &content),
        vec![ViewLine::Speaker("Ann(@a)".to_string()), ViewLine::Blank]
    );
    content.publish_chunk("Hello\nthe".to_string());
    content.publish_chunk("re\r\n\nend\n".to_string());
    assert_eq!(
        message_lines(msg, &content),
        vec![
            ViewLine::Speaker("Ann(@a)".to_string()),
            ViewLine::Text("Hello".to_string()),
            ViewLine::Text("there".to_string()),
            ViewLine::Text("".to_string()),
            ViewLine::Text("end".to_string()),
            ViewLine::Blank,
        ]
    );
}
