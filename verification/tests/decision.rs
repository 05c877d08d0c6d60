use group_chat::chat::prompt::{parse_decision, AgentError, Decision};
use group_chat::model::profile::Profile;
use std::sync::Arc;

fn roster(ids: &[&str]) -> Vec<Arc<Profile>> {
    ids.iter().map(|id| Arc::new(Profile::template(id.to_string()))).collect()
}

#[test]
fn decision_selects_known_persona() {
    let profiles = roster(&["alice"]);
    assert_eq!(parse_decision("@alice", &profiles).unwrap(), Decision::Reply(0));
}

#[test]
fn decision_no_reply_selects_no_one() {
    let profiles = roster(&["alice"]);
    assert_eq!(parse_decision("no reply", &profiles).unwrap(), Decision::NoReply);
}

#[test]
fn decision_unknown_persona() {
    let profiles = roster(&["alice"]);
    match parse_decision("@bob", &profiles) {
        Err(AgentError::UnknownPersona(id)) => assert_eq!(id, "bob"),
        other => panic!("unexpected decision: {:?}", other),
    }
}

#[test]
fn decision_malformed() {
    let profiles = roster(&["alice"]);
    match parse_decision("maybe later", &profiles) {
        Err(AgentError::MalformedDecision(raw)) => assert_eq!(raw, "maybe later"),
        other => panic!("unexpected decision: {:?}", other),
    }
}

#[test]
fn decision_is_read_letter_for_letter() {
    let profiles = roster(&["alice"]);
    assert!(matches!(
        parse_decision("No reply", &profiles),
        Err(AgentError::MalformedDecision(_))
    ));
    assert!(matches!(
        parse_decision("no reply ", &profiles),
        Err(AgentError::MalformedDecision(_))
    ));
    assert!(matches!(parse_decision("", &profiles), Err(AgentError::MalformedDecision(_))));
    assert!(matches!(
        parse_decision(" @alice", &profiles),
        Err(AgentError::MalformedDecision(_))
    ));
    match parse_decision("@alice\n", &profiles) {
        Err(AgentError::UnknownPersona(id)) => assert_eq!(id, "alice\n"),
        other => panic!("unexpected decision: {:?}", other),
    }
}

#[test]
fn decision_takes_the_first_persona_with_the_id() {
    let profiles = roster(&["bob", "alice", "alice"]);
    assert_eq!(parse_decision("@alice", &profiles).unwrap(), Decision::Reply(1));
    assert_eq!(parse_decision("@bob", &profiles).unwrap(), Decision::Reply(0));
}

#[test]
fn decision_strips_one_at_only() {
    let profiles = roster(&["alice"]);
    match parse_decision("@@alice", &profiles) {
        Err(AgentError::UnknownPersona(id)) => assert_eq!(id, "@alice"),
        other => panic!("unexpected decision: {:?}", other),
    }
    match parse_decision("@@", &profiles) {
        Err(AgentError::UnknownPersona(id)) => assert_eq!(id, "@"),
        other => panic!("unexpected decision: {:?}", other),
    }
}

#[test]
fn persona_whose_id_begins_with_at_can_be_addressed() {
    let profiles = roster(&["alice", "@alice", "a@b"]);
    assert_eq!(parse_decision("@@alice", &profiles).unwrap(), Decision::Reply(1));
    assert_eq!(parse_decision("@alice", &profiles).unwrap(), Decision::Reply(0));
    assert_eq!(parse_decision("@a@b", &profiles).unwrap(), Decision::Reply(2));
}

#[test]
fn decision_with_bare_at_names_the_empty_id() {
    let profiles = roster(&["alice"]);
    match parse_decision("@", &profiles) {
        Err(AgentError::UnknownPersona(id)) => assert_eq!(id, ""),
        other => panic!("unexpected decision: {:?}", other),
    }
    let with_empty = roster(&["alice", ""]);
    assert_eq!(parse_decision("@", &with_empty).unwrap(), Decision::Reply(1));
}
