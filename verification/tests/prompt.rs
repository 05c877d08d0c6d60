use group_chat::chat::prompt::{
    conversation, first_unsettled, get_prompt, summarize_profile, system_prompt, AgentError,
    TranscriptEntry, DECISION_CLOSING, DECISION_INSTRUCTIONS, DECISION_TRANSCRIPT_HEADING,
    NO_REPLY, PROFILE_SEPARATOR,
};
use group_chat::model::profile::Profile;
use std::sync::Arc;

fn persona(id: &str, name: &str, background: &str) -> Arc<Profile> {
    let mut profile = Profile::template(id.to_string());
    profile.name = name.to_string();
    profile.background = background.to_string();
    Arc::new(profile)
}

fn entry(id: &str, name: &str, role: &str, text: &str) -> TranscriptEntry {
    TranscriptEntry {
        from_user_id: id.to_string(),
        from_username: name.to_string(),
        role: role.to_string(),
        text: text.to_string(),
        complete: true,
        closed: false,
    }
}

#[test]
fn summary_of_an_empty_roster_is_empty() {
    assert_eq!(summarize_profile(&Vec::new()), "");
}

#[test]
fn summary_of_one_profile_has_no_separator() {
    let roster = vec![persona("a", "Ann", "A baker.")];
    assert_eq!(summarize_profile(&roster), "ID: a\nName: Ann\nBackground: A baker.");
}

#[test]
fn summary_separates_profiles() {
    let roster = vec![persona("a", "Ann", "A baker."), persona("b", "Bob", "A pilot.")];
    assert_eq!(
        summarize_profile(&roster),
        "ID: a\nName: Ann\nBackground: A baker.\n--------------ID: b\nName: Bob\nBackground: A pilot."
    );
    assert_eq!(PROFILE_SEPARATOR, "\n--------------");
}

#[test]
fn decision_prompt_has_instructions_summary_and_transcript() {
    let history = vec![
        entry("u1", "User", "user", "hi"),
        entry("a", "Ann", "assistant", "Hello there"),
    ];
    let prompt = get_prompt("SUMMARY", &history);
    let expected = format!(
        "{}SUMMARY{}User(@u1): hi\nAnn(@a): Hello there{}",
        DECISION_INSTRUCTIONS, DECISION_TRANSCRIPT_HEADING, DECISION_CLOSING
    );
    assert_eq!(prompt, expected);
    assert!(prompt.starts_with("You are given a summary of profiles"));
    assert!(prompt.contains("* Agent ID with a prefix of @."));
    assert!(prompt.contains("`no reply`"));
    assert!(prompt.contains(
        "If the last message is sent by the user, there always should have an agent to reply."
    ));
}

#[test]
fn decision_prompt_of_an_empty_history() {
    let prompt = get_prompt("", &Vec::new());
    assert_eq!(
        prompt,
        format!("{}{}{}", DECISION_INSTRUCTIONS, DECISION_TRANSCRIPT_HEADING, DECISION_CLOSING)
    );
}

#[test]
fn system_prompt_describes_the_persona() {
    let ann = persona("a", "Ann", "A baker.\nLikes rye.");
    assert_eq!(
        system_prompt(&ann),
        "You are simulating a profile in a group chat to reply a new message. You must reply the message.\nHere is the background of the profile: \nid: a\nname: Ann\nbackground:\nA baker.\nLikes rye."
    );
}

#[test]
fn conversation_keeps_roles_and_quotes_speakers() {
    let history = vec![
        entry("u1", "User", "user", "hi"),
        entry("a", "Ann", "assistant", "Hello"),
    ];
    let turns = conversation(&history);
    assert_eq!(turns.len(), 2);
    assert_eq!(turns[0].role, "user");
    assert_eq!(*turns[0].content, "User(@u1): hi");
    assert_eq!(turns[1].role, "assistant");
    assert_eq!(*turns[1].content, "Ann(@a): Hello");
    assert!(conversation(&Vec::new()).is_empty());
}

#[test]
fn errors_describe_themselves() {
    let unknown = AgentError::UnknownPersona("bob".to_string());
    assert_eq!(unknown.describe(), "No profile found for id bob");
    assert_eq!(unknown.notice(), "Failed to handle message: No profile found for id bob");
    let malformed = AgentError::MalformedDecision("maybe".to_string());
    assert_eq!(malformed.describe(), "Got unexpected result from plan agent: maybe");
    let backend = AgentError::BackendError("timeout".to_string());
    assert_eq!(backend.describe(), "timeout");
    assert_eq!(backend.notice(), "Failed to handle message: timeout");
    assert_eq!(NO_REPLY, "no reply");
}

#[test]
fn decision_prompt_letter_for_letter() {
    let roster = vec![persona("a", "Ann", "A baker.")];
    let history = vec![entry("u1", "User", "user", "hi")];
    let prompt = get_prompt(&summarize_profile(&roster), &history);
    let expected = "You are given a summary of profiles for all the LLM agent in the conversation.\
You are also given the recent conversation of the agents and the user. Based on that, \
output which LLM agent should reply in the conversation next. The output can be either of the two:\n\
\n\
* Agent ID with a prefix of @. This indicates which agent should reply next.\n\
* Simply response `no reply` that indicates no agent should reply to the conversation next.\n\
* Only select the profile from the profile summary. The recent conversations also contain the real user IDs that you shouldn't select from.\n        \n\
Follow the output format strictly and output nothing else.\n\
If the last message is sent by the user, there always should have an agent to reply.\
Otherwise it's optional for other agents to reply.\n\
Here are the agent profile summary: \n\
ID: a\nName: Ann\nBackground: A baker.\n        Here are the recent conversations: \n\
User(@u1): hi\n        ";
    assert_eq!(prompt, expected);
}

#[test]
fn first_unsettled_names_the_first_turn_still_being_written() {
    let mut history = vec![
        entry("u1", "User", "user", "hi"),
        entry("a", "Ann", "assistant", "Hel"),
        entry("b", "Bob", "assistant", ""),
    ];
    assert_eq!(first_unsettled(&history), None);
    history[2].complete = false;
    assert_eq!(first_unsettled(&history), Some(2));
    history[1].complete = false;
    assert_eq!(first_unsettled(&history), Some(1));
    history[0].complete = false;
    assert_eq!(first_unsettled(&history), Some(0));
    history[0].closed = true;
    assert_eq!(first_unsettled(&history), Some(1));
    history[1].closed = true;
    history[2].closed = true;
    assert_eq!(first_unsettled(&history), None);
    assert_eq!(first_unsettled(&Vec::new()), None);
}

#[test]
fn prompt_quotes_what_there_is_of_a_turn_whose_writer_is_gone() {
    let mut history = vec![entry("u1", "User", "user", "hi"), entry("a", "Ann", "assistant", "Hel")];
    history[1].complete = false;
    history[1].closed = true;
    let prompt = get_prompt("", &history);
    assert!(prompt.ends_with("User(@u1): hi\nAnn(@a): Hel\n        "));
    assert_eq!(*conversation(&history)[1].content, "Ann(@a): Hel");
}
