use oxybot::handler::{
    greeting, log_line, room_label, Handler, HandlerConfig, HandlerError, HandlerEvent, Output,
    Request, Stage,
};
use oxybot::message::{Membership, MessageKind, RoomMessage};
use oxybot::quotes::fool_quote_at;

const FOOL: &str = "@signal_b0431c07-a3b8-44e2-8022-5fde36a5c4a5:beeper.local";

fn config(log_own_messages: bool, fool_quote_enabled: bool) -> HandlerConfig {
    HandlerConfig { log_own_messages, fool_quote_enabled }
}

fn message(membership: Membership, kind: MessageKind, sender: &str, body: &str) -> RoomMessage {
    RoomMessage {
        membership,
        kind,
        room_id: "!room:example.org".to_string(),
        sender: sender.to_string(),
        body: body.to_string(),
    }
}

fn text_in_joined_room(sender: &str, body: &str) -> RoomMessage {
    message(Membership::Joined, MessageKind::Text, sender, body)
}

fn nothing() -> Output {
    Output { log: None, request: Request::Nothing }
}

#[test]
fn greeting_for_alice() {
    let msg = text_in_joined_room("@alice", "!oxy hi");
    let (handler, first) = Handler::begin(config(true, false), "@bot".to_string(), msg);
    assert_eq!(first, Output { log: None, request: Request::ResolveRoomName });
    let (handler, second) = handler.step(HandlerEvent::RoomName(Some("Lobby".to_string())));
    assert_eq!(second.log, Some("[Lobby][@alice]: !oxy hi".to_string()));
    assert_eq!(second.request, Request::FetchProfile("@alice".to_string()));
    let (handler, third) = handler.step(HandlerEvent::Profile(Some("Alice".to_string())));
    assert_eq!(
        third,
        Output { log: None, request: Request::Reply("Well hello there Alice".to_string()) }
    );
    let (handler, last) = handler.step(HandlerEvent::Replied);
    assert_eq!(last, nothing());
    assert_eq!(handler.stage, Stage::Done);
    assert!(handler.is_finished());
}

#[test]
fn own_message_gets_no_reply() {
    let msg = text_in_joined_room("@bot", "!oxy hi");
    let (handler, first) = Handler::begin(config(true, true), "@bot".to_string(), msg);
    assert_eq!(first.request, Request::ResolveRoomName);
    let (handler, second) = handler.step(HandlerEvent::RoomName(None));
    assert_eq!(second.request, Request::Nothing);
    assert_eq!(second.log, Some("[!room:example.org][@bot]: !oxy hi".to_string()));
    assert_eq!(handler.stage, Stage::Done);
    let (handler, third) = handler.step(HandlerEvent::Profile(Some("Bot".to_string())));
    assert_eq!(third, nothing());
    assert_eq!(handler.stage, Stage::Done);
}

#[test]
fn own_message_is_not_logged_when_switched_off() {
    let msg = text_in_joined_room("@bot", "good morning");
    let (handler, _) = Handler::begin(config(false, false), "@bot".to_string(), msg);
    let (handler, output) = handler.step(HandlerEvent::RoomName(Some("Lobby".to_string())));
    assert_eq!(output, nothing());
    assert_eq!(handler.stage, Stage::Done);
}

#[test]
fn message_of_others_is_logged_when_own_are_not() {
    let msg = text_in_joined_room("@alice", "good morning");
    let (handler, _) = Handler::begin(config(false, false), "@bot".to_string(), msg);
    let (handler, output) = handler.step(HandlerEvent::RoomName(Some("Lobby".to_string())));
    assert_eq!(output.log, Some("[Lobby][@alice]: good morning".to_string()));
    assert_eq!(output.request, Request::Nothing);
    assert_eq!(handler.stage, Stage::Done);
}

#[test]
fn invited_room_is_ignored() {
    let msg = message(Membership::Invited, MessageKind::Text, "@alice", "!oxy hi");
    let (handler, first) = Handler::begin(config(true, true), "@bot".to_string(), msg);
    assert_eq!(first, nothing());
    assert_eq!(handler.stage, Stage::Done);
    let (handler, second) = handler.step(HandlerEvent::RoomName(Some("Lobby".to_string())));
    assert_eq!(second, nothing());
    let (handler, third) = handler.step(HandlerEvent::Profile(None));
    assert_eq!(third, nothing());
    assert_eq!(handler.stage, Stage::Done);
}

#[test]
fn left_room_is_ignored() {
    let msg = message(Membership::Left, MessageKind::Text, "@alice", "!oxy hi");
    let (handler, first) = Handler::begin(config(true, false), "@bot".to_string(), msg);
    assert_eq!(first, nothing());
    assert!(handler.is_finished());
}

#[test]
fn message_that_is_not_text_is_ignored() {
    let msg = message(Membership::Joined, MessageKind::Other, "@alice", "!oxy hi");
    let (handler, first) = Handler::begin(config(true, true), "@bot".to_string(), msg);
    assert_eq!(first, nothing());
    assert_eq!(handler.stage, Stage::Done);
    let (_, second) = handler.step(HandlerEvent::Replied);
    assert_eq!(second, nothing());
}

#[test]
fn profile_without_name_is_greeted_as_stranger() {
    let msg = text_in_joined_room("@alice", "!oxy");
    let (handler, _) = Handler::begin(config(true, false), "@bot".to_string(), msg);
    let (handler, _) = handler.step(HandlerEvent::RoomName(None));
    let (handler, output) = handler.step(HandlerEvent::Profile(None));
    assert_eq!(output.request, Request::Reply("Well hello there Stranger".to_string()));
    assert_eq!(handler.stage, Stage::AwaitingGreetingSent);
}

#[test]
fn prefix_must_stand_at_the_start() {
    for body in ["say !oxy", "!ox", "", " !oxy", "!OXY"] {
        let msg = text_in_joined_room("@alice", body);
        assert!(!msg.is_trigger());
        let (handler, _) = Handler::begin(config(true, false), "@bot".to_string(), msg);
        let (handler, output) = handler.step(HandlerEvent::RoomName(None));
        assert_eq!(output.request, Request::Nothing);
        assert_eq!(handler.stage, Stage::Done);
    }
    for body in ["!oxy", "!oxygen", "!oxy hi there"] {
        let msg = text_in_joined_room("@alice", body);
        assert!(msg.is_trigger());
    }
}

#[test]
fn failed_profile_fetch_ends_the_handling() {
    let msg = text_in_joined_room("@alice", "!oxy hi");
    let (handler, _) = Handler::begin(config(true, true), "@bot".to_string(), msg);
    let (handler, _) = handler.step(HandlerEvent::RoomName(None));
    let (handler, output) = handler.step(HandlerEvent::ProfileFailed);
    assert_eq!(output, nothing());
    assert_eq!(handler.stage, Stage::Aborted(HandlerError::ProfileFetch));
    assert!(handler.is_finished());
    let (handler, output) = handler.step(HandlerEvent::Profile(Some("Alice".to_string())));
    assert_eq!(output, nothing());
    assert_eq!(handler.stage, Stage::Aborted(HandlerError::ProfileFetch));
}

#[test]
fn failed_reply_ends_the_handling() {
    let msg = text_in_joined_room(FOOL, "!oxy hi");
    let (handler, _) = Handler::begin(config(true, true), "@bot".to_string(), msg);
    let (handler, _) = handler.step(HandlerEvent::RoomName(None));
    let (handler, _) = handler.step(HandlerEvent::Profile(None));
    let (handler, output) = handler.step(HandlerEvent::ReplyFailed);
    assert_eq!(output, nothing());
    assert_eq!(handler.stage, Stage::Aborted(HandlerError::Reply));
    let (handler, output) = handler.step(HandlerEvent::Replied);
    assert_eq!(output, nothing());
    assert_eq!(handler.stage, Stage::Aborted(HandlerError::Reply));
}

#[test]
fn failed_quote_ends_the_handling() {
    let msg = text_in_joined_room(FOOL, "hello");
    let (handler, _) = Handler::begin(config(true, true), "@bot".to_string(), msg);
    let (handler, _) = handler.step(HandlerEvent::RoomName(None));
    assert_eq!(handler.stage, Stage::AwaitingQuoteSent);
    let (handler, output) = handler.step(HandlerEvent::ReplyFailed);
    assert_eq!(output, nothing());
    assert_eq!(handler.stage, Stage::Aborted(HandlerError::Reply));
}

#[test]
fn fool_sender_gets_a_quote() {
    let first_quote = "A fool thinks himself to be wise, but a wise man knows himself to be a fool.";
    let second_quote = "The first principle is that you must not fool yourself and you are the easiest person to fool.";
    for index in 0..2usize {
        let msg = text_in_joined_room(FOOL, "hello");
        let (handler, _) = Handler::begin(config(true, true), "@bot".to_string(), msg);
        assert!(handler.quote_due());
        let event = HandlerEvent::RoomName(Some("Bridge".to_string()));
        assert!(handler.quotes_next(&event));
        let (handler, output) = handler.step_with_quote(event, index);
        let expected = if index == 0 { first_quote } else { second_quote };
        assert_eq!(output.request, Request::Reply(expected.to_string()));
        assert_eq!(output.request, Request::Reply(fool_quote_at(index).to_string()));
        assert_eq!(handler.stage, Stage::AwaitingQuoteSent);
        let (handler, output) = handler.step(HandlerEvent::Replied);
        assert_eq!(output, nothing());
        assert_eq!(handler.stage, Stage::Done);
    }
}

#[test]
fn fool_sender_gets_a_random_quote() {
    let first_quote = fool_quote_at(0).to_string();
    let second_quote = fool_quote_at(1).to_string();
    for _ in 0..50 {
        let msg = text_in_joined_room(FOOL, "hello");
        let (handler, _) = Handler::begin(config(true, true), "@bot".to_string(), msg);
        let (_, output) = handler.step(HandlerEvent::RoomName(None));
        match output.request {
            Request::Reply(text) => assert!(text == first_quote || text == second_quote),
            other => panic!("a quotation was due, not {:?}", other),
        }
    }
}

#[test]
fn fool_sender_gets_nothing_when_switched_off() {
    let msg = text_in_joined_room(FOOL, "hello");
    let (handler, _) = Handler::begin(config(true, false), "@bot".to_string(), msg);
    assert!(!handler.quote_due());
    let (handler, output) = handler.step(HandlerEvent::RoomName(None));
    assert_eq!(output.request, Request::Nothing);
    assert_eq!(handler.stage, Stage::Done);
}

#[test]
fn trigger_from_fool_sender_gets_greeting_then_quote() {
    let msg = text_in_joined_room(FOOL, "!oxy hi");
    let (handler, _) = Handler::begin(config(true, true), "@bot".to_string(), msg);
    let (handler, output) = handler.step_with_quote(HandlerEvent::RoomName(None), 1);
    assert_eq!(output.request, Request::FetchProfile(FOOL.to_string()));
    let (handler, output) =
        handler.step_with_quote(HandlerEvent::Profile(Some("Feste".to_string())), 1);
    assert_eq!(output.request, Request::Reply("Well hello there Feste".to_string()));
    let (handler, output) = handler.step_with_quote(HandlerEvent::Replied, 1);
    assert_eq!(output.request, Request::Reply(fool_quote_at(1).to_string()));
    assert_eq!(handler.stage, Stage::AwaitingQuoteSent);
    let (handler, output) = handler.step_with_quote(HandlerEvent::Replied, 1);
    assert_eq!(output, nothing());
    assert_eq!(handler.stage, Stage::Done);
}

#[test]
fn bot_that_is_the_fool_sender_is_not_answered() {
    let msg = text_in_joined_room(FOOL, "!oxy hi");
    let (handler, _) = Handler::begin(config(true, true), FOOL.to_string(), msg);
    assert!(!handler.quote_due());
    let (handler, output) = handler.step(HandlerEvent::RoomName(None));
    assert_eq!(output.request, Request::Nothing);
    assert_eq!(handler.stage, Stage::Done);
}

#[test]
fn event_out_of_turn_changes_nothing() {
    let msg = text_in_joined_room("@alice", "!oxy hi");
    let (handler, _) = Handler::begin(config(true, false), "@bot".to_string(), msg);
    let before = handler.clone();
    let (handler, output) = handler.step(HandlerEvent::Replied);
    assert_eq!(output, nothing());
    assert_eq!(handler, before);
    let (handler, output) = handler.step(HandlerEvent::Profile(Some("Alice".to_string())));
    assert_eq!(output, nothing());
    assert_eq!(handler, before);
    let (handler, _) = handler.step(HandlerEvent::RoomName(None));
    assert_eq!(handler.stage, Stage::AwaitingProfile);
    let (handler, output) = handler.step(HandlerEvent::RoomName(Some("Lobby".to_string())));
    assert_eq!(output, nothing());
    assert_eq!(handler.stage, Stage::AwaitingProfile);
    assert!(!handler.is_finished());
}

#[test]
fn room_label_falls_back_to_the_room_id() {
    assert_eq!(room_label(Some("Lobby".to_string()), "!abc:example.org"), "Lobby");
    assert_eq!(room_label(None, "!abc:example.org"), "!abc:example.org");
    assert_eq!(room_label(Some(String::new()), "!abc:example.org"), "");
}

#[test]
fn log_line_has_room_sender_and_body() {
    assert_eq!(log_line("Lobby", "@alice:example.org", "hi"), "[Lobby][@alice:example.org]: hi");
    assert_eq!(log_line("", "", ""), "[][]: ");
}

#[test]
fn greeting_addresses_the_display_name() {
    assert_eq!(greeting(Some("Alice".to_string())), "Well hello there Alice");
    assert_eq!(greeting(None), "Well hello there Stranger");
    assert_eq!(greeting(Some(String::new())), "Well hello there ");
}

#[test]
fn message_predicates() {
    let msg = text_in_joined_room("@alice", "!oxy hi");
    assert!(msg.is_relevant());
    assert!(msg.sent_by("@alice"));
    assert!(!msg.sent_by("@alic"));
    assert!(!msg.sent_by("@alice:example.org"));
    assert!(!msg.from_fool_sender());
    assert!(text_in_joined_room(FOOL, "x").from_fool_sender());
    assert!(!message(Membership::Joined, MessageKind::Other, "@a", "x").is_relevant());
    assert!(!message(Membership::Invited, MessageKind::Text, "@a", "x").is_relevant());
    assert!(!message(Membership::Left, MessageKind::Text, "@a", "x").is_relevant());
}

#[test]
fn handler_errors_in_words() {
    assert_eq!(HandlerError::ProfileFetch.describe(), "the sender's profile could not be fetched");
    assert_eq!(HandlerError::Reply.describe(), "a reply could not be sent");
}

#[test]
fn no_message_is_answered_more_than_twice() {
    let events = [
        HandlerEvent::RoomName(None),
        HandlerEvent::Profile(None),
        HandlerEvent::Replied,
        HandlerEvent::Replied,
        HandlerEvent::Profile(Some("Feste".to_string())),
        HandlerEvent::Replied,
        HandlerEvent::RoomName(Some("Bridge".to_string())),
        HandlerEvent::Replied,
    ];
    let msg = text_in_joined_room(FOOL, "!oxy hi");
    let (mut handler, mut output) = Handler::begin(config(true, true), "@bot".to_string(), msg);
    let mut replies = 0;
    for event in events {
        if matches!(output.request, Request::Reply(_)) {
            replies += 1;
        }
        let (next, then) = handler.step(event);
        handler = next;
        output = then;
    }
    assert_eq!(output, nothing());
    assert_eq!(replies, 2);
    assert_eq!(handler.stage, Stage::Done);
}
