use yewchat::chat::{avatar_url, Chat, Msg};
use yewchat::connection::Connection;
use yewchat::event_bus::EventBus;
use yewchat::wire::{decode, ChatMessage, Envelope};

fn session(name: &str) -> (Chat, Connection, EventBus) {
    let mut wss = Connection::connect("ws://127.0.0.1:8080", true).unwrap();
    let mut bus = EventBus::new();
    let chat = Chat::create(name, &mut wss, &mut bus);
    (chat, wss, bus)
}

fn roster(chat: &Chat) -> Vec<(String, String)> {
    chat.users().iter().map(|u| (u.name.clone(), u.avatar.clone())).collect()
}

fn feed(chat: &Chat) -> Vec<(String, String)> {
    chat.messages().iter().map(|m| (m.sender.clone(), m.body.clone())).collect()
}

fn pair(a: &str, b: &str) -> (String, String) {
    (a.to_string(), b.to_string())
}

fn avatar(name: &str) -> String {
    format!("https://avatars.dicebear.com/api/adventurer-neutral/{}.svg", name)
}

fn message_frame(data: &str) -> String {
    serde_json::to_string(&serde_json::Value::Object(
        [
            ("messageType".to_string(), serde_json::Value::String("message".to_string())),
            ("data".to_string(), serde_json::Value::String(data.to_string())),
        ]
        .into_iter()
        .collect(),
    ))
    .unwrap()
}

#[test]
fn avatar_is_derived_from_the_name() {
    assert_eq!(avatar_url("alice"), "https://avatars.dicebear.com/api/adventurer-neutral/alice.svg");
    assert_eq!(avatar_url(""), "https://avatars.dicebear.com/api/adventurer-neutral/.svg");
    assert_eq!(avatar_url("a b/\u{e9}"), avatar("a b/\u{e9}"));
    assert_eq!(avatar_url("alice"), avatar_url("alice"));
}

#[test]
fn create_registers_the_user() {
    let (chat, mut wss, mut bus) = session("alice");
    assert!(chat.users().is_empty());
    assert!(chat.messages().is_empty());
    assert_eq!(chat.input(), "");
    assert!(bus.is_registered(chat.subscription()));
    assert!(bus.take(chat.subscription()).is_empty());
    let sent = wss.take_outbound();
    assert_eq!(sent.len(), 1);
    assert_eq!(sent[0], r#"{"data":"alice","messageType":"register"}"#);
    match decode(&sent[0]) {
        Ok(Envelope::Register(Some(name))) => assert_eq!(name, "alice"),
        other => panic!("unexpected {:?}", other),
    }
}

#[test]
fn create_goes_on_when_the_connection_is_closed() {
    let mut wss = Connection::connect("ws://127.0.0.1:8080", true).unwrap();
    wss.close();
    let mut bus = EventBus::new();
    let mut chat = Chat::create("alice", &mut wss, &mut bus);
    assert!(wss.take_outbound().is_empty());
    assert!(bus.is_registered(chat.subscription()));
    assert!(chat.handle_frame(r#"{"messageType":"users","dataArray":["alice"]}"#));
    assert_eq!(roster(&chat), vec![pair("alice", &avatar("alice"))]);
}

#[test]
fn users_frame_replaces_the_roster() {
    let (mut chat, mut wss, _bus) = session("alice");
    let frame = r#"{"messageType":"users","dataArray":["alice","bob"]}"#.to_string();
    assert!(chat.update(&mut wss, Msg::HandleMsg(frame)));
    assert_eq!(
        roster(&chat),
        vec![
            pair("alice", "https://avatars.dicebear.com/api/adventurer-neutral/alice.svg"),
            pair("bob", "https://avatars.dicebear.com/api/adventurer-neutral/bob.svg"),
        ]
    );
    let frame = r#"{"messageType":"users","dataArray":["carol"]}"#.to_string();
    assert!(chat.update(&mut wss, Msg::HandleMsg(frame)));
    assert_eq!(
        roster(&chat),
        vec![pair("carol", "https://avatars.dicebear.com/api/adventurer-neutral/carol.svg")]
    );
    let frame = r#"{"messageType":"users","dataArray":[]}"#.to_string();
    assert!(chat.update(&mut wss, Msg::HandleMsg(frame)));
    assert!(chat.users().is_empty());
}

#[test]
fn users_frame_keeps_repeated_names() {
    let (mut chat, _wss, _bus) = session("alice");
    assert!(chat.handle_frame(r#"{"messageType":"users","dataArray":["bob","alice","bob"]}"#));
    assert_eq!(
        roster(&chat),
        vec![
            pair("bob", &avatar("bob")),
            pair("alice", &avatar("alice")),
            pair("bob", &avatar("bob")),
        ]
    );
}

#[test]
fn users_frame_leaves_the_feed_alone() {
    let (mut chat, _wss, _bus) = session("alice");
    assert!(chat.handle_frame(&message_frame(r#"{"from":"alice","message":"hi"}"#)));
    assert!(chat.handle_frame(r#"{"messageType":"users","dataArray":["bob"]}"#));
    assert_eq!(feed(&chat), vec![pair("alice", "hi")]);
}

#[test]
fn message_frame_appends_one_entry() {
    let (mut chat, mut wss, _bus) = session("bob");
    let frame = r#"{"messageType":"message","data":"{\"from\":\"alice\",\"message\":\"hi\"}"}"#;
    assert!(chat.update(&mut wss, Msg::HandleMsg(frame.to_string())));
    assert_eq!(feed(&chat), vec![pair("alice", "hi")]);
    assert!(chat.users().is_empty());
}

#[test]
fn feed_keeps_the_order_of_arrival() {
    let (mut chat, _wss, _bus) = session("bob");
    assert!(chat.handle_frame(&message_frame(r#"{"from":"alice","message":"one"}"#)));
    assert!(chat.handle_frame(&message_frame(r#"{"from":"bob","message":"two"}"#)));
    assert!(!chat.handle_frame("garbage"));
    assert!(chat.handle_frame(&message_frame(r#"{"from":"alice","message":"one"}"#)));
    assert_eq!(feed(&chat), vec![pair("alice", "one"), pair("bob", "two"), pair("alice", "one")]);
}

#[test]
fn malformed_message_payload_is_dropped() {
    let (mut chat, _wss, _bus) = session("bob");
    assert!(chat.handle_frame(&message_frame(r#"{"from":"alice","message":"hi"}"#)));
    for data in ["hello", "", "{}", r#"{"from":"alice"}"#, r#"{"message":"hi"}"#,
        r#"{"from":"alice","message":5}"#, r#"["alice","hi"]"#, r#"{"from":"alice","message":"hi""#]
    {
        assert!(!chat.handle_frame(&message_frame(data)), "{}", data);
        assert_eq!(chat.messages().len(), 1);
    }
    assert!(!chat.handle_frame(r#"{"messageType":"message"}"#));
    assert!(!chat.handle_frame(r#"{"messageType":"message","data":null}"#));
    assert_eq!(feed(&chat), vec![pair("alice", "hi")]);
}

#[test]
fn undecodable_frames_change_nothing() {
    let (mut chat, mut wss, _bus) = session("bob");
    assert!(chat.handle_frame(r#"{"messageType":"users","dataArray":["alice"]}"#));
    assert!(chat.handle_frame(&message_frame(r#"{"from":"alice","message":"hi"}"#)));
    wss.take_outbound();
    for raw in ["", "not json", "{", "[]", "{}", r#"{"messageType":"ping"}"#,
        r#"{"messageType":"users"}"#, r#"{"messageType":"users","dataArray":[1]}"#,
        r#"{"messageType":"users","dataArray":["x"],"data":"y"}"#]
    {
        assert!(!chat.update(&mut wss, Msg::HandleMsg(raw.to_string())), "{}", raw);
        assert_eq!(roster(&chat), vec![pair("alice", &avatar("alice"))]);
        assert_eq!(feed(&chat), vec![pair("alice", "hi")]);
    }
    assert!(wss.take_outbound().is_empty());
}

#[test]
fn register_frames_are_ignored() {
    let (mut chat, mut wss, _bus) = session("bob");
    wss.take_outbound();
    assert!(!chat.handle_frame(r#"{"messageType":"register","data":"carol"}"#));
    assert!(!chat.handle_frame(r#"{"messageType":"register"}"#));
    assert!(chat.users().is_empty());
    assert!(chat.messages().is_empty());
    assert!(wss.take_outbound().is_empty());
}

#[test]
fn submitting_blank_input_sends_nothing() {
    let (mut chat, mut wss, _bus) = session("alice");
    wss.take_outbound();
    for input in ["", " ", "   ", "\t", "\n", " \t\r\n ", "\u{a0}\u{3000}"] {
        chat.set_input(input);
        assert!(!chat.update(&mut wss, Msg::SubmitMessage));
        assert!(wss.take_outbound().is_empty(), "{:?}", input);
        assert_eq!(chat.input(), "");
        assert!(chat.messages().is_empty());
        assert!(chat.users().is_empty());
    }
}

#[test]
fn submitting_text_sends_one_message() {
    let (mut chat, mut wss, _bus) = session("alice");
    wss.take_outbound();
    chat.set_input("hello");
    assert_eq!(chat.input(), "hello");
    assert!(!chat.update(&mut wss, Msg::SubmitMessage));
    let sent = wss.take_outbound();
    assert_eq!(sent, vec![r#"{"data":"hello","messageType":"message"}"#]);
    match decode(&sent[0]) {
        Ok(Envelope::Message(Some(data))) => assert_eq!(data, "hello"),
        other => panic!("unexpected {:?}", other),
    }
    assert_eq!(chat.input(), "");
    assert!(chat.messages().is_empty());
    assert!(!chat.update(&mut wss, Msg::SubmitMessage));
    assert!(wss.take_outbound().is_empty());
}

#[test]
fn submitted_text_reaches_the_feed_only_by_way_of_the_server() {
    let (mut chat, mut wss, _bus) = session("alice");
    chat.set_input("hello");
    chat.submit_message(&mut wss);
    assert!(chat.messages().is_empty());
    assert!(chat.handle_frame(&message_frame(r#"{"from":"alice","message":"hello"}"#)));
    assert_eq!(feed(&chat), vec![pair("alice", "hello")]);
}

#[test]
fn submitting_trims_the_input() {
    let (mut chat, mut wss, _bus) = session("alice");
    wss.take_outbound();
    chat.set_input("  hello  world \n");
    chat.submit_message(&mut wss);
    let sent = wss.take_outbound();
    assert_eq!(sent.len(), 1);
    match decode(&sent[0]) {
        Ok(Envelope::Message(Some(data))) => assert_eq!(data, "hello  world"),
        other => panic!("unexpected {:?}", other),
    }
}

#[test]
fn submitting_on_a_closed_connection_clears_the_input() {
    let (mut chat, mut wss, _bus) = session("alice");
    wss.take_outbound();
    wss.close();
    chat.set_input("hello");
    assert!(!chat.update(&mut wss, Msg::SubmitMessage));
    assert!(wss.take_outbound().is_empty());
    assert_eq!(chat.input(), "");
    assert!(chat.messages().is_empty());
}

#[test]
fn submissions_queue_in_order() {
    let (mut chat, mut wss, _bus) = session("alice");
    for text in ["one", " ", "two"] {
        chat.set_input(text);
        chat.submit_message(&mut wss);
    }
    let sent = wss.take_outbound();
    assert_eq!(
        sent,
        vec![
            r#"{"data":"alice","messageType":"register"}"#,
            r#"{"data":"one","messageType":"message"}"#,
            r#"{"data":"two","messageType":"message"}"#,
        ]
    );
}

#[test]
fn pump_handles_the_delivered_frames_in_order() {
    let (mut chat, wss, mut bus) = session("bob");
    assert!(!chat.pump(&mut bus));
    for raw in [
        r#"{"messageType":"users","dataArray":["alice","bob"]}"#.to_string(),
        message_frame(r#"{"from":"alice","message":"one"}"#),
        "garbage".to_string(),
        message_frame(r#"{"from":"bob","message":"two"}"#),
        r#"{"messageType":"users","dataArray":["carol"]}"#.to_string(),
    ] {
        assert!(wss.receive(&mut bus, &raw));
    }
    assert!(chat.pump(&mut bus));
    assert_eq!(roster(&chat), vec![pair("carol", &avatar("carol"))]);
    assert_eq!(feed(&chat), vec![pair("alice", "one"), pair("bob", "two")]);
    assert!(!chat.pump(&mut bus));
    assert!(wss.receive(&mut bus, "garbage"));
    assert!(wss.receive(&mut bus, r#"{"messageType":"register","data":"dave"}"#));
    assert!(!chat.pump(&mut bus));
    assert_eq!(feed(&chat), vec![pair("alice", "one"), pair("bob", "two")]);
}

#[test]
fn two_sessions_on_one_relay_see_the_same_frames() {
    let mut wss = Connection::connect("ws://host", true).unwrap();
    let mut bus = EventBus::new();
    let mut first = Chat::create("alice", &mut wss, &mut bus);
    let mut second = Chat::create("bob", &mut wss, &mut bus);
    assert!(wss.receive(&mut bus, "broken"));
    assert!(wss.receive(&mut bus, &message_frame(r#"{"from":"alice","message":"hi"}"#)));
    assert!(first.pump(&mut bus));
    assert!(wss.receive(&mut bus, &message_frame(r#"{"from":"bob","message":"ho"}"#)));
    assert!(second.pump(&mut bus));
    assert!(first.pump(&mut bus));
    assert_eq!(feed(&first), vec![pair("alice", "hi"), pair("bob", "ho")]);
    assert_eq!(feed(&second), vec![pair("alice", "hi"), pair("bob", "ho")]);
}

#[test]
fn view_resolves_avatars_in_the_roster_of_the_moment() {
    let (mut chat, _wss, _bus) = session("bob");
    assert!(chat.handle_frame(&message_frame(r#"{"from":"alice","message":"hi"}"#)));
    assert!(chat.handle_frame(&message_frame(r#"{"from":"dave","message":"cat.gif"}"#)));
    let drawn = chat.view();
    assert!(drawn.users.is_empty());
    assert_eq!(drawn.feed.len(), 2);
    assert_eq!(drawn.feed[0].avatar, None);
    assert_eq!(drawn.feed[1].avatar, None);

    assert!(chat.handle_frame(r#"{"messageType":"users","dataArray":["alice","bob"]}"#));
    let drawn = chat.view();
    assert_eq!(drawn.users.len(), 2);
    assert_eq!(drawn.users[0].name, "alice");
    assert_eq!(drawn.users[0].avatar, avatar("alice"));
    assert_eq!(drawn.users[1].name, "bob");
    assert_eq!(drawn.feed[0].sender, "alice");
    assert_eq!(drawn.feed[0].body, "hi");
    assert_eq!(drawn.feed[0].avatar, Some(avatar("alice")));
    assert!(!drawn.feed[0].is_image);
    assert_eq!(drawn.feed[1].sender, "dave");
    assert_eq!(drawn.feed[1].body, "cat.gif");
    assert_eq!(drawn.feed[1].avatar, None);
    assert!(drawn.feed[1].is_image);

    assert!(chat.handle_frame(r#"{"messageType":"users","dataArray":["dave"]}"#));
    let drawn = chat.view();
    assert_eq!(drawn.feed[0].avatar, None);
    assert_eq!(drawn.feed[1].avatar, Some(avatar("dave")));
}

#[test]
fn view_tells_pictures_by_their_ending() {
    let (mut chat, _wss, _bus) = session("bob");
    for body in [".gif", "a.gif", "gif", "a.gif ", "a.GIF", "a.gif.png", ""] {
        let data = serde_json::to_string(&serde_json::Value::Object(
            [
                ("from".to_string(), serde_json::Value::String("alice".to_string())),
                ("message".to_string(), serde_json::Value::String(body.to_string())),
            ]
            .into_iter()
            .collect(),
        ))
        .unwrap();
        assert!(chat.handle_frame(&message_frame(&data)));
    }
    let shown: Vec<bool> = chat.view().feed.iter().map(|e| e.is_image).collect();
    assert_eq!(shown, vec![true, true, false, false, false, false, false]);
}

#[test]
fn apply_acts_on_snapshots_and_chat_messages_only() {
    let (mut chat, _wss, _bus) = session("bob");
    assert!(chat.apply(&Envelope::Users(vec!["alice".to_string(), "bob".to_string()])));
    assert_eq!(roster(&chat), vec![pair("alice", &avatar("alice")), pair("bob", &avatar("bob"))]);
    let payload = r#"{"from":"alice","message":"hi"}"#.to_string();
    assert!(chat.apply(&Envelope::Message(Some(payload))));
    assert!(!chat.apply(&Envelope::Message(Some("hi".to_string()))));
    assert!(!chat.apply(&Envelope::Message(None)));
    assert!(!chat.apply(&Envelope::Register(Some("carol".to_string()))));
    assert!(!chat.apply(&Envelope::Register(None)));
    assert_eq!(roster(&chat), vec![pair("alice", &avatar("alice")), pair("bob", &avatar("bob"))]);
    assert_eq!(feed(&chat), vec![pair("alice", "hi")]);
    assert!(chat.apply(&Envelope::Users(Vec::new())));
    assert!(chat.users().is_empty());
    assert_eq!(feed(&chat), vec![pair("alice", "hi")]);
}

#[test]
fn roster_and_feed_steps() {
    let (mut chat, _wss, _bus) = session("bob");
    chat.replace_roster(&vec!["x".to_string()]);
    chat.replace_roster(&vec!["y".to_string(), "z".to_string()]);
    assert_eq!(roster(&chat), vec![pair("y", &avatar("y")), pair("z", &avatar("z"))]);
    chat.append_message(ChatMessage { sender: "y".to_string(), body: "1".to_string() });
    chat.append_message(ChatMessage { sender: "q".to_string(), body: "2".to_string() });
    assert_eq!(feed(&chat), vec![pair("y", "1"), pair("q", "2")]);
    assert_eq!(roster(&chat).len(), 2);
}

#[test]
fn outgoing_is_decided_by_the_trimmed_input() {
    let (mut chat, _wss, _bus) = session("alice");
    assert!(chat.outgoing().is_none());
    chat.set_input(" \t ");
    assert!(chat.outgoing().is_none());
    chat.set_input(" hello there ");
    match chat.outgoing() {
        Some(Envelope::Message(Some(text))) => assert_eq!(text, "hello there"),
        other => panic!("unexpected {:?}", other),
    }
    assert_eq!(chat.input(), " hello there ");
}
