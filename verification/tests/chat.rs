use sremp::chat::messages::Message;
use sremp::chat::Chat;
use sremp::error::CoreError;
use sremp::identity::ContactId;
use sremp::time::Timestamp;

fn message(text: &str, secs: i64, nanos: u32) -> Message {
    Message::new(text.to_string(), ContactId::from_key([5u8; 32]), Timestamp::new(secs, nanos))
}

fn texts(chat: &Chat) -> Vec<String> {
    chat.messages().iter().map(|m| m.text.clone()).collect()
}

#[test]
fn new_chat_is_empty() {
    let chat = Chat::new();
    assert!(chat.messages().is_empty());
    assert_eq!(chat.latest_timestamp(), None);
    assert_eq!(Chat::default(), chat);
}

#[test]
fn chat_keeps_messages_ordered_by_time_of_receipt() {
    let mut chat = Chat::new();
    chat.add_message(message("c", 30, 0));
    chat.add_message(message("a", 10, 0));
    chat.add_message(message("b", 20, 0));
    chat.add_message(message("d", 40, 0));
    assert_eq!(texts(&chat), vec!["a", "b", "c", "d"]);
    assert_eq!(chat.latest_timestamp(), Some(Timestamp::new(40, 0)));
}

#[test]
fn chat_orders_by_nanoseconds_within_a_second() {
    let mut chat = Chat::new();
    chat.add_message(message("late", 10, 900));
    chat.add_message(message("early", 10, 100));
    chat.add_message(message("before", 9, 999_999_999));
    assert_eq!(texts(&chat), vec!["before", "early", "late"]);
}

#[test]
fn chat_puts_a_message_behind_those_of_the_same_time() {
    let mut chat = Chat::new();
    chat.add_message(message("first", 10, 0));
    chat.add_message(message("second", 10, 0));
    chat.add_message(message("zero", 5, 0));
    chat.add_message(message("third", 10, 0));
    assert_eq!(texts(&chat), vec!["zero", "first", "second", "third"]);
}

#[test]
fn chat_orders_negative_times() {
    let mut chat = Chat::new();
    chat.add_message(message("epoch", 0, 0));
    chat.add_message(message("before", -1, 999));
    chat.add_message(message("long before", -100, 0));
    assert_eq!(texts(&chat), vec!["long before", "before", "epoch"]);
}

#[test]
fn chat_clone_is_equal() {
    let mut chat = Chat::new();
    chat.add_message(message("a", 1, 0));
    chat.add_message(message("b", 2, 0));
    assert_eq!(chat.clone(), chat);
}

#[test]
fn message_wire_round_trip() {
    let sent = message("hello there", 1_700_000_000, 42);
    let wire = sent.to_wire().unwrap();
    let back = Message::from_wire(&wire).unwrap();
    assert_eq!(back, sent);
    assert_eq!(back.text, "hello there");
    assert_eq!(back.meta().author_id, ContactId::from_key([5u8; 32]));
    assert_eq!(back.meta().time_received, Timestamp::new(1_700_000_000, 42));
}

#[test]
fn message_wire_is_messagepack_of_text_author_and_time() {
    let wire = message("hi", 3, 4).to_wire().unwrap();
    let mut expected: Vec<u8> = vec![0x93, 0xa2, b'h', b'i', 0xdc, 0x00, 0x20];
    expected.extend_from_slice(&[5u8; 32]);
    expected.extend_from_slice(&[0x92, 0x03, 0x04]);
    assert_eq!(wire, expected);
}

#[test]
fn message_from_wire_rejects_other_bytes() {
    assert_eq!(Message::from_wire(b""), Err(CoreError::MessagePackDecode));
    assert_eq!(Message::from_wire(b"hello"), Err(CoreError::MessagePackDecode));
    let mut wire = message("hi", 3, 4).to_wire().unwrap();
    wire.truncate(wire.len() - 1);
    assert_eq!(Message::from_wire(&wire), Err(CoreError::MessagePackDecode));
}

#[test]
fn chat_from_messages_orders_them_and_keeps_ties_in_order() {
    let chat = Chat::from_messages(vec![
        message("c", 30, 0),
        message("a1", 10, 0),
        message("b", 20, 0),
        message("a2", 10, 0),
    ]);
    assert_eq!(texts(&chat), vec!["a1", "a2", "b", "c"]);
    let mut step_by_step = Chat::new();
    step_by_step.add_message(message("c", 30, 0));
    step_by_step.add_message(message("a1", 10, 0));
    step_by_step.add_message(message("b", 20, 0));
    step_by_step.add_message(message("a2", 10, 0));
    assert_eq!(chat, step_by_step);
    assert_eq!(Chat::from_messages(Vec::new()), Chat::new());
}

#[test]
fn checked_wire_form_is_the_wire_form() {
    let sent = message("hello there", 1_700_000_000, 42);
    let wire = sent.to_wire_checked().unwrap();
    assert_eq!(wire, sent.to_wire().unwrap());
    assert_eq!(Message::from_wire(&wire), Ok(sent));
}
