use tsbot::command::Action;
use tsbot::server::{chat_actions, BookEvent, ServerItem};

fn message(s: &str) -> BookEvent {
    BookEvent::Message { message: s.to_string() }
}

#[test]
fn messages_are_read_in_order() {
    let item = ServerItem::BookEvents(vec![
        BookEvent::Other,
        message("!yt a"),
        BookEvent::Other,
        message("hello"),
        message("!stop"),
    ]);
    assert_eq!(
        chat_actions(&item),
        Some(vec![Action::PlayAudio("a".to_string()), Action::Nothing, Action::Stop])
    );
}

#[test]
fn items_without_messages_ask_for_nothing() {
    assert_eq!(chat_actions(&ServerItem::BookEvents(Vec::new())), Some(Vec::new()));
    assert_eq!(chat_actions(&ServerItem::BookEvents(vec![BookEvent::Other])), Some(Vec::new()));
    assert_eq!(chat_actions(&ServerItem::NetworkStatsUpdated), Some(Vec::new()));
    assert_eq!(chat_actions(&ServerItem::Other), Some(Vec::new()));
}

#[test]
fn one_message_that_cannot_be_read_spoils_the_item() {
    let item = ServerItem::BookEvents(vec![message("!stop"), message("ü"), message("!yt a")]);
    assert_eq!(chat_actions(&item), None);
}
