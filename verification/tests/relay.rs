use tsbot::audio::music_packet;
use tsbot::relay::{relay_accepts, relay_step, RelayEffect, RelayEvent, RelayStage};
use tsbot::server::{ServerItem, StreamPoll};

type Event = RelayEvent<String>;
type Effect = RelayEffect<String>;

fn book() -> Event {
    Event::Polled(StreamPoll::Item(ServerItem::BookEvents(Vec::new())))
}

fn next(stage: &mut RelayStage, event: Event) -> Effect {
    assert!(relay_accepts(*stage, &event));
    relay_step(stage, event)
}

#[test]
fn book_events_are_answered_with_silence_and_a_link() {
    let mut stage = RelayStage::Listening;
    assert_eq!(next(&mut stage, book()), Effect::StartTaskAndSend(music_packet(&[])));
    assert_eq!(
        next(&mut stage, Event::AudioSent(true)),
        Effect::SendLink("https://www.youtube.com/watch?v=5qap5aO4i9A".to_string())
    );
    assert_eq!(next(&mut stage, Event::LinkSent), Effect::Listen);
    assert_eq!(stage, RelayStage::Listening);
}

#[test]
fn no_link_follows_a_packet_that_was_not_sent() {
    let mut stage = RelayStage::Listening;
    next(&mut stage, book());
    assert_eq!(next(&mut stage, Event::AudioSent(false)), Effect::Listen);
    assert_eq!(stage, RelayStage::Listening);
}

#[test]
fn other_items_are_not_answered() {
    let mut stage = RelayStage::Listening;
    for item in [ServerItem::NetworkStatsUpdated, ServerItem::Other] {
        assert_eq!(next(&mut stage, Event::Polled(StreamPoll::Item(item))), Effect::Listen);
        assert_eq!(stage, RelayStage::Listening);
    }
}

#[test]
fn the_relay_leaves_with_the_stream() {
    let mut stage = RelayStage::Listening;
    assert_eq!(
        next(&mut stage, Event::Polled(StreamPoll::Ended)),
        Effect::DisconnectAndQuit { message: "Disconnected by user".to_string() }
    );
    assert_eq!(stage, RelayStage::Over);
    assert!(!relay_accepts(stage, &book()));

    let mut stage = RelayStage::Listening;
    assert_eq!(
        next(&mut stage, Event::Polled(StreamPoll::Failed("gone".to_string()))),
        Effect::Fail("gone".to_string())
    );
    assert_eq!(stage, RelayStage::Over);
}

#[test]
fn the_relay_takes_only_what_it_waits_for() {
    assert!(!relay_accepts(RelayStage::Listening, &Event::LinkSent));
    assert!(!relay_accepts(RelayStage::Announcing, &book()));
    assert!(!relay_accepts(RelayStage::Requesting, &Event::AudioSent(true)));
}
