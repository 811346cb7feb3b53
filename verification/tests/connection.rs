use tsbot::connection::{
    connect_step, connection_settings, settings_with, Config, ConnectError, ConnectStep,
    IdentityError,
};
use tsbot::server::{ServerItem, StreamPoll};

const KEY: &str = "MG8DAgeAAgEgAiEA6rtKxDn/o/Bo50rNtAE5Ph3h2RKLHQ0gbFkvm2yA79kCIQCrfzAZts/\
                   vHP+3MOetKLjNnpZXt4c6U3UB4gWLKR4H9AIgYTyJofmztcTBjq3KZcDdxu+G4RPVwE5vg8VaN2jbQao=";

fn config(id: &str) -> Config {
    Config {
        host: "example.org".to_string(),
        password: "open sesame".to_string(),
        name: "bot".to_string(),
        id: id.to_string(),
    }
}

#[test]
fn settings_follow_the_configuration() {
    let settings = connection_settings(config(&format!("2792354V{}", KEY))).unwrap();
    assert_eq!(settings.address, "example.org");
    assert_eq!(settings.name, "bot");
    assert_eq!(settings.password, "open sesame");
    assert!(!settings.log_commands);
    assert!(!settings.log_packets);
    assert!(!settings.log_udp_packets);
    assert_eq!(settings.identity.counter(), 2792354);
    assert_eq!(settings.identity.key().to_pub().get_uid(), "test/9PZ9vww/Bpf5vJxtJhpz80=");
}

#[test]
fn a_key_without_a_counter_is_read_too() {
    let settings = connection_settings(config(KEY)).unwrap();
    assert_eq!(settings.identity.key().to_pub().get_uid(), "test/9PZ9vww/Bpf5vJxtJhpz80=");
    assert!(settings.identity.level() >= 8);
}

#[test]
fn a_key_that_is_none_is_refused() {
    let error = connection_settings(config("no key")).unwrap_err();
    assert_eq!(error.message(), format!("Could not parse identity: {}", error.why));
    assert_ne!(error.why, "no key");
    assert!(!error.why.is_empty());
}

#[test]
fn the_complaint_is_kept() {
    let error = settings_with(config(KEY), Err("broken".to_string())).unwrap_err();
    assert_eq!(error, IdentityError { why: "broken".to_string() });
    assert_eq!(error.message(), "Could not parse identity: broken");
}

#[test]
fn book_events_make_the_connection() {
    assert_eq!(
        connect_step::<String>(StreamPoll::Item(ServerItem::BookEvents(Vec::new()))),
        ConnectStep::Connected
    );
}

#[test]
fn other_items_are_passed_over() {
    assert_eq!(
        connect_step::<String>(StreamPoll::Item(ServerItem::NetworkStatsUpdated)),
        ConnectStep::Wait
    );
    assert_eq!(connect_step::<String>(StreamPoll::Item(ServerItem::Other)), ConnectStep::Wait);
}

#[test]
fn a_stream_that_ends_or_fails_makes_no_connection() {
    assert_eq!(
        connect_step::<String>(StreamPoll::Ended),
        ConnectStep::Failed(ConnectError::NoEvents)
    );
    assert_eq!(
        connect_step(StreamPoll::Failed("refused".to_string())),
        ConnectStep::Failed(ConnectError::Server("refused".to_string()))
    );
    assert_eq!(
        ConnectError::<String>::NoEvents.message(),
        "Could not connect to the server. Received no events."
    );
    assert_eq!(
        ConnectError::Server("refused".to_string()).message(),
        "Could not connect to the server: refused"
    );
}
