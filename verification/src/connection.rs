//! Getting connected to a server.
use tsclientlib::Identity;
use vstd::prelude::*;

use crate::server::{BookEvent, ServerItem, StreamPoll};

verus! {

/// The identity by which a client is known to servers.
#[verifier::external_type_specification]
#[verifier::external_body]
pub struct ExIdentity(Identity);

/// What the bot is told of the server and of itself.
#[derive(Debug, PartialEq, Eq)]
pub struct Config {
    /// The address of the server.
    pub host: String,
    /// The password of the server.
    pub password: String,
    /// The name that the bot goes by.
    pub name: String,
    /// The key of the bot's identity.
    pub id: String,
}

/// How to connect to a server.
#[derive(Debug)]
pub struct ConnectionSettings {
    pub address: String,
    pub identity: Identity,
    pub name: String,
    pub password: String,
    pub log_commands: bool,
    pub log_packets: bool,
    pub log_udp_packets: bool,
}

/// A key that no identity can be read from, and the complaint about it.
#[derive(Debug, PartialEq, Eq)]
pub struct IdentityError {
    pub why: String,
}

/// Why no connection came about; `E` is how the event stream fails.
#[derive(Debug, PartialEq, Eq)]
pub enum ConnectError<E> {
    /// The event stream ended before the server said anything.
    NoEvents,
    /// The event stream failed.
    Server(E),
}

/// What waiting for the connection comes to; `E` is how the event stream fails.
#[derive(Debug, PartialEq, Eq)]
pub enum ConnectStep<E> {
    /// Wait for the next item.
    Wait,
    /// The connection is there.
    Connected,
    /// It will not come about.
    Failed(ConnectError<E>),
}

/// The identity that a key stands for, or the complaint about the key.
pub uninterp spec fn identity_of(key: Seq<char>) -> Result<Identity, Seq<char>>;

/// `tsclientlib::Identity::new_from_str`: it reads a key in any of the known formats, and goes by
/// the key alone; of an error the debug text is kept.
#[verifier::external_body]
fn read_identity(key: &str) -> (r: Result<Identity, String>)
    ensures
        match r {
            Ok(identity) => identity_of(key@) == Ok::<Identity, Seq<char>>(identity),
            Err(why) => identity_of(key@) == Err::<Identity, Seq<char>>(why@),
        },
{
    match Identity::new_from_str(key) {
        Ok(identity) => Ok(identity),
        Err(why) => Err(format!("{:?}", why)),
    }
}

/// How to connect as a configuration says, once its key was read.
pub fn settings_with(config: Config, identity: Result<Identity, String>) -> (r: Result<
    ConnectionSettings,
    IdentityError,
>)
    ensures
        r == match identity {
            Ok(identity) => Ok::<ConnectionSettings, IdentityError>(
                ConnectionSettings {
                    address: config.host,
                    identity,
                    name: config.name,
                    password: config.password,
                    log_commands: false,
                    log_packets: false,
                    log_udp_packets: false,
                },
            ),
            Err(why) => Err::<ConnectionSettings, IdentityError>(IdentityError { why }),
        },
{
    match identity {
        Ok(identity) => Ok(
            ConnectionSettings {
                address: config.host,
                identity,
                name: config.name,
                password: config.password,
                log_commands: false,
                log_packets: false,
                log_udp_packets: false,
            },
        ),
        Err(why) => Err(IdentityError { why }),
    }
}

/// How to connect as a configuration says.
pub fn connection_settings(config: Config) -> (r: Result<ConnectionSettings, IdentityError>)
    ensures
        match identity_of(config.id@) {
            Ok(identity) => r == Ok::<ConnectionSettings, IdentityError>(
                ConnectionSettings {
                    address: config.host,
                    identity,
                    name: config.name,
                    password: config.password,
                    log_commands: false,
                    log_packets: false,
                    log_udp_packets: false,
                },
            ),
            Err(why) => r matches Err(error) && error.why@ == why,
        },
{
    let identity = read_identity(config.id.as_str());
    settings_with(config, identity)
}

impl IdentityError {
    /// What the bot says of a key that it cannot read.
    pub fn message(&self) -> (r: String)
        ensures
            r@ == "Could not parse identity: "@ + self.why@,
    {
        let mut message = "Could not parse identity: ".to_string();
        message.append(self.why.as_str());
        message
    }
}

impl ConnectError<String> {
    /// What the bot says where it could not connect.
    pub fn message(&self) -> (r: String)
        ensures
            r@ == match *self {
                ConnectError::NoEvents =>
                    "Could not connect to the server. Received no events."@,
                ConnectError::Server(why) => "Could not connect to the server: "@ + why@,
            },
    {
        match self {
            ConnectError::NoEvents => {
                "Could not connect to the server. Received no events.".to_string()
            },
            ConnectError::Server(why) => {
                let mut message = "Could not connect to the server: ".to_string();
                message.append(why.as_str());
                message
            },
        }
    }
}

/// What an answer of the event stream means to a bot that waits for its connection: it is there
/// with the first book events, whatever other items come before them.
pub open spec fn connect_next<E>(poll: StreamPoll<E>) -> ConnectStep<E> {
    match poll {
        StreamPoll::Ended => ConnectStep::Failed(ConnectError::NoEvents),
        StreamPoll::Failed(why) => ConnectStep::Failed(ConnectError::Server(why)),
        StreamPoll::Item(ServerItem::BookEvents(_)) => ConnectStep::Connected,
        StreamPoll::Item(_) => ConnectStep::Wait,
    }
}

/// What an answer of the event stream means to a bot that waits for its connection.
pub fn connect_step<E>(poll: StreamPoll<E>) -> (r: ConnectStep<E>)
    ensures
        r == connect_next(poll),
{
    match poll {
        StreamPoll::Ended => ConnectStep::Failed(ConnectError::NoEvents),
        StreamPoll::Failed(why) => ConnectStep::Failed(ConnectError::Server(why)),
        StreamPoll::Item(ServerItem::BookEvents(_)) => ConnectStep::Connected,
        StreamPoll::Item(_) => ConnectStep::Wait,
    }
}

/// What a row of answers of the event stream comes to: the first that is more than waiting
/// decides.
pub open spec fn connect_outcome<E>(polls: Seq<StreamPoll<E>>) -> ConnectStep<E>
    decreases polls.len(),
{
    if polls.len() == 0 {
        ConnectStep::Wait
    } else {
        match connect_next(polls[0]) {
            ConnectStep::Wait => connect_outcome(polls.skip(1)),
            step => step,
        }
    }
}

/// Items that are no book events make no difference to the outcome of connecting.
pub proof fn law_other_items_are_passed_over<E>(
    others: Seq<StreamPoll<E>>,
    polls: Seq<StreamPoll<E>>,
)
    requires
        forall|i: int|
            0 <= i < others.len() ==> (#[trigger] others[i] matches StreamPoll::Item(item)
                && item !is BookEvents),
    ensures
        connect_outcome(others + polls) == connect_outcome(polls),
    decreases others.len(),
{
    if others.len() == 0 {
        assert(others + polls == polls);
    } else {
        assert(others[0] is Item);
        assert forall|i: int| 0 <= i < others.skip(1).len() implies (
        #[trigger] others.skip(1)[i] matches StreamPoll::Item(item) && item !is BookEvents) by {
            assert(others.skip(1)[i] == others[i + 1]);
        }
        law_other_items_are_passed_over(others.skip(1), polls);
        assert((others + polls).skip(1) == others.skip(1) + polls);
    }
}

/// Whether some answers of the event stream are all items other than book events.
pub open spec fn all_other_items<E>(polls: Seq<StreamPoll<E>>) -> bool {
    forall|i: int|
        0 <= i < polls.len() ==> (#[trigger] polls[i] == StreamPoll::<E>::Item(
            ServerItem::NetworkStatsUpdated,
        ) || polls[i] == StreamPoll::<E>::Item(ServerItem::Other))
}

/// The first book events make the connection, whatever they hold, whatever other items came before
/// them and whatever comes behind.
pub proof fn law_book_events_connect<E>(
    others: Seq<StreamPoll<E>>,
    events: Vec<BookEvent>,
    rest: Seq<StreamPoll<E>>,
)
    requires
        all_other_items(others),
    ensures
        connect_next(StreamPoll::<E>::Item(ServerItem::BookEvents(events))) is Connected,
        connect_outcome(others + seq![StreamPoll::Item(ServerItem::BookEvents(events))] + rest)
            is Connected,
{
    lemma_decided(others, StreamPoll::Item(ServerItem::BookEvents(events)), rest);
}

/// A stream that ends before any book events leaves the bot without a connection, for want of
/// events.
pub proof fn law_end_of_stream_fails<E>(others: Seq<StreamPoll<E>>, rest: Seq<StreamPoll<E>>)
    requires
        all_other_items(others),
    ensures
        connect_next(StreamPoll::<E>::Ended) == ConnectStep::<E>::Failed(ConnectError::NoEvents),
        connect_outcome(others + seq![StreamPoll::Ended] + rest) == ConnectStep::<E>::Failed(
            ConnectError::NoEvents,
        ),
{
    lemma_decided(others, StreamPoll::Ended, rest);
}

/// A stream that fails before any book events leaves the bot without a connection, and with that
/// very failure.
pub proof fn law_failure_of_stream_is_told<E>(
    others: Seq<StreamPoll<E>>,
    why: E,
    rest: Seq<StreamPoll<E>>,
)
    requires
        all_other_items(others),
    ensures
        connect_next(StreamPoll::Failed(why)) == ConnectStep::Failed(ConnectError::Server(why)),
        connect_outcome(others + seq![StreamPoll::Failed(why)] + rest) == ConnectStep::Failed(
            ConnectError::Server(why),
        ),
{
    lemma_decided(others, StreamPoll::Failed(why), rest);
}

/// The bot waits on for as long as nothing but other items comes.
pub proof fn law_other_items_decide_nothing<E>(others: Seq<StreamPoll<E>>)
    requires
        all_other_items(others),
    ensures
        connect_outcome(others) is Wait,
        forall|i: int| 0 <= i < others.len() ==> connect_next(#[trigger] others[i]) is Wait,
{
    lemma_others(others);
    law_other_items_are_passed_over(others, Seq::empty());
    assert(others + Seq::<StreamPoll<E>>::empty() == others);
}

proof fn lemma_others<E>(others: Seq<StreamPoll<E>>)
    requires
        all_other_items(others),
    ensures
        forall|i: int|
            0 <= i < others.len() ==> (#[trigger] others[i] matches StreamPoll::Item(item)
                && item !is BookEvents),
{
}

/// An answer that is more than waiting decides, behind any other items.
proof fn lemma_decided<E>(
    others: Seq<StreamPoll<E>>,
    poll: StreamPoll<E>,
    rest: Seq<StreamPoll<E>>,
)
    requires
        all_other_items(others),
        connect_next(poll) !is Wait,
    ensures
        connect_outcome(others + seq![poll] + rest) == connect_next(poll),
{
    lemma_others(others);
    assert(others + seq![poll] + rest == others + (seq![poll] + rest));
    law_other_items_are_passed_over(others, seq![poll] + rest);
    assert((seq![poll] + rest)[0] == poll);
}

} // verus!
