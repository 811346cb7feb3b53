//! A simpler bot: it answers everything that happens on the server with one and the same link.
use vstd::prelude::*;

use crate::audio::{law_music_bytes, music_bytes, music_packet};
use crate::server::{BookEvent, ServerItem, StreamPoll};

verus! {

/// What the relay is waiting for.
#[derive(Debug, Clone, Copy, PartialEq, Eq)]
pub enum RelayStage {
    /// The next item of the event stream.
    Listening,
    /// The silent packet to be sent.
    Announcing,
    /// The link to be handed to the task.
    Requesting,
    /// Nothing: it is over.
    Over,
}

/// What happened to the relay; `E` is how the event stream fails.
#[derive(Debug, PartialEq, Eq)]
pub enum RelayEvent<E> {
    /// The event stream was asked for its next item.
    Polled(StreamPoll<E>),
    /// The silent packet was sent, or could not be.
    AudioSent(bool),
    /// The link was handed to the task.
    LinkSent,
}

/// What the relay needs done next; `S` is how texts are held, `B` how bytes are, `E` how the event
/// stream fails.
#[derive(Debug, PartialEq, Eq)]
pub enum RelayEffectOf<S, B, E> {
    /// Ask the event stream for its next item.
    Listen,
    /// Start a task, and send a packet to the server.
    StartTaskAndSend(B),
    /// Hand a link to the task started last.
    SendLink(S),
    /// Disconnect with a message, and leave.
    DisconnectAndQuit { message: S },
    /// Fail with the event stream's error, without a word to the server.
    Fail(E),
}

/// What the relay needs done next.
pub type RelayEffect<E> = RelayEffectOf<String, Vec<u8>, E>;

/// The mathematical form of an effect.
pub type RelayEffectModel<E> = RelayEffectOf<Seq<char>, Seq<u8>, E>;

impl<E> View for RelayEffectOf<String, Vec<u8>, E> {
    type V = RelayEffectOf<Seq<char>, Seq<u8>, E>;

    open spec fn view(&self) -> RelayEffectOf<Seq<char>, Seq<u8>, E> {
        match *self {
            RelayEffectOf::Listen => RelayEffectOf::Listen,
            RelayEffectOf::StartTaskAndSend(packet) => RelayEffectOf::StartTaskAndSend(packet@),
            RelayEffectOf::SendLink(link) => RelayEffectOf::SendLink(link@),
            RelayEffectOf::DisconnectAndQuit { message } => RelayEffectOf::DisconnectAndQuit {
                message: message@,
            },
            RelayEffectOf::Fail(why) => RelayEffectOf::Fail(why),
        }
    }
}

/// The stage that an event leads to, and the effect to follow; none where the event is not what
/// the relay waits for.
pub open spec fn relay_next<E>(stage: RelayStage, event: RelayEvent<E>) -> Option<
    (RelayStage, RelayEffectModel<E>),
> {
    match (stage, event) {
        (RelayStage::Listening, RelayEvent::Polled(StreamPoll::Ended)) => Some(
            (
                RelayStage::Over,
                RelayEffectOf::DisconnectAndQuit { message: "Disconnected by user"@ },
            ),
        ),
        (RelayStage::Listening, RelayEvent::Polled(StreamPoll::Failed(why))) => Some(
            (RelayStage::Over, RelayEffectOf::Fail(why)),
        ),
        (
            RelayStage::Listening,
            RelayEvent::Polled(StreamPoll::Item(ServerItem::BookEvents(_))),
        ) => Some(
            (RelayStage::Announcing, RelayEffectOf::StartTaskAndSend(music_bytes(Seq::empty()))),
        ),
        (RelayStage::Listening, RelayEvent::Polled(StreamPoll::Item(_))) => Some(
            (RelayStage::Listening, RelayEffectOf::Listen),
        ),
        (RelayStage::Announcing, RelayEvent::AudioSent(sent)) => if sent {
            Some(
                (
                    RelayStage::Requesting,
                    RelayEffectOf::SendLink("https://www.youtube.com/watch?v=5qap5aO4i9A"@),
                ),
            )
        } else {
            Some((RelayStage::Listening, RelayEffectOf::Listen))
        },
        (RelayStage::Requesting, RelayEvent::LinkSent) => Some(
            (RelayStage::Listening, RelayEffectOf::Listen),
        ),
        _ => None,
    }
}

/// Whether an event is what the relay waits for.
pub fn relay_accepts<E>(stage: RelayStage, event: &RelayEvent<E>) -> (r: bool)
    ensures
        r == (relay_next(stage, *event) is Some),
{
    match (stage, event) {
        (RelayStage::Listening, RelayEvent::Polled(_)) => true,
        (RelayStage::Announcing, RelayEvent::AudioSent(_)) => true,
        (RelayStage::Requesting, RelayEvent::LinkSent) => true,
        _ => false,
    }
}

/// Takes the event that the relay waits for, and names the effect to follow.
pub fn relay_step<E>(stage: &mut RelayStage, event: RelayEvent<E>) -> (r: RelayEffect<E>)
    requires
        relay_next(*old(stage), event) is Some,
    ensures
        relay_next(*old(stage), event) == Some((*final(stage), r@)),
{
    match event {
        RelayEvent::Polled(StreamPoll::Ended) => {
            *stage = RelayStage::Over;
            RelayEffectOf::DisconnectAndQuit { message: "Disconnected by user".to_string() }
        },
        RelayEvent::Polled(StreamPoll::Failed(why)) => {
            *stage = RelayStage::Over;
            RelayEffectOf::Fail(why)
        },
        RelayEvent::Polled(StreamPoll::Item(ServerItem::BookEvents(_))) => {
            *stage = RelayStage::Announcing;
            let silence: Vec<u8> = Vec::new();
            RelayEffectOf::StartTaskAndSend(music_packet(silence.as_slice()))
        },
        RelayEvent::Polled(StreamPoll::Item(_)) => {
            *stage = RelayStage::Listening;
            RelayEffectOf::Listen
        },
        RelayEvent::AudioSent(sent) => if sent {
            *stage = RelayStage::Requesting;
            RelayEffectOf::SendLink("https://www.youtube.com/watch?v=5qap5aO4i9A".to_string())
        } else {
            *stage = RelayStage::Listening;
            RelayEffectOf::Listen
        },
        RelayEvent::LinkSent => {
            *stage = RelayStage::Listening;
            RelayEffectOf::Listen
        },
    }
}

/// The relay leaves exactly where the event stream ends or fails.
pub proof fn law_relay_leaves_with_the_stream<E>(stage: RelayStage, event: RelayEvent<E>)
    requires
        relay_next(stage, event) is Some,
    ensures
        (relay_next(stage, event)->0).0 == RelayStage::Over <==> (event matches RelayEvent::Polled(
            poll,
        ) && poll !is Item),
{
}

/// A link is asked for only right after a packet was sent, and a packet is sent only on account of
/// book events.
pub proof fn law_relay_answers_book_events<E>(stage: RelayStage, event: RelayEvent<E>)
    requires
        relay_next(stage, event) is Some,
    ensures
        (relay_next(stage, event)->0).1 is SendLink <==> event == RelayEvent::<E>::AudioSent(true),
        (relay_next(stage, event)->0).1 is StartTaskAndSend <==> (
        event matches RelayEvent::Polled(StreamPoll::Item(ServerItem::BookEvents(_)))),
{
}

/// The relay answers any book events, whatever they hold, with a packet of music without data,
/// and once that was sent with its one link; then it listens again, as it does where the packet
/// could not be sent.
pub proof fn law_relay_answer<E>(events: Vec<BookEvent>)
    ensures
        relay_next(
            RelayStage::Listening,
            RelayEvent::<E>::Polled(StreamPoll::Item(ServerItem::BookEvents(events))),
        ) matches Some((RelayStage::Announcing, RelayEffectOf::StartTaskAndSend(packet))) && {
            &&& packet.len() == 16
            &&& packet[15] == 5
            &&& forall|i: int| 0 <= i < 15 ==> #[trigger] packet[i] == 0
        },
        relay_next(RelayStage::Announcing, RelayEvent::<E>::AudioSent(true)) == Some(
            (
                RelayStage::Requesting,
                RelayEffectModel::<E>::SendLink("https://www.youtube.com/watch?v=5qap5aO4i9A"@),
            ),
        ),
        relay_next(RelayStage::Requesting, RelayEvent::<E>::LinkSent) == Some(
            (RelayStage::Listening, RelayEffectModel::<E>::Listen),
        ),
        relay_next(RelayStage::Announcing, RelayEvent::<E>::AudioSent(false)) == Some(
            (RelayStage::Listening, RelayEffectModel::<E>::Listen),
        ),
{
    law_music_bytes(Seq::empty());
}

/// The relay listens on over all other items; it disconnects where the event stream ends, and
/// fails with the stream's own failure where that fails.
pub proof fn law_relay_listens<E>(item: ServerItem, why: E)
    requires
        item !is BookEvents,
    ensures
        relay_next(RelayStage::Listening, RelayEvent::<E>::Polled(StreamPoll::Item(item))) == Some(
            (RelayStage::Listening, RelayEffectModel::<E>::Listen),
        ),
        relay_next(RelayStage::Listening, RelayEvent::<E>::Polled(StreamPoll::Ended)) == Some(
            (
                RelayStage::Over,
                RelayEffectModel::<E>::DisconnectAndQuit { message: "Disconnected by user"@ },
            ),
        ),
        relay_next(RelayStage::Listening, RelayEvent::Polled(StreamPoll::Failed(why))) == Some(
            (RelayStage::Over, RelayEffectModel::<E>::Fail(why)),
        ),
{
}

/// At each stage the relay takes one kind of event, whatever that holds; once it is over, none.
pub proof fn law_relay_takes<E>(stage: RelayStage, event: RelayEvent<E>)
    ensures
        relay_next(stage, event) is Some <==> {
            ||| stage is Listening && event is Polled
            ||| stage is Announcing && event is AudioSent
            ||| stage is Requesting && event is LinkSent
        },
{
}

/// What the relay needs done is kept in its mathematical form.
pub proof fn law_relay_effect_form<E>(effect: RelayEffect<E>)
    ensures
        match effect {
            RelayEffectOf::Listen => effect@ is Listen,
            RelayEffectOf::StartTaskAndSend(packet) => effect@ == RelayEffectModel::<
                E,
            >::StartTaskAndSend(packet@),
            RelayEffectOf::SendLink(link) => effect@ == RelayEffectModel::<E>::SendLink(link@),
            RelayEffectOf::DisconnectAndQuit { message } => effect@ == (RelayEffectModel::<
                E,
            >::DisconnectAndQuit { message: message@ }),
            RelayEffectOf::Fail(why) => effect@ == RelayEffectModel::<E>::Fail(why),
        },
{
}

} // verus!
