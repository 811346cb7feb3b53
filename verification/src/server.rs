//! What the server tells the bot.
use vstd::prelude::*;

use crate::command::{action_of, command_text, is_readable, try_parse_command, Action, ActionOf};

verus! {

/// A change on the server that the connection keeps book of.
#[derive(Debug, PartialEq, Eq)]
pub enum BookEvent {
    /// Someone wrote a message.
    Message { message: String },
    /// Anything else.
    Other,
}

/// One item of the connection's event stream.
#[derive(Debug, PartialEq, Eq)]
pub enum ServerItem {
    /// Changes on the server.
    BookEvents(Vec<BookEvent>),
    /// New figures about the network.
    NetworkStatsUpdated,
    /// Anything else.
    Other,
}

/// What asking the event stream for its next item gives; `E` is how the stream fails.
#[derive(Debug, PartialEq, Eq)]
pub enum StreamPoll<E> {
    /// The stream is at its end.
    Ended,
    /// The stream failed.
    Failed(E),
    /// The next item.
    Item(ServerItem),
}

/// The messages among some book events, in order.
pub open spec fn messages_among(events: Seq<BookEvent>) -> Seq<Seq<char>>
    decreases events.len(),
{
    if events.len() == 0 {
        Seq::empty()
    } else {
        match events.last() {
            BookEvent::Message { message } => messages_among(events.drop_last()).push(message@),
            BookEvent::Other => messages_among(events.drop_last()),
        }
    }
}

/// The messages in an item of the event stream, in order.
pub open spec fn messages_in(item: ServerItem) -> Seq<Seq<char>> {
    match item {
        ServerItem::BookEvents(events) => messages_among(events@),
        _ => Seq::empty(),
    }
}

/// The views of some actions.
pub open spec fn action_views(actions: Seq<Action>) -> Seq<ActionOf<Seq<char>>> {
    actions.map_values(|action: Action| action@)
}

/// What some messages ask for, one by one.
pub open spec fn actions_of(messages: Seq<Seq<char>>) -> Seq<ActionOf<Seq<char>>> {
    messages.map_values(|message: Seq<char>| action_of(command_text(message)))
}

/// Whether every one of some messages can be read.
pub open spec fn all_readable(messages: Seq<Seq<char>>) -> bool {
    forall|i: int| 0 <= i < messages.len() ==> is_readable(command_text(#[trigger] messages[i]))
}

/// What the messages in an item of the event stream ask for, where every one can be read.
pub fn chat_actions(item: &ServerItem) -> (r: Option<Vec<Action>>)
    ensures
        r is Some <==> all_readable(messages_in(*item)),
        r matches Some(actions) ==> action_views(actions@) == actions_of(messages_in(*item)),
{
    let mut actions: Vec<Action> = Vec::new();
    match item {
        ServerItem::BookEvents(events) => {
            assert(action_views(actions@) == actions_of(messages_among(events@.take(0))));
            for i in 0..events.len()
                invariant
                    *item == ServerItem::BookEvents(*events),
                    all_readable(messages_among(events@.take(i as int))),
                    action_views(actions@) == actions_of(messages_among(events@.take(i as int))),
            {
                let ghost before = messages_among(events@.take(i as int));
                let ghost earlier = action_views(actions@);
                assert(events@.take(i + 1).drop_last() == events@.take(i as int));
                match &events[i] {
                    BookEvent::Message { message } => {
                        let ghost after = before.push(message@);
                        assert(messages_among(events@.take(i + 1)) == after);
                        match try_parse_command(message.as_str()) {
                            Some(action) => {
                                actions.push(action);
                                assert(action_views(actions@) == earlier.push(action@));
                                assert(actions_of(after) == actions_of(before).push(
                                    action_of(command_text(message@)),
                                ));
                            },
                            None => {
                                proof {
                                    lemma_messages_prefix(events@, i + 1);
                                    let all = messages_among(events@);
                                    assert(after[before.len() as int] == message@);
                                    assert(all[before.len() as int] == message@);
                                }
                                return None;
                            },
                        }
                    },
                    BookEvent::Other => {},
                }
            }
            assert(events@.take(events@.len() as int) == events@);
        },
        _ => {
            assert(action_views(actions@) == actions_of(messages_in(*item)));
        },
    }
    Some(actions)
}

/// The messages among the first events come first among all messages.
proof fn lemma_messages_prefix(events: Seq<BookEvent>, n: int)
    requires
        0 <= n <= events.len(),
    ensures
        messages_among(events.take(n)).len() <= messages_among(events).len(),
        forall|i: int|
            0 <= i < messages_among(events.take(n)).len() ==> messages_among(events.take(n))[i]
                == #[trigger] messages_among(events)[i],
    decreases events.len(),
{
    if n == events.len() {
        assert(events.take(n) == events);
    } else {
        lemma_messages_prefix(events.drop_last(), n);
        assert(events.drop_last().take(n) == events.take(n));
    }
}

/// A message that comes alone is heard, and nothing is heard where there is none.
pub proof fn law_one_event(event: BookEvent)
    ensures
        messages_among(Seq::empty()) == Seq::<Seq<char>>::empty(),
        event matches BookEvent::Message { message } ==> messages_among(seq![event])
            == seq![message@],
        event is Other ==> messages_among(seq![event]) == Seq::<Seq<char>>::empty(),
{
    reveal_with_fuel(messages_among, 2);
    assert(seq![event].last() == event);
    assert(seq![event].drop_last() == Seq::<BookEvent>::empty());
    if let BookEvent::Message { message } = event {
        assert(Seq::<Seq<char>>::empty().push(message@) == seq![message@]);
    }
}

/// What is heard of some events does not depend on what comes before them or behind them.
pub proof fn law_messages_of_joined(a: Seq<BookEvent>, b: Seq<BookEvent>)
    ensures
        messages_among(a + b) == messages_among(a) + messages_among(b),
    decreases b.len(),
{
    if b.len() == 0 {
        assert(a + b == a);
        assert(messages_among(a) + messages_among(b) == messages_among(a));
    } else {
        law_messages_of_joined(a, b.drop_last());
        assert((a + b).drop_last() == a + b.drop_last());
        assert((a + b).last() == b.last());
        let left = messages_among(a);
        let right = messages_among(b.drop_last());
        if let BookEvent::Message { message } = b.last() {
            assert((left + right).push(message@) == left + right.push(message@));
        }
    }
}

/// Every message among some events is heard, at the place that the messages before it leave it.
pub proof fn law_every_message_is_heard(events: Seq<BookEvent>, at: int)
    requires
        0 <= at < events.len(),
    ensures
        events[at] matches BookEvent::Message { message } ==> {
            let before = messages_among(events.take(at)).len() as int;
            before < messages_among(events).len() && messages_among(events)[before] == message@
        },
        messages_among(events).len() == events.filter(|event: BookEvent| event is Message).len(),
{
    let (before, behind) = (events.take(at), events.skip(at + 1));
    assert(events == before + seq![events[at]] + behind);
    law_messages_of_joined(before + seq![events[at]], behind);
    law_messages_of_joined(before, seq![events[at]]);
    law_one_event(events[at]);
    lemma_message_count(events);
}

proof fn lemma_message_count(events: Seq<BookEvent>)
    ensures
        messages_among(events).len() == events.filter(|event: BookEvent| event is Message).len(),
    decreases events.len(),
{
    reveal(Seq::filter);
    if events.len() > 0 {
        lemma_message_count(events.drop_last());
    }
}

/// An item of the event stream holds the messages of its book events, however many they are; no
/// other item holds any.
pub proof fn law_messages_of_items(events: Vec<BookEvent>)
    ensures
        messages_in(ServerItem::BookEvents(events)) == messages_among(events@),
        messages_in(ServerItem::NetworkStatsUpdated).len() == 0,
        messages_in(ServerItem::Other).len() == 0,
{
}

/// A message that can be read is acted on, and one that cannot be is not.
pub proof fn law_one_message(message: Seq<char>)
    ensures
        actions_of(seq![message]) == seq![action_of(command_text(message))],
        all_readable(seq![message]) <==> is_readable(command_text(message)),
        actions_of(Seq::empty()).len() == 0,
        all_readable(Seq::empty()),
{
    assert(actions_of(seq![message]) == seq![action_of(command_text(message))]);
    assert(seq![message][0] == message);
}

/// Messages are acted on one by one, in their order, and none makes a difference to another; all
/// can be read exactly where each can.
pub proof fn law_actions_of_joined(a: Seq<Seq<char>>, b: Seq<Seq<char>>)
    ensures
        actions_of(a + b) == actions_of(a) + actions_of(b),
        all_readable(a + b) <==> all_readable(a) && all_readable(b),
{
    assert(actions_of(a + b) == actions_of(a) + actions_of(b));
    if all_readable(a + b) {
        assert forall|i: int| 0 <= i < a.len() implies is_readable(
            command_text(#[trigger] a[i]),
        ) by {
            assert((a + b)[i] == a[i]);
        }
        assert forall|i: int| 0 <= i < b.len() implies is_readable(
            command_text(#[trigger] b[i]),
        ) by {
            assert((a + b)[a.len() + i] == b[i]);
        }
    }
    if all_readable(a) && all_readable(b) {
        assert forall|i: int| 0 <= i < (a + b).len() implies is_readable(
            command_text(#[trigger] (a + b)[i]),
        ) by {
            if i < a.len() {
                assert((a + b)[i] == a[i]);
            } else {
                assert((a + b)[i] == b[i - a.len()]);
            }
        }
    }
}

/// The views of actions are those of each, in their order.
pub proof fn law_action_views(actions: Seq<Action>)
    ensures
        action_views(actions).len() == actions.len(),
        forall|i: int|
            0 <= i < actions.len() ==> #[trigger] action_views(actions)[i] == actions[i]@,
{
}

} // verus!
