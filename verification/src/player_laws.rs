//! What holds of the player, whatever happens to it.
use vstd::prelude::*;

use crate::command::{action_of, command_text, is_kept, ActionOf};
use crate::command_laws::{
    command_with, is_argument, law_link_tags_vanish, law_nuked_command, law_play_command,
};
use crate::playback::PlayTaskCmd;
use crate::player::{
    AudioPacket, AudioPacketOf, PlayerEffect, PlayerEffectModel, PlayerEffectOf, PlayerEvent,
    PlayerEventModel, PlayerEventOf, PlayerModel,
};

verus! {

/// Where a row of events takes a player.
pub open spec fn player_after<E>(start: PlayerModel, events: Seq<PlayerEventModel<E>>) -> PlayerModel
    decreases events.len(),
{
    if events.len() == 0 {
        start
    } else {
        player_after(start, events.drop_last()).next(events.last()).0
    }
}

/// The effects that a row of events has on a player, one for each event.
pub open spec fn effects_of<E>(start: PlayerModel, events: Seq<PlayerEventModel<E>>) -> Seq<
    PlayerEffectModel<E>,
>
    decreases events.len(),
{
    if events.len() == 0 {
        Seq::empty()
    } else {
        effects_of(start, events.drop_last()).push(
            player_after(start, events.drop_last()).next(events.last()).1,
        )
    }
}

/// The links that were asked for, in order.
pub open spec fn requested<E>(events: Seq<PlayerEventModel<E>>) -> Seq<Seq<char>>
    decreases events.len(),
{
    if events.len() == 0 {
        Seq::empty()
    } else {
        match events.last() {
            PlayerEventOf::Action(Some(ActionOf::PlayAudio(link))) => requested(
                events.drop_last(),
            ).push(link),
            PlayerEventOf::Action(Some(ActionOf::PlayNukedAudio(link))) => requested(
                events.drop_last(),
            ).push(link),
            _ => requested(events.drop_last()),
        }
    }
}

/// The links whose playback was started, in order.
pub open spec fn started<E>(effects: Seq<PlayerEffectModel<E>>) -> Seq<Seq<char>>
    decreases effects.len(),
{
    if effects.len() == 0 {
        Seq::empty()
    } else {
        match effects.last() {
            PlayerEffectOf::StartPlayback { link, percent } => started(effects.drop_last()).push(
                link,
            ),
            _ => started(effects.drop_last()),
        }
    }
}

/// How many times a playback ended while one was going on.
pub open spec fn ended<E>(start: PlayerModel, events: Seq<PlayerEventModel<E>>) -> nat
    decreases events.len(),
{
    if events.len() == 0 {
        0
    } else {
        let earlier = ended(start, events.drop_last());
        match events.last() {
            PlayerEventOf::Packet(Some(AudioPacketOf::End)) => if player_after(
                start,
                events.drop_last(),
            ).playing {
                earlier + 1
            } else {
                earlier
            },
            _ => earlier,
        }
    }
}

/// The packets that came in while a playback was going on, in order.
pub open spec fn received<E>(start: PlayerModel, events: Seq<PlayerEventModel<E>>) -> Seq<Seq<u8>>
    decreases events.len(),
{
    if events.len() == 0 {
        Seq::empty()
    } else {
        let earlier = received(start, events.drop_last());
        match events.last() {
            PlayerEventOf::Packet(Some(AudioPacketOf::Payload(packet))) => if player_after(
                start,
                events.drop_last(),
            ).playing {
                earlier.push(packet)
            } else {
                earlier
            },
            _ => earlier,
        }
    }
}

/// The packets that were sent to the server, in order.
pub open spec fn forwarded<E>(effects: Seq<PlayerEffectModel<E>>) -> Seq<Seq<u8>>
    decreases effects.len(),
{
    if effects.len() == 0 {
        Seq::empty()
    } else {
        match effects.last() {
            PlayerEffectOf::SendAudio(packet) => forwarded(effects.drop_last()).push(packet),
            _ => forwarded(effects.drop_last()),
        }
    }
}

/// No link waits while nothing is playing, at any time.
pub proof fn law_nothing_waits_while_idle<E>(start: PlayerModel, events: Seq<PlayerEventModel<E>>)
    requires
        start.wf(),
    ensures
        player_after(start, events).wf(),
    decreases events.len(),
{
    if events.len() > 0 {
        law_nothing_waits_while_idle(start, events.drop_last());
    }
}

/// Links are played in the order in which they were asked for, each once: those already started
/// and those that still wait are those asked for.
pub proof fn law_links_are_played_in_order<E>(events: Seq<PlayerEventModel<E>>)
    ensures
        started(effects_of(PlayerModel::idle(), events)) + player_after(
            PlayerModel::idle(),
            events,
        ).queue == requested(events),
    decreases events.len(),
{
    let idle = PlayerModel::idle();
    let effects = effects_of(idle, events);
    let end = player_after(idle, events);
    if events.len() > 0 {
        let init = events.drop_last();
        let before = player_after(idle, init);
        let earlier = effects_of(idle, init);
        law_links_are_played_in_order(init);
        law_nothing_waits_while_idle(idle, init);
        assert(effects.drop_last() == earlier);
        match events.last() {
            PlayerEventOf::Action(Some(ActionOf::PlayAudio(link)))
            | PlayerEventOf::Action(Some(ActionOf::PlayNukedAudio(link))) => {
                if before.playing {
                    assert(started(earlier) + before.queue.push(link) == (started(earlier)
                        + before.queue).push(link));
                } else {
                    assert(started(earlier).push(link) + before.queue == (started(earlier)
                        + before.queue).push(link));
                }
            },
            PlayerEventOf::Packet(Some(AudioPacketOf::End)) => {
                if before.playing && before.queue.len() > 0 {
                    assert(started(earlier).push(before.queue[0]) + before.queue.skip(1)
                        == started(earlier) + before.queue);
                }
            },
            _ => {},
        }
    } else {
        assert(started(effects) + end.queue == requested(events));
    }
}

/// There is never more than one playback: as many were started as ended, and one more exactly
/// while the player is playing.
pub proof fn law_one_playback_at_a_time<E>(events: Seq<PlayerEventModel<E>>)
    ensures
        started(effects_of(PlayerModel::idle(), events)).len() == ended(
            PlayerModel::idle(),
            events,
        ) + if player_after(PlayerModel::idle(), events).playing {
            1nat
        } else {
            0nat
        },
    decreases events.len(),
{
    let idle = PlayerModel::idle();
    if events.len() > 0 {
        law_one_playback_at_a_time(events.drop_last());
        assert(effects_of(idle, events).drop_last() == effects_of(idle, events.drop_last()));
    }
}

/// The server gets the packets that came in while a playback was going on, in their order, and
/// nothing else.
pub proof fn law_packets_are_forwarded<E>(start: PlayerModel, events: Seq<PlayerEventModel<E>>)
    ensures
        forwarded(effects_of(start, events)) == received(start, events),
    decreases events.len(),
{
    if events.len() > 0 {
        law_packets_are_forwarded(start, events.drop_last());
        assert(effects_of(start, events).drop_last() == effects_of(start, events.drop_last()));
    }
}

/// A message that asks for a link has that link played: at once where nothing is playing, else
/// after all links that wait already. The tags that a chat client puts around it do not matter.
pub proof fn law_chat_request_is_played<E>(player: PlayerModel, link: Seq<char>, nuked: bool)
    requires
        player.wf(),
        is_argument(link),
    ensures
        ({
            let word = if nuked {
                "!brki"@
            } else {
                "!yt"@
            };
            let plain = command_with(word, link);
            let tagged = command_with(word, "[URL]"@ + link + "[/URL]"@);
            let (after, effect) = player.next::<E>(
                PlayerEventOf::Action(Some(action_of(command_text(plain)))),
            );
            &&& command_text(tagged) == command_text(plain)
            &&& after.playing
            &&& after.queue == if player.playing {
                player.queue.push(link)
            } else {
                Seq::empty()
            }
            &&& effect == if player.playing {
                PlayerEffectModel::<E>::Continue
            } else {
                PlayerEffectModel::<E>::StartPlayback { link, percent: 20 }
            }
        }),
{
    reveal_strlit("!brki");
    reveal_strlit("!yt");
    let word = if nuked {
        "!brki"@
    } else {
        "!yt"@
    };
    assert forall|i: int| 0 <= i < link.len() implies link[i] != '[' by {
        assert(is_kept(link[i]));
    }
    law_play_command(link);
    law_nuked_command(link);
    law_link_tags_vanish(word.push(' '), link);
    assert(word.push(' ') + "[URL]"@ + link + "[/URL]"@ == command_with(
        word,
        "[URL]"@ + link + "[/URL]"@,
    ));
}

/// While nothing is playing, commands to a playback and packets are dropped.
pub proof fn law_idle_player_drops<E>(player: PlayerModel, event: PlayerEventModel<E>)
    requires
        !player.playing,
        match event {
            PlayerEventOf::Action(Some(ActionOf::ChangeVolume { percent })) => true,
            PlayerEventOf::Action(Some(ActionOf::Stop)) => true,
            PlayerEventOf::Packet(_) => true,
            _ => false,
        },
    ensures
        player.next(event) == (player, PlayerEffectModel::<E>::Continue),
{
}

/// Every playback starts at twenty hundredths of full volume.
pub proof fn law_playbacks_start_at_default_volume<E>(
    player: PlayerModel,
    event: PlayerEventModel<E>,
)
    ensures
        player.next(event).1 matches PlayerEffectOf::StartPlayback { link, percent } ==> percent
            == 20,
{
}

/// While a playback is going on, it gets every command, whatever waits in the queue; the player
/// stays as it is.
pub proof fn law_commands_reach_the_playback<E>(player: PlayerModel, percent: u32)
    requires
        player.playing,
    ensures
        player.next::<E>(PlayerEventOf::Action(Some(ActionOf::Stop))) == (
            player,
            PlayerEffectModel::<E>::SendCommand(PlayTaskCmd::Stop),
        ),
        player.next::<E>(PlayerEventOf::Action(Some(ActionOf::ChangeVolume { percent }))) == (
            player,
            PlayerEffectModel::<E>::SendCommand(PlayTaskCmd::ChangeVolume { percent }),
        ),
{
}

/// A link that is asked for, with either command, is played at once where nothing is playing; else
/// it waits behind every link that waits already, and nothing is started.
pub proof fn law_request<E>(player: PlayerModel, link: Seq<char>, event: PlayerEventModel<E>)
    requires
        event == PlayerEventModel::<E>::Action(Some(ActionOf::PlayAudio(link))) || event
            == PlayerEventModel::<E>::Action(Some(ActionOf::PlayNukedAudio(link))),
    ensures
        player.next(event).0.playing,
        player.playing ==> {
            &&& player.next(event).0.queue.len() == player.queue.len() + 1
            &&& player.next(event).0.queue.last() == link
            &&& player.next(event).0.queue.drop_last() == player.queue
            &&& player.next(event).1 is Continue
        },
        !player.playing ==> {
            &&& player.next(event).0.queue == player.queue
            &&& player.next(event).1 == (PlayerEffectModel::<E>::StartPlayback {
                link,
                percent: 20,
            })
        },
{
    assert(player.queue.push(link).drop_last() == player.queue);
}

/// When a playback ends, the link that has waited longest is played, and the others go on waiting;
/// where none waits, the player has nothing to do.
pub proof fn law_end_of_playback<E>(link: Seq<char>, others: Seq<Seq<char>>)
    ensures
        (PlayerModel { playing: true, queue: seq![link] + others }).next::<E>(
            PlayerEventOf::Packet(Some(AudioPacketOf::End)),
        ) == (
            PlayerModel { playing: true, queue: others },
            PlayerEffectModel::<E>::StartPlayback { link, percent: 20 },
        ),
        (PlayerModel { playing: true, queue: Seq::empty() }).next::<E>(
            PlayerEventOf::Packet(Some(AudioPacketOf::End)),
        ) == (PlayerModel { playing: false, queue: Seq::empty() }, PlayerEffectModel::<E>::Continue),
{
    assert((seq![link] + others).skip(1) == others);
    assert((seq![link] + others)[0] == link);
}

/// While a playback is going on, every packet of it goes to the server, byte for byte; the player
/// stays as it is.
pub proof fn law_packet_goes_to_the_server<E>(player: PlayerModel, packet: Seq<u8>)
    requires
        player.playing,
    ensures
        player.next::<E>(PlayerEventOf::Packet(Some(AudioPacketOf::Payload(packet)))) == (
            player,
            PlayerEffectModel::<E>::SendAudio(packet),
        ),
{
}

/// What is not asked of the player changes nothing: an action that asks for nothing, actions or
/// packets that come no more, and the news that a packet was sent.
pub proof fn law_nothing_to_do<E>(player: PlayerModel, event: PlayerEventModel<E>)
    requires
        event == PlayerEventModel::<E>::Action(Some(ActionOf::Nothing)) || event
            == PlayerEventModel::<E>::Action(None) || event == PlayerEventModel::<E>::Packet(None)
            || event == PlayerEventModel::<E>::AudioSent(true),
    ensures
        player.next(event) == (player, PlayerEffectModel::<E>::Continue),
{
}

/// The bot leaves on an interrupt, with a packet that cannot be sent, and when the event stream is
/// over; each time in its own way, whatever the player is doing.
pub proof fn law_leaving<E>(player: PlayerModel, why: E)
    ensures
        player.next(PlayerEventModel::<E>::Interrupted) == (
            player,
            PlayerEffectModel::<E>::DisconnectAndQuit { message: "Ctrl-C"@ },
        ),
        player.next(PlayerEventModel::<E>::AudioSent(false)) == (
            player,
            PlayerEffectModel::<E>::Quit,
        ),
        player.next(PlayerEventModel::<E>::StreamOver(Ok(()))) == (
            player,
            PlayerEffectModel::<E>::DisconnectAndFail {
                message: "Dunno, just leaving lmao"@,
                error: "Disconnected"@,
            },
        ),
        player.next::<E>(PlayerEventOf::StreamOver(Err(why))) == (
            player,
            PlayerEffectModel::<E>::Fail(why),
        ),
{
}

/// The player begins with nothing playing and nothing waiting.
pub proof fn law_idle_player()
    ensures
        !PlayerModel::idle().playing,
        PlayerModel::idle().queue.len() == 0,
{
}

/// What happened to the player is kept in its mathematical form.
pub proof fn law_player_event_form<E>(event: PlayerEvent<E>)
    ensures
        match event {
            PlayerEventOf::Action(Some(action)) => event@ == PlayerEventModel::<E>::Action(
                Some(action@),
            ),
            PlayerEventOf::Action(None) => event@ == PlayerEventModel::<E>::Action(None),
            PlayerEventOf::Packet(Some(packet)) => event@ == PlayerEventModel::<E>::Packet(
                Some(packet@),
            ),
            PlayerEventOf::Packet(None) => event@ == PlayerEventModel::<E>::Packet(None),
            PlayerEventOf::AudioSent(sent) => event@ == PlayerEventModel::<E>::AudioSent(sent),
            PlayerEventOf::Interrupted => event@ is Interrupted,
            PlayerEventOf::StreamOver(outcome) => event@ == PlayerEventModel::<E>::StreamOver(
                outcome,
            ),
        },
{
}

/// What a playback hands to the player is kept in its mathematical form.
pub proof fn law_audio_packet_form(packet: AudioPacket)
    ensures
        match packet {
            AudioPacketOf::Payload(bytes) => packet@ == AudioPacketOf::Payload(bytes@),
            AudioPacketOf::End => packet@ is End,
        },
{
}

/// What the player needs done is kept in its mathematical form.
pub proof fn law_player_effect_form<E>(effect: PlayerEffect<E>)
    ensures
        match effect {
            PlayerEffectOf::Continue => effect@ is Continue,
            PlayerEffectOf::StartPlayback { link, percent } => effect@ == (PlayerEffectModel::<
                E,
            >::StartPlayback { link: link@, percent }),
            PlayerEffectOf::SendCommand(command) => effect@ == PlayerEffectModel::<E>::SendCommand(
                command,
            ),
            PlayerEffectOf::SendAudio(packet) => effect@ == PlayerEffectModel::<E>::SendAudio(
                packet@,
            ),
            PlayerEffectOf::Quit => effect@ is Quit,
            PlayerEffectOf::DisconnectAndQuit { message } => effect@ == (PlayerEffectModel::<
                E,
            >::DisconnectAndQuit { message: message@ }),
            PlayerEffectOf::DisconnectAndFail { message, error } => effect@ == (
            PlayerEffectModel::<E>::DisconnectAndFail { message: message@, error: error@ }),
            PlayerEffectOf::Fail(why) => effect@ == PlayerEffectModel::<E>::Fail(why),
        },
{
}

} // verus!
