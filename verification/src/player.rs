//! The bot at work: one playback at a time, and a queue of links.
use std::collections::VecDeque;
use vstd::prelude::*;

use crate::audio::DEFAULT_VOLUME;
use crate::command::ActionOf;
use crate::playback::PlayTaskCmd;

verus! {

/// What a playback hands to the player; `B` is how bytes are held.
#[derive(Debug, PartialEq, Eq)]
pub enum AudioPacketOf<B> {
    /// A packet for the server.
    Payload(B),
    /// The news that the playback sends no more.
    End,
}

/// What happened to the player; `S` is how texts are held, `B` how bytes are, `E` how the
/// connection fails.
#[derive(Debug, PartialEq, Eq)]
pub enum PlayerEventOf<S, B, E> {
    /// A chat action came in, or none will any more.
    Action(Option<ActionOf<S>>),
    /// A packet of a playback came in, or none will any more.
    Packet(Option<AudioPacketOf<B>>),
    /// The packet was sent to the server, or could not be.
    AudioSent(bool),
    /// The user interrupted the bot.
    Interrupted,
    /// The connection's event stream is over.
    StreamOver(Result<(), E>),
}

/// What the player needs done next; `S` is how texts are held, `B` how bytes are, `E` how the
/// connection fails.
#[derive(Debug, PartialEq, Eq)]
pub enum PlayerEffectOf<S, B, E> {
    /// Wait for what happens next.
    Continue,
    /// Start a playback of a link at this many hundredths of full volume; commands go to it from
    /// now on.
    StartPlayback { link: S, percent: u32 },
    /// Pass a command to the playback started last.
    SendCommand(PlayTaskCmd),
    /// Send a packet to the server.
    SendAudio(B),
    /// Leave without a word to the server.
    Quit,
    /// Disconnect with a message, and leave.
    DisconnectAndQuit { message: S },
    /// Disconnect with a message, and fail.
    DisconnectAndFail { message: S, error: S },
    /// Fail with the connection's error, without a word to the server.
    Fail(E),
}

/// What a playback hands to the player.
pub type AudioPacket = AudioPacketOf<Vec<u8>>;

/// What happened to the player.
pub type PlayerEvent<E> = PlayerEventOf<String, Vec<u8>, E>;

/// What the player needs done next.
pub type PlayerEffect<E> = PlayerEffectOf<String, Vec<u8>, E>;

/// The mathematical form of an event.
pub type PlayerEventModel<E> = PlayerEventOf<Seq<char>, Seq<u8>, E>;

/// The mathematical form of an effect.
pub type PlayerEffectModel<E> = PlayerEffectOf<Seq<char>, Seq<u8>, E>;

impl View for AudioPacketOf<Vec<u8>> {
    type V = AudioPacketOf<Seq<u8>>;

    open spec fn view(&self) -> AudioPacketOf<Seq<u8>> {
        match *self {
            AudioPacketOf::Payload(packet) => AudioPacketOf::Payload(packet@),
            AudioPacketOf::End => AudioPacketOf::End,
        }
    }
}

impl<E> View for PlayerEventOf<String, Vec<u8>, E> {
    type V = PlayerEventOf<Seq<char>, Seq<u8>, E>;

    open spec fn view(&self) -> PlayerEventOf<Seq<char>, Seq<u8>, E> {
        match *self {
            PlayerEventOf::Action(Some(action)) => PlayerEventOf::Action(Some(action@)),
            PlayerEventOf::Action(None) => PlayerEventOf::Action(None),
            PlayerEventOf::Packet(Some(packet)) => PlayerEventOf::Packet(Some(packet@)),
            PlayerEventOf::Packet(None) => PlayerEventOf::Packet(None),
            PlayerEventOf::AudioSent(sent) => PlayerEventOf::AudioSent(sent),
            PlayerEventOf::Interrupted => PlayerEventOf::Interrupted,
            PlayerEventOf::StreamOver(outcome) => PlayerEventOf::StreamOver(outcome),
        }
    }
}

impl<E> View for PlayerEffectOf<String, Vec<u8>, E> {
    type V = PlayerEffectOf<Seq<char>, Seq<u8>, E>;

    open spec fn view(&self) -> PlayerEffectOf<Seq<char>, Seq<u8>, E> {
        match *self {
            PlayerEffectOf::Continue => PlayerEffectOf::Continue,
            PlayerEffectOf::StartPlayback { link, percent } => PlayerEffectOf::StartPlayback {
                link: link@,
                percent,
            },
            PlayerEffectOf::SendCommand(command) => PlayerEffectOf::SendCommand(command),
            PlayerEffectOf::SendAudio(packet) => PlayerEffectOf::SendAudio(packet@),
            PlayerEffectOf::Quit => PlayerEffectOf::Quit,
            PlayerEffectOf::DisconnectAndQuit { message } => PlayerEffectOf::DisconnectAndQuit {
                message: message@,
            },
            PlayerEffectOf::DisconnectAndFail {
                message,
                error,
            } => PlayerEffectOf::DisconnectAndFail { message: message@, error: error@ },
            PlayerEffectOf::Fail(why) => PlayerEffectOf::Fail(why),
        }
    }
}

/// The mathematical form of a player.
pub struct PlayerModel {
    pub playing: bool,
    pub queue: Seq<Seq<char>>,
}

/// The player: whether a playback is going on, and the links that wait for their turn.
#[derive(Debug)]
pub struct Player {
    playing: bool,
    queue: VecDeque<String>,
}

impl View for Player {
    type V = PlayerModel;

    closed spec fn view(&self) -> PlayerModel {
        PlayerModel {
            playing: self.playing,
            queue: self.queue@.map_values(|link: String| link@),
        }
    }
}

impl PlayerModel {
    /// A player that has nothing to do.
    pub open spec fn idle() -> PlayerModel {
        PlayerModel { playing: false, queue: Seq::empty() }
    }

    /// No link waits while nothing is playing.
    pub open spec fn wf(self) -> bool {
        !self.playing ==> self.queue.len() == 0
    }

    /// The player after a link was asked for, and the effect to follow.
    pub open spec fn after_request<E>(self, link: Seq<char>) -> (
        PlayerModel,
        PlayerEffectModel<E>,
    ) {
        if self.playing {
            (
                PlayerModel { playing: true, queue: self.queue.push(link) },
                PlayerEffectOf::Continue,
            )
        } else {
            (
                PlayerModel { playing: true, queue: self.queue },
                PlayerEffectOf::StartPlayback { link, percent: DEFAULT_VOLUME },
            )
        }
    }

    /// The effect of a command: it goes to the playback, where one is going on.
    pub open spec fn command_effect<E>(self, command: PlayTaskCmd) -> PlayerEffectModel<E> {
        if self.playing {
            PlayerEffectOf::SendCommand(command)
        } else {
            PlayerEffectOf::Continue
        }
    }

    /// The player after its playback ended, and the effect to follow.
    pub open spec fn after_end<E>(self) -> (PlayerModel, PlayerEffectModel<E>) {
        if !self.playing {
            (self, PlayerEffectOf::Continue)
        } else if self.queue.len() == 0 {
            (PlayerModel { playing: false, queue: self.queue }, PlayerEffectOf::Continue)
        } else {
            (
                PlayerModel { playing: true, queue: self.queue.skip(1) },
                PlayerEffectOf::StartPlayback { link: self.queue[0], percent: DEFAULT_VOLUME },
            )
        }
    }

    /// The player that an event leads to, and the effect to follow.
    pub open spec fn next<E>(self, event: PlayerEventModel<E>) -> (
        PlayerModel,
        PlayerEffectModel<E>,
    ) {
        match event {
            PlayerEventOf::Action(Some(ActionOf::PlayAudio(link))) => self.after_request(link),
            PlayerEventOf::Action(Some(ActionOf::PlayNukedAudio(link))) => self.after_request(link),
            PlayerEventOf::Action(Some(ActionOf::ChangeVolume { percent })) => (
                self,
                self.command_effect(PlayTaskCmd::ChangeVolume { percent }),
            ),
            PlayerEventOf::Action(Some(ActionOf::Stop)) => (
                self,
                self.command_effect(PlayTaskCmd::Stop),
            ),
            PlayerEventOf::Action(Some(ActionOf::Nothing)) => (self, PlayerEffectOf::Continue),
            PlayerEventOf::Action(None) => (self, PlayerEffectOf::Continue),
            PlayerEventOf::Packet(Some(AudioPacketOf::Payload(packet))) => (
                self,
                if self.playing {
                    PlayerEffectOf::SendAudio(packet)
                } else {
                    PlayerEffectOf::Continue
                },
            ),
            PlayerEventOf::Packet(Some(AudioPacketOf::End)) => self.after_end(),
            PlayerEventOf::Packet(None) => (self, PlayerEffectOf::Continue),
            PlayerEventOf::AudioSent(sent) => (
                self,
                if sent {
                    PlayerEffectOf::Continue
                } else {
                    PlayerEffectOf::Quit
                },
            ),
            PlayerEventOf::Interrupted => (
                self,
                PlayerEffectOf::DisconnectAndQuit { message: "Ctrl-C"@ },
            ),
            PlayerEventOf::StreamOver(Ok(_)) => (
                self,
                PlayerEffectOf::DisconnectAndFail {
                    message: "Dunno, just leaving lmao"@,
                    error: "Disconnected"@,
                },
            ),
            PlayerEventOf::StreamOver(Err(why)) => (self, PlayerEffectOf::Fail(why)),
        }
    }
}

impl Player {
    /// A player that has nothing to do.
    pub fn new() -> (r: Player)
        ensures
            r@ == PlayerModel::idle(),
    {
        let r = Player { playing: false, queue: VecDeque::new() };
        assert(r@.queue == Seq::<Seq<char>>::empty());
        r
    }

    /// Takes an event, and names the effect to follow.
    pub fn step<E>(&mut self, event: PlayerEvent<E>) -> (r: PlayerEffect<E>)
        ensures
            old(self)@.next(event@) == (final(self)@, r@),
            old(self)@.wf() ==> final(self)@.wf(),
    {
        match event {
            PlayerEventOf::Action(Some(ActionOf::PlayAudio(link))) => self.request(link),
            PlayerEventOf::Action(Some(ActionOf::PlayNukedAudio(link))) => self.request(link),
            PlayerEventOf::Action(Some(ActionOf::ChangeVolume { percent })) => self.command(
                PlayTaskCmd::ChangeVolume { percent },
            ),
            PlayerEventOf::Action(Some(ActionOf::Stop)) => self.command(PlayTaskCmd::Stop),
            PlayerEventOf::Action(Some(ActionOf::Nothing)) => PlayerEffectOf::Continue,
            PlayerEventOf::Action(None) => PlayerEffectOf::Continue,
            PlayerEventOf::Packet(Some(AudioPacketOf::Payload(packet))) => if self.playing {
                PlayerEffectOf::SendAudio(packet)
            } else {
                PlayerEffectOf::Continue
            },
            PlayerEventOf::Packet(Some(AudioPacketOf::End)) => self.end(),
            PlayerEventOf::Packet(None) => PlayerEffectOf::Continue,
            PlayerEventOf::AudioSent(sent) => if sent {
                PlayerEffectOf::Continue
            } else {
                PlayerEffectOf::Quit
            },
            PlayerEventOf::Interrupted => PlayerEffectOf::DisconnectAndQuit {
                message: "Ctrl-C".to_string(),
            },
            PlayerEventOf::StreamOver(Ok(_)) => PlayerEffectOf::DisconnectAndFail {
                message: "Dunno, just leaving lmao".to_string(),
                error: "Disconnected".to_string(),
            },
            PlayerEventOf::StreamOver(Err(why)) => PlayerEffectOf::Fail(why),
        }
    }

    fn request<E>(&mut self, link: String) -> (r: PlayerEffect<E>)
        ensures
            old(self)@.after_request::<E>(link@) == (final(self)@, r@),
    {
        if self.playing {
            self.queue.push_back(link);
            assert(self@.queue == old(self)@.queue.push(link@));
            PlayerEffectOf::Continue
        } else {
            self.playing = true;
            PlayerEffectOf::StartPlayback { link, percent: DEFAULT_VOLUME }
        }
    }

    fn command<E>(&self, command: PlayTaskCmd) -> (r: PlayerEffect<E>)
        ensures
            r@ == self@.command_effect::<E>(command),
    {
        if self.playing {
            PlayerEffectOf::SendCommand(command)
        } else {
            PlayerEffectOf::Continue
        }
    }

    fn end<E>(&mut self) -> (r: PlayerEffect<E>)
        ensures
            old(self)@.after_end::<E>() == (final(self)@, r@),
    {
        if !self.playing {
            return PlayerEffectOf::Continue;
        }
        match self.queue.pop_front() {
            None => {
                self.playing = false;
                assert(self@.queue == old(self)@.queue);
                PlayerEffectOf::Continue
            },
            Some(link) => {
                assert(self@.queue == old(self)@.queue.skip(1));
                PlayerEffectOf::StartPlayback { link, percent: DEFAULT_VOLUME }
            },
        }
    }
}

} // verus!
