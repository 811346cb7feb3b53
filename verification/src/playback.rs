//! The course of one playback, from its link to its end.
//!
//! A playback is driven from outside: each step takes the event that the last effect led to, and
//! names the next effect.
use vstd::prelude::*;

use crate::audio::{music_bytes, music_packet, pause_after, NANOS_PER_PACKET};

verus! {

/// What a running playback can be told.
#[derive(Debug, Clone, Copy, PartialEq, Eq)]
pub enum PlayTaskCmd {
    /// End.
    Stop,
    /// Go on at this many hundredths of full volume.
    ChangeVolume { percent: u32 },
}

/// What a playback is waiting for; `S` is how texts are held.
#[derive(Debug, PartialEq, Eq)]
pub enum StageOf<S> {
    /// The audio URL of the link.
    FetchingUrl,
    /// The report that the link has no audio.
    ReportingEmpty,
    /// The encoder, with the audio URL to play by then.
    MakingEncoder(S),
    /// The decoder.
    StartingDecoder,
    /// A command, or the news that there is none.
    Polling,
    /// A frame of samples from the decoder.
    Reading,
    /// The frame in encoded form.
    Encoding,
    /// The encoded frame to be on its way.
    Sending,
    /// The time of the packet to pass.
    Resting,
    /// The report that a packet could not be sent.
    ReportingFailure,
    /// The report that the playback is over.
    Finishing,
    /// Nothing: it is over.
    Done,
}

/// What happened to a playback; `S` is how texts are held, `B` how bytes are.
#[derive(Debug, PartialEq, Eq)]
pub enum PlayEventOf<S, B> {
    /// The audio URL was asked for; there is none where that failed.
    Url(Option<S>),
    /// An encoder was made, or could not be.
    EncoderMade(bool),
    /// The decoder runs.
    DecoderStarted,
    /// The command that had come in, if any had.
    Command(Option<PlayTaskCmd>),
    /// A frame was read, or the decoder had none.
    FrameRead(bool),
    /// The frame was encoded; there is nothing where that failed.
    Encoded(Option<B>),
    /// The packet was sent this many nanoseconds after its command was polled, or could not be.
    PayloadSent(Option<u128>),
    /// A report was sent, or could not be.
    StatusSent(bool),
    /// The rest is over.
    Rested,
}

/// What a playback needs done next; `S` is how texts are held, `B` how bytes are.
#[derive(Debug, PartialEq, Eq)]
pub enum PlayEffectOf<S, B> {
    /// Ask for the audio URL of the link.
    FetchUrl,
    /// Make an encoder.
    MakeEncoder,
    /// Start the decoder on an audio URL.
    StartDecoder(S),
    /// See whether a command has come in.
    PollCommand,
    /// Read a frame of samples.
    ReadFrame,
    /// Scale the frame to this many hundredths, and encode it.
    EncodeFrame { percent: u32 },
    /// Send a packet of music.
    SendPayload(B),
    /// Report that this playback sends no more music.
    SendStatus,
    /// Let this many nanoseconds pass.
    Rest(u64),
    /// End; take no more commands where `close` is set.
    Finish { close: bool },
}

/// What happened to a playback.
pub type PlayEvent = PlayEventOf<String, Vec<u8>>;

/// What a playback needs done next.
pub type PlayEffect = PlayEffectOf<String, Vec<u8>>;

/// The mathematical form of an event.
pub type EventModel = PlayEventOf<Seq<char>, Seq<u8>>;

/// The mathematical form of an effect.
pub type EffectModel = PlayEffectOf<Seq<char>, Seq<u8>>;

impl View for StageOf<String> {
    type V = StageOf<Seq<char>>;

    open spec fn view(&self) -> StageOf<Seq<char>> {
        match *self {
            StageOf::FetchingUrl => StageOf::FetchingUrl,
            StageOf::ReportingEmpty => StageOf::ReportingEmpty,
            StageOf::MakingEncoder(url) => StageOf::MakingEncoder(url@),
            StageOf::StartingDecoder => StageOf::StartingDecoder,
            StageOf::Polling => StageOf::Polling,
            StageOf::Reading => StageOf::Reading,
            StageOf::Encoding => StageOf::Encoding,
            StageOf::Sending => StageOf::Sending,
            StageOf::Resting => StageOf::Resting,
            StageOf::ReportingFailure => StageOf::ReportingFailure,
            StageOf::Finishing => StageOf::Finishing,
            StageOf::Done => StageOf::Done,
        }
    }
}

impl View for PlayEventOf<String, Vec<u8>> {
    type V = PlayEventOf<Seq<char>, Seq<u8>>;

    open spec fn view(&self) -> PlayEventOf<Seq<char>, Seq<u8>> {
        match *self {
            PlayEventOf::Url(Some(url)) => PlayEventOf::Url(Some(url@)),
            PlayEventOf::Url(None) => PlayEventOf::Url(None),
            PlayEventOf::EncoderMade(made) => PlayEventOf::EncoderMade(made),
            PlayEventOf::DecoderStarted => PlayEventOf::DecoderStarted,
            PlayEventOf::Command(command) => PlayEventOf::Command(command),
            PlayEventOf::FrameRead(read) => PlayEventOf::FrameRead(read),
            PlayEventOf::Encoded(Some(data)) => PlayEventOf::Encoded(Some(data@)),
            PlayEventOf::Encoded(None) => PlayEventOf::Encoded(None),
            PlayEventOf::PayloadSent(elapsed) => PlayEventOf::PayloadSent(elapsed),
            PlayEventOf::StatusSent(sent) => PlayEventOf::StatusSent(sent),
            PlayEventOf::Rested => PlayEventOf::Rested,
        }
    }
}

impl View for PlayEffectOf<String, Vec<u8>> {
    type V = PlayEffectOf<Seq<char>, Seq<u8>>;

    open spec fn view(&self) -> PlayEffectOf<Seq<char>, Seq<u8>> {
        match *self {
            PlayEffectOf::FetchUrl => PlayEffectOf::FetchUrl,
            PlayEffectOf::MakeEncoder => PlayEffectOf::MakeEncoder,
            PlayEffectOf::StartDecoder(url) => PlayEffectOf::StartDecoder(url@),
            PlayEffectOf::PollCommand => PlayEffectOf::PollCommand,
            PlayEffectOf::ReadFrame => PlayEffectOf::ReadFrame,
            PlayEffectOf::EncodeFrame { percent } => PlayEffectOf::EncodeFrame { percent },
            PlayEffectOf::SendPayload(packet) => PlayEffectOf::SendPayload(packet@),
            PlayEffectOf::SendStatus => PlayEffectOf::SendStatus,
            PlayEffectOf::Rest(nanos) => PlayEffectOf::Rest(nanos),
            PlayEffectOf::Finish { close } => PlayEffectOf::Finish { close },
        }
    }
}

/// The mathematical form of a playback.
pub struct PlaybackModel {
    pub stage: StageOf<Seq<char>>,
    pub volume: u32,
}

/// A playback: what it waits for, and its volume in hundredths.
#[derive(Debug, PartialEq, Eq)]
pub struct Playback {
    stage: StageOf<String>,
    volume: u32,
}

impl View for Playback {
    type V = PlaybackModel;

    closed spec fn view(&self) -> PlaybackModel {
        PlaybackModel { stage: self.stage@, volume: self.volume }
    }
}

impl PlaybackModel {
    /// A playback that waits for its audio URL.
    pub open spec fn initial(volume: u32) -> PlaybackModel {
        PlaybackModel { stage: StageOf::FetchingUrl, volume }
    }

    /// The playback at another stage.
    pub open spec fn at(self, stage: StageOf<Seq<char>>) -> PlaybackModel {
        PlaybackModel { stage, volume: self.volume }
    }

    /// The playback that an event leads to, and the effect to follow; none where the event is not
    /// what the playback waits for.
    pub open spec fn next(self, event: EventModel) -> Option<(PlaybackModel, EffectModel)> {
        match (self.stage, event) {
            (StageOf::FetchingUrl, PlayEventOf::Url(None)) => Some(
                (self.at(StageOf::Done), PlayEffectOf::Finish { close: false }),
            ),
            (StageOf::FetchingUrl, PlayEventOf::Url(Some(url))) => if url.len() == 0 {
                Some((self.at(StageOf::ReportingEmpty), PlayEffectOf::SendStatus))
            } else {
                Some((self.at(StageOf::MakingEncoder(url)), PlayEffectOf::MakeEncoder))
            },
            (StageOf::ReportingEmpty, PlayEventOf::StatusSent(_)) => Some(
                (self.at(StageOf::Done), PlayEffectOf::Finish { close: false }),
            ),
            (StageOf::MakingEncoder(url), PlayEventOf::EncoderMade(made)) => if made {
                Some((self.at(StageOf::StartingDecoder), PlayEffectOf::StartDecoder(url)))
            } else {
                Some((self.at(StageOf::Done), PlayEffectOf::Finish { close: false }))
            },
            (StageOf::StartingDecoder, PlayEventOf::DecoderStarted) => Some(
                (self.at(StageOf::Polling), PlayEffectOf::PollCommand),
            ),
            (StageOf::Polling, PlayEventOf::Command(None)) => Some(
                (self.at(StageOf::Reading), PlayEffectOf::ReadFrame),
            ),
            (
                StageOf::Polling,
                PlayEventOf::Command(Some(PlayTaskCmd::ChangeVolume { percent })),
            ) => Some(
                (
                    PlaybackModel { stage: StageOf::Reading, volume: percent },
                    PlayEffectOf::ReadFrame,
                ),
            ),
            (StageOf::Polling, PlayEventOf::Command(Some(PlayTaskCmd::Stop))) => Some(
                (self.at(StageOf::Finishing), PlayEffectOf::SendStatus),
            ),
            (StageOf::Reading, PlayEventOf::FrameRead(read)) => if read {
                Some(
                    (
                        self.at(StageOf::Encoding),
                        PlayEffectOf::EncodeFrame { percent: self.volume },
                    ),
                )
            } else {
                Some((self.at(StageOf::Finishing), PlayEffectOf::SendStatus))
            },
            (StageOf::Encoding, PlayEventOf::Encoded(Some(data))) => Some(
                (self.at(StageOf::Sending), PlayEffectOf::SendPayload(music_bytes(data))),
            ),
            (StageOf::Encoding, PlayEventOf::Encoded(None)) => Some(
                (self.at(StageOf::Finishing), PlayEffectOf::SendStatus),
            ),
            (StageOf::Sending, PlayEventOf::PayloadSent(Some(elapsed))) => if elapsed
                < NANOS_PER_PACKET {
                Some(
                    (
                        self.at(StageOf::Resting),
                        PlayEffectOf::Rest((NANOS_PER_PACKET - elapsed) as u64),
                    ),
                )
            } else {
                Some((self.at(StageOf::Polling), PlayEffectOf::PollCommand))
            },
            (StageOf::Sending, PlayEventOf::PayloadSent(None)) => Some(
                (self.at(StageOf::ReportingFailure), PlayEffectOf::SendStatus),
            ),
            (StageOf::Resting, PlayEventOf::Rested) => Some(
                (self.at(StageOf::Polling), PlayEffectOf::PollCommand),
            ),
            (StageOf::ReportingFailure, PlayEventOf::StatusSent(sent)) => if sent {
                Some((self.at(StageOf::Finishing), PlayEffectOf::SendStatus))
            } else {
                Some((self.at(StageOf::Done), PlayEffectOf::Finish { close: false }))
            },
            (StageOf::Finishing, PlayEventOf::StatusSent(sent)) => Some(
                (self.at(StageOf::Done), PlayEffectOf::Finish { close: sent }),
            ),
            _ => None,
        }
    }
}

impl Playback {
    /// A playback that begins by asking for its audio URL.
    pub fn start(volume: u32) -> (r: (Playback, PlayEffect))
        ensures
            r.0@ == PlaybackModel::initial(volume),
            r.1@ == EffectModel::FetchUrl,
    {
        (Playback { stage: StageOf::FetchingUrl, volume }, PlayEffectOf::FetchUrl)
    }

    /// Whether an event is what the playback waits for.
    pub fn accepts(&self, event: &PlayEvent) -> (r: bool)
        ensures
            r == (self@.next(event@) is Some),
    {
        match (&self.stage, event) {
            (StageOf::FetchingUrl, PlayEventOf::Url(_)) => true,
            (StageOf::ReportingEmpty, PlayEventOf::StatusSent(_)) => true,
            (StageOf::MakingEncoder(_), PlayEventOf::EncoderMade(_)) => true,
            (StageOf::StartingDecoder, PlayEventOf::DecoderStarted) => true,
            (StageOf::Polling, PlayEventOf::Command(_)) => true,
            (StageOf::Reading, PlayEventOf::FrameRead(_)) => true,
            (StageOf::Encoding, PlayEventOf::Encoded(_)) => true,
            (StageOf::Sending, PlayEventOf::PayloadSent(_)) => true,
            (StageOf::Resting, PlayEventOf::Rested) => true,
            (StageOf::ReportingFailure, PlayEventOf::StatusSent(_)) => true,
            (StageOf::Finishing, PlayEventOf::StatusSent(_)) => true,
            _ => false,
        }
    }

    /// Whether the playback is at the report that it is over.
    pub fn is_finishing(&self) -> (r: bool)
        ensures
            r == (self@.stage is Finishing),
    {
        matches!(self.stage, StageOf::Finishing)
    }

    /// Takes the event that the playback waits for, and names the effect to follow.
    pub fn step(&mut self, event: PlayEvent) -> (r: PlayEffect)
        requires
            old(self)@.next(event@) is Some,
        ensures
            old(self)@.next(event@) == Some((final(self)@, r@)),
    {
        match event {
            PlayEventOf::Url(None) => self.finish(false),
            PlayEventOf::Url(Some(url)) => if url.as_str().is_empty() {
                self.stage = StageOf::ReportingEmpty;
                PlayEffectOf::SendStatus
            } else {
                self.stage = StageOf::MakingEncoder(url);
                PlayEffectOf::MakeEncoder
            },
            PlayEventOf::EncoderMade(made) => {
                let mut stage = StageOf::StartingDecoder;
                std::mem::swap(&mut stage, &mut self.stage);
                match stage {
                    StageOf::MakingEncoder(url) => if made {
                        PlayEffectOf::StartDecoder(url)
                    } else {
                        self.finish(false)
                    },
                    _ => self.finish(false),
                }
            },
            PlayEventOf::DecoderStarted => self.poll(),
            PlayEventOf::Command(None) => {
                self.stage = StageOf::Reading;
                PlayEffectOf::ReadFrame
            },
            PlayEventOf::Command(Some(PlayTaskCmd::ChangeVolume { percent })) => {
                self.volume = percent;
                self.stage = StageOf::Reading;
                PlayEffectOf::ReadFrame
            },
            PlayEventOf::Command(Some(PlayTaskCmd::Stop)) => self.report_end(),
            PlayEventOf::FrameRead(read) => if read {
                self.stage = StageOf::Encoding;
                PlayEffectOf::EncodeFrame { percent: self.volume }
            } else {
                self.report_end()
            },
            PlayEventOf::Encoded(Some(data)) => {
                self.stage = StageOf::Sending;
                PlayEffectOf::SendPayload(music_packet(data.as_slice()))
            },
            PlayEventOf::Encoded(None) => self.report_end(),
            PlayEventOf::PayloadSent(Some(elapsed)) => match pause_after(elapsed) {
                Some(nanos) => {
                    self.stage = StageOf::Resting;
                    PlayEffectOf::Rest(nanos)
                },
                None => self.poll(),
            },
            PlayEventOf::PayloadSent(None) => {
                self.stage = StageOf::ReportingFailure;
                PlayEffectOf::SendStatus
            },
            PlayEventOf::Rested => self.poll(),
            PlayEventOf::StatusSent(sent) => match self.stage {
                StageOf::ReportingFailure => if sent {
                    self.report_end()
                } else {
                    self.finish(false)
                },
                StageOf::Finishing => self.finish(sent),
                _ => self.finish(false),
            },
        }
    }

    fn poll(&mut self) -> (r: PlayEffect)
        ensures
            final(self)@ == old(self)@.at(StageOf::Polling),
            r@ == EffectModel::PollCommand,
    {
        self.stage = StageOf::Polling;
        PlayEffectOf::PollCommand
    }

    fn report_end(&mut self) -> (r: PlayEffect)
        ensures
            final(self)@ == old(self)@.at(StageOf::Finishing),
            r@ == EffectModel::SendStatus,
    {
        self.stage = StageOf::Finishing;
        PlayEffectOf::SendStatus
    }

    fn finish(&mut self, close: bool) -> (r: PlayEffect)
        ensures
            final(self)@ == old(self)@.at(StageOf::Done),
            r@ == (EffectModel::Finish { close }),
    {
        self.stage = StageOf::Done;
        PlayEffectOf::Finish { close }
    }
}

} // verus!
