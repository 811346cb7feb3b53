//! What holds of every course that a playback can take.
use vstd::prelude::*;

use crate::audio::{law_music_read_back, music_bytes};
use crate::playback::{
    EffectModel, EventModel, PlayEffect, PlayEffectOf, PlayEvent, PlayEventOf, PlayTaskCmd,
    PlaybackModel, StageOf,
};

verus! {

/// Where a row of events takes a playback, and the effects on the way; nothing where one of the
/// events is not what the playback waits for by then.
pub open spec fn course(start: PlaybackModel, events: Seq<EventModel>) -> Option<
    (PlaybackModel, Seq<EffectModel>),
>
    decreases events.len(),
{
    if events.len() == 0 {
        Some((start, Seq::empty()))
    } else {
        match course(start, events.drop_last()) {
            None => None,
            Some((before, effects)) => match before.next(events.last()) {
                None => None,
                Some((after, effect)) => Some((after, effects.push(effect))),
            },
        }
    }
}

/// The volume last asked for, or the one at the start where none was.
pub open spec fn volume_after(start: u32, events: Seq<EventModel>) -> u32
    decreases events.len(),
{
    if events.len() == 0 {
        start
    } else {
        match events.last() {
            PlayEventOf::Command(Some(PlayTaskCmd::ChangeVolume { percent })) => percent,
            _ => volume_after(start, events.drop_last()),
        }
    }
}

/// The frames that were encoded, in order.
pub open spec fn encoded(events: Seq<EventModel>) -> Seq<Seq<u8>>
    decreases events.len(),
{
    if events.len() == 0 {
        Seq::empty()
    } else {
        match events.last() {
            PlayEventOf::Encoded(Some(data)) => encoded(events.drop_last()).push(data),
            _ => encoded(events.drop_last()),
        }
    }
}

/// The packets of music that were handed on, in order.
pub open spec fn payloads(effects: Seq<EffectModel>) -> Seq<Seq<u8>>
    decreases effects.len(),
{
    if effects.len() == 0 {
        Seq::empty()
    } else {
        match effects.last() {
            PlayEffectOf::SendPayload(packet) => payloads(effects.drop_last()).push(packet),
            _ => payloads(effects.drop_last()),
        }
    }
}

/// How many times the playback reported that it sends no more music.
pub open spec fn reports(effects: Seq<EffectModel>) -> nat
    decreases effects.len(),
{
    if effects.len() == 0 {
        0
    } else {
        match effects.last() {
            PlayEffectOf::SendStatus => reports(effects.drop_last()) + 1,
            _ => reports(effects.drop_last()),
        }
    }
}

/// Whether the decoder was started.
pub open spec fn decoded(effects: Seq<EffectModel>) -> bool {
    exists|i: int| 0 <= i < effects.len() && #[trigger] effects[i] is StartDecoder
}

/// The volume of a playback, and that of every frame it encodes, is the one last asked for.
pub proof fn law_volume_is_the_last_asked_for(
    start: PlaybackModel,
    events: Seq<EventModel>,
    end: PlaybackModel,
    effects: Seq<EffectModel>,
)
    requires
        course(start, events) == Some((end, effects)),
    ensures
        end.volume == volume_after(start.volume, events),
        effects.len() == events.len(),
        forall|i: int|
            0 <= i < effects.len() ==> (#[trigger] effects[i] matches PlayEffectOf::EncodeFrame {
                percent,
            } ==> percent == volume_after(start.volume, events.take(i + 1))),
    decreases events.len(),
{
    if events.len() > 0 {
        let (before, earlier) = course(start, events.drop_last())->0;
        law_volume_is_the_last_asked_for(start, events.drop_last(), before, earlier);
        assert(events.take(events.len() as int) == events);
        assert forall|i: int| 0 <= i < effects.len() implies (
        #[trigger] effects[i] matches PlayEffectOf::EncodeFrame { percent } ==> percent
            == volume_after(start.volume, events.take(i + 1))) by {
            if i < earlier.len() {
                assert(effects[i] == earlier[i]);
                assert(events.drop_last().take(i + 1) == events.take(i + 1));
            }
        }
    }
}

/// Every frame that was encoded is handed on once, packed for the server, in the order of
/// encoding; nothing else is.
pub proof fn law_payloads_are_the_encoded_frames(
    start: PlaybackModel,
    events: Seq<EventModel>,
    end: PlaybackModel,
    effects: Seq<EffectModel>,
)
    requires
        course(start, events) == Some((end, effects)),
    ensures
        payloads(effects) == encoded(events).map_values(|data: Seq<u8>| music_bytes(data)),
    decreases events.len(),
{
    let pack = |data: Seq<u8>| music_bytes(data);
    if events.len() > 0 {
        let (before, earlier) = course(start, events.drop_last())->0;
        law_payloads_are_the_encoded_frames(start, events.drop_last(), before, earlier);
        assert(effects.drop_last() == earlier);
        if let PlayEventOf::Encoded(Some(data)) = events.last() {
            assert(encoded(events).map_values(pack) == encoded(events.drop_last()).map_values(
                pack,
            ).push(music_bytes(data)));
        }
    } else {
        assert(payloads(effects) == encoded(events).map_values(pack));
    }
}

/// A playback that got as far as its decoder, or found its link to have no audio, does not end
/// without a report; it never makes more than two.
pub proof fn law_end_is_reported(
    volume: u32,
    events: Seq<EventModel>,
    end: PlaybackModel,
    effects: Seq<EffectModel>,
)
    requires
        course(PlaybackModel::initial(volume), events) == Some((end, effects)),
    ensures
        end.stage is Done && decoded(effects) ==> reports(effects) >= 1,
        end.stage is Done && events[0] == PlayEventOf::<Seq<char>, Seq<u8>>::Url(
            Some(Seq::empty()),
        ) ==> reports(effects) == 1,
        reports(effects) <= 2,
{
    lemma_reports(volume, events, end, effects);
}

/// Whether the playback has begun to sound, or could at any moment.
spec fn is_running(stage: StageOf<Seq<char>>) -> bool {
    stage is Polling || stage is Reading || stage is Encoding || stage is Sending
        || stage is Resting || stage is StartingDecoder
}

proof fn lemma_reports(
    volume: u32,
    events: Seq<EventModel>,
    end: PlaybackModel,
    effects: Seq<EffectModel>,
)
    requires
        course(PlaybackModel::initial(volume), events) == Some((end, effects)),
    ensures
        end.stage is FetchingUrl <==> events.len() == 0,
        end.stage is FetchingUrl || end.stage is MakingEncoder ==> reports(effects) == 0
            && !decoded(effects),
        is_running(end.stage) ==> reports(effects) == 0,
        end.stage is ReportingEmpty || end.stage is ReportingFailure ==> reports(effects) == 1,
        end.stage is ReportingEmpty ==> !decoded(effects) && events.len() == 1,
        end.stage is Finishing ==> 1 <= reports(effects) <= 2,
        end.stage is Done ==> reports(effects) <= 2 && (decoded(effects) ==> reports(effects) >= 1),
        events.len() > 0 && events[0] == PlayEventOf::<Seq<char>, Seq<u8>>::Url(
            Some(Seq::empty()),
        ) ==> (end.stage is ReportingEmpty || end.stage is Done) && reports(effects) == 1,
    decreases events.len(),
{
    if events.len() > 0 {
        let (before, earlier) = course(PlaybackModel::initial(volume), events.drop_last())->0;
        lemma_reports(volume, events.drop_last(), before, earlier);
        assert(effects.drop_last() == earlier);
        assert(decoded(effects) ==> decoded(earlier) || effects.last() is StartDecoder) by {
            if decoded(effects) {
                let i = choose|i: int|
                    0 <= i < effects.len() && #[trigger] effects[i] is StartDecoder;
                if i < earlier.len() {
                    assert(earlier[i] is StartDecoder);
                }
            }
        }
        if events.len() > 1 {
            assert(events.drop_last()[0] == events[0]);
        }
    }
}

/// Whether everything that a playback handed on was taken.
pub open spec fn all_sent(events: Seq<EventModel>) -> bool {
    forall|i: int|
        0 <= i < events.len() ==> !(#[trigger] events[i] matches PlayEventOf::PayloadSent(None))
            && events[i] != PlayEventOf::<Seq<char>, Seq<u8>>::StatusSent(false)
}

/// Where everything it hands on is taken, a playback that got as far as its decoder reports its
/// end exactly once, last of all before it is over.
pub proof fn law_end_is_reported_once(
    volume: u32,
    events: Seq<EventModel>,
    end: PlaybackModel,
    effects: Seq<EffectModel>,
)
    requires
        course(PlaybackModel::initial(volume), events) == Some((end, effects)),
        all_sent(events),
        end.stage is Done,
        decoded(effects),
    ensures
        reports(effects) == 1,
        effects.len() >= 2,
        effects[effects.len() - 2] is SendStatus,
        effects.last() is Finish,
{
    lemma_reported_once(volume, events, end, effects);
}

proof fn lemma_reported_once(
    volume: u32,
    events: Seq<EventModel>,
    end: PlaybackModel,
    effects: Seq<EffectModel>,
)
    requires
        course(PlaybackModel::initial(volume), events) == Some((end, effects)),
        all_sent(events),
    ensures
        end.stage !is ReportingFailure,
        end.stage is Finishing ==> reports(effects) == 1 && effects.len() >= 1
            && effects.last() is SendStatus,
        end.stage is Done && decoded(effects) ==> reports(effects) == 1 && effects.len() >= 2
            && effects[effects.len() - 2] is SendStatus && effects.last() is Finish,
    decreases events.len(),
{
    if events.len() > 0 {
        let (before, earlier) = course(PlaybackModel::initial(volume), events.drop_last())->0;
        assert forall|i: int| 0 <= i < events.drop_last().len() implies !(
        #[trigger] events.drop_last()[i] matches PlayEventOf::PayloadSent(None))
            && events.drop_last()[i] != PlayEventOf::<Seq<char>, Seq<u8>>::StatusSent(false) by {
            assert(events.drop_last()[i] == events[i]);
        }
        lemma_reported_once(volume, events.drop_last(), before, earlier);
        lemma_reports(volume, events.drop_last(), before, earlier);
        assert(effects.drop_last() == earlier);
        assert(events.last() == events[events.len() - 1]);
        assert(effects.last() == effects[effects.len() - 1]);
        assert(decoded(effects) ==> decoded(earlier) || effects.last() is StartDecoder) by {
            if decoded(effects) {
                let i = choose|i: int|
                    0 <= i < effects.len() && #[trigger] effects[i] is StartDecoder;
                if i < earlier.len() {
                    assert(earlier[i] is StartDecoder);
                }
            }
        }
    }
}

/// A playback that is told to stop reads no further frame: it reports its end, and is over.
pub proof fn law_stop_ends(playback: PlaybackModel, sent: bool)
    requires
        playback.stage is Polling,
    ensures
        playback.next(PlayEventOf::Command(Some(PlayTaskCmd::Stop))) == Some(
            (playback.at(StageOf::Finishing), EffectModel::SendStatus),
        ),
        playback.at(StageOf::Finishing).next(PlayEventOf::StatusSent(sent)) == Some(
            (playback.at(StageOf::Done), EffectModel::Finish { close: sent }),
        ),
{
}

/// What is over stays over.
pub proof fn law_done_is_final(playback: PlaybackModel, event: EventModel)
    requires
        playback.stage is Done,
    ensures
        playback.next(event) is None,
{
}

/// A playback ends exactly with the effect that says so.
pub proof fn law_finish_ends(playback: PlaybackModel, event: EventModel)
    requires
        playback.next(event) is Some,
    ensures
        (playback.next(event)->0).0.stage is Done <==> (playback.next(event)->0).1 is Finish,
{
}

/// The time that making a packet took and the rest after it add up to the time of a packet,
/// unless making it took that long already.
pub proof fn law_packets_keep_time(playback: PlaybackModel, elapsed: u128)
    requires
        playback.stage is Sending,
    ensures
        match (playback.next(PlayEventOf::PayloadSent(Some(elapsed)))->0).1 {
            PlayEffectOf::Rest(nanos) => nanos + elapsed == 18_000_000,
            effect => effect is PollCommand && elapsed >= 18_000_000,
        },
{
}

/// Whether an event is what carrying out an effect can lead to.
pub open spec fn answers(event: EventModel, effect: EffectModel) -> bool {
    match effect {
        PlayEffectOf::FetchUrl => event is Url,
        PlayEffectOf::MakeEncoder => event is EncoderMade,
        PlayEffectOf::StartDecoder(_) => event is DecoderStarted,
        PlayEffectOf::PollCommand => event is Command,
        PlayEffectOf::ReadFrame => event is FrameRead,
        PlayEffectOf::EncodeFrame { percent } => event is Encoded,
        PlayEffectOf::SendPayload(_) => event is PayloadSent,
        PlayEffectOf::SendStatus => event is StatusSent,
        PlayEffectOf::Rest(_) => event is Rested,
        PlayEffectOf::Finish { close } => false,
    }
}

/// A playback takes every event that its last effect can lead to, and no other. It begins by
/// fetching its audio URL, and takes nothing more once it is over.
pub proof fn law_playback_takes_the_answers(
    volume: u32,
    events: Seq<EventModel>,
    end: PlaybackModel,
    effects: Seq<EffectModel>,
    event: EventModel,
)
    requires
        course(PlaybackModel::initial(volume), events) == Some((end, effects)),
    ensures
        effects.len() == events.len(),
        course(PlaybackModel::initial(volume), events.push(event)) is Some <==> answers(
            event,
            if effects.len() == 0 {
                EffectModel::FetchUrl
            } else {
                effects.last()
            },
        ),
{
    lemma_course_shape(volume, events, end, effects);
    assert(events.push(event).drop_last() == events);
}

/// What a playback does about an event that it was waiting for: the one effect that follows each,
/// with the URL, the packet and the time that belong to it.
pub proof fn law_what_follows_an_event(
    volume: u32,
    events: Seq<EventModel>,
    end: PlaybackModel,
    effects: Seq<EffectModel>,
)
    requires
        course(PlaybackModel::initial(volume), events) == Some((end, effects)),
        events.len() > 0,
    ensures
        match events.last() {
            PlayEventOf::Url(None) => effects.last() == (EffectModel::Finish { close: false }),
            PlayEventOf::Url(Some(url)) => if url.len() == 0 {
                effects.last() is SendStatus
            } else {
                effects.last() is MakeEncoder
            },
            PlayEventOf::EncoderMade(false) => effects.last() == (EffectModel::Finish {
                close: false,
            }),
            PlayEventOf::EncoderMade(true) => {
                &&& events.len() == 2
                &&& events[0] matches PlayEventOf::Url(Some(url))
                &&& effects.last() == EffectModel::StartDecoder(url)
            },
            PlayEventOf::DecoderStarted => effects.last() is PollCommand,
            PlayEventOf::Command(Some(PlayTaskCmd::Stop)) => effects.last() is SendStatus,
            PlayEventOf::Command(_) => effects.last() is ReadFrame,
            PlayEventOf::FrameRead(true) => effects.last() == (EffectModel::EncodeFrame {
                percent: end.volume,
            }),
            PlayEventOf::FrameRead(false) => effects.last() is SendStatus,
            PlayEventOf::Encoded(Some(data)) => effects.last() matches PlayEffectOf::SendPayload(
                packet,
            ) && packet.len() == 16 + data.len() && packet.skip(16) == data,
            PlayEventOf::Encoded(None) => effects.last() is SendStatus,
            PlayEventOf::PayloadSent(None) => effects.last() is SendStatus,
            PlayEventOf::PayloadSent(Some(elapsed)) => if elapsed < 18_000_000 {
                effects.last() matches PlayEffectOf::Rest(nanos) && nanos + elapsed == 18_000_000
            } else {
                effects.last() is PollCommand
            },
            PlayEventOf::Rested => effects.last() is PollCommand,
            PlayEventOf::StatusSent(sent) => {
                let before = events[events.len() - 2];
                if before == EventModel::PayloadSent(None) && sent {
                    effects.last() is SendStatus
                } else if before == EventModel::PayloadSent(None) || before is Url {
                    effects.last() == (EffectModel::Finish { close: false })
                } else {
                    effects.last() == (EffectModel::Finish { close: sent })
                }
            },
        },
{
    let (before, earlier) = course(PlaybackModel::initial(volume), events.drop_last())->0;
    lemma_course_shape(volume, events.drop_last(), before, earlier);
    if let PlayEventOf::Encoded(Some(data)) = events.last() {
        law_music_read_back(data);
    }
    if events.len() >= 2 {
        assert(events.drop_last().last() == events[events.len() - 2]);
        assert(events.drop_last()[0] == events[0]);
    }
}

/// What the stage of a playback tells of its course so far.
proof fn lemma_course_shape(
    volume: u32,
    events: Seq<EventModel>,
    end: PlaybackModel,
    effects: Seq<EffectModel>,
)
    requires
        course(PlaybackModel::initial(volume), events) == Some((end, effects)),
    ensures
        effects.len() == events.len(),
        end.stage is FetchingUrl <==> events.len() == 0,
        events.len() > 0 ==> match end.stage {
            StageOf::FetchingUrl => false,
            StageOf::ReportingEmpty => effects.last() is SendStatus && events.last() is Url,
            StageOf::MakingEncoder(url) => effects.last() is MakeEncoder && events.len() == 1
                && events[0] == EventModel::Url(Some(url)),
            StageOf::StartingDecoder => effects.last() is StartDecoder,
            StageOf::Polling => effects.last() is PollCommand,
            StageOf::Reading => effects.last() is ReadFrame,
            StageOf::Encoding => effects.last() is EncodeFrame,
            StageOf::Sending => effects.last() is SendPayload,
            StageOf::Resting => effects.last() is Rest,
            StageOf::ReportingFailure => effects.last() is SendStatus && events.last()
                == EventModel::PayloadSent(None),
            StageOf::Finishing => effects.last() is SendStatus && events.last()
                != EventModel::PayloadSent(None) && events.last() !is Url,
            StageOf::Done => effects.last() is Finish,
        },
    decreases events.len(),
{
    if events.len() > 0 {
        let (before, earlier) = course(PlaybackModel::initial(volume), events.drop_last())->0;
        lemma_course_shape(volume, events.drop_last(), before, earlier);
    }
}

/// The course of a playback up to an event is the beginning of its whole course.
pub proof fn law_course_begins(
    start: PlaybackModel,
    events: Seq<EventModel>,
    end: PlaybackModel,
    effects: Seq<EffectModel>,
    n: int,
)
    requires
        course(start, events) == Some((end, effects)),
        0 <= n <= events.len(),
    ensures
        effects.len() == events.len(),
        course(start, events.take(n)) matches Some((_, earlier)) && earlier == effects.take(n),
    decreases events.len(),
{
    law_volume_is_the_last_asked_for(start, events, end, effects);
    if n == events.len() {
        assert(events.take(n) == events);
        assert(effects.take(n) == effects);
    } else {
        let (before, earlier) = course(start, events.drop_last())->0;
        law_course_begins(start, events.drop_last(), before, earlier, n);
        assert(events.drop_last().take(n) == events.take(n));
        assert(earlier.take(n) == effects.take(n));
    }
}

/// The decoder is started on the audio URL that was fetched, character for character, and on
/// nothing else; it is started as soon as there is an encoder.
pub proof fn law_decoder_plays_the_fetched_url(
    volume: u32,
    events: Seq<EventModel>,
    end: PlaybackModel,
    effects: Seq<EffectModel>,
    at: int,
)
    requires
        course(PlaybackModel::initial(volume), events) == Some((end, effects)),
        0 <= at < events.len(),
    ensures
        effects[at] matches PlayEffectOf::StartDecoder(url) ==> at == 1 && events[0]
            == EventModel::Url(Some(url)),
        events[at] == EventModel::EncoderMade(true) ==> effects[at] is StartDecoder,
{
    law_course_begins(PlaybackModel::initial(volume), events, end, effects, at + 1);
    let begun = events.take(at + 1);
    let (then, earlier) = course(PlaybackModel::initial(volume), begun)->0;
    law_what_follows_an_event(volume, begun, then, earlier);
    assert(begun.last() == events[at]);
    assert(begun[0] == events[0]);
    assert(earlier.last() == effects[at]);
}

/// Whether an event changes the volume.
pub open spec fn changes_volume(event: EventModel) -> bool {
    event matches PlayEventOf::Command(Some(PlayTaskCmd::ChangeVolume { percent }))
}

/// From the moment a volume is asked for, it holds for every frame until another is asked for;
/// before any is, the volume at the start holds.
pub proof fn law_volume_holds(
    volume: u32,
    events: Seq<EventModel>,
    end: PlaybackModel,
    effects: Seq<EffectModel>,
    at: int,
)
    requires
        course(PlaybackModel::initial(volume), events) == Some((end, effects)),
        -1 <= at < events.len(),
        forall|i: int| at < i < events.len() ==> !changes_volume(#[trigger] events[i]),
        at >= 0 ==> changes_volume(events[at]),
    ensures
        at == -1 ==> end.volume == volume,
        at >= 0 ==> events[at] == EventModel::Command(
            Some(PlayTaskCmd::ChangeVolume { percent: end.volume }),
        ),
        events.len() > 0 ==> (effects.last() matches PlayEffectOf::EncodeFrame { percent }
            ==> percent == end.volume),
    decreases events.len(),
{
    if events.len() > 0 {
        let (before, earlier) = course(PlaybackModel::initial(volume), events.drop_last())->0;
        if at < events.len() - 1 {
            assert(!changes_volume(events[events.len() - 1]));
            assert forall|i: int| at < i < events.drop_last().len() implies !changes_volume(
                #[trigger] events.drop_last()[i],
            ) by {
                assert(events.drop_last()[i] == events[i]);
            }
            law_volume_holds(volume, events.drop_last(), before, earlier, at);
        }
    }
}

/// What happened to a playback is kept in its mathematical form.
pub proof fn law_play_event_form(event: PlayEvent)
    ensures
        match event {
            PlayEventOf::Url(Some(url)) => event@ == EventModel::Url(Some(url@)),
            PlayEventOf::Url(None) => event@ == EventModel::Url(None),
            PlayEventOf::EncoderMade(made) => event@ == EventModel::EncoderMade(made),
            PlayEventOf::DecoderStarted => event@ is DecoderStarted,
            PlayEventOf::Command(command) => event@ == EventModel::Command(command),
            PlayEventOf::FrameRead(read) => event@ == EventModel::FrameRead(read),
            PlayEventOf::Encoded(Some(data)) => event@ == EventModel::Encoded(Some(data@)),
            PlayEventOf::Encoded(None) => event@ == EventModel::Encoded(None),
            PlayEventOf::PayloadSent(elapsed) => event@ == EventModel::PayloadSent(elapsed),
            PlayEventOf::StatusSent(sent) => event@ == EventModel::StatusSent(sent),
            PlayEventOf::Rested => event@ is Rested,
        },
{
}

/// What a playback needs done is kept in its mathematical form.
pub proof fn law_play_effect_form(effect: PlayEffect)
    ensures
        match effect {
            PlayEffectOf::FetchUrl => effect@ is FetchUrl,
            PlayEffectOf::MakeEncoder => effect@ is MakeEncoder,
            PlayEffectOf::StartDecoder(url) => effect@ == EffectModel::StartDecoder(url@),
            PlayEffectOf::PollCommand => effect@ is PollCommand,
            PlayEffectOf::ReadFrame => effect@ is ReadFrame,
            PlayEffectOf::EncodeFrame { percent } => effect@ == (EffectModel::EncodeFrame {
                percent,
            }),
            PlayEffectOf::SendPayload(packet) => effect@ == EffectModel::SendPayload(packet@),
            PlayEffectOf::SendStatus => effect@ is SendStatus,
            PlayEffectOf::Rest(nanos) => effect@ == EffectModel::Rest(nanos),
            PlayEffectOf::Finish { close } => effect@ == (EffectModel::Finish { close }),
        },
{
}

} // verus!
