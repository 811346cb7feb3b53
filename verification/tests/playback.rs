use tsbot::audio::music_packet;
use tsbot::playback::{PlayEffect, PlayEvent, PlayTaskCmd, Playback};

fn follow(volume: u32, events: Vec<PlayEvent>) -> Vec<PlayEffect> {
    let (mut playback, first) = Playback::start(volume);
    let mut effects = vec![first];
    for event in events {
        assert!(playback.accepts(&event), "{:?} at {:?}", event, playback);
        effects.push(playback.step(event));
    }
    effects
}

fn url(s: &str) -> PlayEvent {
    PlayEvent::Url(Some(s.to_string()))
}

fn opening() -> Vec<PlayEvent> {
    vec![
        url("u"),
        PlayEvent::EncoderMade(true),
        PlayEvent::DecoderStarted,
    ]
}

fn opening_effects() -> Vec<PlayEffect> {
    vec![
        PlayEffect::FetchUrl,
        PlayEffect::MakeEncoder,
        PlayEffect::StartDecoder("u".to_string()),
        PlayEffect::PollCommand,
    ]
}

fn check(mut events: Vec<PlayEvent>, mut effects: Vec<PlayEffect>) {
    let mut all_events = opening();
    all_events.append(&mut events);
    let mut all_effects = opening_effects();
    all_effects.append(&mut effects);
    assert_eq!(follow(20, all_events), all_effects);
}

#[test]
fn without_a_url_nothing_is_reported() {
    assert_eq!(
        follow(20, vec![PlayEvent::Url(None)]),
        vec![PlayEffect::FetchUrl, PlayEffect::Finish { close: false }]
    );
}

#[test]
fn an_empty_url_is_reported() {
    for sent in [true, false] {
        assert_eq!(
            follow(20, vec![url(""), PlayEvent::StatusSent(sent)]),
            vec![
                PlayEffect::FetchUrl,
                PlayEffect::SendStatus,
                PlayEffect::Finish { close: false }
            ]
        );
    }
}

#[test]
fn without_an_encoder_nothing_is_reported() {
    assert_eq!(
        follow(20, vec![url("u"), PlayEvent::EncoderMade(false)]),
        vec![PlayEffect::FetchUrl, PlayEffect::MakeEncoder, PlayEffect::Finish { close: false }]
    );
}

#[test]
fn frames_are_packed_and_paced() {
    check(
        vec![
            PlayEvent::Command(None),
            PlayEvent::FrameRead(true),
            PlayEvent::Encoded(Some(vec![1, 2])),
            PlayEvent::PayloadSent(Some(4_000_000)),
            PlayEvent::Rested,
            PlayEvent::Command(None),
            PlayEvent::FrameRead(true),
            PlayEvent::Encoded(Some(vec![3])),
            PlayEvent::PayloadSent(Some(20_000_000)),
            PlayEvent::Command(None),
            PlayEvent::FrameRead(false),
            PlayEvent::StatusSent(true),
        ],
        vec![
            PlayEffect::ReadFrame,
            PlayEffect::EncodeFrame { percent: 20 },
            PlayEffect::SendPayload(music_packet(&[1, 2])),
            PlayEffect::Rest(14_000_000),
            PlayEffect::PollCommand,
            PlayEffect::ReadFrame,
            PlayEffect::EncodeFrame { percent: 20 },
            PlayEffect::SendPayload(music_packet(&[3])),
            PlayEffect::PollCommand,
            PlayEffect::ReadFrame,
            PlayEffect::SendStatus,
            PlayEffect::Finish { close: true },
        ],
    );
}

#[test]
fn the_volume_is_the_last_asked_for() {
    check(
        vec![
            PlayEvent::Command(Some(PlayTaskCmd::ChangeVolume { percent: 70 })),
            PlayEvent::FrameRead(true),
            PlayEvent::Encoded(Some(vec![])),
            PlayEvent::PayloadSent(Some(18_000_000)),
            PlayEvent::Command(None),
            PlayEvent::FrameRead(true),
            PlayEvent::Encoded(Some(vec![])),
            PlayEvent::PayloadSent(Some(18_000_000)),
            PlayEvent::Command(Some(PlayTaskCmd::ChangeVolume { percent: 5 })),
            PlayEvent::FrameRead(true),
        ],
        vec![
            PlayEffect::ReadFrame,
            PlayEffect::EncodeFrame { percent: 70 },
            PlayEffect::SendPayload(music_packet(&[])),
            PlayEffect::PollCommand,
            PlayEffect::ReadFrame,
            PlayEffect::EncodeFrame { percent: 70 },
            PlayEffect::SendPayload(music_packet(&[])),
            PlayEffect::PollCommand,
            PlayEffect::ReadFrame,
            PlayEffect::EncodeFrame { percent: 5 },
        ],
    );
}

#[test]
fn stopping_reads_no_further_frame() {
    check(
        vec![PlayEvent::Command(Some(PlayTaskCmd::Stop)), PlayEvent::StatusSent(true)],
        vec![PlayEffect::SendStatus, PlayEffect::Finish { close: true }],
    );
    check(
        vec![PlayEvent::Command(Some(PlayTaskCmd::Stop)), PlayEvent::StatusSent(false)],
        vec![PlayEffect::SendStatus, PlayEffect::Finish { close: false }],
    );
}

#[test]
fn a_frame_that_cannot_be_encoded_ends_the_playback() {
    check(
        vec![
            PlayEvent::Command(None),
            PlayEvent::FrameRead(true),
            PlayEvent::Encoded(None),
            PlayEvent::StatusSent(true),
        ],
        vec![
            PlayEffect::ReadFrame,
            PlayEffect::EncodeFrame { percent: 20 },
            PlayEffect::SendStatus,
            PlayEffect::Finish { close: true },
        ],
    );
}

#[test]
fn a_packet_that_cannot_be_sent_is_reported_twice() {
    let start = || {
        vec![
            PlayEvent::Command(None),
            PlayEvent::FrameRead(true),
            PlayEvent::Encoded(Some(vec![1])),
            PlayEvent::PayloadSent(None),
        ]
    };
    let effects = || {
        vec![
            PlayEffect::ReadFrame,
            PlayEffect::EncodeFrame { percent: 20 },
            PlayEffect::SendPayload(music_packet(&[1])),
            PlayEffect::SendStatus,
        ]
    };

    let mut reported = start();
    reported.push(PlayEvent::StatusSent(true));
    reported.push(PlayEvent::StatusSent(true));
    let mut twice = effects();
    twice.push(PlayEffect::SendStatus);
    twice.push(PlayEffect::Finish { close: true });
    check(reported, twice);

    let mut unheard = start();
    unheard.push(PlayEvent::StatusSent(false));
    let mut once = effects();
    once.push(PlayEffect::Finish { close: false });
    check(unheard, once);
}

#[test]
fn the_end_is_reported_once_where_everything_is_taken() {
    let mut events = opening();
    for _ in 0..3 {
        events.push(PlayEvent::Command(None));
        events.push(PlayEvent::FrameRead(true));
        events.push(PlayEvent::Encoded(Some(vec![1])));
        events.push(PlayEvent::PayloadSent(Some(18_000_000)));
    }
    events.push(PlayEvent::Command(Some(PlayTaskCmd::Stop)));
    events.push(PlayEvent::StatusSent(true));
    let effects = follow(20, events);
    assert_eq!(effects.iter().filter(|e| **e == PlayEffect::SendStatus).count(), 1);
    assert_eq!(effects[effects.len() - 2], PlayEffect::SendStatus);
    assert_eq!(effects[effects.len() - 1], PlayEffect::Finish { close: true });
}

#[test]
fn a_playback_finishes_at_its_last_report() {
    let (mut playback, _) = Playback::start(20);
    for event in opening() {
        playback.step(event);
        assert!(!playback.is_finishing());
    }
    playback.step(PlayEvent::Command(None));
    playback.step(PlayEvent::FrameRead(true));
    playback.step(PlayEvent::Encoded(Some(vec![1])));
    assert_eq!(playback.step(PlayEvent::PayloadSent(None)), PlayEffect::SendStatus);
    assert!(!playback.is_finishing());
    assert_eq!(playback.step(PlayEvent::StatusSent(true)), PlayEffect::SendStatus);
    assert!(playback.is_finishing());
    assert_eq!(playback.step(PlayEvent::StatusSent(true)), PlayEffect::Finish { close: true });
    assert!(!playback.is_finishing());
}

#[test]
fn a_playback_takes_only_what_it_waits_for() {
    let (mut playback, _) = Playback::start(20);
    assert!(!playback.accepts(&PlayEvent::Rested));
    assert!(!playback.accepts(&PlayEvent::StatusSent(true)));
    assert!(playback.accepts(&PlayEvent::Url(None)));
    playback.step(PlayEvent::Url(None));
    assert!(!playback.accepts(&PlayEvent::Url(None)));
    assert!(!playback.accepts(&PlayEvent::StatusSent(true)));
    assert!(!playback.accepts(&PlayEvent::Command(Some(PlayTaskCmd::Stop))));
}
