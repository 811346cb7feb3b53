use tsbot::command::Action;
use tsbot::playback::PlayTaskCmd;
use tsbot::player::{AudioPacket, Player, PlayerEffect, PlayerEvent};

type Event = PlayerEvent<String>;
type Effect = PlayerEffect<String>;

fn play(link: &str) -> Event {
    Event::Action(Some(Action::PlayAudio(link.to_string())))
}

fn started(link: &str) -> Effect {
    Effect::StartPlayback { link: link.to_string(), percent: 20 }
}

fn end() -> Event {
    Event::Packet(Some(AudioPacket::End))
}

#[test]
fn links_are_played_in_the_order_of_asking() {
    let mut player = Player::new();
    assert_eq!(player.step(play("a")), started("a"));
    assert_eq!(player.step(play("b")), Effect::Continue);
    assert_eq!(
        player.step(Event::Action(Some(Action::PlayNukedAudio("c".to_string())))),
        Effect::Continue
    );
    assert_eq!(player.step(end()), started("b"));
    assert_eq!(player.step(play("d")), Effect::Continue);
    assert_eq!(player.step(end()), started("c"));
    assert_eq!(player.step(end()), started("d"));
    assert_eq!(player.step(end()), Effect::Continue);
    assert_eq!(player.step(play("e")), started("e"));
}

#[test]
fn an_idle_player_starts_either_kind_of_link_at_once() {
    let mut player = Player::new();
    assert_eq!(
        player.step(Event::Action(Some(Action::PlayNukedAudio("n".to_string())))),
        started("n")
    );
}

#[test]
fn commands_go_to_the_playback() {
    let mut player = Player::new();
    player.step(play("a"));
    assert_eq!(
        player.step(Event::Action(Some(Action::ChangeVolume { percent: 35 }))),
        Effect::SendCommand(PlayTaskCmd::ChangeVolume { percent: 35 })
    );
    assert_eq!(
        player.step(Event::Action(Some(Action::Stop))),
        Effect::SendCommand(PlayTaskCmd::Stop)
    );
    // The playback itself has still to say that it is over.
    assert_eq!(player.step(play("b")), Effect::Continue);
    assert_eq!(player.step(end()), started("b"));
}

#[test]
fn an_idle_player_drops_commands_and_packets() {
    let mut player = Player::new();
    assert_eq!(
        player.step(Event::Action(Some(Action::ChangeVolume { percent: 35 }))),
        Effect::Continue
    );
    assert_eq!(player.step(Event::Action(Some(Action::Stop))), Effect::Continue);
    assert_eq!(
        player.step(Event::Packet(Some(AudioPacket::Payload(vec![1])))),
        Effect::Continue
    );
    assert_eq!(player.step(end()), Effect::Continue);
    assert_eq!(player.step(Event::Packet(None)), Effect::Continue);
    assert_eq!(player.step(play("a")), started("a"));
}

#[test]
fn packets_go_to_the_server_while_playing() {
    let mut player = Player::new();
    player.step(play("a"));
    assert_eq!(
        player.step(Event::Packet(Some(AudioPacket::Payload(vec![1, 2])))),
        Effect::SendAudio(vec![1, 2])
    );
    assert_eq!(player.step(Event::AudioSent(true)), Effect::Continue);
    assert_eq!(player.step(Event::AudioSent(false)), Effect::Quit);
}

#[test]
fn nothing_is_done_about_nothing() {
    let mut player = Player::new();
    assert_eq!(player.step(Event::Action(Some(Action::Nothing))), Effect::Continue);
    assert_eq!(player.step(Event::Action(None)), Effect::Continue);
}

#[test]
fn the_player_leaves_with_a_word() {
    let mut player = Player::new();
    assert_eq!(
        player.step(Event::Interrupted),
        Effect::DisconnectAndQuit { message: "Ctrl-C".to_string() }
    );
    assert_eq!(
        player.step(Event::StreamOver(Ok(()))),
        Effect::DisconnectAndFail {
            message: "Dunno, just leaving lmao".to_string(),
            error: "Disconnected".to_string()
        }
    );
    assert_eq!(
        player.step(Event::StreamOver(Err("gone".to_string()))),
        Effect::Fail("gone".to_string())
    );
}

#[test]
fn there_is_one_playback_at_a_time() {
    let mut player = Player::new();
    let mut running = 0;
    let script = [1, 1, 0, 1, 0, 0, 0, 1, 1, 1, 0, 0, 1, 0, 0];
    for (i, ask) in script.iter().enumerate() {
        let before = running;
        let event = if *ask == 1 { play(&format!("{}", i)) } else { end() };
        if *ask == 0 && before == 1 {
            running -= 1;
        }
        if let Effect::StartPlayback { .. } = player.step(event) {
            running += 1;
        }
        assert!(running == 0 || running == 1);
    }
    assert_eq!(running, 0);
}
