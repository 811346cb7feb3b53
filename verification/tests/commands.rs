use tsbot::command::{parse_command, parse_text, sanitize, try_parse_command, Action};

fn kept(c: char) -> bool {
    c.is_alphanumeric()
        || [' ', '.', '=', '\t', ',', '?', '!', ':', '&', '/', '_'].contains(&c)
}

#[test]
fn sanitizing_keeps_letters_digits_and_some_marks() {
    let mut all = String::new();
    for n in 0..=0x10ffff_u32 {
        if let Some(c) = char::from_u32(n) {
            all.push(c);
        }
    }
    let expected: String = all.chars().filter(|c| kept(*c)).collect();
    assert_eq!(sanitize(&all), expected);
    assert!(expected.len() < all.len());
}

#[test]
fn sanitizing_drops_what_a_command_cannot_hold() {
    assert_eq!(sanitize("a-b;c\"d'(e)[f]{g}<h>#i+j"), "abcdefghij");
    assert_eq!(sanitize(" .=\t,?!:&/_"), " .=\t,?!:&/_");
    assert_eq!(sanitize("übung 三 ٣"), "übung 三 ٣");
    assert_eq!(sanitize(""), "");
}

#[test]
fn sanitizing_twice_changes_nothing_more() {
    for s in ["a-b", "[URL]x[/URL]", "!yt https://x.y/z?v=1&w=2", "ä€😀"] {
        assert_eq!(sanitize(&sanitize(s)), sanitize(s));
    }
}

#[test]
fn stop_stops() {
    assert_eq!(try_parse_command("!stop"), Some(Action::Stop));
    assert_eq!(try_parse_command("!stop now please"), Some(Action::Stop));
    assert_eq!(try_parse_command("  !stop\t\n"), Some(Action::Stop));
    assert_eq!(try_parse_command("!stopp"), Some(Action::Nothing));
    assert_eq!(try_parse_command("!stop\tnow"), Some(Action::Nothing));
    assert_eq!(parse_text("!stop"), Action::Stop);
}

#[test]
fn links_are_played() {
    assert_eq!(
        try_parse_command("!yt https://www.youtube.com/watch?v=5qap5aO4i9A"),
        Some(Action::PlayAudio("https://www.youtube.com/watch?v=5qap5aO4i9A".to_string()))
    );
    assert_eq!(try_parse_command("!yt a b"), Some(Action::PlayAudio("a".to_string())));
    assert_eq!(try_parse_command("!yt  a"), Some(Action::PlayAudio(String::new())));
    assert_eq!(try_parse_command("!brki a"), Some(Action::PlayNukedAudio("a".to_string())));
    assert_eq!(try_parse_command("!yt"), Some(Action::Nothing));
    assert_eq!(try_parse_command("!yt "), Some(Action::Nothing));
    assert_eq!(try_parse_command("!brki"), Some(Action::Nothing));
}

#[test]
fn link_tags_make_no_difference() {
    assert_eq!(
        parse_command("!yt [URL]https://youtu.be/x[/URL]"),
        parse_command("!yt https://youtu.be/x")
    );
    assert_eq!(
        parse_command("!yt [URL]https://youtu.be/x[/URL]"),
        Action::PlayAudio("https://youtu.be/x".to_string())
    );
    assert_eq!(parse_command("![URL]stop"), Action::Stop);
    assert_eq!(parse_command("![[URL]URL]stop"), Action::Nothing);
}

#[test]
fn links_hold_only_what_commands_may_hold() {
    assert_eq!(
        parse_command("!yt https://youtu.be/a-b_c;rm"),
        Action::PlayAudio("https://youtu.be/ab_crm".to_string())
    );
}

#[test]
fn volume_is_capped_at_full() {
    let percent = |s: &str| match parse_command(s) {
        Action::ChangeVolume { percent } => Some(percent),
        Action::Nothing => None,
        other => panic!("{:?}", other),
    };
    assert_eq!(percent("!volume 0"), Some(0));
    assert_eq!(percent("!volume 35"), Some(35));
    assert_eq!(percent("!volume 100"), Some(100));
    assert_eq!(percent("!volume 101"), Some(100));
    assert_eq!(percent("!volume 4294967295"), Some(100));
    assert_eq!(percent("!volume 4294967296"), None);
    assert_eq!(percent("!volume loud"), None);
    assert_eq!(percent("!volume"), None);
    // Signs do not survive the clean-up.
    assert_eq!(percent("!volume -20"), Some(20));
}

#[test]
fn talk_is_no_command() {
    assert_eq!(try_parse_command("hello"), Some(Action::Nothing));
    assert_eq!(try_parse_command("stop"), Some(Action::Nothing));
    assert_eq!(try_parse_command("yt !yt x"), Some(Action::Nothing));
    assert_eq!(try_parse_command("!"), Some(Action::Nothing));
    assert_eq!(try_parse_command("!play x"), Some(Action::Nothing));
}

#[test]
fn some_messages_cannot_be_read() {
    assert_eq!(try_parse_command(""), None);
    assert_eq!(try_parse_command(" \t "), None);
    assert_eq!(try_parse_command("[URL][/URL]"), None);
    assert_eq!(try_parse_command("()"), None);
    assert_eq!(try_parse_command("übung"), None);
    assert_eq!(try_parse_command("[]ü"), None);
    assert_eq!(try_parse_command("(a)"), Some(Action::Nothing));
}
