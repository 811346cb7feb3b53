use tsbot::media::{
    decoder_command, extractor_command, first_url, get_audio_url, AudioUrlError,
};

#[test]
fn the_extractor_prints_audio_urls() {
    let command = extractor_command("https://x.y/z");
    assert_eq!(command.program, "yt-dlp");
    assert_eq!(command.args, vec!["https://x.y/z", "--extract-audio", "--get-url"]);
}

#[test]
fn the_decoder_writes_big_endian_samples() {
    let command = decoder_command("https://a.b/c");
    assert_eq!(command.program, "ffmpeg");
    assert_eq!(
        command.args,
        vec![
            "-loglevel",
            "quiet",
            "-i",
            "https://a.b/c",
            "-af",
            "aresample=48000",
            "-f",
            "s16be",
            "pipe:1"
        ]
    );
}

#[test]
fn the_url_is_the_first_line_of_the_trimmed_output() {
    assert_eq!(first_url("https://a\n"), "https://a");
    assert_eq!(first_url("\n\n  https://a\nhttps://b\n"), "https://a");
    assert_eq!(first_url("https://a \nhttps://b"), "https://a ");
    assert_eq!(first_url("https://a\r\nhttps://b\r\n"), "https://a\r");
    assert_eq!(first_url(" \n\t"), "");
    assert_eq!(first_url(""), "");
}

#[test]
fn urls_come_out_of_bytes() {
    let url = get_audio_url(Ok("  https://a/ü\nhttps://b\n".as_bytes().to_vec()));
    assert_eq!(url.unwrap(), "https://a/ü");
    assert_eq!(get_audio_url(Ok(Vec::new())).unwrap(), "");
}

#[test]
fn bytes_that_are_no_text_are_refused() {
    let bytes = vec![b'a', 0xff, b'b'];
    match get_audio_url(Ok(bytes.clone())) {
        Err(AudioUrlError::NotText(why)) => {
            assert_eq!(why.as_bytes(), &bytes[..]);
            assert_eq!(why.utf8_error().valid_up_to(), 1);
            assert_eq!(
                AudioUrlError::NotText(why).message(),
                "Empty yt-dlp command output: invalid utf-8 sequence of 1 bytes from index 1"
            );
        }
        other => panic!("{:?}", other),
    }
}

#[test]
fn a_program_that_does_not_run_gives_no_url() {
    match get_audio_url(Err("no such file".to_string())) {
        Err(error) => {
            assert_eq!(error.message(), "Failed to execute yt-dlp: no such file");
            assert!(matches!(error, AudioUrlError::Launch(_)));
        }
        other => panic!("{:?}", other),
    }
}
