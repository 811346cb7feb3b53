use tsbot::audio::{
    decode_frame, music_packet, pause_after, CHANNELS, DEFAULT_VOLUME, FRAME_SAMPLES, FULL_VOLUME,
    MAX_OPUS_FRAME_SIZE, NANOS_PER_PACKET,
};
use tsproto_packets::packets::{AudioData, CodecType, Direction, InPacket, OutAudio};

#[test]
fn frames_are_half_the_largest_packet() {
    assert_eq!(FRAME_SAMPLES, MAX_OPUS_FRAME_SIZE / CHANNELS);
    assert_eq!(FRAME_SAMPLES, 637);
}

#[test]
fn volumes_are_hundredths() {
    assert_eq!(DEFAULT_VOLUME as f32 / 100_f32, 0.2_f32);
    assert_eq!(FULL_VOLUME as f32 / 100_f32, 1.0_f32);
}

#[test]
fn samples_are_read_high_byte_first() {
    let mut bytes = vec![0_u8; 2 * FRAME_SAMPLES];
    bytes[0] = 0x12;
    bytes[1] = 0x34;
    bytes[2] = 0x7f;
    bytes[3] = 0xff;
    bytes[4] = 0x80;
    bytes[5] = 0x00;
    bytes[6] = 0xff;
    bytes[7] = 0xfe;
    let last = bytes.len() - 1;
    bytes[last] = 9;
    let samples = decode_frame(&bytes).unwrap();
    assert_eq!(samples.len(), FRAME_SAMPLES);
    assert_eq!(samples[..5], [0x1234, 32767, -32768, -2, 0]);
    assert_eq!(samples[FRAME_SAMPLES - 1], 9);
}

#[test]
fn a_frame_takes_enough_bytes() {
    assert!(decode_frame(&[]).is_none());
    assert!(decode_frame(&vec![1; 2 * FRAME_SAMPLES - 1]).is_none());
    assert!(decode_frame(&vec![1; 2 * FRAME_SAMPLES]).is_some());
    assert_eq!(decode_frame(&vec![1; 2 * FRAME_SAMPLES + 7]).unwrap(), vec![0x101; FRAME_SAMPLES]);
}

#[test]
fn music_packets_carry_the_data_behind_sixteen_bytes() {
    let packet = music_packet(&[7, 8, 9]);
    assert_eq!(packet, vec![0, 0, 0, 0, 0, 0, 0, 0, 0, 0, 0, 0, 0, 0, 0, 5, 7, 8, 9]);
    let silence = music_packet(&[]);
    assert_eq!(silence.len(), 16);
    assert_eq!(packet[..16], silence[..]);
    assert_eq!(packet[16..], [7, 8, 9]);
}

#[test]
fn music_packets_are_read_as_voice_to_the_server() {
    let data: Vec<u8> = (0..200).collect();
    let packet = music_packet(&data);
    let expected = AudioData::C2S { id: 0, codec: CodecType::OpusMusic, data: &data };
    assert_eq!(packet, OutAudio::new(&expected).into_vec());
    let audio = InPacket::try_new(Direction::C2S, &packet).unwrap().into_audio().unwrap();
    assert_eq!(audio.data(), &expected);
}

#[test]
fn packets_keep_time() {
    assert_eq!(NANOS_PER_PACKET, 18_000_000);
    assert_eq!(pause_after(0), Some(18_000_000));
    assert_eq!(pause_after(5_000_000), Some(13_000_000));
    assert_eq!(pause_after(17_999_999), Some(1));
    assert_eq!(pause_after(18_000_000), None);
    assert_eq!(pause_after(u128::MAX), None);
}
