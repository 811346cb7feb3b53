//! Audio data on its way from the decoder to the server.
use byteorder::{BigEndian, ReadBytesExt};
use tsproto_packets::packets::{AudioData, CodecType, OutAudio};
use vstd::prelude::*;

verus! {

/// The most bytes that one Opus frame takes.
pub const MAX_OPUS_FRAME_SIZE: usize = 1275;

/// Audio is stereo.
pub const CHANNELS: usize = 2;

/// How many samples are read, encoded and sent at a time.
pub const FRAME_SAMPLES: usize = MAX_OPUS_FRAME_SIZE / CHANNELS;

/// The volume that every playback starts with, in hundredths of full volume.
pub const DEFAULT_VOLUME: u32 = 20;

/// Full volume, in hundredths.
pub const FULL_VOLUME: u32 = 100;

/// How long one packet lasts, in nanoseconds.
pub const NANOS_PER_PACKET: u64 = 18_000_000;

/// The sample that two bytes stand for, the high byte first, in two's complement.
pub open spec fn sample_of(high: u8, low: u8) -> int {
    let unsigned = high * 256 + low;
    if unsigned < 0x8000 {
        unsigned
    } else {
        unsigned - 0x10000
    }
}

/// `byteorder::ReadBytesExt::read_i16_into` with `BigEndian`, on a slice as the reader: it fills
/// all of `samples` from pairs of bytes, the high byte first, where the slice has that many, and
/// fails where it has fewer. Nothing is said of the contents of `samples` after a failure.
#[verifier::external_body]
fn read_samples(bytes: &[u8], samples: &mut Vec<i16>) -> (r: bool)
    ensures
        r == (bytes@.len() >= 2 * old(samples)@.len()),
        final(samples)@.len() == old(samples)@.len(),
        r ==> forall|i: int|
            0 <= i < final(samples)@.len() ==> #[trigger] final(samples)@[i] == sample_of(
                bytes@[2 * i],
                bytes@[2 * i + 1],
            ),
{
    let mut reader = bytes;
    reader.read_i16_into::<BigEndian>(samples).is_ok()
}

/// Reads one frame from the decoder's output; there is none where the output is too short.
pub fn decode_frame(bytes: &[u8]) -> (r: Option<Vec<i16>>)
    ensures
        r is Some <==> bytes@.len() >= 2 * FRAME_SAMPLES,
        r matches Some(samples) ==> {
            &&& samples@.len() == FRAME_SAMPLES
            &&& forall|i: int|
                0 <= i < FRAME_SAMPLES ==> #[trigger] samples@[i] == sample_of(
                    bytes@[2 * i],
                    bytes@[2 * i + 1],
                )
        },
{
    let mut samples: Vec<i16> = vec![0i16; FRAME_SAMPLES];
    if read_samples(bytes, &mut samples) {
        Some(samples)
    } else {
        None
    }
}

/// The voice codecs of the protocol.
#[derive(Debug, Clone, Copy, PartialEq, Eq)]
pub enum Codec {
    SpeexNarrowband,
    SpeexWideband,
    SpeexUltrawideband,
    CeltMono,
    OpusVoice,
    OpusMusic,
}

/// The number of a codec in a voice packet.
pub open spec fn codec_number(codec: Codec) -> u8 {
    match codec {
        Codec::SpeexNarrowband => 0,
        Codec::SpeexWideband => 1,
        Codec::SpeexUltrawideband => 2,
        Codec::CeltMono => 3,
        Codec::OpusVoice => 4,
        Codec::OpusMusic => 5,
    }
}

/// The header of a voice packet that the connection has not yet filled in.
pub open spec fn blank_header() -> Seq<u8> {
    seq![0u8, 0u8, 0u8, 0u8, 0u8, 0u8, 0u8, 0u8, 0u8, 0u8, 0u8, 0u8, 0u8]
}

/// The bytes of a voice packet to the server: a blank header, the packet's id with the high byte
/// first, the codec, the encoded audio.
pub open spec fn voice_bytes(id: u16, codec: Codec, data: Seq<u8>) -> Seq<u8> {
    blank_header() + seq![(id / 256) as u8, (id % 256) as u8, codec_number(codec)] + data
}

/// `tsproto_packets::packets::OutAudio::new` on audio to the server: the packet that it makes has
/// the thirteen bytes of a client's header, all zero as an unflagged voice packet leaves them, and
/// after them the id in two bytes, the codec in one, and the data.
#[verifier::external_body]
fn client_voice_packet(id: u16, codec: Codec, data: &[u8]) -> (r: Vec<u8>)
    ensures
        r@ == voice_bytes(id, codec, data@),
{
    let codec = match codec {
        Codec::SpeexNarrowband => CodecType::SpeexNarrowband,
        Codec::SpeexWideband => CodecType::SpeexWideband,
        Codec::SpeexUltrawideband => CodecType::SpeexUltrawideband,
        Codec::CeltMono => CodecType::CeltMono,
        Codec::OpusVoice => CodecType::OpusVoice,
        Codec::OpusMusic => CodecType::OpusMusic,
    };
    OutAudio::new(&AudioData::C2S { id, codec, data }).into_vec()
}

/// The bytes of the packet that carries encoded music.
pub open spec fn music_bytes(data: Seq<u8>) -> Seq<u8> {
    voice_bytes(0, Codec::OpusMusic, data)
}

/// Packs encoded music for the server.
pub fn music_packet(data: &[u8]) -> (r: Vec<u8>)
    ensures
        r@ == music_bytes(data@),
{
    client_voice_packet(0, Codec::OpusMusic, data)
}

/// How long to wait after a packet whose making took `elapsed` nanoseconds: what is left of the
/// packet's time, if anything is.
pub fn pause_after(elapsed: u128) -> (r: Option<u64>)
    ensures
        r == if elapsed < NANOS_PER_PACKET {
            Some((NANOS_PER_PACKET - elapsed) as u64)
        } else {
            None
        },
        r is None <==> elapsed >= 18_000_000,
        r matches Some(nanos) ==> nanos + elapsed == 18_000_000,
{
    if elapsed < NANOS_PER_PACKET as u128 {
        Some(NANOS_PER_PACKET - elapsed as u64)
    } else {
        None
    }
}

/// Every packet of music begins with the same sixteen bytes, and its data can be read back.
pub proof fn law_music_read_back(data: Seq<u8>)
    ensures
        music_bytes(data).len() == 16 + data.len(),
        music_bytes(data).take(16) == music_bytes(Seq::empty()),
        music_bytes(data).skip(16) == data,
{
    let lead = music_bytes(Seq::empty());
    assert(lead + data == music_bytes(data));
    assert(music_bytes(data).take(16) == lead);
    assert(music_bytes(data).skip(16) == data);
}

/// A sample is a number of 16 bits with a sign that agrees with its two bytes, the high one first,
/// but for a multiple of 65536.
pub proof fn law_sample(high: u8, low: u8)
    ensures
        -32768 <= sample_of(high, low) <= 32767,
        (sample_of(high, low) - (256 * high + low)) % 65536 == 0,
        sample_of(high, low) < 0 <==> high >= 128,
{
}

/// Different bytes give different samples.
pub proof fn law_samples_differ(high: u8, low: u8, other_high: u8, other_low: u8)
    requires
        sample_of(high, low) == sample_of(other_high, other_low),
    ensures
        high == other_high,
        low == other_low,
{
}

/// A voice packet is thirteen zeros, the id with the high byte first, the number of the codec, and
/// the data, byte for byte.
pub proof fn law_voice_bytes(id: u16, codec: Codec, data: Seq<u8>)
    ensures
        voice_bytes(id, codec, data).len() == 16 + data.len(),
        forall|i: int| 0 <= i < 13 ==> #[trigger] voice_bytes(id, codec, data)[i] == 0,
        256 * voice_bytes(id, codec, data)[13] + voice_bytes(id, codec, data)[14] == id,
        seq![
            Codec::SpeexNarrowband,
            Codec::SpeexWideband,
            Codec::SpeexUltrawideband,
            Codec::CeltMono,
            Codec::OpusVoice,
            Codec::OpusMusic,
        ][voice_bytes(id, codec, data)[15] as int] == codec,
        voice_bytes(id, codec, data)[15] < 6,
        voice_bytes(id, codec, data).skip(16) == data,
{
    assert(voice_bytes(id, codec, data).skip(16) == data);
}

/// A packet of music is fifteen zeros, a five, and the data, byte for byte.
pub proof fn law_music_bytes(data: Seq<u8>)
    ensures
        music_bytes(data).len() == 16 + data.len(),
        forall|i: int| 0 <= i < 15 ==> #[trigger] music_bytes(data)[i] == 0,
        music_bytes(data)[15] == 5,
        forall|i: int| 0 <= i < data.len() ==> #[trigger] music_bytes(data)[16 + i] == data[i],
{
}

/// Music comes in frames of 637 samples, one packet every eighteen milliseconds, at twenty
/// hundredths of full volume unless another volume is asked for.
pub proof fn law_figures()
    ensures
        FRAME_SAMPLES == 637,
        NANOS_PER_PACKET == 18 * 1_000_000,
        DEFAULT_VOLUME == 20,
        FULL_VOLUME == 100,
{
}

} // verus!
