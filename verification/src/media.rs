//! The programs that find and decode audio, and what is read from their output.
use vstd::prelude::*;
use vstd::utf8::{decode_utf8, valid_utf8};

use crate::text::{
    chars_of, fields, is_blank, is_white_space, law_fields_characters, law_fields_of_joined,
    law_fields_of_one, law_trimmed_between, law_trimmed_blank, law_trimmed_ends,
    lemma_fields_count, split, string_of, trim, trimmed, views,
};

verus! {

/// A program and its arguments.
#[derive(Debug, PartialEq, Eq)]
pub struct CommandLine {
    pub program: String,
    pub args: Vec<String>,
}

/// The views of some texts.
pub open spec fn texts(strings: Seq<String>) -> Seq<Seq<char>> {
    strings.map_values(|s: String| s@)
}

/// The arguments with which the extractor prints the audio URLs of a link.
pub open spec fn extractor_args(link: Seq<char>) -> Seq<Seq<char>> {
    seq![link, "--extract-audio"@, "--get-url"@]
}

/// The arguments with which the decoder writes the audio of a URL to its standard output, as
/// signed big-endian samples of 16 bits, 48000 a second.
pub open spec fn decoder_args(url: Seq<char>) -> Seq<Seq<char>> {
    seq![
        "-loglevel"@,
        "quiet"@,
        "-i"@,
        url,
        "-af"@,
        "aresample=48000"@,
        "-f"@,
        "s16be"@,
        "pipe:1"@,
    ]
}

/// The command that prints the audio URLs of a link.
pub fn extractor_command(link: &str) -> (r: CommandLine)
    ensures
        r.program@ == "yt-dlp"@,
        texts(r.args@) == extractor_args(link@),
{
    let args: Vec<String> = vec![
        link.to_string(),
        "--extract-audio".to_string(),
        "--get-url".to_string(),
    ];
    assert(texts(args@) == extractor_args(link@));
    CommandLine { program: "yt-dlp".to_string(), args }
}

/// The command that decodes the audio of a URL.
pub fn decoder_command(url: &str) -> (r: CommandLine)
    ensures
        r.program@ == "ffmpeg"@,
        texts(r.args@) == decoder_args(url@),
{
    let args: Vec<String> = vec![
        "-loglevel".to_string(),
        "quiet".to_string(),
        "-i".to_string(),
        url.to_string(),
        "-af".to_string(),
        "aresample=48000".to_string(),
        "-f".to_string(),
        "s16be".to_string(),
        "pipe:1".to_string(),
    ];
    assert(texts(args@) == decoder_args(url@));
    CommandLine { program: "ffmpeg".to_string(), args }
}

/// The error of `String::from_utf8`.
#[verifier::external_type_specification]
#[verifier::external_body]
pub struct ExFromUtf8Error(std::string::FromUtf8Error);

/// The complaint about bytes that are not UTF-8.
pub uninterp spec fn utf8_complaint(bytes: Seq<u8>) -> std::string::FromUtf8Error;

/// `String::from_utf8` gives the text that the bytes encode where they are valid UTF-8, and an
/// error that describes the bytes where they are not.
pub assume_specification[ String::from_utf8 ](bytes: Vec<u8>) -> (r: Result<
    String,
    std::string::FromUtf8Error,
>)
    ensures
        r is Ok <==> valid_utf8(bytes@),
        r matches Ok(s) ==> s@ == decode_utf8(bytes@),
        r matches Err(why) ==> why == utf8_complaint(bytes@),
;

/// Why no audio URL could be read.
#[derive(Debug)]
pub enum AudioUrlError {
    /// The extractor could not be run.
    Launch(String),
    /// The extractor's output is no text.
    NotText(std::string::FromUtf8Error),
}

/// What an error of `String::from_utf8` says of itself.
pub uninterp spec fn complaint_text(why: std::string::FromUtf8Error) -> Seq<char>;

/// The `Display` text of `std::string::FromUtf8Error`: it goes by the error alone.
#[verifier::external_body]
fn describe_complaint(why: &std::string::FromUtf8Error) -> (r: String)
    ensures
        r@ == complaint_text(*why),
{
    format!("{}", why)
}

impl AudioUrlError {
    /// What the bot says where it could not read an audio URL.
    pub fn message(&self) -> (r: String)
        ensures
            r@ == match *self {
                AudioUrlError::Launch(why) => "Failed to execute yt-dlp: "@ + why@,
                AudioUrlError::NotText(why) => "Empty yt-dlp command output: "@ + complaint_text(
                    why,
                ),
            },
    {
        match self {
            AudioUrlError::Launch(why) => {
                let mut message = "Failed to execute yt-dlp: ".to_string();
                message.append(why.as_str());
                message
            },
            AudioUrlError::NotText(why) => {
                let mut message = "Empty yt-dlp command output: ".to_string();
                message.append(describe_complaint(why).as_str());
                message
            },
        }
    }
}

/// The audio URL in the extractor's output: the first line of its trimmed text.
pub open spec fn url_in(output: Seq<char>) -> Seq<char> {
    fields(trimmed(output), '\n')[0]
}

/// The audio URL in the text that the extractor printed.
pub fn first_url(output: &str) -> (r: String)
    ensures
        r@ == url_in(output@),
{
    let trimmed_urls = trim(&chars_of(output));
    let lines = split(&trimmed_urls, '\n');
    proof {
        lemma_fields_count(trimmed_urls@, '\n');
    }
    assert(views(lines@)[0] == lines@[0]@);
    string_of(&lines[0])
}

/// The audio URL that the extractor printed: its output is what the program wrote, or why the
/// program could not be run.
pub fn get_audio_url(output: Result<Vec<u8>, String>) -> (r: Result<String, AudioUrlError>)
    ensures
        match output {
            Err(why) => r == Err::<String, AudioUrlError>(AudioUrlError::Launch(why)),
            Ok(bytes) => if valid_utf8(bytes@) {
                r matches Ok(url) && url@ == url_in(decode_utf8(bytes@))
            } else {
                r == Err::<String, AudioUrlError>(AudioUrlError::NotText(utf8_complaint(bytes@)))
            },
        },
{
    let bytes = match output {
        Err(why) => return Err(AudioUrlError::Launch(why)),
        Ok(bytes) => bytes,
    };
    match String::from_utf8(bytes) {
        Ok(urls) => Ok(first_url(urls.as_str())),
        Err(why) => Err(AudioUrlError::NotText(why)),
    }
}

/// An audio URL is a single line.
pub proof fn law_url_is_one_line(output: Seq<char>)
    ensures
        !url_in(output).contains('\n'),
{
    let lines = fields(trimmed(output), '\n');
    law_fields_characters(trimmed(output), '\n');
    lemma_fields_count(trimmed(output), '\n');
    assert forall|j: int| 0 <= j < lines[0].len() implies lines[0][j] != '\n' by {
        assert(lines[0][j] != '\n');
    }
}

/// Output of one line gives that line, without white space at its ends.
pub proof fn law_single_line_output(output: Seq<char>)
    requires
        !trimmed(output).contains('\n'),
    ensures
        url_in(output) == trimmed(output),
{
    law_fields_of_one(trimmed(output), '\n');
}

/// The audio URL is empty exactly where the output holds nothing but white space.
pub proof fn law_empty_url(output: Seq<char>)
    ensures
        url_in(output).len() == 0 <==> forall|i: int|
            0 <= i < output.len() ==> is_white_space(#[trigger] output[i]),
{
    let s = trimmed(output);
    law_trimmed_blank(output);
    law_trimmed_ends(output);
    lemma_first_field(s, '\n');
    assert(is_white_space('\n'));
    if s.len() > 0 {
        assert(s[0] != '\n');
    }
}

/// The first piece of a text is empty only where the text is, or begins with the separator.
proof fn lemma_first_field(s: Seq<char>, separator: char)
    ensures
        fields(s, separator).len() >= 1,
        s.len() > 0 && s[0] == separator ==> fields(s, separator).len() >= 2,
        fields(s, separator)[0].len() == 0 <==> (s.len() == 0 || s[0] == separator),
    decreases s.len(),
{
    if s.len() > 0 {
        lemma_first_field(s.drop_last(), separator);
        if s.len() == 1 {
            assert(s.drop_last() == Seq::<char>::empty());
        }
    }
}

/// Of output of more than one line the first is the audio URL, as it stands, but for white space
/// before it; white space before and behind the output makes no difference.
pub proof fn law_first_line(
    before: Seq<char>,
    line: Seq<char>,
    rest: Seq<char>,
    after: Seq<char>,
)
    requires
        is_blank(before),
        is_blank(after),
        line.len() > 0,
        !is_white_space(line[0]),
        !line.contains('\n'),
        rest.len() > 0,
        !is_white_space(rest.last()),
    ensures
        url_in(before + (line.push('\n') + rest) + after) == line,
{
    let lines = line.push('\n') + rest;
    assert(lines[0] == line[0]);
    assert(lines.last() == rest.last());
    law_trimmed_between(before, lines, after);
    law_fields_of_joined(line, rest, '\n');
    law_fields_of_one(line, '\n');
    assert((seq![line] + fields(rest, '\n'))[0] == line);
}

/// Output of one line, with any white space before and behind it, gives that line.
pub proof fn law_only_line(before: Seq<char>, line: Seq<char>, after: Seq<char>)
    requires
        is_blank(before),
        is_blank(after),
        line.len() > 0,
        !is_white_space(line[0]),
        !is_white_space(line.last()),
        !line.contains('\n'),
    ensures
        url_in(before + line + after) == line,
{
    law_trimmed_between(before, line, after);
    law_fields_of_one(line, '\n');
}

/// The extractor is asked for the URLs of the link, as it stands.
pub proof fn law_extractor_args(link: Seq<char>)
    ensures
        extractor_args(link).len() == 3,
        extractor_args(link)[0] == link,
        extractor_args(link)[1] == "--extract-audio"@,
        extractor_args(link)[2] == "--get-url"@,
{
}

/// The decoder reads the URL, as it stands, and writes samples of 16 bits, 48000 a second, high
/// byte first, to its standard output; nothing but the URL depends on the URL.
pub proof fn law_decoder_args(url: Seq<char>, other: Seq<char>)
    ensures
        decoder_args(url).len() == 9,
        decoder_args(url)[2] == "-i"@ && decoder_args(url)[3] == url,
        decoder_args(url)[4] == "-af"@ && decoder_args(url)[5] == "aresample=48000"@,
        decoder_args(url)[6] == "-f"@ && decoder_args(url)[7] == "s16be"@,
        decoder_args(url)[0] == "-loglevel"@ && decoder_args(url)[1] == "quiet"@,
        decoder_args(url).last() == "pipe:1"@,
        decoder_args(url) == decoder_args(other).update(3, url),
{
    assert(decoder_args(url) == decoder_args(other).update(3, url));
}

/// The views of texts are those of each, in their order.
pub proof fn law_texts(strings: Seq<String>)
    ensures
        texts(strings).len() == strings.len(),
        forall|i: int| 0 <= i < strings.len() ==> #[trigger] texts(strings)[i] == strings[i]@,
{
}

} // verus!
