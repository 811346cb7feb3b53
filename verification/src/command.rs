//! Chat commands: what a message asks the bot to do.
use vstd::prelude::*;

use crate::text::{
    chars_of, fields, lemma_fields_count, parse_u32, parsed_u32, remove_all, same_text, split,
    string_of, trim, trimmed, views, without,
};

verus! {

/// What a chat message asks for; `S` is how links are held.
#[derive(Debug, PartialEq, Eq)]
pub enum ActionOf<S> {
    /// Play the audio behind a link.
    PlayAudio(S),
    /// Play the audio behind a link, asked for with the `!brki` command.
    PlayNukedAudio(S),
    /// Stop what is playing.
    Stop,
    /// Play at this many hundredths of full volume.
    ChangeVolume { percent: u32 },
    /// Nothing that the bot does.
    Nothing,
}

/// What a chat message asks for.
pub type Action = ActionOf<String>;

impl View for ActionOf<String> {
    type V = ActionOf<Seq<char>>;

    open spec fn view(&self) -> ActionOf<Seq<char>> {
        match *self {
            ActionOf::PlayAudio(link) => ActionOf::PlayAudio(link@),
            ActionOf::PlayNukedAudio(link) => ActionOf::PlayNukedAudio(link@),
            ActionOf::Stop => ActionOf::Stop,
            ActionOf::ChangeVolume { percent } => ActionOf::ChangeVolume { percent },
            ActionOf::Nothing => ActionOf::Nothing,
        }
    }
}

/// Whether `c` is one of `a` to `z`, `A` to `Z`, `0` to `9`.
pub open spec fn is_ascii_alphanumeric(c: char) -> bool {
    let n = c as u32;
    ||| 'a' as u32 <= n <= 'z' as u32
    ||| 'A' as u32 <= n <= 'Z' as u32
    ||| '0' as u32 <= n <= '9' as u32
}

/// Whether Unicode counts a character beyond ASCII as alphabetic or numeric.
pub uninterp spec fn unicode_alphanumeric(c: char) -> bool;

/// `char::is_alphanumeric` goes by the Unicode properties of the character: within ASCII the
/// letters and the digits have them, beyond ASCII the Unicode tables decide.
pub assume_specification[ char::is_alphanumeric ](c: char) -> (r: bool)
    ensures
        c as u32 >= 128 ==> r == unicode_alphanumeric(c),
        (c as u32) < 128 ==> r == is_ascii_alphanumeric(c),
;

/// The characters besides letters and digits that a command may hold.
pub open spec fn is_kept_mark(c: char) -> bool {
    c == ' ' || c == '.' || c == '=' || c == '\t' || c == ',' || c == '?' || c == '!' || c == ':'
        || c == '&' || c == '/' || c == '_'
}

/// The characters that a command may hold.
pub open spec fn is_kept(c: char) -> bool {
    ||| is_kept_mark(c)
    ||| (c as u32) < 128 && is_ascii_alphanumeric(c)
    ||| c as u32 >= 128 && unicode_alphanumeric(c)
}

/// `s` without the characters that no command may hold.
pub open spec fn sanitized(s: Seq<char>) -> Seq<char> {
    s.filter(|c: char| is_kept(c))
}

/// A message without the tags that a chat client puts around links.
pub open spec fn untagged(message: Seq<char>) -> Seq<char> {
    without(
        without(message, seq!['[', 'U', 'R', 'L', ']']),
        seq!['[', '/', 'U', 'R', 'L', ']'],
    )
}

/// The text that a message is read by.
pub open spec fn command_text(message: Seq<char>) -> Seq<char> {
    trimmed(sanitized(untagged(message)))
}

/// Whether a command text can be read: it has a first character, and that one is ASCII.
pub open spec fn is_readable(text: Seq<char>) -> bool {
    text.len() > 0 && (text[0] as u32) < 128
}

/// The smaller of `n` and one hundred.
pub open spec fn capped(n: u32) -> u32 {
    if n <= 100 {
        n
    } else {
        100
    }
}

/// What a command text asks for.
pub open spec fn action_of(text: Seq<char>) -> ActionOf<Seq<char>> {
    let words = fields(text, ' ');
    if text[0] != '!' {
        ActionOf::Nothing
    } else if words[0] == "!stop"@ {
        ActionOf::Stop
    } else if words.len() < 2 {
        ActionOf::Nothing
    } else if words[0] == "!volume"@ {
        match parsed_u32(words[1]) {
            Some(number) => ActionOf::ChangeVolume { percent: capped(number) },
            None => ActionOf::Nothing,
        }
    } else if words[0] == "!yt"@ {
        ActionOf::PlayAudio(words[1])
    } else if words[0] == "!brki"@ {
        ActionOf::PlayNukedAudio(words[1])
    } else {
        ActionOf::Nothing
    }
}

/// Whether a command may hold `c`.
fn keeps(c: char) -> (r: bool)
    ensures
        r == is_kept(c),
{
    c.is_alphanumeric() || c == ' ' || c == '.' || c == '=' || c == '\t' || c == ',' || c == '?'
        || c == '!' || c == ':' || c == '&' || c == '/' || c == '_'
}

/// Drops the characters that no command may hold.
fn sanitize_chars(chars: &Vec<char>) -> (r: Vec<char>)
    ensures
        r@ == sanitized(chars@),
{
    let mut out: Vec<char> = Vec::new();
    for i in 0..chars.len()
        invariant
            out@ == sanitized(chars@.take(i as int)),
    {
        assert(chars@.take(i + 1).drop_last() == chars@.take(i as int));
        reveal(Seq::filter);
        if keeps(chars[i]) {
            out.push(chars[i]);
        }
    }
    assert(chars@.take(chars@.len() as int) == chars@);
    out
}

/// Drops the characters that no command may hold.
pub fn sanitize(s: &str) -> (r: String)
    ensures
        r@ == sanitized(s@),
{
    string_of(&sanitize_chars(&chars_of(s)))
}

/// The text that a message is read by: without link tags, sanitized and trimmed.
fn command_chars(message: &str) -> (r: Vec<char>)
    ensures
        r@ == command_text(message@),
{
    let opening: Vec<char> = vec!['[', 'U', 'R', 'L', ']'];
    let closing: Vec<char> = vec!['[', '/', 'U', 'R', 'L', ']'];
    assert(opening@ == seq!['[', 'U', 'R', 'L', ']']);
    assert(closing@ == seq!['[', '/', 'U', 'R', 'L', ']']);
    let stripped = remove_all(&remove_all(&chars_of(message), &opening), &closing);
    trim(&sanitize_chars(&stripped))
}

/// What a command text asks for.
fn read_action(text: &Vec<char>) -> (r: Action)
    requires
        is_readable(text@),
    ensures
        r@ == action_of(text@),
{
    if text[0] != '!' {
        return ActionOf::Nothing;
    }
    let words = split(text, ' ');
    assert(views(words@) == fields(text@, ' '));
    proof {
        lemma_fields_count(text@, ' ');
    }
    assert(views(words@)[0] == words@[0]@);
    if same_text(&words[0], "!stop") {
        return ActionOf::Stop;
    }
    if words.len() < 2 {
        return ActionOf::Nothing;
    }
    assert(views(words@)[1] == words@[1]@);
    if same_text(&words[0], "!volume") {
        return match parse_u32(&words[1]) {
            None => ActionOf::Nothing,
            Some(number) => ActionOf::ChangeVolume {
                percent: if number <= 100 {
                    number
                } else {
                    100
                },
            },
        };
    }
    if same_text(&words[0], "!yt") {
        return ActionOf::PlayAudio(string_of(&words[1]));
    }
    if same_text(&words[0], "!brki") {
        return ActionOf::PlayNukedAudio(string_of(&words[1]));
    }
    ActionOf::Nothing
}

/// What a text that is already cleaned up asks for.
pub fn parse_text(text: &str) -> (r: Action)
    requires
        is_readable(text@),
    ensures
        r@ == action_of(text@),
{
    read_action(&chars_of(text))
}

/// What a chat message asks for. The message must leave a text whose first character is ASCII.
pub fn parse_command(message: &str) -> (r: Action)
    requires
        is_readable(command_text(message@)),
    ensures
        r@ == action_of(command_text(message@)),
{
    read_action(&command_chars(message))
}

/// What a chat message asks for, where it leaves a text that can be read.
pub fn try_parse_command(message: &str) -> (r: Option<Action>)
    ensures
        r is Some <==> is_readable(command_text(message@)),
        r matches Some(action) ==> action@ == action_of(command_text(message@)),
{
    let text = command_chars(message);
    if text.len() == 0 || text[0] as u32 >= 128 {
        return None;
    }
    Some(parse_command(message))
}

} // verus!
