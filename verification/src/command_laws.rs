//! What holds of chat commands as a whole.
use vstd::prelude::*;

use crate::command::{
    action_of, command_text, is_kept, is_readable, sanitized, unicode_alphanumeric, untagged,
    Action, ActionOf,
};
use crate::text::{
    digits_value, fields, is_blank, is_white_space, law_digits_value, law_fields_characters,
    law_fields_of_joined, law_fields_of_one, law_number_is_read, law_trimmed_between,
    law_trimmed_blank, law_trimmed_part, law_trimmed_text, law_without_pattern, law_without_prefix,
    lemma_fields_count, parsed_u32, trimmed, without,
};

verus! {

/// Sanitizing keeps a text whole that holds nothing but what commands may hold.
pub proof fn law_sanitize_keeps(s: Seq<char>)
    requires
        forall|i: int| 0 <= i < s.len() ==> is_kept(#[trigger] s[i]),
    ensures
        sanitized(s) == s,
    decreases s.len(),
{
    reveal(Seq::filter);
    if s.len() > 0 {
        law_sanitize_keeps(s.drop_last());
        assert(is_kept(s[s.len() - 1]));
        assert(s.drop_last().push(s.last()) == s);
    } else {
        assert(sanitized(s) == s);
    }
}

/// Sanitizing leaves only what commands may hold.
pub proof fn law_sanitize_drops(s: Seq<char>)
    ensures
        forall|i: int| 0 <= i < sanitized(s).len() ==> is_kept(#[trigger] sanitized(s)[i]),
{
    broadcast use vstd::seq_lib::group_filter_ensures;

    let kept = |c: char| is_kept(c);
    assert forall|i: int| 0 <= i < sanitized(s).len() implies is_kept(#[trigger] sanitized(s)[i]) by {
        assert(kept(s.filter(kept)[i]));
    }
}

/// Sanitizing a second time changes nothing.
pub proof fn law_sanitize_settles(s: Seq<char>)
    ensures
        sanitized(sanitized(s)) == sanitized(s),
{
    law_sanitize_drops(s);
    law_sanitize_keeps(sanitized(s));
}

/// A command text holds only what commands may hold.
pub proof fn law_command_text_characters(message: Seq<char>)
    ensures
        forall|i: int|
            0 <= i < command_text(message).len() ==> is_kept(#[trigger] command_text(message)[i]),
{
    let clean = sanitized(untagged(message));
    law_sanitize_drops(untagged(message));
    law_trimmed_part(clean);
    let (from, to) = choose|from: int, to: int|
        0 <= from <= to <= clean.len() && trimmed(clean) == #[trigger] clean.subrange(from, to);
    assert forall|i: int| 0 <= i < command_text(message).len() implies is_kept(
        #[trigger] command_text(message)[i],
    ) by {
        assert(command_text(message)[i] == clean[from + i]);
    }
}

/// A link that a message asks to play holds no space, and only what commands may hold.
pub proof fn law_link_characters(message: Seq<char>)
    requires
        is_readable(command_text(message)),
    ensures
        match action_of(command_text(message)) {
            ActionOf::PlayAudio(link) => forall|i: int|
                0 <= i < link.len() ==> #[trigger] link[i] != ' ' && is_kept(link[i]),
            ActionOf::PlayNukedAudio(link) => forall|i: int|
                0 <= i < link.len() ==> #[trigger] link[i] != ' ' && is_kept(link[i]),
            _ => true,
        },
{
    let text = command_text(message);
    let words = fields(text, ' ');
    law_fields_characters(text, ' ');
    law_command_text_characters(message);
    lemma_fields_count(text, ' ');
    if words.len() >= 2 {
        let link = words[1];
        assert forall|i: int| 0 <= i < link.len() implies #[trigger] link[i] != ' ' && is_kept(
            link[i],
        ) by {
            assert(words[1][i] != ' ');
            let k = choose|k: int| 0 <= k < text.len() && text[k] == words[1][i];
            assert(is_kept(text[k]));
        }
    }
}

/// No message asks for more than full volume.
pub proof fn law_volume_in_range(text: Seq<char>)
    requires
        is_readable(text),
    ensures
        action_of(text) matches ActionOf::ChangeVolume { percent } ==> percent <= 100,
{
}

/// A text that does not begin with an exclamation mark is no command.
pub proof fn law_talk_is_ignored(text: Seq<char>)
    requires
        is_readable(text),
        text[0] != '!',
    ensures
        action_of(text) == ActionOf::<Seq<char>>::Nothing,
{
}

/// A message that holds only what commands may hold, with no white space at its ends, is read
/// as it stands.
pub proof fn law_clean_message_is_read_whole(message: Seq<char>)
    requires
        message.len() > 0,
        forall|i: int| 0 <= i < message.len() ==> is_kept(#[trigger] message[i]),
        !is_white_space(message[0]),
        !is_white_space(message.last()),
    ensures
        command_text(message) == message,
{
    let opening = seq!['[', 'U', 'R', 'L', ']'];
    let closing = seq!['[', '/', 'U', 'R', 'L', ']'];
    assert forall|i: int| 0 <= i < message.len() implies message[i] != '[' by {
        assert(is_kept(message[i]));
    }
    lemma_without_absent(message, opening);
    lemma_without_absent(message, closing);
    law_sanitize_keeps(message);
    law_trimmed_text(message);
}

proof fn lemma_without_absent(s: Seq<char>, pattern: Seq<char>)
    requires
        pattern.len() > 0,
        !s.contains(pattern[0]),
    ensures
        without(s, pattern) == s,
{
    law_without_prefix(s, Seq::empty(), pattern);
    assert(s + Seq::<char>::empty() == s);
    assert(without(Seq::empty(), pattern) == Seq::<char>::empty());
}

/// The tags that a chat client puts around a link make no difference.
pub proof fn law_link_tags_vanish(before: Seq<char>, link: Seq<char>)
    requires
        !before.contains('['),
        !link.contains('['),
    ensures
        command_text(before + "[URL]"@ + link + "[/URL]"@) == command_text(before + link),
{
    reveal_strlit("[URL]");
    reveal_strlit("[/URL]");
    let opening = seq!['[', 'U', 'R', 'L', ']'];
    let closing = seq!['[', '/', 'U', 'R', 'L', ']'];
    assert("[URL]"@ == opening);
    assert("[/URL]"@ == closing);
    let tagged = before + opening + link + closing;
    let plain = before + link;
    assert forall|i: int| 0 <= i < plain.len() implies plain[i] != '[' by {
        if i < before.len() {
            assert(before[i] == plain[i]);
        } else {
            assert(link[i - before.len()] == plain[i]);
        }
    }
    // The opening tag.
    assert(tagged == before + (opening + (link + closing)));
    law_without_prefix(before, opening + (link + closing), opening);
    law_without_pattern(link + closing, opening);
    law_without_prefix(link, closing, opening);
    assert(without(closing, opening) == closing) by {
        let rest = closing.skip(1);
        assert(closing.take(5)[1] == '/');
        assert(opening[1] == 'U');
        assert(rest == seq!['/', 'U', 'R', 'L', ']']);
        lemma_without_absent(rest, opening);
        assert(seq![closing[0]] + rest == closing);
    }
    assert(without(tagged, opening) == plain + closing);
    // The closing tag.
    law_without_prefix(plain, closing + Seq::empty(), closing);
    assert(closing + Seq::<char>::empty() == closing);
    law_without_pattern(Seq::empty(), closing);
    assert(plain + Seq::<char>::empty() == plain);
    lemma_without_absent(plain, opening);
    lemma_without_absent(plain, closing);
}

/// The text of a command word and its argument, with one space between.
pub open spec fn command_with(word: Seq<char>, argument: Seq<char>) -> Seq<char> {
    word.push(' ') + argument
}

/// Whether a text can be the argument of a command: it is one word of what commands may hold.
pub open spec fn is_argument(s: Seq<char>) -> bool {
    s.len() > 0 && forall|i: int|
        0 <= i < s.len() ==> is_kept(#[trigger] s[i]) && !is_white_space(s[i])
}

proof fn lemma_command_with(word: Seq<char>, argument: Seq<char>)
    requires
        is_argument(word),
        is_argument(argument),
    ensures
        command_text(command_with(word, argument)) == command_with(word, argument),
        fields(command_with(word, argument), ' ') == seq![word, argument],
        command_with(word, argument)[0] == word[0],
{
    let message = command_with(word, argument);
    assert forall|i: int| 0 <= i < message.len() implies is_kept(#[trigger] message[i]) by {
        if i < word.len() {
            assert(message[i] == word[i]);
        } else if i > word.len() {
            assert(message[i] == argument[i - word.len() - 1]);
        }
    }
    assert(message.last() == argument[argument.len() - 1]);
    assert(is_white_space(' '));
    assert forall|i: int| 0 <= i < word.len() implies word[i] != ' ' by {
        assert(!is_white_space(word[i]));
    }
    assert forall|i: int| 0 <= i < argument.len() implies argument[i] != ' ' by {
        assert(!is_white_space(argument[i]));
    }
    law_clean_message_is_read_whole(message);
    law_fields_of_joined(word, argument, ' ');
    law_fields_of_one(word, ' ');
    law_fields_of_one(argument, ' ');
    assert(seq![word] + seq![argument] == seq![word, argument]);
}

/// Asking for a link with `!yt` plays that link, letter for letter.
pub proof fn law_play_command(link: Seq<char>)
    requires
        is_argument(link),
    ensures
        is_readable(command_text(command_with("!yt"@, link))),
        action_of(command_text(command_with("!yt"@, link))) == ActionOf::PlayAudio(link),
{
    reveal_strlit("!yt");
    reveal_strlit("!stop");
    reveal_strlit("!volume");
    lemma_command_with("!yt"@, link);
    assert("!yt"@.len() != "!stop"@.len());
    assert("!yt"@.len() != "!volume"@.len());
}

/// Asking for a link with `!brki` plays that link, letter for letter.
pub proof fn law_nuked_command(link: Seq<char>)
    requires
        is_argument(link),
    ensures
        is_readable(command_text(command_with("!brki"@, link))),
        action_of(command_text(command_with("!brki"@, link))) == ActionOf::PlayNukedAudio(link),
{
    reveal_strlit("!brki");
    reveal_strlit("!yt");
    reveal_strlit("!stop");
    reveal_strlit("!volume");
    lemma_command_with("!brki"@, link);
    assert("!brki"@[1] != "!stop"@[1]);
    assert("!brki"@.len() != "!volume"@.len());
    assert("!brki"@.len() != "!yt"@.len());
}

/// Asking for a volume of up to one hundred with `!volume` sets that many hundredths of full volume;
/// asking for any more, up to what 32 bits hold, sets one hundred.
pub proof fn law_volume_command(digits: Seq<char>)
    requires
        digits.len() > 0,
        forall|i: int| 0 <= i < digits.len() ==> 48 <= #[trigger] digits[i] as u32 <= 57,
        digits_value(digits) <= 4294967295,
    ensures
        is_readable(command_text(command_with("!volume"@, digits))),
        action_of(command_text(command_with("!volume"@, digits))) matches ActionOf::ChangeVolume {
            percent,
        } && {
            &&& digits_value(digits) <= 100 ==> percent == digits_value(digits)
            &&& digits_value(digits) >= 101 ==> percent == 100
        },
{
    reveal_strlit("!stop");
    reveal_strlit("!volume");
    assert forall|i: int| 0 <= i < digits.len() implies is_kept(#[trigger] digits[i])
        && !is_white_space(digits[i]) by {
        assert(48 <= digits[i] as u32 <= 57);
    }
    lemma_command_with("!volume"@, digits);
    assert("!volume"@.len() != "!stop"@.len());
    law_number_is_read(digits);
}

/// A volume of two digits is ten times the first, and the second; one of three digits that does not
/// begin with a zero is one hundred.
pub proof fn law_volume_digits(hundreds: char, tens: char, ones: char)
    requires
        48 <= hundreds as u32 <= 57,
        48 <= tens as u32 <= 57,
        48 <= ones as u32 <= 57,
    ensures
        action_of(command_text(command_with("!volume"@, seq![ones]))) == (
            ActionOf::<Seq<char>>::ChangeVolume { percent: (ones as u32 - 48) as u32 }),
        action_of(command_text(command_with("!volume"@, seq![tens, ones]))) == (
            ActionOf::<Seq<char>>::ChangeVolume {
                percent: (10 * (tens as u32 - 48) + (ones as u32 - 48)) as u32,
            }),
        hundreds != '0' ==> action_of(
            command_text(command_with("!volume"@, seq![hundreds, tens, ones])),
        ) == (ActionOf::<Seq<char>>::ChangeVolume { percent: 100 }),
{
    let (one, two, three) = (seq![ones], seq![tens, ones], seq![hundreds, tens, ones]);
    assert(seq![tens].push(ones) == two);
    assert(seq![hundreds].push(tens).push(ones) == three);
    law_digits_value(seq![tens], ones);
    law_digits_value(seq![hundreds], tens);
    law_digits_value(seq![hundreds].push(tens), ones);
    law_digits_value(seq![], tens);
    law_digits_value(seq![], hundreds);
    law_volume_command(one);
    law_volume_command(two);
    law_volume_command(three);
}

/// `!stop` stops, whatever follows it after a space.
pub proof fn law_stop_command(rest: Seq<char>)
    ensures
        action_of("!stop"@) == ActionOf::<Seq<char>>::Stop,
        action_of(command_with("!stop"@, rest)) == ActionOf::<Seq<char>>::Stop,
{
    reveal_strlit("!stop");
    law_fields_of_one("!stop"@, ' ');
    law_fields_of_joined("!stop"@, rest, ' ');
    lemma_fields_count(rest, ' ');
    assert((seq!["!stop"@] + fields(rest, ' '))[0] == "!stop"@);
}

/// The characters that commands may hold are, within ASCII, the letters, the digits and eleven
/// others; beyond ASCII, what Unicode counts as alphabetic or numeric.
pub proof fn law_kept_characters(c: char)
    ensures
        (c as u32) < 128 ==> (is_kept(c) <==> {
            ||| 97 <= c as u32 <= 122
            ||| 65 <= c as u32 <= 90
            ||| 48 <= c as u32 <= 57
            ||| seq![' ', '.', '=', '\t', ',', '?', '!', ':', '&', '/', '_'].contains(c)
        }),
        c as u32 >= 128 ==> (is_kept(c) <==> unicode_alphanumeric(c)),
{
    let marks = seq![' ', '.', '=', '\t', ',', '?', '!', ':', '&', '/', '_'];
    assert(marks[0] == ' ' && marks[1] == '.' && marks[2] == '=' && marks[3] == '\t' && marks[4]
        == ',' && marks[5] == '?' && marks[6] == '!' && marks[7] == ':' && marks[8] == '&'
        && marks[9] == '/' && marks[10] == '_');
}

/// Sanitizing goes character by character: each stays or goes by itself, and the order stays.
pub proof fn law_sanitize_joined(a: Seq<char>, b: Seq<char>)
    ensures
        sanitized(a + b) == sanitized(a) + sanitized(b),
{
    Seq::filter_distributes_over_add(a, b, |c: char| is_kept(c));
}

/// A single character stays exactly where commands may hold it.
pub proof fn law_sanitize_one(c: char)
    ensures
        is_kept(c) ==> sanitized(seq![c]) == seq![c],
        !is_kept(c) ==> sanitized(seq![c]) == Seq::<char>::empty(),
        sanitized(Seq::empty()) == Seq::<char>::empty(),
{
    reveal_with_fuel(Seq::filter, 2);
    assert(seq![c].last() == c);
    assert(seq![c].drop_last() == Seq::<char>::empty());
    assert(Seq::<char>::empty().push(c) == seq![c]);
}

/// The tags that are taken out of a message are first all of `[URL]`, then all of `[/URL]`.
pub proof fn law_untagged(message: Seq<char>)
    ensures
        untagged(message) == without(without(message, "[URL]"@), "[/URL]"@),
        !message.contains('[') ==> untagged(message) == message,
{
    reveal_strlit("[URL]");
    reveal_strlit("[/URL]");
    assert("[URL]"@ == seq!['[', 'U', 'R', 'L', ']']);
    assert("[/URL]"@ == seq!['[', '/', 'U', 'R', 'L', ']']);
    if !message.contains('[') {
        lemma_without_absent(message, "[URL]"@);
        lemma_without_absent(message, "[/URL]"@);
    }
}

/// The text that a message is read by is what lies between the white space at the ends of the
/// sanitized message without its tags, all of it.
pub proof fn law_command_text_between(
    message: Seq<char>,
    before: Seq<char>,
    text: Seq<char>,
    after: Seq<char>,
)
    requires
        sanitized(untagged(message)) == before + text + after,
        is_blank(before),
        is_blank(after),
        text.len() > 0 ==> !is_white_space(text[0]) && !is_white_space(text.last()),
    ensures
        command_text(message) == text,
{
    let s = before + text + after;
    if text.len() > 0 {
        law_trimmed_between(before, text, after);
    } else {
        assert forall|i: int| 0 <= i < s.len() implies is_white_space(#[trigger] s[i]) by {
            if i < before.len() {
                assert(s[i] == before[i]);
            } else {
                assert(s[i] == after[i - before.len()]);
            }
        }
        law_trimmed_blank(s);
        assert(command_text(message) == text);
    }
}

/// A text can be read exactly where it begins with an ASCII character, whatever follows.
pub proof fn law_readable(c: char, rest: Seq<char>)
    ensures
        is_readable(seq![c] + rest) <==> (c as u32) < 128,
        !is_readable(Seq::empty()),
{
}

/// The first two words of a text.
proof fn lemma_first_words(word: Seq<char>, argument: Seq<char>, rest: Seq<char>)
    requires
        !word.contains(' '),
        !argument.contains(' '),
    ensures
        fields(word, ' ') == seq![word],
        fields(command_with(word, argument), ' ') == seq![word, argument],
        fields(command_with(word, command_with(argument, rest)), ' ').len() >= 2,
        fields(command_with(word, command_with(argument, rest)), ' ')[0] == word,
        fields(command_with(word, command_with(argument, rest)), ' ')[1] == argument,
{
    law_fields_of_one(word, ' ');
    law_fields_of_one(argument, ' ');
    law_fields_of_joined(word, argument, ' ');
    law_fields_of_joined(argument, rest, ' ');
    law_fields_of_joined(word, command_with(argument, rest), ' ');
    lemma_fields_count(rest, ' ');
    assert(seq![word] + seq![argument] == seq![word, argument]);
}

/// The word behind `!yt` or `!brki` is the link to play, whatever it holds and whatever follows it
/// after a space.
pub proof fn law_link_is_the_second_word(link: Seq<char>, rest: Seq<char>)
    requires
        !link.contains(' '),
    ensures
        action_of(command_with("!yt"@, link)) == ActionOf::PlayAudio(link),
        action_of(command_with("!yt"@, command_with(link, rest))) == ActionOf::PlayAudio(link),
        action_of(command_with("!brki"@, link)) == ActionOf::PlayNukedAudio(link),
        action_of(command_with("!brki"@, command_with(link, rest))) == ActionOf::PlayNukedAudio(
            link,
        ),
{
    lemma_command_words();
    lemma_first_words("!yt"@, link, rest);
    lemma_first_words("!brki"@, link, rest);
}

/// The word behind `!volume` is the volume, whatever follows it after a space: up to one hundred as
/// it is written, one hundred for more, and nothing where it is no number of 32 bits.
pub proof fn law_volume_is_the_second_word(number: Seq<char>, rest: Seq<char>)
    requires
        !number.contains(' '),
    ensures
        action_of(command_with("!volume"@, command_with(number, rest))) == action_of(
            command_with("!volume"@, number),
        ),
        match parsed_u32(number) {
            None => action_of(command_with("!volume"@, number)) is Nothing,
            Some(n) => action_of(command_with("!volume"@, number)) matches ActionOf::ChangeVolume {
                percent,
            } && (n <= 100 ==> percent == n) && (n > 100 ==> percent == 100),
        },
{
    lemma_command_words();
    lemma_first_words("!volume"@, number, rest);
}

/// A word that is none of the four commands asks for nothing, with or without more behind it; nor
/// does a command that lacks its argument.
pub proof fn law_other_words_ask_for_nothing(word: Seq<char>, rest: Seq<char>)
    requires
        word.len() > 0,
        !word.contains(' '),
        word != "!stop"@,
    ensures
        action_of(word) is Nothing,
        word != "!volume"@ && word != "!yt"@ && word != "!brki"@ ==> action_of(
            command_with(word, rest),
        ) is Nothing,
{
    law_fields_of_one(word, ' ');
    law_fields_of_joined(word, rest, ' ');
    lemma_fields_count(rest, ' ');
    assert((seq![word] + fields(rest, ' '))[0] == word);
}

/// The command words begin with an exclamation mark, hold no space, and differ.
proof fn lemma_command_words()
    ensures
        "!yt"@[0] == '!' && !"!yt"@.contains(' ') && "!yt"@.len() == 3,
        "!brki"@[0] == '!' && !"!brki"@.contains(' ') && "!brki"@.len() == 5,
        "!volume"@[0] == '!' && !"!volume"@.contains(' ') && "!volume"@.len() == 7,
        "!stop"@.len() == 5 && "!stop"@ != "!brki"@,
{
    reveal_strlit("!yt");
    reveal_strlit("!brki");
    reveal_strlit("!volume");
    reveal_strlit("!stop");
    assert("!stop"@[1] != "!brki"@[1]);
}

/// What an action is, and the link and the volume it holds, are kept in its mathematical form.
pub proof fn law_action_form(action: Action)
    ensures
        match action {
            ActionOf::PlayAudio(link) => action@ == ActionOf::PlayAudio(link@),
            ActionOf::PlayNukedAudio(link) => action@ == ActionOf::PlayNukedAudio(link@),
            ActionOf::Stop => action@ is Stop,
            ActionOf::ChangeVolume { percent } => action@ == (ActionOf::<
                Seq<char>,
            >::ChangeVolume { percent }),
            ActionOf::Nothing => action@ is Nothing,
        },
{
}

} // verus!
