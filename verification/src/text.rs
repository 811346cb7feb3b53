//! Text as sequences of characters: trimming, splitting, tag removal, numbers.
use vstd::prelude::*;

verus! {

/// `String::push` appends one character at the end.
pub assume_specification[ String::push ](s: &mut String, c: char)
    ensures
        final(s)@ == old(s)@.push(c),
;

/// The characters that carry the Unicode property `White_Space`.
pub open spec fn is_white_space(c: char) -> bool {
    let n = c as u32;
    ||| 0x09 <= n <= 0x0d
    ||| n == 0x20
    ||| n == 0x85
    ||| n == 0xa0
    ||| n == 0x1680
    ||| 0x2000 <= n <= 0x200a
    ||| n == 0x2028
    ||| n == 0x2029
    ||| n == 0x202f
    ||| n == 0x205f
    ||| n == 0x3000
}

/// `s` without the white space it begins with.
pub open spec fn trim_start(s: Seq<char>) -> Seq<char>
    decreases s.len(),
{
    if s.len() > 0 && is_white_space(s[0]) {
        trim_start(s.skip(1))
    } else {
        s
    }
}

/// `s` without the white space it ends with.
pub open spec fn trim_end(s: Seq<char>) -> Seq<char>
    decreases s.len(),
{
    if s.len() > 0 && is_white_space(s.last()) {
        trim_end(s.drop_last())
    } else {
        s
    }
}

/// `s` without white space at either end.
pub open spec fn trimmed(s: Seq<char>) -> Seq<char> {
    trim_end(trim_start(s))
}

/// `s` with every occurrence of `pattern` taken out, found from left to right without overlap.
pub open spec fn without(s: Seq<char>, pattern: Seq<char>) -> Seq<char>
    decreases s.len(),
{
    if pattern.len() == 0 || s.len() < pattern.len() {
        s
    } else if s.take(pattern.len() as int) == pattern {
        without(s.skip(pattern.len() as int), pattern)
    } else {
        seq![s[0]] + without(s.skip(1), pattern)
    }
}

/// The pieces of `s` between the separators; as many as there are separators, and one more.
pub open spec fn fields(s: Seq<char>, separator: char) -> Seq<Seq<char>>
    decreases s.len(),
{
    if s.len() == 0 {
        seq![Seq::<char>::empty()]
    } else {
        let init = fields(s.drop_last(), separator);
        if s.last() == separator {
            init.push(Seq::empty())
        } else {
            init.drop_last().push(init.last().push(s.last()))
        }
    }
}

/// Whether `c` is one of `0` to `9`.
pub open spec fn is_digit(c: char) -> bool {
    '0' as u32 <= c as u32 <= '9' as u32
}

/// The number that a row of decimal digits stands for.
pub open spec fn digits_value(digits: Seq<char>) -> nat
    decreases digits.len(),
{
    if digits.len() == 0 {
        0
    } else {
        digits_value(digits.drop_last()) * 10 + (digits.last() as u32 - '0' as u32) as nat
    }
}

/// The digits of a number text: all of it but for one leading plus sign.
pub open spec fn unsigned_part(s: Seq<char>) -> Seq<char> {
    if s.len() > 0 && s[0] == '+' {
        s.skip(1)
    } else {
        s
    }
}

/// The number that `s` writes in decimal, where it is one and fits into 32 bits.
pub open spec fn parsed_u32(s: Seq<char>) -> Option<u32> {
    let digits = unsigned_part(s);
    if digits.len() > 0 && (forall|i: int| 0 <= i < digits.len() ==> is_digit(#[trigger] digits[i]))
        && digits_value(digits) <= u32::MAX {
        Some(digits_value(digits) as u32)
    } else {
        None
    }
}

/// The views of the pieces of a split text.
pub open spec fn views(parts: Seq<Vec<char>>) -> Seq<Seq<char>> {
    parts.map_values(|part: Vec<char>| part@)
}

/// Whether `c` is white space.
pub fn white_space(c: char) -> (r: bool)
    ensures
        r == is_white_space(c),
{
    let n: u32 = c as u32;
    (0x09 <= n && n <= 0x0d) || n == 0x20 || n == 0x85 || n == 0xa0 || n == 0x1680 || (0x2000 <= n
        && n <= 0x200a) || n == 0x2028 || n == 0x2029 || n == 0x202f || n == 0x205f || n == 0x3000
}

/// The characters of a text.
pub fn chars_of(s: &str) -> (r: Vec<char>)
    ensures
        r@ == s@,
{
    let mut out: Vec<char> = Vec::new();
    for c in it: s.chars()
        invariant
            it.seq() == s@,
            out@ == s@.take(it.index() as int),
    {
        out.push(c);
    }
    assert(s@.take(s@.len() as int) == s@);
    out
}

/// The text that a row of characters makes.
pub fn string_of(chars: &Vec<char>) -> (r: String)
    ensures
        r@ == chars@,
{
    let mut out = String::new();
    for i in 0..chars.len()
        invariant
            out@ == chars@.take(i as int),
    {
        out.push(chars[i]);
    }
    assert(chars@.take(chars@.len() as int) == chars@);
    out
}

/// The characters from index `from` up to, but not with, index `to`.
pub fn sub_range(chars: &Vec<char>, from: usize, to: usize) -> (r: Vec<char>)
    requires
        from <= to <= chars@.len(),
    ensures
        r@ == chars@.subrange(from as int, to as int),
{
    let mut out: Vec<char> = Vec::new();
    for i in from..to
        invariant
            from <= to <= chars@.len(),
            out@ == chars@.subrange(from as int, i as int),
    {
        out.push(chars[i]);
    }
    out
}

/// Whether the characters are those of `s`.
pub fn same_text(chars: &Vec<char>, s: &str) -> (r: bool)
    ensures
        r == (chars@ == s@),
{
    let other = chars_of(s);
    if chars.len() != other.len() {
        return false;
    }
    for i in 0..chars.len()
        invariant
            chars@.len() == other@.len(),
            other@ == s@,
            chars@.take(i as int) == other@.take(i as int),
    {
        if chars[i] != other[i] {
            assert(chars@[i as int] != s@[i as int]);
            return false;
        }
        assert(chars@.take(i + 1) == chars@.take(i as int).push(chars@[i as int]));
        assert(other@.take(i + 1) == other@.take(i as int).push(other@[i as int]));
    }
    assert(chars@.take(chars@.len() as int) == chars@);
    assert(other@.take(chars@.len() as int) == other@);
    true
}

/// Takes the white space off both ends.
pub fn trim(chars: &Vec<char>) -> (r: Vec<char>)
    ensures
        r@ == trimmed(chars@),
{
    let n: usize = chars.len();
    let mut from: usize = 0;
    assert(chars@.skip(0) == chars@);
    while from < n && white_space(chars[from])
        invariant
            from <= n == chars@.len(),
            trim_start(chars@) == trim_start(chars@.skip(from as int)),
        decreases n - from,
    {
        assert(chars@.skip(from as int).skip(1) == chars@.skip(from + 1));
        from = from + 1;
    }
    let mut to: usize = n;
    assert(chars@.subrange(from as int, n as int) == chars@.skip(from as int));
    while from < to && white_space(chars[to - 1])
        invariant
            from <= to <= n == chars@.len(),
            trimmed(chars@) == trim_end(chars@.subrange(from as int, to as int)),
        decreases to,
    {
        assert(chars@.subrange(from as int, to as int).drop_last() == chars@.subrange(
            from as int,
            to - 1,
        ));
        to = to - 1;
    }
    sub_range(chars, from, to)
}

/// Takes every occurrence of `pattern` out.
pub fn remove_all(chars: &Vec<char>, pattern: &Vec<char>) -> (r: Vec<char>)
    ensures
        r@ == without(chars@, pattern@),
{
    let n: usize = chars.len();
    let m: usize = pattern.len();
    if m == 0 {
        let all = sub_range(chars, 0, n);
        assert(all@ == chars@);
        return all;
    }
    let mut out: Vec<char> = Vec::new();
    let mut i: usize = 0;
    assert(chars@.skip(0) == chars@);
    while i < n
        invariant
            i <= n == chars@.len(),
            m == pattern@.len() > 0,
            without(chars@, pattern@) == out@ + without(chars@.skip(i as int), pattern@),
        decreases n - i,
    {
        let ghost rest = chars@.skip(i as int);
        if m <= n - i && starts_at(chars, i, pattern) {
            assert(rest.skip(m as int) == chars@.skip(i + m));
            i = i + m;
        } else {
            assert(rest.len() < pattern@.len() ==> without(rest.skip(1), pattern@) == rest.skip(1));
            assert(rest == seq![rest[0]] + rest.skip(1));
            assert(rest.skip(1) == chars@.skip(i + 1));
            assert(without(rest, pattern@) == seq![rest[0]] + without(rest.skip(1), pattern@));
            proof {
                let tail = without(rest.skip(1), pattern@);
                assert(out@ + (seq![rest[0]] + tail) == out@.push(rest[0]) + tail);
            }
            out.push(chars[i]);
            i = i + 1;
        }
    }
    assert(out@ + Seq::<char>::empty() == out@);
    assert(chars@.skip(n as int) == Seq::<char>::empty());
    out
}

/// Whether `pattern` stands in the text at index `at`.
fn starts_at(chars: &Vec<char>, at: usize, pattern: &Vec<char>) -> (r: bool)
    requires
        at + pattern@.len() <= chars@.len(),
    ensures
        r == (chars@.skip(at as int).take(pattern@.len() as int) == pattern@),
{
    let n: usize = chars.len();
    let ghost here = chars@.skip(at as int).take(pattern@.len() as int);
    for j in 0..pattern.len()
        invariant
            at + pattern@.len() <= chars@.len() == n,
            here == chars@.skip(at as int).take(pattern@.len() as int),
            forall|k: int| 0 <= k < j ==> here[k] == pattern@[k],
    {
        if chars[at + j] != pattern[j] {
            assert(here[j as int] != pattern@[j as int]);
            return false;
        }
    }
    assert(here == pattern@);
    true
}

/// Splits a text at each separator.
pub fn split(chars: &Vec<char>, separator: char) -> (r: Vec<Vec<char>>)
    ensures
        views(r@) == fields(chars@, separator),
{
    let mut done: Vec<Vec<char>> = Vec::new();
    let mut current: Vec<char> = Vec::new();
    assert(chars@.take(0) == Seq::<char>::empty());
    assert(views(done@).push(current@) == fields(chars@.take(0), separator));
    for i in 0..chars.len()
        invariant
            views(done@).push(current@) == fields(chars@.take(i as int), separator),
    {
        let ghost before = views(done@).push(current@);
        assert(chars@.take(i + 1).drop_last() == chars@.take(i as int));
        assert(before.drop_last() == views(done@));
        if chars[i] == separator {
            done.push(current);
            current = Vec::new();
            assert(views(done@) == before);
        } else {
            current.push(chars[i]);
        }
    }
    assert(chars@.take(chars@.len() as int) == chars@);
    let ghost before = views(done@).push(current@);
    done.push(current);
    assert(views(done@) == before);
    done
}

/// More digits never make a number smaller.
proof fn lemma_digits_value_grows(digits: Seq<char>, n: int)
    requires
        0 <= n <= digits.len(),
    ensures
        digits_value(digits.take(n)) <= digits_value(digits),
    decreases digits.len(),
{
    if n == digits.len() {
        assert(digits.take(n) == digits);
    } else {
        lemma_digits_value_grows(digits.drop_last(), n);
        assert(digits.drop_last().take(n) == digits.take(n));
    }
}

/// Reads a decimal number of 32 bits.
pub fn parse_u32(chars: &Vec<char>) -> (r: Option<u32>)
    ensures
        r == parsed_u32(chars@),
{
    let n: usize = chars.len();
    let start: usize = if n > 0 && chars[0] == '+' {
        1
    } else {
        0
    };
    let ghost digits = unsigned_part(chars@);
    assert(digits == chars@.skip(start as int));
    if start == n {
        return None;
    }
    let mut value: u64 = 0;
    let mut i: usize = start;
    assert(digits.take(0) == Seq::<char>::empty());
    while i < n
        invariant
            start <= i <= n == chars@.len(),
            digits == unsigned_part(chars@),
            digits == chars@.skip(start as int),
            value == digits_value(digits.take(i - start)),
            value <= u32::MAX,
            forall|k: int| 0 <= k < i - start ==> is_digit(#[trigger] digits[k]),
        decreases n - i,
    {
        let c = chars[i];
        assert(digits[i - start] == c);
        let code: u32 = c as u32;
        if code < '0' as u32 || code > '9' as u32 {
            assert(!is_digit(digits[i - start]));
            return None;
        }
        let d: u32 = code - '0' as u32;
        assert(digits.take(i - start + 1).drop_last() == digits.take(i - start));
        value = value * 10 + d as u64;
        if value > u32::MAX as u64 {
            proof {
                lemma_digits_value_grows(digits, i - start + 1);
            }
            return None;
        }
        i = i + 1;
    }
    assert(digits.take(n - start) == digits);
    Some(value as u32)
}

/// A split text has at least one piece.
pub proof fn lemma_fields_count(s: Seq<char>, separator: char)
    ensures
        fields(s, separator).len() >= 1,
    decreases s.len(),
{
    if s.len() > 0 {
        lemma_fields_count(s.drop_last(), separator);
    }
}

/// The pieces of a split text hold no separator, and nothing that the text does not hold.
pub proof fn law_fields_characters(s: Seq<char>, separator: char)
    ensures
        forall|i: int, j: int|
            0 <= i < fields(s, separator).len() && 0 <= j < fields(s, separator)[i].len() ==> {
                &&& #[trigger] fields(s, separator)[i][j] != separator
                &&& s.contains(fields(s, separator)[i][j])
            },
    decreases s.len(),
{
    if s.len() > 0 {
        let init = fields(s.drop_last(), separator);
        let all = fields(s, separator);
        lemma_fields_count(s.drop_last(), separator);
        law_fields_characters(s.drop_last(), separator);
        assert forall|i: int, j: int|
            0 <= i < all.len() && 0 <= j < all[i].len() implies #[trigger] all[i][j] != separator
            && s.contains(all[i][j]) by {
            if i < init.len() && j < init[i].len() {
                assert(all[i][j] == init[i][j]);
                let k = choose|k: int| 0 <= k < s.drop_last().len() && s.drop_last()[k] == init[i][j];
                assert(s[k] == all[i][j]);
            } else {
                assert(all[i][j] == s[s.len() - 1]);
            }
        }
    }
}

/// A separator between two texts splits the pieces of the one from the pieces of the other.
pub proof fn law_fields_of_joined(a: Seq<char>, b: Seq<char>, separator: char)
    ensures
        fields(a.push(separator) + b, separator) == fields(a, separator) + fields(b, separator),
    decreases b.len(),
{
    let whole = a.push(separator) + b;
    if b.len() == 0 {
        assert(whole == a.push(separator));
        assert(whole.drop_last() == a);
        assert(fields(whole, separator) == fields(a, separator).push(Seq::empty()));
    } else {
        let shorter = a.push(separator) + b.drop_last();
        let left = fields(a, separator);
        let right = fields(b.drop_last(), separator);
        law_fields_of_joined(a, b.drop_last(), separator);
        lemma_fields_count(b.drop_last(), separator);
        assert(whole.drop_last() == shorter);
        assert(whole.last() == b.last());
        if b.last() == separator {
            assert((left + right).push(Seq::empty()) == left + right.push(Seq::empty()));
        } else {
            assert((left + right).last() == right.last());
            assert((left + right).drop_last().push(right.last().push(b.last())) == left
                + right.drop_last().push(right.last().push(b.last())));
        }
    }
}

/// A text without separators is its own only piece.
pub proof fn law_fields_of_one(s: Seq<char>, separator: char)
    requires
        !s.contains(separator),
    ensures
        fields(s, separator) == seq![s],
    decreases s.len(),
{
    if s.len() == 0 {
        assert(s == Seq::<char>::empty());
    } else {
        assert(s.last() == s[s.len() - 1]);
        assert forall|i: int| 0 <= i < s.drop_last().len() implies s.drop_last()[i]
            != separator by {
            assert(s.drop_last()[i] == s[i]);
        }
        law_fields_of_one(s.drop_last(), separator);
        assert(s.drop_last().push(s.last()) == s);
        assert(seq![s.drop_last()].drop_last().push(s.drop_last().push(s.last())) == seq![s]);
    }
}

/// Trimming leaves a text alone that neither begins nor ends with white space.
pub proof fn law_trimmed_text(s: Seq<char>)
    requires
        s.len() > 0,
        !is_white_space(s[0]),
        !is_white_space(s.last()),
    ensures
        trimmed(s) == s,
{
}

/// What was trimmed neither begins nor ends with white space.
pub proof fn law_trimmed_ends(s: Seq<char>)
    ensures
        trimmed(s).len() > 0 ==> !is_white_space(trimmed(s)[0]) && !is_white_space(
            trimmed(s).last(),
        ),
{
    lemma_trim_start(s);
    lemma_trim_end(trim_start(s));
}

proof fn lemma_trim_start(s: Seq<char>)
    ensures
        trim_start(s).len() > 0 ==> !is_white_space(trim_start(s)[0]),
        exists|k: int| 0 <= k <= s.len() && trim_start(s) == #[trigger] s.skip(k),
    decreases s.len(),
{
    if s.len() > 0 && is_white_space(s[0]) {
        lemma_trim_start(s.skip(1));
        let k = choose|k: int|
            0 <= k <= s.skip(1).len() && trim_start(s.skip(1)) == #[trigger] s.skip(1).skip(k);
        assert(s.skip(1).skip(k) == s.skip(k + 1));
    } else {
        assert(s.skip(0) == s);
    }
}

proof fn lemma_trim_end(s: Seq<char>)
    ensures
        trim_end(s).len() > 0 ==> !is_white_space(trim_end(s).last()) && trim_end(s)[0] == s[0],
        exists|k: int| 0 <= k <= s.len() && trim_end(s) == #[trigger] s.take(k),
    decreases s.len(),
{
    if s.len() > 0 && is_white_space(s.last()) {
        lemma_trim_end(s.drop_last());
        let k = choose|k: int|
            0 <= k <= s.drop_last().len() && trim_end(s.drop_last()) == #[trigger] s.drop_last().take(
                k,
            );
        assert(s.drop_last().take(k) == s.take(k));
    } else {
        assert(s.take(s.len() as int) == s);
    }
}

/// Trimming leaves nothing exactly where there is nothing but white space.
pub proof fn law_trimmed_blank(s: Seq<char>)
    ensures
        trimmed(s).len() == 0 <==> forall|i: int|
            0 <= i < s.len() ==> is_white_space(#[trigger] s[i]),
    decreases s.len(),
{
    if s.len() > 0 && is_white_space(s[0]) {
        law_trimmed_blank(s.skip(1));
        if trimmed(s).len() == 0 {
            assert forall|i: int| 0 <= i < s.len() implies is_white_space(#[trigger] s[i]) by {
                if i > 0 {
                    assert(s.skip(1)[i - 1] == s[i]);
                }
            }
        }
    } else if s.len() > 0 {
        lemma_trim_end_keeps(s);
    }
}

proof fn lemma_trim_end_keeps(s: Seq<char>)
    requires
        s.len() > 0,
        !is_white_space(s[0]),
    ensures
        trim_end(s).len() > 0,
    decreases s.len(),
{
    if is_white_space(s.last()) {
        assert(s.drop_last()[0] == s[0]);
        lemma_trim_end_keeps(s.drop_last());
    }
}

/// A trimmed text is a part of the text it was trimmed from.
pub proof fn law_trimmed_part(s: Seq<char>)
    ensures
        exists|from: int, to: int|
            0 <= from <= to <= s.len() && trimmed(s) == #[trigger] s.subrange(from, to),
{
    lemma_trim_start(s);
    lemma_trim_end(trim_start(s));
    let from = choose|k: int| 0 <= k <= s.len() && trim_start(s) == #[trigger] s.skip(k);
    let n = choose|k: int|
        0 <= k <= trim_start(s).len() && trim_end(trim_start(s)) == #[trigger] trim_start(s).take(k);
    assert(s.skip(from).take(n) == s.subrange(from, from + n));
}

/// Taking a pattern out passes over a beginning that lacks the pattern's first character.
pub proof fn law_without_prefix(a: Seq<char>, b: Seq<char>, pattern: Seq<char>)
    requires
        pattern.len() > 0,
        !a.contains(pattern[0]),
    ensures
        without(a + b, pattern) == a + without(b, pattern),
    decreases a.len(),
{
    if a.len() == 0 {
        assert(a + b == b);
        assert(a + without(b, pattern) == without(b, pattern));
    } else {
        let s = a + b;
        let rest = a.skip(1);
        assert forall|i: int| 0 <= i < rest.len() implies rest[i] != pattern[0] by {
            assert(rest[i] == a[i + 1]);
        }
        law_without_prefix(rest, b, pattern);
        assert(s.skip(1) == rest + b);
        assert(a[0] != pattern[0]);
        assert(s.len() >= pattern.len() ==> s.take(pattern.len() as int)[0] == a[0]);
        assert(seq![a[0]] + (rest + without(b, pattern)) == a + without(b, pattern));
        if s.len() < pattern.len() {
            assert(without(b, pattern) == b);
        }
    }
}

/// Taking a pattern out of a text that begins with it goes on behind it.
pub proof fn law_without_pattern(b: Seq<char>, pattern: Seq<char>)
    requires
        pattern.len() > 0,
    ensures
        without(pattern + b, pattern) == without(b, pattern),
{
    let s = pattern + b;
    assert(s.take(pattern.len() as int) == pattern);
    assert(s.skip(pattern.len() as int) == b);
}

/// White space is these twenty-five characters, by their code points.
pub proof fn law_white_space(c: char)
    ensures
        is_white_space(c) <==> seq![
            9u32, 10u32, 11u32, 12u32, 13u32, 32u32, 133u32, 160u32, 5760u32, 8192u32, 8193u32,
            8194u32, 8195u32, 8196u32, 8197u32, 8198u32, 8199u32, 8200u32, 8201u32, 8202u32,
            8232u32, 8233u32, 8239u32, 8287u32, 12288u32,
        ].contains(c as u32),
{
    let all = seq![
        9u32, 10u32, 11u32, 12u32, 13u32, 32u32, 133u32, 160u32, 5760u32, 8192u32, 8193u32,
        8194u32, 8195u32, 8196u32, 8197u32, 8198u32, 8199u32, 8200u32, 8201u32, 8202u32,
        8232u32, 8233u32, 8239u32, 8287u32, 12288u32,
    ];
    let n = c as u32;
    if is_white_space(c) {
        let i: int = if n <= 13 {
            n - 9
        } else if n == 32 {
            5
        } else if n == 133 {
            6
        } else if n == 160 {
            7
        } else if n == 5760 {
            8
        } else if n <= 8202 {
            n - 8192 + 9
        } else if n == 8232 {
            20
        } else if n == 8233 {
            21
        } else if n == 8239 {
            22
        } else if n == 8287 {
            23
        } else {
            24
        };
        assert(all[i] == n);
    }
}

/// Whether a text is nothing but white space.
pub open spec fn is_blank(s: Seq<char>) -> bool {
    forall|i: int| 0 <= i < s.len() ==> is_white_space(#[trigger] s[i])
}

/// Trimming takes all white space off both ends, and leaves everything between as it is.
pub proof fn law_trimmed_between(before: Seq<char>, s: Seq<char>, after: Seq<char>)
    requires
        is_blank(before),
        is_blank(after),
        s.len() > 0,
        !is_white_space(s[0]),
        !is_white_space(s.last()),
    ensures
        trimmed(before + s + after) == s,
{
    assert(before + s + after == before + (s + after));
    lemma_trim_start_blank(before, s + after);
    assert((s + after)[0] == s[0]);
    lemma_trim_end_blank(s, after);
}

/// White space before a text makes no difference to what is left after trimming its beginning.
proof fn lemma_trim_start_blank(before: Seq<char>, s: Seq<char>)
    requires
        is_blank(before),
    ensures
        trim_start(before + s) == trim_start(s),
    decreases before.len(),
{
    if before.len() == 0 {
        assert(before + s == s);
    } else {
        assert(is_white_space(before[0]));
        assert((before + s)[0] == before[0]);
        assert((before + s).skip(1) == before.skip(1) + s);
        assert forall|i: int| 0 <= i < before.skip(1).len() implies is_white_space(
            #[trigger] before.skip(1)[i],
        ) by {
            assert(before.skip(1)[i] == before[i + 1]);
        }
        lemma_trim_start_blank(before.skip(1), s);
    }
}

/// White space behind a text makes no difference to what is left after trimming its end.
proof fn lemma_trim_end_blank(s: Seq<char>, after: Seq<char>)
    requires
        is_blank(after),
    ensures
        trim_end(s + after) == trim_end(s),
    decreases after.len(),
{
    if after.len() == 0 {
        assert(s + after == s);
    } else {
        assert(is_white_space(after[after.len() - 1]));
        assert((s + after).last() == after.last());
        assert((s + after).drop_last() == s + after.drop_last());
        assert forall|i: int| 0 <= i < after.drop_last().len() implies is_white_space(
            #[trigger] after.drop_last()[i],
        ) by {
            assert(after.drop_last()[i] == after[i]);
        }
        lemma_trim_end_blank(s, after.drop_last());
    }
}

/// A pattern whose first character occurs in it only once is taken out wherever it stands; what is
/// before it and what is behind it do not touch.
pub proof fn law_without_joined(a: Seq<char>, b: Seq<char>, pattern: Seq<char>)
    requires
        pattern.len() > 0,
        forall|i: int| 0 < i < pattern.len() ==> #[trigger] pattern[i] != pattern[0],
    ensures
        without(a + pattern + b, pattern) == without(a, pattern) + without(b, pattern),
    decreases a.len(),
{
    let m = pattern.len() as int;
    let s = a + pattern + b;
    if a.len() == 0 {
        assert(s == pattern + b);
        law_without_pattern(b, pattern);
        assert(without(a, pattern) + without(b, pattern) == without(b, pattern));
    } else if s.take(m) == pattern {
        if a.len() < m {
            assert(s.take(m)[a.len() as int] == pattern[0]);
            assert(pattern[a.len() as int] != pattern[0]);
        }
        assert(a.take(m) == s.take(m));
        assert(s.skip(m) == a.skip(m) + pattern + b);
        law_without_joined(a.skip(m), b, pattern);
    } else {
        assert(s.skip(1) == a.skip(1) + pattern + b);
        law_without_joined(a.skip(1), b, pattern);
        if a.len() < m {
            assert(seq![a[0]] + a.skip(1) == a);
        } else {
            assert(a.take(m) == s.take(m));
        }
        assert(seq![a[0]] + (without(a.skip(1), pattern) + without(b, pattern)) == (seq![a[0]]
            + without(a.skip(1), pattern)) + without(b, pattern));
    }
}

/// Taking out a pattern that does not occur changes nothing.
pub proof fn law_without_absent(s: Seq<char>, pattern: Seq<char>)
    requires
        pattern.len() > 0,
        forall|i: int|
            0 <= i <= s.len() - pattern.len() ==> #[trigger] s.subrange(i, i + pattern.len())
                != pattern,
    ensures
        without(s, pattern) == s,
    decreases s.len(),
{
    let m = pattern.len() as int;
    if s.len() >= m {
        assert(s.take(m) == s.subrange(0int, 0int + pattern.len()));
        assert forall|i: int| 0 <= i <= s.skip(1).len() - m implies #[trigger] s.skip(1).subrange(
            i,
            i + pattern.len(),
        ) != pattern by {
            assert(s.skip(1).subrange(i, i + pattern.len()) == s.subrange(
                i + 1,
                i + 1 + pattern.len(),
            ));
        }
        law_without_absent(s.skip(1), pattern);
        assert(seq![s[0]] + s.skip(1) == s);
    }
}

/// A character at which the pattern does not begin stays where it is.
pub proof fn law_without_character(c: char, rest: Seq<char>, pattern: Seq<char>)
    requires
        !pattern.is_prefix_of(seq![c] + rest),
    ensures
        without(seq![c] + rest, pattern) == seq![c] + without(rest, pattern),
{
    let s = seq![c] + rest;
    assert(s.skip(1) == rest);
    if pattern.len() == 0 {
        assert(pattern.is_prefix_of(s));
    } else if s.len() >= pattern.len() {
        if s.take(pattern.len() as int) == pattern {
            assert(pattern.is_prefix_of(s));
        }
    } else {
        assert(without(rest, pattern) == rest);
    }
}

/// One more digit at the end makes a number ten times as large, and adds the digit; the digits
/// from `0` to `9` are worth their distance from `0`.
pub proof fn law_digits_value(digits: Seq<char>, c: char)
    requires
        48 <= c as u32 <= 57,
    ensures
        digits_value(seq![c]) == c as u32 - 48,
        digits_value(digits.push(c)) == 10 * digits_value(digits) + (c as u32 - 48),
{
    reveal_with_fuel(digits_value, 2);
    assert(digits.push(c).drop_last() == digits);
    assert(seq![c].drop_last() == Seq::<char>::empty());
    assert(seq![c].last() == c);
}

/// A row of digits is read as the number it stands for, with or without a plus sign before it,
/// where that number fits into 32 bits, and only there.
pub proof fn law_number_is_read(digits: Seq<char>)
    requires
        digits.len() > 0,
        forall|i: int| 0 <= i < digits.len() ==> 48 <= #[trigger] digits[i] as u32 <= 57,
    ensures
        parsed_u32(digits) is Some <==> digits_value(digits) <= 4294967295,
        parsed_u32(digits) matches Some(n) ==> n == digits_value(digits),
        parsed_u32(seq!['+'] + digits) == parsed_u32(digits),
{
    assert forall|i: int| 0 <= i < digits.len() implies is_digit(#[trigger] digits[i]) by {
        assert(48 <= digits[i] as u32 <= 57);
    }
    assert(48 <= digits[0] as u32);
    assert(unsigned_part(digits) == digits);
    assert((seq!['+'] + digits).skip(1) == digits);
    assert(unsigned_part(seq!['+'] + digits) == digits);
}

/// A text is no number where it holds anything but digits, except for a plus sign before them, nor
/// where it holds no digit at all.
pub proof fn law_no_number(s: Seq<char>, at: int)
    requires
        0 <= at < s.len(),
        !(48 <= s[at] as u32 <= 57),
        at == 0 ==> s[0] != '+' || s.len() == 1,
    ensures
        parsed_u32(s) is None,
        parsed_u32(Seq::empty()) is None,
{
    let digits = unsigned_part(s);
    if s[0] == '+' {
        if s.len() > 1 {
            assert(digits[at - 1] == s[at]);
            assert(!is_digit(digits[at - 1]));
        }
    } else {
        assert(!is_digit(digits[at]));
    }
}

/// Taking out nothing changes nothing, and nothing can be taken out of an empty text.
pub proof fn law_without_nothing(s: Seq<char>, pattern: Seq<char>)
    ensures
        without(s, Seq::empty()) == s,
        without(Seq::empty(), pattern) == Seq::<char>::empty(),
{
}

/// The views of the pieces of a split text are those of each, in their order.
pub proof fn law_views(parts: Seq<Vec<char>>)
    ensures
        views(parts).len() == parts.len(),
        forall|i: int| 0 <= i < parts.len() ==> #[trigger] views(parts)[i] == parts[i]@,
{
}

} // verus!
