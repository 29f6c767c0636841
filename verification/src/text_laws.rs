//! Laws of texts: searching, letter case, numbers and blanks.

use vstd::prelude::*;

use crate::order::{lex_less, lex_lt, sorted_positions, text_lt};
use crate::table::{lookup, text_less, TextSet, TextTable};
use crate::text::{
    chars_of, cut_last_bytes, decimal_text, digit_value, digits, digits_value, ends_with, following,
    following_last, hex_text, last_position, lemma_digits_value, lemma_find_from, lowercase_text,
    lowercased, occurs_at, padded_hex_text, parsed_number, position, preceding, rfind_from,
    same_optional_text, same_text, split_words, starts_with, string_of, trim_end, trim_start,
    trimmed, trimmed_end, trimmed_start, width_of, without_prefix, without_suffix, word_len, words,
};

verus! {

// ── Texts as characters ─────────────────────────────────────────────────────

/// A text taken apart and put together again is the same text.
pub proof fn texts_are_their_characters(text: &str, chars: Vec<char>, again: String, same: bool)
    requires
        call_ensures(chars_of, (text,), chars),
        forall|slice: &[char]|
            slice@ == chars@ ==> #[trigger] call_ensures(string_of, (slice,), again),
        exists|slice: &[char]| #[trigger] slice@ == chars@,
        call_ensures(same_text, (text, text), same),
    ensures
        again@ == text@,
        chars@.len() == text@.len(),
        same,
{
    let slice = choose|slice: &[char]| #[trigger] slice@ == chars@;
    assert(call_ensures(string_of, (slice,), again));
}

/// Two texts are the same exactly when they have the same characters in the same places, and
/// two that may be missing when both are missing or both are there and the same.
pub proof fn texts_are_compared_by_characters(
    a: &str,
    b: &str,
    same: bool,
    x: Option<&str>,
    y: Option<&str>,
    both: bool,
)
    requires
        call_ensures(same_text, (a, b), same),
        call_ensures(same_optional_text, (x, y), both),
    ensures
        same <==> a@.len() == b@.len() && forall|i: int| 0 <= i < a@.len() ==> a@[i] == b@[i],
        x is None && y is None ==> both,
        x is None != y is None ==> !both,
        x matches Some(p) ==> (y matches Some(q) ==> (both <==> p@ == q@)),
{
    assert(a@ == b@ <==> a@ =~= b@);
}

// ── Searching ───────────────────────────────────────────────────────────────

/// A text begins with what its first characters are and ends with what its last ones are;
/// without that, what is left is the rest.
pub proof fn ends_are_cut_off(
    s: &[char],
    part: &[char],
    starts: bool,
    ends: bool,
    tail: Option<&[char]>,
    head: Option<&[char]>,
)
    requires
        call_ensures(starts_with, (s, part), starts),
        call_ensures(ends_with, (s, part), ends),
        call_ensures(without_prefix, (s, part), tail),
        call_ensures(without_suffix, (s, part), head),
    ensures
        starts <==> part@.len() <= s@.len() && s@.take(part@.len() as int) == part@,
        ends <==> part@.len() <= s@.len() && s@.skip(s@.len() - part@.len()) == part@,
        tail is Some <==> starts,
        head is Some <==> ends,
        tail matches Some(rest) ==> s@ == part@ + rest@,
        head matches Some(rest) ==> s@ == rest@ + part@,
{
    let n = part@.len() as int;
    if n <= s@.len() {
        assert(s@.subrange(0, n) =~= s@.take(n));
        assert(s@.subrange(s@.len() - n, s@.len() as int) =~= s@.skip(s@.len() - n));
        assert(s@ =~= s@.take(n) + s@.skip(n));
        assert(s@ =~= s@.take(s@.len() - n) + s@.skip(s@.len() - n));
    }
}

/// `part` stands in `s` from position `i` on.
pub open spec fn stands_at(s: Seq<char>, part: Seq<char>, i: int) -> bool {
    0 <= i && i + part.len() <= s.len() && forall|k: int|
        0 <= k < part.len() ==> s[i + k] == #[trigger] part[k]
}

proof fn lemma_stands_at(s: Seq<char>, part: Seq<char>, i: int)
    ensures
        stands_at(s, part, i) <==> occurs_at(s, part, i),
{
    if 0 <= i && i + part.len() <= s.len() {
        let here = s.subrange(i, i + part.len());
        assert(forall|k: int| 0 <= k < part.len() ==> #[trigger] here[k] == s[i + k]);
        if stands_at(s, part, i) {
            assert forall|k: int| 0 <= k < part.len() implies here[k] == part[k] by {
                assert(s[i + k] == part[k]);
            }
            assert(here =~= part);
        }
        if here == part {
            assert forall|k: int| 0 <= k < part.len() implies s[i + k] == #[trigger] part[k] by {
                assert(here[k] == s[i + k]);
            }
        }
    }
}

proof fn lemma_rfind(s: Seq<char>, part: Seq<char>, from: int)
    ensures
        match rfind_from(s, part, from) {
            Some(i) => 0 <= i <= from && occurs_at(s, part, i) && forall|j: int|
                i < j <= from ==> !occurs_at(s, part, j),
            None => forall|j: int| 0 <= j <= from ==> !occurs_at(s, part, j),
        },
    decreases from + 1,
{
    if from >= 0 && !occurs_at(s, part, from) {
        lemma_rfind(s, part, from - 1);
    }
}

/// The first and the last position of a part are where it stands, with none before the first
/// and none after the last; there is none of either where it stands nowhere.
pub proof fn parts_are_found_where_they_stand(
    s: &[char],
    part: &[char],
    first: Option<usize>,
    last: Option<usize>,
    i: int,
)
    requires
        call_ensures(position, (s, part), first),
        call_ensures(last_position, (s, part), last),
    ensures
        first matches Some(at) ==> stands_at(s@, part@, at as int),
        last matches Some(at) ==> stands_at(s@, part@, at as int),
        stands_at(s@, part@, i) ==> (first matches Some(at) && at <= i),
        stands_at(s@, part@, i) ==> (last matches Some(at) && i <= at),
{
    lemma_find_from(s@, part@, 0);
    lemma_rfind(s@, part@, s@.len() - part@.len());
    lemma_stands_at(s@, part@, i);
    if let Some(at) = first {
        lemma_stands_at(s@, part@, at as int);
    }
    if let Some(at) = last {
        lemma_stands_at(s@, part@, at as int);
    }
}

/// A text is what precedes the first occurrence of a part, the part, and what follows it.
pub proof fn texts_are_split_at_parts(
    s: &[char],
    part: &[char],
    before: &[char],
    after: Option<&[char]>,
    behind: Option<&[char]>,
    first: Option<usize>,
    last: Option<usize>,
)
    requires
        call_ensures(preceding, (s, part), before),
        call_ensures(following, (s, part), after),
        call_ensures(following_last, (s, part), behind),
        call_ensures(position, (s, part), first),
        call_ensures(last_position, (s, part), last),
    ensures
        first is None ==> before@ == s@ && after is None && behind is None,
        first matches Some(at) ==> before@.len() == at && (after matches Some(rest) && s@
            == before@ + part@ + rest@),
        last matches Some(at) ==> (behind matches Some(rest) && s@ == s@.take(at as int) + part@
            + rest@),
{
    lemma_find_from(s@, part@, 0);
    lemma_rfind(s@, part@, s@.len() - part@.len());
    if let Some(at) = first {
        let i = at as int;
        assert(s@ =~= s@.take(i) + s@.subrange(i, i + part@.len()) + s@.skip(i + part@.len()));
    }
    if let Some(at) = last {
        let i = at as int;
        assert(s@ =~= s@.take(i) + s@.subrange(i, i + part@.len()) + s@.skip(i + part@.len()));
    }
}

// ── Letter case ─────────────────────────────────────────────────────────────

/// Lowering a text turns the capitals of the alphabet into small letters and leaves every
/// other character.
pub proof fn capitals_become_small(s: &[char], out: Vec<char>, text: &str, low: String, i: int)
    requires
        call_ensures(lowercased, (s,), out),
        call_ensures(lowercase_text, (text,), low),
        text@ == s@,
        0 <= i < s@.len(),
    ensures
        out@.len() == s@.len(),
        low@ == out@,
        65 <= s@[i] as int <= 90 ==> out@[i] as int == s@[i] as int + 32,
        !(65 <= s@[i] as int <= 90) ==> out@[i] == s@[i],
{
}

// ── Numbers ─────────────────────────────────────────────────────────────────

/// The digits of a number are those of the number without its last digit, then the last
/// digit; a single digit stands alone.
pub proof fn decimals_are_written_digit_by_digit(
    n: u64,
    d: u64,
    whole: String,
    front: String,
    single: String,
)
    requires
        d < 10,
        n > 0,
        10 * n + d <= u64::MAX,
        call_ensures(decimal_text, ((10 * n + d) as u64,), whole),
        call_ensures(decimal_text, (n,), front),
        call_ensures(decimal_text, (d,), single),
    ensures
        single@ == seq![(48 + d) as char],
        whole@ == front@ + single@,
{
    let m = (10 * n + d) as nat;
    assert(m / 10 == n && m % 10 == d) by (nonlinear_arith)
        requires
            m == 10 * n + d,
            d < 10,
    ;
    assert(whole@ =~= front@ + single@);
}

/// The digit of a number below sixteen: a figure, or one of the small letters from a to f.
pub open spec fn hex_digit(d: int) -> char {
    if d < 10 {
        (48 + d) as char
    } else {
        (97 + (d - 10)) as char
    }
}

/// The same holds of hexadecimal numbers, whose digits are small letters from ten on.
pub proof fn hexadecimals_are_written_digit_by_digit(
    n: u64,
    d: u64,
    whole: String,
    front: String,
    single: String,
)
    requires
        d < 16,
        n > 0,
        16 * n + d <= u64::MAX,
        call_ensures(hex_text, ((16 * n + d) as u64,), whole),
        call_ensures(hex_text, (n,), front),
        call_ensures(hex_text, (d,), single),
    ensures
        single@ == seq![hex_digit(d as int)],
        whole@ == front@ + single@,
{
    let m = (16 * n + d) as nat;
    assert(m / 16 == n && m % 16 == d) by (nonlinear_arith)
        requires
            m == 16 * n + d,
            d < 16,
    ;
    assert(whole@ =~= front@ + single@);
}

/// A padded number has at least the width asked for, and is the number behind zeros only.
pub proof fn padding_is_zeros_in_front(n: u64, width: usize, padded: String, plain: String)
    requires
        call_ensures(padded_hex_text, (n, width), padded),
        call_ensures(hex_text, (n,), plain),
    ensures
        padded@.len() >= width,
        plain@.len() >= width ==> padded@ == plain@,
        plain@.len() < width ==> padded@.len() == width,
        padded@.skip(padded@.len() - plain@.len()) == plain@,
        forall|i: int| 0 <= i < padded@.len() - plain@.len() ==> padded@[i] == '0',
{
    assert(padded@.skip(padded@.len() - plain@.len()) =~= plain@);
}

/// A number that was written is read again, up to the greatest that is allowed.
pub proof fn written_numbers_are_read(
    n: u64,
    max: u64,
    decimal: &[char],
    hexadecimal: &[char],
    tens: Option<u64>,
    sixteens: Option<u64>,
    written: String,
    coded: String,
)
    requires
        max <= 0xffff_ffff,
        call_ensures(decimal_text, (n,), written),
        call_ensures(hex_text, (n,), coded),
        decimal@ == written@,
        hexadecimal@ == coded@,
        call_ensures(parsed_number, (decimal, 10u64, max), tens),
        call_ensures(parsed_number, (hexadecimal, 16u64, max), sixteens),
    ensures
        n <= max ==> tens == Some(n) && sixteens == Some(n),
        n > max ==> tens is None && sixteens is None,
{
    lemma_digits_value(n as nat, 10);
    lemma_digits_value(n as nat, 16);
    assert(0 <= digit_value(decimal@[0]) < 10);
    assert(0 <= digit_value(hexadecimal@[0]) < 16);
}

/// Reading one more digit multiplies by the base and adds the digit; a plus in front changes
/// nothing, and anything else is no number.
pub proof fn numbers_are_read_digit_by_digit(
    radix: u64,
    s: &[char],
    longer: &[char],
    signed: &[char],
    c: char,
    out: Option<u64>,
    more: Option<u64>,
    plus: Option<u64>,
)
    requires
        2 <= radix <= 16,
        s@.len() > 0,
        s@[0] != '+',
        longer@ == s@.push(c),
        signed@ == seq!['+'] + s@,
        call_ensures(parsed_number, (s, radix, 0xffff_ffffu64), out),
        call_ensures(parsed_number, (longer, radix, 0xffff_ffffu64), more),
        call_ensures(parsed_number, (signed, radix, 0xffff_ffffu64), plus),
    ensures
        plus == out,
        more matches Some(m) ==> (out matches Some(n) && exists|d: int|
            0 <= d < radix && m == radix * n + d && (c == hex_digit(d) || d >= 10 && c as int == 65
                + (d - 10))),
{
    assert(signed@.skip(1) =~= s@);
    assert(longer@.drop_last() =~= s@);
    if let Some(m) = more {
        assert forall|i: int| 0 <= i < s@.len() implies 0 <= #[trigger] digit_value(s@[i]) < radix
            as int by {
            assert(longer@[i] == s@[i]);
            assert(0 <= digit_value(longer@[i]) < radix as int);
        }
        assert(0 <= digit_value(longer@[s@.len() as int]) < radix as int);
        let d = digit_value(c);
        let v = digits_value(s@, radix as int);
        crate::text::lemma_digits_value_grows(longer@, s@.len() as int, radix as int);
        assert(longer@.take(s@.len() as int) =~= s@);
        assert(v * radix + d == radix * v + d) by (nonlinear_arith);
        assert(0 <= d < radix && m == radix * v + d && (c == hex_digit(d) || d >= 10 && c as int
            == 65 + (d - 10)));
    }
}

/// Text that is no number is not read as one.
pub proof fn only_digits_are_numbers(s: &[char], radix: u64, max: u64, i: int, out: Option<u64>)
    requires
        2 <= radix <= 16,
        max <= 0xffff_ffff,
        call_ensures(parsed_number, (s, radix, max), out),
        s@.len() == 0 || (0 <= i < s@.len() && (i > 0 || s@[i] != '+') && !(48 <= s@[i] as int
            <= 57) && !(97 <= s@[i] as int <= 102) && !(65 <= s@[i] as int <= 70)),
    ensures
        out is None,
{
    if s@.len() > 0 {
        let d = crate::text::without_plus(s@);
        if s@[0] == '+' {
            assert(d =~= s@.skip(1));
            assert(d[i - 1] == s@[i]);
            assert(digit_value(d[i - 1]) < 0);
        } else {
            assert(digit_value(d[i]) < 0);
        }
    }
}

// ── Bytes ───────────────────────────────────────────────────────────────────

/// A character takes one byte up to 0x7f, two up to 0x7ff, three up to 0xffff, and four
/// beyond.
pub proof fn characters_take_one_to_four_bytes(c: char, width: usize)
    requires
        call_ensures(width_of, (c,), width),
    ensures
        width == 1 <==> (c as int) <= 0x7f,
        width == 2 <==> 0x80 <= (c as int) <= 0x7ff,
        width == 3 <==> 0x800 <= (c as int) <= 0xffff,
        width == 4 <==> 0x1_0000 <= (c as int),
{
}

/// Cutting bytes off the end of plain characters cuts as many characters; cutting none
/// leaves the text.
pub proof fn plain_characters_are_cut_one_by_one(
    s: &[char],
    none: Option<&[char]>,
    bytes: usize,
    some: Option<&[char]>,
)
    requires
        call_ensures(cut_last_bytes, (s, 0usize), none),
        call_ensures(cut_last_bytes, (s, bytes), some),
        forall|i: int| 0 <= i < s@.len() ==> (#[trigger] s@[i] as int) <= 0x7f,
    ensures
        none matches Some(rest) && rest@ == s@,
        some is Some <==> bytes <= s@.len(),
        some matches Some(rest) ==> rest@ == s@.take(s@.len() - bytes),
{
    lemma_cut_plain(s@, bytes as int);
}

proof fn lemma_plain_width(c: char)
    requires
        c as int <= 0x7f,
    ensures
        crate::text::utf8_width(c) == 1,
{
}

proof fn lemma_cut_plain(s: Seq<char>, bytes: int)
    requires
        bytes >= 0,
        forall|i: int| 0 <= i < s.len() ==> (#[trigger] s[i] as int) <= 0x7f,
    ensures
        bytes <= s.len() ==> crate::text::without_last_bytes(s, bytes) == Some(
            s.take(s.len() - bytes),
        ),
        bytes > s.len() ==> crate::text::without_last_bytes(s, bytes) is None,
    decreases s.len(),
{
    if bytes == 0 {
        assert(s.take(s.len() as int) =~= s);
    } else if s.len() > 0 {
        let c = s[s.len() - 1];
        assert(c as int <= 0x7f);
        lemma_plain_width(c);
        let front = s.drop_last();
        assert(forall|i: int| 0 <= i < front.len() ==> front[i] == s[i]);
        lemma_cut_plain(front, bytes - 1);
        if bytes <= s.len() {
            assert(front.take(front.len() - (bytes - 1)) =~= s.take(s.len() - bytes));
        }
    }
}

// ── Blanks ──────────────────────────────────────────────────────────────────

/// The character is white space.
pub open spec fn is_blank(c: char) -> bool {
    let code = c as int;
    ||| code == 9 || code == 10 || code == 11 || code == 12 || code == 13
    ||| code == 32 || code == 0x85 || code == 0xa0
    ||| code == 0x1680
    ||| 0x2000 <= code <= 0x200a
    ||| code == 0x2028 || code == 0x2029 || code == 0x202f || code == 0x205f
    ||| code == 0x3000
}

proof fn lemma_trim_start(s: Seq<char>) -> (n: int)
    ensures
        0 <= n <= s.len(),
        trim_start(s) == s.skip(n),
        forall|i: int| 0 <= i < n ==> is_blank(#[trigger] s[i]),
        n < s.len() ==> !is_blank(s[n]),
    decreases s.len(),
{
    if s.len() > 0 && is_blank(s[0]) {
        let m = lemma_trim_start(s.skip(1));
        assert(s.skip(1).skip(m) =~= s.skip(m + 1));
        assert forall|i: int| 0 <= i < m + 1 implies is_blank(#[trigger] s[i]) by {
            if i > 0 {
                assert(s.skip(1)[i - 1] == s[i]);
            }
        }
        if m + 1 < s.len() {
            assert(s.skip(1)[m] == s[m + 1]);
        }
        m + 1
    } else {
        assert(s.skip(0) =~= s);
        0
    }
}

proof fn lemma_trim_end(s: Seq<char>) -> (n: int)
    ensures
        0 <= n <= s.len(),
        trim_end(s) == s.take(n),
        forall|i: int| n <= i < s.len() ==> is_blank(#[trigger] s[i]),
        n > 0 ==> !is_blank(s[n - 1]),
    decreases s.len(),
{
    if s.len() > 0 && is_blank(s.last()) {
        let front = s.drop_last();
        let m = lemma_trim_end(front);
        assert(front.take(m) =~= s.take(m));
        assert forall|i: int| m <= i < s.len() implies is_blank(#[trigger] s[i]) by {
            if i < front.len() {
                assert(front[i] == s[i]);
            }
        }
        m
    } else {
        assert(s.take(s.len() as int) =~= s);
        s.len() as int
    }
}

/// Trimming takes away the blanks at both ends, all of them and nothing else.
pub proof fn trimming_takes_the_blanks(
    s: &[char],
    out: &[char],
    from_start: &[char],
    from_end: &[char],
) -> (at: int)
    requires
        call_ensures(trimmed, (s,), out),
        call_ensures(trimmed_start, (s,), from_start),
        call_ensures(trimmed_end, (s,), from_end),
    ensures
        0 <= at,
        at + out@.len() <= s@.len(),
        out@ == s@.subrange(at, at + out@.len()),
        forall|i: int| 0 <= i < at ==> is_blank(#[trigger] s@[i]),
        forall|i: int| at + out@.len() <= i < s@.len() ==> is_blank(#[trigger] s@[i]),
        out@.len() > 0 ==> !is_blank(out@[0]) && !is_blank(out@[out@.len() - 1]),
        from_start@ == s@.skip(s@.len() - from_start@.len()),
        from_start@.len() > 0 ==> !is_blank(from_start@[0]),
        from_end@ == s@.take(from_end@.len() as int),
        from_end@.len() > 0 ==> !is_blank(from_end@[from_end@.len() - 1]),
{
    let a = lemma_trim_start(s@);
    let t = trim_start(s@);
    let b = lemma_trim_end(t);
    let c = lemma_trim_end(s@);
    assert(t.take(b) =~= s@.subrange(a, a + b));
    assert forall|i: int| a + b <= i < s@.len() implies is_blank(#[trigger] s@[i]) by {
        assert(t[i - a] == s@[i]);
    }
    a
}

proof fn lemma_word(s: Seq<char>)
    ensures
        word_len(s) <= s.len(),
        forall|i: int| 0 <= i < word_len(s) ==> !is_blank(#[trigger] s[i]),
        word_len(s) < s.len() ==> is_blank(s[word_len(s) as int]),
    decreases s.len(),
{
    if s.len() > 0 && !is_blank(s[0]) {
        let t = s.skip(1);
        lemma_word(t);
        assert forall|i: int| 0 <= i < word_len(s) implies !is_blank(#[trigger] s[i]) by {
            if i > 0 {
                assert(t[i - 1] == s[i]);
            }
        }
        if word_len(s) < s.len() {
            assert(t[word_len(t) as int] == s[word_len(s) as int]);
        }
    }
}

proof fn lemma_words_are_words(s: Seq<char>)
    ensures
        forall|i: int| 0 <= i < words(s).len() ==> #[trigger] is_word(words(s)[i]),
    decreases s.len(),
{
    let a = lemma_trim_start(s);
    let t = trim_start(s);
    lemma_word(t);
    if t.len() > 0 {
        let n = word_len(t) as int;
        let rest = t.skip(n);
        lemma_words_are_words(rest);
        assert forall|i: int| 0 <= i < words(s).len() implies #[trigger] is_word(words(s)[i]) by {
            if i > 0 {
                assert(words(s)[i] == words(rest)[i - 1]);
                assert(is_word(words(rest)[i - 1]));
            } else {
                assert(words(s)[0] =~= t.take(n));
                assert(forall|k: int| 0 <= k < n ==> t.take(n)[k] == #[trigger] t[k]);
            }
        }
    }
}

/// A stretch of characters without a blank.
pub open spec fn is_word(word: Seq<char>) -> bool {
    word.len() > 0 && forall|k: int| 0 <= k < word.len() ==> !is_blank(#[trigger] word[k])
}

/// Splitting a text gives words: none is empty and none holds a blank.
pub proof fn words_hold_no_blanks(s: &[char], out: Vec<Vec<char>>, i: int)
    requires
        call_ensures(split_words, (s,), out),
        0 <= i < out@.len(),
    ensures
        is_word(out@[i]@),
{
    lemma_words_are_words(s@);
    assert(is_word(words(s@)[i]));
}

/// The words of a text that begins with blanks and one word are that word and the words of
/// what follows the blank behind it. A text of blanks has none.
pub proof fn texts_are_split_at_blanks(
    s: &[char],
    word: Seq<char>,
    blanks: Seq<char>,
    rest: &[char],
    out: Vec<Vec<char>>,
    others: Vec<Vec<char>>,
)
    requires
        call_ensures(split_words, (s,), out),
        call_ensures(split_words, (rest,), others),
        forall|k: int| 0 <= k < blanks.len() ==> is_blank(#[trigger] blanks[k]),
        word.len() == 0 || is_word(word),
        s@ == blanks + word + rest@,
        rest@.len() == 0 || is_blank(rest@[0]),
    ensures
        word.len() > 0 ==> {
            &&& out@.len() == 1 + others@.len()
            &&& out@[0]@ == word
            &&& forall|i: int|
                0 <= i < others@.len() ==> out@[i + 1]@ == (#[trigger] others@[i])@
        },
        word.len() == 0 && rest@.len() == 0 ==> out@.len() == 0,
{
    let a = lemma_trim_start(s@);
    let t = trim_start(s@);
    assert(forall|k: int| 0 <= k < blanks.len() ==> s@[k] == #[trigger] blanks[k]);
    if word.len() > 0 {
        assert(s@[blanks.len() as int] == word[0]);
        assert(!is_blank(word[0]));
        if a < blanks.len() {
            assert(is_blank(blanks[a]));
        }
        if a > blanks.len() {
            assert(is_blank(s@[blanks.len() as int]));
        }
        assert(a == blanks.len());
        assert(t =~= word + rest@);
        lemma_word(t);
        let n = word_len(t) as int;
        if n < word.len() {
            assert(t[n] == word[n]);
        }
        if n > word.len() {
            assert(t[word.len() as int] == rest@[0]);
        }
        assert(n == word.len());
        assert(t.take(n) =~= word);
        assert(t.skip(n) =~= rest@);
        assert(words(s@) =~= seq![word] + words(rest@));
        assert forall|i: int| 0 <= i < others@.len() implies out@[i + 1]@ == (
        #[trigger] others@[i])@ by {
            assert(words(s@)[i + 1] == words(rest@)[i]);
        }
    } else if rest@.len() == 0 {
        assert(s@ =~= blanks);
        if a < blanks.len() {
            assert(is_blank(blanks[a]));
        }
    }
}

// ── Order ───────────────────────────────────────────────────────────────────

/// Texts are compared by the first character in which they differ, and a text comes after
/// every beginning of it.
pub proof fn texts_are_ordered_by_the_first_difference(a: &str, b: &str, n: int, less: bool)
    requires
        call_ensures(text_less, (a, b), less),
        0 <= n <= a@.len(),
        n <= b@.len(),
        a@.take(n) == b@.take(n),
    ensures
        n < a@.len() && n < b@.len() && a@[n] < b@[n] ==> less,
        n < a@.len() && n < b@.len() && b@[n] < a@[n] ==> !less,
        n == a@.len() ==> (less <==> n < b@.len()),
        n == b@.len() ==> !less,
{
    lemma_first_difference(a@, b@, n);
}

proof fn lemma_first_difference(a: Seq<char>, b: Seq<char>, n: int)
    requires
        0 <= n <= a.len(),
        n <= b.len(),
        a.take(n) == b.take(n),
    ensures
        n < a.len() && n < b.len() && a[n] < b[n] ==> text_lt(a, b),
        n < a.len() && n < b.len() && b[n] < a[n] ==> !text_lt(a, b),
        n == a.len() ==> (text_lt(a, b) <==> n < b.len()),
        n == b.len() ==> !text_lt(a, b),
    decreases n,
{
    if n > 0 {
        assert(a[0] == a.take(n)[0]);
        assert(b[0] == b.take(n)[0]);
        assert(a.skip(1).take(n - 1) =~= a.take(n).skip(1));
        assert(b.skip(1).take(n - 1) =~= b.take(n).skip(1));
        lemma_first_difference(a.skip(1), b.skip(1), n - 1);
    }
}

proof fn lemma_lex_first(a: Seq<u32>, b: Seq<u32>, n: int)
    requires
        0 <= n <= a.len(),
        n <= b.len(),
        a.take(n) == b.take(n),
    ensures
        n < a.len() && n < b.len() && a[n] < b[n] ==> lex_lt(a, b),
        n < a.len() && n < b.len() && b[n] < a[n] ==> !lex_lt(a, b),
        n == a.len() ==> (lex_lt(a, b) <==> n < b.len()),
        n == b.len() ==> !lex_lt(a, b),
    decreases n,
{
    if n > 0 {
        assert(a[0] == a.take(n)[0]);
        assert(b[0] == b.take(n)[0]);
        assert(a.skip(1).take(n - 1) =~= a.take(n).skip(1));
        assert(b.skip(1).take(n - 1) =~= b.take(n).skip(1));
        lemma_lex_first(a.skip(1), b.skip(1), n - 1);
    }
}

/// So are sequences of numbers.
pub proof fn sequences_are_ordered_by_the_first_difference(
    a: &[u32],
    b: &[u32],
    n: int,
    less: bool,
)
    requires
        call_ensures(lex_less, (a, b), less),
        0 <= n <= a@.len(),
        n <= b@.len(),
        a@.take(n) == b@.take(n),
    ensures
        n < a@.len() && n < b@.len() && a@[n] < b@[n] ==> less,
        n < a@.len() && n < b@.len() && b@[n] < a@[n] ==> !less,
        n == a@.len() ==> (less <==> n < b@.len()),
        n == b@.len() ==> !less,
{
    lemma_lex_first(a@, b@, n);
}

/// Sorting names every position once, never a greater key before a smaller one, and equal
/// keys in the order in which they came.
pub proof fn sorting_is_stable(keys: Vec<Vec<u32>>, order: Vec<usize>, i: int, j: int)
    requires
        call_ensures(sorted_positions, (&keys,), order),
        0 <= i < j < order@.len(),
    ensures
        order@.len() == keys@.len(),
        order@[i] < keys@.len(),
        order@[i] != order@[j],
        lex_lt(keys@[order@[i] as int]@, keys@[order@[j] as int]@) || keys@[order@[i] as int]@
            == keys@[order@[j] as int]@ && order@[i] < order@[j],
        forall|k: int| 0 <= k < keys@.len() ==> order@.contains(#[trigger] (k as usize)),
{
    let views = crate::order::key_views(keys@);
    assert(0 <= order@[i] < views.len() && 0 <= order@[j] < views.len());
    assert(views[order@[i] as int] == keys@[order@[i] as int]@);
    assert(views[order@[j] as int] == keys@[order@[j] as int]@);
    if order@[i] == order@[j] {
        crate::order::lemma_lex_irreflexive(views[order@[i] as int]);
    }
}

// ── Tables ──────────────────────────────────────────────────────────────────

/// A set of texts holds what was put into it, and nothing else.
pub proof fn sets_hold_what_was_put_in(
    set: &mut TextSet,
    text: String,
    after: TextSet,
    asked: &str,
    before_has: bool,
    has: bool,
    empty: TextSet,
    nothing: bool,
)
    requires
        call_ensures(TextSet::insert, (set, text), ()),
        after == *final(set),
        call_ensures(TextSet::contains, (&*old(set), asked), before_has),
        call_ensures(TextSet::contains, (&after, asked), has),
        call_ensures(TextSet::new, (), empty),
        call_ensures(TextSet::contains, (&empty, asked), nothing),
    ensures
        has <==> before_has || asked@ == text@,
        !nothing,
{
}

/// A table gives back the value that was put under a text, and putting one there changes no
/// other.
pub proof fn tables_give_back_what_was_put_in<V>(
    table: &mut TextTable<V>,
    key: String,
    value: V,
    after: TextTable<V>,
    asked: &str,
    before: Option<&V>,
    found: Option<&V>,
    empty: TextTable<V>,
    nothing: Option<&V>,
)
    requires
        call_ensures(TextTable::<V>::insert, (table, key, value), ()),
        after == *final(table),
        call_ensures(TextTable::<V>::get, (&*old(table), asked), before),
        call_ensures(TextTable::<V>::get, (&after, asked), found),
        call_ensures(TextTable::<V>::new, (), empty),
        call_ensures(TextTable::<V>::get, (&empty, asked), nothing),
    ensures
        asked@ == key@ ==> found == Some(&value),
        asked@ != key@ ==> found == before,
        nothing is None,
{
    assert(lookup(after.rows(), asked@) == if asked@ == key@ {
        Some(value)
    } else {
        lookup(old(table).rows(), asked@)
    });
}

// ── Codenames ───────────────────────────────────────────────────────────────

/// A word of a codename is left alone when it takes at most three bytes or holds a figure.
pub proof fn short_words_and_numbers_stay(word: &[char], stays: bool, i: int)
    requires
        call_ensures(crate::codename::word_stays, (word,), stays),
    ensures
        word@.len() == 0 ==> stays,
        0 <= i < word@.len() && 48 <= word@[i] as int <= 57 ==> stays,
        word@.len() > 3 && (forall|k: int|
            0 <= k < word@.len() ==> !(48 <= #[trigger] word@[k] as int <= 57)) ==> !stays,
{
    lemma_bytes_at_least(word@);
    if 0 <= i < word@.len() && 48 <= word@[i] as int <= 57 {
        assert('0' <= word@[i] <= '9');
    }
    if stays && word@.len() > 3 {
        let k = choose|k: int| 0 <= k < word@.len() && '0' <= #[trigger] word@[k] <= '9';
        assert(48 <= word@[k] as int <= 57);
    }
}

proof fn lemma_bytes_at_least(s: Seq<char>)
    ensures
        crate::text::byte_len(s) >= s.len(),
    decreases s.len(),
{
    if s.len() > 0 {
        lemma_bytes_at_least(s.drop_last());
    }
}

/// The words of a codename are joined by single blanks, those that stay as they were and the
/// others with their first letter and the rest of them.
pub proof fn codename_words_are_joined_by_blanks(
    words: Vec<crate::codename::CodenameWord>,
    word: crate::codename::CodenameWord,
    more: Vec<crate::codename::CodenameWord>,
    text: &[char],
    stays: bool,
    joined: String,
    longer: String,
)
    requires
        words@.len() > 0,
        more@ == words@.push(word),
        text@ == word.text@,
        call_ensures(crate::codename::word_stays, (text,), stays),
        call_ensures(crate::codename::join_words, (&words,), joined),
        call_ensures(crate::codename::join_words, (&more,), longer),
    ensures
        longer@ == joined@ + seq![' '] + if stays {
            word.text@
        } else {
            word.first@ + word.rest@
        },
{
    let a = words@.map_values(|w: crate::codename::CodenameWord| w.shown());
    let b = more@.map_values(|w: crate::codename::CodenameWord| w.shown());
    assert(b[a.len() as int] == word.shown());
    lemma_joined_front(a, b, a.len() as int);
}

proof fn lemma_joined_front(a: Seq<Seq<char>>, b: Seq<Seq<char>>, n: int)
    requires
        n <= a.len(),
        n <= b.len(),
        forall|i: int| 0 <= i < n ==> #[trigger] a[i] == b[i],
    ensures
        crate::codename::joined(a, n) == crate::codename::joined(b, n),
    decreases n,
{
    if n > 1 {
        lemma_joined_front(a, b, n - 1);
        assert(a[n - 1] == b[n - 1]);
    } else if n == 1 {
        assert(a[0] == b[0]);
    }
}

/// A codename with a small letter in it is left alone. Otherwise a single word is left alone
/// when it stays, and else begins with its capital and goes on in small letters.
pub proof fn codenames_are_made_readable(
    raw: &str,
    chars: &[char],
    stays: bool,
    out: String,
)
    requires
        chars@ == raw@,
        call_ensures(crate::codename::prettify_codename, (raw,), out),
        call_ensures(crate::codename::word_stays, (chars,), stays),
    ensures
        (exists|i: int| 0 <= i < raw@.len() && crate::codename::lowercase_letter(#[trigger] raw@[i]))
            ==> out@ == raw@,
        is_word(raw@) && (forall|i: int|
            0 <= i < raw@.len() ==> !crate::codename::lowercase_letter(#[trigger] raw@[i])) ==> out@
            == if stays {
            raw@
        } else {
            crate::codename::capital(raw@[0]) + crate::codename::small_letters(raw@.skip(1))
        },
{
    if is_word(raw@) {
        let s = raw@;
        lemma_word(s);
        let a = lemma_trim_start(s);
        assert(!is_blank(s[0]));
        assert(a == 0);
        assert(trim_start(s) =~= s);
        let n = word_len(s) as int;
        if n < s.len() {
            assert(!is_blank(s[n]));
        }
        assert(s.take(n) =~= s);
        assert(s.skip(n) =~= Seq::<char>::empty());
        let nothing = lemma_trim_start(Seq::empty());
        assert(words(Seq::<char>::empty()) =~= Seq::<Seq<char>>::empty());
        assert(words(s) =~= seq![s]);
        let parts = words(s).map_values(|w: Seq<char>| crate::codename::titled(w));
        assert(parts[0] == crate::codename::titled(s));
        assert(crate::codename::joined(parts, 1) == parts[0]);
    }
}

/// A piece of a text is its first or its last characters.
pub proof fn pieces_are_cut_where_asked(s: &[char], n: usize, front: &[char], back: &[char])
    requires
        n <= s@.len(),
        call_ensures(crate::text::head, (s, n), front),
        call_ensures(crate::text::tail, (s, n), back),
    ensures
        front@.len() == n,
        s@ == front@ + back@,
{
    assert(s@ =~= s@.take(n as int) + s@.skip(n as int));
}

/// A table has its rows in order, as many as it says.
pub proof fn tables_have_their_rows_in_order<V>(
    table: TextTable<V>,
    n: usize,
    empty: bool,
    i: usize,
    j: usize,
    a: &(String, V),
    b: &(String, V),
)
    requires
        call_ensures(TextTable::<V>::len, (&table,), n),
        call_ensures(TextTable::<V>::is_empty, (&table,), empty),
        i < j < n,
        call_ensures(TextTable::<V>::row_at, (&table, i), a),
        call_ensures(TextTable::<V>::row_at, (&table, j), b),
    ensures
        !empty,
        text_lt(a.0@, b.0@),
        n == table.rows().len(),
{
    assert(table.rows()[i as int].0@ == a.0@);
    assert(table.rows()[j as int].0@ == b.0@);
}

} // verus!
