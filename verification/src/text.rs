//! Text as sequences of characters: searching, splitting, number formatting
//! and number parsing.
//!
//! Every function works on the characters of a string. The specifications speak
//! of `Seq<char>`, which is the view of both `str` and `String`.

use vstd::prelude::*;
use vstd::slice::slice_subrange;
use vstd::string::*;

verus! {

/// `String::push` appends one character at the end of the string.
pub assume_specification[ String::push ](s: &mut String, c: char)
    ensures
        final(s)@ == old(s)@.push(c),
;

/// The characters of `s`, in order.
pub fn chars_of(s: &str) -> (out: Vec<char>)
    ensures
        out@ == s@,
{
    let mut out: Vec<char> = Vec::new();
    for c in it: s.chars()
        invariant
            it.seq() == s@,
            out@ == s@.take(it.index() as int),
    {
        out.push(c);
        assert(s@.take(it.index() as int + 1) =~= s@.take(it.index() as int).push(c));
    }
    assert(s@.take(s@.len() as int) =~= s@);
    out
}

/// The string whose characters are `chars`.
pub fn string_of(chars: &[char]) -> (out: String)
    ensures
        out@ == chars@,
{
    let mut out: String = String::new();
    let n: usize = chars.len();
    let mut i: usize = 0;
    while i < n
        invariant
            i <= n,
            n == chars@.len(),
            out@ == chars@.take(i as int),
        decreases n - i,
    {
        out.push(chars[i]);
        assert(chars@.take(i as int + 1) =~= chars@.take(i as int).push(chars@[i as int]));
        i = i + 1;
    }
    assert(chars@.take(n as int) =~= chars@);
    out
}

/// Whether two character sequences are equal.
pub fn same_chars(a: &[char], b: &[char]) -> (same: bool)
    ensures
        same == (a@ == b@),
{
    if a.len() != b.len() {
        return false;
    }
    let n: usize = a.len();
    let mut i: usize = 0;
    while i < n
        invariant
            i <= n,
            n == a@.len(),
            n == b@.len(),
            forall|j: int| 0 <= j < i ==> a@[j] == b@[j],
        decreases n - i,
    {
        if a[i] != b[i] {
            return false;
        }
        i = i + 1;
    }
    assert(a@ =~= b@);
    true
}

/// Whether two strings hold the same characters.
pub fn same_text(a: &str, b: &str) -> (same: bool)
    ensures
        same == (a@ == b@),
{
    let left: Vec<char> = chars_of(a);
    let right: Vec<char> = chars_of(b);
    same_chars(left.as_slice(), right.as_slice())
}

/// Whether two optional strings are equal.
pub fn same_optional_text(a: Option<&str>, b: Option<&str>) -> (same: bool)
    ensures
        same == (optional_view(a) == optional_view(b)),
{
    match (a, b) {
        (None, None) => true,
        (Some(x), Some(y)) => same_text(x, y),
        _ => false,
    }
}

/// The characters of an optional string.
pub open spec fn optional_view(s: Option<&str>) -> Option<Seq<char>> {
    match s {
        Some(x) => Some(x@),
        None => None,
    }
}

/// The characters of an optional owned string.
pub open spec fn optional_text(s: Option<String>) -> Option<Seq<char>> {
    match s {
        Some(x) => Some(x@),
        None => None,
    }
}

/// A copy of an optional string.
pub fn clone_optional(s: &Option<String>) -> (out: Option<String>)
    ensures
        out == *s,
{
    match s {
        Some(x) => Some(x.clone()),
        None => None,
    }
}

/// Borrow an optional string.
pub fn borrow_optional(s: &Option<String>) -> (out: Option<&str>)
    ensures
        optional_view(out) == optional_text(*s),
{
    match s {
        Some(x) => Some(x.as_str()),
        None => None,
    }
}

// ── Searching ───────────────────────────────────────────────────────────────

/// `needle` stands in `s` at position `i`.
pub open spec fn occurs_at(s: Seq<char>, needle: Seq<char>, i: int) -> bool {
    &&& 0 <= i
    &&& i + needle.len() <= s.len()
    &&& s.subrange(i, i + needle.len()) == needle
}

/// `s` begins with `prefix`.
pub open spec fn has_prefix(s: Seq<char>, prefix: Seq<char>) -> bool {
    occurs_at(s, prefix, 0)
}

/// `s` ends with `suffix`.
pub open spec fn has_suffix(s: Seq<char>, suffix: Seq<char>) -> bool {
    occurs_at(s, suffix, s.len() - suffix.len())
}

/// What follows `prefix` in `s`.
pub open spec fn strip_prefix(s: Seq<char>, prefix: Seq<char>) -> Option<Seq<char>> {
    if has_prefix(s, prefix) {
        Some(s.skip(prefix.len() as int))
    } else {
        None
    }
}

/// What precedes `suffix` in `s`.
pub open spec fn strip_suffix(s: Seq<char>, suffix: Seq<char>) -> Option<Seq<char>> {
    if has_suffix(s, suffix) {
        Some(s.take(s.len() - suffix.len()))
    } else {
        None
    }
}

/// The first position at or after `from` where `needle` stands in `s`.
pub open spec fn find_from(s: Seq<char>, needle: Seq<char>, from: int) -> Option<int>
    decreases s.len() - from,
{
    if from < 0 || from + needle.len() > s.len() {
        None
    } else if occurs_at(s, needle, from) {
        Some(from)
    } else if from < s.len() {
        find_from(s, needle, from + 1)
    } else {
        None
    }
}

/// The first position where `needle` stands in `s`.
pub open spec fn find(s: Seq<char>, needle: Seq<char>) -> Option<int> {
    find_from(s, needle, 0)
}

/// The last position at or before `from` where `needle` stands in `s`.
pub open spec fn rfind_from(s: Seq<char>, needle: Seq<char>, from: int) -> Option<int>
    decreases from + 1,
{
    if from < 0 {
        None
    } else if occurs_at(s, needle, from) {
        Some(from)
    } else {
        rfind_from(s, needle, from - 1)
    }
}

/// The last position where `needle` stands in `s`.
pub open spec fn rfind(s: Seq<char>, needle: Seq<char>) -> Option<int> {
    rfind_from(s, needle, s.len() - needle.len())
}

/// The part of `s` before the first `needle`, or all of `s`.
pub open spec fn before_first(s: Seq<char>, needle: Seq<char>) -> Seq<char> {
    match find(s, needle) {
        Some(i) => s.take(i),
        None => s,
    }
}

/// The part of `s` after the first `needle`.
pub open spec fn after_first(s: Seq<char>, needle: Seq<char>) -> Option<Seq<char>> {
    match find(s, needle) {
        Some(i) => Some(s.skip(i + needle.len())),
        None => None,
    }
}

/// The part of `s` after the last `needle`.
pub open spec fn after_last(s: Seq<char>, needle: Seq<char>) -> Option<Seq<char>> {
    match rfind(s, needle) {
        Some(i) => Some(s.skip(i + needle.len())),
        None => None,
    }
}

/// `find_from` names a position where the needle stands, with none before it.
pub proof fn lemma_find_from(s: Seq<char>, needle: Seq<char>, from: int)
    requires
        0 <= from,
    ensures
        match find_from(s, needle, from) {
            Some(i) => from <= i && occurs_at(s, needle, i) && forall|j: int|
                from <= j < i ==> !occurs_at(s, needle, j),
            None => forall|j: int| from <= j ==> !occurs_at(s, needle, j),
        },
    decreases s.len() - from,
{
    if from + needle.len() <= s.len() && !occurs_at(s, needle, from) && from < s.len() {
        lemma_find_from(s, needle, from + 1);
    }
}

fn occurs_here(s: &[char], needle: &[char], i: usize) -> (yes: bool)
    requires
        i + needle@.len() <= s@.len(),
    ensures
        yes == occurs_at(s@, needle@, i as int),
{
    let n: usize = s.len();
    assert(i + needle@.len() <= n);
    let part: &[char] = slice_subrange(s, i, i + needle.len());
    same_chars(part, needle)
}

/// Whether `s` begins with `prefix`.
pub fn starts_with(s: &[char], prefix: &[char]) -> (yes: bool)
    ensures
        yes == has_prefix(s@, prefix@),
{
    prefix.len() <= s.len() && occurs_here(s, prefix, 0)
}

/// Whether `s` ends with `suffix`.
pub fn ends_with(s: &[char], suffix: &[char]) -> (yes: bool)
    ensures
        yes == has_suffix(s@, suffix@),
{
    suffix.len() <= s.len() && occurs_here(s, suffix, s.len() - suffix.len())
}

/// The characters of `s` from position `from` on.
pub fn tail(s: &[char], from: usize) -> (out: &[char])
    requires
        from <= s@.len(),
    ensures
        out@ == s@.skip(from as int),
{
    slice_subrange(s, from, s.len())
}

/// The first `n` characters of `s`.
pub fn head(s: &[char], n: usize) -> (out: &[char])
    requires
        n <= s@.len(),
    ensures
        out@ == s@.take(n as int),
{
    slice_subrange(s, 0, n)
}

/// What follows `prefix` in `s`.
pub fn without_prefix<'a>(s: &'a [char], prefix: &[char]) -> (out: Option<&'a [char]>)
    ensures
        match out {
            Some(rest) => strip_prefix(s@, prefix@) == Some(rest@),
            None => strip_prefix(s@, prefix@) is None,
        },
{
    if starts_with(s, prefix) {
        Some(tail(s, prefix.len()))
    } else {
        None
    }
}

/// What precedes `suffix` in `s`.
pub fn without_suffix<'a>(s: &'a [char], suffix: &[char]) -> (out: Option<&'a [char]>)
    ensures
        match out {
            Some(rest) => strip_suffix(s@, suffix@) == Some(rest@),
            None => strip_suffix(s@, suffix@) is None,
        },
{
    if ends_with(s, suffix) {
        Some(head(s, s.len() - suffix.len()))
    } else {
        None
    }
}

/// The first position where `needle` stands in `s`.
pub fn position(s: &[char], needle: &[char]) -> (at: Option<usize>)
    ensures
        match at {
            Some(i) => find(s@, needle@) == Some(i as int) && i + needle@.len() <= s@.len(),
            None => find(s@, needle@) is None,
        },
{
    let n: usize = s.len();
    let m: usize = needle.len();
    let mut i: usize = 0;
    while i <= n && m <= n - i
        invariant
            n == s@.len(),
            m == needle@.len(),
            i <= n,
            find(s@, needle@) == find_from(s@, needle@, i as int),
        decreases n - i,
    {
        if occurs_here(s, needle, i) {
            return Some(i);
        }
        if i == n {
            return None;
        }
        i = i + 1;
    }
    None
}

/// The last position where `needle` stands in `s`.
pub fn last_position(s: &[char], needle: &[char]) -> (at: Option<usize>)
    ensures
        match at {
            Some(i) => rfind(s@, needle@) == Some(i as int) && i + needle@.len() <= s@.len(),
            None => rfind(s@, needle@) is None,
        },
{
    if needle.len() > s.len() {
        return None;
    }
    let mut i: usize = s.len() - needle.len();
    loop
        invariant
            i + needle@.len() <= s@.len(),
            rfind(s@, needle@) == rfind_from(s@, needle@, i as int),
        decreases i,
    {
        if occurs_here(s, needle, i) {
            return Some(i);
        }
        if i == 0 {
            assert(rfind_from(s@, needle@, -1) is None);
            return None;
        }
        i = i - 1;
    }
}

/// The part of `s` after the first `needle`.
pub fn following<'a>(s: &'a [char], needle: &[char]) -> (out: Option<&'a [char]>)
    ensures
        match out {
            Some(rest) => after_first(s@, needle@) == Some(rest@),
            None => after_first(s@, needle@) is None,
        },
{
    match position(s, needle) {
        Some(i) => {
            let n: usize = s.len();
            assert(i + needle@.len() <= n);
            Some(tail(s, i + needle.len()))
        },
        None => None,
    }
}

/// The part of `s` after the last `needle`.
pub fn following_last<'a>(s: &'a [char], needle: &[char]) -> (out: Option<&'a [char]>)
    ensures
        match out {
            Some(rest) => after_last(s@, needle@) == Some(rest@),
            None => after_last(s@, needle@) is None,
        },
{
    match last_position(s, needle) {
        Some(i) => {
            let n: usize = s.len();
            assert(i + needle@.len() <= n);
            Some(tail(s, i + needle.len()))
        },
        None => None,
    }
}

/// The part of `s` before the first `needle`, or all of `s`.
pub fn preceding<'a>(s: &'a [char], needle: &[char]) -> (out: &'a [char])
    ensures
        out@ == before_first(s@, needle@),
{
    match position(s, needle) {
        Some(i) => head(s, i),
        None => s,
    }
}

// ── Letter case ─────────────────────────────────────────────────────────────

/// `c` with an ASCII capital letter replaced by its small letter.
pub open spec fn lower_char(c: char) -> char {
    if 'A' <= c <= 'Z' {
        (c as u32 + 32) as char
    } else {
        c
    }
}

/// `s` with every ASCII capital letter replaced by its small letter.
pub open spec fn ascii_lower(s: Seq<char>) -> Seq<char> {
    s.map_values(|c: char| lower_char(c))
}

fn lower_one(c: char) -> (out: char)
    ensures
        out == lower_char(c),
{
    if 'A' <= c && c <= 'Z' {
        ((c as u8) + 32) as char
    } else {
        c
    }
}

/// `s` with every ASCII capital letter replaced by its small letter.
pub fn lowercased(s: &[char]) -> (out: Vec<char>)
    ensures
        out@ == ascii_lower(s@),
{
    let mut out: Vec<char> = Vec::new();
    let n: usize = s.len();
    let mut i: usize = 0;
    while i < n
        invariant
            i <= n,
            n == s@.len(),
            out@.len() == i,
            forall|j: int| 0 <= j < i ==> out@[j] == lower_char(s@[j]),
        decreases n - i,
    {
        out.push(lower_one(s[i]));
        i = i + 1;
    }
    assert(out@ =~= ascii_lower(s@));
    out
}

/// `s` with every ASCII capital letter replaced by its small letter.
pub fn lowercase_text(s: &str) -> (out: String)
    ensures
        out@ == ascii_lower(s@),
{
    let chars: Vec<char> = chars_of(s);
    let lower: Vec<char> = lowercased(chars.as_slice());
    string_of(lower.as_slice())
}

// ── Numbers as text ─────────────────────────────────────────────────────────

/// The character of one digit below sixteen, in small letters.
pub open spec fn digit_char(d: nat) -> char {
    if d < 10 {
        (48 + d) as char
    } else {
        (87 + d) as char
    }
}

/// `n` written in base `radix` without leading zeros.
pub open spec fn digits(n: nat, radix: nat) -> Seq<char>
    decreases n,
{
    if n < radix || radix < 2 {
        seq![digit_char(n)]
    } else {
        proof {
            assert(n / radix < n) by (nonlinear_arith)
                requires
                    2 <= radix <= n,
            ;
        }
        digits(n / radix, radix).push(digit_char(n % radix))
    }
}

/// `n` written in decimal.
pub open spec fn decimal(n: nat) -> Seq<char> {
    digits(n, 10)
}

/// `n` written in hexadecimal.
pub open spec fn hex(n: nat) -> Seq<char> {
    digits(n, 16)
}

/// `s` filled up on the left with zeros to at least `width` characters.
pub open spec fn zero_padded(s: Seq<char>, width: nat) -> Seq<char> {
    if s.len() >= width {
        s
    } else {
        Seq::new((width - s.len()) as nat, |i: int| '0') + s
    }
}

/// `n` written in hexadecimal with at least four digits.
pub open spec fn hex4(n: nat) -> Seq<char> {
    zero_padded(hex(n), 4)
}

fn digit_of(d: u64) -> (c: char)
    requires
        d < 16,
    ensures
        c == digit_char(d as nat),
{
    if d < 10 {
        (48 + d as u8) as char
    } else {
        (87 + d as u8) as char
    }
}

fn digit_chars(n: u64, radix: u64) -> (out: Vec<char>)
    requires
        2 <= radix <= 16,
    ensures
        out@ == digits(n as nat, radix as nat),
    decreases n,
{
    if n < radix {
        let mut out: Vec<char> = Vec::new();
        out.push(digit_of(n));
        assert(out@ =~= seq![digit_char(n as nat)]);
        out
    } else {
        assert(n / radix < n) by (nonlinear_arith)
            requires
                2 <= radix <= n,
        ;
        let mut out: Vec<char> = digit_chars(n / radix, radix);
        out.push(digit_of(n % radix));
        out
    }
}

/// `n` written in decimal.
pub fn decimal_text(n: u64) -> (out: String)
    ensures
        out@ == decimal(n as nat),
{
    let chars: Vec<char> = digit_chars(n, 10);
    string_of(chars.as_slice())
}

/// `n` written in hexadecimal.
pub fn hex_text(n: u64) -> (out: String)
    ensures
        out@ == hex(n as nat),
{
    let chars: Vec<char> = digit_chars(n, 16);
    string_of(chars.as_slice())
}

/// `n` written in hexadecimal, filled up with zeros to at least `width` digits.
pub fn padded_hex_text(n: u64, width: usize) -> (out: String)
    ensures
        out@ == zero_padded(hex(n as nat), width as nat),
{
    let chars: Vec<char> = digit_chars(n, 16);
    let mut out: String = String::new();
    if chars.len() < width {
        let fill: usize = width - chars.len();
        let mut i: usize = 0;
        while i < fill
            invariant
                i <= fill,
                out@ == Seq::new(i as nat, |j: int| '0'),
            decreases fill - i,
        {
            out.push('0');
            assert(Seq::new(i as nat, |j: int| '0').push('0') =~= Seq::new(
                (i + 1) as nat,
                |j: int| '0',
            ));
            i = i + 1;
        }
        let body: String = string_of(chars.as_slice());
        out.append(body.as_str());
        out
    } else {
        string_of(chars.as_slice())
    }
}

/// The value of one digit character, or -1.
pub open spec fn digit_value(c: char) -> int {
    if '0' <= c <= '9' {
        c as int - 48
    } else if 'a' <= c <= 'f' {
        c as int - 87
    } else if 'A' <= c <= 'F' {
        c as int - 55
    } else {
        -1
    }
}

/// Every character of `s` is a digit in base `radix`.
pub open spec fn all_digits(s: Seq<char>, radix: int) -> bool {
    forall|i: int| 0 <= i < s.len() ==> 0 <= #[trigger] digit_value(s[i]) < radix
}

/// The number that the digits `s` write in base `radix`.
pub open spec fn digits_value(s: Seq<char>, radix: int) -> int
    decreases s.len(),
{
    if s.len() == 0 {
        0
    } else {
        digits_value(s.drop_last(), radix) * radix + digit_value(s.last())
    }
}

/// `s` without one leading plus sign.
pub open spec fn without_plus(s: Seq<char>) -> Seq<char> {
    if s.len() > 0 && s[0] == '+' {
        s.skip(1)
    } else {
        s
    }
}

/// The number that `s` writes in base `radix`: one optional plus sign and at
/// least one digit, with a value of at most `max`.
pub open spec fn parse_number(s: Seq<char>, radix: int, max: int) -> Option<int> {
    let d = without_plus(s);
    if d.len() > 0 && all_digits(d, radix) && digits_value(d, radix) <= max {
        Some(digits_value(d, radix))
    } else {
        None
    }
}

/// A longer run of digits never writes a smaller number.
pub proof fn lemma_digits_value_grows(s: Seq<char>, n: int, radix: int)
    requires
        0 <= n <= s.len(),
        all_digits(s, radix),
        radix >= 1,
    ensures
        0 <= digits_value(s.take(n), radix) <= digits_value(s, radix),
    decreases s.len(),
{
    if n == s.len() {
        assert(s.take(n) =~= s);
        if n > 0 {
            lemma_digits_value_grows(s.drop_last(), n - 1, radix);
            assert(s.drop_last().take(n - 1) =~= s.drop_last());
            assert(digits_value(s.drop_last(), radix) * radix >= 0) by (nonlinear_arith)
                requires
                    digits_value(s.drop_last(), radix) >= 0,
                    radix >= 1,
            ;
            assert(0 <= digit_value(s[n - 1]));
        }
    } else {
        assert forall|i: int| 0 <= i < s.drop_last().len() implies 0 <= #[trigger] digit_value(
            s.drop_last()[i],
        ) < radix by {
            assert(s.drop_last()[i] == s[i]);
        }
        lemma_digits_value_grows(s.drop_last(), n, radix);
        assert(s.drop_last().take(n) =~= s.take(n));
        assert(digits_value(s.drop_last(), radix) * radix >= digits_value(s.drop_last(), radix))
            by (nonlinear_arith)
            requires
                digits_value(s.drop_last(), radix) >= 0,
                radix >= 1,
        ;
        assert(0 <= digit_value(s[s.len() - 1]));
    }
}

fn value_of_digit(c: char) -> (out: u64)
    ensures
        digit_value(c) >= 0 ==> out == digit_value(c),
        digit_value(c) < 0 ==> out == 16,
{
    if '0' <= c && c <= '9' {
        (c as u64) - 48
    } else if 'a' <= c && c <= 'f' {
        (c as u64) - 87
    } else if 'A' <= c && c <= 'F' {
        (c as u64) - 55
    } else {
        16
    }
}

/// The number that `s` writes in base `radix`, if it is at most `max`.
pub fn parsed_number(s: &[char], radix: u64, max: u64) -> (out: Option<u64>)
    requires
        2 <= radix <= 16,
        max <= 0xffff_ffff,
    ensures
        match out {
            Some(n) => parse_number(s@, radix as int, max as int) == Some(n as int),
            None => parse_number(s@, radix as int, max as int) is None,
        },
{
    let d: &[char] = if s.len() > 0 && s[0] == '+' {
        tail(s, 1)
    } else {
        s
    };
    assert(d@ == without_plus(s@));
    if d.len() == 0 {
        return None;
    }
    let n: usize = d.len();
    let mut value: u64 = 0;
    let mut i: usize = 0;
    while i < n
        invariant
            i <= n,
            n == d@.len(),
            2 <= radix <= 16,
            max <= 0xffff_ffff,
            d@ == without_plus(s@),
            value <= max,
            all_digits(d@.take(i as int), radix as int),
            value == digits_value(d@.take(i as int), radix as int),
        decreases n - i,
    {
        let v: u64 = value_of_digit(d[i]);
        if v >= radix {
            assert(!(0 <= digit_value(d@[i as int]) < radix));
            return None;
        }
        proof {
            let next = d@.take(i as int + 1);
            assert(next.drop_last() =~= d@.take(i as int));
            assert(next.last() == d@[i as int]);
            assert forall|k: int| 0 <= k < next.len() implies 0 <= #[trigger] digit_value(next[k])
                < radix by {
                if k < i {
                    assert(next[k] == d@.take(i as int)[k]);
                }
            }
            assert(value * radix <= max * 16) by (nonlinear_arith)
                requires
                    value <= max,
                    2 <= radix <= 16,
            ;
        }
        value = value * radix + v;
        i = i + 1;
        if value > max {
            proof {
                if all_digits(d@, radix as int) {
                    lemma_digits_value_grows(d@, i as int, radix as int);
                }
            }
            return None;
        }
    }
    assert(d@.take(n as int) =~= d@);
    Some(value)
}

/// The digits of `n` are digits of the base, and their value is `n`.
pub proof fn lemma_digits_value(n: nat, radix: nat)
    requires
        2 <= radix <= 16,
    ensures
        digits(n, radix).len() > 0,
        all_digits(digits(n, radix), radix as int),
        digits_value(digits(n, radix), radix as int) == n,
    decreases n,
{
    let d = digits(n, radix);
    if n < radix {
        assert(d =~= seq![digit_char(n)]);
        assert(d.drop_last() =~= Seq::<char>::empty());
        assert(d.last() == digit_char(n));
        assert(digit_value(digit_char(n)) == n);
        assert(digits_value(d.drop_last(), radix as int) == 0);
    } else {
        assert(n / radix < n) by (nonlinear_arith)
            requires
                2 <= radix <= n,
        ;
        lemma_digits_value(n / radix, radix);
        let front = digits(n / radix, radix);
        assert(d == front.push(digit_char(n % radix)));
        assert(d.drop_last() =~= front);
        assert(n % radix < radix) by (nonlinear_arith)
            requires
                2 <= radix,
        ;
        assert(digit_value(digit_char(n % radix)) == n % radix);
        assert forall|i: int| 0 <= i < d.len() implies 0 <= #[trigger] digit_value(d[i]) < radix by {
            if i < front.len() {
                assert(d[i] == front[i]);
            }
        }
        assert((n / radix) * radix + n % radix == n) by (nonlinear_arith)
            requires
                2 <= radix,
        ;
    }
}

/// A number below 65536 takes at most four hexadecimal digits.
pub proof fn lemma_hex4_len(n: nat)
    requires
        n < 0x1_0000,
    ensures
        hex4(n).len() == 4,
{
    reveal_with_fuel(digits, 5);
}

/// A number below 256 takes at most two hexadecimal digits.
pub proof fn lemma_hex2_len(n: nat)
    requires
        n < 0x100,
    ensures
        zero_padded(hex(n), 2).len() == 2,
        1 <= hex(n).len() <= 2,
{
    reveal_with_fuel(digits, 3);
}

/// Leading zeros change neither the value nor the kind of the characters.
pub proof fn lemma_zero_padded(s: Seq<char>, width: nat, radix: int)
    requires
        all_digits(s, radix),
        radix >= 2,
    ensures
        all_digits(zero_padded(s, width), radix),
        digits_value(zero_padded(s, width), radix) == digits_value(s, radix),
    decreases s.len(), width,
{
    let p = zero_padded(s, width);
    assert forall|i: int| 0 <= i < p.len() implies 0 <= #[trigger] digit_value(p[i]) < radix by {
        let fill = p.len() - s.len();
        if i >= fill {
            assert(p[i] == s[i - fill]);
        }
    }
    if s.len() < width {
        if s.len() == 0 {
            lemma_zeros(width, radix);
            assert(p =~= Seq::new(width, |i: int| '0'));
        } else {
            assert(p.drop_last() =~= zero_padded(s.drop_last(), (width - 1) as nat));
            assert(p.last() == s.last());
            assert forall|i: int| 0 <= i < s.drop_last().len() implies 0 <= #[trigger] digit_value(
                s.drop_last()[i],
            ) < radix by {
                assert(s.drop_last()[i] == s[i]);
            }
            lemma_zero_padded(s.drop_last(), (width - 1) as nat, radix);
        }
    }
}

proof fn lemma_zeros(width: nat, radix: int)
    ensures
        digits_value(Seq::new(width, |i: int| '0'), radix) == 0,
    decreases width,
{
    let z = Seq::new(width, |i: int| '0');
    if width > 0 {
        lemma_zeros((width - 1) as nat, radix);
        assert(z.drop_last() =~= Seq::new((width - 1) as nat, |i: int| '0'));
    }
}

/// The first separator in `a`, separator, `b` stands right after `a`, if `a`
/// holds none.
pub proof fn lemma_find_separator(a: Seq<char>, c: char, b: Seq<char>)
    requires
        forall|i: int| 0 <= i < a.len() ==> a[i] != c,
    ensures
        find(a + seq![c] + b, seq![c]) == Some(a.len() as int),
        before_first(a + seq![c] + b, seq![c]) == a,
        after_first(a + seq![c] + b, seq![c]) == Some(b),
{
    let s = a + seq![c] + b;
    let needle = seq![c];
    assert(s.subrange(a.len() as int, a.len() as int + 1) =~= needle);
    assert(occurs_at(s, needle, a.len() as int));
    assert forall|j: int| 0 <= j < a.len() implies !occurs_at(s, needle, j) by {
        if occurs_at(s, needle, j) {
            assert(s.subrange(j, j + 1)[0] == needle[0]);
            assert(s[j] == a[j]);
        }
    }
    lemma_find_from(s, needle, 0);
    assert(s.take(a.len() as int) =~= a);
    assert(s.skip(a.len() as int + 1) =~= b);
}

/// A text that holds a separator nowhere is all before its first separator.
pub proof fn lemma_no_separator(a: Seq<char>, c: char)
    requires
        forall|i: int| 0 <= i < a.len() ==> a[i] != c,
    ensures
        find(a, seq![c]) is None,
        before_first(a, seq![c]) == a,
{
    lemma_find_from(a, seq![c], 0);
    if let Some(i) = find(a, seq![c]) {
        assert(a.subrange(i, i + 1)[0] == seq![c][0]);
        assert(a[i] == c);
    }
}

/// Digits of a number hold no character that is not a digit.
pub proof fn lemma_digits_clean(s: Seq<char>, radix: int, c: char)
    requires
        all_digits(s, radix),
        digit_value(c) < 0,
    ensures
        forall|i: int| 0 <= i < s.len() ==> s[i] != c,
{
    assert forall|i: int| 0 <= i < s.len() implies s[i] != c by {
        assert(0 <= digit_value(s[i]));
    }
}

// ── Bytes ───────────────────────────────────────────────────────────────────

/// How many bytes a character takes in UTF-8.
pub open spec fn utf8_width(c: char) -> nat {
    if (c as u32) < 0x80 {
        1
    } else if (c as u32) < 0x800 {
        2
    } else if (c as u32) < 0x1_0000 {
        3
    } else {
        4
    }
}

/// How many bytes a text takes in UTF-8.
pub open spec fn byte_len(s: Seq<char>) -> nat
    decreases s.len(),
{
    if s.len() == 0 {
        0
    } else {
        byte_len(s.drop_last()) + utf8_width(s.last())
    }
}

/// How many bytes a character takes in UTF-8.
pub fn width_of(c: char) -> (width: usize)
    ensures
        width == utf8_width(c),
{
    let code: u32 = c as u32;
    if code < 0x80 {
        1
    } else if code < 0x800 {
        2
    } else if code < 0x1_0000 {
        3
    } else {
        4
    }
}

/// `s` without its last `bytes` bytes of UTF-8; `None` when it is shorter or when
/// the cut would divide a character.
pub open spec fn without_last_bytes(s: Seq<char>, bytes: int) -> Option<Seq<char>>
    decreases s.len(),
{
    if bytes == 0 {
        Some(s)
    } else if bytes < 0 || s.len() == 0 {
        None
    } else {
        without_last_bytes(s.drop_last(), bytes - utf8_width(s.last()))
    }
}

/// `s` without its last `bytes` bytes of UTF-8.
pub fn cut_last_bytes(s: &[char], bytes: usize) -> (out: Option<&[char]>)
    ensures
        match out {
            Some(rest) => without_last_bytes(s@, bytes as int) == Some(rest@),
            None => without_last_bytes(s@, bytes as int) is None,
        },
{
    let mut n: usize = s.len();
    let mut left: usize = bytes;
    assert(s@.take(n as int) =~= s@);
    while left > 0 && n > 0
        invariant
            n <= s@.len(),
            without_last_bytes(s@, bytes as int) == without_last_bytes(
                s@.take(n as int),
                left as int,
            ),
        decreases n,
    {
        let width: usize = width_of(s[n - 1]);
        assert(s@.take(n as int).drop_last() =~= s@.take(n as int - 1));
        if width > left {
            proof {
                reveal_with_fuel(without_last_bytes, 2);
            }
            return None;
        }
        left = left - width;
        n = n - 1;
    }
    if left == 0 {
        Some(head(s, n))
    } else {
        None
    }
}

// ── White space ─────────────────────────────────────────────────────────────

/// A character with the Unicode property `White_Space`.
pub open spec fn white_space(c: char) -> bool {
    let code = c as int;
    ||| 0x09 <= code <= 0x0d
    ||| code == 0x20
    ||| code == 0x85
    ||| code == 0xa0
    ||| code == 0x1680
    ||| 0x2000 <= code <= 0x200a
    ||| code == 0x2028
    ||| code == 0x2029
    ||| code == 0x202f
    ||| code == 0x205f
    ||| code == 0x3000
}

fn is_space(c: char) -> (yes: bool)
    ensures
        yes == white_space(c),
{
    let code: u32 = c as u32;
    (0x09 <= code && code <= 0x0d) || code == 0x20 || code == 0x85 || code == 0xa0 || code == 0x1680
        || (0x2000 <= code && code <= 0x200a) || code == 0x2028 || code == 0x2029 || code == 0x202f
        || code == 0x205f || code == 0x3000
}

/// `s` without the white space at its start.
pub open spec fn trim_start(s: Seq<char>) -> Seq<char>
    decreases s.len(),
{
    if s.len() > 0 && white_space(s[0]) {
        trim_start(s.skip(1))
    } else {
        s
    }
}

/// `s` without the white space at its end.
pub open spec fn trim_end(s: Seq<char>) -> Seq<char>
    decreases s.len(),
{
    if s.len() > 0 && white_space(s.last()) {
        trim_end(s.drop_last())
    } else {
        s
    }
}

/// `s` without the white space at its two ends.
pub open spec fn trim(s: Seq<char>) -> Seq<char> {
    trim_end(trim_start(s))
}

/// How many characters stand at the start of `s` before any white space.
pub open spec fn word_len(s: Seq<char>) -> nat
    decreases s.len(),
{
    if s.len() > 0 && !white_space(s[0]) {
        1 + word_len(s.skip(1))
    } else {
        0
    }
}

pub proof fn lemma_word_len(s: Seq<char>)
    ensures
        word_len(s) <= s.len(),
        s.len() > 0 && !white_space(s[0]) ==> word_len(s) > 0,
    decreases s.len(),
{
    if s.len() > 0 && !white_space(s[0]) {
        lemma_word_len(s.skip(1));
    }
}

pub proof fn lemma_trim_start(s: Seq<char>)
    ensures
        trim_start(s).len() <= s.len(),
        trim_start(s).len() > 0 ==> !white_space(trim_start(s)[0]),
    decreases s.len(),
{
    if s.len() > 0 && white_space(s[0]) {
        lemma_trim_start(s.skip(1));
    }
}

/// The words of `s`: its longest runs of characters that are not white space.
pub open spec fn words(s: Seq<char>) -> Seq<Seq<char>>
    decreases s.len(),
{
    let t = trim_start(s);
    if t.len() == 0 || word_len(t) == 0 || word_len(t) > t.len() || t.len() > s.len() {
        Seq::empty()
    } else {
        seq![t.take(word_len(t) as int)] + words(t.skip(word_len(t) as int))
    }
}

/// `s` without the white space at its start.
pub fn trimmed_start(s: &[char]) -> (out: &[char])
    ensures
        out@ == trim_start(s@),
{
    let n: usize = s.len();
    let mut i: usize = 0;
    assert(s@.skip(0) =~= s@);
    while i < n && is_space(s[i])
        invariant
            i <= n,
            n == s@.len(),
            trim_start(s@) == trim_start(s@.skip(i as int)),
        ensures
            i <= n,
            trim_start(s@) == trim_start(s@.skip(i as int)),
            i < n ==> !white_space(s@[i as int]),
        decreases n - i,
    {
        assert(s@.skip(i as int).skip(1) =~= s@.skip(i as int + 1));
        i = i + 1;
    }
    tail(s, i)
}

/// `s` without the white space at its end.
pub fn trimmed_end(s: &[char]) -> (out: &[char])
    ensures
        out@ == trim_end(s@),
{
    let mut n: usize = s.len();
    assert(s@.take(n as int) =~= s@);
    while n > 0 && is_space(s[n - 1])
        invariant
            n <= s@.len(),
            trim_end(s@) == trim_end(s@.take(n as int)),
        ensures
            n <= s@.len(),
            trim_end(s@) == trim_end(s@.take(n as int)),
            n > 0 ==> !white_space(s@[n - 1]),
        decreases n,
    {
        assert(s@.take(n as int).drop_last() =~= s@.take(n as int - 1));
        n = n - 1;
    }
    head(s, n)
}

/// `s` without the white space at its two ends.
pub fn trimmed(s: &[char]) -> (out: &[char])
    ensures
        out@ == trim(s@),
{
    trimmed_end(trimmed_start(s))
}

fn first_word_len(s: &[char]) -> (out: usize)
    ensures
        out == word_len(s@),
        out <= s@.len(),
{
    let n: usize = s.len();
    let mut i: usize = 0;
    assert(s@.skip(0) =~= s@);
    while i < n && !is_space(s[i])
        invariant
            i <= n,
            n == s@.len(),
            word_len(s@) == i + word_len(s@.skip(i as int)),
        ensures
            i <= n,
            word_len(s@) == i + word_len(s@.skip(i as int)),
            i < n ==> white_space(s@[i as int]),
        decreases n - i,
    {
        assert(s@.skip(i as int).skip(1) =~= s@.skip(i as int + 1));
        i = i + 1;
    }
    i
}

/// The words of `s`.
pub fn split_words(s: &[char]) -> (out: Vec<Vec<char>>)
    ensures
        out@.len() == words(s@).len(),
        forall|i: int| 0 <= i < out@.len() ==> (#[trigger] out@[i])@ == words(s@)[i],
{
    let mut out: Vec<Vec<char>> = Vec::new();
    let mut rest: &[char] = s;
    loop
        invariant
            out@.len() <= words(s@).len(),
            forall|i: int| 0 <= i < out@.len() ==> (#[trigger] out@[i])@ == words(s@)[i],
            words(s@).skip(out@.len() as int) == words(rest@),
        decreases rest@.len(),
    {
        let t: &[char] = trimmed_start(rest);
        proof {
            lemma_trim_start(rest@);
            lemma_word_len(t@);
        }
        if t.len() == 0 {
            assert(words(rest@).len() == 0);
            return out;
        }
        let k: usize = first_word_len(t);
        let ghost before = words(s@).skip(out@.len() as int);
        assert(before[0] == t@.take(k as int));
        assert(before.len() > 0);
        let word: &[char] = head(t, k);
        let mut copy: Vec<char> = Vec::new();
        copy.extend_from_slice(word);
        assert(copy@ =~= word@);
        out.push(copy);
        rest = tail(t, k);
        assert(words(s@).skip(out@.len() as int) =~= before.skip(1));
        assert(before.skip(1) =~= words(rest@));
    }
}

} // verus!
