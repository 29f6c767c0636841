//! Addresses of files and folders, as a browser or a file manager opens them.
//!
//! The addresses are those of `url::Url::from_file_path` for paths whose separator is
//! `/`. The crate itself reads paths as the platform does that it was built for; here
//! one path has one address everywhere.

use vstd::prelude::*;
use vstd::string::*;
use vstd::utf8::encode_scalar;

use crate::text::chars_of;

verus! {

// ── Bytes of characters ─────────────────────────────────────────────────────

/// The bytes of one character in UTF-8.
pub open spec fn utf8_bytes(c: char) -> Seq<u8> {
    let code = c as int;
    if code < 0x80 {
        seq![code as u8]
    } else if code < 0x800 {
        seq![(0xc0 + code / 0x40) as u8, (0x80 + code % 0x40) as u8]
    } else if code < 0x10000 {
        seq![
            (0xe0 + code / 0x1000) as u8,
            (0x80 + code / 0x40 % 0x40) as u8,
            (0x80 + code % 0x40) as u8,
        ]
    } else {
        seq![
            (0xf0 + code / 0x40000) as u8,
            (0x80 + code / 0x1000 % 0x40) as u8,
            (0x80 + code / 0x40 % 0x40) as u8,
            (0x80 + code % 0x40) as u8,
        ]
    }
}

fn bytes_of(c: char) -> (bytes: Vec<u8>)
    ensures
        bytes@ == utf8_bytes(c),
{
    let code: u32 = c as u32;
    let mut bytes: Vec<u8> = Vec::new();
    if code < 0x80 {
        bytes.push(code as u8);
    } else {
        if code < 0x800 {
            bytes.push((0xc0 + code / 0x40) as u8);
        } else {
            if code < 0x10000 {
                bytes.push((0xe0 + code / 0x1000) as u8);
            } else {
                bytes.push((0xf0 + code / 0x40000) as u8);
                bytes.push((0x80 + code / 0x1000 % 0x40) as u8);
            }
            bytes.push((0x80 + code / 0x40 % 0x40) as u8);
        }
        bytes.push((0x80 + code % 0x40) as u8);
    }
    assert(bytes@ =~= utf8_bytes(c));
    bytes
}

/// The bytes of a character are those of UTF-8.
pub proof fn characters_are_written_in_utf8(c: char)
    ensures
        utf8_bytes(c) == encode_scalar(c as u32),
{
    let code: u32 = c as u32;
    assert(code < 0x80 ==> (code & 0x7f) as u8 == code as u8) by (bit_vector);
    assert(code < 0x800 ==> 0xc0u8 | ((code >> 6) & 0x1f) as u8 == (0xc0 + code / 0x40) as u8)
        by (bit_vector);
    assert(code < 0x10000 ==> 0xe0u8 | ((code >> 12) & 0x0f) as u8 == (0xe0 + code / 0x1000) as u8)
        by (bit_vector);
    assert(code < 0x110000 ==> 0xf0u8 | ((code >> 18) & 0x7) as u8 == (0xf0 + code / 0x40000) as u8)
        by (bit_vector);
    assert(0x80u8 | (code & 0x3f) as u8 == (0x80 + code % 0x40) as u8) by (bit_vector);
    assert(0x80u8 | ((code >> 6) & 0x3f) as u8 == (0x80 + code / 0x40 % 0x40) as u8)
        by (bit_vector);
    assert(0x80u8 | ((code >> 12) & 0x3f) as u8 == (0x80 + code / 0x1000 % 0x40) as u8)
        by (bit_vector);
    assert(utf8_bytes(c) =~= encode_scalar(c as u32));
}

// ── Escapes ─────────────────────────────────────────────────────────────────

/// A character that cannot stand for itself in a segment of an address: a control, a
/// blank, one of `"`, `#`, `%`, `/`, `<`, `>`, `?`, `\`, `` ` ``, `{`, `}`, or one
/// outside ASCII.
pub open spec fn needs_escape(c: char) -> bool {
    c <= ' ' || c as int >= 0x7f || c == '"' || c == '#' || c == '%' || c == '/' || c == '<' || c
        == '>' || c == '?' || c == '\\' || c == '`' || c == '{' || c == '}'
}

/// The character of one digit below sixteen, in capital letters.
pub open spec fn capital_digit(d: int) -> char {
    if d < 10 {
        (48 + d) as char
    } else {
        (55 + d) as char
    }
}

/// Every byte as a percent sign and its two digits in base sixteen.
pub open spec fn percent_bytes(bytes: Seq<u8>) -> Seq<char>
    decreases bytes.len(),
{
    if bytes.len() == 0 {
        Seq::empty()
    } else {
        percent_bytes(bytes.drop_last()) + seq![
            '%',
            capital_digit(bytes.last() as int / 16),
            capital_digit(bytes.last() as int % 16),
        ]
    }
}

/// One character of a segment: itself, or its bytes escaped.
pub open spec fn escaped(c: char) -> Seq<char> {
    if needs_escape(c) {
        percent_bytes(utf8_bytes(c))
    } else {
        seq![c]
    }
}

/// `s` with every character written as [`escaped`] does.
pub open spec fn percent_encoded(s: Seq<char>) -> Seq<char>
    decreases s.len(),
{
    if s.len() == 0 {
        Seq::empty()
    } else {
        percent_encoded(s.drop_last()) + escaped(s.last())
    }
}

fn is_escaped(c: char) -> (yes: bool)
    ensures
        yes == needs_escape(c),
{
    c <= ' ' || c as u32 >= 0x7f || c == '"' || c == '#' || c == '%' || c == '/' || c == '<' || c
        == '>' || c == '?' || c == '\\' || c == '`' || c == '{' || c == '}'
}

fn digit_of(d: u8) -> (c: char)
    requires
        d < 16,
    ensures
        c == capital_digit(d as int),
{
    if d < 10 {
        (48 + d) as char
    } else {
        (55 + d) as char
    }
}

fn append_bytes(text: &mut String, bytes: &[u8])
    ensures
        final(text)@ == old(text)@ + percent_bytes(bytes@),
{
    let n: usize = bytes.len();
    let ghost before = text@;
    let mut i: usize = 0;
    assert(text@ =~= before + percent_bytes(bytes@.take(0)));
    while i < n
        invariant
            i <= n,
            n == bytes@.len(),
            text@ == before + percent_bytes(bytes@.take(i as int)),
        decreases n - i,
    {
        let b: u8 = bytes[i];
        assert(bytes@.take(i as int + 1).drop_last() =~= bytes@.take(i as int));
        text.push('%');
        text.push(digit_of(b / 16));
        text.push(digit_of(b % 16));
        i = i + 1;
        assert(text@ =~= before + percent_bytes(bytes@.take(i as int)));
    }
    assert(bytes@.take(n as int) =~= bytes@);
}

/// Write `s` behind `text`, escaped.
fn append_encoded(text: &mut String, s: &[char])
    ensures
        final(text)@ == old(text)@ + percent_encoded(s@),
{
    let n: usize = s.len();
    let ghost before = text@;
    let mut i: usize = 0;
    assert(text@ =~= before + percent_encoded(s@.take(0)));
    while i < n
        invariant
            i <= n,
            n == s@.len(),
            text@ == before + percent_encoded(s@.take(i as int)),
        decreases n - i,
    {
        let c: char = s[i];
        assert(s@.take(i as int + 1).drop_last() =~= s@.take(i as int));
        if is_escaped(c) {
            let bytes: Vec<u8> = bytes_of(c);
            append_bytes(text, bytes.as_slice());
        } else {
            text.push(c);
        }
        i = i + 1;
        assert(text@ =~= before + percent_encoded(s@.take(i as int)));
    }
    assert(s@.take(n as int) =~= s@);
}

// ── Paths ───────────────────────────────────────────────────────────────────

/// What stands between the separators of a path, before the first and behind the
/// last.
pub open spec fn segments(path: Seq<char>) -> Seq<Seq<char>>
    decreases path.len(),
{
    if path.len() == 0 {
        seq![Seq::empty()]
    } else {
        let front = segments(path.drop_last());
        if path.last() == '/' {
            front.push(Seq::empty())
        } else {
            front.drop_last().push(front.last().push(path.last()))
        }
    }
}

/// A segment that leads somewhere: it is not empty and not a single dot.
pub open spec fn leads(segment: Seq<char>) -> bool {
    segment.len() > 0 && !(segment.len() == 1 && segment[0] == '.')
}

/// The segments that lead somewhere, each escaped and behind a separator.
pub open spec fn joined(segments: Seq<Seq<char>>) -> Seq<char>
    decreases segments.len(),
{
    if segments.len() == 0 {
        Seq::empty()
    } else if leads(segments.last()) {
        joined(segments.drop_last()).push('/') + percent_encoded(segments.last())
    } else {
        joined(segments.drop_last())
    }
}

/// A path that starts at the root.
pub open spec fn is_absolute(path: Seq<char>) -> bool {
    path.len() > 0 && path[0] == '/'
}

/// The address of an absolute path: `file://` and the path, its segments escaped,
/// without empty ones and single dots. The root is one separator.
pub open spec fn address(path: Seq<char>) -> Seq<char> {
    let text = joined(segments(path));
    "file://"@ + if text.len() == 0 {
        seq!['/']
    } else {
        text
    }
}

/// Write a segment and the separator before it behind `text`, if it leads somewhere.
fn append_segment(text: &mut String, segment: &[char])
    ensures
        final(text)@ == if leads(segment@) {
            old(text)@.push('/') + percent_encoded(segment@)
        } else {
            old(text)@
        },
{
    if segment.len() == 0 || (segment.len() == 1 && segment[0] == '.') {
        return ;
    }
    text.push('/');
    append_encoded(text, segment);
}

/// The address of a file or folder, as `url::Url::from_file_path` gives it for a path
/// whose separator is `/`. A path that does not start at the root has none.
pub fn file_url(path: &str) -> (url: Option<String>)
    ensures
        match url {
            Some(url) => is_absolute(path@) && url@ == address(path@),
            None => !is_absolute(path@),
        },
{
    let chars: Vec<char> = chars_of(path);
    let n: usize = chars.len();
    if n == 0 || chars[0] != '/' {
        return None;
    }
    let mut text: String = String::new();
    let mut segment: Vec<char> = Vec::new();
    let ghost mut done: Seq<Seq<char>> = Seq::empty();
    let mut i: usize = 0;
    assert(segments(chars@.take(0)) =~= done.push(segment@));
    while i < n
        invariant
            i <= n,
            n == chars@.len(),
            segments(chars@.take(i as int)) == done.push(segment@),
            text@ == joined(done),
        decreases n - i,
    {
        let c: char = chars[i];
        assert(chars@.take(i as int + 1).drop_last() =~= chars@.take(i as int));
        assert(done.push(segment@).drop_last() =~= done);
        if c == '/' {
            append_segment(&mut text, segment.as_slice());
            proof {
                done = done.push(segment@);
            }
            segment = Vec::new();
        } else {
            segment.push(c);
        }
        i = i + 1;
        assert(segments(chars@.take(i as int)) =~= done.push(segment@));
    }
    assert(chars@.take(n as int) =~= path@);
    assert(done.push(segment@).drop_last() =~= done);
    append_segment(&mut text, segment.as_slice());
    let mut url: String = "file://".to_string();
    if text.as_str().is_empty() {
        url.push('/');
        assert(url@ =~= address(path@));
    } else {
        url.append(text.as_str());
    }
    Some(url)
}

// ── Laws ────────────────────────────────────────────────────────────────────

/// A character that stands for itself in an address, parts its segments, or begins an
/// escape.
pub open spec fn is_plain(c: char) -> bool {
    c == '%' || c == '/' || !needs_escape(c)
}

proof fn lemma_bytes_are_plain(bytes: Seq<u8>)
    ensures
        forall|i: int|
            0 <= i < percent_bytes(bytes).len() ==> is_plain(#[trigger] percent_bytes(bytes)[i]),
    decreases bytes.len(),
{
    if bytes.len() > 0 {
        lemma_bytes_are_plain(bytes.drop_last());
        let front = percent_bytes(bytes.drop_last());
        assert forall|i: int| 0 <= i < percent_bytes(bytes).len() implies is_plain(
            #[trigger] percent_bytes(bytes)[i],
        ) by {
            if i < front.len() {
                assert(percent_bytes(bytes)[i] == front[i]);
            }
        }
    }
}

proof fn lemma_encoded_is_plain(s: Seq<char>)
    ensures
        forall|i: int|
            0 <= i < percent_encoded(s).len() ==> is_plain(#[trigger] percent_encoded(s)[i]),
    decreases s.len(),
{
    if s.len() > 0 {
        lemma_encoded_is_plain(s.drop_last());
        lemma_bytes_are_plain(utf8_bytes(s.last()));
        let front = percent_encoded(s.drop_last());
        assert forall|i: int| 0 <= i < percent_encoded(s).len() implies is_plain(
            #[trigger] percent_encoded(s)[i],
        ) by {
            if i < front.len() {
                assert(percent_encoded(s)[i] == front[i]);
            } else {
                assert(percent_encoded(s)[i] == escaped(s.last())[i - front.len()]);
            }
        }
    }
}

proof fn lemma_joined_is_plain(segments: Seq<Seq<char>>)
    ensures
        forall|i: int|
            0 <= i < joined(segments).len() ==> is_plain(#[trigger] joined(segments)[i]),
    decreases segments.len(),
{
    if segments.len() > 0 {
        lemma_joined_is_plain(segments.drop_last());
        lemma_encoded_is_plain(segments.last());
        let front = joined(segments.drop_last());
        assert forall|i: int| 0 <= i < joined(segments).len() implies is_plain(
            #[trigger] joined(segments)[i],
        ) by {
            if i < front.len() {
                assert(joined(segments)[i] == front[i]);
            } else if i > front.len() {
                assert(joined(segments)[i] == percent_encoded(segments.last())[i - front.len()
                    - 1]);
            }
        }
    }
}

/// An address holds no blank, and nothing else that would end it early or have to be
/// guessed: no quotation mark, question mark or number sign, no control and no
/// character outside ASCII.
pub proof fn addresses_hold_no_blanks(path: Seq<char>)
    ensures
        !address(path).contains(' '),
        forall|i: int| 0 <= i < address(path).len() ==> is_plain(#[trigger] address(path)[i]),
{
    reveal_strlit("file://");
    let text = joined(segments(path));
    lemma_joined_is_plain(segments(path));
    assert forall|i: int| 0 <= i < address(path).len() implies is_plain(
        #[trigger] address(path)[i],
    ) by {
        if i >= 7 && text.len() > 0 {
            assert(address(path)[i] == text[i - 7]);
        }
    }
}

} // verus!
