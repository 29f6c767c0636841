//! Tidying firmware codenames for display.

use vstd::prelude::*;
use vstd::string::*;

use crate::text::{byte_len, chars_of, split_words, string_of, tail, width_of, words};

verus! {

/// Whether a character has the Unicode property `Lowercase`.
pub uninterp spec fn lowercase_letter(c: char) -> bool;

/// `char::is_lowercase` tells whether a character has the Unicode property
/// `Lowercase`.
#[verifier::external_body]
fn is_lowercase(c: char) -> (yes: bool)
    ensures
        yes == lowercase_letter(c),
{
    c.is_lowercase()
}

/// The Unicode capital form of a character: one or more characters.
pub uninterp spec fn capital(c: char) -> Seq<char>;

/// `char::to_uppercase` yields the Unicode capital form of a character, here
/// as a text.
#[verifier::external_body]
fn capital_of(c: char) -> (out: String)
    ensures
        out@ == capital(c),
{
    c.to_uppercase().to_string()
}

/// The Unicode small-letter form of a text.
pub uninterp spec fn small_letters(s: Seq<char>) -> Seq<char>;

/// `str::to_lowercase` returns the Unicode small-letter form of a text.
#[verifier::external_body]
fn small_letters_of(s: &str) -> (out: String)
    ensures
        out@ == small_letters(s@),
{
    s.to_lowercase()
}

/// A word that stays as it is: at most three bytes long, or with a decimal digit.
pub open spec fn stays(word: Seq<char>) -> bool {
    byte_len(word) <= 3 || exists|i: int| 0 <= i < word.len() && '0' <= #[trigger] word[i] <= '9'
}

/// Whether a word stays as it is: short acronyms and model numbers do.
pub fn word_stays(word: &[char]) -> (yes: bool)
    ensures
        yes == stays(word@),
{
    let n: usize = word.len();
    let mut bytes: usize = 0;
    let mut i: usize = 0;
    while i < n
        invariant
            i <= n,
            n == word@.len(),
            bytes <= 7,
            bytes > 3 ==> byte_len(word@.take(i as int)) > 3,
            bytes <= 3 ==> bytes == byte_len(word@.take(i as int)),
            forall|k: int| 0 <= k < i ==> !('0' <= #[trigger] word@[k] <= '9'),
        decreases n - i,
    {
        let c: char = word[i];
        if '0' <= c && c <= '9' {
            assert('0' <= word@[i as int] <= '9');
            return true;
        }
        proof {
            assert(word@.take(i as int + 1).drop_last() =~= word@.take(i as int));
        }
        let width: usize = width_of(c);
        if bytes <= 3 {
            bytes = bytes + width;
        }
        i = i + 1;
    }
    assert(word@.take(n as int) =~= word@);
    bytes <= 3
}

/// A word of a codename with the case mappings that it needs: the capital form of
/// its first character and the small-letter form of the others.
#[derive(Debug)]
pub struct CodenameWord {
    /// The word itself.
    pub text: Vec<char>,
    /// The capital form of its first character.
    pub first: String,
    /// The small-letter form of the other characters.
    pub rest: String,
}

impl CodenameWord {
    /// The word as it is shown.
    pub open spec fn shown(self) -> Seq<char> {
        if stays(self.text@) {
            self.text@
        } else {
            self.first@ + self.rest@
        }
    }
}

/// Words joined with blanks, the first `n` of them.
pub open spec fn joined(parts: Seq<Seq<char>>, n: int) -> Seq<char>
    decreases n,
{
    if n <= 0 {
        Seq::empty()
    } else if n == 1 {
        parts[0]
    } else {
        joined(parts, n - 1) + seq![' '] + parts[n - 1]
    }
}

/// The words as they are shown, joined with blanks.
pub fn join_words(parts: &Vec<CodenameWord>) -> (out: String)
    ensures
        out@ == joined(parts@.map_values(|w: CodenameWord| w.shown()), parts@.len() as int),
{
    let ghost shown = parts@.map_values(|w: CodenameWord| w.shown());
    let mut out: String = String::new();
    let n: usize = parts.len();
    let mut i: usize = 0;
    while i < n
        invariant
            i <= n,
            n == parts@.len(),
            shown == parts@.map_values(|w: CodenameWord| w.shown()),
            out@ == joined(shown, i as int),
        decreases n - i,
    {
        let ghost before = out@;
        if i > 0 {
            out.push(' ');
        }
        assert(shown[i as int] == parts@[i as int].shown());
        if word_stays(parts[i].text.as_slice()) {
            let word: String = string_of(parts[i].text.as_slice());
            out.append(word.as_str());
        } else {
            out.append(parts[i].first.as_str());
            out.append(parts[i].rest.as_str());
        }
        assert(i > 0 ==> out@ =~= before + seq![' '] + shown[i as int]);
        assert(i == 0 ==> out@ =~= shown[0]);
        i = i + 1;
    }
    out
}

/// A word in title case: its first character as a capital, the others in small
/// letters. Words that stay, stay.
pub open spec fn titled(word: Seq<char>) -> Seq<char> {
    if stays(word) {
        word
    } else {
        capital(word[0]) + small_letters(word.skip(1))
    }
}

/// A codename as it is shown: as it is when any letter is a small one, else every
/// word in title case.
pub open spec fn pretty(raw: Seq<char>) -> Seq<char> {
    if exists|i: int| 0 <= i < raw.len() && lowercase_letter(#[trigger] raw[i]) {
        raw
    } else {
        let parts = words(raw).map_values(|w: Seq<char>| titled(w));
        joined(parts, parts.len() as int)
    }
}

/// Tidy a firmware codename for display when no curated name exists.
///
/// Gaming codenames come in capitals: each word is put into title case, while
/// model numbers (words with a digit) and short acronyms stay. A codename already
/// in mixed case is returned unchanged.
pub fn prettify_codename(raw: &str) -> (out: String)
    ensures
        out@ == pretty(raw@),
{
    let chars: Vec<char> = chars_of(raw);
    let len: usize = chars.len();
    let mut k: usize = 0;
    while k < len
        invariant
            k <= len,
            len == chars@.len(),
            chars@ == raw@,
            forall|i: int| 0 <= i < k ==> !lowercase_letter(#[trigger] raw@[i]),
        decreases len - k,
    {
        if is_lowercase(chars[k]) {
            assert(lowercase_letter(raw@[k as int]));
            return raw.to_string();
        }
        k = k + 1;
    }
    let found: Vec<Vec<char>> = split_words(chars.as_slice());
    let mut parts: Vec<CodenameWord> = Vec::new();
    let n: usize = found.len();
    let mut i: usize = 0;
    while i < n
        invariant
            i <= n,
            n == found@.len(),
            n == words(raw@).len(),
            forall|j: int| 0 <= j < n ==> (#[trigger] found@[j])@ == words(raw@)[j],
            parts@.len() == i,
            forall|j: int| 0 <= j < i ==> (#[trigger] parts@[j]).shown() == titled(words(raw@)[j]),
        decreases n - i,
    {
        let mut text: Vec<char> = Vec::new();
        text.extend_from_slice(found[i].as_slice());
        assert(text@ =~= words(raw@)[i as int]);
        let part: CodenameWord = if text.len() > 0 {
            let first: String = capital_of(text[0]);
            let tail_text: String = string_of(tail(text.as_slice(), 1));
            let rest: String = small_letters_of(tail_text.as_str());
            CodenameWord { text, first, rest }
        } else {
            CodenameWord { text, first: String::new(), rest: String::new() }
        };
        assert(part.shown() == titled(words(raw@)[i as int]));
        parts.push(part);
        i = i + 1;
    }
    assert(parts@.map_values(|w: CodenameWord| w.shown()) =~= words(raw@).map_values(
        |w: Seq<char>| titled(w),
    ));
    join_words(&parts)
}

} // verus!
