//! Lightweight text heuristics: which posts look like factual claims and
//! which are uncivil.
//!
//! Texts are measured in characters. Matching is done on the lowercased
//! text, so cue phrases, links and markers are found whatever their case.

use vstd::prelude::*;

verus! {

/// What `str::to_lowercase` makes of a text.
pub uninterp spec fn lowercased(text: Seq<char>) -> Seq<char>;

/// The character has Unicode's `White_Space` property: a tab, a line
/// break, a space, or one of the other blank characters of the list.
pub open spec fn is_whitespace(c: char) -> bool {
    ||| '\u{9}' <= c <= '\u{d}'
    ||| c == ' '
    ||| c == '\u{85}'
    ||| c == '\u{a0}'
    ||| c == '\u{1680}'
    ||| '\u{2000}' <= c <= '\u{200a}'
    ||| c == '\u{2028}'
    ||| c == '\u{2029}'
    ||| c == '\u{202f}'
    ||| c == '\u{205f}'
    ||| c == '\u{3000}'
}

/// Calls `str::to_lowercase`. The result is a function of the text alone;
/// the contract gives it the name [`lowercased`] and claims nothing else.
#[verifier::external_body]
fn lowercase(text: &str) -> (lower: String)
    ensures
        lower@ == lowercased(text@),
{
    text.to_lowercase()
}

/// Calls `char::is_whitespace`, which holds of the characters with
/// Unicode's `White_Space` property; the contract lists them.
#[verifier::external_body]
fn char_is_whitespace(c: char) -> (yes: bool)
    ensures
        yes == is_whitespace(c),
{
    c.is_whitespace()
}

/// A text with every `from` replaced by `to`.
pub open spec fn replaced(text: Seq<char>, from: char, to: Seq<char>) -> Seq<char>
    decreases text.len(),
{
    if text.len() == 0 {
        Seq::empty()
    } else {
        replaced(text.drop_last(), from, to) + if text.last() == from {
            to
        } else {
            seq![text.last()]
        }
    }
}

/// Calls `str::replace` with a character as the pattern: every occurrence
/// of the character gives way to the replacement text, and every other
/// character stays where it is.
#[verifier::external_body]
pub(crate) fn replace_char(text: &str, from: char, to: &str) -> (r: String)
    ensures
        r@ == replaced(text@, from, to@),
{
    text.replace(from, to)
}

/// The minimum length, in characters, of a text that can look like a claim.
pub const CLAIM_MIN_CHARS: usize = 40;

/// The minimum number of whitespace-delimited words of such a text.
pub const CLAIM_MIN_WORDS: usize = 8;

/// A text must be longer than this, in characters, to count for civility.
pub const CIVILITY_MIN_CHARS: usize = 5;

/// `needle` stands in `hay` at position `i`.
pub open spec fn occurs_at(needle: Seq<char>, hay: Seq<char>, i: int) -> bool {
    &&& 0 <= i
    &&& i + needle.len() <= hay.len()
    &&& hay.subrange(i, i + needle.len()) == needle
}

/// `needle` stands somewhere in `hay`.
pub open spec fn occurs_in(needle: Seq<char>, hay: Seq<char>) -> bool {
    exists|i: int| occurs_at(needle, hay, i)
}

/// One of the ten ASCII digits.
pub open spec fn is_digit(c: char) -> bool {
    '0' <= c && c <= '9'
}

/// Some character of the text is an ASCII digit.
pub open spec fn has_digit(t: Seq<char>) -> bool {
    exists|i: int| 0 <= i < t.len() && is_digit(#[trigger] t[i])
}

/// The text holds the start of a web link.
pub open spec fn has_link(t: Seq<char>) -> bool {
    occurs_in("http://"@, t) || occurs_in("https://"@, t)
}

/// The text holds one of the phrases that often go with a factual claim.
pub open spec fn has_cue(t: Seq<char>) -> bool {
    ||| occurs_in(" is "@, t)
    ||| occurs_in(" are "@, t)
    ||| occurs_in(" was "@, t)
    ||| occurs_in(" were "@, t)
    ||| occurs_in(" will "@, t)
    ||| occurs_in(" has "@, t)
    ||| occurs_in(" have "@, t)
    ||| occurs_in("%"@, t)
    ||| occurs_in(" million"@, t)
    ||| occurs_in(" billion"@, t)
    ||| occurs_in(" according to "@, t)
    ||| occurs_in(" reports "@, t)
    ||| occurs_in(" says "@, t)
}

/// A word starts at position `i`: a character that is not whitespace, at
/// the start of the text or right after whitespace.
pub open spec fn starts_word(t: Seq<char>, i: int) -> bool
    recommends
        0 <= i < t.len(),
{
    !is_whitespace(t[i]) && (i == 0 || is_whitespace(t[i - 1]))
}

/// The number of words that start among the first `n` characters.
pub open spec fn words_before(t: Seq<char>, n: int) -> nat
    recommends
        0 <= n <= t.len(),
    decreases n,
{
    if n <= 0 {
        0
    } else {
        words_before(t, n - 1) + if starts_word(t, n - 1) {
            1nat
        } else {
            0nat
        }
    }
}

/// The number of whitespace-delimited words of a text.
pub open spec fn word_count(t: Seq<char>) -> nat {
    words_before(t, t.len() as int)
}

/// The text is a candidate for a factual claim: at least
/// [`CLAIM_MIN_CHARS`] characters long, and its lowercased form has at
/// least [`CLAIM_MIN_WORDS`] words and a digit, a link or a cue phrase.
pub open spec fn claim_like(text: Seq<char>) -> bool {
    let t = lowercased(text);
    &&& text.len() >= CLAIM_MIN_CHARS
    &&& word_count(t) >= CLAIM_MIN_WORDS
    &&& (has_digit(t) || has_link(t) || has_cue(t))
}

/// The lowercased text holds the insult marker.
pub open spec fn uncivil(text: Seq<char>) -> bool {
    occurs_in("idiot"@, lowercased(text))
}

/// The characters of a text, one by one.
pub fn chars_of(text: &str) -> (chars: Vec<char>)
    ensures
        chars@ == text@,
{
    let mut chars: Vec<char> = Vec::new();
    for c in it: text.chars()
        invariant
            chars@ == it.seq().take(it.index() as int),
    {
        chars.push(c);
    }
    chars
}

fn matches_at(hay: &Vec<char>, needle: &Vec<char>, at: usize) -> (yes: bool)
    requires
        at + needle.len() <= hay.len(),
    ensures
        yes == occurs_at(needle@, hay@, at as int),
{
    let mut j: usize = 0;
    while j < needle.len()
        invariant
            j <= needle.len(),
            at + needle.len() <= hay.len(),
            forall|k: int| 0 <= k < j ==> hay@[at + k] == needle@[k],
        decreases needle.len() - j,
    {
        if hay[at + j] != needle[j] {
            proof {
                let window = hay@.subrange(at as int, at + needle.len());
                assert(window[j as int] == hay@[at + j]);
            }
            return false;
        }
        j += 1;
    }
    assert(hay@.subrange(at as int, at + needle.len()) =~= needle@);
    true
}

/// Tells whether `needle` stands somewhere in `hay`.
pub fn contains_chars(hay: &Vec<char>, needle: &Vec<char>) -> (yes: bool)
    ensures
        yes == occurs_in(needle@, hay@),
{
    if needle.len() > hay.len() {
        return false;
    }
    let last: usize = hay.len() - needle.len();
    let mut at: usize = 0;
    loop
        invariant
            at <= last,
            last == hay.len() - needle.len(),
            needle.len() <= hay.len(),
            forall|i: int| 0 <= i < at ==> !occurs_at(needle@, hay@, i),
        decreases last - at,
    {
        if matches_at(hay, needle, at) {
            return true;
        }
        if at == last {
            return false;
        }
        at += 1;
    }
}

fn contains_text(hay: &Vec<char>, needle: &str) -> (yes: bool)
    ensures
        yes == occurs_in(needle@, hay@),
{
    let needle_chars = chars_of(needle);
    contains_chars(hay, &needle_chars)
}

/// Tells whether some character is an ASCII digit.
pub fn contains_digit(t: &Vec<char>) -> (yes: bool)
    ensures
        yes == has_digit(t@),
{
    let mut i: usize = 0;
    while i < t.len()
        invariant
            i <= t.len(),
            forall|k: int| 0 <= k < i ==> !is_digit(#[trigger] t@[k]),
        decreases t.len() - i,
    {
        let c = t[i];
        if '0' <= c && c <= '9' {
            return true;
        }
        i += 1;
    }
    false
}

/// Counts the whitespace-delimited words of a text.
pub fn count_words(t: &Vec<char>) -> (n: usize)
    ensures
        n == word_count(t@),
{
    let mut n: usize = 0;
    let mut after_space = true;
    let mut i: usize = 0;
    while i < t.len()
        invariant
            i <= t.len(),
            n <= i,
            n == words_before(t@, i as int),
            after_space == (i == 0 || is_whitespace(t@[i - 1])),
        decreases t.len() - i,
    {
        let space = char_is_whitespace(t[i]);
        if !space && after_space {
            n += 1;
        }
        after_space = space;
        i += 1;
    }
    n
}

fn contains_cue(t: &Vec<char>) -> (yes: bool)
    ensures
        yes == has_cue(t@),
{
    contains_text(t, " is ") || contains_text(t, " are ") || contains_text(t, " was ")
        || contains_text(t, " were ") || contains_text(t, " will ") || contains_text(t, " has ")
        || contains_text(t, " have ") || contains_text(t, "%") || contains_text(t, " million")
        || contains_text(t, " billion") || contains_text(t, " according to ") || contains_text(
        t,
        " reports ",
    ) || contains_text(t, " says ")
}

/// Tells whether a text is a candidate for a factual claim, worth a call
/// to the classifier.
pub fn looks_like_claim(text: &str) -> (yes: bool)
    ensures
        yes == claim_like(text@),
{
    let raw = chars_of(text);
    if raw.len() < CLAIM_MIN_CHARS {
        return false;
    }
    let lower = lowercase(text);
    let t = chars_of(lower.as_str());
    if count_words(&t) < CLAIM_MIN_WORDS {
        return false;
    }
    contains_digit(&t) || contains_text(&t, "http://") || contains_text(&t, "https://")
        || contains_cue(&t)
}

/// Tells whether a text holds the insult marker, in any case.
pub fn is_uncivil(text: &str) -> (yes: bool)
    ensures
        yes == uncivil(text@),
{
    let lower = lowercase(text);
    let t = chars_of(lower.as_str());
    contains_text(&t, "idiot")
}

} // verus!
