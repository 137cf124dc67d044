//! Text as sequences of characters, and operating system strings as sequences of bytes.
//!
//! A `String` is text. A `Vec<u8>` is an operating system string (a path, an argument, the value
//! of an environment variable): its bytes are UTF-8 wherever it was made from text.

use vstd::prelude::*;

verus! {

/// The bytes that stand for `text` in an operating system string.
pub open spec fn utf8(text: Seq<char>) -> Seq<u8> {
    vstd::utf8::encode_utf8(text)
}

/// The texts held by a list of strings.
pub open spec fn texts(list: Seq<String>) -> Seq<Seq<char>> {
    Seq::new(list.len(), |i: int| list[i]@)
}

/// The operating system strings held by a list of byte vectors.
pub open spec fn words(list: Seq<Vec<u8>>) -> Seq<Seq<u8>> {
    Seq::new(list.len(), |i: int| list[i]@)
}

/// The texts in a list of string slices.
pub open spec fn literals(list: Seq<&str>) -> Seq<Seq<char>> {
    Seq::new(list.len(), |i: int| list[i]@)
}

/// The operating system strings for a list of texts.
pub open spec fn as_words(list: Seq<Seq<char>>) -> Seq<Seq<u8>> {
    Seq::new(list.len(), |i: int| utf8(list[i]))
}

/// Equal bytes stand for equal text.
pub proof fn lemma_utf8_injective(a: Seq<char>, b: Seq<char>)
    requires
        utf8(a) == utf8(b),
    ensures
        a == b,
{
    vstd::utf8::encode_utf8_decode_utf8(a);
    vstd::utf8::encode_utf8_decode_utf8(b);
}

/// Adding a word to a list adds its bytes to the list of words.
pub(crate) proof fn lemma_words_push(list: Seq<Vec<u8>>, word: Vec<u8>)
    ensures
        words(list.push(word)) == words(list).push(word@),
{
    assert(words(list.push(word)) =~= words(list).push(word@));
}

/// Adding a string to a list adds its text to the list of texts.
pub(crate) proof fn lemma_texts_push(list: Seq<String>, item: String)
    ensures
        texts(list.push(item)) == texts(list).push(item@),
{
    assert(texts(list.push(item)) =~= texts(list).push(item@));
}

/// The characters of `text`, one by one.
fn chars_of(text: &str) -> (chars: Vec<char>)
    ensures
        chars@ == text@,
{
    let mut chars: Vec<char> = Vec::new();
    for c in it: text.chars()
        invariant
            chars@ == it.seq().take(it.index()),
            it.seq() == text@,
    {
        chars.push(c);
    }
    chars
}

/// Whether `bytes` and `other` hold the same bytes.
pub(crate) fn same_bytes(bytes: &[u8], other: &[u8]) -> (same: bool)
    ensures
        same == (bytes@ == other@),
{
    if bytes.len() != other.len() {
        return false;
    }
    let mut i: usize = 0;
    while i < bytes.len()
        invariant
            i <= bytes@.len(),
            bytes@.len() == other@.len(),
            forall|k: int| 0 <= k < i ==> bytes@[k] == other@[k],
        decreases bytes@.len() - i,
    {
        if bytes[i] != other[i] {
            return false;
        }
        i += 1;
    }
    assert(bytes@ =~= other@);
    true
}

/// Whether `a` and `b` are the same text.
pub(crate) fn same_text(a: &str, b: &str) -> (same: bool)
    ensures
        same == (a@ == b@),
{
    let same: bool = same_bytes(a.as_bytes(), b.as_bytes());
    proof {
        if same {
            lemma_utf8_injective(a@, b@);
        }
    }
    same
}

/// `part` stands in `whole` at position `at`.
pub open spec fn stands_at(whole: Seq<char>, part: Seq<char>, at: int) -> bool {
    0 <= at && at + part.len() <= whole.len() && whole.subrange(at, at + part.len()) == part
}

/// `part` stands somewhere in `whole`.
pub open spec fn occurs_in(whole: Seq<char>, part: Seq<char>) -> bool {
    exists|at: int| stands_at(whole, part, at)
}

/// A text stands somewhere in another exactly if it is a part of it.
pub(crate) proof fn lemma_occurs(whole: Seq<char>, part: Seq<char>)
    ensures
        occurs_in(whole, part) <==> exists|i: int, j: int|
            0 <= i <= j <= whole.len() && #[trigger] whole.subrange(i, j) == part,
{
    if occurs_in(whole, part) {
        let at = choose|at: int| stands_at(whole, part, at);
        assert(whole.subrange(at, at + part.len()) == part);
    }
    if exists|i: int, j: int|
        0 <= i <= j <= whole.len() && #[trigger] whole.subrange(i, j) == part {
        let (i, j) = choose|i: int, j: int|
            0 <= i <= j <= whole.len() && #[trigger] whole.subrange(i, j) == part;
        assert(stands_at(whole, part, i));
    }
}

/// `whole` begins with `prefix`.
pub open spec fn begins_with(whole: Seq<char>, prefix: Seq<char>) -> bool {
    stands_at(whole, prefix, 0)
}

/// `whole` ends with `suffix`.
pub open spec fn ends_with(whole: Seq<char>, suffix: Seq<char>) -> bool {
    stands_at(whole, suffix, whole.len() - suffix.len())
}

/// The part of `text` before its first line feed (all of it where there is none).
pub open spec fn until_line_feed(text: Seq<char>) -> Seq<char>
    decreases text.len(),
{
    if text.len() == 0 || text[0] == '\n' {
        Seq::empty()
    } else {
        seq![text[0]] + until_line_feed(text.skip(1))
    }
}

/// `line` without the carriage return at its end, if it has one.
pub open spec fn without_carriage_return(line: Seq<char>) -> Seq<char> {
    if line.len() > 0 && line.last() == '\r' {
        line.drop_last()
    } else {
        line
    }
}

/// The lines of `text`. A line ends in a line feed, or in a carriage return and a line feed;
/// the last line may do without. The line endings are not part of the lines.
pub open spec fn lines_of(text: Seq<char>) -> Seq<Seq<char>>
    decreases text.len(),
{
    let line = until_line_feed(text);
    if text.len() == 0 {
        Seq::empty()
    } else if line.len() >= text.len() {
        seq![text]
    } else {
        seq![without_carriage_return(line)] + lines_of(text.skip(line.len() as int + 1))
    }
}

/// Unicode's white space characters.
pub open spec fn is_white_space(c: char) -> bool {
    ||| '\u{9}' <= c <= '\u{d}'
    ||| c == ' '
    ||| c == '\u{85}'
    ||| c == '\u{a0}'
    ||| c == '\u{1680}'
    ||| '\u{2000}' <= c <= '\u{200a}'
    ||| c == '\u{2028}'
    ||| c == '\u{2029}'
    ||| c == '\u{202f}'
    ||| c == '\u{205f}'
    ||| c == '\u{3000}'
}

/// `text` without the white space at its start.
pub open spec fn trimmed_start(text: Seq<char>) -> Seq<char>
    decreases text.len(),
{
    if text.len() > 0 && is_white_space(text[0]) {
        trimmed_start(text.skip(1))
    } else {
        text
    }
}

/// `text` without the white space at its end.
pub open spec fn trimmed_end(text: Seq<char>) -> Seq<char>
    decreases text.len(),
{
    if text.len() > 0 && is_white_space(text.last()) {
        trimmed_end(text.drop_last())
    } else {
        text
    }
}

/// `text` without the white space at either end.
pub open spec fn trimmed(text: Seq<char>) -> Seq<char> {
    trimmed_end(trimmed_start(text))
}

/// Whether `c` is white space.
fn white_space(c: char) -> (r: bool)
    ensures
        r == is_white_space(c),
{
    ('\u{9}' <= c && c <= '\u{d}') || c == ' ' || c == '\u{85}' || c == '\u{a0}' || c == '\u{1680}'
        || ('\u{2000}' <= c && c <= '\u{200a}') || c == '\u{2028}' || c == '\u{2029}'
        || c == '\u{202f}' || c == '\u{205f}' || c == '\u{3000}'
}

/// Whether `part` stands in `whole` at position `at`.
fn matches_at(whole: &Vec<char>, part: &Vec<char>, at: usize) -> (r: bool)
    ensures
        r == stands_at(whole@, part@, at as int),
{
    if part.len() > whole.len() || at > whole.len() - part.len() {
        return false;
    }
    let mut i: usize = 0;
    while i < part.len()
        invariant
            i <= part@.len(),
            at + part.len() <= whole.len(),
            forall|k: int| 0 <= k < i ==> whole@[at + k] == part@[k],
        decreases part@.len() - i,
    {
        if whole[at + i] != part[i] {
            assert(whole@.subrange(at as int, at + part@.len())[i as int] == whole@[at + i]);
            return false;
        }
        i += 1;
    }
    assert(whole@.subrange(at as int, at + part@.len()) =~= part@);
    true
}

/// Whether `part` stands somewhere in `whole`.
pub(crate) fn contains(whole: &str, part: &str) -> (r: bool)
    ensures
        r == occurs_in(whole@, part@),
{
    let chars: Vec<char> = chars_of(whole);
    let wanted: Vec<char> = chars_of(part);
    if wanted.len() > chars.len() {
        return false;
    }
    let last: usize = chars.len() - wanted.len();
    let mut at: usize = 0;
    loop
        invariant
            chars@ == whole@,
            wanted@ == part@,
            at <= last,
            last + part@.len() == whole@.len(),
            forall|k: int| 0 <= k < at ==> !stands_at(whole@, part@, k),
        decreases last - at,
    {
        if matches_at(&chars, &wanted, at) {
            return true;
        }
        if at == last {
            return false;
        }
        at += 1;
    }
}

/// Whether `whole` ends with `suffix`.
pub(crate) fn has_suffix(whole: &str, suffix: &str) -> (r: bool)
    ensures
        r == ends_with(whole@, suffix@),
{
    let whole: Vec<char> = chars_of(whole);
    let suffix: Vec<char> = chars_of(suffix);
    suffix.len() <= whole.len() && matches_at(&whole, &suffix, whole.len() - suffix.len())
}

/// What follows `prefix` in `whole`, if `whole` begins with it.
pub(crate) fn strip_prefix(whole: &str, prefix: &str) -> (rest: Option<String>)
    ensures
        rest is Some <==> begins_with(whole@, prefix@),
        rest matches Some(text) ==> text@ == whole@.skip(prefix@.len() as int),
{
    let chars: Vec<char> = chars_of(whole);
    let start: Vec<char> = chars_of(prefix);
    if matches_at(&chars, &start, 0) {
        let rest: &str = whole.substring_char(start.len(), chars.len());
        assert(rest@ =~= whole@.skip(prefix@.len() as int));
        Some(rest.to_owned())
    } else {
        None
    }
}

/// Reading on to the first line feed from any place before it ends at the same place.
pub(crate) proof fn lemma_until_line_feed(text: Seq<char>, n: int)
    requires
        0 <= n <= text.len(),
        forall|k: int| 0 <= k < n ==> text[k] != '\n',
        n < text.len() ==> text[n] == '\n',
    ensures
        until_line_feed(text) == text.take(n),
    decreases n,
{
    if n == 0 {
        assert(text.take(0) =~= Seq::<char>::empty());
    } else {
        lemma_until_line_feed(text.skip(1), n - 1);
        assert(text.take(n) =~= seq![text[0]] + text.skip(1).take(n - 1));
    }
}

/// The lines of `text`, without their line endings.
pub(crate) fn lines(text: &str) -> (list: Vec<String>)
    ensures
        texts(list@) == lines_of(text@),
{
    let chars: Vec<char> = chars_of(text);
    let mut list: Vec<String> = Vec::new();
    let mut start: usize = 0;
    assert(text@.skip(0) =~= text@);
    assert(texts(list@) + lines_of(text@) =~= lines_of(text@));
    while start < chars.len()
        invariant
            chars@ == text@,
            start <= text@.len(),
            texts(list@) + lines_of(text@.skip(start as int)) == lines_of(text@),
        decreases text@.len() - start,
    {
        let ghost rest = text@.skip(start as int);
        let ghost before = list@;
        let mut end: usize = start;
        while end < chars.len() && chars[end] != '\n'
            invariant
                chars@ == text@,
                start <= end <= text@.len(),
                forall|k: int| start <= k < end ==> text@[k] != '\n',
            decreases text@.len() - end,
        {
            end += 1;
        }
        proof {
            lemma_until_line_feed(rest, end - start);
        }
        let stop: usize = if end < chars.len() && end > start && chars[end - 1] == '\r' {
            end - 1
        } else {
            end
        };
        let line: String = text.substring_char(start, stop).to_owned();
        list.push(line);
        let next: usize = if end < chars.len() { end + 1 } else { end };
        proof {
            lemma_texts_push(before, line);
            let ghost found = until_line_feed(rest);
            assert(found =~= text@.subrange(start as int, end as int));
            if end < text@.len() {
                assert(line@ =~= without_carriage_return(found));
                assert(rest.skip(found.len() as int + 1) =~= text@.skip(next as int));
            } else {
                assert(line@ =~= rest);
                assert(text@.skip(next as int) =~= Seq::<char>::empty());
            }
            assert(lines_of(rest) =~= seq![line@] + lines_of(text@.skip(next as int)));
            assert(texts(list@) + lines_of(text@.skip(next as int)) =~= texts(before) + lines_of(
                rest,
            ));
        }
        start = next;
    }
    assert(lines_of(text@.skip(start as int)) =~= Seq::<Seq<char>>::empty());
    assert(texts(list@) =~= lines_of(text@));
    list
}

/// `text` without the white space at either end.
pub(crate) fn trim(text: &str) -> (r: String)
    ensures
        r@ == trimmed(text@),
{
    let chars: Vec<char> = chars_of(text);
    let mut start: usize = 0;
    assert(text@.skip(0) =~= text@);
    while start < chars.len() && white_space(chars[start])
        invariant
            chars@ == text@,
            start <= text@.len(),
            trimmed_start(text@.skip(start as int)) == trimmed_start(text@),
        decreases text@.len() - start,
    {
        assert(text@.skip(start as int).skip(1) =~= text@.skip(start + 1));
        start += 1;
    }
    let ghost rest = text@.skip(start as int);
    assert(trimmed_start(text@) == rest);
    let mut end: usize = chars.len();
    assert(text@.subrange(start as int, end as int) =~= rest);
    while end > start && white_space(chars[end - 1])
        invariant
            chars@ == text@,
            start <= end <= text@.len(),
            trimmed_end(text@.subrange(start as int, end as int)) == trimmed_end(rest),
        decreases end,
    {
        assert(text@.subrange(start as int, end as int).drop_last() =~= text@.subrange(
            start as int,
            end - 1,
        ));
        end -= 1;
    }
    text.substring_char(start, end).to_owned()
}

/// What `String::from_utf8_lossy` makes of bytes that are not UTF-8: the text of those that are,
/// with replacement characters for the rest.
pub uninterp spec fn repaired(bytes: Seq<u8>) -> Seq<char>;

/// The text shown for an operating system string: the text that it stands for, if it stands for
/// one.
pub open spec fn shown(bytes: Seq<u8>) -> Seq<char> {
    if vstd::utf8::valid_utf8(bytes) {
        vstd::utf8::decode_utf8(bytes)
    } else {
        repaired(bytes)
    }
}

/// `String::from_utf8_lossy` of the standard library: bytes that are UTF-8 are decoded, and of
/// other bytes it makes a text that depends on them alone.
#[verifier::external_body]
pub(crate) fn show(bytes: &[u8]) -> (text: String)
    ensures
        text@ == (if vstd::utf8::valid_utf8(bytes@) {
            vstd::utf8::decode_utf8(bytes@)
        } else {
            repaired(bytes@)
        }),
{
    String::from_utf8_lossy(bytes).into_owned()
}

/// The operating system string for `text`.
pub fn word(text: &str) -> (bytes: Vec<u8>)
    ensures
        bytes@ == utf8(text@),
{
    text.as_bytes_vec()
}

/// The texts `a` and `b`, one after the other.
pub(crate) fn concat(a: &str, b: &str) -> (text: String)
    ensures
        text@ == a@ + b@,
{
    let mut text: String = a.to_owned();
    text.append(b);
    text
}

} // verus!
