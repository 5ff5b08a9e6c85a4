//! Searching and cutting text, by characters.

use vstd::prelude::*;
use vstd::string::*;

verus! {

/// The characters of `text`, in order.
pub fn chars_of(text: &str) -> (chars: Vec<char>)
    ensures
        chars@ == text@,
{
    let mut chars: Vec<char> = Vec::new();
    for character in walk: text.chars()
        invariant
            chars@ == walk.seq().take(walk.index()),
            walk.seq() == text@,
    {
        chars.push(character);
    }
    chars
}

/// Whether two strings hold the same characters. They do where their encodings hold the
/// same bytes, for the characters can be read back from the bytes.
pub fn str_eq(left: &str, right: &str) -> (same: bool)
    ensures
        same == (left@ == right@),
{
    let ours = left.as_bytes();
    let theirs = right.as_bytes();
    if ours.len() != theirs.len() {
        return false;
    }
    let mut index: usize = 0;
    while index < ours.len()
        invariant
            ours@ == left.spec_bytes(),
            theirs@ == right.spec_bytes(),
            ours.len() == theirs.len(),
            index <= ours.len(),
            ours@.take(index as int) == theirs@.take(index as int),
        decreases ours.len() - index,
    {
        if ours[index] != theirs[index] {
            return false;
        }
        index += 1;
    }
    proof {
        assert(ours@ == ours@.take(index as int));
        assert(theirs@ == theirs@.take(index as int));
        vstd::utf8::encode_utf8_decode_utf8(left@);
        vstd::utf8::encode_utf8_decode_utf8(right@);
    }
    true
}

/// Whether `pattern` stands in `text` at position `at`.
pub open spec fn occurs_at(text: Seq<char>, pattern: Seq<char>, at: int) -> bool {
    &&& 0 <= at
    &&& at + pattern.len() <= text.len()
    &&& text.subrange(at, at + pattern.len()) == pattern
}

/// The first position at or after `from` at which `pattern` stands in `text`.
pub open spec fn find_from(text: Seq<char>, pattern: Seq<char>, from: int) -> Option<int>
    decreases text.len() + 1 - from,
{
    if from < 0 || from + pattern.len() > text.len() {
        None
    } else if occurs_at(text, pattern, from) {
        Some(from)
    } else {
        find_from(text, pattern, from + 1)
    }
}

/// The first position at which `pattern` stands in `text`.
pub open spec fn find(text: Seq<char>, pattern: Seq<char>) -> Option<int> {
    find_from(text, pattern, 0)
}

/// `find_from` gives the least position from `from` on at which the pattern stands, and
/// `None` only where it stands at none.
pub proof fn lemma_find_from_is_first(text: Seq<char>, pattern: Seq<char>, from: int)
    requires
        0 <= from,
    ensures
        match find_from(text, pattern, from) {
            Some(at) => {
                &&& from <= at
                &&& occurs_at(text, pattern, at)
                &&& forall|earlier: int| from <= earlier < at ==> !occurs_at(text, pattern, earlier)
            },
            None => forall|at: int| from <= at ==> !occurs_at(text, pattern, at),
        },
    decreases text.len() + 1 - from,
{
    if from + pattern.len() <= text.len() && !occurs_at(text, pattern, from) {
        lemma_find_from_is_first(text, pattern, from + 1);
    }
}

/// The pieces into which the occurrences of `pattern` cut `text` from `start` on. The
/// occurrences are taken from left to right and do not overlap; an empty pattern cuts
/// nothing.
pub open spec fn split_from(text: Seq<char>, pattern: Seq<char>, start: int) -> Seq<Seq<char>>
    decreases text.len() - start,
    via split_from_decreases
{
    if pattern.len() == 0 {
        seq![text.subrange(start, text.len() as int)]
    } else {
        match find_from(text, pattern, start) {
            Some(at) => seq![text.subrange(start, at)] + split_from(
                text,
                pattern,
                at + pattern.len(),
            ),
            None => seq![text.subrange(start, text.len() as int)],
        }
    }
}

#[via_fn]
proof fn split_from_decreases(text: Seq<char>, pattern: Seq<char>, start: int) {
    if 0 <= start {
        lemma_find_from_is_first(text, pattern, start);
    }
}

/// The pieces into which the occurrences of `pattern` cut `text`.
pub open spec fn split(text: Seq<char>, pattern: Seq<char>) -> Seq<Seq<char>> {
    split_from(text, pattern, 0)
}

/// The pieces put together again, with `separator` between each two.
pub open spec fn join(pieces: Seq<Seq<char>>, separator: Seq<char>) -> Seq<char>
    decreases pieces.len(),
{
    if pieces.len() == 0 {
        Seq::empty()
    } else if pieces.len() == 1 {
        pieces.first()
    } else {
        pieces.first() + separator + join(pieces.drop_first(), separator)
    }
}

/// Cutting a text and putting the pieces together again around the pattern gives the
/// text back: nothing is lost in the cutting, and nothing but the pattern is taken out.
pub proof fn lemma_split_joins_back(text: Seq<char>, pattern: Seq<char>)
    ensures
        split(text, pattern).len() >= 1,
        join(split(text, pattern), pattern) == text,
{
    lemma_split_from_joins_back(text, pattern, 0);
}

proof fn lemma_split_from_joins_back(text: Seq<char>, pattern: Seq<char>, start: int)
    requires
        0 <= start <= text.len(),
    ensures
        split_from(text, pattern, start).len() >= 1,
        join(split_from(text, pattern, start), pattern) == text.subrange(
            start,
            text.len() as int,
        ),
    decreases text.len() - start,
{
    if pattern.len() > 0 {
        lemma_find_from_is_first(text, pattern, start);
        if let Some(at) = find_from(text, pattern, start) {
            let next = at + pattern.len();
            let rest = split_from(text, pattern, next);
            lemma_split_from_joins_back(text, pattern, next);
            let pieces = seq![text.subrange(start, at)] + rest;
            assert(pieces.first() == text.subrange(start, at));
            assert(pieces.drop_first() == rest);
            assert(text.subrange(start, at) + text.subrange(at, next) + text.subrange(
                next,
                text.len() as int,
            ) == text.subrange(start, text.len() as int));
        }
    }
}

/// A search in what is left of a text after `start` finds what a search in the whole
/// text from `start` on finds.
proof fn lemma_find_in_rest(text: Seq<char>, pattern: Seq<char>, start: int, from: int)
    requires
        0 <= start <= text.len(),
        0 <= from,
    ensures
        find_from(text.skip(start), pattern, from) == match find_from(
            text,
            pattern,
            start + from,
        ) {
            Some(at) => Some(at - start),
            None => None,
        },
    decreases text.len() + 1 - (start + from),
{
    let rest = text.skip(start);
    if from + pattern.len() <= rest.len() {
        assert(rest.subrange(from, from + pattern.len()) == text.subrange(
            start + from,
            start + from + pattern.len(),
        ));
        if !occurs_at(rest, pattern, from) {
            lemma_find_in_rest(text, pattern, start, from + 1);
        }
    }
}

/// The pieces of a text from `start` on are the pieces of what is left of it after
/// `start`.
proof fn lemma_split_rest(text: Seq<char>, pattern: Seq<char>, start: int)
    requires
        0 <= start <= text.len(),
    ensures
        split_from(text, pattern, start) == split(text.skip(start), pattern),
    decreases text.len() - start,
{
    let rest = text.skip(start);
    assert(rest.subrange(0, rest.len() as int) == text.subrange(start, text.len() as int));
    if pattern.len() > 0 {
        lemma_find_in_rest(text, pattern, start, 0);
        lemma_find_from_is_first(text, pattern, start);
        if let Some(at) = find_from(text, pattern, start) {
            let next = at + pattern.len();
            lemma_split_rest(text, pattern, next);
            lemma_split_rest(rest, pattern, next - start);
            assert(rest.skip(next - start) == text.skip(next));
            assert(rest.subrange(0, at - start) == text.subrange(start, at));
        }
    }
}

/// Where the pattern first stands in `head` followed by the pattern at the very end, it
/// first stands there too when more text follows.
proof fn lemma_find_in_joined(head: Seq<char>, pattern: Seq<char>, rest: Seq<char>)
    requires
        pattern.len() > 0,
        find(head + pattern, pattern) == Some(head.len() as int),
    ensures
        find(head + pattern + rest, pattern) == Some(head.len() as int),
{
    let short = head + pattern;
    let text = head + pattern + rest;
    lemma_find_from_is_first(short, pattern, 0);
    lemma_find_from_is_first(text, pattern, 0);
    assert(text.subrange(head.len() as int, (head.len() + pattern.len()) as int) == pattern);
    assert(occurs_at(text, pattern, head.len() as int));
    assert forall|earlier: int| 0 <= earlier < head.len() implies !occurs_at(
        text,
        pattern,
        earlier,
    ) by {
        assert(!occurs_at(short, pattern, earlier));
        assert(short.subrange(earlier, earlier + pattern.len()) == text.subrange(
            earlier,
            earlier + pattern.len(),
        ));
    }
}

/// Putting pieces together around a pattern and cutting the text at the pattern gives
/// the pieces back, as long as the pattern turns up nowhere but between them: it stands
/// in no piece, and behind a piece it first stands where the piece ends.
pub proof fn lemma_split_undoes_join(pieces: Seq<Seq<char>>, pattern: Seq<char>)
    requires
        pattern.len() > 0,
        pieces.len() >= 1,
        forall|i: int|
            0 <= i < pieces.len() - 1 ==> find(#[trigger] pieces[i] + pattern, pattern) == Some(
                pieces[i].len() as int,
            ),
        find(pieces.last(), pattern) is None,
    ensures
        split(join(pieces, pattern), pattern) == pieces,
    decreases pieces.len(),
{
    let head = pieces.first();
    if pieces.len() == 1 {
        assert(head.subrange(0, head.len() as int) == head);
        assert(pieces == seq![head]);
    } else {
        let tail = pieces.drop_first();
        let text = head + pattern + join(tail, pattern);
        let next = (head.len() + pattern.len()) as int;
        assert(head == pieces[0]);
        lemma_find_in_joined(head, pattern, join(tail, pattern));
        lemma_split_rest(text, pattern, next);
        assert(text.skip(next) == join(tail, pattern));
        assert forall|i: int| 0 <= i < tail.len() - 1 implies find(
            #[trigger] tail[i] + pattern,
            pattern,
        ) == Some(tail[i].len() as int) by {
            assert(tail[i] == pieces[i + 1]);
        }
        assert(tail.last() == pieces.last());
        lemma_split_undoes_join(tail, pattern);
        assert(text.subrange(0, head.len() as int) == head);
        assert(seq![head] + tail == pieces);
    }
}

/// The pattern stands in none of the pieces that it cuts a text into.
pub proof fn lemma_split_pieces_hold_no_pattern(text: Seq<char>, pattern: Seq<char>, index: int)
    requires
        pattern.len() > 0,
        0 <= index < split(text, pattern).len(),
    ensures
        find(split(text, pattern)[index], pattern) is None,
{
    lemma_split_from_pieces_hold_no_pattern(text, pattern, 0, index);
}

proof fn lemma_split_from_pieces_hold_no_pattern(
    text: Seq<char>,
    pattern: Seq<char>,
    start: int,
    index: int,
)
    requires
        pattern.len() > 0,
        0 <= start <= text.len(),
        0 <= index < split_from(text, pattern, start).len(),
    ensures
        find(split_from(text, pattern, start)[index], pattern) is None,
    decreases text.len() - start,
{
    lemma_find_from_is_first(text, pattern, start);
    let end = match find_from(text, pattern, start) {
        Some(at) => at,
        None => text.len() as int,
    };
    let piece = text.subrange(start, end);
    if index == 0 {
        lemma_find_from_is_first(piece, pattern, 0);
        if let Some(inside) = find(piece, pattern) {
            assert(piece.subrange(inside, inside + pattern.len()) == text.subrange(
                start + inside,
                start + inside + pattern.len(),
            ));
            assert(occurs_at(text, pattern, start + inside));
        }
    } else {
        let at = find_from(text, pattern, start).unwrap();
        lemma_split_from_pieces_hold_no_pattern(text, pattern, at + pattern.len(), index - 1);
    }
}

/// A stretch of a text, from `start` up to `end`.
#[derive(Debug, Clone, Copy)]
pub struct Span {
    pub start: usize,
    pub end: usize,
}

impl Span {
    /// Whether the stretch lies in `text`.
    pub open spec fn within(self, text: Seq<char>) -> bool {
        self.start <= self.end <= text.len()
    }

    /// The characters of `text` in the stretch.
    pub open spec fn of(self, text: Seq<char>) -> Seq<char> {
        text.subrange(self.start as int, self.end as int)
    }
}

/// The characters of `text` in each of `spans`.
pub open spec fn spans_of(text: Seq<char>, spans: Seq<Span>) -> Seq<Seq<char>> {
    spans.map_values(|span: Span| span.of(text))
}

/// Whether `pattern` stands in `text` at position `at`.
pub fn matches_at(text: &[char], pattern: &[char], at: usize) -> (found: bool)
    ensures
        found == occurs_at(text@, pattern@, at as int),
{
    if at > text.len() || pattern.len() > text.len() - at {
        return false;
    }
    let mut offset: usize = 0;
    while offset < pattern.len()
        invariant
            at + pattern.len() <= text.len(),
            offset <= pattern.len(),
            text@.subrange(at as int, at + offset) == pattern@.take(offset as int),
        decreases pattern.len() - offset,
    {
        if text[at + offset] != pattern[offset] {
            return false;
        }
        offset += 1;
    }
    assert(pattern@.take(offset as int) == pattern@);
    true
}

/// The first position at or after `from` at which `pattern` stands in `text`.
pub fn find_in(text: &[char], pattern: &[char], from: usize) -> (found: Option<usize>)
    ensures
        match found {
            Some(at) => find_from(text@, pattern@, from as int) == Some(at as int),
            None => find_from(text@, pattern@, from as int) is None,
        },
{
    if pattern.len() > text.len() {
        return None;
    }
    let last = text.len() - pattern.len();
    let mut at = from;
    while at <= last
        invariant
            last == text.len() - pattern.len(),
            from <= at,
            find_from(text@, pattern@, from as int) == find_from(text@, pattern@, at as int),
        decreases last + 1 - at,
    {
        if matches_at(text, pattern, at) {
            return Some(at);
        }
        if at == last {
            assert(find_from(text@, pattern@, at + 1) is None);
            return None;
        }
        at += 1;
    }
    None
}

/// Cuts `text` at the occurrences of `pattern`.
pub fn split_spans(text: &[char], pattern: &[char]) -> (spans: Vec<Span>)
    ensures
        forall|i: int| 0 <= i < spans.len() ==> (#[trigger] spans[i]).within(text@),
        spans_of(text@, spans@) == split(text@, pattern@),
{
    let mut spans: Vec<Span> = Vec::new();
    if pattern.len() == 0 {
        spans.push(Span { start: 0, end: text.len() });
        return spans;
    }
    let mut start: usize = 0;
    loop
        invariant_except_break
            pattern.len() > 0,
            start <= text.len(),
            forall|i: int| 0 <= i < spans.len() ==> (#[trigger] spans[i]).within(text@),
            split(text@, pattern@) == spans_of(text@, spans@) + split_from(
                text@,
                pattern@,
                start as int,
            ),
        ensures
            forall|i: int| 0 <= i < spans.len() ==> (#[trigger] spans[i]).within(text@),
            spans_of(text@, spans@) == split(text@, pattern@),
        decreases text.len() - start,
    {
        proof {
            lemma_find_from_is_first(text@, pattern@, start as int);
        }
        match find_in(text, pattern, start) {
            Some(at) => {
                spans.push(Span { start, end: at });
                start = at + pattern.len();
            },
            None => {
                spans.push(Span { start, end: text.len() });
                break ;
            },
        }
    }
    spans
}

/// The character that stands for a digit.
pub open spec fn digit(value: nat) -> char {
    seq!['0', '1', '2', '3', '4', '5', '6', '7', '8', '9'][value as int]
}

/// A number written in decimal, without leading zeros.
pub open spec fn decimal(value: nat) -> Seq<char>
    decreases value,
{
    if value < 10 {
        seq![digit(value)]
    } else {
        decimal(value / 10).push(digit(value % 10))
    }
}

fn digit_text(value: usize) -> (text: &'static str)
    requires
        value < 10,
    ensures
        text@ == seq![digit(value as nat)],
{
    proof {
        reveal_strlit("0");
        reveal_strlit("1");
        reveal_strlit("2");
        reveal_strlit("3");
        reveal_strlit("4");
        reveal_strlit("5");
        reveal_strlit("6");
        reveal_strlit("7");
        reveal_strlit("8");
        reveal_strlit("9");
    }
    let text = if value == 0 {
        "0"
    } else if value == 1 {
        "1"
    } else if value == 2 {
        "2"
    } else if value == 3 {
        "3"
    } else if value == 4 {
        "4"
    } else if value == 5 {
        "5"
    } else if value == 6 {
        "6"
    } else if value == 7 {
        "7"
    } else if value == 8 {
        "8"
    } else {
        "9"
    };
    text
}

/// Writes a number in decimal.
pub fn to_decimal_usize(value: usize) -> (text: String)
    ensures
        text@ == decimal(value as nat),
    decreases value,
{
    if value < 10 {
        digit_text(value).to_owned()
    } else {
        let mut text = to_decimal_usize(value / 10);
        text.append(digit_text(value % 10));
        text
    }
}

/// Writes a number in decimal.
pub fn to_decimal(value: u32) -> (text: String)
    ensures
        text@ == decimal(value as nat),
{
    to_decimal_usize(value as usize)
}

} // verus!
