//! Text as sequences of characters.
//!
//! Contracts speak of a string through its view, the sequence of its
//! characters. The functions here bring a string into that shape and compare
//! and render such sequences.

use vstd::prelude::*;
use vstd::string::{StrSliceExecFns, StringExecFns};

verus! {

/// The characters of `s`, in order.
pub fn chars_of(s: &str) -> (chars: Vec<char>)
    ensures
        chars@ == s@,
{
    let mut chars: Vec<char> = Vec::new();
    for c in it: s.chars()
        invariant
            chars@ == it.seq().take(it.index()),
            it.seq() == s@,
    {
        chars.push(c);
    }
    chars
}

/// Whether `text` begins with `prefix`.
pub fn starts_with(text: &Vec<char>, prefix: &Vec<char>) -> (begins: bool)
    ensures
        begins == prefix@.is_prefix_of(text@),
{
    if prefix.len() > text.len() {
        return false;
    }
    let mut i: usize = 0;
    while i < prefix.len()
        invariant
            i <= prefix.len() <= text.len(),
            prefix@.take(i as int) == text@.take(i as int),
        decreases prefix.len() - i,
    {
        if prefix[i] != text[i] {
            proof {
                assert(text@.subrange(0, prefix@.len() as int)[i as int] != prefix@[i as int]);
            }
            return false;
        }
        proof {
            assert(prefix@.take(i + 1) =~= prefix@.take(i as int).push(prefix@[i as int]));
            assert(text@.take(i + 1) =~= text@.take(i as int).push(text@[i as int]));
        }
        i += 1;
    }
    proof {
        assert(prefix@.take(i as int) =~= prefix@);
    }
    true
}

/// Whether two sequences of characters are the same.
pub fn same_chars(a: &Vec<char>, b: &Vec<char>) -> (same: bool)
    ensures
        same == (a@ == b@),
{
    if a.len() != b.len() {
        return false;
    }
    let begins = starts_with(a, b);
    proof {
        assert(a@.subrange(0, b@.len() as int) =~= a@);
    }
    begins
}

/// Whether two strings hold the same text.
pub fn same_text(a: &str, b: &str) -> (same: bool)
    ensures
        same == (a@ == b@),
{
    let left = chars_of(a);
    let right = chars_of(b);
    same_chars(&left, &right)
}

/// Whether `needle` is one of `items`.
pub fn contains_text(items: &Vec<String>, needle: &str) -> (found: bool)
    ensures
        found == texts(items@).contains(needle@),
{
    let wanted = chars_of(needle);
    let mut i: usize = 0;
    while i < items.len()
        invariant
            i <= items.len(),
            wanted@ == needle@,
            forall|j: int| 0 <= j < i ==> items@[j]@ != needle@,
        decreases items.len() - i,
    {
        let item = chars_of(items[i].as_str());
        if same_chars(&item, &wanted) {
            proof {
                assert(texts(items@)[i as int] == needle@);
            }
            return true;
        }
        i += 1;
    }
    proof {
        assert forall|j: int| 0 <= j < texts(items@).len() implies texts(items@)[j] != needle@ by {
            assert(texts(items@)[j] == items@[j]@);
        }
    }
    false
}

/// The texts that a list of strings holds, in order.
pub open spec fn texts(items: Seq<String>) -> Seq<Seq<char>> {
    items.map_values(|item: String| item@)
}

/// The character that stands for the digit `d`.
pub open spec fn digit_char(d: int) -> char {
    if d == 0 {
        '0'
    } else if d == 1 {
        '1'
    } else if d == 2 {
        '2'
    } else if d == 3 {
        '3'
    } else if d == 4 {
        '4'
    } else if d == 5 {
        '5'
    } else if d == 6 {
        '6'
    } else if d == 7 {
        '7'
    } else if d == 8 {
        '8'
    } else {
        '9'
    }
}

/// The decimal numeral of `n`, without leading zeros.
pub open spec fn decimal(n: nat) -> Seq<char>
    decreases n,
{
    if n < 10 {
        seq![digit_char(n as int)]
    } else {
        decimal(n / 10).push(digit_char((n % 10) as int))
    }
}

/// The one-character text of a digit.
pub fn digit_text(d: u8) -> (text: &'static str)
    requires
        d < 10,
    ensures
        text@ == seq![digit_char(d as int)],
{
    proof {
        reveal_strlit("0");
        reveal_strlit("1");
        reveal_strlit("2");
        reveal_strlit("3");
        reveal_strlit("4");
        reveal_strlit("5");
        reveal_strlit("6");
        reveal_strlit("7");
        reveal_strlit("8");
        reveal_strlit("9");
    }
    let text = if d == 0 {
        "0"
    } else if d == 1 {
        "1"
    } else if d == 2 {
        "2"
    } else if d == 3 {
        "3"
    } else if d == 4 {
        "4"
    } else if d == 5 {
        "5"
    } else if d == 6 {
        "6"
    } else if d == 7 {
        "7"
    } else if d == 8 {
        "8"
    } else {
        "9"
    };
    assert(text@ =~= seq![digit_char(d as int)]);
    text
}

/// Appends the decimal numeral of `n` to `out`.
pub fn push_decimal(out: &mut String, n: u64)
    ensures
        final(out)@ == old(out)@ + decimal(n as nat),
    decreases n,
{
    if n >= 10 {
        push_decimal(out, n / 10);
    }
    out.append(digit_text((n % 10) as u8));
    proof {
        if n >= 10 {
            assert(old(out)@ + decimal((n / 10) as nat) + seq![digit_char((n % 10) as int)] =~= old(
                out,
            )@ + decimal(n as nat));
        }
    }
}

/// White space, as Unicode defines it.
pub open spec fn white_space(c: char) -> bool {
    let code: u32 = c as u32;
    (0x09 <= code <= 0x0d) || code == 0x20 || code == 0x85 || code == 0xa0 || code == 0x1680 || (
    0x2000 <= code <= 0x200a) || code == 0x2028 || code == 0x2029 || code == 0x202f || code
        == 0x205f || code == 0x3000
}

/// A text is blank when it holds nothing but white space.
pub open spec fn blank(text: Seq<char>) -> bool {
    forall|i: int| 0 <= i < text.len() ==> white_space(#[trigger] text[i])
}

/// `text` without the white space that it begins with.
pub open spec fn trimmed_start(text: Seq<char>) -> Seq<char>
    decreases text.len(),
{
    if text.len() > 0 && white_space(text[0]) {
        trimmed_start(text.skip(1))
    } else {
        text
    }
}

/// `text` without the white space that it ends with.
pub open spec fn trimmed_end(text: Seq<char>) -> Seq<char>
    decreases text.len(),
{
    if text.len() > 0 && white_space(text.last()) {
        trimmed_end(text.drop_last())
    } else {
        text
    }
}

/// `text` without the white space around it.
pub open spec fn trimmed(text: Seq<char>) -> Seq<char> {
    trimmed_end(trimmed_start(text))
}

/// Each of `pieces` without the white space around it.
pub open spec fn trimmed_all(pieces: Seq<Seq<char>>) -> Seq<Seq<char>> {
    Seq::new(pieces.len(), |i: int| trimmed(pieces[i]))
}

/// The pieces of `text` between the occurrences of `separator`, in order.
/// A text without the separator is one piece, so that there is always at
/// least one.
pub open spec fn split(text: Seq<char>, separator: char) -> Seq<Seq<char>>
    decreases text.len(),
{
    if text.len() == 0 {
        seq![Seq::empty()]
    } else {
        let before = split(text.drop_last(), separator);
        if text.last() == separator {
            before.push(Seq::empty())
        } else {
            before.drop_last().push(before.last().push(text.last()))
        }
    }
}

/// The items of a list put together, with `separator` between each two.
pub open spec fn joined_list(items: Seq<Seq<char>>, separator: Seq<char>) -> Seq<char>
    decreases items.len(),
{
    if items.len() == 0 {
        Seq::empty()
    } else if items.len() == 1 {
        items[0]
    } else {
        joined_list(items.drop_last(), separator) + separator + items.last()
    }
}

/// Whether a character is white space.
pub fn is_white_space(c: char) -> (white: bool)
    ensures
        white == white_space(c),
{
    let code: u32 = c as u32;
    (0x09 <= code && code <= 0x0d) || code == 0x20 || code == 0x85 || code == 0xa0 || code
        == 0x1680 || (0x2000 <= code && code <= 0x200a) || code == 0x2028 || code == 0x2029
        || code == 0x202f || code == 0x205f || code == 0x3000
}

/// Whether a text holds nothing but white space.
pub fn is_blank(text: &str) -> (empty: bool)
    ensures
        empty == blank(text@),
{
    let chars = chars_of(text);
    let mut i: usize = 0;
    while i < chars.len()
        invariant
            i <= chars.len(),
            chars@ == text@,
            forall|j: int| 0 <= j < i ==> white_space(#[trigger] text@[j]),
        decreases chars.len() - i,
    {
        if !is_white_space(chars[i]) {
            return false;
        }
        i += 1;
    }
    true
}

/// The bounds of what is left of `chars[start..end]` once the white space
/// around it is taken away.
pub fn trim_bounds(chars: &Vec<char>, start: usize, end: usize) -> (bounds: (usize, usize))
    requires
        start <= end <= chars.len(),
    ensures
        start <= bounds.0 <= bounds.1 <= end,
        chars@.subrange(bounds.0 as int, bounds.1 as int) == trimmed(
            chars@.subrange(start as int, end as int),
        ),
{
    let ghost whole = chars@.subrange(start as int, end as int);
    let mut from: usize = start;
    while from < end && is_white_space(chars[from])
        invariant
            start <= from <= end <= chars.len(),
            trimmed_start(whole) == trimmed_start(chars@.subrange(from as int, end as int)),
        decreases end - from,
    {
        proof {
            let rest = chars@.subrange(from as int, end as int);
            assert(rest[0] == chars@[from as int]);
            assert(rest.skip(1) =~= chars@.subrange(from + 1, end as int));
        }
        from += 1;
    }
    let ghost headless = chars@.subrange(from as int, end as int);
    proof {
        if from < end {
            assert(headless[0] == chars@[from as int]);
        }
        assert(trimmed_start(whole) == headless);
    }
    let mut to: usize = end;
    while to > from && is_white_space(chars[to - 1])
        invariant
            from <= to <= end <= chars.len(),
            trimmed_end(headless) == trimmed_end(chars@.subrange(from as int, to as int)),
        decreases to,
    {
        proof {
            let rest = chars@.subrange(from as int, to as int);
            assert(rest.last() == chars@[to - 1]);
            assert(rest.drop_last() =~= chars@.subrange(from as int, to - 1));
        }
        to -= 1;
    }
    proof {
        let rest = chars@.subrange(from as int, to as int);
        if to > from {
            assert(rest.last() == chars@[to - 1]);
        }
        assert(trimmed_end(rest) == rest);
    }
    (from, to)
}

/// One more piece, trimmed, keeps a list of strings in step with the
/// pieces that it renders.
proof fn lemma_trimmed_piece(
    earlier: Seq<String>,
    piece: String,
    done: Seq<Seq<char>>,
    current: Seq<char>,
)
    requires
        texts(earlier) == trimmed_all(done),
        piece@ == trimmed(current),
    ensures
        texts(earlier.push(piece)) == trimmed_all(done.push(current)),
{
    let left = texts(earlier.push(piece));
    let right = trimmed_all(done.push(current));
    assert(texts(earlier).len() == earlier.len());
    assert(trimmed_all(done).len() == done.len());
    assert(left.len() == earlier.len() + 1);
    assert(right.len() == done.len() + 1);
    assert forall|j: int| 0 <= j < left.len() implies left[j] == right[j] by {
        if j < earlier.len() {
            assert(left[j] == texts(earlier)[j]);
            assert(right[j] == trimmed_all(done)[j]);
        }
    }
    assert(left =~= right);
}

/// The pieces of `text` between the occurrences of `separator`, each
/// without the white space around it.
pub fn split_trimmed(text: &str, separator: char) -> (pieces: Vec<String>)
    ensures
        texts(pieces@) == trimmed_all(split(text@, separator)),
{
    let chars = chars_of(text);
    let mut pieces: Vec<String> = Vec::new();
    let ghost mut done: Seq<Seq<char>> = Seq::empty();
    let mut start: usize = 0;
    let mut i: usize = 0;
    proof {
        assert(text@.take(0) =~= Seq::<char>::empty());
        assert(text@.subrange(0, 0) =~= Seq::<char>::empty());
        assert(done.push(text@.subrange(0, 0)) =~= seq![Seq::<char>::empty()]);
        assert(texts(pieces@) =~= trimmed_all(done));
    }
    while i < chars.len()
        invariant
            start <= i <= chars.len(),
            chars@ == text@,
            split(text@.take(i as int), separator) == done.push(
                text@.subrange(start as int, i as int),
            ),
            texts(pieces@) == trimmed_all(done),
        decreases chars.len() - i,
    {
        proof {
            let longer = text@.take(i + 1);
            assert(longer.drop_last() =~= text@.take(i as int));
            assert(longer.last() == text@[i as int]);
            let before = done.push(text@.subrange(start as int, i as int));
            assert(before.drop_last() =~= done);
            assert(before.last() == text@.subrange(start as int, i as int));
            assert(text@.subrange(start as int, i as int).push(text@[i as int]) =~= text@.subrange(
                start as int,
                i + 1,
            ));
            assert(text@.subrange(i + 1, i + 1) =~= Seq::<char>::empty());
        }
        if chars[i] == separator {
            let (from, to) = trim_bounds(&chars, start, i);
            let piece = String::from_str(text.substring_char(from, to));
            let ghost earlier = pieces@;
            pieces.push(piece);
            proof {
                let current = text@.subrange(start as int, i as int);
                lemma_trimmed_piece(earlier, piece, done, current);
                done = done.push(current);
            }
            start = i + 1;
        }
        i += 1;
    }
    let (from, to) = trim_bounds(&chars, start, chars.len());
    let piece = String::from_str(text.substring_char(from, to));
    let ghost earlier = pieces@;
    pieces.push(piece);
    proof {
        let current = text@.subrange(start as int, i as int);
        assert(text@.take(i as int) =~= text@);
        lemma_trimmed_piece(earlier, piece, done, current);
    }
    pieces
}

/// The items of a list put together, with `separator` between each two.
pub fn join_list(items: &Vec<String>, separator: &str) -> (text: String)
    ensures
        text@ == joined_list(texts(items@), separator@),
{
    let mut text = String::new();
    let mut i: usize = 0;
    while i < items.len()
        invariant
            i <= items.len(),
            text@ == joined_list(texts(items@).take(i as int), separator@),
        decreases items.len() - i,
    {
        proof {
            let longer = texts(items@).take(i + 1);
            assert(longer.drop_last() =~= texts(items@).take(i as int));
            assert(longer.last() == items@[i as int]@);
        }
        if i > 0 {
            text.append(separator);
        }
        text.append(items[i].as_str());
        proof {
            if i == 0 {
                assert(text@ =~= items@[0]@);
            }
        }
        i += 1;
    }
    proof {
        assert(texts(items@).take(i as int) =~= texts(items@));
    }
    text
}

/// A text has at least one piece.
pub proof fn lemma_split_has_a_piece(text: Seq<char>, separator: char)
    ensures
        split(text, separator).len() >= 1,
    decreases text.len(),
{
    if text.len() > 0 {
        lemma_split_has_a_piece(text.drop_last(), separator);
    }
}

/// A separator at the end of a text opens a new, empty piece.
pub proof fn lemma_split_after_separator(text: Seq<char>, separator: char)
    ensures
        split(text.push(separator), separator) == split(text, separator).push(Seq::empty()),
{
    assert(text.push(separator).drop_last() =~= text);
}

/// Text without a separator lengthens the last piece and makes no new
/// one.
pub proof fn lemma_split_after_plain_text(text: Seq<char>, more: Seq<char>, separator: char)
    requires
        !more.contains(separator),
    ensures
        split(text + more, separator) == split(text, separator).drop_last().push(
            split(text, separator).last() + more,
        ),
    decreases more.len(),
{
    let pieces = split(text, separator);
    lemma_split_has_a_piece(text, separator);
    if more.len() == 0 {
        assert(text + more =~= text);
        assert(pieces.last() + more =~= pieces.last());
        assert(pieces.drop_last().push(pieces.last()) =~= pieces);
    } else {
        let shorter = more.drop_last();
        assert(!shorter.contains(separator)) by {
            if shorter.contains(separator) {
                let i = choose|i: int| 0 <= i < shorter.len() && shorter[i] == separator;
                assert(more[i] == separator);
            }
        }
        assert(more.last() != separator) by {
            assert(more[more.len() - 1] == more.last());
        }
        lemma_split_after_plain_text(text, shorter, separator);
        assert((text + more).drop_last() =~= text + shorter);
        assert((text + more).last() == more.last());
        let before = split(text + shorter, separator);
        assert(before.drop_last() =~= pieces.drop_last());
        assert(before.last().push(more.last()) =~= pieces.last() + more);
    }
}

/// A text that neither begins nor ends with white space stays as it is
/// when it is trimmed, with or without white space put before it.
pub proof fn lemma_trimmed_is_unchanged(text: Seq<char>, space: char)
    requires
        text.len() > 0 ==> !white_space(text[0]) && !white_space(text.last()),
        white_space(space),
    ensures
        trimmed(text) == text,
        trimmed(seq![space] + text) == text,
{
    let padded = seq![space] + text;
    assert(padded[0] == space);
    assert(padded.skip(1) =~= text);
}

} // verus!
