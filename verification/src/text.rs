//! Bytes of a text: pieces between separators, lines, and whole numbers
//! written in decimal.

use vstd::prelude::*;

verus! {

/// The line feed that ends a line.
pub const LINE_FEED: u8 = 10;

/// The carriage return that may stand before a line feed.
pub const CARRIAGE_RETURN: u8 = 13;

/// The space between two fields of a line.
pub const SPACE: u8 = 32;

/// The plus sign that may stand before the digits of a number.
pub const PLUS: u8 = 43;

/// The digit zero; the other nine digits follow it.
pub const DIGIT_ZERO: u8 = 48;

/// The pieces of `s` between the occurrences of `sep`.
///
/// There is always one piece more than there are separators: a separator
/// at either end, or two in a row, bound an empty piece.
pub open spec fn split(s: Seq<u8>, sep: u8) -> Seq<Seq<u8>>
    decreases s.len(),
{
    if s.len() == 0 {
        seq![Seq::<u8>::empty()]
    } else {
        let before = split(s.drop_last(), sep);
        if s.last() == sep {
            before.push(Seq::<u8>::empty())
        } else {
            before.drop_last().push(before.last().push(s.last()))
        }
    }
}

/// The pieces laid end to end, with `sep` between each two.
pub open spec fn join(pieces: Seq<Seq<u8>>, sep: u8) -> Seq<u8>
    decreases pieces.len(),
{
    if pieces.len() == 0 {
        Seq::<u8>::empty()
    } else if pieces.len() == 1 {
        pieces[0]
    } else {
        join(pieces.drop_last(), sep).push(sep) + pieces.last()
    }
}

/// `line` without the carriage return at its end, if it has one.
pub open spec fn without_carriage_return(line: Seq<u8>) -> Seq<u8> {
    if line.len() > 0 && line.last() == CARRIAGE_RETURN {
        line.drop_last()
    } else {
        line
    }
}

/// The lines of a text.
///
/// A line ends at a line feed; a carriage return just before that line
/// feed is not part of the line. What follows the last line feed is a line
/// too, unless nothing follows it.
pub open spec fn lines(text: Seq<u8>) -> Seq<Seq<u8>> {
    let pieces = split(text, LINE_FEED);
    let ended = pieces.drop_last().map_values(|l: Seq<u8>| without_carriage_return(l));
    if pieces.last().len() == 0 {
        ended
    } else {
        ended.push(pieces.last())
    }
}

/// The contents of each vector of `v`.
pub open spec fn views(v: Seq<Vec<u8>>) -> Seq<Seq<u8>> {
    v.map_values(|p: Vec<u8>| p@)
}

/// Whether `b` is one of the ten decimal digits.
pub open spec fn is_digit(b: u8) -> bool {
    DIGIT_ZERO <= b <= DIGIT_ZERO + 9
}

/// Whether `s` holds decimal digits only.
pub open spec fn all_digits(s: Seq<u8>) -> bool {
    forall|i: int| 0 <= i < s.len() ==> is_digit(#[trigger] s[i])
}

/// The number that the digits of `s` write in decimal.
pub open spec fn digits_value(s: Seq<u8>) -> nat
    decreases s.len(),
{
    if s.len() == 0 {
        0
    } else {
        (10 * digits_value(s.drop_last()) + (s.last() - DIGIT_ZERO)) as nat
    }
}

/// The digits of a number's text: what follows its plus sign, if it has one.
pub open spec fn digits_of(s: Seq<u8>) -> Seq<u8> {
    if s.len() > 0 && s[0] == PLUS {
        s.skip(1)
    } else {
        s
    }
}

/// The whole number that `s` writes: an optional plus sign, then one or
/// more decimal digits and nothing else. `None` for any other text.
pub open spec fn decimal(s: Seq<u8>) -> Option<nat> {
    let digits = digits_of(s);
    if digits.len() > 0 && all_digits(digits) {
        Some(digits_value(digits))
    } else {
        None
    }
}

/// The number that `s` writes, where it is one that a `usize` holds.
pub open spec fn decimal_usize(s: Seq<u8>) -> Option<usize> {
    match decimal(s) {
        Some(n) if n <= usize::MAX => Some(n as usize),
        _ => None,
    }
}

/// Whether no piece holds the separator.
pub open spec fn free_of(pieces: Seq<Seq<u8>>, sep: u8) -> bool {
    forall|k: int, i: int|
        0 <= k < pieces.len() && 0 <= i < pieces[k].len() ==> #[trigger] pieces[k][i] != sep
}

/// No piece of a split holds the separator.
pub proof fn split_pieces_hold_no_separator(s: Seq<u8>, sep: u8)
    ensures
        split(s, sep).len() >= 1,
        free_of(split(s, sep), sep),
    decreases s.len(),
{
    if s.len() > 0 {
        split_pieces_hold_no_separator(s.drop_last(), sep);
    }
}

/// Joining the pieces of a split with the separator gives the text back.
pub proof fn join_of_split(s: Seq<u8>, sep: u8)
    ensures
        join(split(s, sep), sep) == s,
    decreases s.len(),
{
    if s.len() > 0 {
        let before = split(s.drop_last(), sep);
        split_pieces_hold_no_separator(s.drop_last(), sep);
        join_of_split(s.drop_last(), sep);
        if s.last() == sep {
            assert(before.push(Seq::<u8>::empty()).drop_last() == before);
        } else if before.len() > 1 {
            let head = join(before.drop_last(), sep).push(sep);
            let now = before.drop_last().push(before.last().push(s.last()));
            assert(now.drop_last() == before.drop_last());
            assert(join(before, sep) == head + before.last());
            assert(join(now, sep) == head + before.last().push(s.last()));
            assert(head + before.last().push(s.last()) == (head + before.last()).push(s.last()));
        }
    }
}

/// Text without a separator, put after a text, lengthens its last piece.
proof fn split_of_appended(s: Seq<u8>, more: Seq<u8>, sep: u8)
    requires
        forall|i: int| 0 <= i < more.len() ==> more[i] != sep,
    ensures
        split(s + more, sep) == split(s, sep).drop_last().push(split(s, sep).last() + more),
    decreases more.len(),
{
    split_pieces_hold_no_separator(s, sep);
    let pieces = split(s, sep);
    if more.len() > 0 {
        let head = more.drop_last();
        split_of_appended(s, head, sep);
        assert((s + more).drop_last() == s + head);
        assert((pieces.last() + head).push(more.last()) == pieces.last() + more);
    }
}

/// Splitting what was joined gives the pieces back: the split of a text is
/// the one way to cut it into pieces without a separator in them.
pub proof fn split_of_join(pieces: Seq<Seq<u8>>, sep: u8)
    requires
        pieces.len() >= 1,
        free_of(pieces, sep),
    ensures
        split(join(pieces, sep), sep) == pieces,
    decreases pieces.len(),
{
    let last = pieces.last();
    assert(forall|i: int| 0 <= i < last.len() ==> last[i] != sep);
    if pieces.len() == 1 {
        split_of_appended(Seq::<u8>::empty(), last, sep);
    } else {
        let head = pieces.drop_last();
        assert(free_of(head, sep));
        split_of_join(head, sep);
        let ended = join(head, sep).push(sep);
        assert(ended.drop_last() == join(head, sep));
        split_of_appended(ended, last, sep);
    }
}

/// A number's value does not shrink as more of its digits are read.
pub proof fn digits_value_grows(s: Seq<u8>, k: int)
    requires
        all_digits(s),
        0 <= k <= s.len(),
    ensures
        digits_value(s.take(k)) <= digits_value(s),
    decreases s.len() - k,
{
    if k < s.len() {
        digits_value_grows(s, k + 1);
        assert(s.take(k + 1).drop_last() == s.take(k));
    } else {
        assert(s.take(k) == s);
    }
}

/// The pieces of `s` between the occurrences of `sep`, each as a vector of
/// its own.
pub fn split_bytes(s: &[u8], sep: u8) -> (pieces: Vec<Vec<u8>>)
    ensures
        views(pieces@) == split(s@, sep),
{
    let mut done: Vec<Vec<u8>> = Vec::new();
    let mut current: Vec<u8> = Vec::new();
    let mut i: usize = 0;
    while i < s.len()
        invariant
            i <= s.len(),
            views(done@).push(current@) == split(s@.take(i as int), sep),
        decreases s.len() - i,
    {
        let b = s[i];
        assert(s@.take(i + 1).drop_last() == s@.take(i as int));
        if b == sep {
            done.push(current);
            current = Vec::new();
        } else {
            current.push(b);
        }
        i += 1;
    }
    assert(s@.take(s.len() as int) == s@);
    done.push(current);
    done
}

/// The lines of `text`, each as a vector of its own.
pub fn split_lines(text: &[u8]) -> (out: Vec<Vec<u8>>)
    ensures
        views(out@) == lines(text@),
{
    let mut pieces = split_bytes(text, LINE_FEED);
    proof {
        split_pieces_hold_no_separator(text@, LINE_FEED);
    }
    let last = pieces.pop().unwrap();
    let mut out: Vec<Vec<u8>> = Vec::new();
    let mut i: usize = 0;
    let n = pieces.len();
    while i < n
        invariant
            n == pieces.len(),
            i <= n,
            out.len() == i,
            forall|k: int| 0 <= k < i ==> (#[trigger] out[k])@ == without_carriage_return(pieces[k]@),
        decreases n - i,
    {
        let piece = &pieces[i];
        let len = piece.len();
        let mut line: Vec<u8> = Vec::new();
        let keep = if len > 0 && piece[len - 1] == CARRIAGE_RETURN {
            len - 1
        } else {
            len
        };
        let mut j: usize = 0;
        while j < keep
            invariant
                j <= keep <= piece.len(),
                line@ == piece@.take(j as int),
            decreases keep - j,
        {
            line.push(piece[j]);
            j += 1;
        }
        assert(piece@.take(keep as int) == without_carriage_return(piece@));
        out.push(line);
        i += 1;
    }
    if last.len() > 0 {
        out.push(last);
    }
    out
}

/// The number that `field` writes in decimal, if it writes one that a
/// `usize` holds.
pub fn parse_usize(field: &[u8]) -> (r: Option<usize>)
    ensures
        r == decimal_usize(field@),
{
    let n = field.len();
    let start: usize = if n > 0 && field[0] == PLUS {
        1
    } else {
        0
    };
    let ghost digits = digits_of(field@);
    if start == n {
        return None;
    }
    let mut value: usize = 0;
    let mut i: usize = start;
    while i < n
        invariant
            start <= i <= n,
            n == field.len(),
            digits == field@.skip(start as int),
            digits == digits_of(field@),
            all_digits(digits.take(i - start)),
            value == digits_value(digits.take(i - start)),
        decreases n - i,
    {
        let b = field[i];
        let ghost read = digits.take(i - start);
        let ghost next = digits.take(i - start + 1);
        assert(next.drop_last() == read);
        assert(next.last() == b);
        if b < DIGIT_ZERO || b > DIGIT_ZERO + 9 {
            return None;
        }
        assert(all_digits(next));
        let digit: usize = (b - DIGIT_ZERO) as usize;
        let grown = match value.checked_mul(10) {
            Some(tenfold) => tenfold.checked_add(digit),
            None => None,
        };
        match grown {
            Some(v) => {
                value = v;
            },
            None => {
                proof {
                    if all_digits(digits) {
                        digits_value_grows(digits, i - start + 1);
                    }
                }
                return None;
            },
        }
        i += 1;
    }
    assert(digits.take(n - start) == digits);
    Some(value)
}

} // verus!
