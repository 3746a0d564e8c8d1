//! Text as a sequence of characters: splitting at a separator, lines, and
//! unsigned decimal numbers.

use vstd::prelude::*;

verus! {

/// `text` holds no `sep`.
pub open spec fn free_of<T>(text: Seq<T>, sep: T) -> bool {
    forall|i: int| 0 <= i < text.len() ==> text[i] != sep
}

/// The pieces of `text` between the occurrences of `sep`. The empty text is
/// one empty piece, a separator opens a new piece, and any other character
/// goes to the end of the last piece. There is always one piece more than
/// there are separators.
pub open spec fn split<T>(text: Seq<T>, sep: T) -> Seq<Seq<T>>
    decreases text.len(),
{
    if text.len() == 0 {
        seq![Seq::empty()]
    } else {
        let before = split(text.drop_last(), sep);
        if text.last() == sep {
            before.push(Seq::empty())
        } else {
            before.drop_last().push(before.last().push(text.last()))
        }
    }
}

/// The pieces of `parts` with one `sep` between each two neighbours.
pub open spec fn join<T>(parts: Seq<Seq<T>>, sep: T) -> Seq<T>
    decreases parts.len(),
{
    if parts.len() == 0 {
        Seq::empty()
    } else if parts.len() == 1 {
        parts[0]
    } else {
        join(parts.drop_last(), sep).push(sep) + parts.last()
    }
}

/// `line` without one carriage return at its end.
pub open spec fn strip_cr(line: Seq<char>) -> Seq<char> {
    if line.len() > 0 && line.last() == '\r' {
        line.drop_last()
    } else {
        line
    }
}

/// Each of `pieces` without one carriage return at its end.
pub open spec fn strip_all(pieces: Seq<Seq<char>>) -> Seq<Seq<char>> {
    Seq::new(pieces.len(), |k: int| strip_cr(pieces[k]))
}

/// The lines of `text`. A line ends at a line feed, and a carriage return
/// just before that line feed is not part of the line. What follows the
/// last line feed is a line as it stands, unless it is empty.
pub open spec fn lines(text: Seq<char>) -> Seq<Seq<char>> {
    let pieces = split(text, '\n');
    let ended = strip_all(pieces.drop_last());
    if pieces.last().len() == 0 {
        ended
    } else {
        ended.push(pieces.last())
    }
}

/// `c` is one of the ten decimal digits.
pub open spec fn is_digit(c: char) -> bool {
    '0' <= c && c <= '9'
}

/// The decimal digit for `d`, which is below ten.
pub open spec fn digit_char(d: nat) -> char {
    ((d + 48) as u8) as char
}

/// What the digit `c` counts; zero for any other character.
pub open spec fn digit_value(c: char) -> nat {
    if is_digit(c) {
        (c as u32 - 48) as nat
    } else {
        0
    }
}

/// Every character of `text` is a decimal digit.
pub open spec fn all_digits(text: Seq<char>) -> bool {
    forall|i: int| 0 <= i < text.len() ==> is_digit(#[trigger] text[i])
}

/// `n` in decimal, without leading zeros.
pub open spec fn decimal(n: nat) -> Seq<char>
    decreases n,
{
    if n < 10 {
        seq![digit_char(n)]
    } else {
        decimal(n / 10).push(digit_char(n % 10))
    }
}

/// The number that the digits of `text` spell.
pub open spec fn digits_value(text: Seq<char>) -> nat
    decreases text.len(),
{
    if text.len() == 0 {
        0
    } else {
        digits_value(text.drop_last()) * 10 + digit_value(text.last())
    }
}

/// `text` read as an unsigned 64-bit number: one or more decimal digits,
/// after an optional plus sign, that spell a number within range.
pub open spec fn parse_u64(text: Seq<char>) -> Option<u64> {
    let digits = if text.len() > 0 && text[0] == '+' {
        text.drop_first()
    } else {
        text
    };
    if digits.len() > 0 && all_digits(digits) && digits_value(digits) <= u64::MAX {
        Some(digits_value(digits) as u64)
    } else {
        None
    }
}

/// The views of the vectors in `pieces`.
pub open spec fn views(pieces: Seq<Vec<char>>) -> Seq<Seq<char>> {
    Seq::new(pieces.len(), |i: int| pieces[i]@)
}

/// A split has at least one piece, and no piece holds the separator.
pub proof fn lemma_split_pieces<T>(text: Seq<T>, sep: T)
    ensures
        split(text, sep).len() >= 1,
        forall|k: int| 0 <= k < split(text, sep).len() ==> free_of(#[trigger] split(text, sep)[k], sep),
    decreases text.len(),
{
    if text.len() > 0 {
        lemma_split_pieces(text.drop_last(), sep);
    }
}

/// Text that is appended without a separator in it goes to the last piece.
pub proof fn lemma_split_append<T>(text: Seq<T>, more: Seq<T>, sep: T)
    requires
        free_of(more, sep),
    ensures
        split(text + more, sep) == split(text, sep).drop_last().push(
            split(text, sep).last() + more,
        ),
    decreases more.len(),
{
    lemma_split_pieces(text, sep);
    let pieces = split(text, sep);
    if more.len() == 0 {
        assert(text + more =~= text);
        assert(pieces.last() + more =~= pieces.last());
        assert(pieces.drop_last().push(pieces.last()) =~= pieces);
    } else {
        let shorter = more.drop_last();
        lemma_split_append(text, shorter, sep);
        assert((text + more).drop_last() =~= text + shorter);
        assert((text + more).last() == more.last());
        let before = split(text + shorter, sep);
        assert(before.drop_last() =~= pieces.drop_last());
        assert(before.last().push(more.last()) =~= pieces.last() + more);
    }
}

/// A separator at the end opens a new, empty piece.
pub proof fn lemma_split_push_sep<T>(text: Seq<T>, sep: T)
    ensures
        split(text.push(sep), sep) == split(text, sep).push(Seq::empty()),
{
    assert(text.push(sep).drop_last() =~= text);
}

/// Text without a separator is a single piece.
pub proof fn lemma_split_free<T>(text: Seq<T>, sep: T)
    requires
        free_of(text, sep),
    ensures
        split(text, sep) == seq![text],
{
    lemma_split_append(Seq::empty(), text, sep);
    assert(Seq::<T>::empty() + text =~= text);
    assert(split(Seq::<T>::empty(), sep).drop_last().push(Seq::<T>::empty() + text) =~= seq![text]);
}

/// Splitting undoes joining, as long as no part holds the separator.
pub proof fn lemma_split_join<T>(parts: Seq<Seq<T>>, sep: T)
    requires
        parts.len() >= 1,
        forall|k: int| 0 <= k < parts.len() ==> free_of(#[trigger] parts[k], sep),
    ensures
        split(join(parts, sep), sep) == parts,
    decreases parts.len(),
{
    if parts.len() == 1 {
        lemma_split_free(parts[0], sep);
        assert(seq![parts[0]] =~= parts);
    } else {
        let front = parts.drop_last();
        lemma_split_join(front, sep);
        lemma_split_push_sep(join(front, sep), sep);
        lemma_split_append(join(front, sep).push(sep), parts.last(), sep);
        let opened = front.push(Seq::empty());
        assert(opened.drop_last() =~= front);
        assert(opened.last() + parts.last() =~= parts.last());
        assert(front.push(parts.last()) =~= parts);
    }
}

/// Joining undoes splitting.
pub proof fn lemma_join_split<T>(text: Seq<T>, sep: T)
    ensures
        join(split(text, sep), sep) == text,
    decreases text.len(),
{
    if text.len() == 0 {
        assert(join(split(text, sep), sep) =~= text);
    } else {
        let front = text.drop_last();
        let pieces = split(front, sep);
        lemma_join_split(front, sep);
        lemma_split_pieces(front, sep);
        assert(front.push(text.last()) =~= text);
        if text.last() == sep {
            assert(pieces.push(Seq::empty()).drop_last() =~= pieces);
            assert(join(pieces, sep).push(sep) + Seq::<T>::empty() =~= join(pieces, sep).push(sep));
        } else {
            let grown = pieces.drop_last().push(pieces.last().push(text.last()));
            assert(grown.drop_last() =~= pieces.drop_last());
            if pieces.len() > 1 {
                assert(join(pieces.drop_last(), sep).push(sep) + pieces.last().push(text.last())
                    =~= (join(pieces.drop_last(), sep).push(sep) + pieces.last()).push(text.last()));
            }
        }
    }
}

/// The decimal form of a number is made of digits, at least one.
pub proof fn lemma_decimal_digits(n: nat)
    ensures
        decimal(n).len() >= 1,
        all_digits(decimal(n)),
    decreases n,
{
    if n >= 10 {
        lemma_decimal_digits(n / 10);
    }
}

/// Reading the decimal form of a number gives the number back.
pub proof fn lemma_decimal_value(n: nat)
    ensures
        digits_value(decimal(n)) == n,
    decreases n,
{
    if n < 10 {
        assert(decimal(n).drop_last() =~= Seq::empty());
        assert(digits_value(Seq::empty()) == 0);
        assert(decimal(n).last() == digit_char(n));
    } else {
        lemma_decimal_value(n / 10);
        assert(decimal(n).drop_last() =~= decimal(n / 10));
        assert(decimal(n).last() == digit_char(n % 10));
    }
}

/// Parsing the decimal form of a 64-bit number gives the number back.
pub proof fn lemma_parse_decimal(n: u64)
    ensures
        parse_u64(decimal(n as nat)) == Some(n),
{
    lemma_decimal_digits(n as nat);
    lemma_decimal_value(n as nat);
    assert(is_digit(decimal(n as nat)[0]));
}

/// A longer row of digits spells no smaller a number than its beginning.
pub proof fn lemma_digits_value_grows(text: Seq<char>, upto: int)
    requires
        0 <= upto <= text.len(),
    ensures
        digits_value(text.take(upto)) <= digits_value(text),
    decreases text.len(),
{
    if upto == text.len() {
        assert(text.take(upto) =~= text);
    } else {
        lemma_digits_value_grows(text.drop_last(), upto);
        assert(text.drop_last().take(upto) =~= text.take(upto));
    }
}

/// Calls `String::push`. Trusted: it appends the one character `c` to
/// `text` and changes nothing else of it.
#[verifier::external_body]
fn push_char(text: &mut String, c: char)
    ensures
        final(text)@ == old(text)@.push(c),
{
    text.push(c)
}

/// Whether `left` and `right` are the same text.
pub fn same_text(left: &str, right: &str) -> (same: bool)
    ensures
        same == (left@ == right@),
{
    left.to_owned() == right.to_owned()
}

/// The characters of `text`, in a vector.
pub fn to_chars(text: &str) -> (chars: Vec<char>)
    ensures
        chars@ == text@,
{
    let mut chars: Vec<char> = Vec::new();
    for c in it: text.chars()
        invariant
            chars@ == it.seq().take(it.index() as int),
            it.seq() == text@,
    {
        chars.push(c);
    }
    chars
}

/// The string that the characters in `chars` spell.
pub fn from_chars(chars: &Vec<char>) -> (text: String)
    ensures
        text@ == chars@,
{
    let mut text = String::new();
    let mut i: usize = 0;
    while i < chars.len()
        invariant
            i <= chars.len(),
            text@ == chars@.take(i as int),
        decreases chars.len() - i,
    {
        push_char(&mut text, chars[i]);
        i = i + 1;
    }
    text
}

/// Splits `text` at every `sep`.
pub fn split_chars(text: &Vec<char>, sep: char) -> (pieces: Vec<Vec<char>>)
    ensures
        views(pieces@) == split(text@, sep),
{
    let mut pieces: Vec<Vec<char>> = Vec::new();
    let mut piece: Vec<char> = Vec::new();
    let mut i: usize = 0;
    while i < text.len()
        invariant
            i <= text.len(),
            split(text@.take(i as int), sep) == views(pieces@).push(piece@),
        decreases text.len() - i,
    {
        let c = text[i];
        proof {
            assert(text@.take(i + 1).drop_last() =~= text@.take(i as int));
        }
        if c == sep {
            pieces.push(piece);
            piece = Vec::new();
        } else {
            piece.push(c);
        }
        i = i + 1;
        assert(views(pieces@).push(piece@) =~= split(text@.take(i as int), sep));
    }
    pieces.push(piece);
    proof {
        assert(text@.take(text.len() as int) =~= text@);
        assert(views(pieces@) =~= split(text@, sep));
    }
    pieces
}

/// The lines of `text`.
pub fn text_lines(text: &Vec<char>) -> (found: Vec<Vec<char>>)
    ensures
        views(found@) == lines(text@),
{
    let mut found: Vec<Vec<char>> = Vec::new();
    let mut piece: Vec<char> = Vec::new();
    let ghost mut ended: Seq<Seq<char>> = Seq::empty();
    let mut i: usize = 0;
    while i < text.len()
        invariant
            i <= text.len(),
            split(text@.take(i as int), '\n') == ended.push(piece@),
            views(found@) == strip_all(ended),
        decreases text.len() - i,
    {
        let c = text[i];
        proof {
            assert(text@.take(i + 1).drop_last() =~= text@.take(i as int));
        }
        if c == '\n' {
            let ghost whole = piece@;
            if piece.len() > 0 && piece[piece.len() - 1] == '\r' {
                piece.pop();
            }
            assert(piece@ == strip_cr(whole));
            let ghost found_before = found@;
            found.push(piece);
            piece = Vec::new();
            proof {
                assert(views(found@) =~= views(found_before).push(strip_cr(whole)));
                assert(strip_all(ended.push(whole)) =~= strip_all(ended).push(strip_cr(whole)));
                ended = ended.push(whole);
            }
        } else {
            piece.push(c);
        }
        i = i + 1;
        proof {
            assert(ended.push(piece@) =~= split(text@.take(i as int), '\n'));
            assert(views(found@) =~= strip_all(ended));
        }
    }
    proof {
        assert(text@.take(text.len() as int) =~= text@);
        assert(ended.push(piece@).drop_last() =~= ended);
    }
    if piece.len() > 0 {
        found.push(piece);
        assert(views(found@) =~= lines(text@));
    }
    found
}

/// Reads `text` as an unsigned 64-bit decimal number. `None` if it is not
/// one, or if the number is out of range.
pub fn parse_number(text: &Vec<char>) -> (number: Option<u64>)
    ensures
        number == parse_u64(text@),
{
    let n = text.len();
    let start: usize = if n > 0 && text[0] == '+' {
        1
    } else {
        0
    };
    let ghost digits = text@.subrange(start as int, n as int);
    proof {
        if start == 1 {
            assert(digits =~= text@.drop_first());
        } else {
            assert(digits =~= text@);
        }
    }
    if start == n {
        return None;
    }
    let mut value: u64 = 0;
    let mut i: usize = start;
    while i < n
        invariant
            start <= i <= n,
            n == text.len(),
            digits == text@.subrange(start as int, n as int),
            digits == if text@.len() > 0 && text@[0] == '+' {
                text@.drop_first()
            } else {
                text@
            },
            all_digits(digits.take(i - start)),
            value == digits_value(digits.take(i - start)),
        decreases n - i,
    {
        let c = text[i];
        proof {
            assert(digits[i - start] == c);
            assert(digits.take(i - start + 1).drop_last() =~= digits.take(i - start));
        }
        if !('0' <= c && c <= '9') {
            return None;
        }
        let d: u64 = (c as u32 - 48) as u64;
        if value > (u64::MAX - d) / 10 {
            proof {
                lemma_digits_value_grows(digits, i - start + 1);
            }
            return None;
        }
        value = value * 10 + d;
        i = i + 1;
    }
    proof {
        assert(digits.take(n - start) =~= digits);
    }
    Some(value)
}

/// Appends `n` in decimal to `out`.
pub fn push_decimal(out: &mut String, n: u64)
    ensures
        final(out)@ == old(out)@ + decimal(n as nat),
    decreases n,
{
    if n >= 10 {
        push_decimal(out, n / 10);
    }
    push_char(out, ((n % 10) as u8 + 48) as char);
    assert(out@ =~= old(out)@ + decimal(n as nat));
}

} // verus!
