//! The bytes of a file as text. A file is read line by line, and a line
//! that is not UTF-8 reads as an empty line.

use vstd::prelude::*;
use vstd::string::{StringExecFns, StringSliceAdditionalSpecFns};
use vstd::utf8::{
    char_is_scalar, decode_utf8, encode_scalar, encode_utf8, encode_utf8_decode_utf8,
    encode_utf8_valid_utf8, has_width_1_encoding, has_width_2_encoding, has_width_3_encoding,
    valid_utf8,
};
use crate::text::{
    free_of, join, lemma_join_split, lemma_split_append, lemma_split_pieces, lemma_split_push_sep,
    split,
};

verus! {

/// The byte that ends a line.
pub const LINE_FEED: u8 = 10;

/// The text that the bytes of one line spell: what they decode to, or
/// nothing where they are not UTF-8.
pub open spec fn line_text(line: Seq<u8>) -> Seq<char> {
    if valid_utf8(line) {
        decode_utf8(line)
    } else {
        Seq::empty()
    }
}

/// The text of each of `lines`.
pub open spec fn texts(lines: Seq<Seq<u8>>) -> Seq<Seq<char>> {
    Seq::new(lines.len(), |k: int| line_text(lines[k]))
}

/// The text of a file with the content `bytes`: the text of each piece
/// between its line feeds, with the line feeds put back.
pub open spec fn file_text(bytes: Seq<u8>) -> Seq<char> {
    join(texts(split(bytes, LINE_FEED)), '\n')
}

/// The UTF-8 encoding of each of `parts`.
pub open spec fn encoded(parts: Seq<Seq<char>>) -> Seq<Seq<u8>> {
    Seq::new(parts.len(), |k: int| encode_utf8(parts[k]))
}

/// The views of the vectors in `pieces`.
pub open spec fn byte_views(pieces: Seq<Vec<u8>>) -> Seq<Seq<u8>> {
    Seq::new(pieces.len(), |i: int| pieces[i]@)
}

/// Text is encoded piece by piece.
pub proof fn lemma_encode_concat(left: Seq<char>, right: Seq<char>)
    ensures
        encode_utf8(left + right) == encode_utf8(left) + encode_utf8(right),
    decreases left.len(),
{
    if left.len() == 0 {
        assert(left + right =~= right);
        assert(encode_utf8(left) + encode_utf8(right) =~= encode_utf8(right));
    } else {
        lemma_encode_concat(left.drop_first(), right);
        assert((left + right).drop_first() =~= left.drop_first() + right);
        assert(encode_utf8(left + right) =~= encode_utf8(left) + encode_utf8(right));
    }
}

/// A byte with its highest bit set is no line feed.
proof fn lemma_high_byte(low: u8)
    ensures
        0x80u8 | low != 10u8,
        0xC0u8 | low != 10u8,
        0xE0u8 | low != 10u8,
        0xF0u8 | low != 10u8,
{
    assert(0x80u8 | low != 10u8) by (bit_vector);
    assert(0xC0u8 | low != 10u8) by (bit_vector);
    assert(0xE0u8 | low != 10u8) by (bit_vector);
    assert(0xF0u8 | low != 10u8) by (bit_vector);
}

/// The encoding of a line feed is the one byte for it, and the encoding
/// of any other character holds no such byte.
pub proof fn lemma_encode_scalar_line_feed(c: char)
    ensures
        c == '\n' ==> encode_scalar(c as u32) == seq![LINE_FEED],
        c != '\n' ==> free_of(encode_scalar(c as u32), LINE_FEED),
{
    let s = c as u32;
    char_is_scalar(c);
    let bytes = encode_scalar(s);
    if has_width_1_encoding(s) {
        assert(s <= 0x7F ==> (s & 0x7F) as u8 == s) by (bit_vector);
        assert(bytes =~= seq![s as u8]);
    } else {
        assert forall|i: int| 0 <= i < bytes.len() implies bytes[i] != LINE_FEED by {
            if has_width_2_encoding(s) {
                lemma_high_byte(((s >> 6) & 0x1F) as u8);
                lemma_high_byte((s & 0x3F) as u8);
            } else if has_width_3_encoding(s) {
                lemma_high_byte(((s >> 12) & 0x0F) as u8);
                lemma_high_byte(((s >> 6) & 0x3F) as u8);
                lemma_high_byte((s & 0x3F) as u8);
            } else {
                lemma_high_byte(((s >> 18) & 0x7) as u8);
                lemma_high_byte(((s >> 12) & 0x3F) as u8);
                lemma_high_byte(((s >> 6) & 0x3F) as u8);
                lemma_high_byte((s & 0x3F) as u8);
            }
        }
    }
}

/// The encoding of text splits at its line-feed bytes into the encodings
/// of the pieces between the line feeds of the text.
pub proof fn lemma_encode_split(text: Seq<char>)
    ensures
        split(encode_utf8(text), LINE_FEED) == encoded(split(text, '\n')),
    decreases text.len(),
{
    if text.len() == 0 {
        assert(split(encode_utf8(text), LINE_FEED) =~= encoded(split(text, '\n')));
    } else {
        let front = text.drop_last();
        let c = text.last();
        let pieces = split(front, '\n');
        lemma_encode_split(front);
        lemma_split_pieces(front, '\n');
        lemma_encode_concat(front, seq![c]);
        lemma_encode_scalar_line_feed(c);
        assert(front + seq![c] =~= text);
        assert(encode_utf8(seq![c]) =~= encode_scalar(c as u32)) by {
            assert(seq![c].drop_first() =~= Seq::<char>::empty());
            assert(seq![c][0] == c);
            assert(encode_utf8(Seq::<char>::empty()) =~= Seq::<u8>::empty());
        }
        if c == '\n' {
            assert(encode_utf8(front) + seq![LINE_FEED] =~= encode_utf8(front).push(LINE_FEED));
            lemma_split_push_sep(encode_utf8(front), LINE_FEED);
            assert(encoded(pieces).push(Seq::empty()) =~= encoded(pieces.push(Seq::empty())));
        } else {
            lemma_split_append(encode_utf8(front), encode_scalar(c as u32), LINE_FEED);
            lemma_encode_concat(pieces.last(), seq![c]);
            assert(pieces.last() + seq![c] =~= pieces.last().push(c));
            let grown = pieces.drop_last().push(pieces.last().push(c));
            assert(encoded(pieces).drop_last().push(
                encoded(pieces).last() + encode_scalar(c as u32),
            ) =~= encoded(grown));
        }
    }
}

/// A file that holds the encoding of a text reads as that text.
pub proof fn lemma_file_text_of_encoded(text: Seq<char>)
    ensures
        file_text(encode_utf8(text)) == text,
{
    let pieces = split(text, '\n');
    lemma_encode_split(text);
    assert(texts(encoded(pieces)) =~= pieces) by {
        assert forall|k: int| 0 <= k < pieces.len() implies line_text(encode_utf8(pieces[k]))
            == pieces[k] by {
            encode_utf8_valid_utf8(pieces[k]);
            encode_utf8_decode_utf8(pieces[k]);
        }
    }
    lemma_join_split(text, '\n');
}

/// Calls `std::str::from_utf8`. Trusted: where it succeeds, the text is
/// made of just these bytes, and it fails only where the bytes are not
/// valid UTF-8.
#[verifier::external_body]
fn utf8_text(bytes: &[u8]) -> (text: Option<&str>)
    ensures
        match text {
            Some(decoded) => decoded.spec_bytes() == bytes@,
            None => !valid_utf8(bytes@),
        },
{
    match std::str::from_utf8(bytes) {
        Ok(decoded) => Some(decoded),
        Err(_) => None,
    }
}

/// Splits `bytes` at every `sep`.
pub fn split_bytes(bytes: &[u8], sep: u8) -> (pieces: Vec<Vec<u8>>)
    ensures
        byte_views(pieces@) == split(bytes@, sep),
{
    let mut pieces: Vec<Vec<u8>> = Vec::new();
    let mut piece: Vec<u8> = Vec::new();
    let mut i: usize = 0;
    while i < bytes.len()
        invariant
            i <= bytes.len(),
            split(bytes@.take(i as int), sep) == byte_views(pieces@).push(piece@),
        decreases bytes.len() - i,
    {
        let b = bytes[i];
        proof {
            assert(bytes@.take(i + 1).drop_last() =~= bytes@.take(i as int));
        }
        if b == sep {
            pieces.push(piece);
            piece = Vec::new();
        } else {
            piece.push(b);
        }
        i = i + 1;
        assert(byte_views(pieces@).push(piece@) =~= split(bytes@.take(i as int), sep));
    }
    pieces.push(piece);
    proof {
        assert(bytes@.take(bytes.len() as int) =~= bytes@);
        assert(byte_views(pieces@) =~= split(bytes@, sep));
    }
    pieces
}

/// The text of a file with the content `bytes`.
pub fn read_text(bytes: &[u8]) -> (text: String)
    ensures
        text@ == file_text(bytes@),
{
    let pieces = split_bytes(bytes, LINE_FEED);
    let ghost all = texts(split(bytes@, LINE_FEED));
    let mut text = String::new();
    let mut k: usize = 0;
    proof {
        lemma_split_pieces(bytes@, LINE_FEED);
        assert(all.take(0) =~= Seq::empty());
    }
    while k < pieces.len()
        invariant
            k <= pieces.len(),
            byte_views(pieces@) == split(bytes@, LINE_FEED),
            all == texts(split(bytes@, LINE_FEED)),
            text@ == join(all.take(k as int), '\n'),
        decreases pieces.len() - k,
    {
        proof {
            reveal_strlit("\n");
            assert(all.take(k + 1).drop_last() =~= all.take(k as int));
            assert(all.take(k + 1).last() == line_text(pieces[k as int]@));
        }
        if k > 0 {
            text.append("\n");
        }
        match utf8_text(pieces[k].as_slice()) {
            Some(decoded) => {
                proof {
                    encode_utf8_valid_utf8(decoded@);
                    encode_utf8_decode_utf8(decoded@);
                }
                text.append(decoded);
            },
            None => {},
        }
        k = k + 1;
        proof {
            assert("\n"@ =~= seq!['\n']);
            assert(text@ =~= join(all.take(k as int), '\n'));
        }
    }
    proof {
        assert(all.take(pieces.len() as int) =~= all);
    }
    text
}

} // verus!
