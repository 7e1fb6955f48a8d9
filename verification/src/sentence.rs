//! Framing of NMEA-0183 sentences: `$`, the body, `*`, the checksum of the
//! body as two hexadecimal digits, and the line end.

use crate::text::{all_plain, is_plain};
use vstd::prelude::*;
use vstd::string::StringExecFns;
use vstd::utf8::encode_utf8;

verus! {

/// The exclusive-or of all bytes of `bytes`; zero for none.
pub open spec fn xor_fold(bytes: Seq<u8>) -> u8
    decreases bytes.len(),
{
    if bytes.len() == 0 {
        0u8
    } else {
        xor_fold(bytes.drop_last()) ^ bytes.last()
    }
}

/// The upper-case character of one hexadecimal digit.
pub open spec fn hex_char(d: int) -> char {
    if d == 0 {
        '0'
    } else if d == 1 {
        '1'
    } else if d == 2 {
        '2'
    } else if d == 3 {
        '3'
    } else if d == 4 {
        '4'
    } else if d == 5 {
        '5'
    } else if d == 6 {
        '6'
    } else if d == 7 {
        '7'
    } else if d == 8 {
        '8'
    } else if d == 9 {
        '9'
    } else if d == 10 {
        'A'
    } else if d == 11 {
        'B'
    } else if d == 12 {
        'C'
    } else if d == 13 {
        'D'
    } else if d == 14 {
        'E'
    } else {
        'F'
    }
}

/// Whether `c` is a hexadecimal digit in upper case.
pub open spec fn is_upper_hex(c: char) -> bool {
    exists|d: int| 0 <= d < 16 && c == #[trigger] hex_char(d)
}

/// A byte as two upper-case hexadecimal digits, the high one first.
pub open spec fn hex_pair(value: u8) -> Seq<char> {
    seq![hex_char(value as int / 16), hex_char(value as int % 16)]
}

/// The checksum field of a sentence with the given body.
pub open spec fn checksum_text(body: Seq<char>) -> Seq<char> {
    hex_pair(xor_fold(encode_utf8(body)))
}

/// The complete sentence around `body`.
pub open spec fn frame(body: Seq<char>) -> Seq<char> {
    seq!['$'] + body + seq!['*'] + checksum_text(body) + seq!['\r', '\n']
}

/// The upper-case character of the hexadecimal digit `d`.
pub fn hex_digit(d: u8) -> (c: char)
    requires
        d < 16,
    ensures
        c == hex_char(d as int),
{
    if d == 0 {
        '0'
    } else if d == 1 {
        '1'
    } else if d == 2 {
        '2'
    } else if d == 3 {
        '3'
    } else if d == 4 {
        '4'
    } else if d == 5 {
        '5'
    } else if d == 6 {
        '6'
    } else if d == 7 {
        '7'
    } else if d == 8 {
        '8'
    } else if d == 9 {
        '9'
    } else if d == 10 {
        'A'
    } else if d == 11 {
        'B'
    } else if d == 12 {
        'C'
    } else if d == 13 {
        'D'
    } else if d == 14 {
        'E'
    } else {
        'F'
    }
}

/// The exclusive-or of all bytes of `sentence`.
pub fn checksum_byte(sentence: &str) -> (checksum: u8)
    ensures
        checksum == xor_fold(encode_utf8(sentence@)),
{
    let bytes = sentence.as_bytes();
    let mut checksum: u8 = 0;
    let mut i: usize = 0;
    while i < bytes.len()
        invariant
            i <= bytes.len(),
            checksum == xor_fold(bytes@.take(i as int)),
        decreases bytes.len() - i,
    {
        assert(bytes@.take(i + 1).drop_last() =~= bytes@.take(i as int));
        checksum = checksum ^ bytes[i];
        i = i + 1;
    }
    assert(bytes@.take(i as int) =~= bytes@);
    checksum
}

/// The checksum of a sentence body: the exclusive-or of its bytes, as two
/// upper-case hexadecimal digits.
pub fn calculate_checksum(sentence: &str) -> (text: String)
    ensures
        text@ == checksum_text(sentence@),
{
    let checksum = checksum_byte(sentence);
    let mut text = String::new();
    text.push(hex_digit(checksum / 16));
    text.push(hex_digit(checksum % 16));
    assert(text@ =~= checksum_text(sentence@));
    text
}

/// Frames a sentence body: `$`, the body, `*`, its checksum, and `\r\n`.
pub fn complete_sentence(sentence: &str) -> (framed: String)
    ensures
        framed@ == frame(sentence@),
{
    let checksum = calculate_checksum(sentence);
    let mut framed = String::new();
    framed.push('$');
    framed.append(sentence);
    framed.push('*');
    framed.append(checksum.as_str());
    framed.push('\r');
    framed.push('\n');
    assert(framed@ =~= frame(sentence@));
    framed
}

/// In every framed sentence the body stands between a leading `$` and a `*`,
/// and the `*` is followed by exactly two upper-case hexadecimal digits that
/// spell the exclusive-or of the body's bytes, and then by `\r\n`.
pub proof fn lemma_frame_checksum(body: Seq<char>)
    ensures
        frame(body).len() == body.len() + 6,
        frame(body)[0] == '$',
        frame(body).subrange(1, body.len() as int + 1) == body,
        frame(body)[body.len() as int + 1] == '*',
        frame(body)[body.len() as int + 2] == hex_char(xor_fold(encode_utf8(body)) as int / 16),
        frame(body)[body.len() as int + 3] == hex_char(xor_fold(encode_utf8(body)) as int % 16),
        is_upper_hex(frame(body)[body.len() as int + 2]),
        is_upper_hex(frame(body)[body.len() as int + 3]),
        frame(body)[body.len() as int + 4] == '\r',
        frame(body)[body.len() as int + 5] == '\n',
{
    let n = body.len() as int;
    let x = xor_fold(encode_utf8(body)) as int;
    assert(frame(body).subrange(1, n + 1) =~= body);
    assert(frame(body)[n + 2] == hex_char(x / 16));
    assert(frame(body)[n + 3] == hex_char(x % 16));
    assert(0 <= x / 16 < 16 && 0 <= x % 16 < 16);
}

/// The sentences around `bodies`, one after the other.
pub open spec fn frames(bodies: Seq<Seq<char>>) -> Seq<char>
    decreases bodies.len(),
{
    if bodies.len() == 0 {
        Seq::empty()
    } else {
        frames(bodies.drop_last()) + frame(bodies.last())
    }
}

/// The sentences of two lists of bodies, one list after the other, are the
/// sentences of the first list followed by those of the second.
pub proof fn lemma_frames_of_two_lists(first: Seq<Seq<char>>, second: Seq<Seq<char>>)
    ensures
        frames(first + second) == frames(first) + frames(second),
    decreases second.len(),
{
    if second.len() == 0 {
        assert(first + second =~= first);
        assert(frames(first) + frames(second) =~= frames(first));
    } else {
        lemma_frames_of_two_lists(first, second.drop_last());
        assert((first + second).drop_last() =~= first + second.drop_last());
        assert((first + second).last() == second.last());
        assert(frames(first + second) =~= frames(first) + frames(second));
    }
}

/// One sentence is the sentences of a list of one body.
pub proof fn lemma_frames_of_one(body: Seq<char>)
    ensures
        frames(seq![body]) == frame(body),
{
    let one = seq![body];
    assert(one.drop_last() =~= Seq::<Seq<char>>::empty());
    assert(one.last() == body);
    assert(frames(one.drop_last()) =~= Seq::<char>::empty());
    assert(frames(one) == frames(one.drop_last()) + frame(one.last()));
    assert(frames(one) =~= frame(body));
}

/// In the sentence around a body that holds none of the framing characters,
/// the only `$` is the first character and the only `*` is the one behind
/// the body: the bytes strictly between them are the body's, and the
/// checksum field is what follows.
pub proof fn lemma_frame_delimiters(body: Seq<char>)
    requires
        all_plain(body),
    ensures
        forall|i: int|
            0 <= i < frame(body).len() ==> ((#[trigger] frame(body)[i] == '$') <==> i == 0),
        forall|i: int|
            0 <= i < frame(body).len() ==> ((#[trigger] frame(body)[i] == '*') <==> i
                == body.len() + 1),
{
    lemma_frame_checksum(body);
    let n = body.len() as int;
    let text = frame(body);
    assert forall|i: int| 0 <= i < text.len() implies ((#[trigger] text[i] == '$') <==> i == 0)
        && ((text[i] == '*') <==> i == n + 1) by {
        if 1 <= i <= n {
            assert(text[i] == body[i - 1]);
            assert(is_plain(body[i - 1]));
        }
    }
}

} // verus!
