//! Decimal and fixed-point rendering into `String`s.

use vstd::prelude::*;

verus! {

/// The character of one decimal digit.
pub open spec fn digit_char(d: int) -> char {
    if d == 0 {
        '0'
    } else if d == 1 {
        '1'
    } else if d == 2 {
        '2'
    } else if d == 3 {
        '3'
    } else if d == 4 {
        '4'
    } else if d == 5 {
        '5'
    } else if d == 6 {
        '6'
    } else if d == 7 {
        '7'
    } else if d == 8 {
        '8'
    } else {
        '9'
    }
}

/// Whether `c` is one of `0` to `9`.
pub open spec fn is_digit(c: char) -> bool {
    exists|d: int| 0 <= d < 10 && c == #[trigger] digit_char(d)
}

/// The decimal numeral of `n`, without leading zeros.
pub open spec fn decimal(n: nat) -> Seq<char>
    decreases n,
{
    if n < 10 {
        seq![digit_char(n as int)]
    } else {
        decimal(n / 10).push(digit_char((n % 10) as int))
    }
}

/// `count` zeros.
pub open spec fn zeros(count: nat) -> Seq<char> {
    Seq::new(count, |i: int| '0')
}

/// The decimal numeral of `n`, with zeros in front up to `width` characters.
/// A numeral that is longer than `width` is left as it is.
pub open spec fn padded(n: nat, width: nat) -> Seq<char> {
    if decimal(n).len() >= width {
        decimal(n)
    } else {
        zeros((width - decimal(n).len()) as nat) + decimal(n)
    }
}

/// A value given in tenths, as a numeral with one decimal place.
pub open spec fn tenths(v: int) -> Seq<char> {
    if v < 0 {
        seq!['-'] + decimal(((-v) / 10) as nat) + seq!['.', digit_char((-v) % 10)]
    } else {
        decimal((v / 10) as nat) + seq!['.', digit_char(v % 10)]
    }
}

/// A whole number as a numeral, with a minus sign in front where it is
/// negative.
pub open spec fn integer(v: int) -> Seq<char> {
    if v < 0 {
        seq!['-'] + decimal((-v) as nat)
    } else {
        decimal(v as nat)
    }
}

/// Whether `c` can stand inside a sentence: it is none of the characters
/// that frame one, `$`, `*` and the two of the line end.
pub open spec fn is_plain(c: char) -> bool {
    c != '$' && c != '*' && c != '\r' && c != '\n'
}

/// Whether all of `text` can stand inside a sentence.
pub open spec fn all_plain(text: Seq<char>) -> bool {
    forall|i: int| 0 <= i < text.len() ==> is_plain(#[trigger] text[i])
}

/// `String::push` adds one character at the end of the string.
pub assume_specification[ String::push ](s: &mut String, c: char)
    ensures
        final(s)@ == old(s)@.push(c),
;

/// The character of the decimal digit `d`.
pub fn digit(d: u32) -> (c: char)
    requires
        d < 10,
    ensures
        c == digit_char(d as int),
{
    if d == 0 {
        '0'
    } else if d == 1 {
        '1'
    } else if d == 2 {
        '2'
    } else if d == 3 {
        '3'
    } else if d == 4 {
        '4'
    } else if d == 5 {
        '5'
    } else if d == 6 {
        '6'
    } else if d == 7 {
        '7'
    } else if d == 8 {
        '8'
    } else {
        '9'
    }
}

/// Appends the decimal numeral of `n`.
pub fn append_decimal(s: &mut String, n: u64)
    ensures
        final(s)@ == old(s)@ + decimal(n as nat),
    decreases n,
{
    if n >= 10 {
        append_decimal(s, n / 10);
    }
    s.push(digit((n % 10) as u32));
}

/// Appends one character.
pub fn append_char(s: &mut String, c: char)
    ensures
        final(s)@ == old(s)@ + seq![c],
{
    s.push(c);
    assert(s@ =~= old(s)@ + seq![c]);
}

/// The number of characters in the decimal numeral of `n`.
pub fn decimal_len(n: u32) -> (len: usize)
    ensures
        len == decimal(n as nat).len(),
        1 <= len <= n + 1,
    decreases n,
{
    if n < 10 {
        1
    } else {
        decimal_len(n / 10) + 1
    }
}

/// Appends the decimal numeral of `n`, with zeros in front up to `width`
/// characters.
pub fn append_padded(s: &mut String, n: u32, width: usize)
    ensures
        final(s)@ == old(s)@ + padded(n as nat, width as nat),
{
    let len = decimal_len(n);
    let mut i: usize = len;
    while i < width
        invariant
            len <= i,
            len >= width ==> i == len,
            len < width ==> i <= width,
            s@ == old(s)@ + zeros((i - len) as nat),
        decreases width - i,
    {
        s.push('0');
        i = i + 1;
        assert(zeros((i - len) as nat) =~= zeros((i - 1 - len) as nat).push('0'));
    }
    append_decimal(s, n as u64);
    assert(s@ =~= old(s)@ + padded(n as nat, width as nat));
}

/// Appends a value given in tenths, as a numeral with one decimal place.
pub fn append_tenths(s: &mut String, v: i32)
    ensures
        final(s)@ == old(s)@ + tenths(v as int),
{
    let wide: i64 = v as i64;
    let magnitude: u32 = if wide < 0 {
        s.push('-');
        (-wide) as u32
    } else {
        wide as u32
    };
    append_decimal(s, (magnitude / 10) as u64);
    s.push('.');
    s.push(digit(magnitude % 10));
}

/// Appends a whole number as a numeral, with a minus sign in front where it
/// is negative.
pub fn append_integer(s: &mut String, v: i32)
    ensures
        final(s)@ == old(s)@ + integer(v as int),
{
    let wide: i64 = v as i64;
    if wide < 0 {
        s.push('-');
        append_decimal(s, (-wide) as u64);
        assert(s@ =~= old(s)@ + integer(v as int));
    } else {
        append_decimal(s, wide as u64);
    }
}

/// The numerals of small numbers are short, and all numerals are made of
/// digits.
pub proof fn lemma_decimal_shape(n: nat)
    ensures
        decimal(n).len() >= 1,
        n < 10 ==> decimal(n).len() == 1,
        10 <= n < 100 ==> decimal(n).len() == 2,
        100 <= n < 1000 ==> decimal(n).len() == 3,
        1000 <= n < 10000 ==> decimal(n).len() == 4,
        forall|i: int| 0 <= i < decimal(n).len() ==> is_digit(#[trigger] decimal(n)[i]),
    decreases n,
{
    if n < 10 {
        assert(is_digit(digit_char(n as int)));
    } else {
        lemma_decimal_shape(n / 10);
        assert(is_digit(digit_char((n % 10) as int)));
    }
}

/// A numeral padded to a width that it fits in has that width, and is made
/// of digits.
pub proof fn lemma_padded_shape(n: nat, width: nat)
    requires
        decimal(n).len() <= width,
    ensures
        padded(n, width).len() == width,
        forall|i: int| 0 <= i < width ==> is_digit(#[trigger] padded(n, width)[i]),
{
    lemma_decimal_shape(n);
    assert(is_digit(digit_char(0)));
    let front = (width - decimal(n).len()) as int;
    assert forall|i: int| 0 <= i < width implies is_digit(#[trigger] padded(n, width)[i]) by {
        if decimal(n).len() < width && i >= front {
            assert(padded(n, width)[i] == decimal(n)[i - front]);
        }
    }
}

/// Two texts that can stand inside a sentence can do so one after the
/// other.
pub proof fn lemma_plain_concat(first: Seq<char>, second: Seq<char>)
    requires
        all_plain(first),
        all_plain(second),
    ensures
        all_plain(first + second),
{
    assert forall|i: int| 0 <= i < (first + second).len() implies is_plain(
        #[trigger] (first + second)[i],
    ) by {
        if i < first.len() {
            assert((first + second)[i] == first[i]);
        } else {
            assert((first + second)[i] == second[i - first.len()]);
        }
    }
}

/// A numeral can stand inside a sentence.
pub proof fn lemma_decimal_is_plain(n: nat)
    ensures
        all_plain(decimal(n)),
{
    lemma_decimal_shape(n);
    assert forall|i: int| 0 <= i < decimal(n).len() implies is_plain(#[trigger] decimal(n)[i]) by {
        assert(is_digit(decimal(n)[i]));
    }
}

/// A padded numeral can stand inside a sentence.
pub proof fn lemma_padded_is_plain(n: nat, width: nat)
    ensures
        all_plain(padded(n, width)),
{
    lemma_decimal_is_plain(n);
    if decimal(n).len() < width {
        lemma_plain_concat(zeros((width - decimal(n).len()) as nat), decimal(n));
    }
}

/// A signed numeral can stand inside a sentence.
pub proof fn lemma_integer_is_plain(v: int)
    ensures
        all_plain(integer(v)),
{
    if v < 0 {
        lemma_decimal_is_plain((-v) as nat);
        lemma_plain_concat(seq!['-'], decimal((-v) as nat));
    } else {
        lemma_decimal_is_plain(v as nat);
    }
}

/// A numeral with one decimal place can stand inside a sentence.
pub proof fn lemma_tenths_is_plain(v: int)
    ensures
        all_plain(tenths(v)),
{
    if v < 0 {
        lemma_decimal_is_plain(((-v) / 10) as nat);
        lemma_plain_concat(seq!['-'], decimal(((-v) / 10) as nat));
        lemma_plain_concat(
            seq!['-'] + decimal(((-v) / 10) as nat),
            seq!['.', digit_char((-v) % 10)],
        );
    } else {
        lemma_decimal_is_plain((v / 10) as nat);
        lemma_plain_concat(decimal((v / 10) as nat), seq!['.', digit_char(v % 10)]);
    }
}

/// Whether all of `text` is digits.
pub open spec fn all_digits(text: Seq<char>) -> bool {
    forall|i: int| 0 <= i < text.len() ==> is_digit(#[trigger] text[i])
}

/// A padded numeral is all digits, whatever the width.
pub proof fn lemma_padded_is_digits(n: nat, width: nat)
    ensures
        all_digits(padded(n, width)),
{
    lemma_decimal_shape(n);
    assert(is_digit(digit_char(0)));
    let front = (width - decimal(n).len()) as int;
    assert forall|i: int| 0 <= i < padded(n, width).len() implies is_digit(
        #[trigger] padded(n, width)[i],
    ) by {
        if decimal(n).len() < width && i >= front {
            assert(padded(n, width)[i] == decimal(n)[i - front]);
        }
    }
}

} // verus!
