//! Numbers and padded columns as text.

use vstd::prelude::*;
use vstd::string::StrSliceExecFns;
use vstd::string::StringExecFns;

verus! {

/// `String::push` of the standard library: the string afterwards is the
/// string before with the one character `c` appended, as its documentation
/// says.
pub assume_specification[ String::push ](s: &mut String, c: char)
    ensures
        final(s)@ == old(s)@.push(c),
;

/// The character that writes the digit `d`, lower case above nine.
pub open spec fn digit_char(d: int) -> char
    recommends
        0 <= d < 16,
{
    seq!['0', '1', '2', '3', '4', '5', '6', '7', '8', '9', 'a', 'b', 'c', 'd', 'e', 'f'][d]
}

/// `n` in decimal, without leading zeros; `0` is one digit.
pub open spec fn decimal(n: nat) -> Seq<char>
    decreases n,
{
    if n < 10 {
        seq![digit_char(n as int)]
    } else {
        decimal(n / 10).push(digit_char((n % 10) as int))
    }
}

/// `n` in lower-case hexadecimal, without leading zeros; `0` is one digit.
pub open spec fn hex(n: nat) -> Seq<char>
    decreases n,
{
    if n < 16 {
        seq![digit_char(n as int)]
    } else {
        hex(n / 16).push(digit_char((n % 16) as int))
    }
}

/// `count` times the character `c`; nothing where `count` is not positive.
pub open spec fn fill(count: int, c: char) -> Seq<char> {
    Seq::new(
        if count > 0 {
            count as nat
        } else {
            0
        },
        |i: int| c,
    )
}

/// `text` moved to the right end of a column of `width` characters, the
/// column filled up with `c`; `text` itself where it is wider.
pub open spec fn pad_left(text: Seq<char>, width: nat, c: char) -> Seq<char> {
    fill(width - text.len(), c) + text
}

/// `text` at the left end of a column of `width` characters, the column
/// filled up with `c`; `text` itself where it is wider.
pub open spec fn pad_right(text: Seq<char>, width: nat, c: char) -> Seq<char> {
    text + fill(width - text.len(), c)
}

/// The character that writes the digit `d`.
fn digit(d: u8) -> (c: char)
    requires
        d < 16,
    ensures
        c == digit_char(d as int),
{
    match d {
        0 => '0',
        1 => '1',
        2 => '2',
        3 => '3',
        4 => '4',
        5 => '5',
        6 => '6',
        7 => '7',
        8 => '8',
        9 => '9',
        10 => 'a',
        11 => 'b',
        12 => 'c',
        13 => 'd',
        14 => 'e',
        _ => 'f',
    }
}

/// The decimal digits of `n`, most significant first.
pub fn decimal_digits(n: u64) -> (digits: Vec<char>)
    ensures
        digits@ == decimal(n as nat),
    decreases n,
{
    if n < 10 {
        let mut digits: Vec<char> = Vec::new();
        digits.push(digit(n as u8));
        assert(digits@ =~= decimal(n as nat));
        digits
    } else {
        let mut digits: Vec<char> = decimal_digits(n / 10);
        digits.push(digit((n % 10) as u8));
        digits
    }
}

/// The hexadecimal digits of `n`, most significant first.
pub fn hex_digits(n: u64) -> (digits: Vec<char>)
    ensures
        digits@ == hex(n as nat),
    decreases n,
{
    if n < 16 {
        let mut digits: Vec<char> = Vec::new();
        digits.push(digit(n as u8));
        assert(digits@ =~= hex(n as nat));
        digits
    } else {
        let mut digits: Vec<char> = hex_digits(n / 16);
        digits.push(digit((n % 16) as u8));
        digits
    }
}

/// Appends `count` times the character `c`.
pub fn push_fill(out: &mut String, count: usize, c: char)
    ensures
        final(out)@ == old(out)@ + fill(count as int, c),
{
    let ghost before = out@;
    let mut i: usize = 0;
    while i < count
        invariant
            i <= count,
            out@ == before + fill(i as int, c),
        decreases count - i,
    {
        out.push(c);
        i += 1;
        assert(out@ =~= before + fill(i as int, c));
    }
}

/// Appends the characters of `chars` in their order.
pub fn push_chars(out: &mut String, chars: &Vec<char>)
    ensures
        final(out)@ == old(out)@ + chars@,
{
    let ghost before = out@;
    let mut i: usize = 0;
    while i < chars.len()
        invariant
            i <= chars@.len(),
            out@ == before + chars@.take(i as int),
        decreases chars@.len() - i,
    {
        out.push(chars[i]);
        i += 1;
        assert(out@ =~= before + chars@.take(i as int));
    }
    assert(chars@.take(chars@.len() as int) =~= chars@);
}

/// Appends `n` in decimal, right-aligned in a column of `width` characters
/// that `c` fills up.
pub fn push_decimal(out: &mut String, n: u64, width: usize, c: char)
    ensures
        final(out)@ == old(out)@ + pad_left(decimal(n as nat), width as nat, c),
{
    let ghost before = out@;
    let digits: Vec<char> = decimal_digits(n);
    if digits.len() < width {
        push_fill(out, width - digits.len(), c);
    }
    push_chars(out, &digits);
    assert(out@ =~= before + pad_left(decimal(n as nat), width as nat, c));
}

/// Appends `n` in lower-case hexadecimal.
pub fn push_hex(out: &mut String, n: u64)
    ensures
        final(out)@ == old(out)@ + hex(n as nat),
{
    let digits: Vec<char> = hex_digits(n);
    push_chars(out, &digits);
}

/// Appends `text`, left-aligned in a column of `width` characters that
/// spaces fill up.
pub fn push_column(out: &mut String, text: &str, width: usize)
    ensures
        final(out)@ == old(out)@ + pad_right(text@, width as nat, ' '),
{
    let ghost before = out@;
    let len: usize = text.unicode_len();
    out.append(text);
    if len < width {
        push_fill(out, width - len, ' ');
    }
    assert(out@ =~= before + pad_right(text@, width as nat, ' '));
}

} // verus!
