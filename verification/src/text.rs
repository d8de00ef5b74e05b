//! Numbers as text: upper-case hexadecimal with a `0x` prefix, padded on the
//! left with spaces, and plain decimal. Diagnostic output is built from these.

use vstd::prelude::*;

verus! {

/// The character that stands for one hexadecimal digit, `0`-`9` then `A`-`F`.
pub open spec fn hex_digit(d: int) -> char {
    if d < 10 {
        (48 + d) as char
    } else {
        (55 + d) as char
    }
}

/// The hexadecimal digits of `v`, most significant first, without leading
/// zeros; zero itself is the single digit `0`.
pub open spec fn hex_digits(v: nat) -> Seq<char>
    decreases v,
{
    if v < 16 {
        seq![hex_digit(v as int)]
    } else {
        hex_digits(v / 16).push(hex_digit((v % 16) as int))
    }
}

/// The decimal digits of `v`, most significant first, without leading zeros.
pub open spec fn decimal_digits(v: nat) -> Seq<char>
    decreases v,
{
    if v < 10 {
        seq![(48 + v) as char]
    } else {
        decimal_digits(v / 10).push((48 + v % 10) as char)
    }
}

/// `count` spaces.
pub open spec fn spaces(count: nat) -> Seq<char> {
    Seq::new(count, |i: int| ' ')
}

/// `s` behind as many spaces as bring it to `width` characters; `s` itself
/// where it is that long already.
pub open spec fn pad_left(s: Seq<char>, width: nat) -> Seq<char> {
    if s.len() >= width {
        s
    } else {
        spaces((width - s.len()) as nat) + s
    }
}

/// `0x` and the hexadecimal digits of `v`, padded on the left to `width`.
pub open spec fn hex_prefixed(v: nat, width: nat) -> Seq<char> {
    pad_left(seq!['0', 'x'] + hex_digits(v), width)
}

/// One hexadecimal digit as a string.
pub fn hex_digit_str(d: u8) -> (s: &'static str)
    requires
        d < 16,
    ensures
        s@ == seq![hex_digit(d as int)],
{
    proof {
        reveal_strlit("0");
        reveal_strlit("1");
        reveal_strlit("2");
        reveal_strlit("3");
        reveal_strlit("4");
        reveal_strlit("5");
        reveal_strlit("6");
        reveal_strlit("7");
        reveal_strlit("8");
        reveal_strlit("9");
        reveal_strlit("A");
        reveal_strlit("B");
        reveal_strlit("C");
        reveal_strlit("D");
        reveal_strlit("E");
        reveal_strlit("F");
    }
    let s: &'static str = match d {
        0 => "0",
        1 => "1",
        2 => "2",
        3 => "3",
        4 => "4",
        5 => "5",
        6 => "6",
        7 => "7",
        8 => "8",
        9 => "9",
        10 => "A",
        11 => "B",
        12 => "C",
        13 => "D",
        14 => "E",
        _ => "F",
    };
    assert(s@ =~= seq![hex_digit(d as int)]);
    s
}

/// Appends the hexadecimal digits of `v` to `out`.
pub fn push_hex_digits(out: &mut String, v: u16)
    ensures
        final(out)@ == old(out)@ + hex_digits(v as nat),
    decreases v,
{
    if v >= 16 {
        push_hex_digits(out, v / 16);
    }
    let digit: &'static str = hex_digit_str((v % 16) as u8);
    out.append(digit);
    assert(out@ =~= old(out)@ + hex_digits(v as nat));
}

/// Appends the decimal digits of `v` to `out`.
pub fn push_decimal(out: &mut String, v: u8)
    ensures
        final(out)@ == old(out)@ + decimal_digits(v as nat),
    decreases v,
{
    if v >= 10 {
        push_decimal(out, v / 10);
    }
    let digit: &'static str = hex_digit_str(v % 10);
    out.append(digit);
    assert(out@ =~= old(out)@ + decimal_digits(v as nat));
}

/// How many hexadecimal digits `v` has.
pub fn hex_len(v: u16) -> (n: usize)
    ensures
        n == hex_digits(v as nat).len(),
        1 <= n <= 4,
{
    proof {
        reveal_with_fuel(hex_digits, 5);
    }
    if v < 0x10 {
        1
    } else if v < 0x100 {
        2
    } else if v < 0x1000 {
        3
    } else {
        4
    }
}

/// Appends `0x` and the hexadecimal digits of `v` to `out`, behind the
/// spaces that bring the number to `width` characters.
pub fn push_hex(out: &mut String, v: u16, width: usize)
    ensures
        final(out)@ == old(out)@ + hex_prefixed(v as nat, width as nat),
{
    let len: usize = 2 + hex_len(v);
    let mut i: usize = len;
    while i < width
        invariant
            len == 2 + hex_digits(v as nat).len(),
            len <= i,
            i <= width || i == len,
            out@ == old(out)@ + spaces((i - len) as nat),
        decreases width - i,
    {
        proof {
            reveal_strlit(" ");
        }
        out.append(" ");
        i = i + 1;
        assert(out@ =~= old(out)@ + spaces((i - len) as nat));
    }
    let ghost padding: Seq<char> = spaces((i - len) as nat);
    let ghost number: Seq<char> = seq!['0', 'x'] + hex_digits(v as nat);
    proof {
        reveal_strlit("0x");
        assert("0x"@ =~= seq!['0', 'x']);
        assert(number.len() == len);
    }
    out.append("0x");
    push_hex_digits(out, v);
    assert(out@ =~= old(out)@ + (padding + number));
    assert(padding + number =~= pad_left(number, width as nat));
}

} // verus!
