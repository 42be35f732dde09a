//! Rendering of numbers, byte strings and field names as text.
//!
//! Every routine appends to a `String` and states, over `Seq<char>`, exactly
//! which characters it appends.

use vstd::prelude::*;
use vstd::string::*;

verus! {

/// The character that stands for the digit `d` in any base up to sixteen:
/// `0` to `9`, and lower-case `a` to `f` from ten on.
pub open spec fn digit_char(d: int) -> char {
    if d == 0 {
        '0'
    } else if d == 1 {
        '1'
    } else if d == 2 {
        '2'
    } else if d == 3 {
        '3'
    } else if d == 4 {
        '4'
    } else if d == 5 {
        '5'
    } else if d == 6 {
        '6'
    } else if d == 7 {
        '7'
    } else if d == 8 {
        '8'
    } else if d == 9 {
        '9'
    } else if d == 10 {
        'a'
    } else if d == 11 {
        'b'
    } else if d == 12 {
        'c'
    } else if d == 13 {
        'd'
    } else if d == 14 {
        'e'
    } else {
        'f'
    }
}

/// One less, but never below zero.
pub open spec fn pred(n: nat) -> nat {
    if n > 0 {
        (n - 1) as nat
    } else {
        0
    }
}

/// Dividing by a base of two or more makes a positive number smaller, and
/// leaves zero where it is.
pub proof fn lemma_quotient_smaller(value: nat, base: nat)
    requires
        base >= 2,
    ensures
        value > 0 ==> value / base < value,
        value == 0 ==> value / base == 0,
        value < base ==> value / base == 0 && value % base == value,
        value % base < base,
{
    assert(value > 0 ==> value / base < value) by (nonlinear_arith)
        requires
            base >= 2,
    ;
    assert(value < base ==> value / base == 0 && value % base == value) by (nonlinear_arith)
        requires
            base >= 2,
    ;
    assert(value % base < base) by (nonlinear_arith)
        requires
            base >= 2,
    ;
}

/// `value` written in `base`, most significant digit first, with leading
/// zeros up to `width` digits. A value that needs more than `width` digits
/// keeps them all; zero is written with one digit at least.
pub open spec fn digits(value: nat, base: nat, width: nat) -> Seq<char>
    decreases value, width,
{
    if base < 2 {
        Seq::empty()
    } else if value < base && width <= 1 {
        seq![digit_char(value as int)]
    } else {
        proof {
            lemma_quotient_smaller(value, base);
        }
        digits(value / base, base, pred(width)).push(digit_char((value % base) as int))
    }
}

/// How many digits `value` needs in `base`; zero needs one.
pub open spec fn digit_count(value: nat, base: nat) -> nat
    decreases value,
{
    if base < 2 || value < base {
        1
    } else {
        proof {
            lemma_quotient_smaller(value, base);
        }
        1 + digit_count(value / base, base)
    }
}

/// A rendered number is as long as the wider of its own digits and the
/// requested width.
pub proof fn lemma_digits_len(value: nat, base: nat, width: nat)
    requires
        base >= 2,
    ensures
        digits(value, base, width).len() == if digit_count(value, base) >= width {
            digit_count(value, base)
        } else {
            width
        },
    decreases value, width,
{
    lemma_quotient_smaller(value, base);
    if value < base && width <= 1 {
    } else {
        lemma_digits_len(value / base, base, pred(width));
    }
}

/// The digit that a character stands for; zero for a character that is no
/// digit.
pub open spec fn digit_value(c: char) -> nat {
    if c == '1' {
        1
    } else if c == '2' {
        2
    } else if c == '3' {
        3
    } else if c == '4' {
        4
    } else if c == '5' {
        5
    } else if c == '6' {
        6
    } else if c == '7' {
        7
    } else if c == '8' {
        8
    } else if c == '9' {
        9
    } else if c == 'a' {
        10
    } else if c == 'b' {
        11
    } else if c == 'c' {
        12
    } else if c == 'd' {
        13
    } else if c == 'e' {
        14
    } else if c == 'f' {
        15
    } else {
        0
    }
}

/// The number that a string of digits stands for in `base`.
pub open spec fn digits_value(s: Seq<char>, base: nat) -> nat
    decreases s.len(),
{
    if s.len() == 0 {
        0
    } else {
        digits_value(s.drop_last(), base) * base + digit_value(s.last())
    }
}

/// Rendering loses nothing: the digits of a number, read in the same base,
/// stand for that number, whatever the width.
pub proof fn lemma_digits_value(value: nat, base: nat, width: nat)
    requires
        2 <= base <= 16,
    ensures
        digits_value(digits(value, base, width), base) == value,
    decreases value, width,
{
    lemma_quotient_smaller(value, base);
    let last = digit_char((value % base) as int);
    assert(digit_value(last) == value % base);
    if value < base && width <= 1 {
        let one = seq![last];
        assert(one.drop_last() =~= Seq::<char>::empty());
        assert(one.last() == last);
        assert(digits_value(one.drop_last(), base) == 0);
        assert(digits_value(one, base) == 0 * base + digit_value(last));
    } else {
        let head = digits(value / base, base, pred(width));
        lemma_digits_value(value / base, base, pred(width));
        let all = head.push(last);
        assert(all.drop_last() =~= head);
        assert(all.last() == last);
        assert(digits_value(all, base) == digits_value(head, base) * base + digit_value(last));
        assert(value == (value / base) * base + value % base) by (nonlinear_arith)
            requires
                base >= 2,
        ;
    }
}

/// The text of one digit.
pub(crate) fn digit_str(d: u8) -> (s: &'static str)
    requires
        d < 16,
    ensures
        s@ == seq![digit_char(d as int)],
{
    proof {
        reveal_strlit("0");
        reveal_strlit("1");
        reveal_strlit("2");
        reveal_strlit("3");
        reveal_strlit("4");
        reveal_strlit("5");
        reveal_strlit("6");
        reveal_strlit("7");
        reveal_strlit("8");
        reveal_strlit("9");
        reveal_strlit("a");
        reveal_strlit("b");
        reveal_strlit("c");
        reveal_strlit("d");
        reveal_strlit("e");
        reveal_strlit("f");
    }
    let s = match d {
        0 => "0",
        1 => "1",
        2 => "2",
        3 => "3",
        4 => "4",
        5 => "5",
        6 => "6",
        7 => "7",
        8 => "8",
        9 => "9",
        10 => "a",
        11 => "b",
        12 => "c",
        13 => "d",
        14 => "e",
        _ => "f",
    };
    assert(s@ =~= seq![digit_char(d as int)]);
    s
}

/// The bases in which numbers are written.
#[derive(Clone, Copy, Debug, PartialEq, Eq, Structural)]
pub enum Radix {
    Binary,
    Decimal,
    Hexadecimal,
}

impl Radix {
    /// The base as a number.
    pub open spec fn base(self) -> nat {
        match self {
            Radix::Binary => 2,
            Radix::Decimal => 10,
            Radix::Hexadecimal => 16,
        }
    }

    /// The base as a number.
    pub fn value(&self) -> (b: u64)
        ensures
            b == self.base(),
    {
        match self {
            Radix::Binary => 2,
            Radix::Decimal => 10,
            Radix::Hexadecimal => 16,
        }
    }
}

/// Appends `value` in the base of `radix`, zero-padded to `width` digits.
pub fn push_digits(out: &mut String, value: u64, radix: Radix, width: u8)
    ensures
        final(out)@ == old(out)@ + digits(value as nat, radix.base(), width as nat),
{
    push_digits_in(out, value, radix.value(), width);
}

/// Appends `value` in `base`, zero-padded to `width` digits.
fn push_digits_in(out: &mut String, value: u64, base: u64, width: u8)
    requires
        2 <= base <= 16,
    ensures
        final(out)@ == old(out)@ + digits(value as nat, base as nat, width as nat),
    decreases value, width,
{
    let ghost before = out@;
    proof {
        lemma_quotient_smaller(value as nat, base as nat);
    }
    if value >= base || width > 1 {
        let rest: u8 = if width > 0 {
            width - 1
        } else {
            0
        };
        push_digits_in(out, value / base, base, rest);
    }
    out.append(digit_str((value % base) as u8));
    assert(out@ =~= before + digits(value as nat, base as nat, width as nat));
}

/// `value` in decimal, without padding.
pub open spec fn decimal(value: nat) -> Seq<char> {
    digits(value, 10, 1)
}

/// `value` in hexadecimal behind `0x`, with at least `width` digits.
pub open spec fn hex_literal(value: nat, width: nat) -> Seq<char> {
    "0x"@ + digits(value, 16, width)
}

/// `value` in binary behind `0b`, with at least `width` digits.
pub open spec fn binary_literal(value: nat, width: nat) -> Seq<char> {
    "0b"@ + digits(value, 2, width)
}

/// The word for a truth value.
pub open spec fn bool_word(b: bool) -> Seq<char> {
    if b {
        "true"@
    } else {
        "false"@
    }
}

/// `n` blanks.
pub open spec fn spaces(n: nat) -> Seq<char> {
    Seq::new(n, |i: int| ' ')
}

/// `s` followed by as many blanks as it takes to fill `n` bytes; `s` itself
/// where it fills them already. The length that counts is that of the UTF-8
/// encoding.
pub open spec fn padded(s: &str, n: usize) -> Seq<char> {
    if s.spec_bytes().len() >= n {
        s@
    } else {
        s@ + spaces((n - s.spec_bytes().len()) as nat)
    }
}

/// Appends `value` in decimal.
pub fn push_decimal(out: &mut String, value: u64)
    ensures
        final(out)@ == old(out)@ + decimal(value as nat),
{
    push_digits(out, value, Radix::Decimal, 1);
}

/// Appends `value` in hexadecimal behind `0x`, with at least `width` digits.
pub fn push_hex_literal(out: &mut String, value: u64, width: u8)
    ensures
        final(out)@ == old(out)@ + hex_literal(value as nat, width as nat),
{
    let ghost before = out@;
    out.append("0x");
    push_digits(out, value, Radix::Hexadecimal, width);
    assert(out@ =~= before + hex_literal(value as nat, width as nat));
}

/// Appends `value` in binary behind `0b`, with at least `width` digits.
pub fn push_binary_literal(out: &mut String, value: u64, width: u8)
    ensures
        final(out)@ == old(out)@ + binary_literal(value as nat, width as nat),
{
    let ghost before = out@;
    out.append("0b");
    push_digits(out, value, Radix::Binary, width);
    assert(out@ =~= before + binary_literal(value as nat, width as nat));
}

/// Appends `true` or `false`.
pub fn push_bool(out: &mut String, b: bool)
    ensures
        final(out)@ == old(out)@ + bool_word(b),
{
    if b {
        out.append("true");
    } else {
        out.append("false");
    }
}

/// Appends `s`, filled with blanks up to `n` bytes.
pub fn push_padded(out: &mut String, s: &str, n: usize)
    ensures
        final(out)@ == old(out)@ + padded(s, n),
{
    let ghost before = out@;
    let len: usize = s.as_bytes().len();
    out.append(s);
    if len < n {
        let missing: usize = n - len;
        let mut k: usize = 0;
        while k < missing
            invariant
                k <= missing,
                out@ == before + s@ + spaces(k as nat),
            decreases missing - k,
        {
            proof {
                reveal_strlit(" ");
                assert(spaces((k + 1) as nat) =~= spaces(k as nat) + " "@);
            }
            out.append(" ");
            k += 1;
        }
        assert(out@ =~= before + padded(s, n));
    } else {
        assert(out@ =~= before + padded(s, n));
    }
}

/// Pads `s` with blanks on the right up to `n` bytes; a longer `s` comes
/// back unchanged.
pub fn fixed_length_pad(s: &str, n: usize) -> (out: String)
    ensures
        out@ == padded(s, n),
{
    let mut out = String::new();
    push_padded(&mut out, s, n);
    assert(out@ =~= padded(s, n));
    out
}

/// A field's name, padded to `width` bytes, and ` = ` behind it.
pub open spec fn label(name: &str, width: usize) -> Seq<char> {
    padded(name, width) + " = "@
}

/// A line that shows a number in decimal.
pub open spec fn decimal_line(name: &str, width: usize, value: nat) -> Seq<char> {
    label(name, width) + decimal(value) + "\n"@
}

/// A line that shows a number in hexadecimal, `digits` digits at least.
pub open spec fn hex_literal_line(name: &str, width: usize, value: nat, digits: nat) -> Seq<char> {
    label(name, width) + hex_literal(value, digits) + "\n"@
}

/// A line that shows a number in binary, `digits` digits at least.
pub open spec fn binary_line(name: &str, width: usize, value: nat, digits: nat) -> Seq<char> {
    label(name, width) + binary_literal(value, digits) + "\n"@
}

/// A line that shows a word.
pub open spec fn word_line(name: &str, width: usize, word: Seq<char>) -> Seq<char> {
    label(name, width) + word + "\n"@
}

/// Appends a field's padded name and ` = `.
pub fn push_label(out: &mut String, name: &str, width: usize)
    ensures
        final(out)@ == old(out)@ + label(name, width),
{
    let ghost before = out@;
    push_padded(out, name, width);
    out.append(" = ");
    assert(out@ =~= before + label(name, width));
}

/// Appends a line that shows `value` in decimal.
pub fn push_decimal_line(out: &mut String, name: &str, width: usize, value: u64)
    ensures
        final(out)@ == old(out)@ + decimal_line(name, width, value as nat),
{
    let ghost before = out@;
    push_label(out, name, width);
    push_decimal(out, value);
    out.append("\n");
    assert(out@ =~= before + decimal_line(name, width, value as nat));
}

/// Appends a line that shows `value` in hexadecimal.
pub fn push_hex_literal_line(out: &mut String, name: &str, width: usize, value: u64, digits: u8)
    ensures
        final(out)@ == old(out)@ + hex_literal_line(name, width, value as nat, digits as nat),
{
    let ghost before = out@;
    push_label(out, name, width);
    push_hex_literal(out, value, digits);
    out.append("\n");
    assert(out@ =~= before + hex_literal_line(name, width, value as nat, digits as nat));
}

/// Appends a line that shows `value` in binary.
pub fn push_binary_line(out: &mut String, name: &str, width: usize, value: u64, digits: u8)
    ensures
        final(out)@ == old(out)@ + binary_line(name, width, value as nat, digits as nat),
{
    let ghost before = out@;
    push_label(out, name, width);
    push_binary_literal(out, value, digits);
    out.append("\n");
    assert(out@ =~= before + binary_line(name, width, value as nat, digits as nat));
}

/// Appends a line that shows `word`.
pub fn push_word_line(out: &mut String, name: &str, width: usize, word: &str)
    ensures
        final(out)@ == old(out)@ + word_line(name, width, word@),
{
    let ghost before = out@;
    push_label(out, name, width);
    out.append(word);
    out.append("\n");
    assert(out@ =~= before + word_line(name, width, word@));
}

/// A line that shows a truth value behind a title.
pub open spec fn flag_line(title: &str, b: bool) -> Seq<char> {
    title@ + bool_word(b) + "\n"@
}

/// Appends a line that shows `b` behind `title`.
pub fn push_flag_line(out: &mut String, title: &str, b: bool)
    ensures
        final(out)@ == old(out)@ + flag_line(title, b),
{
    let ghost before = out@;
    out.append(title);
    push_bool(out, b);
    out.append("\n");
    assert(out@ =~= before + flag_line(title, b));
}

} // verus!
