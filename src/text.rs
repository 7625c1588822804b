//! Text rendering of numbers: decimal, hexadecimal, binary units with one
//! decimal place, and padding to a column width.

use vstd::prelude::*;

verus! {

/// Bytes in one kibibyte.
pub const KIB: u64 = 1024;

/// Bytes in one gibibyte.
pub const GIB: u64 = 1073741824;

/// The character of a decimal or hexadecimal digit (lower case).
pub open spec fn digit_char(d: nat) -> char {
    if d == 0 { '0' }
    else if d == 1 { '1' }
    else if d == 2 { '2' }
    else if d == 3 { '3' }
    else if d == 4 { '4' }
    else if d == 5 { '5' }
    else if d == 6 { '6' }
    else if d == 7 { '7' }
    else if d == 8 { '8' }
    else if d == 9 { '9' }
    else if d == 10 { 'a' }
    else if d == 11 { 'b' }
    else if d == 12 { 'c' }
    else if d == 13 { 'd' }
    else if d == 14 { 'e' }
    else { 'f' }
}

/// The digits of `n` in base `base`, most significant first, with no
/// leading zeros (zero is the single digit `0`).
pub open spec fn digits(n: nat, base: nat) -> Seq<char>
    recommends
        2 <= base <= 16,
    decreases n,
    via digits_decreases
{
    if n < base || base < 2 {
        seq![digit_char(n)]
    } else {
        digits(n / base, base).push(digit_char(n % base))
    }
}

#[via_fn]
proof fn digits_decreases(n: nat, base: nat) {
    if !(n < base || base < 2) {
        assert(n / base < n) by (nonlinear_arith)
            requires
                n >= base,
                base >= 2,
        ;
    }
}

/// `n` written in decimal.
pub open spec fn decimal(n: nat) -> Seq<char> {
    digits(n, 10)
}

/// `n` written in lower-case hexadecimal, without a prefix.
pub open spec fn hex(n: nat) -> Seq<char> {
    digits(n, 16)
}

/// `n` written in decimal, with a leading `-` when it is negative.
pub open spec fn signed_decimal(n: int) -> Seq<char> {
    if n < 0 {
        seq!['-'] + decimal((-n) as nat)
    } else {
        decimal(n as nat)
    }
}

/// `n` spaces.
pub open spec fn spaces(n: nat) -> Seq<char> {
    Seq::new(n, |i: int| ' ')
}

/// `s` right-aligned in a column of `width` characters: spaces go in front
/// of it when it is shorter.
pub open spec fn pad_left(s: Seq<char>, width: nat) -> Seq<char> {
    if s.len() >= width {
        s
    } else {
        spaces((width - s.len()) as nat) + s
    }
}

/// `s` left-aligned in a column of `width` characters: spaces go after it
/// when it is shorter.
pub open spec fn pad_right(s: Seq<char>, width: nat) -> Seq<char> {
    if s.len() >= width {
        s
    } else {
        s + spaces((width - s.len()) as nat)
    }
}

/// `bytes` in tenths of a gibibyte, rounded to the nearest tenth, a tie
/// going to the even tenth.
pub open spec fn gib_tenths(bytes: nat) -> nat {
    let q = (bytes * 10) / (GIB as nat);
    let r = (bytes * 10) % (GIB as nat);
    if 2 * r > GIB || (2 * r == GIB && q % 2 == 1) {
        q + 1
    } else {
        q
    }
}

/// `bytes` as a number of gibibytes with one decimal place (`1.5`).
pub open spec fn gib_text(bytes: nat) -> Seq<char> {
    decimal(gib_tenths(bytes) / 10) + seq!['.'] + decimal(gib_tenths(bytes) % 10)
}

/// `bytes` as a whole number of kibibytes, rounded down.
pub open spec fn kib_text(bytes: nat) -> Seq<char> {
    decimal(bytes / (KIB as nat))
}

/// The one-character string of digit `d`.
fn digit_str(d: u128) -> (r: &'static str)
    requires
        d < 16,
    ensures
        r@ == seq![digit_char(d as nat)],
{
    proof {
        reveal_strlit("0");
        reveal_strlit("1");
        reveal_strlit("2");
        reveal_strlit("3");
        reveal_strlit("4");
        reveal_strlit("5");
        reveal_strlit("6");
        reveal_strlit("7");
        reveal_strlit("8");
        reveal_strlit("9");
        reveal_strlit("a");
        reveal_strlit("b");
        reveal_strlit("c");
        reveal_strlit("d");
        reveal_strlit("e");
        reveal_strlit("f");
    }
    let r = if d == 0 { "0" }
    else if d == 1 { "1" }
    else if d == 2 { "2" }
    else if d == 3 { "3" }
    else if d == 4 { "4" }
    else if d == 5 { "5" }
    else if d == 6 { "6" }
    else if d == 7 { "7" }
    else if d == 8 { "8" }
    else if d == 9 { "9" }
    else if d == 10 { "a" }
    else if d == 11 { "b" }
    else if d == 12 { "c" }
    else if d == 13 { "d" }
    else if d == 14 { "e" }
    else { "f" };
    assert(r@ =~= seq![digit_char(d as nat)]);
    r
}

/// Appends the digits of `n` in base `base` to `out`.
pub fn push_digits(out: &mut String, n: u128, base: u128)
    requires
        2 <= base <= 16,
    ensures
        final(out)@ == old(out)@ + digits(n as nat, base as nat),
    decreases n,
{
    if n >= base {
        assert(n / base < n) by (nonlinear_arith)
            requires
                n >= base,
                base >= 2,
        ;
        push_digits(out, n / base, base);
    }
    let ghost mid = out@;
    let d = digit_str(n % base);
    out.append(d);
    proof {
        if n >= base {
            assert(mid == old(out)@ + digits((n / base) as nat, base as nat));
            assert(digits(n as nat, base as nat) == digits((n / base) as nat, base as nat).push(
                digit_char((n % base) as nat),
            ));
        } else {
            assert(mid == old(out)@);
            assert(digits(n as nat, base as nat) == seq![digit_char(n as nat)]);
            assert(n % base == n) by (nonlinear_arith)
                requires
                    n < base,
            ;
        }
    }
    assert(out@ =~= old(out)@ + digits(n as nat, base as nat));
}

/// Appends `n` spaces to `out`.
pub fn push_spaces(out: &mut String, n: usize)
    ensures
        final(out)@ == old(out)@ + spaces(n as nat),
{
    let mut i: usize = 0;
    while i < n
        invariant
            i <= n,
            out@ == old(out)@ + spaces(i as nat),
        decreases n - i,
    {
        proof {
            reveal_strlit(" ");
        }
        out.append(" ");
        i = i + 1;
        assert(out@ =~= old(out)@ + spaces(i as nat));
    }
}

/// Appends `field` to `out`, right-aligned in a column of `width`.
pub fn push_left_padded(out: &mut String, field: &str, width: usize)
    ensures
        final(out)@ == old(out)@ + pad_left(field@, width as nat),
{
    let len = field.unicode_len();
    if len < width {
        push_spaces(out, width - len);
    }
    out.append(field);
    assert(out@ =~= old(out)@ + pad_left(field@, width as nat));
}

/// Appends `field` to `out`, left-aligned in a column of `width`.
pub fn push_right_padded(out: &mut String, field: &str, width: usize)
    ensures
        final(out)@ == old(out)@ + pad_right(field@, width as nat),
{
    let len = field.unicode_len();
    out.append(field);
    if len < width {
        push_spaces(out, width - len);
    }
    assert(out@ =~= old(out)@ + pad_right(field@, width as nat));
}

/// `n` in decimal.
pub fn decimal_string(n: u128) -> (r: String)
    ensures
        r@ == decimal(n as nat),
{
    let mut r = String::new();
    push_digits(&mut r, n, 10);
    assert(r@ =~= decimal(n as nat));
    r
}

/// `n` in lower-case hexadecimal, without a prefix.
pub fn hex_string(n: u128) -> (r: String)
    ensures
        r@ == hex(n as nat),
{
    let mut r = String::new();
    push_digits(&mut r, n, 16);
    assert(r@ =~= hex(n as nat));
    r
}

/// `n` in decimal, with a leading `-` when it is negative.
pub fn signed_decimal_string(n: i64) -> (r: String)
    ensures
        r@ == signed_decimal(n as int),
{
    let mut r = String::new();
    if n < 0 {
        proof {
            reveal_strlit("-");
        }
        r.append("-");
        let magnitude: u128 = (0i128 - n as i128) as u128;
        push_digits(&mut r, magnitude, 10);
    } else {
        push_digits(&mut r, n as u128, 10);
    }
    assert(r@ =~= signed_decimal(n as int));
    r
}

/// `bytes` as a number of gibibytes with one decimal place.
pub fn gib_string(bytes: u128) -> (r: String)
    requires
        bytes * 10 <= u128::MAX,
    ensures
        r@ == gib_text(bytes as nat),
{
    let scaled = bytes * 10;
    let q = scaled / (GIB as u128);
    let rem = scaled % (GIB as u128);
    let tenths = if 2 * rem > GIB as u128 || (2 * rem == GIB as u128 && q % 2 == 1) {
        q + 1
    } else {
        q
    };
    assert(tenths == gib_tenths(bytes as nat));
    let mut r = String::new();
    push_digits(&mut r, tenths / 10, 10);
    proof {
        reveal_strlit(".");
    }
    r.append(".");
    push_digits(&mut r, tenths % 10, 10);
    assert(r@ =~= gib_text(bytes as nat));
    r
}

/// `bytes` as a whole number of kibibytes, rounded down.
pub fn kib_string(bytes: u64) -> (r: String)
    ensures
        r@ == kib_text(bytes as nat),
{
    decimal_string((bytes / KIB) as u128)
}

} // verus!
