//! Numbers as text

use vstd::prelude::*;
use vstd::string::*;

verus! {

/// The character for a digit below sixteen, lower case above nine
pub open spec fn digit_char(digit: nat) -> char {
    if digit < 10 {
        (digit + 0x30) as char
    } else {
        (digit + 0x57) as char
    }
}

/// The decimal notation of `n`, without leading zeros
pub open spec fn decimal(n: nat) -> Seq<char>
    decreases n,
{
    if n < 10 {
        seq![digit_char(n)]
    } else {
        decimal(n / 10).push(digit_char(n % 10))
    }
}

/// The notation of a byte in the form `0x7f`: two lower case hexadecimal digits
pub open spec fn hex_byte(n: u8) -> Seq<char> {
    seq!['0', 'x', digit_char((n / 16) as nat), digit_char((n % 16) as nat)]
}

/// The number that a text of decimal digits stands for
pub open spec fn decimal_value(text: Seq<char>) -> int
    decreases text.len(),
{
    if text.len() == 0 {
        0
    } else {
        10 * decimal_value(text.drop_last()) + (text.last() as int - '0' as int)
    }
}

/// The number that a lower case hexadecimal digit stands for
pub open spec fn hex_value(digit: char) -> int {
    if '0' <= digit && digit <= '9' {
        digit as int - '0' as int
    } else {
        digit as int - 'a' as int + 10
    }
}

/// The decimal notation of a number stands for that number: it is made of the digits 0
/// to 9, reads as the number, and has no leading zero unless it is the zero.
pub proof fn decimal_reads_back(n: nat)
    ensures
        decimal_value(decimal(n)) == n,
        decimal(n).len() > 0,
        forall|i: int| 0 <= i < decimal(n).len() ==> '0' <= #[trigger] decimal(n)[i] <= '9',
        n > 0 ==> decimal(n)[0] != '0',
        n == 0 ==> decimal(n).len() == 1,
    decreases n,
{
    reveal_with_fuel(decimal_value, 2);
    if n >= 10 {
        decimal_reads_back(n / 10);
        assert(decimal(n).drop_last() =~= decimal(n / 10));
    } else {
        assert(decimal(n).drop_last() =~= Seq::empty());
    }
}

/// The notation of a byte is `0x` and two lower case hexadecimal digits that stand for
/// it.
pub proof fn hex_byte_reads_back(n: u8)
    ensures
        ({
            let text = hex_byte(n);
            &&& text.len() == 4
            &&& text[0] == '0' && text[1] == 'x'
            &&& ('0' <= text[2] && text[2] <= '9') || ('a' <= text[2] && text[2] <= 'f')
            &&& ('0' <= text[3] && text[3] <= '9') || ('a' <= text[3] && text[3] <= 'f')
            &&& 16 * hex_value(text[2]) + hex_value(text[3]) == n
        }),
{
}

/// A digit below sixteen as text
fn digit_str(digit: u8) -> (s: &'static str)
    requires
        digit < 16,
    ensures
        s@ == seq![digit_char(digit as nat)],
{
    proof {
        reveal_strlit("0");
        reveal_strlit("1");
        reveal_strlit("2");
        reveal_strlit("3");
        reveal_strlit("4");
        reveal_strlit("5");
        reveal_strlit("6");
        reveal_strlit("7");
        reveal_strlit("8");
        reveal_strlit("9");
        reveal_strlit("a");
        reveal_strlit("b");
        reveal_strlit("c");
        reveal_strlit("d");
        reveal_strlit("e");
        reveal_strlit("f");
    }
    match digit {
        0 => "0",
        1 => "1",
        2 => "2",
        3 => "3",
        4 => "4",
        5 => "5",
        6 => "6",
        7 => "7",
        8 => "8",
        9 => "9",
        10 => "a",
        11 => "b",
        12 => "c",
        13 => "d",
        14 => "e",
        _ => "f",
    }
}

/// Appends the decimal notation of `n` to `out`
pub fn push_decimal(out: &mut String, n: usize)
    ensures
        final(out)@ == old(out)@ + decimal(n as nat),
    decreases n,
{
    if n >= 10 {
        push_decimal(out, n / 10);
    }
    out.append(digit_str((n % 10) as u8));
    assert(out@ =~= old(out)@ + decimal(n as nat));
}

/// Appends the notation `0x7f` of the byte `n` to `out`
pub fn push_hex_byte(out: &mut String, n: u8)
    ensures
        final(out)@ == old(out)@ + hex_byte(n),
{
    proof {
        reveal_strlit("0x");
    }
    out.append("0x");
    out.append(digit_str(n / 16));
    out.append(digit_str(n % 16));
    assert(out@ =~= old(out)@ + hex_byte(n));
}

/// What is pushed comes behind what is there: in decimal the digits that read as the
/// number, in hexadecimal `0x` and two digits that stand for the byte.
pub proof fn numbers_are_pushed_behind(d: &mut String, n: usize, h: &mut String, b: u8)
    requires
        call_ensures(push_decimal, (d, n), ()),
        call_ensures(push_hex_byte, (h, b), ()),
    ensures
        final(d)@.len() > old(d)@.len(),
        final(d)@.take(old(d)@.len() as int) == old(d)@,
        decimal_value(final(d)@.skip(old(d)@.len() as int)) == n,
        n > 0 ==> final(d)@[old(d)@.len() as int] != '0',
        final(h)@.take(old(h)@.len() as int) == old(h)@,
        ({
            let text = final(h)@.skip(old(h)@.len() as int);
            &&& text.len() == 4
            &&& text[0] == '0' && text[1] == 'x'
            &&& 16 * hex_value(text[2]) + hex_value(text[3]) == b
        }),
{
    decimal_reads_back(n as nat);
    hex_byte_reads_back(b);
    assert(final(d)@.skip(old(d)@.len() as int) =~= decimal(n as nat));
    assert(final(d)@.take(old(d)@.len() as int) =~= old(d)@);
    assert(final(h)@.skip(old(h)@.len() as int) =~= hex_byte(b));
    assert(final(h)@.take(old(h)@.len() as int) =~= old(h)@);
}

} // verus!
