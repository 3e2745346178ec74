//! Text for the console: numbers in decimal and hexadecimal, and bytes as text.

use vstd::prelude::*;
use vstd::string::StringExecFns;

verus! {

/// The character of a digit below sixteen.
pub open spec fn digit_char(d: int) -> char {
    seq!['0', '1', '2', '3', '4', '5', '6', '7', '8', '9', 'a', 'b', 'c', 'd', 'e', 'f'][d]
}

/// The digits of `n` in base sixteen where `hex` holds and in base ten
/// otherwise, most significant first and without leading zeros; zero is the
/// one digit `0`.
pub open spec fn digits(n: nat, hex: bool) -> Seq<char>
    decreases n,
{
    if hex {
        if n < 16 {
            seq![digit_char(n as int)]
        } else {
            digits(n / 16, hex).push(digit_char((n % 16) as int))
        }
    } else {
        if n < 10 {
            seq![digit_char(n as int)]
        } else {
            digits(n / 10, hex).push(digit_char((n % 10) as int))
        }
    }
}

/// A number in decimal.
pub open spec fn decimal(n: nat) -> Seq<char> {
    digits(n, false)
}

/// A number in decimal, with a minus sign where it is negative.
pub open spec fn signed_decimal(n: int) -> Seq<char> {
    if n < 0 {
        seq!['-'] + decimal((-n) as nat)
    } else {
        decimal(n as nat)
    }
}

/// A number in hexadecimal with lower-case digits, behind `0x`.
pub open spec fn hexadecimal(n: nat) -> Seq<char> {
    seq!['0', 'x'] + digits(n, true)
}

/// The text that `String::from_utf8_lossy` makes of a byte string.
pub uninterp spec fn utf8_lossy(bytes: Seq<u8>) -> Seq<char>;

/// `String::from_utf8_lossy`: the text that the bytes encode, with every
/// invalid sequence replaced by U+FFFD. The contract gives the text a name,
/// and claims that it is a function of the bytes.
#[verifier::external_body]
pub(crate) fn lossy_text(data: &[u8]) -> (text: String)
    ensures
        text@ == utf8_lossy(data@),
{
    String::from_utf8_lossy(data).into_owned()
}

/// The text of a byte string, for the console.
pub fn text_of(data: &[u8]) -> (text: String)
    ensures
        text@ == utf8_lossy(data@),
{
    lossy_text(data)
}

/// The digit `d` as text.
fn digit_text(d: u8) -> (text: &'static str)
    requires
        d < 16,
    ensures
        text@ == seq![digit_char(d as int)],
{
    proof {
        reveal_strlit("0");
        reveal_strlit("1");
        reveal_strlit("2");
        reveal_strlit("3");
        reveal_strlit("4");
        reveal_strlit("5");
        reveal_strlit("6");
        reveal_strlit("7");
        reveal_strlit("8");
        reveal_strlit("9");
        reveal_strlit("a");
        reveal_strlit("b");
        reveal_strlit("c");
        reveal_strlit("d");
        reveal_strlit("e");
        reveal_strlit("f");
    }
    let text = match d {
        0 => "0",
        1 => "1",
        2 => "2",
        3 => "3",
        4 => "4",
        5 => "5",
        6 => "6",
        7 => "7",
        8 => "8",
        9 => "9",
        10 => "a",
        11 => "b",
        12 => "c",
        13 => "d",
        14 => "e",
        _ => "f",
    };
    assert(text@ =~= seq![digit_char(d as int)]);
    text
}

/// The characters of digits that were collected least significant first.
spec fn reversed_digits(rev: Seq<u8>) -> Seq<char> {
    Seq::new(rev.len(), |i: int| digit_char(rev[rev.len() - 1 - i] as int))
}

/// The digits of `n` that are still to be collected once `n` has shrunk to it.
spec fn leading_digits(n: nat, hex: bool) -> Seq<char> {
    if n == 0 {
        Seq::<char>::empty()
    } else {
        digits(n, hex)
    }
}

/// The base of the digits.
spec fn base_of(hex: bool) -> nat {
    if hex {
        16
    } else {
        10
    }
}

/// The digits of a number are those of the number without its last digit,
/// then its last digit.
proof fn lemma_digits_step(n: nat, hex: bool)
    ensures
        digits(n, hex) == leading_digits(n / base_of(hex), hex).push(
            digit_char((n % base_of(hex)) as int),
        ),
{
    if n < base_of(hex) {
        assert(digits(n, hex) =~= Seq::<char>::empty().push(digit_char(n as int)));
    }
}

/// Appends the digits of `n` to `out`: in base sixteen where `hex` holds, in
/// base ten otherwise.
pub fn push_digits(out: &mut String, n: u64, hex: bool)
    ensures
        final(out)@ == old(out)@ + digits(n as nat, hex),
{
    let mut rev: Vec<u8> = Vec::new();
    let mut m: u64 = n;
    proof {
        lemma_digits_step(n as nat, hex);
    }
    let first = if hex { m % 16 } else { m % 10 };
    rev.push(first as u8);
    m = if hex { m / 16 } else { m / 10 };
    assert(reversed_digits(rev@) =~= seq![digit_char(first as int)]);
    assert(digits(n as nat, hex) =~= leading_digits(m as nat, hex) + reversed_digits(rev@));
    while m > 0
        invariant
            rev@.len() >= 1,
            forall|i: int| 0 <= i < rev@.len() ==> rev@[i] < 16,
            digits(n as nat, hex) == leading_digits(m as nat, hex) + reversed_digits(rev@),
        decreases m,
    {
        proof {
            lemma_digits_step(m as nat, hex);
        }
        let ghost before = rev@;
        let d = if hex { m % 16 } else { m % 10 };
        let rest = if hex { m / 16 } else { m / 10 };
        rev.push(d as u8);
        assert(reversed_digits(rev@) =~= seq![digit_char(d as int)] + reversed_digits(before));
        assert(leading_digits(m as nat, hex) + reversed_digits(before) =~= leading_digits(
            rest as nat,
            hex,
        ) + reversed_digits(rev@));
        m = rest;
    }
    assert(digits(n as nat, hex) =~= reversed_digits(rev@));
    let mut k: usize = rev.len();
    while k > 0
        invariant
            k <= rev@.len(),
            forall|i: int| 0 <= i < rev@.len() ==> rev@[i] < 16,
            out@ == old(out)@ + reversed_digits(rev@).subrange(0, rev@.len() - k),
        decreases k,
    {
        k -= 1;
        out.append(digit_text(rev[k]));
        assert(out@ =~= old(out)@ + reversed_digits(rev@).subrange(0, rev@.len() - k));
    }
    assert(reversed_digits(rev@).subrange(0, rev@.len() as int) =~= reversed_digits(rev@));
}

/// Appends `n` in decimal to `out`.
pub fn push_decimal(out: &mut String, n: u64)
    ensures
        final(out)@ == old(out)@ + decimal(n as nat),
{
    push_digits(out, n, false);
}

/// Appends `n` in decimal to `out`, with a minus sign where it is negative.
pub fn push_signed(out: &mut String, n: i64)
    ensures
        final(out)@ == old(out)@ + signed_decimal(n as int),
{
    if n < 0 {
        proof {
            reveal_strlit("-");
        }
        out.append("-");
        assert("-"@ =~= seq!['-']);
        let magnitude: u64 = if n == i64::MIN {
            0x8000_0000_0000_0000
        } else {
            (-n) as u64
        };
        push_digits(out, magnitude, false);
        assert(out@ =~= old(out)@ + (seq!['-'] + decimal((-n) as nat)));
    } else {
        push_digits(out, n as u64, false);
    }
}

/// Appends `n` in hexadecimal, behind `0x`, to `out`.
pub fn push_hex(out: &mut String, n: u64)
    ensures
        final(out)@ == old(out)@ + hexadecimal(n as nat),
{
    proof {
        reveal_strlit("0x");
    }
    out.append("0x");
    assert("0x"@ =~= seq!['0', 'x']);
    push_digits(out, n, true);
    assert(out@ =~= old(out)@ + (seq!['0', 'x'] + digits(n as nat, true)));
}

} // verus!
