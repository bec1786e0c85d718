use vstd::prelude::*;
use crate::text::push_char;

verus! {

/// The lowercase hexadecimal digit for a value below sixteen.
pub open spec fn hex_digit(d: nat) -> char {
    if d < 10 {
        (48 + d) as char
    } else {
        (87 + d) as char
    }
}

/// The value of a lowercase hexadecimal digit.
pub open spec fn digit_value(c: char) -> int {
    if '0' <= c <= '9' {
        c as int - 48
    } else {
        c as int - 87
    }
}

/// The shortest lowercase hexadecimal spelling of `n`, without prefix
/// (zero is spelled "0").
pub open spec fn hex_digits(n: nat) -> Seq<char>
    decreases n,
{
    if n < 16 {
        seq![hex_digit(n)]
    } else {
        hex_digits(n / 16).push(hex_digit(n % 16))
    }
}

/// The number that a run of lowercase hexadecimal digits spells.
pub open spec fn hex_value(s: Seq<char>) -> int
    decreases s.len(),
{
    if s.len() == 0 {
        0
    } else {
        hex_value(s.drop_last()) * 16 + digit_value(s.last())
    }
}

proof fn lemma_digit_value(d: nat)
    requires
        d < 16,
    ensures
        digit_value(hex_digit(d)) == d,
{
    if d < 10 {
        assert(((48 + d) as char) as int == 48 + d);
    } else {
        assert(((87 + d) as char) as int == 87 + d);
    }
}

/// The character for a digit value below sixteen.
fn digit_char(d: u32) -> (c: char)
    requires
        d < 16,
    ensures
        c == hex_digit(d as nat),
{
    let b: u8 = if d < 10 {
        48 + (d as u8)
    } else {
        87 + (d as u8)
    };
    b as char
}

/// Appends the hexadecimal spelling of `n` to `s`.
pub(crate) fn push_hex(s: &mut String, n: u32)
    ensures
        final(s)@ == old(s)@ + hex_digits(n as nat),
    decreases n,
{
    if n >= 16 {
        push_hex(s, n / 16);
    }
    push_char(s, digit_char(n % 16));
}

/// Spelling a number in hexadecimal and reading the digits back gives the
/// number again.
pub proof fn lemma_hex_roundtrip(n: nat)
    ensures
        hex_value(hex_digits(n)) == n,
        hex_digits(n).len() >= 1,
    decreases n,
{
    if n < 16 {
        lemma_digit_value(n);
        assert(seq![hex_digit(n)].drop_last() =~= Seq::<char>::empty());
        assert(hex_value(Seq::<char>::empty()) == 0);
    } else {
        lemma_digit_value(n % 16);
        lemma_hex_roundtrip(n / 16);
        let s = hex_digits(n / 16).push(hex_digit(n % 16));
        assert(s.drop_last() =~= hex_digits(n / 16));
        assert(n == (n / 16) * 16 + n % 16) by (nonlinear_arith);
    }
}

/// The spelling uses only the digits `0`-`9` and lowercase `a`-`f`, and
/// starts with `0` only for zero itself, which is spelled `0`.
pub proof fn lemma_hex_digits_shape(n: nat)
    ensures
        forall|i: int| 0 <= i < hex_digits(n).len() ==> {
            let c = #[trigger] hex_digits(n)[i];
            ('0' <= c && c <= '9') || ('a' <= c && c <= 'f')
        },
        n > 0 ==> hex_digits(n)[0] != '0',
        n == 0 ==> hex_digits(n) == seq!['0'],
        hex_digits(n).len() >= 1,
    decreases n,
{
    if n < 16 {
        if n < 10 {
            assert(((48 + n) as char) as int == 48 + n);
        } else {
            assert(((87 + n) as char) as int == 87 + n);
        }
    } else {
        lemma_hex_digits_shape(n / 16);
        let d = n % 16;
        if d < 10 {
            assert(((48 + d) as char) as int == 48 + d);
        } else {
            assert(((87 + d) as char) as int == 87 + d);
        }
        let s = hex_digits(n);
        assert(s[0] == hex_digits(n / 16)[0]);
        assert forall|i: int| 0 <= i < s.len() implies {
            let c = #[trigger] s[i];
            ('0' <= c && c <= '9') || ('a' <= c && c <= 'f')
        } by {
            if i < s.len() - 1 {
                assert(s[i] == hex_digits(n / 16)[i]);
            }
        }
    }
}

/// Distinct numbers are spelled differently.
pub proof fn lemma_hex_injective(a: nat, b: nat)
    requires
        hex_digits(a) == hex_digits(b),
    ensures
        a == b,
{
    lemma_hex_roundtrip(a);
    lemma_hex_roundtrip(b);
}

} // verus!
