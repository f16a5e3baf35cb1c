//! Decimal text: rendering a port number into a URL and reading one back
//! out of a probe target.

use vstd::prelude::*;

verus! {

/// The character for one decimal digit.
pub open spec fn digit_char(d: nat) -> char {
    if d == 0 {
        '0'
    } else if d == 1 {
        '1'
    } else if d == 2 {
        '2'
    } else if d == 3 {
        '3'
    } else if d == 4 {
        '4'
    } else if d == 5 {
        '5'
    } else if d == 6 {
        '6'
    } else if d == 7 {
        '7'
    } else if d == 8 {
        '8'
    } else {
        '9'
    }
}

/// The usual decimal rendering of `n`: no sign, no leading zero except
/// for `n == 0` itself.
pub open spec fn dec_chars(n: nat) -> Seq<char>
    decreases n,
{
    if n < 10 {
        seq![digit_char(n)]
    } else {
        dec_chars(n / 10).push(digit_char(n % 10))
    }
}

/// The one-character string for the digit `d`.
pub fn digit_str(d: u8) -> (r: &'static str)
    requires
        d < 10,
    ensures
        r@ =~= seq![digit_char(d as nat)],
{
    proof {
        reveal_strlit("0");
        reveal_strlit("1");
        reveal_strlit("2");
        reveal_strlit("3");
        reveal_strlit("4");
        reveal_strlit("5");
        reveal_strlit("6");
        reveal_strlit("7");
        reveal_strlit("8");
        reveal_strlit("9");
    }
    if d == 0 {
        "0"
    } else if d == 1 {
        "1"
    } else if d == 2 {
        "2"
    } else if d == 3 {
        "3"
    } else if d == 4 {
        "4"
    } else if d == 5 {
        "5"
    } else if d == 6 {
        "6"
    } else if d == 7 {
        "7"
    } else if d == 8 {
        "8"
    } else {
        "9"
    }
}

/// Append the decimal rendering of `n` to `s`.
pub fn push_dec_u16(s: &mut String, n: u16)
    ensures
        final(s)@ == old(s)@ + dec_chars(n as nat),
    decreases n,
{
    if n >= 10 {
        push_dec_u16(s, n / 10);
        let d = digit_str((n % 10) as u8);
        s.append(d);
        proof {
            assert(final(s)@ =~= old(s)@ + dec_chars(n as nat));
        }
    } else {
        let d = digit_str(n as u8);
        s.append(d);
        proof {
            assert(final(s)@ =~= old(s)@ + dec_chars(n as nat));
        }
    }
}

/// The bytes an ASCII text is written with: each character truncated to
/// its code.  Faithful only below code 128, which is all this crate ever
/// writes.
pub open spec fn ascii_bytes(s: Seq<char>) -> Seq<u8> {
    Seq::new(s.len(), |i: int| (((s[i] as u32) % 256) as u8))
}

/// Every character of a decimal rendering is a digit.
pub proof fn lemma_dec_chars_are_digits(n: nat)
    ensures
        forall|i: int|
            0 <= i < dec_chars(n).len() ==> 48 <= (#[trigger] dec_chars(n)[i]) as u32 <= 57,
    decreases n,
{
    if n >= 10 {
        lemma_dec_chars_are_digits(n / 10);
        assert forall|i: int| 0 <= i < dec_chars(n).len() implies 48 <= (
        #[trigger] dec_chars(n)[i]) as u32 <= 57 by {
            if i < dec_chars(n / 10).len() {
                assert(dec_chars(n)[i] == dec_chars(n / 10)[i]);
            }
        }
    }
}

/// Rendering a number and reading the digits back gives the number: the
/// decimal text of `n` is a non-empty all-digit run spelling `n`.
pub proof fn lemma_dec_chars_value(n: nat)
    ensures
        dec_chars(n).len() >= 1,
        all_dec_digits(ascii_bytes(dec_chars(n))),
        dec_value(ascii_bytes(dec_chars(n))) == n,
    decreases n,
{
    let b = ascii_bytes(dec_chars(n));
    if n < 10 {
        assert(digit_char(n) as u32 == 48 + n);
        assert(b =~= seq![((digit_char(n) as u32 % 256) as u8)]);
        assert(b.drop_last() =~= Seq::<u8>::empty());
        assert(dec_value(b.drop_last()) == 0);
        assert(is_dec_digit(b[0]));
        assert(dec_value(b) == (b.last() - 48) as nat);
    } else {
        lemma_dec_chars_value(n / 10);
        let a = ascii_bytes(dec_chars(n / 10));
        assert(digit_char(n % 10) as u32 == 48 + n % 10);
        assert(b.drop_last() =~= a);
        assert(b.last() == (digit_char(n % 10) as u32 % 256) as u8);
        assert forall|i: int| 0 <= i < b.len() implies is_dec_digit(#[trigger] b[i]) by {
            if i < a.len() {
                assert(b[i] == a[i]);
            }
        }
        assert(dec_value(b) == dec_value(a) * 10 + (b.last() - 48) as nat);
        assert(dec_value(b) == (n / 10) * 10 + n % 10);
    }
}

/// Whether `b` is the code of an ASCII decimal digit.
pub open spec fn is_dec_digit(b: u8) -> bool {
    48 <= b && b <= 57
}

/// Whether every byte of `s` is an ASCII decimal digit.
pub open spec fn all_dec_digits(s: Seq<u8>) -> bool {
    forall|i: int| 0 <= i < s.len() ==> is_dec_digit(#[trigger] s[i])
}

/// The number that the digit bytes `s` spell in decimal.
pub open spec fn dec_value(s: Seq<u8>) -> nat
    decreases s.len(),
{
    if s.len() == 0 {
        0
    } else {
        dec_value(s.drop_last()) * 10 + (s.last() - 48) as nat
    }
}

/// A prefix of a digit string never spells a larger number than the whole.
pub proof fn lemma_dec_value_prefix(s: Seq<u8>, i: int)
    requires
        0 <= i <= s.len(),
        all_dec_digits(s),
    ensures
        dec_value(s.take(i)) <= dec_value(s),
    decreases s.len(),
{
    if i < s.len() {
        assert(s.drop_last().take(i) =~= s.take(i));
        assert(all_dec_digits(s.drop_last()));
        lemma_dec_value_prefix(s.drop_last(), i);
    } else {
        assert(s.take(i) =~= s);
    }
}

/// Read a port number out of its decimal digit bytes.  Returns the value
/// exactly when `s` is a non-empty run of digits spelling a number that
/// fits a port, and nothing otherwise.
pub fn parse_port_bytes(s: &[u8]) -> (r: Option<u16>)
    ensures
        (s@.len() > 0 && all_dec_digits(s@) && dec_value(s@) <= 65535) ==> r == Some(
            (dec_value(s@) as u16),
        ),
        !(s@.len() > 0 && all_dec_digits(s@) && dec_value(s@) <= 65535) ==> r is None,
{
    if s.len() == 0 {
        return None;
    }
    let mut acc: u32 = 0;
    let mut i: usize = 0;
    while i < s.len()
        invariant
            0 <= i <= s@.len(),
            all_dec_digits(s@.take(i as int)),
            acc == dec_value(s@.take(i as int)),
            acc <= 65535,
        decreases s@.len() - i,
    {
        let b = s[i];
        if b < 48 || b > 57 {
            assert(!is_dec_digit(s@[i as int]));
            return None;
        }
        acc = acc * 10 + (b - 48) as u32;
        proof {
            assert(s@.take(i + 1).drop_last() =~= s@.take(i as int));
            assert(s@.take(i + 1).last() == s@[i as int]);
            assert(all_dec_digits(s@.take(i + 1)));
        }
        i = i + 1;
        if acc > 65535 {
            proof {
                if all_dec_digits(s@) {
                    lemma_dec_value_prefix(s@, i as int);
                }
            }
            return None;
        }
    }
    proof {
        assert(s@.take(i as int) =~= s@);
    }
    Some(acc as u16)
}

} // verus!
