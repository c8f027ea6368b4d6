use vstd::prelude::*;

use vstd::string::StringExecFns;

verus! {

/// Whether `c` is an ASCII decimal digit.
pub open spec fn is_digit_char(c: char) -> bool {
    48 <= c as u32 <= 57
}

/// The character for a single decimal digit.
pub open spec fn digit_char(d: nat) -> char {
    if d == 0 {
        '0'
    } else if d == 1 {
        '1'
    } else if d == 2 {
        '2'
    } else if d == 3 {
        '3'
    } else if d == 4 {
        '4'
    } else if d == 5 {
        '5'
    } else if d == 6 {
        '6'
    } else if d == 7 {
        '7'
    } else if d == 8 {
        '8'
    } else {
        '9'
    }
}

/// The numeric value of an ASCII decimal digit character.
pub open spec fn char_digit(c: char) -> nat {
    (c as u32 - 48) as nat
}

/// The decimal text of `n`: most significant digit first, no sign and no
/// leading zeros (zero itself reads `"0"`).
pub open spec fn spec_decimal(n: nat) -> Seq<char>
    decreases n,
{
    if n < 10 {
        seq![digit_char(n)]
    } else {
        spec_decimal(n / 10).push(digit_char(n % 10))
    }
}

/// The number a sequence of decimal digit characters denotes.
pub open spec fn spec_decimal_value(s: Seq<char>) -> nat
    decreases s.len(),
{
    if s.len() == 0 {
        0
    } else {
        spec_decimal_value(s.drop_last()) * 10 + char_digit(s.last())
    }
}

/// The decimal text of `n` consists of digit characters only.
pub proof fn lemma_decimal_all_digits(n: nat)
    ensures
        forall|i: int| 0 <= i < spec_decimal(n).len() ==> is_digit_char(#[trigger] spec_decimal(n)[i]),
    decreases n,
{
    if n < 10 {
        assert(spec_decimal(n)[0] == digit_char(n));
    } else {
        lemma_decimal_all_digits(n / 10);
        assert forall|i: int| 0 <= i < spec_decimal(n).len() implies is_digit_char(
            #[trigger] spec_decimal(n)[i],
        ) by {
            if i < spec_decimal(n).len() - 1 {
                assert(spec_decimal(n)[i] == spec_decimal(n / 10)[i]);
            } else {
                assert(spec_decimal(n)[i] == digit_char(n % 10));
            }
        }
    }
}

/// Reading the decimal text of `n` back as a number yields `n` again:
/// the rendering loses nothing.
pub proof fn lemma_decimal_value_roundtrip(n: nat)
    ensures
        spec_decimal_value(spec_decimal(n)) == n,
    decreases n,
{
    if n < 10 {
        assert(spec_decimal(n).drop_last() =~= Seq::<char>::empty());
        assert(spec_decimal_value(Seq::<char>::empty()) == 0);
        assert(spec_decimal(n).last() == digit_char(n));
    } else {
        lemma_decimal_value_roundtrip(n / 10);
        assert(spec_decimal(n).drop_last() =~= spec_decimal(n / 10));
        assert(spec_decimal(n).last() == digit_char(n % 10));
        assert(char_digit(digit_char(n % 10)) == n % 10);
        assert(n == (n / 10) * 10 + n % 10) by {
            vstd::arithmetic::div_mod::lemma_fundamental_div_mod(n as int, 10);
        }
    }
}

/// The one-character string for the decimal digit `d`.
fn digit_str(d: u64) -> (r: &'static str)
    requires
        d < 10,
    ensures
        r@ =~= seq![digit_char(d as nat)],
{
    proof {
        reveal_strlit("0");
        reveal_strlit("1");
        reveal_strlit("2");
        reveal_strlit("3");
        reveal_strlit("4");
        reveal_strlit("5");
        reveal_strlit("6");
        reveal_strlit("7");
        reveal_strlit("8");
        reveal_strlit("9");
    }
    if d == 0 {
        "0"
    } else if d == 1 {
        "1"
    } else if d == 2 {
        "2"
    } else if d == 3 {
        "3"
    } else if d == 4 {
        "4"
    } else if d == 5 {
        "5"
    } else if d == 6 {
        "6"
    } else if d == 7 {
        "7"
    } else if d == 8 {
        "8"
    } else {
        "9"
    }
}

/// Append the decimal text of `n` to `out`.
fn push_decimal(n: u64, out: &mut String)
    ensures
        final(out)@ == old(out)@ + spec_decimal(n as nat),
    decreases n,
{
    if n >= 10 {
        push_decimal(n / 10, out);
    }
    let d = digit_str(n % 10);
    out.append(d);
    proof {
        if n >= 10 {
            assert(old(out)@ + spec_decimal((n / 10) as nat) + d@ =~= old(out)@ + spec_decimal(
                n as nat,
            ));
        } else {
            assert(old(out)@ + d@ =~= old(out)@ + spec_decimal(n as nat));
        }
    }
}

/// Render `n` as its decimal text.
pub fn u64_to_decimal(n: u64) -> (r: String)
    ensures
        r@ == spec_decimal(n as nat),
{
    let mut out = String::new();
    push_decimal(n, &mut out);
    proof {
        assert(Seq::<char>::empty() + spec_decimal(n as nat) =~= spec_decimal(n as nat));
    }
    out
}

} // verus!
