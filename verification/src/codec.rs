//! Decimal-string encoding of 64-bit unsigned integers.
//!
//! Structured-text decoders in common clients parse number literals into a
//! floating-point type that loses precision above 2^53, so every 64-bit
//! field of the wire summary is transported as a decimal string instead.
//! This module is the single reusable encoder/decoder for that rule.

use vstd::prelude::*;

verus! {

/// The character for one decimal digit (`d < 10`).
pub open spec fn digit_char(d: nat) -> char {
    if d == 0 {
        '0'
    } else if d == 1 {
        '1'
    } else if d == 2 {
        '2'
    } else if d == 3 {
        '3'
    } else if d == 4 {
        '4'
    } else if d == 5 {
        '5'
    } else if d == 6 {
        '6'
    } else if d == 7 {
        '7'
    } else if d == 8 {
        '8'
    } else {
        '9'
    }
}

/// Whether `c` is a decimal digit character.
pub open spec fn is_dec_digit(c: char) -> bool {
    c == '0' || c == '1' || c == '2' || c == '3' || c == '4' || c == '5' || c == '6' || c == '7'
        || c == '8' || c == '9'
}

/// The numeric value of one decimal digit character.
pub open spec fn digit_val(c: char) -> nat
    recommends
        is_dec_digit(c),
{
    if c == '0' {
        0
    } else if c == '1' {
        1
    } else if c == '2' {
        2
    } else if c == '3' {
        3
    } else if c == '4' {
        4
    } else if c == '5' {
        5
    } else if c == '6' {
        6
    } else if c == '7' {
        7
    } else if c == '8' {
        8
    } else {
        9
    }
}

/// The canonical decimal representation of `n`: most significant digit
/// first, no sign, no leading zeros.
pub open spec fn dec_str(n: nat) -> Seq<char>
    decreases n,
{
    if n < 10 {
        seq![digit_char(n)]
    } else {
        dec_str(n / 10).push(digit_char(n % 10))
    }
}

/// The numeric value of a digit string, most significant digit first.
pub open spec fn dec_val(s: Seq<char>) -> nat
    decreases s.len(),
{
    if s.len() == 0 {
        0
    } else {
        dec_val(s.drop_last()) * 10 + digit_val(s.last())
    }
}

/// A string is a canonical decimal representation when it is non-empty,
/// all digits, and free of leading zeros.
pub open spec fn is_canonical_dec(s: Seq<char>) -> bool {
    &&& s.len() >= 1
    &&& forall|i: int| 0 <= i < s.len() ==> is_dec_digit(#[trigger] s[i])
    &&& (s[0] == '0' ==> s.len() == 1)
}

/// `dec_str(n)` is canonical and evaluates back to `n`; it starts with a
/// zero digit only for `n == 0`.
pub proof fn lemma_dec_str_props(n: nat)
    ensures
        is_canonical_dec(dec_str(n)),
        dec_val(dec_str(n)) == n,
        n >= 1 ==> dec_str(n)[0] != '0',
    decreases n,
{
    if n < 10 {
        assert(dec_str(n) == seq![digit_char(n)]);
        assert(dec_str(n).drop_last() =~= Seq::<char>::empty());
        assert(dec_val(Seq::<char>::empty()) == 0);
        assert(dec_val(dec_str(n)) == digit_val(digit_char(n)));
    } else {
        lemma_dec_str_props(n / 10);
        let p = dec_str(n / 10);
        let s = p.push(digit_char(n % 10));
        assert(s.drop_last() =~= p);
        assert(s.last() == digit_char(n % 10));
        assert(dec_val(s) == dec_val(p) * 10 + digit_val(digit_char(n % 10)));
        assert(digit_val(digit_char(n % 10)) == n % 10);
        vstd::arithmetic::div_mod::lemma_fundamental_div_mod(n as int, 10);
        assert(dec_val(s) == n);
        assert(n / 10 >= 1);
        assert(s[0] == p[0]);
        assert(forall|i: int| 0 <= i < s.len() ==> is_dec_digit(#[trigger] s[i]));
        assert(s[0] != '0');
    }
}

/// An all-digit string whose first digit is not zero has a value of at
/// least one.
proof fn lemma_dec_val_positive(s: Seq<char>)
    requires
        s.len() >= 1,
        forall|i: int| 0 <= i < s.len() ==> is_dec_digit(#[trigger] s[i]),
        s[0] != '0',
    ensures
        dec_val(s) >= 1,
    decreases s.len(),
{
    if s.len() == 1 {
        assert(s.drop_last() =~= Seq::<char>::empty());
        assert(dec_val(Seq::<char>::empty()) == 0);
        assert(dec_val(s) == digit_val(s[0]));
    } else {
        let p = s.drop_last();
        assert(p[0] == s[0]);
        lemma_dec_val_positive(p);
    }
}

/// Every canonical decimal string is the canonical representation of its
/// own value: `dec_str` and `dec_val` are mutually inverse.
pub proof fn lemma_canonical_dec_str(s: Seq<char>)
    requires
        is_canonical_dec(s),
    ensures
        s == dec_str(dec_val(s)),
    decreases s.len(),
{
    if s.len() == 1 {
        let c = s[0];
        assert(s.drop_last() =~= Seq::<char>::empty());
        assert(dec_val(Seq::<char>::empty()) == 0);
        assert(dec_val(s) == digit_val(c));
        assert(digit_char(digit_val(c)) == c);
        assert(s =~= dec_str(dec_val(s)));
    } else {
        let p = s.drop_last();
        let c = s.last();
        assert(s[0] != '0');
        assert(p[0] == s[0]);
        assert(forall|i: int| 0 <= i < p.len() ==> is_dec_digit(#[trigger] p[i]));
        lemma_dec_val_positive(p);
        let v = dec_val(s);
        assert(v == dec_val(p) * 10 + digit_val(c));
        vstd::arithmetic::div_mod::lemma_fundamental_div_mod_converse(
            v as int,
            10,
            dec_val(p) as int,
            digit_val(c) as int,
        );
        assert(v / 10 == dec_val(p));
        assert(v % 10 == digit_val(c));
        assert(v >= 10);
        lemma_canonical_dec_str(p);
        assert(digit_char(digit_val(c)) == c);
        assert(dec_str(v) == dec_str(dec_val(p)).push(digit_char(v % 10)));
        assert(s =~= p.push(c));
    }
}

/// No two distinct integers share a decimal representation.
pub proof fn lemma_dec_str_injective(a: nat, b: nat)
    requires
        dec_str(a) == dec_str(b),
    ensures
        a == b,
{
    lemma_dec_str_props(a);
    lemma_dec_str_props(b);
}

/// The value of an all-digit string is at least the value of any of its
/// prefixes.
proof fn lemma_dec_val_prefix(s: Seq<char>, i: int)
    requires
        0 <= i <= s.len(),
        forall|j: int| 0 <= j < s.len() ==> is_dec_digit(#[trigger] s[j]),
    ensures
        dec_val(s) >= dec_val(s.take(i)),
    decreases s.len() - i,
{
    if i == s.len() {
        assert(s.take(i) =~= s);
    } else {
        let t = s.take(i + 1);
        assert(t.drop_last() =~= s.take(i));
        assert(dec_val(t) == dec_val(s.take(i)) * 10 + digit_val(s[i]));
        lemma_dec_val_prefix(s, i + 1);
    }
}

/// Appends the character for digit `d` to `s`.
fn push_digit(s: &mut String, d: u64)
    requires
        d < 10,
    ensures
        final(s)@ == old(s)@.push(digit_char(d as nat)),
{
    proof {
        reveal_strlit("0");
        reveal_strlit("1");
        reveal_strlit("2");
        reveal_strlit("3");
        reveal_strlit("4");
        reveal_strlit("5");
        reveal_strlit("6");
        reveal_strlit("7");
        reveal_strlit("8");
        reveal_strlit("9");
    }
    if d == 0 {
        s.append("0");
    } else if d == 1 {
        s.append("1");
    } else if d == 2 {
        s.append("2");
    } else if d == 3 {
        s.append("3");
    } else if d == 4 {
        s.append("4");
    } else if d == 5 {
        s.append("5");
    } else if d == 6 {
        s.append("6");
    } else if d == 7 {
        s.append("7");
    } else if d == 8 {
        s.append("8");
    } else {
        s.append("9");
    }
    proof {
        assert(s@ =~= old(s)@.push(digit_char(d as nat)));
    }
}

/// Encodes `n` as its canonical decimal string, the form in which every
/// 64-bit field of the wire summary is transported.
pub fn encode_u64_decimal(n: u64) -> (s: String)
    ensures
        s@ == dec_str(n as nat),
    decreases n,
{
    if n < 10 {
        let mut s = String::new();
        push_digit(&mut s, n);
        proof {
            assert(s@ =~= dec_str(n as nat));
        }
        s
    } else {
        let mut s = encode_u64_decimal(n / 10);
        push_digit(&mut s, n % 10);
        proof {
            assert(s@ =~= dec_str(n as nat));
        }
        s
    }
}

/// Decodes a canonical decimal string back into the 64-bit integer it
/// encodes. Returns `None` exactly when `s` is not `encode_u64_decimal`'s
/// output for any `u64`: empty, a non-digit present, a leading zero, or a
/// value beyond `u64::MAX`. Together with `encode_u64_decimal`'s
/// postcondition, the last `ensures` clause states that every encoded
/// 64-bit value decodes back to itself exactly.
pub fn parse_u64_decimal(s: &str) -> (r: Option<u64>)
    ensures
        r matches Some(n) ==> s@ == dec_str(n as nat),
        r is None ==> forall|n: u64| s@ != dec_str(n as nat),
        forall|n: u64| s@ == dec_str(n as nat) ==> r == Some(n),
{
    let len = s.unicode_len();
    if len == 0 {
        proof {
            assert forall|n: u64| s@ != dec_str(n as nat) by {
                lemma_dec_str_props(n as nat);
            }
        }
        return None;
    }
    if s.get_char(0) == '0' && len != 1 {
        proof {
            assert forall|n: u64| s@ != dec_str(n as nat) by {
                lemma_dec_str_props(n as nat);
            }
        }
        return None;
    }
    let mut acc: u64 = 0;
    let mut i: usize = 0;
    while i < len
        invariant
            0 <= i <= len,
            len == s@.len(),
            s@[0] == '0' ==> len == 1,
            forall|j: int| 0 <= j < i ==> is_dec_digit(#[trigger] s@[j]),
            acc == dec_val(s@.take(i as int)),
        decreases len - i,
    {
        let c = s.get_char(i);
        let d: u64 = match c {
            '0' => 0,
            '1' => 1,
            '2' => 2,
            '3' => 3,
            '4' => 4,
            '5' => 5,
            '6' => 6,
            '7' => 7,
            '8' => 8,
            '9' => 9,
            _ => {
                proof {
                    assert(!is_dec_digit(s@[i as int]));
                    assert forall|n: u64| s@ != dec_str(n as nat) by {
                        lemma_dec_str_props(n as nat);
                    }
                }
                return None;
            },
        };
        proof {
            assert(is_dec_digit(s@[i as int]));
            assert(digit_val(s@[i as int]) == d);
            assert(s@.take(i + 1).drop_last() =~= s@.take(i as int));
            assert(dec_val(s@.take(i + 1)) == acc * 10 + d);
        }
        if acc > (u64::MAX - d) / 10 {
            proof {
                vstd::arithmetic::div_mod::lemma_fundamental_div_mod((u64::MAX - d) as int, 10);
                assert(acc * 10 + d > u64::MAX);
                assert forall|n: u64| s@ != dec_str(n as nat) by {
                    lemma_dec_str_props(n as nat);
                    if s@ == dec_str(n as nat) {
                        lemma_dec_val_prefix(s@, i + 1);
                        assert(dec_val(s@) >= acc * 10 + d);
                    }
                }
            }
            return None;
        }
        proof {
            vstd::arithmetic::div_mod::lemma_fundamental_div_mod((u64::MAX - d) as int, 10);
            assert(acc * 10 + d <= u64::MAX);
        }
        acc = acc * 10 + d;
        i = i + 1;
    }
    proof {
        assert(s@.take(len as int) =~= s@);
        assert(is_canonical_dec(s@));
        lemma_canonical_dec_str(s@);
        assert(s@ == dec_str(acc as nat));
        assert forall|n: u64| s@ == dec_str(n as nat) implies Some(acc) == Some::<u64>(n) by {
            lemma_dec_str_injective(acc as nat, n as nat);
        }
    }
    Some(acc)
}

} // verus!
