//! Opaque identifier codec.
//!
//! A persisted account row is numbered by a signed 64-bit integer. Across the
//! wire the row number travels only as an opaque string: its fixed-width,
//! zero-padded, lower-case hexadecimal form (16 digits). Decoding accepts any
//! non-empty string of hex digits (either case) whose value fits the signed
//! 64-bit range, and rejects everything else.

use vstd::prelude::*;

verus! {

/// Numeric value of a hex digit character, or -1 when the character is not a
/// hex digit.
pub open spec fn hex_digit_val(c: char) -> int {
    let u = c as u32;
    if 0x30 <= u && u <= 0x39 {
        u - 0x30
    } else if 0x61 <= u && u <= 0x66 {
        u - 0x61 + 10
    } else if 0x41 <= u && u <= 0x46 {
        u - 0x41 + 10
    } else {
        -1
    }
}

pub open spec fn is_hex_digit(c: char) -> bool {
    hex_digit_val(c) >= 0
}

/// The lower-case hex digit character for a value below 16.
pub open spec fn hex_char_of(d: int) -> char
    recommends
        0 <= d < 16,
{
    if d == 0 {
        '0'
    } else if d == 1 {
        '1'
    } else if d == 2 {
        '2'
    } else if d == 3 {
        '3'
    } else if d == 4 {
        '4'
    } else if d == 5 {
        '5'
    } else if d == 6 {
        '6'
    } else if d == 7 {
        '7'
    } else if d == 8 {
        '8'
    } else if d == 9 {
        '9'
    } else if d == 10 {
        'a'
    } else if d == 11 {
        'b'
    } else if d == 12 {
        'c'
    } else if d == 13 {
        'd'
    } else if d == 14 {
        'e'
    } else {
        'f'
    }
}

/// The last `k` lower-case hex digits of `n`, most significant first.
pub open spec fn hex_chars(n: nat, k: nat) -> Seq<char>
    decreases k,
{
    if k == 0 {
        Seq::empty()
    } else {
        hex_chars(n / 16, (k - 1) as nat).push(hex_char_of((n % 16) as int))
    }
}

/// The canonical encoded form of a row number: 16 lower-case hex digits of its
/// two's-complement 64-bit value.
pub open spec fn encoded_id(n: i64) -> Seq<char> {
    hex_chars((n as u64) as nat, 16)
}

/// Value of a sequence of hex digit characters, read in base 16.
pub open spec fn hex_value(s: Seq<char>) -> int
    decreases s.len(),
{
    if s.len() == 0 {
        0
    } else {
        hex_value(s.drop_last()) * 16 + hex_digit_val(s.last())
    }
}

/// A string that `decode_row_id` treats as hex at all: non-empty, hex digits
/// only. Whether the value fits the signed 64-bit range is a separate check.
pub open spec fn well_formed_hex(s: Seq<char>) -> bool {
    s.len() > 0 && forall|i: int| 0 <= i < s.len() ==> is_hex_digit(#[trigger] s[i])
}

/// 16 raised to the `k`-th power.
pub open spec fn pow16(k: nat) -> nat
    decreases k,
{
    if k == 0 {
        1
    } else {
        16 * pow16((k - 1) as nat)
    }
}

fn hex_digit_str(d: u64) -> (r: &'static str)
    requires
        d < 16,
    ensures
        r@ =~= seq![hex_char_of(d as int)],
{
    proof {
        reveal_strlit("0");
        reveal_strlit("1");
        reveal_strlit("2");
        reveal_strlit("3");
        reveal_strlit("4");
        reveal_strlit("5");
        reveal_strlit("6");
        reveal_strlit("7");
        reveal_strlit("8");
        reveal_strlit("9");
        reveal_strlit("a");
        reveal_strlit("b");
        reveal_strlit("c");
        reveal_strlit("d");
        reveal_strlit("e");
        reveal_strlit("f");
    }
    if d == 0 {
        "0"
    } else if d == 1 {
        "1"
    } else if d == 2 {
        "2"
    } else if d == 3 {
        "3"
    } else if d == 4 {
        "4"
    } else if d == 5 {
        "5"
    } else if d == 6 {
        "6"
    } else if d == 7 {
        "7"
    } else if d == 8 {
        "8"
    } else if d == 9 {
        "9"
    } else if d == 10 {
        "a"
    } else if d == 11 {
        "b"
    } else if d == 12 {
        "c"
    } else if d == 13 {
        "d"
    } else if d == 14 {
        "e"
    } else {
        "f"
    }
}

fn encode_hex(u: u64, k: usize) -> (r: String)
    ensures
        r@ == hex_chars(u as nat, k as nat),
    decreases k,
{
    if k == 0 {
        let r = String::new();
        proof {
            assert(r@ =~= hex_chars(u as nat, 0));
        }
        r
    } else {
        let rest = encode_hex(u / 16, k - 1);
        let digit = hex_digit_str(u % 16);
        let r = rest.concat(digit);
        proof {
            assert(r@ =~= hex_chars(u as nat, k as nat));
        }
        r
    }
}

/// Encodes a row number as its opaque external identifier: exactly 16
/// lower-case hex digits, zero padded. Total and deterministic.
pub fn encode_row_id(n: i64) -> (r: String)
    ensures
        r@ == encoded_id(n),
        r@.len() == 16,
        forall|i: int|
            0 <= i < r@.len() ==> is_hex_digit(#[trigger] r@[i]) && hex_char_of(
                hex_digit_val(r@[i]),
            ) == r@[i],
{
    let u: u64 = n as u64;
    let r = encode_hex(u, 16);
    proof {
        lemma_hex_chars_shape(u as nat, 16);
    }
    r
}

/// Decodes an opaque external identifier back to a row number. Returns the
/// value exactly when the string is non-empty, all hex digits, and its value
/// fits the signed 64-bit range; returns nothing otherwise.
pub fn decode_row_id(s: &str) -> (r: Option<i64>)
    ensures
        r is Some <==> well_formed_hex(s@) && hex_value(s@) <= i64::MAX,
        r is Some ==> r == Some(hex_value(s@) as i64) && hex_value(s@) >= 0,
{
    let len = s.unicode_len();
    if len == 0 {
        return None;
    }
    let mut acc: u64 = 0;
    let mut i: usize = 0;
    while i < len
        invariant
            i <= len,
            len == s@.len(),
            forall|j: int| 0 <= j < i ==> is_hex_digit(#[trigger] s@[j]),
            acc == hex_value(s@.take(i as int)),
            acc <= 0x7fff_ffff_ffff_ffff,
        decreases len - i,
    {
        let c = s.get_char(i);
        let u = c as u32;
        let d: u64 = if 0x30 <= u && u <= 0x39 {
            (u - 0x30) as u64
        } else if 0x61 <= u && u <= 0x66 {
            (u - 0x61 + 10) as u64
        } else if 0x41 <= u && u <= 0x46 {
            (u - 0x41 + 10) as u64
        } else {
            return None;
        };
        assert(d == hex_digit_val(s@[i as int]) && d < 16);
        proof {
            assert(s@.take(i + 1).drop_last() =~= s@.take(i as int));
            assert(s@.take(i + 1).last() == s@[i as int]);
        }
        if acc > (0x7fff_ffff_ffff_ffffu64 - d) / 16 {
            proof {
                let m: int = 0x7fff_ffff_ffff_ffff;
                vstd::arithmetic::div_mod::lemma_fundamental_div_mod(m - d, 16);
                assert(acc * 16 + d > m);
                assert(hex_value(s@.take(i + 1)) > m);
                if well_formed_hex(s@) {
                    lemma_hex_value_mono(s@, i + 1);
                }
            }
            return None;
        }
        acc = acc * 16 + d;
        i += 1;
    }
    proof {
        assert(s@.take(len as int) =~= s@);
    }
    Some(acc as i64)
}

proof fn lemma_hex_value_nonneg(s: Seq<char>)
    requires
        forall|j: int| 0 <= j < s.len() ==> is_hex_digit(#[trigger] s[j]),
    ensures
        hex_value(s) >= 0,
    decreases s.len(),
{
    if s.len() > 0 {
        assert(forall|j: int|
            0 <= j < s.drop_last().len() ==> is_hex_digit(#[trigger] s.drop_last()[j]));
        lemma_hex_value_nonneg(s.drop_last());
    }
}

/// The value of a hex string never falls when more digits follow: the value of
/// any prefix bounds the value of the whole from below.
proof fn lemma_hex_value_mono(s: Seq<char>, i: int)
    requires
        0 <= i <= s.len(),
        forall|j: int| 0 <= j < s.len() ==> is_hex_digit(#[trigger] s[j]),
    ensures
        hex_value(s.take(i)) <= hex_value(s),
    decreases s.len() - i,
{
    if i == s.len() {
        assert(s.take(i) =~= s);
    } else {
        assert(s.take(i + 1).drop_last() =~= s.take(i));
        assert(s.take(i + 1).last() == s[i]);
        assert(forall|j: int| 0 <= j < s.take(i).len() ==> is_hex_digit(#[trigger] s.take(i)[j]));
        lemma_hex_value_nonneg(s.take(i));
        assert(hex_value(s.take(i + 1)) == hex_value(s.take(i)) * 16 + hex_digit_val(s[i]));
        assert(hex_value(s.take(i)) * 16 >= hex_value(s.take(i))) by (nonlinear_arith)
            requires
                hex_value(s.take(i)) >= 0,
        ;
        lemma_hex_value_mono(s, i + 1);
    }
}

/// Every sequence `hex_chars` builds has length `k` and holds lower-case hex
/// digits whose values round-trip through `hex_char_of`.
proof fn lemma_hex_chars_shape(n: nat, k: nat)
    ensures
        hex_chars(n, k).len() == k,
        forall|i: int|
            0 <= i < k ==> is_hex_digit(#[trigger] hex_chars(n, k)[i]) && hex_char_of(
                hex_digit_val(hex_chars(n, k)[i]),
            ) == hex_chars(n, k)[i],
    decreases k,
{
    if k > 0 {
        lemma_hex_chars_shape(n / 16, (k - 1) as nat);
        let d = (n % 16) as int;
        assert(0 <= d < 16);
        assert(hex_digit_val(hex_char_of(d)) == d);
        assert(is_hex_digit(hex_char_of(d)));
    }
}

proof fn lemma_hex_value_of_hex_chars(n: nat, k: nat)
    requires
        n < pow16(k),
    ensures
        hex_value(hex_chars(n, k)) == n,
    decreases k,
{
    if k == 0 {
        assert(hex_chars(n, 0) =~= Seq::<char>::empty());
    } else {
        let rest = hex_chars(n / 16, (k - 1) as nat);
        let d = (n % 16) as int;
        assert(hex_chars(n, k) == rest.push(hex_char_of(d)));
        assert(hex_chars(n, k).drop_last() =~= rest);
        assert(hex_chars(n, k).last() == hex_char_of(d));
        assert(n / 16 < pow16((k - 1) as nat)) by (nonlinear_arith)
            requires
                n < 16 * pow16((k - 1) as nat),
        ;
        lemma_hex_value_of_hex_chars(n / 16, (k - 1) as nat);
        assert(hex_digit_val(hex_char_of(d)) == d);
        vstd::arithmetic::div_mod::lemma_fundamental_div_mod(n as int, 16);
    }
}

/// Law: the identifier codec round-trips. For every valid (non-negative) row
/// number, the encoded identifier is a well-formed 16-digit lower-case hex
/// string whose decoded value is the row number again.
pub proof fn lemma_identifier_round_trip(n: i64)
    requires
        0 <= n,
    ensures
        well_formed_hex(encoded_id(n)),
        encoded_id(n).len() == 16,
        hex_value(encoded_id(n)) == n,
{
    let u: nat = (n as u64) as nat;
    assert(u == n);
    lemma_hex_chars_shape(u, 16);
    assert(pow16(16) == 0x1_0000_0000_0000_0000) by {
        reveal_with_fuel(pow16, 17);
    }
    lemma_hex_value_of_hex_chars(u, 16);
}

} // verus!
