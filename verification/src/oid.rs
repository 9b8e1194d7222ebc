//! Document identifiers and their textual form.
//!
//! The store names every document by a 96-bit identifier, written by clients
//! as a string of 24 hexadecimal digits. Parsing and printing that form is
//! done here in verified code, with an exact statement of which strings are
//! accepted and of the value they denote.

use vstd::prelude::*;
use vstd::arithmetic::power2::*;
use vstd::arithmetic::div_mod::lemma_fundamental_div_mod;

verus! {

/// A 96-bit document identifier, held as two machine integers: the first
/// 64 bits (the first 16 hex digits) and the last 32 bits (the last 8).
#[derive(Clone, Copy, PartialEq, Eq, Structural, Debug)]
pub struct PostId {
    pub hi: u64,
    pub lo: u32,
}

/// The characters accepted as one hexadecimal digit (both cases).
pub open spec fn is_hex_digit(c: char) -> bool {
    ||| '0' as u32 <= c as u32 && c as u32 <= '9' as u32
    ||| 'a' as u32 <= c as u32 && c as u32 <= 'f' as u32
    ||| 'A' as u32 <= c as u32 && c as u32 <= 'F' as u32
}

/// The numeric value of one hexadecimal digit.
pub open spec fn hex_digit_value(c: char) -> nat {
    if '0' as u32 <= c as u32 && c as u32 <= '9' as u32 {
        (c as u32 - '0' as u32) as nat
    } else if 'a' as u32 <= c as u32 && c as u32 <= 'f' as u32 {
        (c as u32 - 'a' as u32 + 10) as nat
    } else {
        (c as u32 - 'A' as u32 + 10) as nat
    }
}

/// The numeric value of a string of hexadecimal digits, most significant
/// digit first.
pub open spec fn hex_value(s: Seq<char>) -> nat
    decreases s.len(),
{
    if s.len() == 0 {
        0
    } else {
        16 * hex_value(s.drop_last()) + hex_digit_value(s.last())
    }
}

pub open spec fn all_hex_digits(s: Seq<char>) -> bool {
    forall|i: int| 0 <= i < s.len() ==> is_hex_digit(#[trigger] s[i])
}

/// The strings that denote an identifier: exactly 24 hexadecimal digits.
pub open spec fn valid_oid_str(s: Seq<char>) -> bool {
    s.len() == 24 && all_hex_digits(s)
}

/// The identifier denoted by a valid identifier string.
pub open spec fn spec_parse_oid(s: Seq<char>) -> PostId {
    PostId {
        hi: hex_value(s.subrange(0, 16)) as u64,
        lo: hex_value(s.subrange(16, 24)) as u32,
    }
}

pub proof fn lemma_hex_value_bound(s: Seq<char>)
    requires
        all_hex_digits(s),
    ensures
        hex_value(s) < pow2(4 * s.len()),
    decreases s.len(),
{
    if s.len() == 0 {
        lemma2_to64();
    } else {
        assert(all_hex_digits(s.drop_last()));
        lemma_hex_value_bound(s.drop_last());
        lemma_pow2_adds(4 * (s.len() - 1) as nat, 4);
        lemma2_to64();
        assert(hex_digit_value(s.last()) < 16);
    }
}

/// The lower-case character for one hexadecimal digit value.
pub open spec fn hex_char(v: nat) -> char {
    if v == 0 { '0' } else if v == 1 { '1' } else if v == 2 { '2' }
    else if v == 3 { '3' } else if v == 4 { '4' } else if v == 5 { '5' }
    else if v == 6 { '6' } else if v == 7 { '7' } else if v == 8 { '8' }
    else if v == 9 { '9' } else if v == 10 { 'a' } else if v == 11 { 'b' }
    else if v == 12 { 'c' } else if v == 13 { 'd' } else if v == 14 { 'e' }
    else { 'f' }
}

/// The `n` lower-case hexadecimal digits of `v`, most significant first.
pub open spec fn hex_digits(v: nat, n: nat) -> Seq<char>
    decreases n,
{
    if n == 0 {
        Seq::empty()
    } else {
        hex_digits(v / 16, (n - 1) as nat).push(hex_char(v % 16))
    }
}

/// The textual form of an identifier: its 24 lower-case hexadecimal digits.
pub open spec fn oid_hex(id: PostId) -> Seq<char> {
    hex_digits(id.hi as nat, 16) + hex_digits(id.lo as nat, 8)
}

pub proof fn lemma_hex_digits_len(v: nat, n: nat)
    ensures
        hex_digits(v, n).len() == n,
    decreases n,
{
    if n > 0 {
        lemma_hex_digits_len(v / 16, (n - 1) as nat);
    }
}

pub proof fn lemma_hex_digits_hex(v: nat, n: nat)
    ensures
        all_hex_digits(hex_digits(v, n)),
    decreases n,
{
    if n > 0 {
        lemma_hex_digits_hex(v / 16, (n - 1) as nat);
        assert(is_hex_digit(hex_char(v % 16)));
    }
}

/// Printing a digit value and reading the character back is the identity.
proof fn lemma_hex_char_value(d: nat)
    requires
        d < 16,
    ensures
        hex_digit_value(hex_char(d)) == d,
{
}

/// Printing a number to `n` hexadecimal digits and reading the digits back
/// is the identity, for numbers that fit in `n` digits.
pub proof fn lemma_hex_digits_value(v: nat, n: nat)
    requires
        v < pow2(4 * n),
    ensures
        hex_value(hex_digits(v, n)) == v,
    decreases n,
{
    if n == 0 {
        lemma2_to64();
    } else {
        lemma_pow2_adds(4 * (n - 1) as nat, 4);
        lemma2_to64();
        assert(pow2(4 * n) == 16 * pow2(4 * (n - 1) as nat));
        lemma_fundamental_div_mod(v as int, 16);
        assert(v / 16 < pow2(4 * (n - 1) as nat)) by {
            if v / 16 >= pow2(4 * (n - 1) as nat) {
                assert(16 * (v / 16) >= 16 * pow2(4 * (n - 1) as nat)) by (nonlinear_arith)
                    requires v / 16 >= pow2(4 * (n - 1) as nat);
            }
        }
        lemma_hex_digits_value(v / 16, (n - 1) as nat);
        lemma_hex_char_value(v % 16);
        assert(hex_digits(v, n).drop_last() =~= hex_digits(v / 16, (n - 1) as nat));
    }
}

/// Round trip: the textual form of an identifier is a valid identifier
/// string, and parsing it yields the identifier back.
pub proof fn lemma_oid_hex_round_trip(id: PostId)
    ensures
        valid_oid_str(oid_hex(id)),
        spec_parse_oid(oid_hex(id)) == id,
{
    let h = hex_digits(id.hi as nat, 16);
    let l = hex_digits(id.lo as nat, 8);
    lemma_hex_digits_len(id.hi as nat, 16);
    lemma_hex_digits_len(id.lo as nat, 8);
    lemma_hex_digits_hex(id.hi as nat, 16);
    lemma_hex_digits_hex(id.lo as nat, 8);
    assert(all_hex_digits(oid_hex(id))) by {
        assert(forall|i: int| 0 <= i < 16 ==> oid_hex(id)[i] == h[i]);
        assert(forall|i: int| 16 <= i < 24 ==> oid_hex(id)[i] == l[i - 16]);
    }
    lemma2_to64();
    lemma2_to64_rest();
    lemma_hex_digits_value(id.hi as nat, 16);
    lemma_hex_digits_value(id.lo as nat, 8);
    assert(oid_hex(id).subrange(0, 16) =~= h);
    assert(oid_hex(id).subrange(16, 24) =~= l);
}

/// Classifies one character, returning its hexadecimal value when it is a
/// hex digit.
fn hex_digit(c: char) -> (r: Option<u8>)
    ensures
        match r {
            Some(v) => is_hex_digit(c) && v < 16 && v as nat == hex_digit_value(c),
            None => !is_hex_digit(c),
        },
{
    let u = c as u32;
    if '0' as u32 <= u && u <= '9' as u32 {
        Some((u - '0' as u32) as u8)
    } else if 'a' as u32 <= u && u <= 'f' as u32 {
        Some((u - 'a' as u32 + 10) as u8)
    } else if 'A' as u32 <= u && u <= 'F' as u32 {
        Some((u - 'A' as u32 + 10) as u8)
    } else {
        None
    }
}

/// Reads the `n` hexadecimal digits of `s` that start at `start` as one
/// number, or reports that some character among them is not a hex digit.
fn parse_hex_span(s: &str, start: usize, n: usize) -> (r: Option<u64>)
    requires
        start + n <= s@.len(),
        start + n <= usize::MAX,
        n <= 16,
    ensures
        match r {
            Some(v) => all_hex_digits(s@.subrange(start as int, start + n))
                && v as nat == hex_value(s@.subrange(start as int, start + n)),
            None => !all_hex_digits(s@.subrange(start as int, start + n)),
        },
{
    let mut acc: u64 = 0;
    let mut i: usize = 0;
    while i < n
        invariant
            i <= n,
            n <= 16,
            start + n <= s@.len(),
            start + n <= usize::MAX,
            all_hex_digits(s@.subrange(start as int, start + i)),
            acc as nat == hex_value(s@.subrange(start as int, start + i)),
        decreases n - i,
    {
        let c = s.get_char(start + i);
        match hex_digit(c) {
            None => {
                proof {
                    assert(s@.subrange(start as int, start + n)[i as int] == c);
                }
                return None;
            },
            Some(d) => {
                proof {
                    lemma_hex_value_bound(s@.subrange(start as int, start + i));
                    if 4 * i < 60 {
                        lemma_pow2_strictly_increases(4 * i as nat, 60);
                    }
                    lemma2_to64();
                    lemma2_to64_rest();
                    assert(acc < pow2(60));
                }
                acc = acc * 16 + (d as u64);
                proof {
                    assert(s@.subrange(start as int, start + i + 1).drop_last()
                        =~= s@.subrange(start as int, start + i));
                    assert(s@.subrange(start as int, start + i + 1).last() == c);
                    assert(forall|k: int| 0 <= k < i + 1 ==> is_hex_digit(
                        #[trigger] s@.subrange(start as int, start + i + 1)[k]));
                }
                i = i + 1;
            },
        }
    }
    Some(acc)
}

/// Parses the textual form of an identifier. Returns the identifier exactly
/// when the string consists of 24 hexadecimal digits, and nothing otherwise.
pub fn parse_object_id(s: &str) -> (r: Option<PostId>)
    ensures
        valid_oid_str(s@) ==> r == Some(spec_parse_oid(s@)),
        !valid_oid_str(s@) ==> r is None,
{
    if s.unicode_len() != 24 {
        return None;
    }
    let hi = match parse_hex_span(s, 0, 16) {
        None => {
            return None;
        },
        Some(v) => v,
    };
    let lo = match parse_hex_span(s, 16, 8) {
        None => {
            return None;
        },
        Some(v) => v,
    };
    proof {
        assert forall|i: int| 0 <= i < 24 implies is_hex_digit(#[trigger] s@[i]) by {
            if i < 16 {
                assert(s@.subrange(0, 16)[i] == s@[i]);
            } else {
                assert(s@.subrange(16, 24)[i - 16] == s@[i]);
            }
        }
        lemma_hex_value_bound(s@.subrange(0, 16));
        lemma_hex_value_bound(s@.subrange(16, 24));
        lemma2_to64();
        lemma2_to64_rest();
    }
    Some(PostId { hi, lo: lo as u32 })
}

/// The one-character string for one hexadecimal digit value.
fn hex_char_str(d: u8) -> (r: &'static str)
    requires
        d < 16,
    ensures
        r@ == seq![hex_char(d as nat)],
{
    match d {
        0 => { proof { reveal_strlit("0"); assert("0"@ =~= seq![hex_char(0)]); } "0" },
        1 => { proof { reveal_strlit("1"); assert("1"@ =~= seq![hex_char(1)]); } "1" },
        2 => { proof { reveal_strlit("2"); assert("2"@ =~= seq![hex_char(2)]); } "2" },
        3 => { proof { reveal_strlit("3"); assert("3"@ =~= seq![hex_char(3)]); } "3" },
        4 => { proof { reveal_strlit("4"); assert("4"@ =~= seq![hex_char(4)]); } "4" },
        5 => { proof { reveal_strlit("5"); assert("5"@ =~= seq![hex_char(5)]); } "5" },
        6 => { proof { reveal_strlit("6"); assert("6"@ =~= seq![hex_char(6)]); } "6" },
        7 => { proof { reveal_strlit("7"); assert("7"@ =~= seq![hex_char(7)]); } "7" },
        8 => { proof { reveal_strlit("8"); assert("8"@ =~= seq![hex_char(8)]); } "8" },
        9 => { proof { reveal_strlit("9"); assert("9"@ =~= seq![hex_char(9)]); } "9" },
        10 => { proof { reveal_strlit("a"); assert("a"@ =~= seq![hex_char(10)]); } "a" },
        11 => { proof { reveal_strlit("b"); assert("b"@ =~= seq![hex_char(11)]); } "b" },
        12 => { proof { reveal_strlit("c"); assert("c"@ =~= seq![hex_char(12)]); } "c" },
        13 => { proof { reveal_strlit("d"); assert("d"@ =~= seq![hex_char(13)]); } "d" },
        14 => { proof { reveal_strlit("e"); assert("e"@ =~= seq![hex_char(14)]); } "e" },
        _ => { proof { reveal_strlit("f"); assert("f"@ =~= seq![hex_char(15)]); } "f" },
    }
}

/// Appends the `n` lower-case hexadecimal digits of `v` to `out`, most
/// significant first.
fn push_hex(out: &mut String, v: u64, n: usize)
    requires
        n <= 16,
    ensures
        final(out)@ == old(out)@ + hex_digits(v as nat, n as nat),
    decreases n,
{
    if n == 0 {
        proof {
            assert(old(out)@ + hex_digits(v as nat, 0) =~= old(out)@);
        }
    } else {
        push_hex(out, v / 16, n - 1);
        let t = hex_char_str((v % 16) as u8);
        out.append(t);
        proof {
            assert(old(out)@ + hex_digits((v / 16) as nat, (n - 1) as nat) + t@
                =~= old(out)@ + hex_digits(v as nat, n as nat));
        }
    }
}

/// Prints an identifier in its textual form: 24 lower-case hexadecimal
/// digits, which [`parse_object_id`] accepts and maps back to the same
/// identifier.
pub fn id_to_hex(id: &PostId) -> (r: String)
    ensures
        r@ == oid_hex(*id),
        valid_oid_str(r@),
        spec_parse_oid(r@) == *id,
{
    proof {
        lemma_oid_hex_round_trip(*id);
    }
    let mut out = String::new();
    push_hex(&mut out, id.hi, 16);
    push_hex(&mut out, id.lo as u64, 8);
    proof {
        assert(out@ =~= oid_hex(*id));
    }
    out
}

} // verus!
