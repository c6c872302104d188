//! Object ids. Every stored object is named by a 128-bit ULID whose top 48
//! bits are the creation time in milliseconds since the Unix epoch.
use vstd::prelude::*;

verus! {

/// A ULID, as its 128-bit integer.
pub type Id = u128;

/// The creation time, in milliseconds since the epoch, that an id carries.
pub open spec fn id_time_ms(id: Id) -> int {
    (id >> 80u128) as int
}

/// The creation time, in milliseconds since the epoch, that an id carries.
pub fn id_timestamp_ms(id: Id) -> (t: u64)
    ensures
        t == id_time_ms(id),
        t < 0x1_0000_0000_0000,
{
    let shifted: u128 = id >> 80u128;
    assert(shifted < 0x1_0000_0000_0000) by (bit_vector)
        requires
            shifted == id >> 80u128,
    ;
    shifted as u64
}

/// The smallest id created at the given millisecond.
pub fn id_with_timestamp_ms(ms: u64) -> (id: Id)
    requires
        ms < 0x1_0000_0000_0000,
    ensures
        id_time_ms(id) == ms,
        id % 0x1_0000_0000_0000_0000_0000 == 0,
{
    let x: u128 = ms as u128;
    let id: u128 = x << 80u128;
    assert((id >> 80u128) == x && id % 0x1_0000_0000_0000_0000_0000 == 0) by (bit_vector)
        requires
            x < 0x1_0000_0000_0000,
            id == x << 80u128,
    ;
    id
}

/// The value of a character in Crockford's base 32, the alphabet of the
/// textual form of an id: digits, then the letters without I, L, O and U,
/// in either case.
pub open spec fn crockford_digit(c: char) -> Option<u128> {
    if '0' <= c <= '9' {
        Some((c as u32 - '0' as u32) as u128)
    } else {
        let u = if 'a' <= c <= 'z' { (c as u32 - 32) as u32 } else { c as u32 };
        if 'A' as u32 <= u <= 'H' as u32 {
            Some((u - 'A' as u32 + 10) as u128)
        } else if u == 'J' as u32 || u == 'K' as u32 {
            Some((u - 'J' as u32 + 18) as u128)
        } else if u == 'M' as u32 || u == 'N' as u32 {
            Some((u - 'M' as u32 + 20) as u128)
        } else if 'P' as u32 <= u <= 'T' as u32 {
            Some((u - 'P' as u32 + 22) as u128)
        } else if 'V' as u32 <= u <= 'Z' as u32 {
            Some((u - 'V' as u32 + 27) as u128)
        } else {
            None
        }
    }
}

/// Whether every character of `s` is a base-32 digit.
pub open spec fn all_digits(s: Seq<char>) -> bool {
    forall|i: int| 0 <= i < s.len() ==> (#[trigger] crockford_digit(s[i])) is Some
}

/// The number the base-32 digits of `s` spell, most significant first.
pub open spec fn base32_value(s: Seq<char>) -> int
    decreases s.len(),
{
    if s.len() == 0 {
        0
    } else {
        base32_value(s.drop_last()) * 32 + crockford_digit(s.last())->0
    }
}

/// Whether `s` is the textual form of an id: 26 base-32 digits, the first
/// at most 7 so that the value fits in 128 bits.
pub open spec fn is_id_text(s: Seq<char>) -> bool {
    s.len() == 26 && all_digits(s) && crockford_digit(s[0])->0 <= 7
}

pub open spec fn pow32(n: nat) -> int
    decreases n,
{
    if n == 0 { 1 } else { 32 * pow32((n - 1) as nat) }
}

proof fn lemma_pow32_positive(n: nat)
    ensures
        pow32(n) >= 1,
    decreases n,
{
    if n > 0 {
        lemma_pow32_positive((n - 1) as nat);
    }
}

/// A text of base-32 digits that starts with a digit of at most 7 spells
/// less than 8 times 32 to the power of one less than its length.
proof fn lemma_base32_bound(s: Seq<char>)
    requires
        s.len() >= 1,
        all_digits(s),
        crockford_digit(s[0])->0 <= 7,
    ensures
        0 <= base32_value(s) < 8 * pow32((s.len() - 1) as nat),
    decreases s.len(),
{
    let d = crockford_digit(s.last())->0;
    assert(crockford_digit(s[s.len() - 1]) is Some);
    if s.len() == 1 {
        assert(s.drop_last().len() == 0);
        assert(base32_value(s.drop_last()) == 0);
        assert(s.last() == s[0]);
        assert(pow32(0) == 1);
        assert(base32_value(s) == d);
    } else {
        let t = s.drop_last();
        assert forall|i: int| 0 <= i < t.len() implies (#[trigger] crockford_digit(t[i])) is Some by {
            assert(t[i] == s[i]);
        }
        assert(t[0] == s[0]);
        lemma_base32_bound(t);
        let v = base32_value(t);
        let p = pow32((t.len() - 1) as nat);
        assert(pow32((s.len() - 1) as nat) == 32 * p);
        assert(d < 32);
        assert(v * 32 + d < 8 * (32 * p)) by (nonlinear_arith)
            requires
                0 <= v < 8 * p,
                0 <= d < 32,
        ;
        assert(base32_value(s) == v * 32 + d);
        assert(v * 32 + d >= 0) by (nonlinear_arith)
            requires
                0 <= v,
                0 <= d,
        ;
    }
}

fn digit_value(c: char) -> (r: Option<u128>)
    ensures
        r == crockford_digit(c),
{
    if '0' <= c && c <= '9' {
        return Some((c as u32 - '0' as u32) as u128);
    }
    let u: u32 = if 'a' <= c && c <= 'z' { c as u32 - 32 } else { c as u32 };
    if 'A' as u32 <= u && u <= 'H' as u32 {
        Some((u - 'A' as u32 + 10) as u128)
    } else if u == 'J' as u32 || u == 'K' as u32 {
        Some((u - 'J' as u32 + 18) as u128)
    } else if u == 'M' as u32 || u == 'N' as u32 {
        Some((u - 'M' as u32 + 20) as u128)
    } else if 'P' as u32 <= u && u <= 'T' as u32 {
        Some((u - 'P' as u32 + 22) as u128)
    } else if 'V' as u32 <= u && u <= 'Z' as u32 {
        Some((u - 'V' as u32 + 27) as u128)
    } else {
        None
    }
}

/// The id a text names: 26 base-32 digits, in either case.
pub fn parse_id(s: &str) -> (r: Option<Id>)
    ensures
        is_id_text(s@) ==> r == Some(base32_value(s@) as u128),
        !is_id_text(s@) ==> r is None,
{
    let cs = crate::text::chars_of(s);
    if cs.len() != 26 {
        return None;
    }
    let first = match digit_value(cs[0]) {
        Some(d) => d,
        None => {
            return None;
        },
    };
    if first > 7 {
        return None;
    }
    let mut value: u128 = 0;
    let mut i: usize = 0;
    while i < 26
        invariant
            cs@ == s@,
            cs@.len() == 26,
            crockford_digit(cs@[0]) == Some(first),
            first <= 7,
            i <= 26,
            forall|j: int| 0 <= j < i ==> (#[trigger] crockford_digit(cs@[j])) is Some,
            value == base32_value(cs@.subrange(0, i as int)),
        decreases 26 - i,
    {
        let d = match digit_value(cs[i]) {
            Some(d) => d,
            None => {
                assert(!all_digits(s@));
                return None;
            },
        };
        let ghost pre = cs@.subrange(0, i + 1);
        assert(pre.drop_last() =~= cs@.subrange(0, i as int));
        proof {
            assert forall|j: int| 0 <= j < pre.len() implies (#[trigger] crockford_digit(pre[j])) is Some by {
                assert(pre[j] == cs@[j]);
            }
            assert(pre[0] == cs@[0]);
            lemma_base32_bound(pre);
            reveal_with_fuel(pow32, 27);
            assert(8 * pow32(25) == 0x1_0000_0000_0000_0000_0000_0000_0000_0000);
            lemma_pow32_mono(i as nat, 25);
        }
        value = value * 32 + d;
        i = i + 1;
    }
    assert(cs@.subrange(0, 26) =~= cs@);
    Some(value)
}

proof fn lemma_pow32_mono(a: nat, b: nat)
    requires
        a <= b,
    ensures
        pow32(a) <= pow32(b),
    decreases b,
{
    if a < b {
        lemma_pow32_mono(a, (b - 1) as nat);
        lemma_pow32_positive((b - 1) as nat);
    }
}

/// The upper-case base-32 digit of a value below 32.
pub open spec fn digit_of(d: u128) -> char {
    if d < 10 {
        (48 + d) as char
    } else if d < 18 {
        (65 + (d - 10)) as char
    } else if d < 20 {
        (74 + (d - 18)) as char
    } else if d < 22 {
        (77 + (d - 20)) as char
    } else if d < 27 {
        (80 + (d - 22)) as char
    } else {
        (86 + (d - 27)) as char
    }
}

fn digit_char(d: u128) -> (c: char)
    requires
        d < 32,
    ensures
        c == digit_of(d),
        crockford_digit(c) == Some(d),
{
    if d < 10 {
        (48u8 + d as u8) as char
    } else if d < 18 {
        (65u8 + (d - 10) as u8) as char
    } else if d < 20 {
        (74u8 + (d - 18) as u8) as char
    } else if d < 22 {
        (77u8 + (d - 20) as u8) as char
    } else if d < 27 {
        (80u8 + (d - 22) as u8) as char
    } else {
        (86u8 + (d - 27) as u8) as char
    }
}

/// The digit at position `i` (from the left) of the textual form of an id.
pub open spec fn id_digit(id: Id, i: int) -> u128 {
    (id >> ((5 * (25 - i)) as u128)) & 31
}

/// The textual form of an id: 26 upper-case base-32 digits.
pub open spec fn id_text(id: Id) -> Seq<char> {
    Seq::new(26, |i: int| digit_of(id_digit(id, i)))
}

proof fn lemma_shift_step(x: u128, s: u128)
    requires
        s <= 125,
    ensures
        (x >> (s + 5)) * 32 + ((x >> s) & 31) == x >> s,
{
    assert((x >> (s + 5)) * 32 + ((x >> s) & 31) == x >> s) by (bit_vector)
        requires
            s <= 125,
    ;
}

/// The textual form of an id.
pub fn format_id(id: Id) -> (r: String)
    ensures
        r@ == id_text(id),
        is_id_text(r@),
        base32_value(r@) == id,
{
    let mut out: Vec<char> = Vec::new();
    let mut i: usize = 0;
    assert((id >> 130u128) == 0) by (bit_vector);
    while i < 26
        invariant
            i <= 26,
            out@.len() == i,
            forall|j: int| 0 <= j < i ==> out@[j] == digit_of(#[trigger] id_digit(id, j)),
            forall|j: int| 0 <= j < i ==> crockford_digit(#[trigger] out@[j]) == Some(id_digit(id, j)),
            base32_value(out@) == (id >> ((5 * (26 - i)) as u128)),
        decreases 26 - i,
    {
        let shift: u128 = (5 * (25 - i)) as u128;
        let d: u128 = (id >> shift) & 31;
        assert(d < 32) by (bit_vector)
            requires
                d == (id >> shift) & 31,
        ;
        let c = digit_char(d);
        let ghost before = out@;
        out.push(c);
        proof {
            assert(out@.drop_last() =~= before);
            lemma_shift_step(id, shift);
            assert(shift + 5 == (5 * (26 - i)) as u128);
        }
        i = i + 1;
    }
    proof {
        assert(out@ =~= id_text(id));
        assert((id >> 0u128) == id) by (bit_vector);
        assert(id_digit(id, 0) <= 7) by {
            assert(((id >> 125u128) & 31) <= 7) by (bit_vector);
        }
        assert(out@[0] == digit_of(id_digit(id, 0)));
    }
    crate::text::string_of(&out)
}

/// Reading back the textual form of an id gives the id.
pub proof fn id_text_round_trip(id: Id)
    ensures
        is_id_text(id_text(id)),
        base32_value(id_text(id)) == id,
{
    let t = id_text(id);
    assert forall|i: int| 0 <= i < 26 implies (#[trigger] crockford_digit(t[i])) is Some by {
        let sh: u128 = (5 * (25 - i)) as u128;
        let d = id_digit(id, i);
        assert(d == (id >> sh) & 31);
        assert(d & 31 == d) by (bit_vector)
            requires
                d == (id >> sh) & 31,
        ;
        lemma_digit_of_reads_back(d);
    }
    let d0 = id_digit(id, 0);
    assert(d0 == (id >> 125u128) & 31);
    assert(d0 & 31 == d0) by (bit_vector)
        requires
            d0 == (id >> 125u128) & 31,
    ;
    lemma_digit_of_reads_back(d0);
    assert(id_digit(id, 0) <= 7) by {
        assert(((id >> 125u128) & 31) <= 7) by (bit_vector);
    }
    lemma_id_text_value(id, 26);
    assert(t.subrange(0, 26) =~= t);
    assert((id >> 0u128) == id) by (bit_vector);
}

proof fn lemma_digit_of_reads_back(d: u128)
    ensures
        d & 31 == d ==> crockford_digit(digit_of(d)) == Some(d),
{
    if d & 31 == d {
        assert(d < 32) by (bit_vector)
            requires
                d & 31 == d,
        ;
    }
}

proof fn lemma_id_text_value(id: Id, k: int)
    requires
        0 <= k <= 26,
    ensures
        base32_value(id_text(id).subrange(0, k)) == (id >> ((5 * (26 - k)) as u128)),
    decreases k,
{
    let t = id_text(id);
    if k == 0 {
        assert((id >> 130u128) == 0) by (bit_vector);
    } else {
        lemma_id_text_value(id, k - 1);
        let pre = t.subrange(0, k);
        assert(pre.drop_last() =~= t.subrange(0, k - 1));
        let s: u128 = (5 * (26 - k)) as u128;
        let d = id_digit(id, k - 1);
        assert(d == (id >> s) & 31);
        assert(d & 31 == d) by (bit_vector)
            requires
                d == (id >> s) & 31,
        ;
        lemma_digit_of_reads_back(d);
        lemma_shift_step(id, s);
        assert(s + 5 == (5 * (26 - (k - 1))) as u128);
    }
}

} // verus!
