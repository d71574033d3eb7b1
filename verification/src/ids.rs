//! Server identifiers: the textual form of a UUID and how text is read back as one.
use vstd::prelude::*;

use crate::bindings::{uuid_hyphenated, uuid_new_v4, uuid_parse};
use crate::text::{count_leading, spec_trim_start, trim_start_char};
use vstd::arithmetic::div_mod::{lemma_mod_breakdown, lemma_small_mod};

verus! {

/// The lowercase hexadecimal digit for `d` (taken modulo 16).
pub open spec fn hex_digit(d: nat) -> char {
    let d = d % 16;
    if d == 0 {
        '0'
    } else if d == 1 {
        '1'
    } else if d == 2 {
        '2'
    } else if d == 3 {
        '3'
    } else if d == 4 {
        '4'
    } else if d == 5 {
        '5'
    } else if d == 6 {
        '6'
    } else if d == 7 {
        '7'
    } else if d == 8 {
        '8'
    } else if d == 9 {
        '9'
    } else if d == 10 {
        'a'
    } else if d == 11 {
        'b'
    } else if d == 12 {
        'c'
    } else if d == 13 {
        'd'
    } else if d == 14 {
        'e'
    } else {
        'f'
    }
}

/// The `n` lowest hexadecimal digits of `v`, most significant first, zero padded.
pub open spec fn hex_digits(v: nat, n: nat) -> Seq<char>
    decreases n,
{
    if n == 0 {
        seq![]
    } else {
        hex_digits(v / 16, (n - 1) as nat).push(hex_digit(v % 16))
    }
}

/// The hyphenated lowercase text of a UUID, e.g. `a1a2a3a4-b1b2-c1c2-d1d2-d3d4d5d6d7d8`.
pub open spec fn spec_uuid_text(u: u128) -> Seq<char> {
    let h = hex_digits(u as nat, 32);
    h.subrange(0, 8) + seq!['-'] + h.subrange(8, 12) + seq!['-'] + h.subrange(12, 16) + seq!['-']
        + h.subrange(16, 20) + seq!['-'] + h.subrange(20, 32)
}

/// Whether `c` is one of `0-9` or `a-f`.
pub open spec fn is_lower_hex(c: char) -> bool {
    ('0' <= c && c <= '9') || ('a' <= c && c <= 'f')
}

/// The value of a lowercase hexadecimal digit.
pub open spec fn hex_value(c: char) -> nat {
    if '0' <= c && c <= '9' {
        (c as nat - '0' as nat) as nat
    } else {
        (c as nat - 'a' as nat + 10) as nat
    }
}

/// The value of a sequence of hexadecimal digits, most significant first.
pub open spec fn hex_seq_value(s: Seq<char>) -> nat
    decreases s.len(),
{
    if s.len() == 0 {
        0
    } else {
        hex_seq_value(s.drop_last()) * 16 + hex_value(s.last())
    }
}

/// Whether `s` has the shape `xxxxxxxx-xxxx-xxxx-xxxx-xxxxxxxxxxxx` with lowercase hex digits.
pub open spec fn is_hyphenated_uuid_text(s: Seq<char>) -> bool {
    &&& s.len() == 36
    &&& forall|i: int|
        0 <= i < 36 ==> if i == 8 || i == 13 || i == 18 || i == 23 {
            s[i] == '-'
        } else {
            is_lower_hex(#[trigger] s[i])
        }
}

/// The number written by a hyphenated UUID text: its 32 digits read as one hexadecimal number.
pub open spec fn hyphenated_uuid_value(s: Seq<char>) -> nat {
    hex_seq_value(
        s.subrange(0, 8) + s.subrange(9, 13) + s.subrange(14, 18) + s.subrange(19, 23)
            + s.subrange(24, 36),
    )
}

/// `16` to the power `n`.
pub open spec fn pow16(n: nat) -> nat
    decreases n,
{
    if n == 0 {
        1
    } else {
        16 * pow16((n - 1) as nat)
    }
}

proof fn lemma_hex_digit_round_trip(d: nat)
    requires
        d < 16,
    ensures
        is_lower_hex(hex_digit(d)),
        hex_value(hex_digit(d)) == d,
{
    assert(d % 16 == d);
}

proof fn lemma_pow16_positive(n: nat)
    ensures
        pow16(n) > 0,
    decreases n,
{
    if n > 0 {
        lemma_pow16_positive((n - 1) as nat);
    }
}

/// The digits of `v` are lowercase hexadecimal and read back as `v` modulo `16^n`.
proof fn lemma_hex_digits(v: nat, n: nat)
    ensures
        hex_digits(v, n).len() == n,
        forall|i: int| 0 <= i < n ==> is_lower_hex(#[trigger] hex_digits(v, n)[i]),
        hex_seq_value(hex_digits(v, n)) == v % pow16(n),
    decreases n,
{
    if n == 0 {
        assert(v % 1 == 0);
    } else {
        let m = (n - 1) as nat;
        lemma_hex_digits(v / 16, m);
        lemma_hex_digit_round_trip(v % 16);
        let h = hex_digits(v, n);
        assert(h.drop_last() =~= hex_digits(v / 16, m));
        assert forall|i: int| 0 <= i < n implies is_lower_hex(#[trigger] h[i]) by {
            if i < m {
                assert(h[i] == hex_digits(v / 16, m)[i]);
            }
        }
        lemma_pow16_positive(m);
        lemma_mod_breakdown(v as int, 16, pow16(m) as int);
        assert(hex_seq_value(h) == hex_seq_value(hex_digits(v / 16, m)) * 16 + v % 16);
        assert(hex_seq_value(h) == ((v / 16) % pow16(m)) * 16 + v % 16);
        assert(v % pow16(n) == 16 * ((v / 16) % pow16(m)) + v % 16);
    }
}

/// The text of an identifier is a hyphenated UUID text that reads back as the identifier.
pub proof fn lemma_uuid_text_round_trip(u: u128)
    ensures
        is_hyphenated_uuid_text(spec_uuid_text(u)),
        hyphenated_uuid_value(spec_uuid_text(u)) == u,
{
    let h = hex_digits(u as nat, 32);
    lemma_hex_digits(u as nat, 32);
    let s = spec_uuid_text(u);
    assert(s.len() == 36);
    assert forall|i: int| 0 <= i < 36 implies if i == 8 || i == 13 || i == 18 || i == 23 {
        s[i] == '-'
    } else {
        is_lower_hex(#[trigger] s[i])
    } by {
        if i < 8 {
            assert(s[i] == h[i]);
        } else if 8 < i < 13 {
            assert(s[i] == h[i - 1]);
        } else if 13 < i < 18 {
            assert(s[i] == h[i - 2]);
        } else if 18 < i < 23 {
            assert(s[i] == h[i - 3]);
        } else if 23 < i {
            assert(s[i] == h[i - 4]);
        }
    }
    assert(s.subrange(0, 8) + s.subrange(9, 13) + s.subrange(14, 18) + s.subrange(19, 23)
        + s.subrange(24, 36) =~= h);
    reveal_with_fuel(pow16, 33);
    assert(pow16(32) == 0x1_0000_0000_0000_0000_0000_0000_0000_0000);
    lemma_small_mod(u as nat, pow16(32));
}

/// The name a server's container is reported under, `/` and the server's UUID text,
/// is a hyphenated UUID text once the `/` is removed, and it reads back as the server.
pub proof fn lemma_container_name_reads_back(id: u128)
    ensures
        is_hyphenated_uuid_text(spec_trim_start(seq!['/'] + spec_uuid_text(id), '/')),
        hyphenated_uuid_value(spec_trim_start(seq!['/'] + spec_uuid_text(id), '/')) == id,
{
    lemma_uuid_text_round_trip(id);
    let t = spec_uuid_text(id);
    let n = seq!['/'] + t;
    assert(n.drop_first() =~= t);
    assert(t[0] != '/');
    assert(count_leading(t, '/') == 0);
    assert(count_leading(n, '/') == 1);
    assert(spec_trim_start(n, '/') =~= t);
}

/// The hyphenated text of a server identifier.
pub fn uuid_text(u: u128) -> (r: String)
    ensures
        r@ == spec_uuid_text(u),
{
    uuid_hyphenated(u)
}

/// Whether `u` is a version 4 UUID: its version nibble (bits 76 to 79) is 4 and its
/// variant bits (62 and 63) are `10`.
pub open spec fn is_v4_uuid(u: u128) -> bool {
    &&& (u as int / 0x10000000000000000000) % 16 == 4
    &&& (u as int / 0x4000000000000000) % 4 == 2
}

/// Reads the identifier of a server from a stored identifier field.
///
/// An empty field stands for a fresh random version 4 identifier; anything else must parse
/// as a UUID, and `None` reports that it does not.
pub fn uuid_from_field(s: &str) -> (r: Option<u128>)
    ensures
        s@.len() > 0 ==> r == crate::bindings::spec_uuid_parse(s@),
        s@.len() == 0 ==> (r matches Some(u) && is_v4_uuid(u)),
{
    if s.unicode_len() == 0 {
        Some(uuid_new_v4())
    } else {
        uuid_parse(s)
    }
}

/// The server identifier of a container, whose name is the server's UUID after a leading `/`.
pub fn container_server_id(name: &str) -> (r: Option<u128>)
    ensures
        r == crate::bindings::spec_uuid_parse(spec_trim_start(name@, '/')),
        is_hyphenated_uuid_text(spec_trim_start(name@, '/')) ==> r == Some(
            hyphenated_uuid_value(spec_trim_start(name@, '/')) as u128,
        ),
{
    let trimmed = trim_start_char(name, '/');
    uuid_parse(trimmed.as_str())
}

} // verus!
