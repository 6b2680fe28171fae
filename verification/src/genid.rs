//! The token id generator: draws 128 bits of entropy and renders them as a
//! 32-character lower-case hexadecimal string. Tokens are capability-bearing,
//! so their uniqueness rests on generator entropy, not on a store constraint.

use vstd::prelude::*;

verus! {

/// A lower-case hexadecimal digit character.
pub open spec fn is_hex_char(c: char) -> bool {
    (48 <= c as u32 && c as u32 <= 57) || (97 <= c as u32 && c as u32 <= 102)
}

/// The format invariant of every generated token: exactly 32 lower-case
/// hexadecimal digit characters.
pub open spec fn token_format(s: Seq<char>) -> bool {
    &&& s.len() == 32
    &&& forall|i: int| 0 <= i < s.len() ==> is_hex_char(#[trigger] s[i])
}

/// The character for one hexadecimal digit.
pub open spec fn nibble_char(d: u64) -> char
    recommends
        d < 16,
{
    if d == 0 {
        '0'
    } else if d == 1 {
        '1'
    } else if d == 2 {
        '2'
    } else if d == 3 {
        '3'
    } else if d == 4 {
        '4'
    } else if d == 5 {
        '5'
    } else if d == 6 {
        '6'
    } else if d == 7 {
        '7'
    } else if d == 8 {
        '8'
    } else if d == 9 {
        '9'
    } else if d == 10 {
        'a'
    } else if d == 11 {
        'b'
    } else if d == 12 {
        'c'
    } else if d == 13 {
        'd'
    } else if d == 14 {
        'e'
    } else {
        'f'
    }
}

/// The hexadecimal digit at position `i` (most significant first) of `v`.
pub open spec fn nibble_of(v: u64, i: int) -> u64 {
    (v >> (((15 - i) * 4) as u64)) & 0xf
}

/// The 16-character lower-case hexadecimal rendering of `v`, most significant
/// digit first.
pub open spec fn u64_hex(v: u64) -> Seq<char> {
    Seq::new(16, |i: int| nibble_char(nibble_of(v, i)))
}

proof fn lemma_nibble_char_hex(d: u64)
    ensures
        is_hex_char(nibble_char(d)),
{
}

/// Every rendering of a 64-bit value is 16 hexadecimal digit characters.
pub proof fn lemma_u64_hex_format(v: u64)
    ensures
        u64_hex(v).len() == 16,
        forall|i: int| 0 <= i < 16 ==> is_hex_char(#[trigger] u64_hex(v)[i]),
{
    assert forall|i: int| 0 <= i < 16 implies is_hex_char(#[trigger] u64_hex(v)[i]) by {
        lemma_nibble_char_hex(nibble_of(v, i));
    }
}

fn nibble_str(d: u64) -> (r: &'static str)
    requires
        d < 16,
    ensures
        r@ =~= seq![nibble_char(d)],
{
    proof {
        reveal_strlit("0");
        reveal_strlit("1");
        reveal_strlit("2");
        reveal_strlit("3");
        reveal_strlit("4");
        reveal_strlit("5");
        reveal_strlit("6");
        reveal_strlit("7");
        reveal_strlit("8");
        reveal_strlit("9");
        reveal_strlit("a");
        reveal_strlit("b");
        reveal_strlit("c");
        reveal_strlit("d");
        reveal_strlit("e");
        reveal_strlit("f");
    }
    if d == 0 {
        "0"
    } else if d == 1 {
        "1"
    } else if d == 2 {
        "2"
    } else if d == 3 {
        "3"
    } else if d == 4 {
        "4"
    } else if d == 5 {
        "5"
    } else if d == 6 {
        "6"
    } else if d == 7 {
        "7"
    } else if d == 8 {
        "8"
    } else if d == 9 {
        "9"
    } else if d == 10 {
        "a"
    } else if d == 11 {
        "b"
    } else if d == 12 {
        "c"
    } else if d == 13 {
        "d"
    } else if d == 14 {
        "e"
    } else {
        "f"
    }
}

/// Renders `v` as its 16-digit lower-case hexadecimal string.
pub fn u64_hex_string(v: u64) -> (r: String)
    ensures
        r@ == u64_hex(v),
{
    let mut s = String::new();
    let mut i: usize = 0;
    while i < 16
        invariant
            i <= 16,
            s@ =~= u64_hex(v).subrange(0, i as int),
        decreases 16 - i,
    {
        let shift: u64 = ((15 - i) as u64) * 4;
        let d: u64 = (v >> shift) & 0xf;
        assert(((v >> shift) & 0xf) < 16) by (bit_vector);
        proof {
            assert(shift == ((15 - i as int) * 4) as u64);
            assert(d == nibble_of(v, i as int));
        }
        let piece = nibble_str(d);
        s.append(piece);
        proof {
            assert(u64_hex(v)[i as int] == nibble_char(d));
            assert(s@ =~= u64_hex(v).subrange(0, i as int + 1));
        }
        i = i + 1;
    }
    proof {
        assert(s@ =~= u64_hex(v));
    }
    s
}

/// Relies on `rand::random`: draws a fresh 64-bit value from the thread-local
/// generator seeded from the operating system. Nothing is promised of the
/// value; callers state what holds of every outcome.
#[verifier::external_body]
fn random_u64() -> u64 {
    rand::random::<u64>()
}

/// Generates a new opaque token: 128 bits of entropy rendered as 32 lower-case
/// hexadecimal digits. The result is never empty.
pub fn generate_token() -> (r: String)
    ensures
        token_format(r@),
        r@.len() > 0,
{
    let hi = random_u64();
    let lo = random_u64();
    let mut s = u64_hex_string(hi);
    let t = u64_hex_string(lo);
    s.append(t.as_str());
    proof {
        lemma_u64_hex_format(hi);
        lemma_u64_hex_format(lo);
        assert forall|i: int| 0 <= i < s@.len() implies is_hex_char(#[trigger] s@[i]) by {
            if i < 16 {
                assert(s@[i] == u64_hex(hi)[i]);
            } else {
                assert(s@[i] == u64_hex(lo)[i - 16]);
            }
        }
    }
    s
}

} // verus!
