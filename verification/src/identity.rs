//! Name-based identities (UUID version 5, through the `uuid` crate) and the hyphenated text
//! form of an id.
use vstd::prelude::*;

verus! {

/// The UUID namespace for ISO object identifiers.
pub const NAMESPACE_OID: u128 = 0x6ba7_b812_9dad_11d1_80b4_00c0_4fd4_30c8;

/// The UUID version 5 of `name` in `namespace`.
pub uninterp spec fn spec_uuid_v5(namespace: u128, name: Seq<u8>) -> u128;

/// Calls `uuid::Uuid::new_v5` with the namespace given as a `u128` and returns the id as a
/// `u128`. Trusted: the result is `spec_uuid_v5` of the namespace and the name bytes.
#[verifier::external_body]
pub(crate) fn uuid_v5(namespace: u128, name: &[u8]) -> (r: u128)
    ensures
        r == spec_uuid_v5(namespace, name@),
{
    uuid::Uuid::new_v5(&uuid::Uuid::from_u128(namespace), name).as_u128()
}

/// The `k`-th hexadecimal digit of `x`, most significant first.
pub open spec fn nibble(x: u128, k: int) -> int {
    ((x >> (((31 - k) * 4) as u32)) & 0xfu128) as int
}

/// The hyphenated lower-case text of an id: 32 hex digits in groups of 8, 4, 4, 4 and 12.
pub open spec fn hyphenated(x: u128) -> Seq<char> {
    Seq::new(
        36,
        |i: int|
            if i == 8 || i == 13 || i == 18 || i == 23 {
                '-'
            } else {
                let k = if i < 8 {
                    i
                } else if i < 13 {
                    i - 1
                } else if i < 18 {
                    i - 2
                } else if i < 23 {
                    i - 3
                } else {
                    i - 4
                };
                crate::hashing::hex_digit(nibble(x, k))
            },
    )
}

/// Renders an id in its hyphenated text form, as `Uuid`'s `Display` does.
pub fn hyphenated_text(x: u128) -> (r: String)
    ensures
        r@ == hyphenated(x),
{
    let mut out = String::new();
    let mut i: u32 = 0;
    let mut k: u32 = 0;
    while i < 36
        invariant
            i <= 36,
            k == (if i <= 8 {
                i as int
            } else if i <= 13 {
                i - 1
            } else if i <= 18 {
                i - 2
            } else if i <= 23 {
                i - 3
            } else {
                i - 4
            }),
            out@ == hyphenated(x).take(i as int),
        decreases 36 - i,
    {
        if i == 8 || i == 13 || i == 18 || i == 23 {
            crate::hashing::push_char(&mut out, '-');
        } else {
            let sh: u32 = (31 - k) * 4;
            let w: u128 = (x >> sh) & 0xfu128;
            assert(w < 16) by (bit_vector)
                requires
                    w == (x >> sh) & 0xfu128,
            ;
            let v = w as u8;
            let c = if v < 10 {
                (48u8 + v) as char
            } else {
                (97u8 + (v - 10)) as char
            };
            assert(c == crate::hashing::hex_digit(nibble(x, k as int)));
            crate::hashing::push_char(&mut out, c);
            k = k + 1;
        }
        assert(hyphenated(x).take(i + 1) =~= hyphenated(x).take(i as int).push(hyphenated(x)[i as int]));
        i = i + 1;
    }
    assert(hyphenated(x).take(36) =~= hyphenated(x));
    out
}

/// Calls `uuid::Uuid::new_v4` and returns the id as a `u128`. Trusted only to return: the id
/// is random, so nothing is stated of it.
#[verifier::external_body]
pub(crate) fn random_id() -> (r: u128) {
    uuid::Uuid::new_v4().as_u128()
}

} // verus!
