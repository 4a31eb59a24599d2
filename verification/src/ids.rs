//! Identifiers of users, conversations, messages and connections: 128-bit numbers that are
//! written as UUIDs at the edges.

use uuid::Uuid;
use vstd::arithmetic::power::pow;
use vstd::prelude::*;

verus! {

/// A UUID by its big-endian numeric value.
pub type Id = u128;

/// The lower-case hexadecimal digit for `n`.
pub open spec fn hex_digit(n: int) -> char {
    if n < 10 {
        (48 + n) as char
    } else {
        (87 + n) as char
    }
}

/// The `k`-th of the 32 hexadecimal digits of `id`, the most significant first.
pub open spec fn nibble(id: Id, k: int) -> int {
    (id as int / pow(16, (31 - k) as nat)) % 16
}

/// The hyphenated form: digits in groups of 8, 4, 4, 4 and 12.
pub open spec fn id_text(id: Id) -> Seq<char> {
    Seq::new(
        36,
        |i: int|
            if i < 8 {
                hex_digit(nibble(id, i))
            } else if i == 8 || i == 13 || i == 18 || i == 23 {
                '-'
            } else if i < 13 {
                hex_digit(nibble(id, i - 1))
            } else if i < 18 {
                hex_digit(nibble(id, i - 2))
            } else if i < 23 {
                hex_digit(nibble(id, i - 3))
            } else {
                hex_digit(nibble(id, i - 4))
            },
    )
}

/// The identifier that a text stands for in any of the forms `uuid` reads.
pub uninterp spec fn id_parsed(text: Seq<char>) -> Option<u128>;

/// Whether the version and variant bits are those of a version 7 UUID.
pub open spec fn is_version_7(id: Id) -> bool {
    (id >> 76) & 0xf == 7 && (id >> 62) & 0x3 == 2
}

/// Calls `<uuid::Uuid as FromStr>::from_str`. Claimed of it: what it gives depends on the text
/// alone, and the hyphenated form of an identifier is read back as that identifier.
#[verifier::external_body]
pub(crate) fn parse_id(text: &str) -> (r: Option<Id>)
    ensures
        r == id_parsed(text@),
        forall|id: Id| text@ == #[trigger] id_text(id) ==> r == Some(id),
{
    match text.parse::<Uuid>() {
        Ok(id) => Some(id.as_u128()),
        Err(_) => None,
    }
}

/// Calls `<uuid::Uuid as ToString>::to_string`. Claimed of it: the hyphenated lower-case form.
#[verifier::external_body]
pub(crate) fn format_id(id: Id) -> (r: String)
    ensures
        r@ == id_text(id),
{
    Uuid::from_u128(id).to_string()
}

/// Calls `uuid::Uuid::now_v7`. Claimed of it: version and variant bits; the other bits come from
/// the clock and from chance.
#[verifier::external_body]
fn uuid_now_v7() -> (r: Id)
    ensures
        is_version_7(r),
{
    Uuid::now_v7().as_u128()
}

/// A fresh identifier.
pub fn new_id() -> (r: Id)
    ensures
        is_version_7(r),
{
    uuid_now_v7()
}

/// Distinct identifiers have distinct texts.
pub proof fn law_id_text_is_injective(a: Id, b: Id)
    requires
        id_text(a) == id_text(b),
    ensures
        a == b,
{
    assert forall|k: int| 0 <= k < 32 implies nibble(a, k) == nibble(b, k) by {
        let i = if k < 8 {
            k
        } else if k < 12 {
            k + 1
        } else if k < 16 {
            k + 2
        } else if k < 20 {
            k + 3
        } else {
            k + 4
        };
        assert(id_text(a)[i] == hex_digit(nibble(a, k)));
        assert(id_text(b)[i] == hex_digit(nibble(b, k)));
        vstd::arithmetic::power::lemma_pow_positive(16, (31 - k) as nat);
        assert(0 <= nibble(a, k) < 16 && 0 <= nibble(b, k) < 16);
    }
    lemma_leading_digits(a, b, 32);
    vstd::arithmetic::power::lemma_pow0(16);
}

/// Identifiers with the same leading `n` digits agree above the remaining ones.
proof fn lemma_leading_digits(a: Id, b: Id, n: nat)
    requires
        n <= 32,
        forall|k: int| 0 <= k < n ==> nibble(a, k) == nibble(b, k),
    ensures
        a as int / pow(16, (32 - n) as nat) == b as int / pow(16, (32 - n) as nat),
    decreases n,
{
    if n == 0 {
        assert(pow(16, 32) == 0x1_0000_0000_0000_0000_0000_0000_0000_0000int) by {
            lemma_pow16_32();
        }
    } else {
        let m = (n - 1) as nat;
        lemma_leading_digits(a, b, m);
        let d = pow(16, (31 - m) as nat);
        vstd::arithmetic::power::lemma_pow_positive(16, (31 - m) as nat);
        assert(pow(16, (32 - m) as nat) == d * 16) by {
            vstd::arithmetic::power::lemma_pow1(16);
            vstd::arithmetic::power::lemma_pow_adds(16, (31 - m) as nat, 1);
        }
        vstd::arithmetic::div_mod::lemma_div_denominator(a as int, d, 16);
        vstd::arithmetic::div_mod::lemma_div_denominator(b as int, d, 16);
        assert(nibble(a, m as int) == nibble(b, m as int));
    }
}

proof fn lemma_pow16_32()
    ensures
        pow(16, 32) == 0x1_0000_0000_0000_0000_0000_0000_0000_0000int,
{
    reveal(pow);
    assert(pow(16, 4) == 0x10000) by {
        reveal_with_fuel(pow, 5);
    }
    vstd::arithmetic::power::lemma_pow_adds(16, 4, 4);
    assert(pow(16, 8) == 0x1_0000_0000int);
    vstd::arithmetic::power::lemma_pow_adds(16, 8, 8);
    assert(pow(16, 16) == 0x1_0000_0000_0000_0000int);
    vstd::arithmetic::power::lemma_pow_adds(16, 16, 16);
}

} // verus!
