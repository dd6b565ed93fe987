//! Identifier generation: a random number below `u32::MAX`, rendered in
//! decimal, then encoded with the URL-safe, unpadded base64 alphabet.
//! The generator promises no uniqueness; a collision surfaces as the
//! store's primary-key error.

use rand::Rng;
use vstd::prelude::*;
use vstd::arithmetic::div_mod::lemma_multiply_divide_lt;

verus! {

/// A character of the URL-safe base64 alphabet (RFC 4648 section 5):
/// letters, digits, `-` and `_`. Identifiers are built from these, so
/// they are usable as a path segment without escaping.
pub open spec fn is_base64url_char(c: char) -> bool {
    ||| 'A' <= c && c <= 'Z'
    ||| 'a' <= c && c <= 'z'
    ||| '0' <= c && c <= '9'
    ||| c == '-'
    ||| c == '_'
}

/// What base64's URL-safe, unpadded engine returns for a byte sequence.
pub uninterp spec fn base64url_of(bytes: Seq<u8>) -> Seq<char>;

/// The ASCII decimal digits of `n`, most significant first, with no
/// leading zero except for `n == 0` itself.
pub open spec fn decimal_of(n: nat) -> Seq<u8>
    decreases n,
{
    if n < 10 {
        seq![(48 + n) as u8]
    } else {
        decimal_of(n / 10).push((48 + n % 10) as u8)
    }
}

/// An identifier the generator can produce: the URL-safe base64 encoding
/// of the decimal text of some number below `u32::MAX`.
pub open spec fn is_generated_id(s: Seq<char>) -> bool {
    exists|n: u32| n < u32::MAX && s == base64url_of(decimal_of(n as nat))
}

/// Relies on rand's `Rng::gen_range` over `0..u32::MAX`: the drawn value
/// lies in the half-open range, which is not empty, so the call cannot
/// panic. Nothing else is assumed of the draw.
#[verifier::external_body]
fn random_link_number() -> (n: u32)
    ensures
        n < u32::MAX,
{
    rand::thread_rng().gen_range(0..u32::MAX)
}

/// Relies on base64's `Engine::encode` with the `URL_SAFE_NO_PAD`
/// engine: the output is a function of the input bytes alone, its length
/// is the unpadded `encoded_len` (four characters per three bytes, two
/// or three for a trailing partial group), and every character is drawn
/// from the URL-safe alphabet of RFC 4648 section 5.
#[verifier::external_body]
fn base64url_encode(bytes: &Vec<u8>) -> (r: String)
    ensures
        r@ == base64url_of(bytes@),
        r@.len() == (4 * bytes@.len() + 2) / 3,
        forall|i: int| 0 <= i < r@.len() ==> is_base64url_char(#[trigger] r@[i]),
{
    base64::Engine::encode(&base64::engine::general_purpose::URL_SAFE_NO_PAD, bytes.as_slice())
}

/// Renders `n` as ASCII decimal digits, most significant first.
pub fn decimal_bytes(n: u32) -> (r: Vec<u8>)
    ensures
        r@ == decimal_of(n as nat),
{
    let mut digits: Vec<u8> = Vec::new();
    let mut m: u32 = n;
    while m >= 10
        invariant
            decimal_of(n as nat) == decimal_of(m as nat) + digits@.reverse(),
        decreases m,
    {
        let d: u8 = (m % 10) as u8 + 48;
        proof {
            let ghost prev = digits@;
            assert(digits@.push(d).reverse() =~= seq![d] + prev.reverse());
        }
        digits.push(d);
        m = m / 10;
    }
    let d: u8 = m as u8 + 48;
    proof {
        let ghost prev = digits@;
        assert(digits@.push(d).reverse() =~= seq![d] + prev.reverse());
    }
    digits.push(d);
    proof {
        assert(decimal_of(n as nat) =~= digits@.reverse());
    }
    let mut r: Vec<u8> = Vec::new();
    let mut i: usize = digits.len();
    while i > 0
        invariant
            i <= digits.len(),
            r@.len() == digits.len() - i,
            forall|k: int| 0 <= k < r@.len() ==> r@[k] == digits@[digits@.len() - 1 - k],
        decreases i,
    {
        i = i - 1;
        let d: u8 = digits[i];
        r.push(d);
    }
    proof {
        assert(r@ =~= digits@.reverse());
    }
    r
}

/// How many digits `decimal_of` yields: at least one, and at most `k`
/// digits for a number below the `k`-th power of ten.
pub proof fn lemma_decimal_len(n: nat, k: nat)
    requires
        1 <= k,
        n < pow10(k),
    ensures
        1 <= decimal_of(n).len() <= k,
    decreases k,
{
    if n < 10 {
    } else {
        assert(pow10(k) == 10 * pow10((k - 1) as nat));
        lemma_multiply_divide_lt(n as int, 10, pow10((k - 1) as nat) as int);
        assert(1 <= (k - 1) as nat) by {
            if k == 1 {
                assert(pow10(1nat) == 10 * pow10(0nat));
                assert(n < 10);
            }
        }
        lemma_decimal_len(n / 10, (k - 1) as nat);
    }
}

/// The `k`-th power of ten.
pub open spec fn pow10(k: nat) -> nat
    decreases k,
{
    if k == 0 {
        1
    } else {
        10 * pow10((k - 1) as nat)
    }
}

/// Produces a short, URL-safe identifier: draw a random value in
/// `[0, u32::MAX)`, render its decimal
/// textual form, and encode that text with the URL-safe unpadded base64
/// alphabet. The result is never empty, fits in fourteen characters, and
/// is safe as a path segment; uniqueness is delegated to the store.
pub fn generate_id() -> (r: String)
    ensures
        is_generated_id(r@),
        2 <= r@.len() <= 14,
        forall|i: int| 0 <= i < r@.len() ==> is_base64url_char(#[trigger] r@[i]),
{
    let n = random_link_number();
    let digits = decimal_bytes(n);
    proof {
        assert(pow10(0nat) == 1);
        assert(pow10(1nat) == 10);
        assert(pow10(2nat) == 100);
        assert(pow10(3nat) == 1000);
        assert(pow10(4nat) == 10000);
        assert(pow10(5nat) == 100000);
        assert(pow10(6nat) == 1000000);
        assert(pow10(7nat) == 10000000);
        assert(pow10(8nat) == 100000000);
        assert(pow10(9nat) == 1000000000);
        assert(pow10(10nat) == 10000000000);
        assert(u32::MAX < pow10(10nat));
        lemma_decimal_len(n as nat, 10nat);
    }
    base64url_encode(&digits)
}

} // verus!
