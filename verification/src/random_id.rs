//! The random-identifier generator: a 10-character alphanumeric name with
//! enough entropy (62 to the power of 10 possibilities) that accidental
//! collisions between temporary directories are negligible. Nothing
//! cryptographic is claimed of it.

use vstd::prelude::*;
use rand::Rng;

verus! {

/// The number of characters in a generated identifier.
pub const ID_LEN: usize = 10;

/// A character allowed in a generated identifier: an ASCII letter or digit.
pub open spec fn is_name_char(c: char) -> bool {
    ('a' <= c && c <= 'z') || ('A' <= c && c <= 'Z') || ('0' <= c && c <= '9')
}

/// Holds of a whole identifier: every character is a letter or a digit.
pub open spec fn all_name_chars(s: Seq<char>) -> bool {
    forall|i: int| 0 <= i < s.len() ==> is_name_char(#[trigger] s[i])
}

/// Relies on rand's `Alphanumeric` distribution: each sampled byte is drawn
/// uniformly from the 62 ASCII letters and digits, so every collected
/// character is alphanumeric, and `take(n)` collects exactly `n` of them.
/// Nothing more is assumed of the drawn values: they are random.
#[verifier::external_body]
fn sample_alphanumeric(n: usize) -> (s: String)
    ensures
        s@.len() == n as nat,
        all_name_chars(s@),
{
    rand::thread_rng()
        .sample_iter(&rand::distributions::Alphanumeric)
        .take(n)
        .map(char::from)
        .collect()
}

/// Draw a fresh random identifier: `ID_LEN` characters, each a letter or a
/// digit. Two calls are independent draws; no two results are related.
pub fn random_name() -> (s: String)
    ensures
        s@.len() == ID_LEN as nat,
        all_name_chars(s@),
{
    sample_alphanumeric(ID_LEN)
}

} // verus!
