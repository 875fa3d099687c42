//! Random alphanumeric strings: the source of salts and session tokens.

use rand::Rng;
use vstd::prelude::*;

verus! {

/// One of the 62 characters `A`-`Z`, `a`-`z`, `0`-`9`.
pub open spec fn is_alnum_char(c: char) -> bool {
    ('A' <= c && c <= 'Z') || ('a' <= c && c <= 'z') || ('0' <= c && c <= '9')
}

/// Every character of the sequence is alphanumeric.
pub open spec fn all_alnum(s: Seq<char>) -> bool {
    forall|i: int| 0 <= i < s.len() ==> is_alnum_char(#[trigger] s[i])
}

/// Relies on rand's `Alphanumeric` distribution sampled from `thread_rng`:
/// each sample is drawn from the 62-character set `A`-`Z`, `a`-`z`, `0`-`9`.
/// The result is random, so nothing relates two calls; only its length and
/// alphabet are stated.
#[verifier::external_body]
pub(crate) fn random_alnum_string(len: usize) -> (r: String)
    ensures
        r@.len() == len as nat,
        all_alnum(r@),
{
    rand::thread_rng()
        .sample_iter(&rand::distributions::Alphanumeric)
        .take(len)
        .map(char::from)
        .collect()
}

} // verus!
