//! Minting of tenant passwords.

use vstd::prelude::*;
use rand::Rng;

verus! {

/// The number of characters of a minted password.
pub const PASSWORD_LENGTH: usize = 20;

/// Whether `c` is an ASCII letter or an ASCII digit.
pub open spec fn alphanumeric(c: char) -> bool {
    ('a' <= c && c <= 'z') || ('A' <= c && c <= 'Z') || ('0' <= c && c <= '9')
}

/// Whether `s` has the shape of a minted password: `PASSWORD_LENGTH`
/// characters, each of them alphanumeric.
pub open spec fn password_shaped(s: Seq<char>) -> bool {
    s.len() == PASSWORD_LENGTH && forall|i: int| 0 <= i < s.len() ==> alphanumeric(#[trigger] s[i])
}

/// Draws `len` characters from `rand::distributions::Alphanumeric`, sampled
/// with `rand::Rng::sample_iter` on the generator that `rand::thread_rng`
/// hands out. Trusted: that distribution yields bytes of `A-Z`, `a-z` and
/// `0-9` only, and `take(len)` of its endless iterator yields `len` of them.
/// Which characters come is left open. The generator is seeded by the system
/// when a thread first asks for it; `rand` panics where the system gives no
/// seed, and nothing here rules that out.
#[verifier::external_body]
fn sample_alphanumeric(len: usize) -> (s: String)
    ensures
        s@.len() == len,
        forall|i: int| 0 <= i < s@.len() ==> alphanumeric(#[trigger] s@[i]),
{
    rand::thread_rng().sample_iter(rand::distributions::Alphanumeric).take(len).map(
        char::from,
    ).collect()
}

/// Mints a password: twenty alphanumeric characters, drawn at random.
pub fn generate_password() -> (password: String)
    ensures
        password_shaped(password@),
{
    sample_alphanumeric(PASSWORD_LENGTH)
}

/// Tells whether `s` has the shape of a minted password.
pub fn is_password_shaped(s: &str) -> (ok: bool)
    ensures
        ok == password_shaped(s@),
{
    let n: usize = s.unicode_len();
    if n != PASSWORD_LENGTH {
        return false;
    }
    let mut i: usize = 0;
    while i < n
        invariant
            n == s@.len(),
            i <= n,
            forall|j: int| 0 <= j < i ==> alphanumeric(#[trigger] s@[j]),
        decreases n - i,
    {
        let c: char = s.get_char(i);
        let ok: bool = ('a' <= c && c <= 'z') || ('A' <= c && c <= 'Z') || ('0' <= c && c <= '9');
        if !ok {
            return false;
        }
        i += 1;
    }
    true
}

} // verus!
