//! Names for content files: random alphanumeric tokens, so that writers never
//! pick the same file and no name can be guessed from a URL.
use vstd::prelude::*;
use crate::header::push_char;

verus! {

/// The number of characters in a content file's name.
pub const TOKEN_LEN: usize = 20;

/// An ASCII letter or digit.
pub open spec fn is_alphanumeric(c: char) -> bool {
    ('A' <= c && c <= 'Z') || ('a' <= c && c <= 'z') || ('0' <= c && c <= '9')
}

/// An ASCII letter or digit, as a byte.
pub open spec fn is_alphanumeric_byte(b: u8) -> bool {
    (65 <= b && b <= 90) || (97 <= b && b <= 122) || (48 <= b && b <= 57)
}

/// A well-formed name for a content file.
pub open spec fn is_token(t: Seq<char>) -> bool {
    &&& t.len() == TOKEN_LEN
    &&& forall|i: int| 0 <= i < t.len() ==> is_alphanumeric(#[trigger] t[i])
}

/// Where the content file named `token` lives, relative to the cache root.
pub open spec fn content_path_of(token: Seq<char>) -> Seq<char> {
    "content/"@ + token
}

/// Relies on rand's `Alphanumeric` distribution, drawn from the thread-local
/// generator: every byte it yields is an ASCII letter or digit.
#[verifier::external_body]
fn random_alphanumeric() -> (b: u8)
    ensures
        is_alphanumeric_byte(b),
{
    rand::Rng::sample(&mut rand::thread_rng(), rand::distributions::Alphanumeric)
}

/// Draws a fresh random name for a content file.
pub fn random_token() -> (r: String)
    ensures
        is_token(r@),
{
    let mut s = String::new();
    let mut i: usize = 0;
    while i < TOKEN_LEN
        invariant
            0 <= i <= TOKEN_LEN,
            s@.len() == i,
            forall|j: int| 0 <= j < i ==> is_alphanumeric(#[trigger] s@[j]),
        decreases TOKEN_LEN - i,
    {
        let b = random_alphanumeric();
        push_char(&mut s, b as char);
        i = i + 1;
    }
    s
}

/// The path, relative to the cache root, of the content file named `token`.
pub fn content_path(token: &str) -> (r: String)
    ensures
        r@ == content_path_of(token@),
{
    let mut s = String::from_str("content/");
    s.append(token);
    s
}

} // verus!
