use rand::Rng;
use vstd::prelude::*;

verus! {

/// Number of characters in a subscription token.
pub const TOKEN_LENGTH: usize = 25;

#[verifier::external_type_specification]
#[verifier::external_body]
pub struct ExThreadRng(rand::rngs::ThreadRng);

pub assume_specification[ rand::thread_rng ]() -> rand::rngs::ThreadRng;

/// The characters of `[A-Za-z0-9]`.
pub open spec fn is_alphanumeric(c: char) -> bool {
    ('A' <= c && c <= 'Z') || ('a' <= c && c <= 'z') || ('0' <= c && c <= '9')
}

/// A well-formed subscription token: its length, and only alphanumeric characters.
pub open spec fn is_token(t: Seq<char>) -> bool {
    t.len() == TOKEN_LENGTH && forall|i: int| 0 <= i < t.len() ==> is_alphanumeric(#[trigger] t[i])
}

/// Relies on `Rng::sample` with rand's `Alphanumeric` distribution: a byte
/// drawn from `A-Z`, `a-z`, `0-9`, turned into a `char`.
#[verifier::external_body]
fn sample_alphanumeric(rng: &mut rand::rngs::ThreadRng) -> (r: char)
    ensures
        is_alphanumeric(r),
{
    char::from(rng.sample(rand::distributions::Alphanumeric))
}

/// Relies on `String::push`: appends `c` at the end.
#[verifier::external_body]
pub(crate) fn push_char(s: &mut String, c: char)
    ensures
        final(s)@ == old(s)@.push(c),
{
    s.push(c)
}

/// A fresh random confirmation token, drawn from the thread's random generator.
pub fn generate_subscription_token() -> (r: String)
    ensures
        is_token(r@),
{
    let mut rng = rand::thread_rng();
    let mut token = String::new();
    let mut i: usize = 0;
    while i < TOKEN_LENGTH
        invariant
            i <= TOKEN_LENGTH,
            token@.len() == i,
            forall|j: int| 0 <= j < i ==> is_alphanumeric(#[trigger] token@[j]),
        decreases TOKEN_LENGTH - i,
    {
        let c = sample_alphanumeric(&mut rng);
        push_char(&mut token, c);
        i = i + 1;
    }
    token
}

} // verus!
