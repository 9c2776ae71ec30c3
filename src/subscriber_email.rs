use vstd::prelude::*;
use crate::validation::ValidationError;

verus! {

/// `s` splits at its position `at` into a non-empty local part and a non-empty
/// domain part, `at` holds the only `@` of `s`, and the domain holds a `.`.
pub open spec fn email_split_at(s: Seq<char>, at: int) -> bool {
    &&& 0 < at < s.len() - 1
    &&& s[at] == '@'
    &&& forall|j: int| 0 <= j < s.len() && j != at ==> #[trigger] s[j] != '@'
    &&& exists|j: int| at < j < s.len() && #[trigger] s[j] == '.'
}

/// What makes a subscriber email valid: `local@domain`, both parts non-empty,
/// exactly one `@`, and at least one `.` in the domain.
pub open spec fn is_valid_email(s: Seq<char>) -> bool {
    exists|at: int| email_split_at(s, at)
}

/// The position of the first `@` in `s`, if any.
fn find_at_sign(s: &str) -> (r: Option<usize>)
    ensures
        r matches Some(i) ==> i < s@.len() && s@[i as int] == '@' && forall|j: int|
            0 <= j < i ==> #[trigger] s@[j] != '@',
        r is None ==> forall|j: int| 0 <= j < s@.len() ==> #[trigger] s@[j] != '@',
{
    let n = s.unicode_len();
    let mut i: usize = 0;
    while i < n
        invariant
            n == s@.len(),
            i <= n,
            forall|j: int| 0 <= j < i ==> #[trigger] s@[j] != '@',
        decreases n - i,
    {
        if s.get_char(i) == '@' {
            return Some(i);
        }
        i = i + 1;
    }
    None
}

/// Checks the part of `s` after position `at`: no further `@`, at least one `.`.
fn domain_is_valid(s: &str, at: usize) -> (r: bool)
    requires
        at < s@.len(),
    ensures
        r == ((forall|j: int| at < j < s@.len() ==> #[trigger] s@[j] != '@') && exists|j: int|
            at < j < s@.len() && #[trigger] s@[j] == '.'),
{
    let n = s.unicode_len();
    let mut i: usize = at + 1;
    let mut seen_dot = false;
    let ghost mut dot: int = 0;
    while i < n
        invariant
            n == s@.len(),
            at < i <= n,
            forall|j: int| at < j < i ==> #[trigger] s@[j] != '@',
            seen_dot ==> at < dot < i && s@[dot] == '.',
            !seen_dot ==> forall|j: int| at < j < i ==> #[trigger] s@[j] != '.',
        decreases n - i,
    {
        let c = s.get_char(i);
        if c == '@' {
            return false;
        }
        if c == '.' && !seen_dot {
            seen_dot = true;
            proof {
                dot = i as int;
            }
        }
        i = i + 1;
    }
    if seen_dot {
        assert(s@[dot] == '.');
    }
    seen_dot
}

/// Whether `s` is a valid subscriber email.
pub fn email_rules_hold(s: &str) -> (r: bool)
    ensures
        r == is_valid_email(s@),
{
    match find_at_sign(s) {
        None => {
            assert forall|at: int| !email_split_at(s@, at) by {
                if 0 <= at < s@.len() {
                    assert(s@[at] != '@');
                }
            }
            false
        },
        Some(at) => {
            let n = s.unicode_len();
            if at == 0 || at + 1 >= n {
                assert forall|k: int| !email_split_at(s@, k) by {
                    if email_split_at(s@, k) && k != at {
                        assert(s@[at as int] != '@');
                    }
                }
                return false;
            }
            let ok = domain_is_valid(s, at);
            if ok {
                assert(email_split_at(s@, at as int));
            } else {
                assert forall|k: int| !email_split_at(s@, k) by {
                    if email_split_at(s@, k) {
                        if k != at {
                            assert(s@[at as int] != '@');
                        }
                    }
                }
            }
            ok
        },
    }
}

/// A subscriber email that has passed validation.
pub struct SubscriberEmail {
    email: String,
}

impl View for SubscriberEmail {
    type V = Seq<char>;

    closed spec fn view(&self) -> Seq<char> {
        self.email@
    }
}

impl SubscriberEmail {
    #[verifier::type_invariant]
    spec fn inv(self) -> bool {
        is_valid_email(self.email@)
    }

    /// Accepts `s` exactly when it is a valid email; the email keeps `s`
    /// unchanged.
    pub fn parse(s: String) -> (r: Result<SubscriberEmail, ValidationError>)
        ensures
            r is Ok <==> is_valid_email(s@),
            r matches Ok(e) ==> e@ == s@,
            r matches Err(e) ==> e == ValidationError::InvalidSubscriberEmail,
    {
        if email_rules_hold(s.as_str()) {
            Ok(SubscriberEmail { email: s })
        } else {
            Err(ValidationError::InvalidSubscriberEmail)
        }
    }

    /// The email as it was submitted; it is valid.
    pub fn as_ref(&self) -> (r: &str)
        ensures
            r@ == self@,
            is_valid_email(r@),
    {
        proof {
            use_type_invariant(self);
        }
        self.email.as_str()
    }
}

impl Clone for SubscriberEmail {
    fn clone(&self) -> (r: SubscriberEmail)
        ensures
            r@ == self@,
    {
        proof {
            use_type_invariant(self);
        }
        SubscriberEmail { email: self.email.clone() }
    }
}

} // verus!
