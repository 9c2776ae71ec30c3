use unicode_segmentation::UnicodeSegmentation;
use vstd::prelude::*;
use crate::validation::ValidationError;

verus! {

/// Largest number of grapheme clusters a subscriber name may hold.
pub const MAX_NAME_GRAPHEMES: usize = 256;

/// The number of extended grapheme clusters in `s`.
pub uninterp spec fn graphemes_in(s: Seq<char>) -> nat;

/// The characters with the Unicode `White_Space` property.
pub open spec fn is_white_space(c: char) -> bool {
    let u = c as u32;
    (0x9 <= u && u <= 0xD) || u == 0x20 || u == 0x85 || u == 0xA0 || u == 0x1680
        || (0x2000 <= u && u <= 0x200A) || u == 0x2028 || u == 0x2029 || u == 0x202F
        || u == 0x205F || u == 0x3000
}

/// A string is blank when trimming white space leaves nothing of it.
pub open spec fn is_blank(s: Seq<char>) -> bool {
    forall|i: int| 0 <= i < s.len() ==> is_white_space(#[trigger] s[i])
}

/// The characters a subscriber name may not contain.
pub open spec fn is_forbidden_char(c: char) -> bool {
    c == '/' || c == '(' || c == ')' || c == '"' || c == '<' || c == '>' || c == '\\'
        || c == '{' || c == '}' || c == '[' || c == ']'
}

pub open spec fn has_forbidden_char(s: Seq<char>) -> bool {
    exists|i: int| 0 <= i < s.len() && is_forbidden_char(#[trigger] s[i])
}

/// The rules on a name whose grapheme cluster count is `graphemes`.
pub open spec fn name_rules(s: Seq<char>, graphemes: nat) -> bool {
    !is_blank(s) && graphemes <= MAX_NAME_GRAPHEMES && !has_forbidden_char(s)
}

/// What makes a subscriber name valid.
pub open spec fn is_valid_name(s: Seq<char>) -> bool {
    name_rules(s, graphemes_in(s))
}

/// Relies on `char::is_whitespace`: true exactly for the characters with the
/// Unicode `White_Space` property.
#[verifier::external_body]
fn char_is_whitespace(c: char) -> (r: bool)
    ensures
        r == is_white_space(c),
{
    c.is_whitespace()
}

/// Relies on `UnicodeSegmentation::graphemes` of unicode-segmentation, extended
/// clusters: the count of the clusters it yields.
#[verifier::external_body]
fn count_graphemes(s: &str) -> (r: usize)
    ensures
        r as nat == graphemes_in(s@),
{
    s.graphemes(true).count()
}

/// Whether every character of `s` is white space.
pub fn is_empty_or_whitespace(s: &str) -> (r: bool)
    ensures
        r == is_blank(s@),
{
    let n = s.unicode_len();
    let mut i: usize = 0;
    while i < n
        invariant
            n == s@.len(),
            i <= n,
            forall|j: int| 0 <= j < i ==> is_white_space(#[trigger] s@[j]),
        decreases n - i,
    {
        if !char_is_whitespace(s.get_char(i)) {
            return false;
        }
        i = i + 1;
    }
    true
}

/// Whether `s` holds one of the characters a name may not contain.
pub fn contains_forbidden_char(s: &str) -> (r: bool)
    ensures
        r == has_forbidden_char(s@),
{
    let n = s.unicode_len();
    let mut i: usize = 0;
    while i < n
        invariant
            n == s@.len(),
            i <= n,
            forall|j: int| 0 <= j < i ==> !is_forbidden_char(#[trigger] s@[j]),
        decreases n - i,
    {
        let c = s.get_char(i);
        if c == '/' || c == '(' || c == ')' || c == '"' || c == '<' || c == '>' || c == '\\'
            || c == '{' || c == '}' || c == '[' || c == ']' {
            assert(is_forbidden_char(s@[i as int]));
            return true;
        }
        i = i + 1;
    }
    false
}

/// The name rules, given the number of grapheme clusters in `s`.
pub fn name_rules_hold(s: &str, graphemes: usize) -> (r: bool)
    ensures
        r == name_rules(s@, graphemes as nat),
{
    !is_empty_or_whitespace(s) && graphemes <= MAX_NAME_GRAPHEMES && !contains_forbidden_char(s)
}

/// A subscriber name that has passed validation.
pub struct SubscriberName {
    name: String,
}

impl View for SubscriberName {
    type V = Seq<char>;

    closed spec fn view(&self) -> Seq<char> {
        self.name@
    }
}

impl SubscriberName {
    #[verifier::type_invariant]
    spec fn inv(self) -> bool {
        is_valid_name(self.name@)
    }

    /// Accepts `s` exactly when it satisfies the name rules; the name keeps `s`
    /// unchanged.
    pub fn parse(s: String) -> (r: Result<SubscriberName, ValidationError>)
        ensures
            r is Ok <==> is_valid_name(s@),
            r matches Ok(n) ==> n@ == s@,
            r matches Err(e) ==> e == ValidationError::InvalidSubscriberName,
    {
        let graphemes = count_graphemes(s.as_str());
        if name_rules_hold(s.as_str(), graphemes) {
            Ok(SubscriberName { name: s })
        } else {
            Err(ValidationError::InvalidSubscriberName)
        }
    }

    /// The name as it was submitted; it satisfies the name rules.
    pub fn as_ref(&self) -> (r: &str)
        ensures
            r@ == self@,
            is_valid_name(r@),
    {
        proof {
            use_type_invariant(self);
        }
        self.name.as_str()
    }
}

impl Clone for SubscriberName {
    fn clone(&self) -> (r: SubscriberName)
        ensures
            r@ == self@,
    {
        proof {
            use_type_invariant(self);
        }
        SubscriberName { name: self.name.clone() }
    }
}

} // verus!
