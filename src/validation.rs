use vstd::prelude::*;

verus! {

/// Why a submitted field was rejected at the boundary.
#[derive(Clone, Copy, Debug, PartialEq, Eq, Structural)]
pub enum ValidationError {
    InvalidSubscriberName,
    InvalidSubscriberEmail,
}

impl ValidationError {
    /// A short message that can be shown to the caller.
    pub fn message(&self) -> (r: &'static str) {
        match self {
            ValidationError::InvalidSubscriberName => "is not a valid subscriber name.",
            ValidationError::InvalidSubscriberEmail => "is not a valid subscriber email.",
        }
    }
}

} // verus!
