use vstd::prelude::*;
use crate::subscriber_email::{is_valid_email, SubscriberEmail};
use crate::subscriber_name::{is_valid_name, SubscriberName};
use crate::validation::ValidationError;

verus! {

/// The fields of a subscription form, as submitted.
pub struct FormData {
    pub name: String,
    pub email: String,
}

/// A validated name and email, ready to be stored.
pub struct NewSubscriber {
    pub email: SubscriberEmail,
    pub name: SubscriberName,
}

impl View for NewSubscriber {
    /// The email, then the name.
    type V = (Seq<char>, Seq<char>);

    open spec fn view(&self) -> Self::V {
        (self.email@, self.name@)
    }
}

impl Clone for NewSubscriber {
    fn clone(&self) -> (r: NewSubscriber)
        ensures
            r@ == self@,
    {
        NewSubscriber { email: self.email.clone(), name: self.name.clone() }
    }
}

/// Whether a form passes validation.
pub open spec fn form_is_valid(name: Seq<char>, email: Seq<char>) -> bool {
    is_valid_name(name) && is_valid_email(email)
}

/// The error that validation of a form reports: the name is checked first.
pub open spec fn form_error(name: Seq<char>, email: Seq<char>) -> ValidationError {
    if !is_valid_name(name) {
        ValidationError::InvalidSubscriberName
    } else {
        ValidationError::InvalidSubscriberEmail
    }
}

/// Turns a submitted form into a new subscriber, keeping both fields as they
/// were submitted, or reports the first field that fails validation.
pub fn parse_subscriber(form: FormData) -> (r: Result<NewSubscriber, ValidationError>)
    ensures
        r is Ok <==> form_is_valid(form.name@, form.email@),
        r matches Ok(s) ==> s.name@ == form.name@ && s.email@ == form.email@,
        r matches Err(e) ==> e == form_error(form.name@, form.email@),
{
    let name = SubscriberName::parse(form.name)?;
    let email = SubscriberEmail::parse(form.email)?;
    Ok(NewSubscriber { email, name })
}

} // verus!
