use vstd::prelude::*;
use crate::subscriber_email::SubscriberEmail;

verus! {

/// One outbound request to the email provider: where it goes and the fields of
/// its JSON body.
pub struct SendEmailRequest {
    pub url: String,
    pub from: String,
    pub to: String,
    pub subject: String,
    pub html_body: String,
    pub text_body: String,
}

/// The endpoint of the email provider under `base_url`.
pub open spec fn email_endpoint(base_url: Seq<char>) -> Seq<char> {
    base_url + "/email"@
}

/// The request that sends one email from `sender` to `recipient`.
pub fn send_email_request(
    base_url: &str,
    sender: &SubscriberEmail,
    recipient: &SubscriberEmail,
    subject: &str,
    html_body: &str,
    text_body: &str,
) -> (r: SendEmailRequest)
    ensures
        r.url@ == email_endpoint(base_url@),
        r.from@ == sender@,
        r.to@ == recipient@,
        r.subject@ == subject@,
        r.html_body@ == html_body@,
        r.text_body@ == text_body@,
{
    let mut url = String::from_str(base_url);
    url.append("/email");
    SendEmailRequest {
        url,
        from: String::from_str(sender.as_ref()),
        to: String::from_str(recipient.as_ref()),
        subject: String::from_str(subject),
        html_body: String::from_str(html_body),
        text_body: String::from_str(text_body),
    }
}

} // verus!
