use vstd::prelude::*;
use crate::subscriber_email::{is_valid_email, SubscriberEmail};
use crate::validation::ValidationError;

verus! {

/// The body of a newsletter issue.
pub struct Content {
    pub html: String,
    pub text: String,
}

/// A newsletter issue to publish.
pub struct BodyData {
    pub title: String,
    pub content: Content,
}

/// A confirmed subscriber whose stored email is still valid.
pub struct ConfirmedSubscriber {
    pub email: SubscriberEmail,
}

/// How publishing can fail.
#[derive(Clone, Copy, Debug, PartialEq, Eq, Structural)]
pub enum PublishFailure {
    ListSubscribers,
    SendNewsletter,
}

/// How publishing can fail: always on the server's side.
#[derive(Clone, Copy, Debug, PartialEq, Eq, Structural)]
pub enum PublishError {
    ServerSideError(PublishFailure),
}

impl PublishError {
    pub fn status_code(&self) -> (r: u16)
        ensures
            r == 500,
    {
        500
    }
}

/// Re-validates the emails of the confirmed subscribers, one entry per stored
/// email, in order; an email that no longer passes is reported on its own.
pub fn get_confirmed_subscribers(rows: Vec<String>) -> (r: Vec<
    Result<ConfirmedSubscriber, ValidationError>,
>)
    ensures
        r.len() == rows.len(),
        forall|i: int|
            0 <= i < rows.len() ==> {
                &&& (#[trigger] r[i] is Ok <==> is_valid_email(rows[i]@))
                &&& r[i] matches Ok(s) ==> s.email@ == rows[i]@
                &&& r[i] matches Err(e) ==> e == ValidationError::InvalidSubscriberEmail
            },
{
    let mut out: Vec<Result<ConfirmedSubscriber, ValidationError>> = Vec::new();
    let mut i: usize = 0;
    while i < rows.len()
        invariant
            i <= rows.len(),
            out.len() == i,
            forall|j: int|
                0 <= j < i ==> {
                    &&& (#[trigger] out[j] is Ok <==> is_valid_email(rows[j]@))
                    &&& out[j] matches Ok(s) ==> s.email@ == rows[j]@
                    &&& out[j] matches Err(e) ==> e == ValidationError::InvalidSubscriberEmail
                },
        decreases rows.len() - i,
    {
        let entry = match SubscriberEmail::parse(rows[i].clone()) {
            Ok(email) => Ok(ConfirmedSubscriber { email }),
            Err(e) => Err(e),
        };
        out.push(entry);
        i = i + 1;
    }
    out
}

/// The valid emails among `rows`, in order.
pub open spec fn valid_recipients(rows: Seq<Seq<char>>) -> Seq<Seq<char>>
    decreases rows.len(),
{
    if rows.len() == 0 {
        Seq::empty()
    } else {
        let rest = valid_recipients(rows.drop_last());
        if is_valid_email(rows.last()) {
            rest.push(rows.last())
        } else {
            rest
        }
    }
}

pub open spec fn emails_view(v: Seq<SubscriberEmail>) -> Seq<Seq<char>> {
    v.map_values(|e: SubscriberEmail| e@)
}

/// The recipients of an issue: the confirmed subscribers whose email is still
/// valid, in the order the store listed them; the others are skipped.
pub fn recipients_of(rows: Vec<String>) -> (r: Vec<SubscriberEmail>)
    ensures
        emails_view(r@) == valid_recipients(rows.deep_view()),
{
    let subscribers = get_confirmed_subscribers(rows);
    let ghost all = rows.deep_view();
    let mut out: Vec<SubscriberEmail> = Vec::new();
    let mut i: usize = 0;
    while i < subscribers.len()
        invariant
            i <= subscribers.len(),
            subscribers.len() == all.len(),
            all == rows.deep_view(),
            forall|j: int|
                0 <= j < all.len() ==> {
                    &&& (#[trigger] subscribers[j] is Ok <==> is_valid_email(all[j]))
                    &&& subscribers[j] matches Ok(s) ==> s.email@ == all[j]
                },
            emails_view(out@) == valid_recipients(all.subrange(0, i as int)),
        decreases subscribers.len() - i,
    {
        proof {
            assert(all.subrange(0, i + 1).drop_last() =~= all.subrange(0, i as int));
            assert(all.subrange(0, i + 1).last() == all[i as int]);
        }
        match &subscribers[i] {
            Ok(s) => {
                out.push(s.email.clone());
                assert(emails_view(out@) =~= valid_recipients(all.subrange(0, i as int)).push(
                    all[i as int],
                ));
            },
            Err(_) => {},
        }
        i = i + 1;
    }
    proof {
        assert(all.subrange(0, all.len() as int) =~= all);
    }
    out
}

/// Where the publishing of an issue stands.
pub enum PublishStep {
    ListConfirmedSubscribers,
    /// `recipients[next]` is the next one to receive the issue.
    Sending { recipients: Vec<SubscriberEmail>, next: usize },
    Delivered,
}

/// What came of the last action.
pub enum PublishEvent {
    /// The stored emails of the confirmed subscribers.
    Listed(Vec<String>),
    Sent,
    Failed,
}

/// The work the caller performs next while publishing.
pub enum PublishAction {
    ListConfirmedSubscribers,
    SendEmail { recipient: SubscriberEmail, subject: String, html_body: String, text_body: String },
    Done,
}

/// The publishing of one issue.
pub struct PublishFlow {
    pub issue: BodyData,
    pub step: PublishStep,
}

/// Starts publishing an issue: first the confirmed subscribers are listed.
pub fn publish_newsletter(body: BodyData) -> (r: PublishFlow)
    ensures
        r.issue.title@ == body.title@,
        r.issue.content.html@ == body.content.html@,
        r.issue.content.text@ == body.content.text@,
        r.step is ListConfirmedSubscribers,
{
    PublishFlow { issue: body, step: PublishStep::ListConfirmedSubscribers }
}

/// The step that sends to `recipients` from position `next` on, or the end
/// when nobody is left.
pub open spec fn sending_from(recipients: Seq<Seq<char>>, next: int, s: PublishStep) -> bool {
    if next < recipients.len() {
        s matches PublishStep::Sending { recipients: v, next: k } && emails_view(v@) == recipients
            && k == next
    } else {
        s is Delivered
    }
}

/// `g` publishes the same issue as `f`.
pub open spec fn same_issue(f: PublishFlow, g: PublishFlow) -> bool {
    &&& g.issue.title@ == f.issue.title@
    &&& g.issue.content.html@ == f.issue.content.html@
    &&& g.issue.content.text@ == f.issue.content.text@
}

/// One step of publishing: the valid recipients are sent the issue one after
/// the other, and the first failure ends the publishing with a server error.
pub open spec fn publish_advances_to(
    f: PublishFlow,
    e: PublishEvent,
    r: Result<PublishFlow, PublishError>,
) -> bool {
    match f.step {
        PublishStep::ListConfirmedSubscribers => match e {
            PublishEvent::Listed(rows) => r matches Ok(g) && same_issue(f, g) && sending_from(
                valid_recipients(rows.deep_view()),
                0,
                g.step,
            ),
            _ => r == Err::<PublishFlow, PublishError>(
                PublishError::ServerSideError(PublishFailure::ListSubscribers),
            ),
        },
        PublishStep::Sending { recipients, next } => match e {
            PublishEvent::Sent => r matches Ok(g) && same_issue(f, g) && sending_from(
                emails_view(recipients@),
                next + 1,
                g.step,
            ),
            _ => r == Err::<PublishFlow, PublishError>(
                PublishError::ServerSideError(PublishFailure::SendNewsletter),
            ),
        },
        PublishStep::Delivered => r matches Ok(g) && same_issue(f, g) && g.step is Delivered,
    }
}

impl PublishFlow {
    pub fn next_action(&self) -> (r: PublishAction)
        ensures
            match self.step {
                PublishStep::ListConfirmedSubscribers => r is ListConfirmedSubscribers,
                PublishStep::Sending { recipients, next } => if next < recipients.len() {
                    r matches PublishAction::SendEmail { recipient, subject, html_body, text_body }
                        && recipient@ == recipients[next as int]@ && subject@ == self.issue.title@
                        && html_body@ == self.issue.content.html@ && text_body@
                        == self.issue.content.text@
                } else {
                    r is Done
                },
                PublishStep::Delivered => r is Done,
            },
    {
        match &self.step {
            PublishStep::ListConfirmedSubscribers => PublishAction::ListConfirmedSubscribers,
            PublishStep::Sending { recipients, next } => {
                if *next < recipients.len() {
                    PublishAction::SendEmail {
                        recipient: recipients[*next].clone(),
                        subject: self.issue.title.clone(),
                        html_body: self.issue.content.html.clone(),
                        text_body: self.issue.content.text.clone(),
                    }
                } else {
                    PublishAction::Done
                }
            },
            PublishStep::Delivered => PublishAction::Done,
        }
    }

    pub fn advance(self, event: PublishEvent) -> (r: Result<PublishFlow, PublishError>)
        ensures
            publish_advances_to(self, event, r),
    {
        let PublishFlow { issue, step } = self;
        match step {
            PublishStep::ListConfirmedSubscribers => match event {
                PublishEvent::Listed(rows) => {
                    let recipients = recipients_of(rows);
                    if recipients.len() == 0 {
                        Ok(PublishFlow { issue, step: PublishStep::Delivered })
                    } else {
                        Ok(PublishFlow { issue, step: PublishStep::Sending { recipients, next: 0 } })
                    }
                },
                _ => Err(PublishError::ServerSideError(PublishFailure::ListSubscribers)),
            },
            PublishStep::Sending { recipients, next } => match event {
                PublishEvent::Sent => {
                    if next < recipients.len() && next + 1 < recipients.len() {
                        Ok(PublishFlow { issue, step: PublishStep::Sending { recipients, next: next + 1 } })
                    } else {
                        Ok(PublishFlow { issue, step: PublishStep::Delivered })
                    }
                },
                _ => Err(PublishError::ServerSideError(PublishFailure::SendNewsletter)),
            },
            PublishStep::Delivered => Ok(PublishFlow { issue, step: PublishStep::Delivered }),
        }
    }
}

} // verus!
