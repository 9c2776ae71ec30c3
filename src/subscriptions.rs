use vstd::prelude::*;
use crate::new_subscriber::{form_error, form_is_valid, parse_subscriber, FormData, NewSubscriber};
use crate::subscriber_email::SubscriberEmail;
use crate::subscriber_record::{
    is_random_uuid, new_pending_record, SubscriberRecord, SubscriptionStatus,
};
use crate::token::{generate_subscription_token, is_token};
use crate::validation::ValidationError;

verus! {

/// The link a new subscriber visits to confirm its subscription.
pub open spec fn confirmation_link(base_url: Seq<char>, token: Seq<char>) -> Seq<char> {
    base_url + "/subscriptions/confirm?subscription_token="@ + token
}

pub open spec fn html_before_link() -> Seq<char> {
    "Welcome to our newsletter! <br />Click <a href=\""@
}

pub open spec fn html_after_link() -> Seq<char> {
    "\">here</a> to confirm your subscription."@
}

pub open spec fn text_before_link() -> Seq<char> {
    "Welcome to our newsletter!\n Visit "@
}

pub open spec fn text_after_link() -> Seq<char> {
    " to confirm your subscription."@
}

/// The HTML body of the confirmation email.
pub open spec fn confirmation_html(link: Seq<char>) -> Seq<char> {
    html_before_link() + link + html_after_link()
}

/// The plain-text body of the confirmation email.
pub open spec fn confirmation_text(link: Seq<char>) -> Seq<char> {
    text_before_link() + link + text_after_link()
}

/// The email that asks a new subscriber to confirm.
pub struct ConfirmationEmail {
    pub recipient: SubscriberEmail,
    pub subject: String,
    pub html_body: String,
    pub text_body: String,
}

/// The confirmation email for `new_subscriber`, whose bodies both carry the
/// link for `token` under `base_url`.
pub fn confirmation_email(new_subscriber: &NewSubscriber, base_url: &str, token: &str) -> (r:
    ConfirmationEmail)
    ensures
        r.recipient@ == new_subscriber.email@,
        r.subject@ == "Welcome!"@,
        r.html_body@ == confirmation_html(confirmation_link(base_url@, token@)),
        r.text_body@ == confirmation_text(confirmation_link(base_url@, token@)),
{
    let mut link = String::from_str(base_url);
    link.append("/subscriptions/confirm?subscription_token=");
    link.append(token);
    let mut html_body = String::from_str("Welcome to our newsletter! <br />Click <a href=\"");
    html_body.append(link.as_str());
    html_body.append("\">here</a> to confirm your subscription.");
    let mut text_body = String::from_str("Welcome to our newsletter!\n Visit ");
    text_body.append(link.as_str());
    text_body.append(" to confirm your subscription.");
    ConfirmationEmail {
        recipient: new_subscriber.email.clone(),
        subject: String::from_str("Welcome!"),
        html_body,
        text_body,
    }
}

/// The HTML and the plain-text body of a confirmation email carry the same
/// link, at a fixed place in each: read back from either body it is the link
/// for the token.
pub proof fn lemma_confirmation_links_agree(base_url: Seq<char>, token: Seq<char>)
    ensures
        ({
            let link = confirmation_link(base_url, token);
            let h = html_before_link().len() as int;
            let t = text_before_link().len() as int;
            &&& confirmation_html(link).subrange(h, h + link.len()) == link
            &&& confirmation_text(link).subrange(t, t + link.len()) == link
        }),
{
    let link = confirmation_link(base_url, token);
    let h = html_before_link().len() as int;
    let t = text_before_link().len() as int;
    assert(confirmation_html(link).subrange(h, h + link.len()) =~= link);
    assert(confirmation_text(link).subrange(t, t + link.len()) =~= link);
}

/// The step of the subscription workflow that failed on the server's side.
#[derive(Clone, Copy, Debug, PartialEq, Eq, Structural)]
pub enum ServerSideFailure {
    AcquireTransaction,
    InsertSubscriber,
    StoreToken,
    Commit,
    SendConfirmationEmail,
}

impl ServerSideFailure {
    /// Whether the failure came from the data store, before anything was committed.
    pub fn is_persistence(&self) -> (r: bool)
        ensures
            r == !(*self is SendConfirmationEmail),
    {
        !matches!(self, ServerSideFailure::SendConfirmationEmail)
    }

    /// The context under which the failure is logged.
    pub fn context(&self) -> &'static str {
        match self {
            ServerSideFailure::AcquireTransaction => "failed to acquire a postgres connection from the pool",
            ServerSideFailure::InsertSubscriber => "failed to insert subscriber id",
            ServerSideFailure::StoreToken => "failed to store token",
            ServerSideFailure::Commit => "failed to commit",
            ServerSideFailure::SendConfirmationEmail => "failed to send confirmation email",
        }
    }
}

/// How a subscription attempt can fail.
#[derive(Clone, Copy, Debug, PartialEq, Eq, Structural)]
pub enum SubscribeError {
    ValidationError(ValidationError),
    ServerSideError(ServerSideFailure),
}

/// The HTTP status that answers an error: the caller's fault or the server's.
pub open spec fn subscribe_error_status(e: SubscribeError) -> u16 {
    match e {
        SubscribeError::ValidationError(_) => 400,
        SubscribeError::ServerSideError(_) => 500,
    }
}

impl SubscribeError {
    pub fn status_code(&self) -> (r: u16)
        ensures
            r == subscribe_error_status(*self),
    {
        match self {
            SubscribeError::ValidationError(_) => 400,
            SubscribeError::ServerSideError(_) => 500,
        }
    }
}

impl From<ValidationError> for SubscribeError {
    fn from(e: ValidationError) -> (r: SubscribeError)
        ensures
            r == SubscribeError::ValidationError(e),
    {
        SubscribeError::ValidationError(e)
    }
}

impl vstd::std_specs::convert::FromSpecImpl<ValidationError> for SubscribeError {
    open spec fn obeys_from_spec() -> bool {
        true
    }

    open spec fn from_spec(e: ValidationError) -> SubscribeError {
        SubscribeError::ValidationError(e)
    }
}

} // verus!

verus! {

/// Where a subscription attempt stands, with what its next step needs.
pub enum SubscribeStep {
    BeginTransaction,
    InsertSubscriber(SubscriberRecord),
    StoreToken { subscriber_id: u128, token: String },
    Commit { token: String },
    SendConfirmationEmail { token: String },
    Accepted,
}

/// What came of the step that the last action asked for.
#[derive(Clone, Copy, Debug, PartialEq, Eq, Structural)]
pub enum StepOutcome {
    Succeeded,
    Failed,
}

/// The work that the caller performs next on behalf of a subscription attempt.
/// All store writes go through one transaction, begun by `BeginTransaction`;
/// dropping it before `Commit` rolls it back.
pub enum SubscribeAction {
    BeginTransaction,
    InsertSubscriber(SubscriberRecord),
    StoreToken { subscriber_id: u128, token: String },
    Commit,
    SendConfirmationEmail(ConfirmationEmail),
    Done,
}

/// A subscription attempt whose form passed validation.
pub struct SubscribeFlow {
    pub subscriber: NewSubscriber,
    pub base_url: String,
    pub step: SubscribeStep,
}

/// `g` is the attempt `f`, for the same subscriber and base URL.
pub open spec fn same_attempt(f: SubscribeFlow, g: SubscribeFlow) -> bool {
    g.subscriber@ == f.subscriber@ && g.base_url@ == f.base_url@
}

/// The server-side failure reported when the step `s` fails.
pub open spec fn failure_of(s: SubscribeStep) -> ServerSideFailure {
    match s {
        SubscribeStep::BeginTransaction => ServerSideFailure::AcquireTransaction,
        SubscribeStep::InsertSubscriber(_) => ServerSideFailure::InsertSubscriber,
        SubscribeStep::StoreToken { .. } => ServerSideFailure::StoreToken,
        SubscribeStep::Commit { .. } => ServerSideFailure::Commit,
        _ => ServerSideFailure::SendConfirmationEmail,
    }
}

/// `next` is the step that follows the current step of `f` when it succeeds:
/// the row inserted is a fresh pending row for the subscriber, the token stored
/// is a fresh token for that row, and the same token is committed and mailed.
pub open spec fn step_follows(f: SubscribeFlow, next: SubscribeStep) -> bool {
    match (f.step, next) {
        (SubscribeStep::BeginTransaction, SubscribeStep::InsertSubscriber(rec)) => {
            &&& rec.email@ == f.subscriber.email@
            &&& rec.name@ == f.subscriber.name@
            &&& rec.status == SubscriptionStatus::PendingConfirmation
            &&& is_random_uuid(rec.id)
        },
        (
            SubscribeStep::InsertSubscriber(rec),
            SubscribeStep::StoreToken { subscriber_id, token },
        ) => subscriber_id == rec.id && is_token(token@),
        (SubscribeStep::StoreToken { token, .. }, SubscribeStep::Commit { token: t }) => t@ == token@,
        (SubscribeStep::Commit { token }, SubscribeStep::SendConfirmationEmail { token: t }) => t@
            == token@,
        (SubscribeStep::SendConfirmationEmail { .. }, SubscribeStep::Accepted) => true,
        (SubscribeStep::Accepted, SubscribeStep::Accepted) => true,
        _ => false,
    }
}

/// What one step of the workflow does: on failure it ends with the server-side
/// error of that step, on success it moves on to the next step. A finished
/// attempt stays finished.
pub open spec fn advances_to(
    f: SubscribeFlow,
    o: StepOutcome,
    r: Result<SubscribeFlow, SubscribeError>,
) -> bool {
    if o is Failed && !(f.step is Accepted) {
        r == Err::<SubscribeFlow, SubscribeError>(SubscribeError::ServerSideError(failure_of(f.step)))
    } else {
        r matches Ok(g) && same_attempt(f, g) && step_follows(f, g.step)
    }
}

/// How a subscription attempt starts: a form that fails validation ends it
/// with that validation error, a valid one leads to beginning a transaction.
pub open spec fn subscribe_starts(
    form: FormData,
    base_url: String,
    r: Result<SubscribeFlow, SubscribeError>,
) -> bool {
    &&& r is Ok <==> form_is_valid(form.name@, form.email@)
    &&& r matches Err(e) ==> e == SubscribeError::ValidationError(
        form_error(form.name@, form.email@),
    )
    &&& r matches Ok(f) ==> f.subscriber@ == (form.email@, form.name@) && f.base_url@ == base_url@
        && f.step is BeginTransaction
}

/// Starts a subscription attempt for a submitted form: a form that fails
/// validation ends it at once with that validation error.
pub fn subscribe(form: FormData, base_url: String) -> (r: Result<SubscribeFlow, SubscribeError>)
    ensures
        subscribe_starts(form, base_url, r),
{
    match parse_subscriber(form) {
        Ok(subscriber) => Ok(SubscribeFlow { subscriber, base_url, step: SubscribeStep::BeginTransaction }),
        Err(e) => Err(SubscribeError::ValidationError(e)),
    }
}

impl SubscribeFlow {
    /// The work to perform for the current step.
    pub fn next_action(&self) -> (r: SubscribeAction)
        ensures
            match self.step {
                SubscribeStep::BeginTransaction => r is BeginTransaction,
                SubscribeStep::InsertSubscriber(rec) => r matches SubscribeAction::InsertSubscriber(
                    a,
                ) && a@ == rec@,
                SubscribeStep::StoreToken { subscriber_id, token } => r matches SubscribeAction::StoreToken {
                    subscriber_id: i,
                    token: t,
                } && i == subscriber_id && t@ == token@,
                SubscribeStep::Commit { .. } => r is Commit,
                SubscribeStep::SendConfirmationEmail { token } => r matches SubscribeAction::SendConfirmationEmail(
                    e,
                ) && e.recipient@ == self.subscriber.email@ && e.subject@ == "Welcome!"@
                    && e.html_body@ == confirmation_html(confirmation_link(self.base_url@, token@))
                    && e.text_body@ == confirmation_text(confirmation_link(self.base_url@, token@)),
                SubscribeStep::Accepted => r is Done,
            },
    {
        match &self.step {
            SubscribeStep::BeginTransaction => SubscribeAction::BeginTransaction,
            SubscribeStep::InsertSubscriber(rec) => SubscribeAction::InsertSubscriber(rec.clone()),
            SubscribeStep::StoreToken { subscriber_id, token } => SubscribeAction::StoreToken {
                subscriber_id: *subscriber_id,
                token: token.clone(),
            },
            SubscribeStep::Commit { .. } => SubscribeAction::Commit,
            SubscribeStep::SendConfirmationEmail { token } => SubscribeAction::SendConfirmationEmail(
                confirmation_email(&self.subscriber, self.base_url.as_str(), token.as_str()),
            ),
            SubscribeStep::Accepted => SubscribeAction::Done,
        }
    }

    /// Moves the attempt on by the outcome of its current step.
    pub fn advance(self, outcome: StepOutcome) -> (r: Result<SubscribeFlow, SubscribeError>)
        ensures
            advances_to(self, outcome, r),
    {
        let failed = matches!(outcome, StepOutcome::Failed);
        let SubscribeFlow { subscriber, base_url, step } = self;
        match step {
            SubscribeStep::BeginTransaction => {
                if failed {
                    return Err(SubscribeError::ServerSideError(ServerSideFailure::AcquireTransaction));
                }
                let rec = new_pending_record(&subscriber);
                Ok(SubscribeFlow { subscriber, base_url, step: SubscribeStep::InsertSubscriber(rec) })
            },
            SubscribeStep::InsertSubscriber(rec) => {
                if failed {
                    return Err(SubscribeError::ServerSideError(ServerSideFailure::InsertSubscriber));
                }
                let token = generate_subscription_token();
                Ok(SubscribeFlow {
                    subscriber,
                    base_url,
                    step: SubscribeStep::StoreToken { subscriber_id: rec.id, token },
                })
            },
            SubscribeStep::StoreToken { subscriber_id, token } => {
                if failed {
                    return Err(SubscribeError::ServerSideError(ServerSideFailure::StoreToken));
                }
                Ok(SubscribeFlow { subscriber, base_url, step: SubscribeStep::Commit { token } })
            },
            SubscribeStep::Commit { token } => {
                if failed {
                    return Err(SubscribeError::ServerSideError(ServerSideFailure::Commit));
                }
                Ok(SubscribeFlow {
                    subscriber,
                    base_url,
                    step: SubscribeStep::SendConfirmationEmail { token },
                })
            },
            SubscribeStep::SendConfirmationEmail { token } => {
                if failed {
                    return Err(
                        SubscribeError::ServerSideError(ServerSideFailure::SendConfirmationEmail),
                    );
                }
                Ok(SubscribeFlow { subscriber, base_url, step: SubscribeStep::Accepted })
            },
            SubscribeStep::Accepted => Ok(SubscribeFlow { subscriber, base_url, step: SubscribeStep::Accepted }),
        }
    }
}

/// Once a form has passed validation, a failure of any later step (the store
/// or the email sender) ends the attempt with a server error, never with a
/// caller error.
pub proof fn lemma_failures_after_validation_are_server_errors(
    f: SubscribeFlow,
    r: Result<SubscribeFlow, SubscribeError>,
)
    requires
        !(f.step is Accepted),
        advances_to(f, StepOutcome::Failed, r),
    ensures
        r matches Err(e) && e is ServerSideError && subscribe_error_status(e) == 500,
{
}

/// A submission is answered with a caller error exactly when its form fails
/// validation.
pub proof fn lemma_caller_error_iff_invalid_form(
    form: FormData,
    base_url: String,
    r: Result<SubscribeFlow, SubscribeError>,
)
    requires
        subscribe_starts(form, base_url, r),
    ensures
        (r matches Err(e) && subscribe_error_status(e) == 400) <==> !form_is_valid(
            form.name@,
            form.email@,
        ),
{
}

/// An attempt whose steps all succeed goes through every step once, in
/// order: one pending row inserted, one token stored, one commit, one
/// confirmation email; it is accepted after the fifth step, for the same
/// subscriber.
pub proof fn lemma_successful_attempt(
    f0: SubscribeFlow,
    f1: SubscribeFlow,
    f2: SubscribeFlow,
    f3: SubscribeFlow,
    f4: SubscribeFlow,
    f5: SubscribeFlow,
)
    requires
        f0.step is BeginTransaction,
        advances_to(f0, StepOutcome::Succeeded, Ok(f1)),
        advances_to(f1, StepOutcome::Succeeded, Ok(f2)),
        advances_to(f2, StepOutcome::Succeeded, Ok(f3)),
        advances_to(f3, StepOutcome::Succeeded, Ok(f4)),
        advances_to(f4, StepOutcome::Succeeded, Ok(f5)),
    ensures
        f1.step is InsertSubscriber,
        f2.step is StoreToken,
        f3.step is Commit,
        f4.step is SendConfirmationEmail,
        f5.step is Accepted,
        same_attempt(f0, f5),
{
}

/// The lines that report each cause of an error, outermost first.
pub open spec fn causes_text(causes: Seq<Seq<char>>) -> Seq<char>
    decreases causes.len(),
{
    if causes.len() == 0 {
        Seq::empty()
    } else {
        causes_text(causes.drop_last()) + "caused by:\n\t"@ + causes.last() + "\n"@
    }
}

/// An error's message, a blank line, then one entry for each of its causes.
pub open spec fn error_chain_text(error: Seq<char>, causes: Seq<Seq<char>>) -> Seq<char> {
    error + "\n\n"@ + causes_text(causes)
}

/// Renders an error with the chain of its causes.
pub fn error_chain_fmt(error: &str, causes: &Vec<String>) -> (r: String)
    ensures
        r@ == error_chain_text(error@, causes.deep_view()),
{
    let mut out = String::from_str(error);
    out.append("\n\n");
    let mut i: usize = 0;
    while i < causes.len()
        invariant
            i <= causes.len(),
            out@ == error_chain_text(error@, causes.deep_view().subrange(0, i as int)),
        decreases causes.len() - i,
    {
        proof {
            let all = causes.deep_view();
            assert(all.subrange(0, i + 1).drop_last() =~= all.subrange(0, i as int));
            assert(all.subrange(0, i + 1).last() == causes[i as int]@);
        }
        out.append("caused by:\n\t");
        out.append(causes[i].as_str());
        out.append("\n");
        i = i + 1;
    }
    proof {
        assert(causes.deep_view().subrange(0, causes.len() as int) =~= causes.deep_view());
    }
    out
}

} // verus!
