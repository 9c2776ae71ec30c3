use vstd::prelude::*;

verus! {

/// The query parameters of a confirmation link.
pub struct Parameters {
    pub subscription_token: Option<String>,
}

/// How a visit of a confirmation link can fail.
#[derive(Clone, Copy, Debug, PartialEq, Eq, Structural)]
pub enum ConfirmError {
    /// The token is missing, empty or unknown.
    BadRequest,
    /// The store failed.
    ServerSideError,
}

pub open spec fn confirm_error_status(e: ConfirmError) -> u16 {
    match e {
        ConfirmError::BadRequest => 400,
        ConfirmError::ServerSideError => 500,
    }
}

impl ConfirmError {
    pub fn status_code(&self) -> (r: u16)
        ensures
            r == confirm_error_status(*self),
    {
        match self {
            ConfirmError::BadRequest => 400,
            ConfirmError::ServerSideError => 500,
        }
    }
}

/// Where a visit of a confirmation link stands.
pub enum ConfirmStep {
    LookupToken(String),
    ConfirmSubscriber(u128),
    Confirmed,
}

/// What the store answered to the last action.
#[derive(Clone, Copy, Debug, PartialEq, Eq, Structural)]
pub enum ConfirmEvent {
    /// The subscriber the token belongs to, if the token is known.
    Found(Option<u128>),
    /// The subscriber's status was set to confirmed.
    Updated,
    Failed,
}

/// The work the caller performs next for a visit.
pub enum ConfirmAction {
    LookupToken(String),
    ConfirmSubscriber(u128),
    Done,
}

/// A visit of a confirmation link that carries a token.
pub struct ConfirmFlow {
    pub step: ConfirmStep,
}

/// How a visit starts: a missing or empty token is a bad request, any other
/// token is looked up.
pub open spec fn confirm_starts(p: Parameters, r: Result<ConfirmFlow, ConfirmError>) -> bool {
    match p.subscription_token {
        None => r == Err::<ConfirmFlow, ConfirmError>(ConfirmError::BadRequest),
        Some(t) => if t@.len() == 0 {
            r == Err::<ConfirmFlow, ConfirmError>(ConfirmError::BadRequest)
        } else {
            r matches Ok(f) && f.step matches ConfirmStep::LookupToken(u) && u@ == t@
        },
    }
}

/// Starts a visit: a missing or empty token is a bad request.
pub fn confirm(parameters: Parameters) -> (r: Result<ConfirmFlow, ConfirmError>)
    ensures
        confirm_starts(parameters, r),
{
    match parameters.subscription_token {
        None => Err(ConfirmError::BadRequest),
        Some(t) => {
            if t.as_str().unicode_len() == 0 {
                Err(ConfirmError::BadRequest)
            } else {
                Ok(ConfirmFlow { step: ConfirmStep::LookupToken(t) })
            }
        },
    }
}

/// One step of a visit: a known token leads to confirming its subscriber, an
/// unknown one is a bad request, a failure of the store is a server error.
pub open spec fn confirm_advances_to(
    f: ConfirmFlow,
    e: ConfirmEvent,
    r: Result<ConfirmFlow, ConfirmError>,
) -> bool {
    match f.step {
        ConfirmStep::LookupToken(_) => match e {
            ConfirmEvent::Found(Some(id)) => r matches Ok(g) && g.step == ConfirmStep::ConfirmSubscriber(id),
            ConfirmEvent::Found(None) => r == Err::<ConfirmFlow, ConfirmError>(ConfirmError::BadRequest),
            _ => r == Err::<ConfirmFlow, ConfirmError>(ConfirmError::ServerSideError),
        },
        ConfirmStep::ConfirmSubscriber(_) => match e {
            ConfirmEvent::Updated => r matches Ok(g) && g.step is Confirmed,
            _ => r == Err::<ConfirmFlow, ConfirmError>(ConfirmError::ServerSideError),
        },
        ConfirmStep::Confirmed => r matches Ok(g) && g.step is Confirmed,
    }
}

impl ConfirmFlow {
    pub fn next_action(&self) -> (r: ConfirmAction)
        ensures
            match self.step {
                ConfirmStep::LookupToken(t) => r matches ConfirmAction::LookupToken(u) && u@ == t@,
                ConfirmStep::ConfirmSubscriber(id) => r == ConfirmAction::ConfirmSubscriber(id),
                ConfirmStep::Confirmed => r is Done,
            },
    {
        match &self.step {
            ConfirmStep::LookupToken(t) => ConfirmAction::LookupToken(t.clone()),
            ConfirmStep::ConfirmSubscriber(id) => ConfirmAction::ConfirmSubscriber(*id),
            ConfirmStep::Confirmed => ConfirmAction::Done,
        }
    }

    pub fn advance(self, event: ConfirmEvent) -> (r: Result<ConfirmFlow, ConfirmError>)
        ensures
            confirm_advances_to(self, event, r),
    {
        match self.step {
            ConfirmStep::LookupToken(_) => match event {
                ConfirmEvent::Found(Some(id)) => Ok(ConfirmFlow { step: ConfirmStep::ConfirmSubscriber(id) }),
                ConfirmEvent::Found(None) => Err(ConfirmError::BadRequest),
                _ => Err(ConfirmError::ServerSideError),
            },
            ConfirmStep::ConfirmSubscriber(_) => match event {
                ConfirmEvent::Updated => Ok(ConfirmFlow { step: ConfirmStep::Confirmed }),
                _ => Err(ConfirmError::ServerSideError),
            },
            ConfirmStep::Confirmed => Ok(ConfirmFlow { step: ConfirmStep::Confirmed }),
        }
    }
}

/// A visit with a token that the store knows, and whose status update the
/// store accepts, ends confirmed. Nothing in it reads the subscriber's status,
/// so a second visit of the same link ends the same way as the first.
pub proof fn lemma_known_token_confirms(
    t: String,
    id: u128,
    f0: ConfirmFlow,
    f1: ConfirmFlow,
    f2: ConfirmFlow,
)
    requires
        t@.len() > 0,
        f0.step matches ConfirmStep::LookupToken(u) && u@ == t@,
        confirm_advances_to(f0, ConfirmEvent::Found(Some(id)), Ok(f1)),
        confirm_advances_to(f1, ConfirmEvent::Updated, Ok(f2)),
    ensures
        f1.step == ConfirmStep::ConfirmSubscriber(id),
        f2.step is Confirmed,
{
}

/// A visit without a token, or with an empty one, is answered with a
/// caller error.
pub proof fn lemma_missing_token_is_bad_request(p: Parameters, r: Result<ConfirmFlow, ConfirmError>)
    requires
        p.subscription_token is None || (p.subscription_token matches Some(t) && t@.len() == 0),
        confirm_starts(p, r),
    ensures
        r matches Err(e) && confirm_error_status(e) == 400,
{
}

} // verus!
