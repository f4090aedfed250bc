//! The check-in session: status, then reward catalog, then submission, as a
//! state machine whose caller performs each request and hands back the response.
use vstd::prelude::*;
use crate::api::{ApiResponse, ApiResponseError, Award, AwardList, SigninInfo, SigninResult};

verus! {

/// How a check-in session can fail.
#[derive(Debug)]
pub enum SignInError {
    /// A request could not be sent or its response not read.
    ReqwestError(reqwest::Error),
    /// The credential is not usable as a header value.
    CookieError(reqwest::header::InvalidHeaderValue),
    /// The provider reported a failure, with its message.
    ApiError(String),
    /// The provider reported success but sent no payload.
    MalformedResponse,
    /// The user has already checked in today.
    AlreadySigned,
}

impl From<ApiResponseError> for SignInError {
    fn from(api_error: ApiResponseError) -> (r: SignInError) {
        match api_error {
            ApiResponseError::Malformed => SignInError::MalformedResponse,
            ApiResponseError::Provider(message) => SignInError::ApiError(message),
        }
    }
}

impl vstd::std_specs::convert::FromSpecImpl<ApiResponseError> for SignInError {
    open spec fn obeys_from_spec() -> bool {
        true
    }

    open spec fn from_spec(api_error: ApiResponseError) -> SignInError {
        match api_error {
            ApiResponseError::Malformed => SignInError::MalformedResponse,
            ApiResponseError::Provider(message) => SignInError::ApiError(message),
        }
    }
}

/// The Referer header sent with every check-in request.
pub const REFERER: &'static str = "https://webstatic-sea.mihoyo.com/";

/// The locale used when none is configured.
pub const DEFAULT_LANG: &'static str = "en-us";

/// The address of one check-in endpoint.
pub open spec fn page_url_spec(action: Seq<char>, lang: Seq<char>, act_id: Seq<char>) -> Seq<char> {
    "https://hk4e-api-os.mihoyo.com/event/sol/"@ + action + "?lang="@ + lang + "&act_id="@ + act_id
}

/// The locale that a configured one, or its absence, stands for.
pub open spec fn lang_or_default(lang: Option<&str>) -> Seq<char> {
    match lang {
        Some(l) => l@,
        None => DEFAULT_LANG@,
    }
}

/// Builds the address of the endpoint `action` for the campaign `act_id`.
pub fn get_page_url(action: &str, act_id: &str, lang: Option<&str>) -> (r: String)
    ensures
        r@ == page_url_spec(action@, lang_or_default(lang), act_id@),
{
    let mut url = String::from_str("https://hk4e-api-os.mihoyo.com/event/sol/");
    url.append(action);
    url.append("?lang=");
    match lang {
        Some(l) => url.append(l),
        None => url.append(DEFAULT_LANG),
    }
    url.append("&act_id=");
    url.append(act_id);
    url
}

/// A character that may stand in a header value.
pub open spec fn is_header_char(c: char) -> bool {
    c == '\t' || (c >= ' ' && c != '\x7f')
}

/// Relies on `HeaderValue::from_str`, which accepts a string exactly when each
/// of its bytes is a tab or at least 32 and not 127 (every byte of a non-ASCII
/// character is at least 128).
#[verifier::external_body]
fn header_value(s: &str) -> (r: Result<reqwest::header::HeaderValue, reqwest::header::InvalidHeaderValue>)
    ensures
        r is Ok <==> forall|i: int| 0 <= i < s@.len() ==> is_header_char(#[trigger] s@[i]),
{
    reqwest::header::HeaderValue::from_str(s)
}

/// Turns the credential into the value of the session's cookie header.
pub fn cookie_header(cookie: &str) -> (r: Result<reqwest::header::HeaderValue, SignInError>)
    ensures
        r is Ok <==> forall|i: int| 0 <= i < cookie@.len() ==> is_header_char(#[trigger] cookie@[i]),
        r is Err ==> r matches Err(SignInError::CookieError(_)),
{
    match header_value(cookie) {
        Ok(v) => Ok(v),
        Err(e) => Err(SignInError::CookieError(e)),
    }
}

/// The endpoints of a session, in the order they are called.
#[derive(Debug, Clone, Copy, PartialEq, Eq, Structural)]
pub enum Page {
    Info,
    Home,
    Sign,
}

pub open spec fn page_action(p: Page) -> Seq<char> {
    match p {
        Page::Info => "info"@,
        Page::Home => "home"@,
        Page::Sign => "sign"@,
    }
}

impl Page {
    /// The path segment of the endpoint.
    pub fn action(&self) -> (r: &'static str)
        ensures
            r@ == page_action(*self),
    {
        match self {
            Page::Info => "info",
            Page::Home => "home",
            Page::Sign => "sign",
        }
    }
}

/// Where a session stands.
#[derive(Debug)]
pub enum SigninStep {
    /// Waiting for the status.
    AwaitInfo,
    /// Waiting for the reward catalog.
    AwaitAwards { info: SigninInfo },
    /// Waiting for the provider to confirm the check-in.
    AwaitSign { info: SigninInfo, awards: AwardList },
    /// Finished; nothing more is requested.
    Done,
}

/// What the caller hands back after performing a request.
#[derive(Debug)]
pub enum SigninEvent {
    Info(ApiResponse<SigninInfo>),
    Awards(ApiResponse<AwardList>),
    Signed(ApiResponse<SigninResult>),
    /// The request could not be performed.
    Failed(SignInError),
}

/// What the caller is to do next.
#[derive(Debug)]
pub enum SigninAction {
    /// Request this endpoint and hand back its response.
    Fetch(Page),
    /// The session is over, with this outcome.
    Finish(Result<Option<Award>, SignInError>),
}

/// The prize of the zero-based `day`, where the catalog has one.
pub open spec fn reward_for_day(awards: Seq<Award>, day: int) -> Option<Award> {
    if 0 <= day < awards.len() {
        Some(awards[day])
    } else {
        None
    }
}

/// A failed envelope, as the session's error.
pub open spec fn envelope_error(e: ApiResponseError) -> SignInError {
    match e {
        ApiResponseError::Malformed => SignInError::MalformedResponse,
        ApiResponseError::Provider(message) => SignInError::ApiError(message),
    }
}

pub open spec fn finish(r: Result<Option<Award>, SignInError>) -> (SigninStep, SigninAction) {
    (SigninStep::Done, SigninAction::Finish(r))
}

impl SigninStep {
    /// Opens a session: the status comes first.
    pub fn start() -> (r: (SigninStep, SigninAction))
        ensures
            r.0 is AwaitInfo,
            r.1 == SigninAction::Fetch(Page::Info),
    {
        (SigninStep::AwaitInfo, SigninAction::Fetch(Page::Info))
    }

    /// The event answers the request that this step awaits.
    pub open spec fn accepts(self, event: SigninEvent) -> bool {
        match (self, event) {
            (SigninStep::Done, _) => false,
            (_, SigninEvent::Failed(_)) => true,
            (SigninStep::AwaitInfo, SigninEvent::Info(_)) => true,
            (SigninStep::AwaitAwards { .. }, SigninEvent::Awards(_)) => true,
            (SigninStep::AwaitSign { .. }, SigninEvent::Signed(_)) => true,
            _ => false,
        }
    }

    /// Whether the event answers the request that this step awaits.
    pub fn is_answered_by(&self, event: &SigninEvent) -> (r: bool)
        ensures
            r == self.accepts(*event),
    {
        match (self, event) {
            (SigninStep::Done, _) => false,
            (_, SigninEvent::Failed(_)) => true,
            (SigninStep::AwaitInfo, SigninEvent::Info(_)) => true,
            (SigninStep::AwaitAwards { .. }, SigninEvent::Awards(_)) => true,
            (SigninStep::AwaitSign { .. }, SigninEvent::Signed(_)) => true,
            _ => false,
        }
    }

    /// The session's transitions: a failure ends it with that failure; a
    /// status that says "already signed" ends it before anything else is
    /// requested; a confirmed submission ends it with the catalog's prize for
    /// the status's day of the month, or with none where the catalog is short.
    pub open spec fn step_spec(self, event: SigninEvent) -> (SigninStep, SigninAction) {
        match (self, event) {
            (_, SigninEvent::Failed(e)) => finish(Err(e)),
            (SigninStep::AwaitInfo, SigninEvent::Info(resp)) => match resp.extract_spec() {
                Err(e) => finish(Err(envelope_error(e))),
                Ok(info) => if info.is_sign {
                    finish(Err(SignInError::AlreadySigned))
                } else {
                    (SigninStep::AwaitAwards { info }, SigninAction::Fetch(Page::Home))
                },
            },
            (SigninStep::AwaitAwards { info }, SigninEvent::Awards(resp)) => match resp.extract_spec() {
                Err(e) => finish(Err(envelope_error(e))),
                Ok(awards) => (SigninStep::AwaitSign { info, awards }, SigninAction::Fetch(Page::Sign)),
            },
            (SigninStep::AwaitSign { info, awards }, SigninEvent::Signed(resp)) => match resp.extract_spec() {
                Err(e) => finish(Err(envelope_error(e))),
                Ok(_) => finish(Ok(reward_for_day(awards.awards@, info.today.day0_spec() as int))),
            },
            _ => (self, SigninAction::Finish(Err(SignInError::MalformedResponse))),
        }
    }

    /// Takes the response to the awaited request and says what comes next.
    pub fn step(self, event: SigninEvent) -> (r: (SigninStep, SigninAction))
        requires
            self.accepts(event),
        ensures
            r == self.step_spec(event),
    {
        match (self, event) {
            (_, SigninEvent::Failed(e)) => (SigninStep::Done, SigninAction::Finish(Err(e))),
            (SigninStep::AwaitInfo, SigninEvent::Info(resp)) => match resp.extract() {
                Err(e) => (SigninStep::Done, SigninAction::Finish(Err(SignInError::from(e)))),
                Ok(info) => if info.is_sign {
                    (SigninStep::Done, SigninAction::Finish(Err(SignInError::AlreadySigned)))
                } else {
                    (SigninStep::AwaitAwards { info }, SigninAction::Fetch(Page::Home))
                },
            },
            (SigninStep::AwaitAwards { info }, SigninEvent::Awards(resp)) => match resp.extract() {
                Err(e) => (SigninStep::Done, SigninAction::Finish(Err(SignInError::from(e)))),
                Ok(awards) => (SigninStep::AwaitSign { info, awards }, SigninAction::Fetch(Page::Sign)),
            },
            (SigninStep::AwaitSign { info, awards }, SigninEvent::Signed(resp)) => match resp.extract() {
                Err(e) => (SigninStep::Done, SigninAction::Finish(Err(SignInError::from(e)))),
                Ok(_) => {
                    let day = info.today.day0() as usize;
                    let mut list = awards.awards;
                    let reward = if day < list.len() {
                        Some(list.swap_remove(day))
                    } else {
                        None
                    };
                    (SigninStep::Done, SigninAction::Finish(Ok(reward)))
                },
            },
            (state, _) => {
                assert(false);
                (state, SigninAction::Finish(Err(SignInError::MalformedResponse)))
            },
        }
    }
}

/// A status that says the user already checked in ends the session with
/// `AlreadySigned`, and a finished session awaits no further request: neither
/// the catalog nor the submission is asked for.
pub proof fn lemma_already_signed_ends(resp: ApiResponse<SigninInfo>)
    requires
        resp.retcode == 0,
        resp.data matches Some(info) && info.is_sign,
    ensures
        SigninStep::AwaitInfo.step_spec(SigninEvent::Info(resp)) == finish(Err(SignInError::AlreadySigned)),
        forall|e: SigninEvent| !SigninStep::Done.accepts(e),
{
}

/// A session whose three requests all succeed, for a user not yet checked in,
/// fetches the catalog, then submits, then reports the catalog's entry at the
/// status's zero-based day; where the catalog is too short it succeeds with
/// no reward.
pub proof fn lemma_reward_is_day_entry(
    info_resp: ApiResponse<SigninInfo>,
    awards_resp: ApiResponse<AwardList>,
    sign_resp: ApiResponse<SigninResult>,
)
    requires
        info_resp.retcode == 0,
        info_resp.data matches Some(info) && !info.is_sign,
        awards_resp.retcode == 0,
        awards_resp.data is Some,
        sign_resp.retcode == 0,
        sign_resp.data is Some,
    ensures
        ({
            let d = info_resp.data->0.today.day0_spec() as int;
            let awards = awards_resp.data->0.awards@;
            let s1 = SigninStep::AwaitInfo.step_spec(SigninEvent::Info(info_resp));
            let s2 = s1.0.step_spec(SigninEvent::Awards(awards_resp));
            let s3 = s2.0.step_spec(SigninEvent::Signed(sign_resp));
            &&& s1.1 == SigninAction::Fetch(Page::Home)
            &&& s1.0.accepts(SigninEvent::Awards(awards_resp))
            &&& s2.1 == SigninAction::Fetch(Page::Sign)
            &&& s2.0.accepts(SigninEvent::Signed(sign_resp))
            &&& (d < awards.len() ==> s3.1 == SigninAction::Finish(Ok(Some(awards[d]))))
            &&& (awards.len() <= d ==> s3.1 == SigninAction::Finish(Ok(None)))
        }),
{
}

} // verus!
