//! Signing in to Simkl from a device: a code is shown to the user, and Simkl
//! is polled until the user has approved it.
//!
//! The OAuth 2.0 device flow is tried first. Applications that Simkl does not
//! know under OAuth 2.0 fall back to the older PIN flow.

use std::collections::HashMap;

use vstd::prelude::*;
use vstd::string::*;

use crate::http::{
    pair, pairs, status_line, url_encode, url_encoded, Body, BodyView, Method, Reply, Request,
    RequestView, Status,
};
use crate::json::{json_of_text, opt_text, parse_text, string_field, text_field};
use crate::media::SimklService;
use crate::scrobble::{scrobble_skip, SIMKL_API_BASE};
use crate::settings::{default_user_config, SimklUserConfig, UserConfigView};
use crate::simkl::{
    copy_text, SimklDeviceCodeResponse, SimklPinPollResponse, SimklTokenErrorResponse,
    SimklTokenResponse,
};
use crate::text::{
    clean_credential, cleaned, contains_text, has_infix, lowercase, same_ignoring_ascii_case,
    text_eq, trimmed,
};
use crate::time::{is_within, within_secs, Moment, NANOS_PER_SEC};

verus! {

broadcast use vstd::std_specs::hash::group_hash_axioms;

/// A sign-in that waits for the approval of the user.
#[derive(Debug)]
pub struct PendingDeviceAuth {
    pub device_code: Option<String>,
    pub user_code: String,
    pub verification_uri: String,
    pub verification_uri_complete: Option<String>,
    /// When the code expires, in nanoseconds on the clock.
    pub expires_at: u128,
    /// The least number of seconds between two polls.
    pub interval: u64,
    pub last_polled_at: Option<Moment>,
}

/// The content of a waiting sign-in.
pub struct PendingView {
    pub device_code: Option<Seq<char>>,
    pub user_code: Seq<char>,
    pub verification_uri: Seq<char>,
    pub verification_uri_complete: Option<Seq<char>>,
    pub expires_at: u128,
    pub interval: u64,
    pub last_polled_at: Option<Moment>,
}

impl View for PendingDeviceAuth {
    type V = PendingView;

    open spec fn view(&self) -> PendingView {
        PendingView {
            device_code: opt_text(self.device_code),
            user_code: self.user_code@,
            verification_uri: self.verification_uri@,
            verification_uri_complete: opt_text(self.verification_uri_complete),
            expires_at: self.expires_at,
            interval: self.interval,
            last_polled_at: self.last_polled_at,
        }
    }
}

impl Clone for PendingDeviceAuth {
    fn clone(&self) -> (r: Self)
        ensures
            r == *self,
    {
        PendingDeviceAuth {
            device_code: copy_text(&self.device_code),
            user_code: self.user_code.clone(),
            verification_uri: self.verification_uri.clone(),
            verification_uri_complete: copy_text(&self.verification_uri_complete),
            expires_at: self.expires_at,
            interval: self.interval,
            last_polled_at: self.last_polled_at,
        }
    }
}

/// The content of an offer to sign in.
pub struct DeviceCodeView {
    pub device_code: Option<Seq<char>>,
    pub user_code: Seq<char>,
    pub verification_uri: Seq<char>,
    pub verification_uri_complete: Option<Seq<char>>,
    pub expires_in: u64,
    pub interval: u64,
}

impl View for SimklDeviceCodeResponse {
    type V = DeviceCodeView;

    open spec fn view(&self) -> DeviceCodeView {
        DeviceCodeView {
            device_code: opt_text(self.device_code),
            user_code: self.user_code@,
            verification_uri: self.verification_uri@,
            verification_uri_complete: opt_text(self.verification_uri_complete),
            expires_in: self.expires_in,
            interval: self.interval,
        }
    }
}

/// What a poll tells the user interface.
#[derive(Clone, Debug, PartialEq)]
pub struct SimklPollResultDto {
    pub status: String,
    pub message: Option<String>,
}

/// The content of the result of a poll.
pub struct PollResultView {
    pub status: Seq<char>,
    pub message: Option<Seq<char>>,
}

impl View for SimklPollResultDto {
    type V = PollResultView;

    open spec fn view(&self) -> PollResultView {
        PollResultView { status: self.status@, message: opt_text(self.message) }
    }
}

// Starting a sign-in.

/// A sign-in that waits for the answer to its first request.
#[derive(Debug)]
pub struct DeviceStart {
    client_id: String,
    redirect: Option<String>,
}

impl DeviceStart {
    /// The cleaned client identifier.
    pub closed spec fn spec_client_id(self) -> Seq<char> {
        self.client_id@
    }

    /// The address to return to after a sign-in by PIN.
    pub closed spec fn spec_redirect(self) -> Option<Seq<char>> {
        opt_text(self.redirect)
    }
}

/// What starting a sign-in does next.
#[derive(Debug)]
pub enum StartStep {
    /// Ask again, by the PIN flow.
    AskForPin(Request),
    /// The offer to show to the user.
    Offer(SimklDeviceCodeResponse),
    /// Give up, with this message.
    Fail(String),
}

/// The content of a step.
pub enum StartStepView {
    AskForPin(RequestView),
    Offer(DeviceCodeView),
    Fail(Seq<char>),
}

impl View for StartStep {
    type V = StartStepView;

    open spec fn view(&self) -> StartStepView {
        match self {
            StartStep::AskForPin(request) => StartStepView::AskForPin(request@),
            StartStep::Offer(offer) => StartStepView::Offer(offer@),
            StartStep::Fail(message) => StartStepView::Fail(message@),
        }
    }
}

/// The message for a missing client identifier.
pub open spec fn no_client_id_message() -> Seq<char> {
    "Simkl Client ID is empty. Please configure your Client ID in Settings > Simkl."@
}

/// The request for a device code of the OAuth 2.0 flow.
pub open spec fn device_code_request(client_id: Seq<char>) -> RequestView {
    RequestView {
        method: Method::POST,
        url: SIMKL_API_BASE@ + "/oauth2/device"@,
        headers: seq![("User-Agent"@, "remux-server/1.0"@), ("Accept"@, "application/json"@)],
        body: BodyView::Form(
            seq![("client_id"@, client_id), ("scope"@, "media:read media:write"@)],
        ),
    }
}

/// The address that a PIN is asked from. A redirect counts unless it is blank.
pub open spec fn pin_url(client_id: Seq<char>, redirect: Option<Seq<char>>) -> Seq<char> {
    let url = SIMKL_API_BASE@ + "/oauth/pin?client_id="@ + client_id;
    match redirect {
        Some(r) => if trimmed(r).len() > 0 {
            url + "&redirect="@ + url_encoded(trimmed(r))
        } else {
            url
        },
        None => url,
    }
}

/// A request of the PIN flow.
pub open spec fn pin_request(url: Seq<char>, client_id: Seq<char>) -> RequestView {
    RequestView {
        method: Method::GET,
        url,
        headers: seq![("simkl-api-key"@, client_id), ("Accept"@, "application/json"@)],
        body: BodyView::Empty,
    }
}

/// The reply that an application not known under OAuth 2.0 gets.
pub open spec fn wants_pin_flow(status: Status, body: Seq<char>) -> bool {
    status.spec_code() == 401 && (has_infix(body, "not enabled for OAuth 2.0"@) || has_infix(
        body,
        "invalid_client"@,
    ))
}

/// The message for a refused sign-in: the reason that Simkl gives, or the
/// reply as it came.
pub open spec fn refusal(reason: Option<Seq<char>>, status: Status, body: Seq<char>) -> Seq<char> {
    match reason {
        Some(text) => "Simkl API: "@ + text,
        None => "Simkl device authorization failed ("@ + status_line(status.spec_code()) + "): "@
            + body,
    }
}

/// The reason that a refusal in the OAuth 2.0 flow gives.
pub open spec fn device_refusal_reason(body: Seq<char>) -> Option<Seq<char>> {
    match json_of_text(body) {
        Some(v) => match text_field(v, "error_description"@) {
            Some(text) => Some(text),
            None => text_field(v, "message"@),
        },
        None => None,
    }
}

/// The reason that a refusal in the PIN flow gives.
pub open spec fn pin_refusal_reason(body: Seq<char>) -> Option<Seq<char>> {
    match json_of_text(body) {
        Some(v) => text_field(v, "message"@),
        None => None,
    }
}

/// The content of an optional offer.
pub open spec fn opt_offer(offer: Option<SimklDeviceCodeResponse>) -> Option<DeviceCodeView> {
    match offer {
        Some(o) => Some(o@),
        None => None,
    }
}

/// What follows the reply to the request for a device code.
pub open spec fn after_device_code(
    client_id: Seq<char>,
    redirect: Option<Seq<char>>,
    reply: Reply<SimklDeviceCodeResponse>,
) -> StartStepView {
    match reply {
        Reply::Unreachable => StartStepView::Fail("Failed to connect to Simkl API"@),
        Reply::Answered { status, parsed, body } => if status.spec_success() {
            match parsed {
                Some(offer) => StartStepView::Offer(offer@),
                None => StartStepView::Fail("Failed to parse Simkl V2 device code response"@),
            }
        } else if wants_pin_flow(status, body@) {
            StartStepView::AskForPin(pin_request(pin_url(client_id, redirect), client_id))
        } else {
            StartStepView::Fail(refusal(device_refusal_reason(body@), status, body@))
        },
    }
}

/// What follows the reply to the request for a PIN.
pub open spec fn after_pin(reply: Reply<SimklDeviceCodeResponse>) -> StartStepView {
    match reply {
        Reply::Unreachable => StartStepView::Fail("Failed to connect to Simkl API"@),
        Reply::Answered { status, parsed, body } => if status.spec_success() {
            match parsed {
                Some(offer) => StartStepView::Offer(offer@),
                None => StartStepView::Fail("Failed to parse Simkl device code response"@),
            }
        } else {
            StartStepView::Fail(refusal(pin_refusal_reason(body@), status, body@))
        },
    }
}

/// An offer with its gaps filled: the page to visit, and that page with the
/// code already entered.
pub open spec fn completed(offer: DeviceCodeView) -> DeviceCodeView {
    let uri = if offer.verification_uri.len() == 0 {
        "https://simkl.com/pin"@
    } else {
        offer.verification_uri
    };
    DeviceCodeView {
        verification_uri: uri,
        verification_uri_complete: if offer.verification_uri_complete is None
            && offer.user_code.len() > 0 {
            Some(uri + "?user_code="@ + offer.user_code)
        } else {
            offer.verification_uri_complete
        },
        ..offer
    }
}

/// The larger of two numbers.
pub open spec fn at_least(n: u64, floor: u64) -> u64 {
    if n >= floor {
        n
    } else {
        floor
    }
}

/// The sign-in that an offer made at `now` begins: it lasts 30 seconds at
/// least, and is polled every 5 seconds at most.
pub open spec fn pending_of(offer: DeviceCodeView, now: Moment) -> PendingView {
    PendingView {
        device_code: offer.device_code,
        user_code: offer.user_code,
        verification_uri: offer.verification_uri,
        verification_uri_complete: offer.verification_uri_complete,
        expires_at: (now.nanos + at_least(offer.expires_in, 30) * NANOS_PER_SEC) as u128,
        interval: at_least(offer.interval, 5),
        last_polled_at: None,
    }
}

fn pin_flow_request(url: String, client_id: &str) -> (r: Request)
    ensures
        r@ == pin_request(url@, client_id@),
{
    let headers = vec![pair("simkl-api-key", client_id), pair("Accept", "application/json")];
    let request = Request { method: Method::GET, url, headers, body: Body::Empty };
    assert(request@.headers =~= seq![
        ("simkl-api-key"@, client_id@),
        ("Accept"@, "application/json"@),
    ]);
    request
}

impl SimklService {
    /// Begins a sign-in with the request for a device code. A client
    /// identifier is needed.
    pub fn start_device_auth(client_id: &str, redirect_uri: Option<&str>) -> (r: Result<
        (Request, DeviceStart),
        String,
    >)
        ensures
            match r {
                Ok((request, start)) => {
                    &&& cleaned(client_id@).len() > 0
                    &&& request@ == device_code_request(cleaned(client_id@))
                    &&& start.spec_client_id() == cleaned(client_id@)
                    &&& start.spec_redirect() == match redirect_uri {
                        Some(uri) => Some(uri@),
                        None => None,
                    }
                },
                Err(message) => cleaned(client_id@).len() == 0 && message@
                    == no_client_id_message(),
            },
    {
        let client_id = clean_credential(client_id);
        if client_id.is_empty() {
            return Err(
                "Simkl Client ID is empty. Please configure your Client ID in Settings > Simkl.".to_string(),
            );
        }
        let mut url = SIMKL_API_BASE.to_string();
        url.append("/oauth2/device");
        let headers = vec![
            pair("User-Agent", "remux-server/1.0"),
            pair("Accept", "application/json"),
        ];
        let form = vec![pair("client_id", client_id), pair("scope", "media:read media:write")];
        let request = Request { method: Method::POST, url, headers, body: Body::Form(form) };
        proof {
            assert(request@.headers =~= device_code_request(client_id@).headers);
            assert(pairs(form@) =~= seq![
                ("client_id"@, client_id@),
                ("scope"@, "media:read media:write"@),
            ]);
        }
        let redirect = match redirect_uri {
            Some(uri) => Some(uri.to_string()),
            None => None,
        };
        Ok((request, DeviceStart { client_id: client_id.to_string(), redirect }))
    }

    /// Goes on with the reply to the request for a device code.
    pub fn device_code_reply(start: DeviceStart, reply: Reply<SimklDeviceCodeResponse>) -> (r:
        StartStep)
        ensures
            r@ == after_device_code(start.spec_client_id(), start.spec_redirect(), reply),
    {
        match reply {
            Reply::Unreachable => StartStep::Fail("Failed to connect to Simkl API".to_string()),
            Reply::Answered { status, parsed, body } => {
                if status.is_success() {
                    match parsed {
                        Some(offer) => StartStep::Offer(offer),
                        None => StartStep::Fail(
                            "Failed to parse Simkl V2 device code response".to_string(),
                        ),
                    }
                } else if status.as_u16() == 401 && (contains_text(
                    body.as_str(),
                    "not enabled for OAuth 2.0",
                ) || contains_text(body.as_str(), "invalid_client")) {
                    let client_id = start.client_id.as_str();
                    let mut url = SIMKL_API_BASE.to_string();
                    url.append("/oauth/pin?client_id=");
                    url.append(client_id);
                    if let Some(redirect) = &start.redirect {
                        let redirect = redirect.as_str().trim();
                        if !redirect.is_empty() {
                            url.append("&redirect=");
                            url.append(url_encode(redirect).as_str());
                        }
                    }
                    StartStep::AskForPin(pin_flow_request(url, client_id))
                } else {
                    let reason = match parse_text(body.as_str()) {
                        Some(v) => match string_field(&v, "error_description") {
                            Some(text) => Some(text),
                            None => string_field(&v, "message"),
                        },
                        None => None,
                    };
                    StartStep::Fail(Self::refusal(reason, status, body.as_str()))
                }
            },
        }
    }

    /// Goes on with the reply to the request for a PIN.
    pub fn pin_offer_reply(reply: Reply<SimklDeviceCodeResponse>) -> (r: StartStep)
        ensures
            r@ == after_pin(reply),
    {
        match reply {
            Reply::Unreachable => StartStep::Fail("Failed to connect to Simkl API".to_string()),
            Reply::Answered { status, parsed, body } => {
                if status.is_success() {
                    match parsed {
                        Some(offer) => StartStep::Offer(offer),
                        None => StartStep::Fail(
                            "Failed to parse Simkl device code response".to_string(),
                        ),
                    }
                } else {
                    let reason = match parse_text(body.as_str()) {
                        Some(v) => string_field(&v, "message"),
                        None => None,
                    };
                    StartStep::Fail(Self::refusal(reason, status, body.as_str()))
                }
            },
        }
    }

    /// The message for a refused sign-in, given the reason found in the reply.
    pub fn refusal(reason: Option<String>, status: Status, body: &str) -> (r: String)
        ensures
            r@ == refusal(opt_text(reason), status, body@),
    {
        match reason {
            Some(text) => {
                let mut message = "Simkl API: ".to_string();
                message.append(text.as_str());
                message
            },
            None => {
                let mut message = "Simkl device authorization failed (".to_string();
                message.append(status.line().as_str());
                message.append("): ");
                message.append(body);
                message
            },
        }
    }

    /// Fills the gaps of an offer.
    pub fn complete_offer(offer: SimklDeviceCodeResponse) -> (r: SimklDeviceCodeResponse)
        ensures
            r@ == completed(offer@),
    {
        let mut offer = offer;
        if offer.verification_uri.as_str().is_empty() {
            offer.verification_uri = "https://simkl.com/pin".to_string();
        }
        if offer.verification_uri_complete.is_none() && !offer.user_code.as_str().is_empty() {
            let mut uri = offer.verification_uri.clone();
            uri.append("?user_code=");
            uri.append(offer.user_code.as_str());
            offer.verification_uri_complete = Some(uri);
        }
        offer
    }
}

// Polling.

/// The sign-ins that wait for approval, by user.
#[derive(Debug)]
pub struct DeviceAuths {
    sessions: HashMap<u128, PendingDeviceAuth>,
}

impl View for DeviceAuths {
    type V = Map<u128, PendingView>;

    closed spec fn view(&self) -> Map<u128, PendingView> {
        self.sessions@.map_values(|p: PendingDeviceAuth| p@)
    }
}

/// The sign-in that a poll is about.
#[derive(Debug)]
pub struct PollContext {
    user_id: u128,
    client_id: String,
    user_code: String,
}

impl PollContext {
    /// The user who signs in.
    pub closed spec fn spec_user(self) -> u128 {
        self.user_id
    }

    /// The cleaned client identifier.
    pub closed spec fn spec_client_id(self) -> Seq<char> {
        self.client_id@
    }

    /// The code that the user enters.
    pub closed spec fn spec_user_code(self) -> Seq<char> {
        self.user_code@
    }

    /// The same sign-in.
    pub open spec fn is_for(self, user: u128, client_id: Seq<char>, user_code: Seq<char>) -> bool {
        self.spec_user() == user && self.spec_client_id() == client_id && self.spec_user_code()
            == user_code
    }
}

/// What a poll does next.
#[derive(Debug)]
pub enum PollStep {
    /// Tell the user interface.
    Done(SimklPollResultDto),
    /// Ask for a token by the OAuth 2.0 flow.
    AskForToken(Request, PollContext),
    /// Ask for the state of the PIN.
    AskForPin(Request, PollContext),
    /// Store this access token for the user, then conclude.
    SaveToken(String, PollContext),
    /// Give up, with this message; the sign-in goes on.
    Fail(String),
}

/// The content of a step.
pub enum PollStepView {
    Done(PollResultView),
    AskForToken(RequestView),
    AskForPin(RequestView),
    SaveToken(Seq<char>),
    Fail(Seq<char>),
}

impl View for PollStep {
    type V = PollStepView;

    open spec fn view(&self) -> PollStepView {
        match self {
            PollStep::Done(result) => PollStepView::Done(result@),
            PollStep::AskForToken(request, _) => PollStepView::AskForToken(request@),
            PollStep::AskForPin(request, _) => PollStepView::AskForPin(request@),
            PollStep::SaveToken(token, _) => PollStepView::SaveToken(token@),
            PollStep::Fail(message) => PollStepView::Fail(message@),
        }
    }
}

impl PollStep {
    /// A step that is to be continued concerns the given sign-in.
    pub open spec fn continues(self, user: u128, client_id: Seq<char>, user_code: Seq<char>) -> bool {
        match self {
            PollStep::AskForToken(_, context) => context.is_for(user, client_id, user_code),
            PollStep::AskForPin(_, context) => context.is_for(user, client_id, user_code),
            PollStep::SaveToken(_, context) => context.is_for(user, client_id, user_code),
            _ => true,
        }
    }
}

/// The reply to a request for a token: a token where it was granted, and the
/// reason where it was not, as far as they could be read.
#[derive(Debug)]
pub enum TokenReply {
    Unreachable,
    Answered {
        status: Status,
        token: Option<SimklTokenResponse>,
        error: Option<SimklTokenErrorResponse>,
        body: String,
    },
}

/// The waiting sign-ins after a step, and what to do next.
pub struct Polled {
    pub sessions: Map<u128, PendingView>,
    pub step: PollStepView,
}

/// A poll that tells the user interface something.
pub open spec fn done(
    sessions: Map<u128, PendingView>,
    status: Seq<char>,
    message: Option<Seq<char>>,
) -> Polled {
    Polled { sessions, step: PollStepView::Done(PollResultView { status, message }) }
}

/// A poll that found the user still thinking.
pub open spec fn still_pending(sessions: Map<u128, PendingView>) -> Polled {
    done(sessions, "pending"@, None)
}

/// The message for a code that has expired.
pub open spec fn expired_message() -> Seq<char> {
    "Authorization code expired. Please start again."@
}

/// The request for a token by the OAuth 2.0 flow.
pub open spec fn token_request(client_id: Seq<char>, device_code: Seq<char>) -> RequestView {
    RequestView {
        method: Method::POST,
        url: SIMKL_API_BASE@ + "/oauth2/token"@,
        headers: seq![("User-Agent"@, "remux-server/1.0"@), ("Accept"@, "application/json"@)],
        body: BodyView::Form(
            seq![
                ("grant_type"@, "urn:ietf:params:oauth:grant-type:device_code"@),
                ("client_id"@, client_id),
                ("device_code"@, device_code),
            ],
        ),
    }
}

/// The request for the state of a PIN.
pub open spec fn pin_state_request(client_id: Seq<char>, user_code: Seq<char>) -> RequestView {
    pin_request(
        SIMKL_API_BASE@ + "/oauth/pin/"@ + user_code + "?client_id="@ + client_id,
        client_id,
    )
}

/// A poll at `now`: a sign-in that does not exist or has expired is reported
/// as such; one that was polled a moment ago is left alone; else Simkl is
/// asked, by the flow that the sign-in was started with.
pub open spec fn poll_begins(
    sessions: Map<u128, PendingView>,
    client_id: Seq<char>,
    user: u128,
    now: Moment,
) -> Polled {
    if !sessions.contains_key(user) {
        done(
            sessions,
            "expired"@,
            Some("No active login session found. Please start again."@),
        )
    } else {
        let p = sessions[user];
        if now.nanos >= p.expires_at {
            done(sessions.remove(user), "expired"@, Some(expired_message()))
        } else if p.last_polled_at is Some && within_secs(p.last_polled_at->0, now, p.interval) {
            still_pending(sessions)
        } else {
            Polled {
                sessions: sessions.insert(user, PendingView { last_polled_at: Some(now), ..p }),
                step: match p.device_code {
                    Some(code) => PollStepView::AskForToken(token_request(client_id, code)),
                    None => PollStepView::AskForPin(pin_state_request(client_id, p.user_code)),
                },
            }
        }
    }
}

/// The sign-in of `user` is polled 5 seconds more seldom, if it still waits.
pub open spec fn slowed_down(sessions: Map<u128, PendingView>, user: u128) -> Map<
    u128,
    PendingView,
> {
    if sessions.contains_key(user) {
        let p = sessions[user];
        sessions.insert(
            user,
            PendingView {
                interval: if p.interval <= u64::MAX - 5 {
                    (p.interval + 5) as u64
                } else {
                    u64::MAX
                },
                ..p
            },
        )
    } else {
        sessions
    }
}

/// What follows the reason for a token that was not granted.
pub open spec fn after_token_error(
    sessions: Map<u128, PendingView>,
    user: u128,
    error: Seq<char>,
    description: Option<Seq<char>>,
) -> Polled {
    if error == "authorization_pending"@ {
        still_pending(sessions)
    } else if error == "slow_down"@ {
        still_pending(slowed_down(sessions, user))
    } else if error == "expired_token"@ {
        done(sessions.remove(user), "expired"@, Some(expired_message()))
    } else {
        done(
            sessions.remove(user),
            "error"@,
            Some(
                match description {
                    Some(text) => text,
                    None => error,
                },
            ),
        )
    }
}

/// What follows the reply to a request for a token. A token that is empty
/// sends the poll on to the PIN flow.
pub open spec fn after_token(
    sessions: Map<u128, PendingView>,
    user: u128,
    client_id: Seq<char>,
    user_code: Seq<char>,
    reply: TokenReply,
) -> Polled {
    match reply {
        TokenReply::Unreachable => Polled {
            sessions,
            step: PollStepView::Fail("Failed to poll Simkl token endpoint"@),
        },
        TokenReply::Answered { status, token, error, body } => if status.spec_success() {
            Polled {
                sessions,
                step: match token {
                    Some(t) => if t.access_token@.len() > 0 {
                        PollStepView::SaveToken(t.access_token@)
                    } else {
                        PollStepView::AskForPin(pin_state_request(client_id, user_code))
                    },
                    None => PollStepView::Fail("Failed to parse Simkl token response"@),
                },
            }
        } else if status.spec_code() == 400 {
            match error {
                Some(e) => after_token_error(
                    sessions,
                    user,
                    e.error@,
                    opt_text(e.error_description),
                ),
                None => done(
                    sessions.remove(user),
                    "error"@,
                    Some("Simkl API error (400): "@ + body@),
                ),
            }
        } else {
            done(sessions.remove(user), "error"@, Some(api_error(status, body@)))
        },
    }
}

/// The message for a reply that makes no sense.
pub open spec fn api_error(status: Status, body: Seq<char>) -> Seq<char> {
    "Simkl API error ("@ + status_line(status.spec_code()) + "): "@ + body
}

/// What a message about a PIN amounts to.
#[derive(Clone, Copy, Debug, PartialEq, Eq, Structural)]
pub enum PinVerdict {
    Pending,
    SlowDown,
    Ended,
}

/// What a message about a PIN, in small letters, amounts to.
pub open spec fn verdict_of(lowered: Seq<char>) -> PinVerdict {
    if has_infix(lowered, "pending"@) {
        PinVerdict::Pending
    } else if has_infix(lowered, "slow"@) {
        PinVerdict::SlowDown
    } else {
        PinVerdict::Ended
    }
}

/// What follows a message about a PIN that was not approved.
pub open spec fn after_pin_message(
    sessions: Map<u128, PendingView>,
    user: u128,
    message: Seq<char>,
    verdict: PinVerdict,
) -> Polled {
    match verdict {
        PinVerdict::Pending => still_pending(sessions),
        PinVerdict::SlowDown => still_pending(slowed_down(sessions, user)),
        PinVerdict::Ended => done(
            sessions.remove(user),
            "expired"@,
            Some(
                if message.len() == 0 {
                    "Authorization code expired or invalid."@
                } else {
                    message
                },
            ),
        ),
    }
}

/// The text of an optional message.
pub open spec fn text_or_empty(message: Option<String>) -> Seq<char> {
    match message {
        Some(m) => m@,
        None => seq![],
    }
}

/// The PIN was approved, and a token came with it.
pub open spec fn pin_approved(state: SimklPinPollResponse) -> bool {
    same_ignoring_ascii_case(state.result@, "OK"@) && state.access_token is Some
        && state.access_token->0@.len() > 0
}

/// What follows the reply about the state of a PIN.
pub open spec fn after_pin_state(
    sessions: Map<u128, PendingView>,
    user: u128,
    reply: Reply<SimklPinPollResponse>,
) -> Polled {
    match reply {
        Reply::Unreachable => Polled {
            sessions,
            step: PollStepView::Fail("Failed to poll Simkl PIN endpoint"@),
        },
        Reply::Answered { status, parsed, body } => if status.spec_success() {
            match parsed {
                Some(state) => if pin_approved(state) {
                    Polled { sessions, step: PollStepView::SaveToken(state.access_token->0@) }
                } else {
                    let message = text_or_empty(state.message);
                    after_pin_message(sessions, user, message, verdict_of(lowercase(message)))
                },
                None => Polled {
                    sessions,
                    step: PollStepView::Fail("Failed to parse Simkl PIN poll response"@),
                },
            }
        } else if status.spec_code() == 400 || status.spec_code() == 404 {
            done(
                sessions.remove(user),
                "expired"@,
                Some(
                    "Simkl authorization error ("@ + status_line(status.spec_code()) + "): "@
                        + body@,
                ),
            )
        } else {
            done(sessions.remove(user), "error"@, Some(api_error(status, body@)))
        },
    }
}

/// What follows once the token of the user has been stored.
pub open spec fn after_saving(sessions: Map<u128, PendingView>, user: u128) -> Polled {
    done(sessions.remove(user), "success"@, Some("Connected successfully to Simkl!"@))
}

/// The settings of a user who has just signed in.
pub open spec fn signed_in(existing: Option<UserConfigView>, token: Seq<char>) -> UserConfigView {
    let base = match existing {
        Some(cfg) => cfg,
        None => default_user_config(),
    };
    UserConfigView { enabled: true, user_token: token, ..base }
}

fn result_of(status: &str, message: Option<String>) -> (r: PollStep)
    ensures
        r@ == PollStepView::Done(
            PollResultView { status: status@, message: opt_text(message) },
        ),
        r is Done,
{
    PollStep::Done(SimklPollResultDto { status: status.to_string(), message })
}

fn error_text(status: Status, body: &str) -> (r: String)
    ensures
        r@ == api_error(status, body@),
{
    let mut message = "Simkl API error (".to_string();
    message.append(status.line().as_str());
    message.append("): ");
    message.append(body);
    message
}

fn ask_for_pin_state(context: PollContext) -> (r: PollStep)
    ensures
        r@ == PollStepView::AskForPin(
            pin_state_request(context.spec_client_id(), context.spec_user_code()),
        ),
        r.continues(context.spec_user(), context.spec_client_id(), context.spec_user_code()),
{
    let mut url = SIMKL_API_BASE.to_string();
    url.append("/oauth/pin/");
    url.append(context.user_code.as_str());
    url.append("?client_id=");
    url.append(context.client_id.as_str());
    let request = pin_flow_request(url, context.client_id.as_str());
    PollStep::AskForPin(request, context)
}

impl DeviceAuths {
    /// No sign-in waits.
    pub fn new() -> (r: DeviceAuths)
        ensures
            r@ == Map::<u128, PendingView>::empty(),
    {
        let r = DeviceAuths { sessions: HashMap::new() };
        assert(r@ =~= Map::<u128, PendingView>::empty());
        r
    }

    fn put(&mut self, user_id: u128, pending: PendingDeviceAuth)
        ensures
            final(self)@ == old(self)@.insert(user_id, pending@),
    {
        self.sessions.insert(user_id, pending);
        assert(self@ =~= old(self)@.insert(user_id, pending@));
    }

    fn drop_session(&mut self, user_id: u128)
        ensures
            final(self)@ == old(self)@.remove(user_id),
    {
        self.sessions.remove(&user_id);
        assert(self@ =~= old(self)@.remove(user_id));
    }

    /// The sign-in of a user that waits.
    pub fn session(&self, user_id: u128) -> (r: Option<PendingDeviceAuth>)
        ensures
            match r {
                Some(p) => self@.contains_key(user_id) && self@[user_id] == p@,
                None => !self@.contains_key(user_id),
            },
    {
        match self.sessions.get(&user_id) {
            Some(p) => Some(p.clone()),
            None => None,
        }
    }

    fn slow_down(&mut self, user_id: u128)
        ensures
            final(self)@ == slowed_down(old(self)@, user_id),
    {
        if let Some(mut p) = self.session(user_id) {
            p.interval = p.interval.saturating_add(5);
            self.put(user_id, p);
        }
    }

    /// Notes the sign-in that an offer begins, in place of an earlier one of
    /// the same user, and hands back the offer with its gaps filled.
    pub fn begin(&mut self, user_id: u128, offer: SimklDeviceCodeResponse, now: Moment) -> (r:
        SimklDeviceCodeResponse)
        ensures
            r@ == completed(offer@),
            final(self)@ == old(self)@.insert(user_id, pending_of(completed(offer@), now)),
    {
        let offer = SimklService::complete_offer(offer);
        let lasts: u64 = if offer.expires_in >= 30 {
            offer.expires_in
        } else {
            30
        };
        let interval: u64 = if offer.interval >= 5 {
            offer.interval
        } else {
            5
        };
        assert(lasts * NANOS_PER_SEC <= u64::MAX * NANOS_PER_SEC) by (nonlinear_arith)
            requires
                lasts <= u64::MAX,
                NANOS_PER_SEC == 1_000_000_000,
        ;
        let expires_at: u128 = (now.nanos as u128) + (lasts as u128) * NANOS_PER_SEC;
        self.put(
            user_id,
            PendingDeviceAuth {
                device_code: copy_text(&offer.device_code),
                user_code: offer.user_code.clone(),
                verification_uri: offer.verification_uri.clone(),
                verification_uri_complete: copy_text(&offer.verification_uri_complete),
                expires_at,
                interval,
                last_polled_at: None,
            },
        );
        offer
    }

    /// Polls for the approval of a user at `now`.
    pub fn poll_device_auth(&mut self, client_id: &str, user_id: u128, now: Moment) -> (r: PollStep)
        ensures
            (Polled { sessions: final(self)@, step: r@ }) == poll_begins(
                old(self)@,
                cleaned(client_id@),
                user_id,
                now,
            ),
            old(self)@.contains_key(user_id) ==> r.continues(
                user_id,
                cleaned(client_id@),
                old(self)@[user_id].user_code,
            ),
    {
        let client_id = clean_credential(client_id);
        let mut pending = match self.session(user_id) {
            Some(pending) => pending,
            None => {
                return result_of(
                    "expired",
                    Some("No active login session found. Please start again.".to_string()),
                );
            },
        };
        if (now.nanos as u128) >= pending.expires_at {
            self.drop_session(user_id);
            return result_of(
                "expired",
                Some("Authorization code expired. Please start again.".to_string()),
            );
        }
        if let Some(last) = pending.last_polled_at {
            if is_within(last, now, pending.interval) {
                return result_of("pending", None);
            }
        }
        pending.last_polled_at = Some(now);
        self.put(user_id, pending.clone());
        let context = PollContext {
            user_id,
            client_id: client_id.to_string(),
            user_code: pending.user_code.clone(),
        };
        match &pending.device_code {
            Some(device_code) => {
                let mut url = SIMKL_API_BASE.to_string();
                url.append("/oauth2/token");
                let headers = vec![
                    pair("User-Agent", "remux-server/1.0"),
                    pair("Accept", "application/json"),
                ];
                let form = vec![
                    pair("grant_type", "urn:ietf:params:oauth:grant-type:device_code"),
                    pair("client_id", client_id),
                    pair("device_code", device_code.as_str()),
                ];
                let request = Request {
                    method: Method::POST,
                    url,
                    headers,
                    body: Body::Form(form),
                };
                proof {
                    let want = token_request(client_id@, device_code@);
                    assert(request@.headers =~= want.headers);
                    assert(pairs(form@) =~= seq![
                        ("grant_type"@, "urn:ietf:params:oauth:grant-type:device_code"@),
                        ("client_id"@, client_id@),
                        ("device_code"@, device_code@),
                    ]);
                }
                PollStep::AskForToken(request, context)
            },
            None => ask_for_pin_state(context),
        }
    }

    /// Goes on with the reply to a request for a token.
    pub fn token_reply(&mut self, context: PollContext, reply: TokenReply) -> (r: PollStep)
        ensures
            (Polled { sessions: final(self)@, step: r@ }) == after_token(
                old(self)@,
                context.spec_user(),
                context.spec_client_id(),
                context.spec_user_code(),
                reply,
            ),
            r.continues(context.spec_user(), context.spec_client_id(), context.spec_user_code()),
    {
        let user_id: u128 = context.user_id;
        match reply {
            TokenReply::Unreachable => PollStep::Fail(
                "Failed to poll Simkl token endpoint".to_string(),
            ),
            TokenReply::Answered { status, token, error, body } => {
                if status.is_success() {
                    match token {
                        Some(token) => {
                            if !token.access_token.as_str().is_empty() {
                                PollStep::SaveToken(token.access_token, context)
                            } else {
                                ask_for_pin_state(context)
                            }
                        },
                        None => PollStep::Fail("Failed to parse Simkl token response".to_string()),
                    }
                } else if status.as_u16() == 400 {
                    match error {
                        Some(e) => self.token_error(user_id, e),
                        None => {
                            self.drop_session(user_id);
                            let mut message = "Simkl API error (400): ".to_string();
                            message.append(body.as_str());
                            result_of("error", Some(message))
                        },
                    }
                } else {
                    self.drop_session(user_id);
                    result_of("error", Some(error_text(status, body.as_str())))
                }
            },
        }
    }

    fn token_error(&mut self, user_id: u128, error: SimklTokenErrorResponse) -> (r: PollStep)
        ensures
            (Polled { sessions: final(self)@, step: r@ }) == after_token_error(
                old(self)@,
                user_id,
                error.error@,
                opt_text(error.error_description),
            ),
            r is Done,
    {
        if text_eq(error.error.as_str(), "authorization_pending") {
            result_of("pending", None)
        } else if text_eq(error.error.as_str(), "slow_down") {
            self.slow_down(user_id);
            result_of("pending", None)
        } else if text_eq(error.error.as_str(), "expired_token") {
            self.drop_session(user_id);
            result_of(
                "expired",
                Some("Authorization code expired. Please start again.".to_string()),
            )
        } else {
            self.drop_session(user_id);
            let text = match error.error_description {
                Some(text) => text,
                None => error.error,
            };
            result_of("error", Some(text))
        }
    }

    /// What a message about a PIN, in small letters, amounts to.
    pub fn pin_verdict(lowered: &str) -> (r: PinVerdict)
        ensures
            r == verdict_of(lowered@),
    {
        if contains_text(lowered, "pending") {
            PinVerdict::Pending
        } else if contains_text(lowered, "slow") {
            PinVerdict::SlowDown
        } else {
            PinVerdict::Ended
        }
    }

    /// Goes on with a message about a PIN that was not approved.
    pub fn pin_message(&mut self, user_id: u128, message: String, verdict: PinVerdict) -> (r:
        PollStep)
        ensures
            (Polled { sessions: final(self)@, step: r@ }) == after_pin_message(
                old(self)@,
                user_id,
                message@,
                verdict,
            ),
            r is Done,
    {
        match verdict {
            PinVerdict::Pending => result_of("pending", None),
            PinVerdict::SlowDown => {
                self.slow_down(user_id);
                result_of("pending", None)
            },
            PinVerdict::Ended => {
                self.drop_session(user_id);
                let text = if message.as_str().is_empty() {
                    "Authorization code expired or invalid.".to_string()
                } else {
                    message
                };
                result_of("expired", Some(text))
            },
        }
    }

    /// Goes on with the reply about the state of a PIN.
    pub fn pin_reply(&mut self, context: PollContext, reply: Reply<SimklPinPollResponse>) -> (r:
        PollStep)
        ensures
            (Polled { sessions: final(self)@, step: r@ }) == after_pin_state(
                old(self)@,
                context.spec_user(),
                reply,
            ),
            r.continues(context.spec_user(), context.spec_client_id(), context.spec_user_code()),
    {
        let user_id: u128 = context.user_id;
        match reply {
            Reply::Unreachable => PollStep::Fail("Failed to poll Simkl PIN endpoint".to_string()),
            Reply::Answered { status, parsed, body } => {
                if status.is_success() {
                    let state = match parsed {
                        Some(state) => state,
                        None => {
                            return PollStep::Fail(
                                "Failed to parse Simkl PIN poll response".to_string(),
                            );
                        },
                    };
                    if state.result.as_str().eq_ignore_ascii_case("OK") {
                        if let Some(token) = state.access_token {
                            if !token.as_str().is_empty() {
                                return PollStep::SaveToken(token, context);
                            }
                        }
                    }
                    let message = match state.message {
                        Some(message) => message,
                        None => String::new(),
                    };
                    let verdict = Self::pin_verdict(message.as_str().to_lowercase().as_str());
                    self.pin_message(user_id, message, verdict)
                } else if status.as_u16() == 400 || status.as_u16() == 404 {
                    self.drop_session(user_id);
                    let mut message = "Simkl authorization error (".to_string();
                    message.append(status.line().as_str());
                    message.append("): ");
                    message.append(body.as_str());
                    result_of("expired", Some(message))
                } else {
                    self.drop_session(user_id);
                    result_of("error", Some(error_text(status, body.as_str())))
                }
            },
        }
    }

    /// Concludes once the token of the user has been stored.
    pub fn token_saved(&mut self, context: PollContext) -> (r: PollStep)
        ensures
            (Polled { sessions: final(self)@, step: r@ }) == after_saving(
                old(self)@,
                context.spec_user(),
            ),
    {
        self.drop_session(context.user_id);
        result_of("success", Some("Connected successfully to Simkl!".to_string()))
    }
}

impl SimklService {
    /// The settings of a user who has just signed in: those that could be
    /// read, or the defaults, with scrobbling on and the new token.
    pub fn approved_config(existing: Option<SimklUserConfig>, token: String) -> (r: SimklUserConfig)
        ensures
            r@ == signed_in(
                match existing {
                    Some(cfg) => Some(cfg@),
                    None => None,
                },
                token@,
            ),
    {
        let mut cfg = match existing {
            Some(cfg) => cfg,
            None => SimklUserConfig::default(),
        };
        cfg.enabled = true;
        cfg.user_token = token;
        cfg
    }
}

// Laws.

/// What the user interface is told is one of four things.
pub open spec fn is_poll_status(status: Seq<char>) -> bool {
    status == "pending"@ || status == "success"@ || status == "expired"@ || status == "error"@
}

/// A step from `before` that concerns `user` alone, in keeping with what it
/// tells: a sign-in that is over is forgotten, one that is pending stays as
/// it was apart from its interval, and no token is empty.
pub open spec fn is_orderly(before: Map<u128, PendingView>, user: u128, after: Polled) -> bool {
    &&& forall|other: u128| #![trigger after.sessions.contains_key(other)]
        other != user ==> after.sessions.contains_key(other) == before.contains_key(other)
            && after.sessions[other] == before[other]
    &&& match after.step {
        PollStepView::Done(result) => {
            &&& is_poll_status(result.status)
            &&& result.status != "pending"@ ==> !after.sessions.contains_key(user)
                && result.message is Some
            &&& result.status == "pending"@ ==> after.sessions.contains_key(user)
                == before.contains_key(user) && result.message is None
        },
        PollStepView::SaveToken(token) => after.sessions == before && token.len() > 0,
        PollStepView::Fail(_) => after.sessions == before,
        _ => after.sessions.contains_key(user) == before.contains_key(user),
    }
}

proof fn lemma_statuses_differ()
    ensures
        "pending"@ != "success"@,
        "pending"@ != "expired"@,
        "pending"@ != "error"@,
{
    reveal_strlit("pending");
    reveal_strlit("success");
    reveal_strlit("expired");
    reveal_strlit("error");
    assert("pending"@[0] != "success"@[0]);
    assert("pending"@[0] != "expired"@[0]);
    assert("pending"@[0] != "error"@[0]);
}

/// Every step of a poll is orderly, whatever Simkl replies: it concerns no
/// other user, it forgets a sign-in exactly when it reports it as over, and
/// it never hands on an empty token.
pub proof fn polling_is_orderly(
    sessions: Map<u128, PendingView>,
    user: u128,
    client_id: Seq<char>,
    user_code: Seq<char>,
    now: Moment,
    token_reply: TokenReply,
    pin_reply: Reply<SimklPinPollResponse>,
)
    ensures
        is_orderly(sessions, user, poll_begins(sessions, client_id, user, now)),
        is_orderly(sessions, user, after_token(sessions, user, client_id, user_code, token_reply)),
        is_orderly(sessions, user, after_pin_state(sessions, user, pin_reply)),
        is_orderly(sessions, user, after_saving(sessions, user)),
{
    lemma_statuses_differ();
}

/// Once a poll has reported a sign-in as over, the next poll finds none.
pub proof fn over_means_start_again(
    before: Map<u128, PendingView>,
    user: u128,
    after: Polled,
    client_id: Seq<char>,
    now: Moment,
)
    requires
        is_orderly(before, user, after),
        after.step matches PollStepView::Done(result) && result.status != "pending"@,
    ensures
        poll_begins(after.sessions, client_id, user, now) == done(
            after.sessions,
            "expired"@,
            Some("No active login session found. Please start again."@),
        ),
{
}

/// A poll that asked Simkl is followed by no other until the interval of the
/// sign-in has passed: until then, or until the code expires, the answer is
/// pending and nothing changes.
pub proof fn polls_keep_the_interval(
    sessions: Map<u128, PendingView>,
    user: u128,
    client_id: Seq<char>,
    now: Moment,
    later: Moment,
)
    requires
        poll_begins(sessions, client_id, user, now).step is AskForToken || poll_begins(
            sessions,
            client_id,
            user,
            now,
        ).step is AskForPin,
        within_secs(now, later, sessions[user].interval),
        later.nanos < sessions[user].expires_at,
    ensures
        ({
            let asked = poll_begins(sessions, client_id, user, now).sessions;
            poll_begins(asked, client_id, user, later) == still_pending(asked)
        }),
{
}

/// Being told to slow down makes the sign-in wait five seconds longer between
/// polls.
pub proof fn slowing_down_waits_longer(
    sessions: Map<u128, PendingView>,
    user: u128,
    client_id: Seq<char>,
    polled: Moment,
    later: Moment,
)
    requires
        sessions.contains_key(user),
        sessions[user].last_polled_at == Some(polled),
        sessions[user].interval <= u64::MAX - 5,
        within_secs(polled, later, (sessions[user].interval + 5) as u64),
        later.nanos < sessions[user].expires_at,
    ensures
        ({
            let slow = slowed_down(sessions, user);
            poll_begins(slow, client_id, user, later) == still_pending(slow)
        }),
{
}

/// A sign-in that has just begun is good for 30 seconds at least: its first
/// poll within that time asks Simkl, by the OAuth 2.0 flow exactly if the
/// offer came with a device code.
pub proof fn fresh_sign_in_asks(
    sessions: Map<u128, PendingView>,
    user: u128,
    offer: DeviceCodeView,
    started: Moment,
    client_id: Seq<char>,
    now: Moment,
)
    requires
        now.nanos < started.nanos + 30 * NANOS_PER_SEC,
    ensures
        ({
            let begun = sessions.insert(user, pending_of(completed(offer), started));
            poll_begins(begun, client_id, user, now).step == match offer.device_code {
                Some(code) => PollStepView::AskForToken(token_request(client_id, code)),
                None => PollStepView::AskForPin(pin_state_request(client_id, offer.user_code)),
            }
        }),
{
    let lasts = at_least(offer.expires_in, 30);
    assert(30 * NANOS_PER_SEC <= lasts * NANOS_PER_SEC <= u64::MAX * NANOS_PER_SEC)
        by (nonlinear_arith)
        requires
            30 <= lasts <= u64::MAX,
            NANOS_PER_SEC == 1_000_000_000,
    ;
}

/// An offer with its gaps filled has a page to visit and, where there is a
/// code, a page with the code already entered; filling gaps twice is filling
/// them once.
pub proof fn completed_offer_has_no_gaps(offer: DeviceCodeView)
    ensures
        completed(offer).verification_uri.len() > 0,
        offer.user_code.len() > 0 ==> completed(offer).verification_uri_complete is Some,
        completed(completed(offer)) == completed(offer),
{
    reveal_strlit("https://simkl.com/pin");
}

/// A user who has signed in may scrobble, and keeps the other settings.
pub proof fn signing_in_enables_scrobbling(
    existing: UserConfigView,
    token: Seq<char>,
    client_id: Seq<char>,
)
    requires
        token.len() > 0,
        client_id.len() > 0,
    ensures
        scrobble_skip(client_id, signed_in(Some(existing), token)) is None,
        scrobble_skip(client_id, signed_in(None, token)) is None,
        signed_in(Some(existing), token).sync_continue_watching
            == existing.sync_continue_watching,
{
}

} // verus!
