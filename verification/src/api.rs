//! What the HTTP API answers about Simkl, and who may ask.

use vstd::prelude::*;

use crate::device_auth::{
    device_code_request, no_client_id_message, poll_begins, DeviceAuths, DeviceCodeView,
    DeviceStart, PollStep, Polled,
};
use crate::http::{Reply, Request, RequestView};
use crate::json::{
    field, field_view, json_of_bytes, opt_scalar, opt_text, parse_bytes, Scalar, ScalarView,
};
use crate::media::SimklService;
use crate::scrobble::{connection_report, connection_test};
use crate::settings::{
    layered, opt_config, user_settings, with_user, ConfigView, Settings, SimklConfig,
    SimklUserConfig, UserConfigView,
};
use crate::simkl::{copy_text, SimklDeviceCodeResponse, SimklUserSettings};
use crate::text::{cleaned, text_eq, trimmed};
use crate::time::Moment;

verus! {

/// What is shown in place of an access token.
pub const MASKED_TOKEN: &'static str = "••••••••";

/// How a request is refused.
#[derive(Clone, Copy, Debug, PartialEq, Eq, Structural)]
pub enum Refusal {
    Unauthorized,
    BadRequest,
}

/// A refused request: the reason, and the text that the client is shown.
#[derive(Debug, PartialEq)]
pub struct ApiError {
    pub refusal: Refusal,
    pub reason: String,
    pub shown: String,
}

/// The content of a refusal.
pub struct ApiErrorView {
    pub refusal: Refusal,
    pub reason: Seq<char>,
    pub shown: Seq<char>,
}

impl View for ApiError {
    type V = ApiErrorView;

    open spec fn view(&self) -> ApiErrorView {
        ApiErrorView { refusal: self.refusal, reason: self.reason@, shown: self.shown@ }
    }
}

/// The user who asks.
#[derive(Clone, Copy, Debug, PartialEq, Eq, Structural)]
pub struct SessionUser {
    pub id: u128,
    pub is_admin: bool,
}

/// A session that has been authenticated.
#[derive(Clone, Copy, Debug, PartialEq, Eq, Structural)]
pub struct AuthSession {
    pub user: SessionUser,
}

/// The settings of a user are open to that user and to administrators.
pub open spec fn may_access(target_id: u128, session: AuthSession) -> bool {
    target_id == session.user.id || session.user.is_admin
}

/// The refusal of someone else's request.
pub open spec fn forbidden() -> ApiErrorView {
    ApiErrorView {
        refusal: Refusal::Unauthorized,
        reason: "Forbidden"@,
        shown: "forbidden"@,
    }
}

/// The message for a server without a client identifier.
pub open spec fn not_configured_message() -> Seq<char> {
    "Simkl Client ID is not configured in Server Settings"@
}

/// The refusal for want of a client identifier.
pub open spec fn missing_client_id() -> ApiErrorView {
    ApiErrorView {
        refusal: Refusal::BadRequest,
        reason: not_configured_message(),
        shown: "missing_client_id"@,
    }
}

/// The refusal that shows a message as it is.
pub open spec fn plain_refusal(message: Seq<char>) -> ApiErrorView {
    ApiErrorView { refusal: Refusal::BadRequest, reason: message, shown: message }
}

/// Lets a request pass that concerns the user who asks, or that an
/// administrator makes.
pub fn require_self_or_admin(target_id: u128, session: &AuthSession) -> (r: Result<(), ApiError>)
    ensures
        match r {
            Ok(_) => may_access(target_id, *session),
            Err(e) => !may_access(target_id, *session) && e@ == forbidden(),
        },
{
    if target_id != session.user.id && !session.user.is_admin {
        return Err(
            ApiError {
                refusal: Refusal::Unauthorized,
                reason: "Forbidden".to_string(),
                shown: "forbidden".to_string(),
            },
        );
    }
    Ok(())
}

/// What is shown of a token: nothing where there is none, else the mask.
pub open spec fn masked(token: Seq<char>) -> Seq<char> {
    if token.len() == 0 {
        seq![]
    } else {
        MASKED_TOKEN@
    }
}

/// Hides a token.
pub fn mask_token(token: &str) -> (r: String)
    ensures
        r@ == masked(token@),
{
    if token.is_empty() {
        String::new()
    } else {
        MASKED_TOKEN.to_string()
    }
}

// Settings of the server.

/// The Simkl settings of the server, as the API shows them.
#[derive(Clone, Debug, PartialEq)]
pub struct SimklGlobalConfigDto {
    pub client_id: String,
    pub completion_threshold: u32,
}

/// The content of the settings of the server that the API shows.
pub struct GlobalConfigView {
    pub client_id: Seq<char>,
    pub completion_threshold: u32,
}

impl View for SimklGlobalConfigDto {
    type V = GlobalConfigView;

    open spec fn view(&self) -> GlobalConfigView {
        GlobalConfigView {
            client_id: self.client_id@,
            completion_threshold: self.completion_threshold,
        }
    }
}

/// What the API shows of the settings of the server.
pub open spec fn shown_config(cfg: ConfigView) -> GlobalConfigView {
    GlobalConfigView {
        client_id: cfg.client_id,
        completion_threshold: cfg.completion_threshold,
    }
}

/// The settings of the server after an update: the client identifier without
/// white space around it, and the threshold unless it is zero.
pub open spec fn updated_config(cfg: ConfigView, payload: GlobalConfigView) -> ConfigView {
    ConfigView {
        client_id: trimmed(payload.client_id),
        completion_threshold: if payload.completion_threshold > 0 {
            payload.completion_threshold
        } else {
            cfg.completion_threshold
        },
        ..cfg
    }
}

/// The Simkl settings of the server.
pub fn get_simkl_settings(base_config: &SimklConfig, stored: Option<SimklConfig>) -> (r:
    SimklGlobalConfigDto)
    ensures
        r@ == shown_config(layered(base_config@, opt_config(stored))),
{
    let cfg = Settings::get_simkl_config(base_config, stored);
    SimklGlobalConfigDto {
        client_id: cfg.client_id,
        completion_threshold: cfg.completion_threshold,
    }
}

/// The Simkl settings to store after an update of those of the server.
pub fn update_simkl_settings(
    base_config: &SimklConfig,
    stored: Option<SimklConfig>,
    payload: &SimklGlobalConfigDto,
) -> (r: SimklConfig)
    ensures
        r@ == updated_config(layered(base_config@, opt_config(stored)), payload@),
{
    let mut cfg = Settings::get_simkl_config(base_config, stored);
    cfg.client_id = payload.client_id.as_str().trim().to_string();
    if payload.completion_threshold > 0 {
        cfg.completion_threshold = payload.completion_threshold;
    }
    cfg
}

// Settings of a user.

/// The Simkl settings of a user, as the API shows them.
#[derive(Clone, Debug, PartialEq)]
pub struct SimklUserConfigDto {
    pub enabled: bool,
    pub user_token: String,
    pub has_token: bool,
    pub sync_continue_watching: bool,
}

/// The content of the settings of a user that the API shows.
pub struct UserConfigDtoView {
    pub enabled: bool,
    pub user_token: Seq<char>,
    pub has_token: bool,
    pub sync_continue_watching: bool,
}

impl View for SimklUserConfigDto {
    type V = UserConfigDtoView;

    open spec fn view(&self) -> UserConfigDtoView {
        UserConfigDtoView {
            enabled: self.enabled,
            user_token: self.user_token@,
            has_token: self.has_token,
            sync_continue_watching: self.sync_continue_watching,
        }
    }
}

/// What the API shows of the settings of a user: all but the token.
pub open spec fn shown_user(user: UserConfigView) -> UserConfigDtoView {
    UserConfigDtoView {
        enabled: user.enabled,
        user_token: masked(user.user_token),
        has_token: user.user_token.len() > 0,
        sync_continue_watching: user.sync_continue_watching,
    }
}

/// The settings of a user after an update. An empty token and the mask leave
/// the token as it is.
pub open spec fn updated_user(existing: UserConfigView, payload: UserConfigDtoView) -> UserConfigView {
    UserConfigView {
        enabled: payload.enabled,
        user_token: if payload.user_token.len() == 0 || payload.user_token == MASKED_TOKEN@ {
            existing.user_token
        } else {
            payload.user_token
        },
        sync_continue_watching: payload.sync_continue_watching,
    }
}

fn copy_config(stored: &Option<SimklConfig>) -> (r: Option<SimklConfig>)
    ensures
        opt_config(r) == opt_config(*stored),
{
    match stored {
        Some(cfg) => Some(cfg.clone()),
        None => None,
    }
}

/// The Simkl settings of a user, without the token.
pub fn get_user_simkl_settings(
    session: &AuthSession,
    user_id: u128,
    base_config: &SimklConfig,
    stored: Option<SimklConfig>,
) -> (r: Result<SimklUserConfigDto, ApiError>)
    ensures
        match r {
            Ok(dto) => may_access(user_id, *session) && dto@ == shown_user(
                user_settings(layered(base_config@, opt_config(stored)), user_id),
            ),
            Err(e) => !may_access(user_id, *session) && e@ == forbidden(),
        },
{
    match require_self_or_admin(user_id, session) {
        Ok(_) => {},
        Err(e) => {
            return Err(e);
        },
    }
    let user_cfg = Settings::get_user_simkl_config(base_config, stored, user_id);
    Ok(
        SimklUserConfigDto {
            enabled: user_cfg.enabled,
            user_token: mask_token(user_cfg.user_token.as_str()),
            has_token: !user_cfg.user_token.as_str().is_empty(),
            sync_continue_watching: user_cfg.sync_continue_watching,
        },
    )
}

/// The Simkl settings to store after an update of those of a user.
pub fn update_user_simkl_settings(
    session: &AuthSession,
    user_id: u128,
    base_config: &SimklConfig,
    stored: Option<SimklConfig>,
    payload: SimklUserConfigDto,
) -> (r: Result<SimklConfig, ApiError>)
    ensures
        match r {
            Ok(cfg) => {
                let before = layered(base_config@, opt_config(stored));
                may_access(user_id, *session) && cfg@ == with_user(
                    before,
                    user_id,
                    updated_user(user_settings(before, user_id), payload@),
                )
            },
            Err(e) => !may_access(user_id, *session) && e@ == forbidden(),
        },
{
    match require_self_or_admin(user_id, session) {
        Ok(_) => {},
        Err(e) => {
            return Err(e);
        },
    }
    let existing = Settings::get_user_simkl_config(base_config, copy_config(&stored), user_id);
    let new_token = if payload.user_token.as_str().is_empty() || text_eq(
        payload.user_token.as_str(),
        MASKED_TOKEN,
    ) {
        existing.user_token
    } else {
        payload.user_token
    };
    let user_config = SimklUserConfig {
        enabled: payload.enabled,
        user_token: new_token,
        sync_continue_watching: payload.sync_continue_watching,
    };
    Ok(Settings::set_user_simkl_config(base_config, stored, user_id, user_config))
}

// Testing the connection of a user.

/// The outcome of a connection test.
#[derive(Clone, Debug, PartialEq)]
pub struct SimklTestResultDto {
    pub success: bool,
    pub message: String,
}

/// The content of the outcome of a connection test.
pub struct TestResultView {
    pub success: bool,
    pub message: Seq<char>,
}

impl View for SimklTestResultDto {
    type V = TestResultView;

    open spec fn view(&self) -> TestResultView {
        TestResultView { success: self.success, message: self.message@ }
    }
}

/// What a connection test does next.
#[derive(Debug)]
pub enum TestStep {
    /// Tell the client.
    Done(SimklTestResultDto),
    /// Ask Simkl.
    Ask(Request),
}

/// The content of a step.
pub enum TestStepView {
    Done(TestResultView),
    Ask(RequestView),
}

impl View for TestStep {
    type V = TestStepView;

    open spec fn view(&self) -> TestStepView {
        match self {
            TestStep::Done(result) => TestStepView::Done(result@),
            TestStep::Ask(request) => TestStepView::Ask(request@),
        }
    }
}

/// The token in the fields of a request, without white space around it. The
/// name with an underscore counts first.
pub open spec fn token_in(
    snake: Option<ScalarView>,
    camel: Option<ScalarView>,
) -> Option<Seq<char>> {
    match if snake is Some {
        snake
    } else {
        camel
    } {
        Some(ScalarView::Text(s)) => Some(trimmed(s)),
        _ => None,
    }
}

/// The token in the body of a request.
pub open spec fn token_in_body(body: Seq<u8>) -> Option<Seq<char>> {
    if body.len() == 0 {
        None
    } else {
        match json_of_bytes(body) {
            Some(v) => token_in(field_view(v, "user_token"@), field_view(v, "userToken"@)),
            None => None,
        }
    }
}

/// The token to test: the one in the request unless it is empty or the mask,
/// else the stored one.
pub open spec fn token_to_test(explicit: Option<Seq<char>>, existing: Seq<char>) -> Seq<char> {
    match explicit {
        Some(t) => if t.len() > 0 && t != MASKED_TOKEN@ {
            t
        } else {
            existing
        },
        None => existing,
    }
}

/// What a connection test begins with.
pub open spec fn test_begins(
    client_id: Seq<char>,
    explicit: Option<Seq<char>>,
    existing: Seq<char>,
) -> TestStepView {
    let token = token_to_test(explicit, existing);
    if client_id.len() == 0 {
        TestStepView::Done(TestResultView { success: false, message: not_configured_message() })
    } else if token.len() == 0 {
        TestStepView::Done(
            TestResultView {
                success: false,
                message: "No Simkl access token provided or configured"@,
            },
        )
    } else {
        TestStepView::Ask(connection_test(client_id, token))
    }
}

/// The outcome of a connection test, given the reply of Simkl.
pub open spec fn test_ends(reply: Reply<SimklUserSettings>) -> TestResultView {
    match connection_report(reply) {
        Ok(message) => TestResultView { success: true, message },
        Err(message) => TestResultView { success: false, message },
    }
}

/// Finds the token in the fields of a request.
pub fn explicit_token(snake: Option<Scalar>, camel: Option<Scalar>) -> (r: Option<String>)
    ensures
        opt_text(r) == token_in(opt_scalar(snake), opt_scalar(camel)),
{
    let field = match snake {
        Some(s) => Some(s),
        None => camel,
    };
    match field {
        Some(Scalar::Text(s)) => Some(s.as_str().trim().to_string()),
        _ => None,
    }
}

/// Finds the token in the body of a request.
pub fn extract_token(body: &[u8]) -> (r: Option<String>)
    ensures
        opt_text(r) == token_in_body(body@),
{
    if body.len() == 0 {
        return None;
    }
    match parse_bytes(body) {
        Some(v) => explicit_token(field(&v, "user_token"), field(&v, "userToken")),
        None => None,
    }
}

/// Begins a connection test with the token found in the request, if any.
pub fn begin_connection_test(
    client_id: &str,
    explicit: Option<String>,
    existing: String,
) -> (r: TestStep)
    ensures
        r@ == test_begins(client_id@, opt_text(explicit), existing@),
{
    if client_id.is_empty() {
        return TestStep::Done(
            SimklTestResultDto {
                success: false,
                message: "Simkl Client ID is not configured in Server Settings".to_string(),
            },
        );
    }
    let token = match explicit {
        Some(t) => if !t.as_str().is_empty() && !text_eq(t.as_str(), MASKED_TOKEN) {
            t
        } else {
            existing
        },
        None => existing,
    };
    if token.as_str().is_empty() {
        return TestStep::Done(
            SimklTestResultDto {
                success: false,
                message: "No Simkl access token provided or configured".to_string(),
            },
        );
    }
    TestStep::Ask(SimklService::test_connection(client_id, token.as_str()))
}

/// Begins to test the connection of a user. The body of the request may hold
/// a token to test in place of the stored one.
pub fn test_user_simkl_connection(
    session: &AuthSession,
    user_id: u128,
    base_config: &SimklConfig,
    stored: Option<SimklConfig>,
    body: &[u8],
) -> (r: Result<TestStep, ApiError>)
    ensures
        match r {
            Ok(step) => {
                let cfg = layered(base_config@, opt_config(stored));
                may_access(user_id, *session) && step@ == test_begins(
                    cfg.client_id,
                    token_in_body(body@),
                    user_settings(cfg, user_id).user_token,
                )
            },
            Err(e) => !may_access(user_id, *session) && e@ == forbidden(),
        },
{
    match require_self_or_admin(user_id, session) {
        Ok(_) => {},
        Err(e) => {
            return Err(e);
        },
    }
    let (client_id, existing) = SimklService::get_credentials(base_config, stored, user_id);
    Ok(begin_connection_test(client_id.as_str(), extract_token(body), existing.user_token))
}

/// Ends a connection test with the reply of Simkl.
pub fn end_connection_test(reply: Reply<SimklUserSettings>) -> (r: SimklTestResultDto)
    ensures
        r@ == test_ends(reply),
{
    match SimklService::connection_reply(reply) {
        Ok(message) => SimklTestResultDto { success: true, message },
        Err(message) => SimklTestResultDto { success: false, message },
    }
}

// Signing in a user.

/// Where to return to after signing in.
#[derive(Clone, Debug, PartialEq)]
pub struct SimklDeviceStartQuery {
    pub redirect: Option<String>,
}

impl Default for SimklDeviceStartQuery {
    fn default() -> (r: Self)
        ensures
            r.redirect is None,
    {
        SimklDeviceStartQuery { redirect: None }
    }
}

/// An offer to sign in, as the API shows it.
#[derive(Clone, Debug, PartialEq)]
pub struct SimklDeviceAuthDto {
    pub user_code: String,
    pub verification_uri: String,
    pub verification_uri_complete: Option<String>,
    pub expires_in: u64,
    pub interval: u64,
}

/// What the API shows of an offer: all but the device code.
pub open spec fn shows_offer(dto: SimklDeviceAuthDto, offer: DeviceCodeView) -> bool {
    &&& dto.user_code@ == offer.user_code
    &&& dto.verification_uri@ == offer.verification_uri
    &&& opt_text(dto.verification_uri_complete) == offer.verification_uri_complete
    &&& dto.expires_in == offer.expires_in
    &&& dto.interval == offer.interval
}

/// Why a sign-in is refused before Simkl is asked, if it is.
pub open spec fn sign_in_refused(
    user_id: u128,
    session: AuthSession,
    client_id: Seq<char>,
) -> Option<ApiErrorView> {
    if !may_access(user_id, session) {
        Some(forbidden())
    } else if client_id.len() == 0 {
        Some(missing_client_id())
    } else {
        None
    }
}

/// Shows a message of the sign-in as it is.
pub fn sign_in_failure(message: String) -> (r: ApiError)
    ensures
        r@ == plain_refusal(message@),
{
    let shown = message.clone();
    ApiError { refusal: Refusal::BadRequest, reason: message, shown }
}

/// The client identifier of the server, for a user who may sign in.
fn require_client_id(
    session: &AuthSession,
    user_id: u128,
    base_config: &SimklConfig,
    stored: Option<SimklConfig>,
) -> (r: Result<String, ApiError>)
    ensures
        ({
            let client_id = layered(base_config@, opt_config(stored)).client_id;
            match r {
                Ok(id) => sign_in_refused(user_id, *session, client_id) is None && id@ == client_id,
                Err(e) => sign_in_refused(user_id, *session, client_id) == Some(e@),
            }
        }),
{
    match require_self_or_admin(user_id, session) {
        Ok(_) => {},
        Err(e) => {
            return Err(e);
        },
    }
    let global_cfg = Settings::get_simkl_config(base_config, stored);
    if global_cfg.client_id.as_str().is_empty() {
        return Err(
            ApiError {
                refusal: Refusal::BadRequest,
                reason: "Simkl Client ID is not configured in Server Settings".to_string(),
                shown: "missing_client_id".to_string(),
            },
        );
    }
    Ok(global_cfg.client_id)
}

/// Begins to sign a user in, with the request for a device code.
pub fn start_user_simkl_device_auth(
    session: &AuthSession,
    user_id: u128,
    base_config: &SimklConfig,
    stored: Option<SimklConfig>,
    query: &SimklDeviceStartQuery,
) -> (r: Result<(Request, DeviceStart), ApiError>)
    ensures
        ({
            let client_id = layered(base_config@, opt_config(stored)).client_id;
            match r {
                Ok((request, start)) => {
                    &&& sign_in_refused(user_id, *session, client_id) is None
                    &&& cleaned(client_id).len() > 0
                    &&& request@ == device_code_request(cleaned(client_id))
                    &&& start.spec_client_id() == cleaned(client_id)
                    &&& start.spec_redirect() == opt_text(query.redirect)
                },
                Err(e) => match sign_in_refused(user_id, *session, client_id) {
                    Some(refusal) => e@ == refusal,
                    None => cleaned(client_id).len() == 0 && e@ == plain_refusal(
                        no_client_id_message(),
                    ),
                },
            }
        }),
{
    let client_id = match require_client_id(session, user_id, base_config, stored) {
        Ok(id) => id,
        Err(e) => {
            return Err(e);
        },
    };
    let redirect = match &query.redirect {
        Some(uri) => Some(uri.as_str()),
        None => None,
    };
    match SimklService::start_device_auth(client_id.as_str(), redirect) {
        Ok(started) => Ok(started),
        Err(message) => Err(sign_in_failure(message)),
    }
}

/// Shows an offer to sign in.
pub fn device_auth_dto(offer: &SimklDeviceCodeResponse) -> (r: SimklDeviceAuthDto)
    ensures
        shows_offer(r, offer@),
{
    SimklDeviceAuthDto {
        user_code: offer.user_code.clone(),
        verification_uri: offer.verification_uri.clone(),
        verification_uri_complete: copy_text(&offer.verification_uri_complete),
        expires_in: offer.expires_in,
        interval: offer.interval,
    }
}

/// Polls the sign-in of a user at `now`.
pub fn poll_user_simkl_device_auth(
    auths: &mut DeviceAuths,
    session: &AuthSession,
    user_id: u128,
    base_config: &SimklConfig,
    stored: Option<SimklConfig>,
    now: Moment,
) -> (r: Result<PollStep, ApiError>)
    ensures
        ({
            let client_id = layered(base_config@, opt_config(stored)).client_id;
            match r {
                Ok(step) => {
                    &&& sign_in_refused(user_id, *session, client_id) is None
                    &&& (Polled { sessions: final(auths)@, step: step@ }) == poll_begins(
                        old(auths)@,
                        cleaned(client_id),
                        user_id,
                        now,
                    )
                    &&& old(auths)@.contains_key(user_id) ==> step.continues(
                        user_id,
                        cleaned(client_id),
                        old(auths)@[user_id].user_code,
                    )
                },
                Err(e) => sign_in_refused(user_id, *session, client_id) == Some(e@)
                    && final(auths)@ == old(auths)@,
            }
        }),
{
    let client_id = match require_client_id(session, user_id, base_config, stored) {
        Ok(id) => id,
        Err(e) => {
            return Err(e);
        },
    };
    Ok(auths.poll_device_auth(client_id.as_str(), user_id, now))
}

// Laws.

/// What the API shows of a user tells nothing of the token but whether there
/// is one.
pub proof fn token_stays_hidden(user: UserConfigView, other_token: Seq<char>)
    requires
        user.user_token.len() > 0 <==> other_token.len() > 0,
    ensures
        shown_user(user) == shown_user(UserConfigView { user_token: other_token, ..user }),
{
}

/// Saving the settings of a user as the API shows them changes nothing.
pub proof fn saving_what_is_shown_changes_nothing(user: UserConfigView)
    ensures
        updated_user(user, shown_user(user)) == user,
{
}

/// The settings of a user show as they were saved, and a token that was given
/// is the one that is stored.
pub proof fn saved_user_is_shown(
    base: ConfigView,
    stored: Option<ConfigView>,
    user_id: u128,
    payload: UserConfigDtoView,
)
    ensures
        ({
            let before = layered(base, stored);
            let existing = user_settings(before, user_id);
            let saved = with_user(before, user_id, updated_user(existing, payload));
            let now = user_settings(layered(base, Some(saved)), user_id);
            &&& shown_user(now).enabled == payload.enabled
            &&& shown_user(now).sync_continue_watching == payload.sync_continue_watching
            &&& shown_user(now).has_token <==> payload.user_token.len() > 0 && payload.user_token
                != MASKED_TOKEN@ || existing.user_token.len() > 0
            &&& payload.user_token.len() > 0 && payload.user_token != MASKED_TOKEN@
                ==> now.user_token == payload.user_token
            &&& payload.user_token.len() == 0 || payload.user_token == MASKED_TOKEN@
                ==> now.user_token == existing.user_token
        }),
{
}

/// The settings of the server show as they were saved, as far as they were
/// given: a client identifier that is not blank, and a threshold that is not
/// zero. The users keep theirs.
pub proof fn saved_config_is_shown(
    base: ConfigView,
    stored: Option<ConfigView>,
    payload: GlobalConfigView,
    user_id: u128,
)
    ensures
        ({
            let before = layered(base, stored);
            let after = layered(base, Some(updated_config(before, payload)));
            &&& trimmed(payload.client_id).len() > 0 ==> shown_config(after).client_id == trimmed(
                payload.client_id,
            )
            &&& trimmed(payload.client_id).len() == 0 ==> shown_config(after).client_id
                == base.client_id
            &&& shown_config(after).completion_threshold == if payload.completion_threshold > 0 {
                payload.completion_threshold
            } else {
                before.completion_threshold
            }
            &&& user_settings(after, user_id) == user_settings(before, user_id)
        }),
{
    let before = layered(base, stored);
    let after = layered(base, Some(updated_config(before, payload)));
    assert(after.users =~= before.users);
}

/// A test of a token that is not given, or given as the mask, tests the stored
/// one.
pub proof fn mask_tests_the_stored_token(client_id: Seq<char>, existing: Seq<char>)
    ensures
        test_begins(client_id, Some(MASKED_TOKEN@), existing) == test_begins(
            client_id,
            None,
            existing,
        ),
        test_begins(client_id, Some(seq![]), existing) == test_begins(client_id, None, existing),
{
}

} // verus!
