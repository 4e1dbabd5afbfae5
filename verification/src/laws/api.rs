//! Laws of the HTTP API.

use vstd::prelude::*;

use crate::api::{
    begin_connection_test, device_auth_dto, end_connection_test, explicit_token, extract_token,
    get_simkl_settings, get_user_simkl_settings, mask_token, poll_user_simkl_device_auth,
    require_self_or_admin, sign_in_failure, start_user_simkl_device_auth,
    test_user_simkl_connection, update_simkl_settings, update_user_simkl_settings, ApiError,
    AuthSession, Refusal, SimklDeviceAuthDto, SimklDeviceStartQuery, SimklGlobalConfigDto,
    SimklTestResultDto, SimklUserConfigDto, TestStep,
};
use crate::device_auth::{DeviceAuths, DeviceStart, PollStep};
use crate::http::{Method, Reply, Request};
use crate::json::{json_member, json_of_bytes, json_string, opt_text, Scalar};
use crate::media::SimklService;
use crate::settings::{Settings, SimklConfig, SimklUserConfig};
use crate::simkl::{SimklDeviceCodeResponse, SimklUserSettings};
use crate::text::{cleaned, trimmed};
use crate::time::Moment;

verus! {

/// A refusal of this sort, for this reason, that shows this.
pub open spec fn is_refusal(
    e: ApiError,
    refusal: Refusal,
    reason: Seq<char>,
    shown: Seq<char>,
) -> bool {
    e.refusal == refusal && e.reason@ == reason && e.shown@ == shown
}

/// The refusal of a stranger.
pub open spec fn is_forbidden(e: ApiError) -> bool {
    is_refusal(e, Refusal::Unauthorized, "Forbidden"@, "forbidden"@)
}

proof fn lemma_refusal(e: ApiError)
    ensures
        e@.refusal == e.refusal,
        e@.reason == e.reason@,
        e@.shown == e.shown@,
{
}

/// A request passes exactly if it is the user's own or an administrator's.
pub proof fn only_self_or_admin_passes(target: u128, session: &AuthSession, r: Result<(), ApiError>)
    requires
        call_ensures(require_self_or_admin, (target, session), r),
    ensures
        r is Ok <==> session.user.id == target || session.user.is_admin,
        r matches Err(e) ==> is_forbidden(e),
{
    if let Err(e) = r {
        lemma_refusal(e);
    }
}

/// Two tokens look alike exactly if both are there or neither is, and what is
/// shown of a token is the mask.
pub proof fn tokens_look_alike(one: &str, two: &str, of_one: String, of_two: String)
    requires
        call_ensures(mask_token, (one,), of_one),
        call_ensures(mask_token, (two,), of_two),
    ensures
        one@.len() == 0 ==> of_one@.len() == 0,
        one@.len() > 0 ==> of_one@ == "••••••••"@,
        one@.len() > 0 && two@.len() > 0 ==> of_one@ == of_two@,
{
}

/// The settings of the server are shown as they are in force.
pub proof fn server_settings_are_shown(
    base: &SimklConfig,
    stored: Option<SimklConfig>,
    full: SimklConfig,
    r: SimklGlobalConfigDto,
)
    requires
        call_ensures(Settings::get_simkl_config, (base, stored), full),
        call_ensures(get_simkl_settings, (base, stored), r),
    ensures
        r.client_id@ == full.client_id@,
        r.completion_threshold == full.completion_threshold,
{
    assert(r@.client_id == r.client_id@);
    assert(full@.client_id == full.client_id@);
}

/// Once saved, the settings of the server show as they were given: the client
/// identifier without white space around it, unless it is blank, and the
/// threshold, unless it is zero; what was not given stays, and every user
/// keeps their own settings.
pub proof fn server_settings_are_saved(
    base: &SimklConfig,
    stored: Option<SimklConfig>,
    payload: &SimklGlobalConfigDto,
    written: SimklConfig,
    before: SimklGlobalConfigDto,
    after: SimklGlobalConfigDto,
    user_id: u128,
    user_before: SimklUserConfig,
    user_after: SimklUserConfig,
)
    requires
        call_ensures(update_simkl_settings, (base, stored, payload), written),
        call_ensures(get_simkl_settings, (base, stored), before),
        call_ensures(get_simkl_settings, (base, Some(written)), after),
        call_ensures(Settings::get_user_simkl_config, (base, stored, user_id), user_before),
        call_ensures(Settings::get_user_simkl_config, (base, Some(written), user_id), user_after),
    ensures
        written.client_id@ == trimmed(payload.client_id@),
        trimmed(payload.client_id@).len() > 0 ==> after.client_id@ == trimmed(payload.client_id@),
        trimmed(payload.client_id@).len() == 0 ==> after.client_id@ == base.client_id@,
        payload.completion_threshold > 0 ==> after.completion_threshold
            == payload.completion_threshold,
        payload.completion_threshold == 0 ==> after.completion_threshold
            == before.completion_threshold,
        crate::laws::settings::same_user(user_after, user_before),
{
    crate::api::saved_config_is_shown(
        base@,
        crate::settings::opt_config(stored),
        payload@,
        user_id,
    );
    assert(written@.client_id == written.client_id@);
    assert(after@.client_id == after.client_id@);
    assert(before@.completion_threshold == before.completion_threshold);
    assert(user_after@.user_token == user_after.user_token@);
    assert(user_before@.user_token == user_before.user_token@);
}

/// A user's settings are shown to that user and to administrators, all but the
/// token, of which only is told whether it is there.
pub proof fn user_settings_are_shown_masked(
    session: &AuthSession,
    user_id: u128,
    base: &SimklConfig,
    stored: Option<SimklConfig>,
    user: SimklUserConfig,
    r: Result<SimklUserConfigDto, ApiError>,
)
    requires
        call_ensures(Settings::get_user_simkl_config, (base, stored, user_id), user),
        call_ensures(get_user_simkl_settings, (session, user_id, base, stored), r),
    ensures
        r is Ok <==> session.user.id == user_id || session.user.is_admin,
        r matches Err(e) ==> is_forbidden(e),
        r matches Ok(dto) ==> {
            &&& dto.enabled == user.enabled
            &&& dto.sync_continue_watching == user.sync_continue_watching
            &&& dto.has_token <==> user.user_token@.len() > 0
            &&& user.user_token@.len() > 0 ==> dto.user_token@ == "••••••••"@
            &&& user.user_token@.len() == 0 ==> dto.user_token@.len() == 0
        },
{
    if let Err(e) = r {
        lemma_refusal(e);
    }
    if let Ok(dto) = r {
        assert(dto@.user_token == dto.user_token@);
        assert(user@.user_token == user.user_token@);
    }
}

/// A user's settings are saved by that user and by administrators: switches as
/// given, the token as given unless it is empty or the mask, in which case the
/// stored one stays. Nothing of anyone else changes.
pub proof fn user_settings_are_saved(
    session: &AuthSession,
    user_id: u128,
    base: &SimklConfig,
    stored: Option<SimklConfig>,
    payload: SimklUserConfigDto,
    r: Result<SimklConfig, ApiError>,
    other: u128,
    before: SimklUserConfig,
    after: SimklUserConfig,
    full_before: SimklConfig,
    full_after: SimklConfig,
)
    requires
        call_ensures(update_user_simkl_settings, (session, user_id, base, stored, payload), r),
        call_ensures(Settings::get_user_simkl_config, (base, stored, other), before),
        call_ensures(Settings::get_simkl_config, (base, stored), full_before),
        r matches Ok(written) ==> call_ensures(
            Settings::get_user_simkl_config,
            (base, Some(written), other),
            after,
        ),
        r matches Ok(written) ==> call_ensures(
            Settings::get_simkl_config,
            (base, Some(written)),
            full_after,
        ),
    ensures
        r is Ok <==> session.user.id == user_id || session.user.is_admin,
        r matches Err(e) ==> is_forbidden(e),
        r is Ok ==> {
            &&& other != user_id ==> crate::laws::settings::same_user(after, before)
            &&& full_after.client_id@ == full_before.client_id@
            &&& full_after.completion_threshold == full_before.completion_threshold
            &&& other == user_id ==> {
                let given = payload.user_token@.len() > 0 && payload.user_token@ != "••••••••"@;
                &&& after.enabled == payload.enabled
                &&& after.sync_continue_watching == payload.sync_continue_watching
                &&& given ==> after.user_token@ == payload.user_token@
                &&& !given ==> after.user_token@ == before.user_token@
            }
        },
{
    if let Err(e) = r {
        lemma_refusal(e);
    }
    if r is Ok {
        let stored_view = crate::settings::opt_config(stored);
        let full = crate::settings::layered(base@, stored_view);
        let user = crate::api::updated_user(
            crate::settings::user_settings(full, user_id),
            payload@,
        );
        let another: u128 = if user_id == 0 {
            1
        } else {
            0
        };
        crate::settings::stored_user_reads_back(base@, stored_view, user_id, user);
        crate::settings::storing_a_user_keeps_the_rest(base@, stored_view, user_id, user, another);
        if other != user_id {
            crate::settings::storing_a_user_keeps_the_rest(
                base@,
                stored_view,
                user_id,
                user,
                other,
            );
        }
        assert(after@.user_token == after.user_token@);
        assert(before@.user_token == before.user_token@);
        assert(payload@.user_token == payload.user_token@);
        assert(full_after@.client_id == full_after.client_id@);
        assert(full_before@.client_id == full_before.client_id@);
    }
}

/// The token of a request is the text under the name with an underscore or,
/// where there is nothing under that, under the other name, without white
/// space around it. What is no text counts as none.
pub proof fn tokens_are_found_in_requests(body: &[u8], r: Option<String>)
    requires
        call_ensures(extract_token, (body,), r),
    ensures
        body@.len() == 0 ==> r is None,
        json_of_bytes(body@) is None ==> r is None,
        body@.len() > 0 ==> (json_of_bytes(body@) matches Some(v) ==> {
            let snake = json_member(v, "user_token"@);
            let camel = json_member(v, "userToken"@);
            &&& snake matches Some(member) ==> match json_string(member) {
                Some(s) => r is Some && r->0@ == trimmed(s),
                None => r is None,
            }
            &&& snake is None ==> (camel matches Some(member) ==> match json_string(member) {
                Some(s) => r is Some && r->0@ == trimmed(s),
                None => r is None,
            })
            &&& snake is None && camel is None ==> r is None
        }),
{
}

/// The same, of the fields once they are read.
pub proof fn tokens_are_found_in_fields(
    snake: Option<Scalar>,
    camel: Option<Scalar>,
    r: Option<String>,
)
    requires
        call_ensures(explicit_token, (snake, camel), r),
    ensures
        snake matches Some(Scalar::Text(s)) ==> r is Some && r->0@ == trimmed(s@),
        snake is Some && !(snake->0 is Text) ==> r is None,
        snake is None ==> (camel matches Some(Scalar::Text(s)) ==> r is Some && r->0@ == trimmed(
            s@,
        )),
        snake is None && (camel is None || !(camel->0 is Text)) ==> r is None,
{
}

/// `step` tests `token` under `client_id`, or says what is missing.
pub open spec fn tests_token(step: TestStep, client_id: Seq<char>, token: Seq<char>) -> bool {
    &&& step is Ask <==> client_id.len() > 0 && token.len() > 0
    &&& client_id.len() == 0 ==> !step->Done_0.success && step->Done_0.message@
        == "Simkl Client ID is not configured in Server Settings"@
    &&& client_id.len() > 0 && token.len() == 0 ==> !step->Done_0.success && step->Done_0.message@
        == "No Simkl access token provided or configured"@
    &&& step matches TestStep::Ask(request) ==> {
        &&& request.url@ == "https://api.simkl.com"@ + "/users/settings?client_id="@ + cleaned(
            client_id,
        ) + "&app-name=remux&app-version=1.0"@
        &&& request.method == Method::GET
        &&& request.headers@.len() == 4
        &&& request.headers@[0].0@ == "simkl-api-key"@ && request.headers@[0].1@ == cleaned(
            client_id,
        )
        &&& request.headers@[1].0@ == "Authorization"@ && request.headers@[1].1@ == "Bearer "@
            + cleaned(token)
        &&& request.body is Empty
    }
}

proof fn lemma_tests_token(
    step: TestStep,
    client_id: Seq<char>,
    explicit: Option<Seq<char>>,
    existing: Seq<char>,
)
    requires
        step@ == crate::api::test_begins(client_id, explicit, existing),
    ensures
        tests_token(step, client_id, crate::api::token_to_test(explicit, existing)),
{
    if let TestStep::Ask(request) = step {
        assert(step@ == crate::api::TestStepView::Ask(request@));
        assert(crate::http::pairs(request.headers@).len() == 4);
        crate::laws::scrobble::lemma_header(request.headers@, 0);
        crate::laws::scrobble::lemma_header(request.headers@, 1);
        assert(request@.body == crate::http::BodyView::Empty);
    }
    if let TestStep::Done(result) = step {
        assert(step@ == crate::api::TestStepView::Done(result@));
        assert(result@.message == result.message@ && result@.success == result.success);
    }
}

/// A connection test tests the token of the request unless that is empty or
/// the mask, and then the stored one.
pub proof fn given_tokens_are_tested(
    client_id: &str,
    explicit: Option<String>,
    existing: String,
    r: TestStep,
)
    requires
        call_ensures(begin_connection_test, (client_id, explicit, existing), r),
    ensures
        ({
            let given = explicit is Some && explicit->0@.len() > 0 && explicit->0@ != "••••••••"@;
            &&& given ==> tests_token(r, client_id@, explicit->0@)
            &&& !given ==> tests_token(r, client_id@, existing@)
        }),
{
    lemma_tests_token(r, client_id@, opt_text(explicit), existing@);
}

/// A user's connection is tested for that user and for administrators, with
/// the token in the body of the request or, failing that, the stored one.
pub proof fn connections_are_tested_for_their_user(
    session: &AuthSession,
    user_id: u128,
    base: &SimklConfig,
    stored: Option<SimklConfig>,
    body: &[u8],
    credentials: (String, SimklUserConfig),
    explicit: Option<String>,
    r: Result<TestStep, ApiError>,
)
    requires
        call_ensures(
            test_user_simkl_connection,
            (session, user_id, base, stored, body),
            r,
        ),
        call_ensures(SimklService::get_credentials, (base, stored, user_id), credentials),
        call_ensures(extract_token, (body,), explicit),
    ensures
        r is Ok <==> session.user.id == user_id || session.user.is_admin,
        r matches Err(e) ==> is_forbidden(e),
        r matches Ok(step) ==> {
            let given = explicit is Some && explicit->0@.len() > 0 && explicit->0@ != "••••••••"@;
            &&& given ==> tests_token(step, credentials.0@, explicit->0@)
            &&& !given ==> tests_token(step, credentials.0@, credentials.1.user_token@)
        },
{
    if let Err(e) = r {
        lemma_refusal(e);
    }
    if let Ok(step) = r {
        assert(credentials.1@.user_token == credentials.1.user_token@);
        lemma_tests_token(
            step,
            credentials.0@,
            opt_text(explicit),
            credentials.1.user_token@,
        );
    }
}

/// A connection test ends as the service reports it.
pub proof fn connection_tests_end_as_reported(
    reply: Reply<SimklUserSettings>,
    report: Result<String, String>,
    r: SimklTestResultDto,
)
    requires
        call_ensures(SimklService::connection_reply, (reply,), report),
        call_ensures(end_connection_test, (reply,), r),
    ensures
        r.success <==> report is Ok,
        report matches Ok(message) ==> r.message@ == message@,
        report matches Err(message) ==> r.message@ == message@,
{
    assert(r@.message == r.message@ && r@.success == r.success);
}

/// A sign-in is begun for its user and for administrators, where a client
/// identifier is configured, as the service begins it.
pub proof fn sign_ins_begin_where_configured(
    session: &AuthSession,
    user_id: u128,
    base: &SimklConfig,
    stored: Option<SimklConfig>,
    full: SimklConfig,
    query: &SimklDeviceStartQuery,
    r: Result<(Request, DeviceStart), ApiError>,
)
    requires
        call_ensures(Settings::get_simkl_config, (base, stored), full),
        call_ensures(
            start_user_simkl_device_auth,
            (session, user_id, base, stored, query),
            r,
        ),
    ensures
        ({
            let permitted = session.user.id == user_id || session.user.is_admin;
            let missing = full.client_id@.len() == 0;
            let blank = cleaned(full.client_id@).len() == 0;
            &&& r is Ok <==> permitted && !missing && !blank
            &&& !permitted ==> is_forbidden(r->Err_0)
            &&& permitted && missing ==> is_refusal(
                r->Err_0,
                Refusal::BadRequest,
                "Simkl Client ID is not configured in Server Settings"@,
                "missing_client_id"@,
            )
            &&& permitted && !missing && blank ==> r->Err_0.refusal == Refusal::BadRequest
                && r->Err_0.shown@ == r->Err_0.reason@ && r->Err_0.reason@
                == "Simkl Client ID is empty. Please configure your Client ID in Settings > Simkl."@
            &&& r matches Ok(begun) ==> {
                &&& crate::laws::device_auth::is_form(
                    begun.0,
                    "https://api.simkl.com"@ + "/oauth2/device"@,
                    seq![
                        ("client_id"@, cleaned(full.client_id@)),
                        ("scope"@, "media:read media:write"@),
                    ],
                )
                &&& begun.1.spec_client_id() == cleaned(full.client_id@)
                &&& begun.1.spec_redirect() == opt_text(query.redirect)
            }
        }),
{
    assert(full@.client_id == full.client_id@);
    if let Err(e) = r {
        lemma_refusal(e);
    }
    if let Ok(begun) = r {
        crate::laws::device_auth::lemma_is_form(
            begun.0,
            "https://api.simkl.com"@ + "/oauth2/device"@,
            seq![
                ("client_id"@, cleaned(full.client_id@)),
                ("scope"@, "media:read media:write"@),
            ],
        );
    }
}

/// A poll is made for its user and for administrators, where a client
/// identifier is configured; a poll that is refused changes nothing.
pub proof fn polls_are_made_where_configured(
    auths: &mut DeviceAuths,
    twin: &mut DeviceAuths,
    session: &AuthSession,
    user_id: u128,
    base: &SimklConfig,
    stored: Option<SimklConfig>,
    full: SimklConfig,
    client_id: &str,
    now: Moment,
    r: Result<PollStep, ApiError>,
    direct: PollStep,
)
    requires
        call_ensures(Settings::get_simkl_config, (base, stored), full),
        call_ensures(
            poll_user_simkl_device_auth,
            (auths, session, user_id, base, stored, now),
            r,
        ),
        old(twin)@ == old(auths)@,
        client_id@ == full.client_id@,
        call_ensures(DeviceAuths::poll_device_auth, (twin, client_id, user_id, now), direct),
    ensures
        ({
            let permitted = session.user.id == user_id || session.user.is_admin;
            let missing = full.client_id@.len() == 0;
            &&& r is Ok <==> permitted && !missing
            &&& r is Err ==> final(auths)@ == old(auths)@
            &&& !permitted ==> is_forbidden(r->Err_0)
            &&& permitted && missing ==> is_refusal(
                r->Err_0,
                Refusal::BadRequest,
                "Simkl Client ID is not configured in Server Settings"@,
                "missing_client_id"@,
            )
            &&& r matches Ok(step) ==> final(auths)@ == final(twin)@ && step@ == direct@
        }),
{
    assert(full@.client_id == full.client_id@);
    if let Err(e) = r {
        lemma_refusal(e);
    }
}

/// An offer is shown as it is, all but the device code.
pub proof fn offers_are_shown(offer: &SimklDeviceCodeResponse, r: SimklDeviceAuthDto)
    requires
        call_ensures(device_auth_dto, (offer,), r),
    ensures
        r.user_code@ == offer.user_code@,
        r.verification_uri@ == offer.verification_uri@,
        opt_text(r.verification_uri_complete) == opt_text(offer.verification_uri_complete),
        r.expires_in == offer.expires_in,
        r.interval == offer.interval,
{
    assert(offer@.user_code == offer.user_code@);
    assert(offer@.verification_uri == offer.verification_uri@);
    assert(offer@.verification_uri_complete == opt_text(offer.verification_uri_complete));
}

/// A failure of the sign-in is shown by its message.
pub proof fn failures_are_shown(message: String, r: ApiError)
    requires
        call_ensures(sign_in_failure, (message,), r),
    ensures
        is_refusal(r, Refusal::BadRequest, message@, message@),
{
    lemma_refusal(r);
}

} // verus!
