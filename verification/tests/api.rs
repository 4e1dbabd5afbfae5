use remux_sync::api::{
    begin_connection_test, device_auth_dto, end_connection_test, explicit_token, extract_token,
    get_simkl_settings, get_user_simkl_settings, mask_token, poll_user_simkl_device_auth,
    require_self_or_admin, sign_in_failure, start_user_simkl_device_auth,
    test_user_simkl_connection, update_simkl_settings, update_user_simkl_settings, ApiError,
    AuthSession, Refusal, SessionUser, SimklDeviceStartQuery, SimklGlobalConfigDto,
    SimklTestResultDto, SimklUserConfigDto, TestStep, MASKED_TOKEN,
};
use remux_sync::device_auth::{DeviceAuths, PollStep};
use remux_sync::http::{Reply, Status};
use remux_sync::json::Scalar;
use remux_sync::settings::{Settings, SimklConfig, SimklUserConfig, UserTable};
use remux_sync::simkl::{SimklDeviceCodeResponse, SimklUserSettings};
use remux_sync::time::Moment;

fn session(id: u128, is_admin: bool) -> AuthSession {
    AuthSession { user: SessionUser { id, is_admin } }
}

fn config(client_id: &str, completion_threshold: u32) -> SimklConfig {
    SimklConfig {
        client_id: client_id.to_string(),
        completion_threshold,
        users: UserTable::new(),
    }
}

fn with_token(client_id: &str, user_id: u128, token: &str) -> SimklConfig {
    let user = SimklUserConfig {
        enabled: true,
        user_token: token.to_string(),
        sync_continue_watching: false,
    };
    Settings::set_user_simkl_config(&config(client_id, 80), None, user_id, user)
}

fn forbidden() -> ApiError {
    ApiError {
        refusal: Refusal::Unauthorized,
        reason: "Forbidden".to_string(),
        shown: "forbidden".to_string(),
    }
}

fn missing_client_id() -> ApiError {
    ApiError {
        refusal: Refusal::BadRequest,
        reason: "Simkl Client ID is not configured in Server Settings".to_string(),
        shown: "missing_client_id".to_string(),
    }
}

fn failed(message: &str) -> SimklTestResultDto {
    SimklTestResultDto { success: false, message: message.to_string() }
}

#[test]
fn test_extract_token_flexible() {
    let extract = |body: &[u8]| extract_token(body);

    assert_eq!(extract(b""), None);
    assert_eq!(extract(b"{}"), None);
    assert_eq!(
        extract(br#"{"user_token":"tok123"}"#),
        Some("tok123".into())
    );
    assert_eq!(extract(br#"{"userToken":"tok456"}"#), Some("tok456".into()));
    // Ensure duplicate fields from older clients do not error
    assert_eq!(
        extract(br#"{"userToken":"tok789","user_token":"tok789"}"#),
        Some("tok789".into())
    );
}

#[test]
fn odd_bodies_hold_no_token() {
    assert_eq!(extract_token(b"{"), None);
    assert_eq!(extract_token(b"[]"), None);
    assert_eq!(extract_token(br#"{"user_token":5}"#), None);
    assert_eq!(extract_token(br#"{"user_token":null,"userToken":"a"}"#), None);
    assert_eq!(extract_token(br#"{"user_token":" a "}"#), Some("a".to_string()));
    assert_eq!(extract_token(br#"{"user_token":"a","userToken":"b"}"#), Some("a".to_string()));
}

#[test]
fn explicit_token_prefers_the_underscore() {
    let text = |s: &str| Some(Scalar::Text(s.to_string()));
    assert_eq!(explicit_token(text(" a "), text("b")), Some("a".to_string()));
    assert_eq!(explicit_token(None, text("b ")), Some("b".to_string()));
    assert_eq!(explicit_token(Some(Scalar::Other), text("b")), None);
    assert_eq!(explicit_token(None, None), None);
}

#[test]
fn settings_are_open_to_their_user_and_to_admins() {
    assert_eq!(require_self_or_admin(1, &session(1, false)), Ok(()));
    assert_eq!(require_self_or_admin(1, &session(2, true)), Ok(()));
    assert_eq!(require_self_or_admin(1, &session(2, false)), Err(forbidden()));
}

#[test]
fn tokens_are_masked() {
    assert_eq!(mask_token(""), "");
    assert_eq!(mask_token("secret"), MASKED_TOKEN);
    assert_eq!(mask_token("other"), mask_token("secret"));
}

#[test]
fn settings_of_the_server_are_saved_as_given() {
    let base = config("base", 80);
    let shown = get_simkl_settings(&base, None);
    assert_eq!(shown.client_id, "base");
    assert_eq!(shown.completion_threshold, 80);

    let payload = SimklGlobalConfigDto { client_id: "  new ".to_string(), completion_threshold: 95 };
    let saved = update_simkl_settings(&base, None, &payload);
    assert_eq!(saved.client_id, "new");
    let shown = get_simkl_settings(&base, Some(saved.clone()));
    assert_eq!(shown.client_id, "new");
    assert_eq!(shown.completion_threshold, 95);

    let payload = SimklGlobalConfigDto { client_id: " ".to_string(), completion_threshold: 0 };
    let saved = update_simkl_settings(&base, Some(saved), &payload);
    assert_eq!(saved.client_id, "");
    assert_eq!(saved.completion_threshold, 95);
    // A blank identifier gives way to the one of the file.
    assert_eq!(get_simkl_settings(&base, Some(saved)).client_id, "base");
}

#[test]
fn settings_of_a_user_hide_the_token() {
    let base = with_token("c", 1, "secret");
    let dto = get_user_simkl_settings(&session(1, false), 1, &base, None).unwrap();
    assert_eq!(
        dto,
        SimklUserConfigDto {
            enabled: true,
            user_token: MASKED_TOKEN.to_string(),
            has_token: true,
            sync_continue_watching: false,
        }
    );
    let dto = get_user_simkl_settings(&session(1, true), 2, &base, None).unwrap();
    assert_eq!(
        dto,
        SimklUserConfigDto {
            enabled: false,
            user_token: String::new(),
            has_token: false,
            sync_continue_watching: false,
        }
    );
    assert_eq!(
        get_user_simkl_settings(&session(2, false), 1, &base, None),
        Err(forbidden())
    );
}

#[test]
fn saving_the_mask_keeps_the_token() {
    let base = config("c", 80);
    let stored = with_token("c", 1, "secret");
    let me = session(1, false);
    for token in [MASKED_TOKEN, ""] {
        let payload = SimklUserConfigDto {
            enabled: false,
            user_token: token.to_string(),
            has_token: false,
            sync_continue_watching: true,
        };
        let saved =
            update_user_simkl_settings(&me, 1, &base, Some(stored.clone()), payload).unwrap();
        assert_eq!(
            Settings::get_user_simkl_config(&base, Some(saved), 1),
            SimklUserConfig {
                enabled: false,
                user_token: "secret".to_string(),
                sync_continue_watching: true,
            }
        );
    }
    let payload = SimklUserConfigDto {
        enabled: true,
        user_token: "new".to_string(),
        has_token: false,
        sync_continue_watching: false,
    };
    let saved =
        update_user_simkl_settings(&me, 1, &base, Some(stored.clone()), payload.clone()).unwrap();
    assert_eq!(Settings::get_user_simkl_config(&base, Some(saved), 1).user_token, "new");
    assert_eq!(
        update_user_simkl_settings(&session(3, false), 1, &base, Some(stored), payload)
            .unwrap_err(),
        forbidden()
    );
}

#[test]
fn saving_what_is_shown_changes_nothing() {
    let base = config("c", 80);
    let stored = with_token("c", 1, "secret");
    let me = session(1, false);
    let shown = get_user_simkl_settings(&me, 1, &base, Some(stored.clone())).unwrap();
    let saved = update_user_simkl_settings(&me, 1, &base, Some(stored.clone()), shown).unwrap();
    assert_eq!(
        Settings::get_user_simkl_config(&base, Some(saved), 1),
        Settings::get_user_simkl_config(&base, Some(stored), 1)
    );
}

#[test]
fn connection_test_needs_client_and_token() {
    let me = session(1, false);
    let test = |base: &SimklConfig, body: &[u8]| {
        match test_user_simkl_connection(&me, 1, base, None, body).unwrap() {
            TestStep::Done(result) => Err(result),
            TestStep::Ask(request) => Ok(request.headers[1].1.clone()),
        }
    };
    assert_eq!(
        test(&config("", 80), br#"{"user_token":"t"}"#),
        Err(failed("Simkl Client ID is not configured in Server Settings"))
    );
    assert_eq!(
        test(&config("c", 80), b""),
        Err(failed("No Simkl access token provided or configured"))
    );
    let stored = with_token("c", 1, "stored");
    assert_eq!(test(&stored, b""), Ok("Bearer stored".to_string()));
    assert_eq!(test(&stored, br#"{"userToken":"given"}"#), Ok("Bearer given".to_string()));
    assert_eq!(test(&stored, br#"{"userToken":"  "}"#), Ok("Bearer stored".to_string()));
    let masked = format!("{{\"user_token\":\"{}\"}}", MASKED_TOKEN);
    assert_eq!(test(&stored, masked.as_bytes()), Ok("Bearer stored".to_string()));
    assert_eq!(
        test_user_simkl_connection(&session(2, false), 1, &stored, None, b"").unwrap_err(),
        forbidden()
    );
}

#[test]
fn connection_test_prefers_the_given_token() {
    let ask = |explicit: Option<&str>, existing: &str| {
        let explicit = explicit.map(|t| t.to_string());
        match begin_connection_test("c", explicit, existing.to_string()) {
            TestStep::Ask(request) => Some(request.headers[1].1.clone()),
            TestStep::Done(_) => None,
        }
    };
    assert_eq!(ask(Some("a"), "b"), Some("Bearer a".to_string()));
    assert_eq!(ask(Some(MASKED_TOKEN), "b"), Some("Bearer b".to_string()));
    assert_eq!(ask(None, "b"), Some("Bearer b".to_string()));
    assert_eq!(ask(Some(""), ""), None);
}

#[test]
fn connection_test_ends_with_the_reply() {
    let answered = |code: u16, parsed: Option<SimklUserSettings>| Reply::Answered {
        status: Status::from_u16(code).unwrap(),
        parsed,
        body: String::new(),
    };
    assert_eq!(
        end_connection_test(answered(200, Some(SimklUserSettings::default()))),
        SimklTestResultDto {
            success: true,
            message: "Connected successfully as User".to_string(),
        }
    );
    assert_eq!(
        end_connection_test(answered(401, None)),
        failed("Unauthorized: Invalid Simkl access token")
    );
}

#[test]
fn sign_in_is_gated() {
    let query = SimklDeviceStartQuery::default();
    let start = |s: AuthSession, base: &SimklConfig| {
        start_user_simkl_device_auth(&s, 1, base, None, &query).map(|(request, _)| request.url)
    };
    assert_eq!(start(session(2, false), &config("c", 80)), Err(forbidden()));
    assert_eq!(start(session(1, false), &config("", 80)), Err(missing_client_id()));
    let message = "Simkl Client ID is empty. Please configure your Client ID in Settings > Simkl.";
    assert_eq!(
        start(session(1, false), &config("''", 80)),
        Err(sign_in_failure(message.to_string()))
    );
    assert_eq!(
        start(session(2, true), &config("c", 80)),
        Ok("https://api.simkl.com/oauth2/device".to_string())
    );
}

#[test]
fn sign_in_failures_are_shown_as_they_are() {
    assert_eq!(
        sign_in_failure("why".to_string()),
        ApiError {
            refusal: Refusal::BadRequest,
            reason: "why".to_string(),
            shown: "why".to_string(),
        }
    );
}

#[test]
fn offers_are_shown_without_the_device_code() {
    let offer = SimklDeviceCodeResponse {
        device_code: Some("dev".to_string()),
        user_code: "ABCD".to_string(),
        verification_uri: "https://simkl.com/pin".to_string(),
        verification_uri_complete: None,
        expires_in: 900,
        interval: 5,
    };
    let dto = device_auth_dto(&offer);
    assert_eq!(dto.user_code, "ABCD");
    assert_eq!(dto.verification_uri, "https://simkl.com/pin");
    assert_eq!(dto.verification_uri_complete, None);
    assert_eq!((dto.expires_in, dto.interval), (900, 5));
}

#[test]
fn polling_is_gated() {
    let mut auths = DeviceAuths::new();
    let now = Moment { nanos: 0 };
    let base = config("c", 80);
    assert_eq!(
        poll_user_simkl_device_auth(&mut auths, &session(2, false), 1, &base, None, now)
            .unwrap_err(),
        forbidden()
    );
    let bare = config("", 80);
    assert_eq!(
        poll_user_simkl_device_auth(&mut auths, &session(1, false), 1, &bare, None, now)
            .unwrap_err(),
        missing_client_id()
    );
    match poll_user_simkl_device_auth(&mut auths, &session(1, false), 1, &base, None, now).unwrap() {
        PollStep::Done(result) => assert_eq!(result.status, "expired"),
        other => panic!("unexpected step: {:?}", other),
    }
}
