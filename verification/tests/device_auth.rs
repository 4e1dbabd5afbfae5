use remux_sync::device_auth::{
    DeviceAuths, PinVerdict, PollContext, PollStep, SimklPollResultDto, StartStep, TokenReply,
};
use remux_sync::http::{Body, Method, Reply, Status};
use remux_sync::media::SimklService;
use remux_sync::settings::SimklUserConfig;
use remux_sync::simkl::{
    SimklDeviceCodeResponse, SimklPinPollResponse, SimklTokenErrorResponse, SimklTokenResponse,
};
use remux_sync::time::Moment;

const USER: u128 = 7;

fn status(code: u16) -> Status {
    Status::from_u16(code).unwrap()
}

fn answered<T>(code: u16, parsed: Option<T>, body: &str) -> Reply<T> {
    Reply::Answered { status: status(code), parsed, body: body.to_string() }
}

fn at(secs: u64) -> Moment {
    Moment { nanos: secs * 1_000_000_000 }
}

fn pair(name: &str, value: &str) -> (String, String) {
    (name.to_string(), value.to_string())
}

fn offer(device_code: Option<&str>) -> SimklDeviceCodeResponse {
    SimklDeviceCodeResponse {
        device_code: device_code.map(|c| c.to_string()),
        user_code: "ABCD".to_string(),
        verification_uri: "https://simkl.com/pin".to_string(),
        verification_uri_complete: None,
        expires_in: 900,
        interval: 5,
    }
}

fn begun(device_code: Option<&str>) -> DeviceAuths {
    let mut auths = DeviceAuths::new();
    auths.begin(USER, offer(device_code), at(0));
    auths
}

fn result(step: PollStep) -> SimklPollResultDto {
    match step {
        PollStep::Done(result) => result,
        other => panic!("unexpected step: {:?}", other),
    }
}

fn told(status: &str, message: Option<&str>) -> SimklPollResultDto {
    SimklPollResultDto { status: status.to_string(), message: message.map(|m| m.to_string()) }
}

fn token_context(auths: &mut DeviceAuths, now: Moment) -> PollContext {
    match auths.poll_device_auth("cid", USER, now) {
        PollStep::AskForToken(_, context) => context,
        other => panic!("unexpected step: {:?}", other),
    }
}

fn pin_context(auths: &mut DeviceAuths, now: Moment) -> PollContext {
    match auths.poll_device_auth("cid", USER, now) {
        PollStep::AskForPin(_, context) => context,
        other => panic!("unexpected step: {:?}", other),
    }
}

fn token_error(error: &str, description: Option<&str>) -> TokenReply {
    TokenReply::Answered {
        status: status(400),
        token: None,
        error: Some(SimklTokenErrorResponse {
            error: error.to_string(),
            error_description: description.map(|d| d.to_string()),
        }),
        body: String::new(),
    }
}

fn pin_state(result: &str, token: Option<&str>, message: Option<&str>) -> Reply<SimklPinPollResponse> {
    answered(
        200,
        Some(SimklPinPollResponse {
            result: result.to_string(),
            access_token: token.map(|t| t.to_string()),
            message: message.map(|m| m.to_string()),
        }),
        "",
    )
}

#[test]
fn sign_in_needs_a_client_id() {
    for blank in ["", "  ", " \"\" ", "''"] {
        assert_eq!(
            SimklService::start_device_auth(blank, None).unwrap_err(),
            "Simkl Client ID is empty. Please configure your Client ID in Settings > Simkl."
        );
    }
}

#[test]
fn sign_in_asks_for_a_device_code() {
    let (request, _) = SimklService::start_device_auth(" 'cid' ", None).unwrap();
    assert_eq!(request.method, Method::POST);
    assert_eq!(request.url, "https://api.simkl.com/oauth2/device");
    assert_eq!(
        request.headers,
        vec![pair("User-Agent", "remux-server/1.0"), pair("Accept", "application/json")]
    );
    match request.body {
        Body::Form(form) => assert_eq!(
            form,
            vec![pair("client_id", "cid"), pair("scope", "media:read media:write")]
        ),
        other => panic!("unexpected body: {:?}", other),
    }
}

#[test]
fn unknown_application_falls_back_to_the_pin() {
    for body in ["this app is not enabled for OAuth 2.0", "{\"error\":\"invalid_client\"}"] {
        let (_, start) = SimklService::start_device_auth("cid", Some(" http://h/a b?x=1 ")).unwrap();
        match SimklService::device_code_reply(start, answered(401, None, body)) {
            StartStep::AskForPin(request) => {
                assert_eq!(request.method, Method::GET);
                assert_eq!(
                    request.url,
                    "https://api.simkl.com/oauth/pin?client_id=cid&redirect=http%3A%2F%2Fh%2Fa%20b%3Fx%3D1"
                );
                assert_eq!(
                    request.headers,
                    vec![pair("simkl-api-key", "cid"), pair("Accept", "application/json")]
                );
            }
            other => panic!("unexpected step: {:?}", other),
        }
    }
}

#[test]
fn blank_redirect_does_not_count() {
    for redirect in [None, Some("  ")] {
        let (_, start) = SimklService::start_device_auth("cid", redirect).unwrap();
        match SimklService::device_code_reply(start, answered(401, None, "invalid_client")) {
            StartStep::AskForPin(request) => {
                assert_eq!(request.url, "https://api.simkl.com/oauth/pin?client_id=cid");
            }
            other => panic!("unexpected step: {:?}", other),
        }
    }
}

#[test]
fn refused_sign_in_is_explained() {
    let fail = |reply: Reply<SimklDeviceCodeResponse>| {
        let (_, start) = SimklService::start_device_auth("cid", None).unwrap();
        match SimklService::device_code_reply(start, reply) {
            StartStep::Fail(message) => message,
            other => panic!("unexpected step: {:?}", other),
        }
    };
    assert_eq!(fail(Reply::Unreachable), "Failed to connect to Simkl API");
    assert_eq!(
        fail(answered(200, None, "?")),
        "Failed to parse Simkl V2 device code response"
    );
    assert_eq!(
        fail(answered(400, None, r#"{"error_description":"bad","message":"worse"}"#)),
        "Simkl API: bad"
    );
    assert_eq!(fail(answered(400, None, r#"{"message":"worse"}"#)), "Simkl API: worse");
    assert_eq!(
        fail(answered(401, None, "go away")),
        "Simkl device authorization failed (401 Unauthorized): go away"
    );
    assert_eq!(
        fail(answered(500, None, "{\"message\":5}")),
        "Simkl device authorization failed (500 Internal Server Error): {\"message\":5}"
    );
}

#[test]
fn refused_pin_is_explained() {
    let fail = |reply: Reply<SimklDeviceCodeResponse>| match SimklService::pin_offer_reply(reply) {
        StartStep::Fail(message) => message,
        other => panic!("unexpected step: {:?}", other),
    };
    assert_eq!(fail(Reply::Unreachable), "Failed to connect to Simkl API");
    assert_eq!(fail(answered(200, None, "?")), "Failed to parse Simkl device code response");
    assert_eq!(fail(answered(403, None, r#"{"message":"no"}"#)), "Simkl API: no");
    assert_eq!(
        fail(answered(403, None, r#"{"error_description":"no"}"#)),
        "Simkl device authorization failed (403 Forbidden): {\"error_description\":\"no\"}"
    );
    match SimklService::pin_offer_reply(answered(200, Some(offer(None)), "")) {
        StartStep::Offer(offer) => assert_eq!(offer.user_code, "ABCD"),
        other => panic!("unexpected step: {:?}", other),
    }
}

#[test]
fn offer_has_its_gaps_filled() {
    let mut bare = offer(None);
    bare.verification_uri = String::new();
    let full = SimklService::complete_offer(bare);
    assert_eq!(full.verification_uri, "https://simkl.com/pin");
    assert_eq!(
        full.verification_uri_complete.as_deref(),
        Some("https://simkl.com/pin?user_code=ABCD")
    );
    let again = SimklService::complete_offer(full);
    assert_eq!(
        again.verification_uri_complete.as_deref(),
        Some("https://simkl.com/pin?user_code=ABCD")
    );
    let mut codeless = offer(None);
    codeless.user_code = String::new();
    assert_eq!(SimklService::complete_offer(codeless).verification_uri_complete, None);
}

#[test]
fn sign_in_lasts_and_waits_at_least_so_long() {
    let mut auths = DeviceAuths::new();
    let mut hasty = offer(None);
    hasty.expires_in = 1;
    hasty.interval = 1;
    auths.begin(USER, hasty, at(100));
    let pending = auths.session(USER).unwrap();
    assert_eq!(pending.expires_at, 130_000_000_000);
    assert_eq!(pending.interval, 5);
    assert_eq!(pending.last_polled_at, None);
    assert!(auths.session(USER + 1).is_none());
    let mut slow = offer(Some("dev"));
    slow.interval = 12;
    auths.begin(USER, slow, at(100));
    let pending = auths.session(USER).unwrap();
    assert_eq!(pending.expires_at, 1_000_000_000_000);
    assert_eq!(pending.interval, 12);
    assert_eq!(pending.device_code.as_deref(), Some("dev"));
}

#[test]
fn polling_without_a_sign_in_starts_again() {
    let mut auths = DeviceAuths::new();
    assert_eq!(
        result(auths.poll_device_auth("cid", USER, at(0))),
        told("expired", Some("No active login session found. Please start again."))
    );
}

#[test]
fn expired_sign_in_is_forgotten() {
    let mut auths = begun(None);
    assert_eq!(
        result(auths.poll_device_auth("cid", USER, at(900))),
        told("expired", Some("Authorization code expired. Please start again."))
    );
    assert!(auths.session(USER).is_none());
}

#[test]
fn polls_keep_their_interval() {
    let mut auths = begun(Some("dev"));
    token_context(&mut auths, at(1));
    assert_eq!(result(auths.poll_device_auth("cid", USER, at(5))), told("pending", None));
    token_context(&mut auths, at(6));
}

#[test]
fn token_is_asked_by_the_device_code() {
    let mut auths = begun(Some("dev"));
    match auths.poll_device_auth(" cid ", USER, at(1)) {
        PollStep::AskForToken(request, _) => {
            assert_eq!(request.url, "https://api.simkl.com/oauth2/token");
            assert_eq!(request.method, Method::POST);
            match request.body {
                Body::Form(form) => assert_eq!(
                    form,
                    vec![
                        pair("grant_type", "urn:ietf:params:oauth:grant-type:device_code"),
                        pair("client_id", "cid"),
                        pair("device_code", "dev"),
                    ]
                ),
                other => panic!("unexpected body: {:?}", other),
            }
        }
        other => panic!("unexpected step: {:?}", other),
    }
}

#[test]
fn pin_is_asked_by_the_user_code() {
    let mut auths = begun(None);
    match auths.poll_device_auth("cid", USER, at(1)) {
        PollStep::AskForPin(request, _) => {
            assert_eq!(request.url, "https://api.simkl.com/oauth/pin/ABCD?client_id=cid");
            assert_eq!(request.method, Method::GET);
        }
        other => panic!("unexpected step: {:?}", other),
    }
}

#[test]
fn granted_token_is_saved_then_concluded() {
    let mut auths = begun(Some("dev"));
    let context = token_context(&mut auths, at(1));
    let token = SimklTokenResponse {
        access_token: "tok".to_string(),
        ..SimklTokenResponse::default()
    };
    let reply = TokenReply::Answered {
        status: status(200),
        token: Some(token),
        error: None,
        body: String::new(),
    };
    match auths.token_reply(context, reply) {
        PollStep::SaveToken(token, context) => {
            assert_eq!(token, "tok");
            assert!(auths.session(USER).is_some());
            assert_eq!(
                result(auths.token_saved(context)),
                told("success", Some("Connected successfully to Simkl!"))
            );
            assert!(auths.session(USER).is_none());
        }
        other => panic!("unexpected step: {:?}", other),
    }
}

#[test]
fn empty_token_goes_on_with_the_pin() {
    let mut auths = begun(Some("dev"));
    let context = token_context(&mut auths, at(1));
    let reply = TokenReply::Answered {
        status: status(200),
        token: Some(SimklTokenResponse::default()),
        error: None,
        body: String::new(),
    };
    match auths.token_reply(context, reply) {
        PollStep::AskForPin(request, _) => {
            assert_eq!(request.url, "https://api.simkl.com/oauth/pin/ABCD?client_id=cid");
        }
        other => panic!("unexpected step: {:?}", other),
    }
}

#[test]
fn token_errors_are_told_apart() {
    let mut auths = begun(Some("dev"));
    let context = token_context(&mut auths, at(1));
    assert_eq!(
        result(auths.token_reply(context, token_error("authorization_pending", None))),
        told("pending", None)
    );
    assert_eq!(auths.session(USER).unwrap().interval, 5);

    let context = token_context(&mut auths, at(10));
    assert_eq!(
        result(auths.token_reply(context, token_error("slow_down", None))),
        told("pending", None)
    );
    assert_eq!(auths.session(USER).unwrap().interval, 10);
    assert_eq!(result(auths.poll_device_auth("cid", USER, at(19))), told("pending", None));

    let context = token_context(&mut auths, at(20));
    assert_eq!(
        result(auths.token_reply(context, token_error("expired_token", Some("x")))),
        told("expired", Some("Authorization code expired. Please start again."))
    );
    assert!(auths.session(USER).is_none());

    let mut auths = begun(Some("dev"));
    let context = token_context(&mut auths, at(1));
    assert_eq!(
        result(auths.token_reply(context, token_error("access_denied", Some("no way")))),
        told("error", Some("no way"))
    );
    assert!(auths.session(USER).is_none());

    let mut auths = begun(Some("dev"));
    let context = token_context(&mut auths, at(1));
    assert_eq!(
        result(auths.token_reply(context, token_error("access_denied", None))),
        told("error", Some("access_denied"))
    );
}

#[test]
fn odd_token_replies_are_told() {
    let reply = |code: u16, body: &str| TokenReply::Answered {
        status: status(code),
        token: None,
        error: None,
        body: body.to_string(),
    };
    let mut auths = begun(Some("dev"));
    let context = token_context(&mut auths, at(1));
    match auths.token_reply(context, TokenReply::Unreachable) {
        PollStep::Fail(message) => assert_eq!(message, "Failed to poll Simkl token endpoint"),
        other => panic!("unexpected step: {:?}", other),
    }
    assert!(auths.session(USER).is_some());

    let context = token_context(&mut auths, at(10));
    match auths.token_reply(context, reply(200, "?")) {
        PollStep::Fail(message) => assert_eq!(message, "Failed to parse Simkl token response"),
        other => panic!("unexpected step: {:?}", other),
    }

    let context = token_context(&mut auths, at(20));
    assert_eq!(
        result(auths.token_reply(context, reply(400, "huh"))),
        told("error", Some("Simkl API error (400): huh"))
    );

    let mut auths = begun(Some("dev"));
    let context = token_context(&mut auths, at(1));
    assert_eq!(
        result(auths.token_reply(context, reply(502, "gone"))),
        told("error", Some("Simkl API error (502 Bad Gateway): gone"))
    );
    assert!(auths.session(USER).is_none());
}

#[test]
fn approved_pin_hands_over_its_token() {
    let mut auths = begun(None);
    let context = pin_context(&mut auths, at(1));
    match auths.pin_reply(context, pin_state("ok", Some("tok"), None)) {
        PollStep::SaveToken(token, _) => assert_eq!(token, "tok"),
        other => panic!("unexpected step: {:?}", other),
    }
}

#[test]
fn pin_messages_are_told_apart() {
    let mut auths = begun(None);
    let context = pin_context(&mut auths, at(1));
    assert_eq!(
        result(auths.pin_reply(context, pin_state("KO", None, Some("Authorization PENDING")))),
        told("pending", None)
    );
    let context = pin_context(&mut auths, at(10));
    assert_eq!(
        result(auths.pin_reply(context, pin_state("KO", None, Some("Slow down")))),
        told("pending", None)
    );
    assert_eq!(auths.session(USER).unwrap().interval, 10);
    let context = pin_context(&mut auths, at(20));
    assert_eq!(
        result(auths.pin_reply(context, pin_state("KO", Some("tok"), Some("Denied")))),
        told("expired", Some("Denied"))
    );
    assert!(auths.session(USER).is_none());

    let mut auths = begun(None);
    let context = pin_context(&mut auths, at(1));
    assert_eq!(
        result(auths.pin_reply(context, pin_state("OK", Some(""), None))),
        told("expired", Some("Authorization code expired or invalid."))
    );
}

#[test]
fn odd_pin_replies_are_told() {
    let mut auths = begun(None);
    let context = pin_context(&mut auths, at(1));
    match auths.pin_reply(context, Reply::Unreachable) {
        PollStep::Fail(message) => assert_eq!(message, "Failed to poll Simkl PIN endpoint"),
        other => panic!("unexpected step: {:?}", other),
    }
    let context = pin_context(&mut auths, at(10));
    match auths.pin_reply(context, answered(200, None, "?")) {
        PollStep::Fail(message) => assert_eq!(message, "Failed to parse Simkl PIN poll response"),
        other => panic!("unexpected step: {:?}", other),
    }
    let context = pin_context(&mut auths, at(20));
    assert_eq!(
        result(auths.pin_reply(context, answered(404, None, "gone"))),
        told("expired", Some("Simkl authorization error (404 Not Found): gone"))
    );
    let mut auths = begun(None);
    let context = pin_context(&mut auths, at(1));
    assert_eq!(
        result(auths.pin_reply(context, answered(500, None, "boom"))),
        told("error", Some("Simkl API error (500 Internal Server Error): boom"))
    );
    assert!(auths.session(USER).is_none());
}

#[test]
fn sign_ins_of_others_are_left_alone() {
    let mut auths = begun(Some("dev"));
    auths.begin(USER + 1, offer(None), at(0));
    let context = token_context(&mut auths, at(1));
    auths.token_reply(context, token_error("access_denied", None));
    assert!(auths.session(USER).is_none());
    assert!(auths.session(USER + 1).is_some());
}

#[test]
fn verdicts_read_small_letters() {
    assert_eq!(DeviceAuths::pin_verdict("still pending, slow"), PinVerdict::Pending);
    assert_eq!(DeviceAuths::pin_verdict("too slow"), PinVerdict::SlowDown);
    assert_eq!(DeviceAuths::pin_verdict("Pending"), PinVerdict::Ended);
    assert_eq!(DeviceAuths::pin_verdict(""), PinVerdict::Ended);
}

#[test]
fn messages_are_acted_on_by_verdict() {
    let mut auths = begun(None);
    assert_eq!(
        result(auths.pin_message(USER, "m".to_string(), PinVerdict::Pending)),
        told("pending", None)
    );
    result(auths.pin_message(USER, "m".to_string(), PinVerdict::SlowDown));
    assert_eq!(auths.session(USER).unwrap().interval, 10);
    assert_eq!(
        result(auths.pin_message(USER, "m".to_string(), PinVerdict::Ended)),
        told("expired", Some("m"))
    );
}

#[test]
fn refusals_show_the_reason_or_the_reply() {
    assert_eq!(
        SimklService::refusal(Some("why".to_string()), status(400), "body"),
        "Simkl API: why"
    );
    assert_eq!(
        SimklService::refusal(None, status(400), "body"),
        "Simkl device authorization failed (400 Bad Request): body"
    );
}

#[test]
fn signing_in_switches_scrobbling_on() {
    let existing = SimklUserConfig {
        enabled: false,
        user_token: "old".to_string(),
        sync_continue_watching: true,
    };
    let cfg = SimklService::approved_config(Some(existing), "new".to_string());
    assert!(cfg.enabled && cfg.sync_continue_watching);
    assert_eq!(cfg.user_token, "new");
    let cfg = SimklService::approved_config(None, "new".to_string());
    assert!(cfg.enabled && !cfg.sync_continue_watching);
    assert_eq!(SimklService::scrobble_gate("c", &cfg), None);
}
