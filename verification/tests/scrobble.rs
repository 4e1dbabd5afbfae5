use remux_sync::http::{Body, Method, Reply, Request, Status};
use remux_sync::media::{ExternalIds, Media, MediaKind, ResolvedMedia, SimklService};
use remux_sync::progress::Progress;
use remux_sync::scrobble::SkipReason;
use remux_sync::settings::{SimklConfig, SimklUserConfig, UserTable};
use remux_sync::simkl::{SimklIds, SimklMovie, SimklUserProfile, SimklUserSettings};

fn pct(x: f64) -> Progress {
    Progress { bits: x.to_bits() }
}

fn calculate_progress(position: i64, run_time: i64) -> f64 {
    let scaled = pct((position as f64 / run_time as f64) * 100.0);
    f64::from_bits(SimklService::calculate_progress(position, run_time, scaled).bits)
}

fn user(enabled: bool, token: &str) -> SimklUserConfig {
    SimklUserConfig {
        enabled,
        user_token: token.to_string(),
        sync_continue_watching: false,
    }
}

fn movie(runtime: Option<i64>) -> ResolvedMedia {
    ResolvedMedia::Movie {
        media: Media {
            id: 1,
            kind: MediaKind::Movie,
            title: "Heat".to_string(),
            released_at: None,
            external_ids: ExternalIds::default(),
            idx: None,
            parent_idx: None,
            grandparent_id: None,
            runtime,
        },
        movie: SimklMovie {
            title: Some("Heat".to_string()),
            year: Some(1995),
            ids: SimklIds { imdb: Some("tt0113277".to_string()), ..SimklIds::default() },
        },
    }
}

fn progress_of(request: Option<Request>) -> f64 {
    match request.unwrap().body {
        Body::Json(payload) => f64::from_bits(payload.progress.unwrap().bits),
        other => panic!("unexpected body: {:?}", other),
    }
}

fn answered<T>(code: u16, parsed: Option<T>, body: &str) -> Reply<T> {
    Reply::Answered { status: Status::from_u16(code).unwrap(), parsed, body: body.to_string() }
}

#[test]
fn test_calculate_progress() {
    // Zero or negative
    assert_eq!(calculate_progress(0, 100), 0.0);
    assert_eq!(calculate_progress(-10, 100), 0.0);
    assert_eq!(calculate_progress(50, 0), 0.0);

    // Normal percentages
    assert_eq!(calculate_progress(50, 100), 50.0);
    assert_eq!(calculate_progress(800, 1000), 80.0);

    // Overflow clamping
    assert_eq!(calculate_progress(1200, 1000), 100.0);
}

#[test]
fn progress_rises_with_the_position() {
    let mut last = 0.0;
    for position in -5..=130 {
        let now = calculate_progress(position, 120);
        assert!(last <= now && (0.0..=100.0).contains(&now));
        if position >= 120 {
            assert_eq!(now, 100.0);
        }
        last = now;
    }
    assert_eq!(calculate_progress(0, 0), 0.0);
}

#[test]
fn ticks_come_from_the_player_or_the_medium() {
    let resolved = movie(Some(60));
    let media = resolved.media();
    assert_eq!(SimklService::playback_ticks(media, Some(5), Some(9)), (5, 9));
    assert_eq!(SimklService::playback_ticks(media, None, None), (0, 600_000_000));
    let resolved = movie(None);
    assert_eq!(SimklService::playback_ticks(resolved.media(), Some(-1), None), (-1, 0));
}

#[test]
fn scrobbling_needs_client_consent_and_token() {
    assert_eq!(
        SimklService::scrobble_gate("", &user(true, "t")),
        Some(SkipReason::NoClientId)
    );
    assert_eq!(
        SimklService::scrobble_gate("c", &user(false, "t")),
        Some(SkipReason::Disabled)
    );
    assert_eq!(
        SimklService::scrobble_gate("c", &user(true, "")),
        Some(SkipReason::NoToken)
    );
    assert_eq!(SimklService::scrobble_gate("c", &user(true, "t")), None);
}

#[test]
fn start_is_reported() {
    let resolved = movie(Some(100));
    let request = SimklService::handle_start(
        " \"cid\" ",
        &user(true, "'tok'"),
        Some(&resolved),
        Some(500_000_000),
        None,
        pct(50.0),
    )
    .unwrap();
    assert_eq!(request.method, Method::POST);
    assert_eq!(
        request.url,
        "https://api.simkl.com/scrobble/start?client_id=cid&app-name=remux&app-version=1.0"
    );
    let pair = |a: &str, b: &str| (a.to_string(), b.to_string());
    assert_eq!(
        request.headers,
        vec![
            pair("simkl-api-key", "cid"),
            pair("Authorization", "Bearer tok"),
            pair("Content-Type", "application/json"),
            pair("Accept", "application/json"),
        ]
    );
    match request.body {
        Body::Json(payload) => {
            assert_eq!(payload, resolved.to_payload(pct(50.0)));
            assert_eq!(payload.movie.unwrap().ids.imdb.as_deref(), Some("tt0113277"));
        }
        other => panic!("unexpected body: {:?}", other),
    }
}

#[test]
fn pause_and_stop_have_their_addresses() {
    let resolved = movie(Some(100));
    let cfg = user(true, "tok");
    let pause =
        SimklService::handle_pause("c", &cfg, Some(&resolved), Some(1), None, pct(1.0)).unwrap();
    assert_eq!(
        pause.url,
        "https://api.simkl.com/scrobble/pause?client_id=c&app-name=remux&app-version=1.0"
    );
    let stop = SimklService::handle_stop(
        "c",
        &cfg,
        Some(&resolved),
        Some(1),
        None,
        pct(1.0),
        pct(80.0),
        false,
    )
    .unwrap();
    assert_eq!(
        stop.url,
        "https://api.simkl.com/scrobble/stop?client_id=c&app-name=remux&app-version=1.0"
    );
}

#[test]
fn nothing_is_reported_without_consent_or_medium() {
    let resolved = movie(Some(100));
    let off = user(false, "tok");
    assert!(SimklService::handle_start("c", &off, Some(&resolved), None, None, pct(0.0)).is_none());
    assert!(SimklService::handle_pause("c", &off, Some(&resolved), None, None, pct(0.0)).is_none());
    let on = user(true, "tok");
    assert!(SimklService::handle_start("c", &on, None, None, None, pct(0.0)).is_none());
    assert!(SimklService::handle_pause("", &on, Some(&resolved), None, None, pct(0.0)).is_none());
    assert!(SimklService::handle_stop(
        "c",
        &user(true, ""),
        Some(&resolved),
        None,
        None,
        pct(0.0),
        pct(80.0),
        true
    )
    .is_none());
}

#[test]
fn stop_counts_as_watched_from_the_threshold_on() {
    let resolved = movie(Some(100));
    let cfg = user(true, "tok");
    let stop = |scaled: f64, played: bool| {
        progress_of(SimklService::handle_stop(
            "c",
            &cfg,
            Some(&resolved),
            Some(1),
            Some(100),
            pct(scaled),
            pct(80.0),
            played,
        ))
    };
    assert_eq!(stop(40.0, false), 40.0);
    assert_eq!(stop(40.0, true), 80.0);
    assert_eq!(stop(80.0, false), 80.0);
    assert_eq!(stop(95.0, false), 95.0);
    assert_eq!(stop(95.0, true), 95.0);
    assert_eq!(stop(150.0, false), 100.0);
}

#[test]
fn threshold_is_one_percent_at_least() {
    let cfg = |completion_threshold: u32| SimklConfig {
        client_id: String::new(),
        completion_threshold,
        users: UserTable::new(),
    };
    assert_eq!(SimklService::completion_threshold(&cfg(0)), 1);
    assert_eq!(SimklService::completion_threshold(&cfg(1)), 1);
    assert_eq!(SimklService::completion_threshold(&cfg(80)), 80);
}

#[test]
fn conflict_counts_as_success() {
    assert_eq!(SimklService::scrobble_reply("start", answered(201, Some(()), "")), Ok(()));
    assert_eq!(SimklService::scrobble_reply("start", answered(409, None, "again")), Ok(()));
    assert_eq!(
        SimklService::scrobble_reply("pause", answered(500, None, "oops")),
        Err("Simkl scrobble pause returned HTTP 500 Internal Server Error: oops".to_string())
    );
    assert_eq!(
        SimklService::scrobble_reply("stop", Reply::Unreachable),
        Err("failed to send request to Simkl API".to_string())
    );
}

#[test]
fn connection_is_tested_with_cleaned_credentials() {
    let request = SimklService::test_connection(" cid ", "\"tok\"");
    assert_eq!(request.method, Method::GET);
    assert_eq!(
        request.url,
        "https://api.simkl.com/users/settings?client_id=cid&app-name=remux&app-version=1.0"
    );
    assert_eq!(request.headers[0].1, "cid");
    assert_eq!(request.headers[1].1, "Bearer tok");
    assert_eq!(request.headers.len(), 4);
    assert!(matches!(request.body, Body::Empty));
}

#[test]
fn connection_replies_are_reported() {
    let named = SimklUserSettings {
        user: Some(SimklUserProfile {
            name: Some("neo".to_string()),
            ..SimklUserProfile::default()
        }),
        account: None,
    };
    let nameless = SimklUserSettings { user: None, account: None };
    assert_eq!(
        SimklService::connection_reply(answered(200, Some(named), "")),
        Ok("Connected successfully as neo".to_string())
    );
    assert_eq!(
        SimklService::connection_reply(answered(200, Some(nameless), "")),
        Ok("Connected successfully as User".to_string())
    );
    assert_eq!(
        SimklService::connection_reply(answered(200, None, "?")),
        Err("Failed to parse Simkl user settings".to_string())
    );
    assert_eq!(
        SimklService::connection_reply(answered(401, None, "")),
        Err("Unauthorized: Invalid Simkl access token".to_string())
    );
    assert_eq!(
        SimklService::connection_reply(answered(503, None, "later")),
        Err("Simkl API returned HTTP 503 Service Unavailable: later".to_string())
    );
    assert_eq!(
        SimklService::connection_reply(Reply::Unreachable),
        Err("Failed to reach Simkl API".to_string())
    );
}
