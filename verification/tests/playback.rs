use remux_sync::http::{Method, Reply, Status};
use remux_sync::media::{ExternalIds, Media, MediaKind, ResolveStep, ResolvedMedia, SimklService};
use remux_sync::playback::{
    Located, MediaIdRaw, PlaybackRun, PlaybackSyncs, PlaybackTarget, SyncAction, SyncEvent,
    SyncStart, UserMediaState,
};
use remux_sync::progress::Progress;
use remux_sync::scrobble::SkipReason;
use remux_sync::settings::SimklUserConfig;
use remux_sync::simkl::{SimklEpisode, SimklIds, SimklMovie, SimklPlaybackItem, SimklShow};
use remux_sync::time::{Moment, Timestamp};

const NOW: Timestamp = Timestamp { secs: 1_800_000_000, nanos: 0 };

fn medium(kind: MediaKind, runtime: Option<i64>) -> Media {
    Media {
        id: 1,
        kind,
        title: "Heat".to_string(),
        released_at: None,
        external_ids: ExternalIds::default(),
        idx: None,
        parent_idx: None,
        grandparent_id: None,
        runtime,
    }
}

fn heat(tmdb: Option<&str>) -> SimklMovie {
    SimklMovie {
        title: Some("Heat".to_string()),
        year: Some(1995),
        ids: SimklIds {
            imdb: Some("tt0113277".to_string()),
            tmdb: tmdb.map(|t| t.to_string()),
            ..SimklIds::default()
        },
    }
}

fn movie_item(progress: f64, tmdb: Option<&str>) -> SimklPlaybackItem {
    SimklPlaybackItem {
        id: Some(123),
        progress: Progress { bits: progress.to_bits() },
        paused_at: Some("2026-09-20T12:00:00Z".to_string()),
        watched_at: None,
        item_type: Some("movie".to_string()),
        movie: Some(heat(tmdb)),
        show: None,
        anime: None,
        episode: None,
    }
}

fn target_ticks(item: &SimklPlaybackItem, media: &Media) -> i64 {
    let percent = f64::from_bits(item.progress.bits).clamp(0.0, 100.0);
    ((percent / 100.0) * SimklService::session_run_time(media) as f64) as i64
}

fn user(enabled: bool, sync: bool, token: &str) -> SimklUserConfig {
    SimklUserConfig {
        enabled,
        user_token: token.to_string(),
        sync_continue_watching: sync,
    }
}

#[test]
fn test_sync_single_playback_item_updates_state() {
    let movie = medium(MediaKind::Movie, None);
    let item = movie_item(50.0, Some("949"));
    assert!(matches!(SimklService::playback_target(&item), Ok(PlaybackTarget::Movie(_))));

    let state = UserMediaState { playback_position: 0, last_played_at: None, played_at: None };
    let paused_at = SimklService::paused_at(&item, NOW);
    let state =
        SimklService::sync_single_playback_item(state, paused_at, target_ticks(&item, &movie))
            .unwrap();

    assert!(state.playback_position > 0);
    assert_eq!(state.playback_position, 36_000_000_000);
    assert_eq!(state.played_at, None);
    assert!(state.last_played_at.is_some());
    assert_eq!(state.last_played_at, Some(Timestamp { secs: 1_789_905_600, nanos: 0 }));
}

#[test]
fn test_sync_single_playback_item_preserves_newer_local() {
    let movie = medium(MediaKind::Movie, None);
    let local_state = UserMediaState {
        playback_position: 999_999,
        last_played_at: Some(Timestamp { secs: 1_789_905_600 + 3 * 3600, nanos: 0 }),
        played_at: None,
    };
    let item = movie_item(25.0, None);

    let paused_at = SimklService::paused_at(&item, NOW);
    let state = SimklService::sync_single_playback_item(
        local_state,
        paused_at,
        target_ticks(&item, &movie),
    )
    .unwrap_or(local_state);

    assert_eq!(state.playback_position, 999_999);
}

#[test]
fn equally_old_local_state_is_overwritten() {
    let at = Timestamp { secs: 5, nanos: 5 };
    let state = UserMediaState {
        playback_position: 1,
        last_played_at: Some(at),
        played_at: Some(at),
    };
    let next = SimklService::sync_single_playback_item(state, at, 2).unwrap();
    assert_eq!(
        next,
        UserMediaState { playback_position: 2, last_played_at: Some(at), played_at: None }
    );
    assert_eq!(SimklService::sync_single_playback_item(next, at, 2), Some(next));
    let earlier = Timestamp { secs: 5, nanos: 4 };
    assert_eq!(SimklService::sync_single_playback_item(state, earlier, 2), None);
}

#[test]
fn newest_session_wins_in_either_order() {
    let early = Timestamp { secs: 1, nanos: 0 };
    let late = Timestamp { secs: 2, nanos: 0 };
    let start = UserMediaState { playback_position: 0, last_played_at: None, played_at: None };
    let first = SimklService::sync_single_playback_item(start, early, 10).unwrap();
    let then = SimklService::sync_single_playback_item(first, late, 20).unwrap();
    let direct = SimklService::sync_single_playback_item(start, late, 20).unwrap();
    assert_eq!(then, direct);
    assert_eq!(SimklService::sync_single_playback_item(direct, early, 10), None);
}

#[test]
fn unreadable_times_count_as_now() {
    let mut item = movie_item(1.0, None);
    item.paused_at = Some("yesterday".to_string());
    assert_eq!(SimklService::paused_at(&item, NOW), NOW);
    item.paused_at = None;
    assert_eq!(SimklService::paused_at(&item, NOW), NOW);
    item.watched_at = Some("1970-01-01T01:00:00.5+01:00".to_string());
    assert_eq!(
        SimklService::paused_at(&item, NOW),
        Timestamp { secs: 0, nanos: 500_000_000 }
    );
}

#[test]
fn run_times_are_known_or_typical() {
    let run_time = |kind: MediaKind, secs: Option<i64>| {
        SimklService::session_run_time(&medium(kind, secs))
    };
    assert_eq!(run_time(MediaKind::Movie, Some(60)), 600_000_000);
    assert_eq!(run_time(MediaKind::Movie, None), 72_000_000_000);
    assert_eq!(run_time(MediaKind::Episode, None), 27_000_000_000);
    assert_eq!(run_time(MediaKind::Episode, Some(i64::MAX)), 27_000_000_000);
}

#[test]
fn sessions_are_about_movies_or_episodes() {
    let mut item = movie_item(1.0, None);
    item.item_type = None;
    assert!(matches!(SimklService::playback_target(&item), Ok(PlaybackTarget::Movie(_))));
    item.episode = Some(SimklEpisode { season: 1, number: 2, ids: None });
    assert_eq!(
        SimklService::playback_target(&item).unwrap_err(),
        "missing show object in playback item"
    );
    item.anime = Some(SimklShow { title: Some("anime".to_string()), ..SimklShow::default() });
    match SimklService::playback_target(&item) {
        Ok(PlaybackTarget::Episode(show, episode)) => {
            assert_eq!(show.title.as_deref(), Some("anime"));
            assert_eq!((episode.season, episode.number), (1, 2));
        }
        other => panic!("unexpected target: {:?}", other),
    }
    item.show = Some(SimklShow { title: Some("show".to_string()), ..SimklShow::default() });
    match SimklService::playback_target(&item) {
        Ok(PlaybackTarget::Episode(show, _)) => assert_eq!(show.title.as_deref(), Some("show")),
        other => panic!("unexpected target: {:?}", other),
    }
    item.item_type = Some("movie".to_string());
    assert!(matches!(SimklService::playback_target(&item), Ok(PlaybackTarget::Movie(_))));
    item.movie = None;
    assert_eq!(
        SimklService::playback_target(&item).unwrap_err(),
        "missing movie object in playback item"
    );
    item.item_type = Some("episode".to_string());
    item.episode = None;
    assert_eq!(
        SimklService::playback_target(&item).unwrap_err(),
        "missing episode object in playback item"
    );
}

#[test]
fn movies_are_found_or_brought_in() {
    let ids = SimklService::movie_ids(&heat(Some("949")));
    assert_eq!(ids.imdb.as_deref(), Some("tt0113277"));
    assert_eq!(ids.tmdb, Some(949));
    assert_eq!(SimklService::find_or_resolve_movie(&ids, Some(5)), Located::Here(5));
    assert_eq!(
        SimklService::find_or_resolve_movie(&ids, None),
        Located::Resolve(MediaIdRaw {
            kind: MediaKind::Movie,
            external_ids: ExternalIds {
                imdb: Some("tt0113277".to_string()),
                tmdb: Some(949),
                tvdb: None,
                custom_stremio_id: Some("tt0113277".to_string()),
            },
            season: None,
            episode: None,
        })
    );
    let mut nameless = heat(Some("x949"));
    nameless.ids.imdb = Some(String::new());
    let ids = SimklService::movie_ids(&nameless);
    assert_eq!(ids, ExternalIds::default());
    assert_eq!(SimklService::find_or_resolve_movie(&ids, None), Located::Nowhere);
}

#[test]
fn series_are_found_or_brought_in() {
    let show = SimklShow {
        title: None,
        year: None,
        ids: SimklIds {
            simkl: Some(39687),
            imdb: Some("tt4574334".to_string()),
            tmdb: None,
            tvdb: Some("305288".to_string()),
        },
    };
    let ids = SimklService::series_ids(&show);
    assert_eq!(ids.tvdb, Some(305288));
    assert_eq!(SimklService::find_or_resolve_series(&ids, Some(4)), Located::Here(4));
    match SimklService::find_or_resolve_series(&ids, None) {
        Located::Resolve(raw) => {
            assert_eq!(raw.kind, MediaKind::Series);
            assert_eq!(raw.external_ids.tvdb, Some(305288));
            assert_eq!(raw.external_ids.custom_stremio_id.as_deref(), Some("tt4574334"));
        }
        other => panic!("unexpected place: {:?}", other),
    }
    let episode = SimklEpisode { season: 2, number: 5, ids: None };
    let query = SimklService::find_or_resolve_episode(Some(4), &episode).unwrap();
    assert_eq!((query.series_id, query.season, query.number), (4, 2, 5));
    assert_eq!(SimklService::find_or_resolve_episode(None, &episode), None);
}

#[test]
fn told_identifiers_find_the_movie_again() {
    let mut media = medium(MediaKind::Movie, None);
    media.external_ids.imdb = Some("tt0113277".to_string());
    media.external_ids.tmdb = Some(-949);
    match SimklService::resolve_media(Some(media)) {
        ResolveStep::Done(Some(ResolvedMedia::Movie { media, movie })) => {
            assert_eq!(SimklService::movie_ids(&movie), media.external_ids);
        }
        other => panic!("unexpected step: {:?}", other),
    }
}

#[test]
fn synchronisation_needs_settings_that_allow_it() {
    let mut syncs = PlaybackSyncs::new();
    let now = Moment { nanos: 0 };
    let mut start = |client_id: &str, cfg: SimklUserConfig| {
        syncs.sync_playback(client_id, &cfg, 1, now)
    };
    assert_eq!(start("", user(true, true, "t")), SyncStart::Skip(SkipReason::NoClientId));
    assert_eq!(start("c", user(false, true, "t")), SyncStart::Skip(SkipReason::Disabled));
    assert_eq!(start("c", user(true, false, "t")), SyncStart::Skip(SkipReason::SyncDisabled));
    assert_eq!(start("c", user(true, true, "")), SyncStart::Skip(SkipReason::NoToken));
    // None of these counts as a synchronisation.
    assert_eq!(start("c", user(true, true, "t")), SyncStart::Fetch);
    assert_eq!(SimklService::playback_gate("c", &user(true, true, "t")), None);
}

#[test]
fn synchronisation_cools_down_per_user() {
    let mut syncs = PlaybackSyncs::new();
    let cfg = user(true, true, "t");
    let at = |secs: u64| Moment { nanos: secs * 1_000_000_000 };
    assert_eq!(syncs.sync_playback("c", &cfg, 1, at(0)), SyncStart::Fetch);
    assert_eq!(syncs.sync_playback("c", &cfg, 1, at(29)), SyncStart::CoolingDown);
    assert_eq!(syncs.sync_playback("c", &cfg, 2, at(29)), SyncStart::Fetch);
    assert_eq!(syncs.sync_playback("c", &cfg, 1, at(30)), SyncStart::Fetch);
    assert_eq!(syncs.sync_playback("c", &cfg, 1, at(59)), SyncStart::CoolingDown);
}

#[test]
fn sessions_are_asked_for() {
    let request = SimklService::get_playback("\"cid\"", " tok ");
    assert_eq!(request.method, Method::GET);
    assert_eq!(
        request.url,
        "https://api.simkl.com/sync/playback?hide_watched=true&client_id=cid&app-name=remux&app-version=1.0"
    );
    assert_eq!(request.headers.len(), 3);
    assert_eq!(request.headers[1].1, "Bearer tok");
}

fn sessions(items: Vec<SimklPlaybackItem>) -> Reply<Vec<SimklPlaybackItem>> {
    Reply::Answered {
        status: Status::from_u16(200).unwrap(),
        parsed: Some(items),
        body: String::new(),
    }
}

#[test]
fn synchronisation_asks_for_a_user_who_is_there() {
    let mut run = PlaybackRun::new(" cid ".to_string(), "tok".to_string());
    match run.go_on(SyncEvent::UserLookedUp(true)) {
        SyncAction::Ask(request) => assert_eq!(
            request.url,
            "https://api.simkl.com/sync/playback?hide_watched=true&client_id=cid&app-name=remux&app-version=1.0"
        ),
        other => panic!("unexpected action: {:?}", other),
    }
    let mut run = PlaybackRun::new("cid".to_string(), "tok".to_string());
    assert!(matches!(
        run.go_on(SyncEvent::UserLookedUp(false)),
        SyncAction::Finish(Ok(()))
    ));
}

#[test]
fn failing_sessions_are_skipped() {
    let mut run = PlaybackRun::new("cid".to_string(), "tok".to_string());
    let items = vec![movie_item(1.0, None), movie_item(2.0, None), movie_item(3.0, None)];
    let mut event = SyncEvent::Replied(sessions(items));
    let mut taken = Vec::new();
    loop {
        match run.go_on(event) {
            SyncAction::TakeOver(item) => {
                let progress = f64::from_bits(item.progress.bits);
                taken.push(progress);
                event = SyncEvent::Handled(if progress == 2.0 {
                    Ok(())
                } else {
                    Err("broken".to_string())
                });
            }
            SyncAction::Finish(outcome) => {
                assert_eq!(outcome, Ok(()));
                break;
            }
            other => panic!("unexpected action: {:?}", other),
        }
    }
    assert_eq!(taken, vec![1.0, 2.0, 3.0]);
}

#[test]
fn synchronisation_fails_with_the_fetch_only() {
    let mut run = PlaybackRun::new("cid".to_string(), "tok".to_string());
    match run.go_on(SyncEvent::Replied(Reply::Unreachable)) {
        SyncAction::Finish(outcome) => assert_eq!(
            outcome,
            Err("failed to send request to Simkl Playback API".to_string())
        ),
        other => panic!("unexpected action: {:?}", other),
    }
    let mut run = PlaybackRun::new("cid".to_string(), "tok".to_string());
    assert!(matches!(
        run.go_on(SyncEvent::Replied(sessions(Vec::new()))),
        SyncAction::Finish(Ok(()))
    ));
}

#[test]
fn session_replies_are_read() {
    let answered = |code: u16, parsed: Option<Vec<SimklPlaybackItem>>, body: &str| {
        SimklService::playback_reply(Reply::Answered {
            status: Status::from_u16(code).unwrap(),
            parsed,
            body: body.to_string(),
        })
    };
    assert_eq!(answered(200, Some(vec![movie_item(1.0, None)]), "").unwrap().len(), 1);
    assert_eq!(
        answered(200, None, "?").unwrap_err(),
        "failed to parse Simkl playback items"
    );
    assert_eq!(
        answered(429, None, "slow").unwrap_err(),
        "Simkl GET /sync/playback returned HTTP 429 Too Many Requests: slow"
    );
    assert_eq!(
        SimklService::playback_reply(Reply::Unreachable).unwrap_err(),
        "failed to send request to Simkl Playback API"
    );
}
