use remux_sync::http::{Body, Method};
use remux_sync::json::{deserialize_opt_i64_flexible, deserialize_opt_string_or_number};
use remux_sync::progress::Progress;
use remux_sync::simkl::{
    GetPlaybackEndpoint, ScrobblePauseEndpoint, ScrobblePayload, ScrobbleStartEndpoint,
    ScrobbleStopEndpoint, SimklAuth, SimklEpisode, SimklIds, SimklMovie, SimklPlaybackItem,
    SimklShow, UserSettingsEndpoint,
};

fn text(value: &serde_json::Value, key: &str) -> Option<String> {
    value.get(key).and_then(|v| v.as_str()).map(|s| s.to_string())
}

fn ids(value: &serde_json::Value) -> SimklIds {
    SimklIds {
        simkl: deserialize_opt_i64_flexible(value.get("simkl")),
        imdb: deserialize_opt_string_or_number(value.get("imdb")),
        tmdb: deserialize_opt_string_or_number(value.get("tmdb")),
        tvdb: deserialize_opt_string_or_number(value.get("tvdb")),
    }
}

fn year(value: &serde_json::Value) -> Option<i32> {
    value.get("year").and_then(|y| y.as_i64()).map(|y| y as i32)
}

fn item(value: &serde_json::Value) -> SimklPlaybackItem {
    SimklPlaybackItem {
        id: value.get("id").and_then(|v| v.as_i64()),
        progress: Progress { bits: value.get("progress").unwrap().as_f64().unwrap().to_bits() },
        paused_at: text(value, "paused_at"),
        watched_at: text(value, "watched_at"),
        item_type: text(value, "type"),
        movie: value.get("movie").map(|m| SimklMovie {
            title: text(m, "title"),
            year: year(m),
            ids: ids(m.get("ids").unwrap()),
        }),
        show: value.get("show").map(|s| SimklShow {
            title: text(s, "title"),
            year: year(s),
            ids: ids(s.get("ids").unwrap()),
        }),
        anime: None,
        episode: value.get("episode").map(|e| SimklEpisode {
            season: e.get("season").unwrap().as_i64().unwrap(),
            number: e.get("episode").unwrap().as_i64().unwrap(),
            ids: None,
        }),
    }
}

#[test]
fn test_deserialize_playback_items_flexible_ids() {
    let json = r#"[
        {
            "id": 101,
            "progress": 45.5,
            "paused_at": "2026-09-20T10:30:00Z",
            "type": "movie",
            "movie": {
                "title": "Gladiator II",
                "year": 2024,
                "ids": {
                    "simkl": 558449,
                    "imdb": "tt2104996",
                    "tmdb": 558449
                }
            }
        },
        {
            "id": 102,
            "progress": 62.0,
            "watched_at": "2026-09-20T11:00:00Z",
            "type": "episode",
            "show": {
                "title": "Stranger Things",
                "year": 2016,
                "ids": {
                    "simkl": "39687",
                    "imdb": "tt4574334",
                    "tvdb": 305288
                }
            },
            "episode": {
                "season": 2,
                "episode": 5
            }
        }
    ]"#;

    let values: serde_json::Value = serde_json::from_str(json).unwrap();
    let items: Vec<SimklPlaybackItem> = values.as_array().unwrap().iter().map(item).collect();
    assert_eq!(items.len(), 2);

    let m = &items[0];
    assert_eq!(f64::from_bits(m.progress.bits), 45.5);
    assert_eq!(m.timestamp(), Some("2026-09-20T10:30:00Z"));
    assert_eq!(m.item_type.as_deref(), Some("movie"));
    let movie = m.movie.as_ref().unwrap();
    assert_eq!(movie.title.as_deref(), Some("Gladiator II"));
    assert_eq!(movie.ids.imdb.as_deref(), Some("tt2104996"));
    assert_eq!(movie.ids.tmdb.as_deref(), Some("558449"));

    let ep = &items[1];
    assert_eq!(f64::from_bits(ep.progress.bits), 62.0);
    assert_eq!(ep.timestamp(), Some("2026-09-20T11:00:00Z"));
    assert_eq!(ep.item_type.as_deref(), Some("episode"));
    let show = ep.show.as_ref().unwrap();
    assert_eq!(show.ids.simkl, Some(39687));
    assert_eq!(show.ids.imdb.as_deref(), Some("tt4574334"));
    assert_eq!(show.ids.tvdb.as_deref(), Some("305288"));
    let episode = ep.episode.as_ref().unwrap();
    assert_eq!(episode.season, 2);
    assert_eq!(episode.number, 5);
}

#[test]
fn pause_counts_before_watching() {
    let mut item = SimklPlaybackItem::default();
    assert_eq!(item.timestamp(), None);
    item.watched_at = Some("w".to_string());
    assert_eq!(item.timestamp(), Some("w"));
    item.paused_at = Some("p".to_string());
    assert_eq!(item.timestamp(), Some("p"));
}

#[test]
fn credentials_travel_in_headers() {
    let mut auth = SimklAuth { client_id: "cid".to_string(), user_token: None };
    let pair = |a: &str, b: &str| (a.to_string(), b.to_string());
    let common = vec![
        pair("simkl-api-key", "cid"),
        pair("Content-Type", "application/json"),
        pair("Accept", "application/json"),
    ];
    assert_eq!(auth.apply(), common);
    auth.user_token = Some("tok".to_string());
    let mut signed = common;
    signed.push(pair("Authorization", "Bearer tok"));
    assert_eq!(auth.apply(), signed);
}

#[test]
fn endpoints_have_their_paths() {
    let payload = ScrobblePayload {
        progress: Some(Progress { bits: 12.5f64.to_bits() }),
        ..ScrobblePayload::default()
    };
    let start = ScrobbleStartEndpoint { payload: payload.clone() };
    let pause = ScrobblePauseEndpoint { payload: payload.clone() };
    let stop = ScrobbleStopEndpoint { payload: payload.clone() };
    assert_eq!(start.path(), "scrobble/start");
    assert_eq!(pause.path(), "scrobble/pause");
    assert_eq!(stop.path(), "scrobble/stop");
    assert_eq!(start.method(), Method::POST);
    assert_eq!(pause.method(), Method::POST);
    assert_eq!(stop.method(), Method::POST);
    assert!(matches!(start.body(), Body::Json(p) if p == payload));
    assert!(matches!(pause.body(), Body::Json(p) if p == payload));
    assert!(matches!(stop.body(), Body::Json(p) if p == payload));
    assert_eq!(UserSettingsEndpoint.path(), "users/settings");
    let all = GetPlaybackEndpoint { hide_watched: false };
    let unwatched = GetPlaybackEndpoint { hide_watched: true };
    assert_eq!(all.path(), "sync/playback?hide_watched=false");
    assert_eq!(unwatched.path(), "sync/playback?hide_watched=true");
    assert_eq!(unwatched.method(), Method::GET);
}

#[test]
fn default_ids_are_empty() {
    let ids = SimklIds::default();
    assert_eq!(ids, SimklIds { simkl: None, imdb: None, tmdb: None, tvdb: None });
}
