use remux_sync::dynamic_regex::{
    default_sync_interval_secs, DynamicRegexConfig, DynamicRegexRule, RemoteRegexPayload,
};
use remux_sync::http::Status;
use remux_sync::patterns::compile_safe_regexes;
use remux_sync::regex_sync::{
    dedup_patterns, DynamicRegexState, RegexSyncService, SourceReply, SyncStep,
};

fn strings(list: &[&str]) -> Vec<String> {
    list.iter().map(|s| s.to_string()).collect()
}

fn string_list(value: &serde_json::Value) -> Option<Vec<String>> {
    value
        .as_array()?
        .iter()
        .map(|v| v.as_str().map(|s| s.to_string()))
        .collect()
}

/// Reads a payload in any of its three shapes.
fn payload_of(json: &str) -> RemoteRegexPayload {
    let value: serde_json::Value = serde_json::from_str(json).unwrap();
    if let Some(rules) = value.get("rules").and_then(|r| r.as_array()) {
        let rules = rules
            .iter()
            .map(|r| DynamicRegexRule {
                pattern: r.get("pattern").unwrap().as_str().unwrap().to_string(),
                description: r.get("description").and_then(|d| d.as_str()).map(|d| d.to_string()),
            })
            .collect();
        return RemoteRegexPayload::Rules { rules };
    }
    if let Some(patterns) = value.get("patterns").and_then(string_list) {
        return RemoteRegexPayload::Patterns { patterns };
    }
    RemoteRegexPayload::List(string_list(&value).unwrap())
}

fn service(urls: &[&str], cache: &str) -> RegexSyncService {
    RegexSyncService::new(DynamicRegexConfig {
        urls: strings(urls),
        sync_interval_secs: 60,
        fallback_cache_path: cache.to_string(),
    })
}

fn status(code: u16) -> Status {
    Status::from_u16(code).unwrap()
}

#[test]
fn test_payload_deserialization_rules() {
    let json = r#"{"rules": [{"pattern": "^test.*", "description": "test rule"}]}"#;
    let payload = payload_of(json);
    assert_eq!(payload.into_patterns(), vec!["^test.*"]);
}

#[test]
fn test_payload_deserialization_patterns() {
    let json = r#"{"patterns": ["^abc$", "def.*"]}"#;
    let payload = payload_of(json);
    assert_eq!(payload.into_patterns(), vec!["^abc$", "def.*"]);
}

#[test]
fn test_payload_deserialization_list() {
    let json = r#"["pattern1", "pattern2"]"#;
    let payload = payload_of(json);
    assert_eq!(payload.into_patterns(), vec!["pattern1", "pattern2"]);
}

#[test]
fn test_dynamic_regex_state_matching() {
    let patterns = vec!["^stream_.*".to_string(), ".*\\.mkv$".to_string()];
    let (compiled, _) = compile_safe_regexes(&patterns);
    let state = DynamicRegexState::new(patterns, compiled);

    assert!(state.is_match("stream_live_1080p"));
    assert!(state.is_match("movie.mkv"));
    assert!(!state.is_match("movie.mp4"));

    let matched = state.matching_patterns("stream_live_1080p.mkv");
    assert_eq!(matched.len(), 2);
}

#[test]
fn test_cache_save_and_load_roundtrip() {
    let patterns = vec![
        "^valid_pattern_[0-9]+$".to_string(),
        "[invalid_pattern".to_string(), // Invalid pattern syntax
        "another_valid.*".to_string(),
    ];

    let saved = RegexSyncService::save_to_cache(&patterns);

    let loaded = RegexSyncService::load_from_cache(Some(saved)).expect("cache should load");
    assert_eq!(loaded.patterns(), &patterns);
    // The invalid pattern should be ignored safely without panic
    assert_eq!(loaded.compiled().len(), 2);
    assert!(loaded.is_match("valid_pattern_42"));
    assert!(loaded.is_match("another_valid_test"));
}

#[test]
fn test_sync_successful_fetch_and_cache() {
    let url = "http://localhost/rules.json";
    let mut service = service(&[url], "cache.json");
    let payload = payload_of(r#"{"patterns": ["^live_.*", ".*\\.ts$"]}"#);
    let reply = SourceReply::Answered { status: status(200), payload: Some(payload) };
    let fetched = RegexSyncService::fetch_single_url(url, reply).ok();
    let step = service.sync(vec![fetched]);

    let current = service.state();
    assert!(current.is_match("live_news"));
    assert!(current.is_match("segment.ts"));
    assert!(!current.is_match("segment.mp4"));

    // The cache is to be written
    assert_eq!(
        step,
        SyncStep::Replaced(Some(RemoteRegexPayload::Patterns {
            patterns: strings(&["^live_.*", ".*\\.ts$"]),
        }))
    );
}

#[test]
fn test_sync_forbidden_403_falls_back_to_cache() {
    let url = "http://localhost/forbidden.json";
    let mut service = service(&[url], "cache.json");
    let cached = RegexSyncService::save_to_cache(&strings(&["^cached_rule_.*$"]));

    let reply = SourceReply::Answered { status: status(403), payload: None };
    let fetched = RegexSyncService::fetch_single_url(url, reply);
    assert_eq!(
        fetched,
        Err("forbidden (403) from http://localhost/forbidden.json".to_string())
    );
    assert_eq!(service.sync(vec![fetched.ok()]), SyncStep::ReadCache);
    assert_eq!(service.restore(Some(cached)), SyncStep::Replaced(None));

    let current = service.state();
    // Should have fallen back to cache rules
    assert!(current.is_match("cached_rule_123"));
    assert_eq!(current.patterns(), &["^cached_rule_.*$"]);
}

#[test]
fn test_sync_unresolvable_url_falls_back_to_cache() {
    let url = "http://unresolvable.invalid.local/rules.json";
    let mut service = service(&[url], "cache.json");
    let cached = RegexSyncService::save_to_cache(&strings(&["^fallback_regex.*"]));

    let fetched = RegexSyncService::fetch_single_url(url, SourceReply::Unreachable);
    assert_eq!(service.sync(vec![fetched.ok()]), SyncStep::ReadCache);
    assert_eq!(service.restore(Some(cached)), SyncStep::Replaced(None));

    let current = service.state();
    assert!(current.is_match("fallback_regex_match"));
}

#[test]
fn each_failure_of_a_source_has_its_message() {
    let message = |reply: SourceReply| RegexSyncService::fetch_single_url("u", reply).unwrap_err();
    assert_eq!(message(SourceReply::Unreachable), "HTTP request failed for u");
    assert_eq!(
        message(SourceReply::Unreadable { status: status(200) }),
        "failed to read response body from u"
    );
    assert_eq!(
        message(SourceReply::Unreadable { status: status(403) }),
        "forbidden (403) from u"
    );
    assert_eq!(
        message(SourceReply::Answered { status: status(200), payload: None }),
        "failed to deserialize remote regex payload from u"
    );
    assert_eq!(
        message(SourceReply::Answered { status: status(500), payload: None }),
        "HTTP status 500 Internal Server Error from u"
    );
    assert_eq!(
        message(SourceReply::Answered { status: status(404), payload: None }),
        "HTTP status 404 Not Found from u"
    );
}

#[test]
fn sources_are_merged_without_repetitions() {
    let mut service = service(&["a", "b", "c"], "");
    let step = service.sync(vec![
        Some(strings(&["x", "y"])),
        None,
        Some(strings(&["y", "[", "x", "z"])),
    ]);
    assert_eq!(step, SyncStep::Replaced(None));
    assert_eq!(service.state().patterns(), &["x", "y", "[", "z"]);
    assert_eq!(service.state().compiled().len(), 3);
}

#[test]
fn a_source_without_patterns_clears_the_rules() {
    let mut service = service(&["a"], "");
    service.sync(vec![Some(strings(&["x"]))]);
    assert!(service.state().is_match("x"));
    service.sync(vec![Some(Vec::new())]);
    assert!(!service.state().is_match("x"));
    assert!(service.state().patterns().is_empty());
}

#[test]
fn rules_stay_where_nothing_can_be_had() {
    let mut service = service(&["a"], "");
    service.sync(vec![Some(strings(&["x"]))]);
    assert_eq!(service.sync(vec![None]), SyncStep::Unavailable);
    assert!(service.state().is_match("x"));
    assert_eq!(service.restore(None), SyncStep::Unavailable);
    assert!(service.state().is_match("x"));
}

#[test]
fn nothing_configured_is_idle() {
    let mut service = RegexSyncService::new(DynamicRegexConfig::default());
    assert_eq!(service.sync(Vec::new()), SyncStep::Idle);
    assert_eq!(service.restore(None), SyncStep::Idle);
    assert!(service.state().patterns().is_empty());
}

#[test]
fn interval_is_one_second_at_least() {
    assert_eq!(default_sync_interval_secs(), 3600);
    let default = RegexSyncService::new(DynamicRegexConfig::default());
    assert_eq!(default.sync_interval_secs(), 3600);
    assert_eq!(service(&[], "").sync_interval_secs(), 60);
    let hasty = RegexSyncService::new(DynamicRegexConfig {
        urls: Vec::new(),
        sync_interval_secs: 0,
        fallback_cache_path: String::new(),
    });
    assert_eq!(hasty.sync_interval_secs(), 1);
    assert_eq!(hasty.config().sync_interval_secs, 0);
}

#[test]
fn cache_in_a_directory_has_a_fixed_name() {
    assert_eq!(RegexSyncService::resolve_cache_file_path(true), Some("regex_cache.json"));
    assert_eq!(RegexSyncService::resolve_cache_file_path(false), None);
}

#[test]
fn dedup_keeps_first_occurrences_in_order() {
    let once = dedup_patterns(strings(&["b", "a", "b", "c", "a"]));
    assert_eq!(once, vec!["b", "a", "c"]);
    assert_eq!(dedup_patterns(once.clone()), once);
}

#[test]
fn matching_patterns_are_named() {
    let patterns = strings(&["^a", "b$", "c"]);
    let (compiled, _) = compile_safe_regexes(&patterns);
    let state = DynamicRegexState::new(patterns, compiled);
    assert_eq!(state.matching_patterns("a-b"), vec!["^a", "b$"]);
    assert_eq!(state.matching_patterns("xcx"), vec!["c"]);
    assert!(state.matching_patterns("zzz").is_empty());
    assert!(!state.is_match("zzz"));
}

#[test]
fn loaded_cache_carries_the_saved_patterns() {
    let patterns = strings(&["x", "[", "y", "x"]);
    let saved = RegexSyncService::save_to_cache(&patterns);
    let loaded = RegexSyncService::load_from_cache(Some(saved)).unwrap();
    assert_eq!(loaded.patterns(), &patterns);
    let carried: Vec<&str> = loaded.compiled().iter().map(|re| re.as_str()).collect();
    assert_eq!(carried, vec!["x", "y", "x"]);
    assert!(RegexSyncService::load_from_cache(None).is_none());
}

#[test]
fn default_state_matches_nothing() {
    let state = DynamicRegexState::default();
    assert!(!state.is_match(""));
    assert!(state.matching_patterns("").is_empty());
}

#[test]
fn restored_rules_match_as_before() {
    let mut first = service(&["a"], "cache.json");
    let saved = match first.sync(vec![Some(strings(&["[", "^x", "y$"]))]) {
        SyncStep::Replaced(Some(payload)) => payload,
        other => panic!("unexpected step: {:?}", other),
    };
    let mut second = service(&["a"], "cache.json");
    second.restore(Some(saved));
    for text in ["x", "ay", "xy", "z", "["] {
        assert_eq!(first.state().is_match(text), second.state().is_match(text));
        assert_eq!(
            first.state().matching_patterns(text),
            second.state().matching_patterns(text)
        );
    }
}
