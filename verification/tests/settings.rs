use remux_sync::media::SimklService;
use remux_sync::settings::{Settings, SimklConfig, SimklUserConfig, UserTable};

const ID: u128 = 0x0123_4567_89ab_cdef_0123_4567_89ab_cdef;
const HYPHENATED: &str = "01234567-89ab-cdef-0123-456789abcdef";
const SIMPLE: &str = "0123456789abcdef0123456789abcdef";

fn user(token: &str) -> SimklUserConfig {
    SimklUserConfig {
        enabled: true,
        user_token: token.to_string(),
        sync_continue_watching: true,
    }
}

fn config(client_id: &str, completion_threshold: u32, users: &[(&str, &str)]) -> SimklConfig {
    let entries = users.iter().map(|(k, t)| (k.to_string(), user(t))).collect();
    SimklConfig {
        client_id: client_id.to_string(),
        completion_threshold,
        users: UserTable::from_entries(entries),
    }
}

#[test]
fn stored_settings_lie_over_the_file() {
    let base = config("base", 80, &[("a", "1"), ("b", "2")]);
    let stored = config("db", 90, &[("b", "3"), ("c", "4")]);
    let cfg = Settings::get_simkl_config(&base, Some(stored));
    assert_eq!(cfg.client_id, "db");
    assert_eq!(cfg.completion_threshold, 90);
    assert_eq!(cfg.users.get("a"), Some(&user("1")));
    assert_eq!(cfg.users.get("b"), Some(&user("3")));
    assert_eq!(cfg.users.get("c"), Some(&user("4")));
    assert_eq!(cfg.users.get("d"), None);
}

#[test]
fn empty_stored_settings_do_not_count() {
    let base = config("base", 80, &[]);
    let cfg = Settings::get_simkl_config(&base, Some(config("", 0, &[])));
    assert_eq!(cfg.client_id, "base");
    assert_eq!(cfg.completion_threshold, 80);
    let cfg = Settings::get_simkl_config(&base, None);
    assert_eq!(cfg.client_id, "base");
}

#[test]
fn layering_settles_after_one_round() {
    let base = config("base", 80, &[("a", "1")]);
    let once = Settings::get_simkl_config(&base, Some(config("", 90, &[("b", "2")])));
    let twice = Settings::get_simkl_config(&base, Some(once.clone()));
    assert_eq!(twice.client_id, once.client_id);
    assert_eq!(twice.completion_threshold, once.completion_threshold);
    assert_eq!(twice.users.entries(), once.users.entries());
}

#[test]
fn users_are_found_by_either_form_of_their_id() {
    let base = config("c", 80, &[]);
    let hyphenated = config("", 0, &[(HYPHENATED, "h"), (SIMPLE, "s")]);
    assert_eq!(Settings::get_user_simkl_config(&base, Some(hyphenated), ID), user("h"));
    let simple = config("", 0, &[(SIMPLE, "s")]);
    assert_eq!(Settings::get_user_simkl_config(&base, Some(simple), ID), user("s"));
    assert_eq!(
        Settings::get_user_simkl_config(&base, None, ID),
        SimklUserConfig {
            enabled: false,
            user_token: String::new(),
            sync_continue_watching: false,
        }
    );
}

#[test]
fn stored_user_comes_back_and_others_stay() {
    let base = config("c", 80, &[]);
    let before = config("", 0, &[("other", "o"), (SIMPLE, "s")]);
    let full = Settings::set_user_simkl_config(&base, Some(before), ID, user("new"));
    assert_eq!(full.users.get(HYPHENATED), Some(&user("new")));
    assert_eq!(full.users.get("other"), Some(&user("o")));
    assert_eq!(full.client_id, "c");
    assert_eq!(Settings::get_user_simkl_config(&base, Some(full.clone()), ID), user("new"));
    assert_eq!(
        Settings::get_user_simkl_config(&base, Some(full), ID + 1),
        SimklUserConfig::default()
    );
}

#[test]
fn credentials_are_client_and_user() {
    let base = config("c", 80, &[(HYPHENATED, "t")]);
    let (client_id, cfg) = SimklService::get_credentials(&base, None, ID);
    assert_eq!(client_id, "c");
    assert_eq!(cfg, user("t"));
}

#[test]
fn later_entries_replace_earlier_ones() {
    let table = UserTable::from_entries(vec![
        ("k".to_string(), user("1")),
        ("l".to_string(), user("2")),
        ("k".to_string(), user("3")),
    ]);
    assert_eq!(table.entries().len(), 2);
    assert_eq!(table.get("k"), Some(&user("3")));
    assert_eq!(table.get("l"), Some(&user("2")));
    assert_eq!(table.get(""), None);
    assert!(UserTable::default().entries().is_empty());
}

#[test]
fn rows_have_their_keys() {
    let rows = [
        (Settings::set_config("1".to_string()), "server_configuration", "1"),
        (Settings::set_encoding_config("2".to_string()), "encoding_configuration", "2"),
        (Settings::set_intro_config("3".to_string()), "intro_configuration", "3"),
        (Settings::set_simkl_config("4".to_string()), "simkl_configuration", "4"),
    ];
    for (row, key, value) in rows {
        assert_eq!(row.key, key);
        assert_eq!(row.value, value);
    }
}

#[test]
fn unreadable_configurations() {
    let bad: Option<Result<u8, &str>> = Some(Err("bad"));
    assert_eq!(Settings::get_config(bad, 7), Err("bad"));
    assert_eq!(Settings::get_config(Some(Ok::<u8, &str>(5)), 7), Ok(5));
    assert_eq!(Settings::get_config(None::<Result<u8, &str>>, 7), Ok(7));
    assert_eq!(Settings::get_config_or_default(Err::<u8, &str>("bad"), 7), 7);
    assert_eq!(Settings::get_config_or_default(Ok::<u8, &str>(5), 7), 5);
    assert_eq!(Settings::get_encoding_config(bad, 7), 7);
    assert_eq!(Settings::get_encoding_config(Some(Ok::<u8, &str>(5)), 7), 5);
    assert_eq!(Settings::get_encoding_config(None::<Result<u8, &str>>, 7), 7);
    assert_eq!(Settings::get_intro_config(bad, 7), 7);
    assert_eq!(Settings::get_intro_config(Some(Ok::<u8, &str>(5)), 7), 5);
    assert_eq!(Settings::get_intro_config(None::<Result<u8, &str>>, 7), 7);
}

#[test]
fn server_id_is_kept_in_simple_form() {
    for stored in [
        HYPHENATED.to_string(),
        SIMPLE.to_string(),
        HYPHENATED.to_uppercase(),
        format!("{{{}}}", HYPHENATED),
        format!("URN:uuid:{}", HYPHENATED),
    ] {
        let id = Settings::init_server_id(Some(stored));
        assert_eq!(id.id, SIMPLE);
        assert!(!id.is_new);
    }
    for odd in [
        "my-server",
        "",
        "0123456789abcdef0123456789abcdeg",
        "01234567-89ab-cdef-0123_456789abcdef",
        "(01234567-89ab-cdef-0123-456789abcdef)",
        "\u{e9}123456789abcdef0123456789abcde",
    ] {
        let id = Settings::init_server_id(Some(odd.to_string()));
        assert_eq!(id.id, odd);
        assert!(!id.is_new);
    }
}

#[test]
fn new_server_id_is_a_random_uuid() {
    let first = Settings::init_server_id(None);
    assert!(first.is_new);
    assert_eq!(first.id.len(), 32);
    assert!(first.id.chars().all(|c| c.is_ascii_digit() || ('a'..='f').contains(&c)));
    assert_eq!(&first.id[12..13], "4");
    assert!(["8", "9", "a", "b"].contains(&&first.id[16..17]));
    let second = Settings::init_server_id(None);
    assert_ne!(first.id, second.id);
    let kept = Settings::init_server_id(Some(first.id.clone()));
    assert_eq!(kept.id, first.id);
    assert_eq!(Settings::server_id(None, 10).id, "0000000000000000000000000000000a");
}
