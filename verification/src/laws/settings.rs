//! Laws of stored settings.

use vstd::prelude::*;

use crate::ids::{
    hyphenated_text, is_random_uuid, parse_of_hyphenated, parse_of_simple, simple_text,
    uuid_value,
};
use crate::media::SimklService;
use crate::settings::{
    storing_a_user_keeps_the_rest, stored_user_reads_back, users_of, ServerId, SettingRow,
    Settings, SimklConfig, SimklUserConfig, UserTable,
};

verus! {

/// Two sets of settings of a user say the same.
pub open spec fn same_user(a: SimklUserConfig, b: SimklUserConfig) -> bool {
    a.enabled == b.enabled && a.user_token@ == b.user_token@ && a.sync_continue_watching
        == b.sync_continue_watching
}

/// Two lookups found the same.
pub open spec fn same_found(a: Option<&SimklUserConfig>, b: Option<&SimklUserConfig>) -> bool {
    match (a, b) {
        (Some(a), Some(b)) => same_user(*a, *b),
        (None, None) => true,
        _ => false,
    }
}

proof fn lemma_users_of_last(entries: Seq<(String, SimklUserConfig)>, key: Seq<char>, i: int)
    requires
        0 <= i < entries.len(),
        entries[i].0@ == key,
        forall|j: int| i < j < entries.len() ==> (#[trigger] entries[j]).0@ != key,
    ensures
        users_of(entries).contains_key(key),
        users_of(entries)[key] == entries[i].1@,
    decreases entries.len(),
{
    if i < entries.len() - 1 {
        let rest = entries.drop_last();
        assert forall|j: int| i < j < rest.len() implies (#[trigger] rest[j]).0@ != key by {
            assert(entries[j].0@ != key);
        }
        lemma_users_of_last(rest, key, i);
        assert(entries[entries.len() - 1].0@ != key);
    }
}

proof fn lemma_users_of_none(entries: Seq<(String, SimklUserConfig)>, key: Seq<char>)
    requires
        forall|j: int| 0 <= j < entries.len() ==> (#[trigger] entries[j]).0@ != key,
    ensures
        !users_of(entries).contains_key(key),
    decreases entries.len(),
{
    if entries.len() > 0 {
        let rest = entries.drop_last();
        assert forall|j: int| 0 <= j < rest.len() implies (#[trigger] rest[j]).0@ != key by {
            assert(entries[j].0@ != key);
        }
        lemma_users_of_none(rest, key);
        assert(entries[entries.len() - 1].0@ != key);
    }
}

/// A table made of a list holds, under each key, the last that the list has
/// under it, and nothing under other keys.
pub proof fn last_entry_counts(
    entries: Vec<(String, SimklUserConfig)>,
    table: UserTable,
    key: &str,
    i: int,
    found: Option<&SimklUserConfig>,
)
    requires
        call_ensures(UserTable::from_entries, (entries,), table),
        call_ensures(UserTable::get, (&table, key), found),
    ensures
        (0 <= i < entries@.len() && entries@[i].0@ == key@ && forall|j: int|
            i < j < entries@.len() ==> (#[trigger] entries@[j]).0@ != key@) ==> found is Some
            && same_user(*found->0, entries@[i].1),
        (forall|j: int| 0 <= j < entries@.len() ==> (#[trigger] entries@[j]).0@ != key@)
            ==> found is None,
{
    if 0 <= i < entries@.len() && entries@[i].0@ == key@ && forall|j: int|
        i < j < entries@.len() ==> (#[trigger] entries@[j]).0@ != key@ {
        lemma_users_of_last(entries@, key@, i);
    }
    if forall|j: int| 0 <= j < entries@.len() ==> (#[trigger] entries@[j]).0@ != key@ {
        lemma_users_of_none(entries@, key@);
    }
}

/// What is put under a key is found there, and what is under other keys stays.
pub proof fn table_keeps_what_is_put(
    table: UserTable,
    key: String,
    cfg: SimklUserConfig,
    after: UserTable,
    other: &str,
    before_other: Option<&SimklUserConfig>,
    after_other: Option<&SimklUserConfig>,
)
    requires
        call_ensures(UserTable::insert, (table, key, cfg), after),
        call_ensures(UserTable::get, (&table, other), before_other),
        call_ensures(UserTable::get, (&after, other), after_other),
    ensures
        other@ == key@ ==> after_other is Some && same_user(*after_other->0, cfg),
        other@ != key@ ==> same_found(after_other, before_other),
{
}

/// A table laid over another is asked first.
pub proof fn overlay_is_asked_first(
    below: UserTable,
    above: &UserTable,
    both: UserTable,
    key: &str,
    in_below: Option<&SimklUserConfig>,
    in_above: Option<&SimklUserConfig>,
    in_both: Option<&SimklUserConfig>,
)
    requires
        call_ensures(UserTable::overlay, (below, above), both),
        call_ensures(UserTable::get, (&below, key), in_below),
        call_ensures(UserTable::get, (above, key), in_above),
        call_ensures(UserTable::get, (&both, key), in_both),
    ensures
        in_above is Some ==> same_found(in_both, in_above),
        in_above is None ==> same_found(in_both, in_below),
{
}

/// Stored settings count before those of the file: a client identifier that is
/// not empty, a threshold that is not zero, and each user.
pub proof fn stored_settings_count_first(
    base: &SimklConfig,
    stored: SimklConfig,
    r: SimklConfig,
    key: &str,
    in_base: Option<&SimklUserConfig>,
    in_stored: Option<&SimklUserConfig>,
    in_both: Option<&SimklUserConfig>,
)
    requires
        call_ensures(Settings::get_simkl_config, (base, Some(stored)), r),
        call_ensures(UserTable::get, (&base.users, key), in_base),
        call_ensures(UserTable::get, (&stored.users, key), in_stored),
        call_ensures(UserTable::get, (&r.users, key), in_both),
    ensures
        stored.client_id@.len() > 0 ==> r.client_id@ == stored.client_id@,
        stored.client_id@.len() == 0 ==> r.client_id@ == base.client_id@,
        stored.completion_threshold > 0 ==> r.completion_threshold == stored.completion_threshold,
        stored.completion_threshold == 0 ==> r.completion_threshold == base.completion_threshold,
        in_stored is Some ==> same_found(in_both, in_stored),
        in_stored is None ==> same_found(in_both, in_base),
{
    assert(r@.client_id == r.client_id@);
    assert(r@.users == r.users@);
}

/// Where nothing is stored the file counts.
pub proof fn file_counts_where_nothing_is_stored(
    base: &SimklConfig,
    r: SimklConfig,
    key: &str,
    in_base: Option<&SimklUserConfig>,
    in_force: Option<&SimklUserConfig>,
)
    requires
        call_ensures(Settings::get_simkl_config, (base, None), r),
        call_ensures(UserTable::get, (&base.users, key), in_base),
        call_ensures(UserTable::get, (&r.users, key), in_force),
    ensures
        r.client_id@ == base.client_id@,
        r.completion_threshold == base.completion_threshold,
        same_found(in_force, in_base),
{
    assert(r@.client_id == r.client_id@);
    assert(r@.users == r.users@);
}

/// A user has the settings under the hyphenated form of the identifier, or
/// else under the simple form, or else everything off.
pub proof fn users_are_found_by_either_form(
    base: &SimklConfig,
    stored: Option<SimklConfig>,
    full: SimklConfig,
    user_id: u128,
    long: &str,
    short: &str,
    by_long: Option<&SimklUserConfig>,
    by_short: Option<&SimklUserConfig>,
    r: SimklUserConfig,
    credentials: (String, SimklUserConfig),
)
    requires
        call_ensures(Settings::get_simkl_config, (base, stored), full),
        call_ensures(Settings::get_user_simkl_config, (base, stored, user_id), r),
        call_ensures(SimklService::get_credentials, (base, stored, user_id), credentials),
        long@ == hyphenated_text(user_id),
        short@ == simple_text(user_id),
        call_ensures(UserTable::get, (&full.users, long), by_long),
        call_ensures(UserTable::get, (&full.users, short), by_short),
    ensures
        by_long is Some ==> same_user(r, *by_long->0),
        by_long is None && by_short is Some ==> same_user(r, *by_short->0),
        by_long is None && by_short is None ==> !r.enabled && r.user_token@.len() == 0
            && !r.sync_continue_watching,
        credentials.0@ == full.client_id@,
        same_user(credentials.1, r),
{
    assert(full@.client_id == full.client_id@);
    assert(full@.users == full.users@);
    assert(credentials.1@ == r@);
    assert(r@.user_token == r.user_token@);
    assert(credentials.1@.user_token == credentials.1.user_token@);
}

/// The settings of a user read back as they were stored, and storing them
/// changes neither those of another user nor those of the server.
pub proof fn storing_a_user_changes_that_user_only(
    base: &SimklConfig,
    stored: Option<SimklConfig>,
    user_id: u128,
    user: SimklUserConfig,
    written: SimklConfig,
    other: u128,
    before: SimklUserConfig,
    after: SimklUserConfig,
    full_before: SimklConfig,
    full_after: SimklConfig,
)
    requires
        call_ensures(Settings::set_user_simkl_config, (base, stored, user_id, user), written),
        call_ensures(Settings::get_user_simkl_config, (base, stored, other), before),
        call_ensures(Settings::get_user_simkl_config, (base, Some(written), other), after),
        call_ensures(Settings::get_simkl_config, (base, stored), full_before),
        call_ensures(Settings::get_simkl_config, (base, Some(written)), full_after),
    ensures
        other == user_id ==> same_user(after, user),
        other != user_id ==> same_user(after, before),
        full_after.client_id@ == full_before.client_id@,
        full_after.completion_threshold == full_before.completion_threshold,
{
    let stored_view = crate::settings::opt_config(stored);
    let another: u128 = if user_id == 0 {
        1
    } else {
        0
    };
    stored_user_reads_back(base@, stored_view, user_id, user@);
    if other != user_id {
        storing_a_user_keeps_the_rest(base@, stored_view, user_id, user@, other);
    }
    storing_a_user_keeps_the_rest(base@, stored_view, user_id, user@, another);
    assert(after@.user_token == after.user_token@);
    assert(before@.user_token == before.user_token@);
    assert(user@.user_token == user.user_token@);
    assert(full_after@.client_id == full_after.client_id@);
    assert(full_before@.client_id == full_before.client_id@);
}

/// Each configuration is stored as it is, under a key of its own.
pub proof fn rows_hold_their_configuration(
    json: String,
    server: SettingRow,
    encoding: SettingRow,
    intro: SettingRow,
    simkl: SettingRow,
)
    requires
        call_ensures(Settings::set_config, (json,), server),
        call_ensures(Settings::set_encoding_config, (json,), encoding),
        call_ensures(Settings::set_intro_config, (json,), intro),
        call_ensures(Settings::set_simkl_config, (json,), simkl),
    ensures
        server.key@ == "server_configuration"@ && server.value == json,
        encoding.key@ == "encoding_configuration"@ && encoding.value == json,
        intro.key@ == "intro_configuration"@ && intro.value == json,
        simkl.key@ == "simkl_configuration"@ && simkl.value == json,
{
}

/// A configuration that was stored and can be read is the one in force; where
/// none is stored the default is. One that cannot be read is an error for the
/// server, and gives way to the default for encoding and intros.
pub proof fn readable_configurations_are_in_force<T, E>(
    stored: Option<Result<T, E>>,
    default: T,
    server: Result<T, E>,
    server_or_default: T,
    encoding: T,
    intro: T,
)
    requires
        call_ensures(Settings::get_config::<T, E>, (stored, default), server),
        call_ensures(
            Settings::get_config_or_default::<T, E>,
            (server, default),
            server_or_default,
        ),
        call_ensures(Settings::get_encoding_config::<T, E>, (stored, default), encoding),
        call_ensures(Settings::get_intro_config::<T, E>, (stored, default), intro),
    ensures
        stored matches Some(Ok(config)) ==> server == Ok::<T, E>(config) && server_or_default
            == config && encoding == config && intro == config,
        stored matches Some(Err(e)) ==> server == Err::<T, E>(e) && server_or_default == default
            && encoding == default && intro == default,
        stored is None ==> server == Ok::<T, E>(default) && server_or_default == default && encoding
            == default && intro == default,
{
}

/// An identifier of the server that is stored in any form of a UUID is used in
/// simple form, and one that is no UUID as it is; where none is stored a
/// random one is made up, which is kept from then on.
pub proof fn server_ids_are_kept(
    id: u128,
    stored: String,
    r: ServerId,
    fresh: ServerId,
    again: ServerId,
)
    requires
        call_ensures(Settings::init_server_id, (Some(stored),), r),
        call_ensures(Settings::init_server_id, (None,), fresh),
        call_ensures(Settings::init_server_id, (Some(fresh.id),), again),
    ensures
        !r.is_new && fresh.is_new && !again.is_new,
        stored@ == hyphenated_text(id) || stored@ == simple_text(id) ==> r.id@ == simple_text(id),
        uuid_value(stored@) matches Some(value) ==> r.id@ == simple_text(value),
        uuid_value(stored@) is None ==> r.id@ == stored@,
        exists|random: u128|
            is_random_uuid(random) && #[trigger] simple_text(random) == fresh.id@,
        again.id@ == fresh.id@,
{
    parse_of_hyphenated(id);
    parse_of_simple(id);
    let random = choose|random: u128|
        is_random_uuid(random) && #[trigger] simple_text(random) == fresh.id@;
    parse_of_simple(random);
}

/// The identifier of the server, given a fresh one, is the stored one or that.
pub proof fn fresh_server_id_stands_in(fresh: u128, stored: String, r: ServerId, made: ServerId)
    requires
        call_ensures(Settings::server_id, (Some(stored), fresh), r),
        call_ensures(Settings::server_id, (None, fresh), made),
    ensures
        !r.is_new && made.is_new,
        made.id@ == simple_text(fresh),
        uuid_value(stored@) matches Some(value) ==> r.id@ == simple_text(value),
        uuid_value(stored@) is None ==> r.id@ == stored@,
{
}

/// A table lists each key once, with what is found under it; an empty one
/// finds nothing.
pub proof fn tables_list_what_is_found(
    table: &UserTable,
    entries: &Vec<(String, SimklUserConfig)>,
    key: &str,
    i: int,
    found: Option<&SimklUserConfig>,
    empty: UserTable,
    in_empty: Option<&SimklUserConfig>,
)
    requires
        call_ensures(UserTable::entries, (table,), entries),
        call_ensures(UserTable::get, (table, key), found),
        call_ensures(UserTable::new, (), empty),
        call_ensures(UserTable::get, (&empty, key), in_empty),
    ensures
        0 <= i < entries@.len() && entries@[i].0@ == key@ ==> found is Some && same_user(
            *found->0,
            entries@[i].1,
        ),
        (forall|j: int| 0 <= j < entries@.len() ==> (#[trigger] entries@[j]).0@ != key@)
            ==> found is None,
        in_empty is None,
{
    if 0 <= i < entries@.len() && entries@[i].0@ == key@ {
        assert forall|j: int| i < j < entries@.len() implies (#[trigger] entries@[j]).0@
            != key@ by {
            assert(entries@[i].0@ != entries@[j].0@);
        }
        lemma_users_of_last(entries@, key@, i);
        assert(found->0@.user_token == found->0.user_token@);
    }
    if forall|j: int| 0 <= j < entries@.len() ==> (#[trigger] entries@[j]).0@ != key@ {
        lemma_users_of_none(entries@, key@);
    }
}

/// A user of whom nothing is known has everything off.
pub proof fn unknown_users_have_everything_off(r: SimklUserConfig)
    requires
        call_ensures(SimklUserConfig::default, (), r),
    ensures
        !r.enabled,
        r.user_token@.len() == 0,
        !r.sync_continue_watching,
{
    assert(r@.user_token == r.user_token@);
}

} // verus!
