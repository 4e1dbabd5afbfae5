//! Stored settings: how they are layered over the configuration file, and
//! how those of single users are kept.

use vstd::prelude::*;

use crate::ids::{
    hyphenated, hyphenated_text, is_random_uuid, parse_of_simple, parse_uuid, random_uuid, simple,
    simple_text, texts_are_distinct, uuid_value,
};
use crate::text::text_eq;

verus! {

/// The key of the server configuration.
pub const SERVER_CONFIG_KEY: &'static str = "server_configuration";

/// The key of the encoding configuration.
pub const ENCODING_CONFIG_KEY: &'static str = "encoding_configuration";

/// The key of the intro configuration.
pub const INTRO_CONFIG_KEY: &'static str = "intro_configuration";

/// The key of the Simkl configuration.
pub const SIMKL_CONFIG_KEY: &'static str = "simkl_configuration";

/// The key of the identifier of the server.
pub const SERVER_ID_KEY: &'static str = "server_id";

/// Simkl settings of one user.
#[derive(Debug, PartialEq)]
pub struct SimklUserConfig {
    pub enabled: bool,
    pub user_token: String,
    pub sync_continue_watching: bool,
}

/// The content of the Simkl settings of one user.
pub struct UserConfigView {
    pub enabled: bool,
    pub user_token: Seq<char>,
    pub sync_continue_watching: bool,
}

impl View for SimklUserConfig {
    type V = UserConfigView;

    open spec fn view(&self) -> UserConfigView {
        UserConfigView {
            enabled: self.enabled,
            user_token: self.user_token@,
            sync_continue_watching: self.sync_continue_watching,
        }
    }
}

/// The settings of a user of whom nothing is stored.
pub open spec fn default_user_config() -> UserConfigView {
    UserConfigView { enabled: false, user_token: seq![], sync_continue_watching: false }
}

impl Default for SimklUserConfig {
    fn default() -> (r: Self)
        ensures
            r@ == default_user_config(),
    {
        SimklUserConfig {
            enabled: false,
            user_token: String::new(),
            sync_continue_watching: false,
        }
    }
}

impl Clone for SimklUserConfig {
    fn clone(&self) -> (r: Self)
        ensures
            r == *self,
    {
        SimklUserConfig {
            enabled: self.enabled,
            user_token: self.user_token.clone(),
            sync_continue_watching: self.sync_continue_watching,
        }
    }
}

/// Simkl settings by user key, at most one per key.
#[derive(Debug)]
pub struct UserTable {
    entries: Vec<(String, SimklUserConfig)>,
}

/// No key occurs twice.
spec fn distinct_keys(entries: Seq<(String, SimklUserConfig)>) -> bool {
    forall|i: int, j: int|
        0 <= i < j < entries.len() ==> #[trigger] entries[i].0@ != #[trigger] entries[j].0@
}

/// The settings that a list of entries holds; the last entry of a key counts.
pub open spec fn users_of(entries: Seq<(String, SimklUserConfig)>) -> Map<Seq<char>, UserConfigView>
    decreases entries.len(),
{
    if entries.len() == 0 {
        Map::empty()
    } else {
        users_of(entries.drop_last()).insert(entries.last().0@, entries.last().1@)
    }
}

proof fn lemma_users_of(entries: Seq<(String, SimklUserConfig)>)
    requires
        distinct_keys(entries),
    ensures
        forall|k: Seq<char>| #[trigger]
            users_of(entries).contains_key(k) <==> exists|i: int|
                0 <= i < entries.len() && #[trigger] entries[i].0@ == k,
        forall|i: int|
            0 <= i < entries.len() ==> users_of(entries)[#[trigger] entries[i].0@]
                == entries[i].1@,
    decreases entries.len(),
{
    if entries.len() > 0 {
        let rest = entries.drop_last();
        let last = entries.last();
        assert(distinct_keys(rest)) by {
            assert forall|i: int, j: int| 0 <= i < j < rest.len() implies #[trigger] rest[i].0@
                != #[trigger] rest[j].0@ by {
                assert(rest[i] == entries[i] && rest[j] == entries[j]);
            }
        }
        lemma_users_of(rest);
        assert forall|k: Seq<char>| #[trigger] users_of(entries).contains_key(k) <==> exists|i: int|
            0 <= i < entries.len() && #[trigger] entries[i].0@ == k by {
            if users_of(entries).contains_key(k) {
                if users_of(rest).contains_key(k) {
                    let i = choose|i: int| 0 <= i < rest.len() && #[trigger] rest[i].0@ == k;
                    assert(entries[i].0@ == k);
                } else {
                    assert(entries[entries.len() - 1].0@ == k);
                }
            }
            if exists|i: int| 0 <= i < entries.len() && #[trigger] entries[i].0@ == k {
                let i = choose|i: int| 0 <= i < entries.len() && #[trigger] entries[i].0@ == k;
                if i < rest.len() {
                    assert(rest[i].0@ == k);
                }
            }
        }
        assert forall|i: int| 0 <= i < entries.len() implies users_of(
            entries,
        )[#[trigger] entries[i].0@] == entries[i].1@ by {
            if i < rest.len() {
                assert(rest[i] == entries[i]);
                assert(entries[i].0@ != entries[entries.len() - 1].0@);
            }
        }
    }
}

impl View for UserTable {
    type V = Map<Seq<char>, UserConfigView>;

    closed spec fn view(&self) -> Map<Seq<char>, UserConfigView> {
        users_of(self.entries@)
    }
}

impl UserTable {
    #[verifier::type_invariant]
    spec fn is_table(self) -> bool {
        distinct_keys(self.entries@)
    }

    /// A table without entries.
    pub fn new() -> (r: UserTable)
        ensures
            r@ == Map::<Seq<char>, UserConfigView>::empty(),
    {
        UserTable { entries: Vec::new() }
    }

    /// The table of a list of entries, where a later entry replaces an
    /// earlier one of the same key.
    pub fn from_entries(entries: Vec<(String, SimklUserConfig)>) -> (r: UserTable)
        ensures
            r@ == users_of(entries@),
    {
        let mut table = UserTable::new();
        let mut i: usize = 0;
        while i < entries.len()
            invariant
                i <= entries.len(),
                table@ == users_of(entries@.take(i as int)),
            decreases entries.len() - i,
        {
            proof {
                assert(entries@.take(i + 1).drop_last() =~= entries@.take(i as int));
            }
            table = table.insert(entries[i].0.clone(), entries[i].1.clone());
            i += 1;
        }
        proof {
            assert(entries@.take(entries@.len() as int) =~= entries@);
        }
        table
    }

    /// The entries of the table, each key once.
    pub fn entries(&self) -> (r: &Vec<(String, SimklUserConfig)>)
        ensures
            users_of(r@) == self@,
            forall|i: int, j: int|
                0 <= i < j < r@.len() ==> #[trigger] r@[i].0@ != #[trigger] r@[j].0@,
    {
        proof {
            use_type_invariant(self);
        }
        &self.entries
    }

    /// The settings under a key.
    pub fn get(&self, key: &str) -> (r: Option<&SimklUserConfig>)
        ensures
            match r {
                Some(cfg) => self@.contains_key(key@) && self@[key@] == cfg@,
                None => !self@.contains_key(key@),
            },
    {
        proof {
            use_type_invariant(self);
            lemma_users_of(self.entries@);
        }
        let mut i: usize = 0;
        while i < self.entries.len()
            invariant
                i <= self.entries.len(),
                forall|j: int| 0 <= j < i ==> #[trigger] self.entries@[j].0@ != key@,
                forall|j: int|
                    0 <= j < self.entries@.len() ==> users_of(
                        self.entries@,
                    )[#[trigger] self.entries@[j].0@] == self.entries@[j].1@,
                forall|k: Seq<char>| #[trigger]
                    users_of(self.entries@).contains_key(k) <==> exists|j: int|
                        0 <= j < self.entries@.len() && #[trigger] self.entries@[j].0@ == k,
            decreases self.entries.len() - i,
        {
            if text_eq(self.entries[i].0.as_str(), key) {
                return Some(&self.entries[i].1);
            }
            i += 1;
        }
        None
    }

    /// The table with other settings under a key.
    pub fn insert(self, key: String, cfg: SimklUserConfig) -> (r: UserTable)
        ensures
            r@ == self@.insert(key@, cfg@),
    {
        proof {
            use_type_invariant(&self);
            lemma_users_of(self.entries@);
        }
        let ghost before = self.entries@;
        let mut entries = self.entries;
        let mut i: usize = 0;
        while i < entries.len()
            invariant
                i <= entries.len(),
                entries@ == before,
                users_of(before) == self@,
                distinct_keys(before),
                forall|j: int| 0 <= j < i ==> #[trigger] before[j].0@ != key@,
            decreases entries.len() - i,
        {
            if text_eq(entries[i].0.as_str(), key.as_str()) {
                let ghost after = before.update(i as int, (key, cfg));
                proof {
                    assert forall|a: int, b: int| 0 <= a < b < after.len() implies #[trigger]
                    after[a].0@ != #[trigger] after[b].0@ by {
                        assert(before[a].0@ != before[b].0@);
                    }
                    lemma_users_of(before);
                    lemma_users_of(after);
                    lemma_replaced(before, after, i as int);
                }
                entries.set(i, (key, cfg));
                return UserTable { entries };
            }
            i += 1;
        }
        let ghost after = before.push((key, cfg));
        proof {
            assert(after.drop_last() =~= before);
            assert forall|a: int, b: int| 0 <= a < b < after.len() implies #[trigger] after[a].0@
                != #[trigger] after[b].0@ by {
                assert(after[a] == before[a]);
                if b < before.len() {
                    assert(after[b] == before[b]);
                }
            }
        }
        entries.push((key, cfg));
        UserTable { entries }
    }

    /// The table with the entries of another laid over its own.
    pub fn overlay(self, other: &UserTable) -> (r: UserTable)
        ensures
            r@ == self@.union_prefer_right(other@),
    {
        let ghost base = self@;
        let mut table = self;
        let list = other.entries();
        let mut i: usize = 0;
        proof {
            assert(list@.take(0) =~= seq![]);
            assert(table@ =~= base.union_prefer_right(users_of(list@.take(0))));
        }
        while i < list.len()
            invariant
                i <= list.len(),
                users_of(list@) == other@,
                table@ == base.union_prefer_right(users_of(list@.take(i as int))),
            decreases list.len() - i,
        {
            let ghost done = users_of(list@.take(i as int));
            proof {
                assert(list@.take(i + 1).drop_last() =~= list@.take(i as int));
                assert(base.union_prefer_right(done).insert(list@[i as int].0@, list@[i as int].1@)
                    =~= base.union_prefer_right(
                    done.insert(list@[i as int].0@, list@[i as int].1@),
                ));
            }
            table = table.insert(list[i].0.clone(), list[i].1.clone());
            i += 1;
        }
        proof {
            assert(list@.take(list@.len() as int) =~= list@);
        }
        table
    }
}

proof fn lemma_replaced(
    before: Seq<(String, SimklUserConfig)>,
    after: Seq<(String, SimklUserConfig)>,
    i: int,
)
    requires
        0 <= i < before.len(),
        distinct_keys(before),
        distinct_keys(after),
        after == before.update(i, after[i]),
        after[i].0@ == before[i].0@,
    ensures
        users_of(after) == users_of(before).insert(after[i].0@, after[i].1@),
{
    lemma_users_of(before);
    lemma_users_of(after);
    let want = users_of(before).insert(after[i].0@, after[i].1@);
    assert forall|k: Seq<char>| users_of(after).contains_key(k) == want.contains_key(k) by {
        if users_of(after).contains_key(k) {
            let j = choose|j: int| 0 <= j < after.len() && #[trigger] after[j].0@ == k;
            assert(before[j].0@ == k);
        }
        if users_of(before).contains_key(k) {
            let j = choose|j: int| 0 <= j < before.len() && #[trigger] before[j].0@ == k;
            assert(after[j].0@ == k);
        }
    }
    assert forall|k: Seq<char>| users_of(after).contains_key(k) implies users_of(after)[k]
        == want[k] by {
        let j = choose|j: int| 0 <= j < after.len() && #[trigger] after[j].0@ == k;
        if j != i {
            assert(before[j] == after[j]);
            assert(before[j].0@ == k);
            assert(after[i].0@ != after[j].0@);
        }
    }
    assert(users_of(after) =~= want);
}

impl Clone for UserTable {
    fn clone(&self) -> (r: Self)
        ensures
            r@ == self@,
    {
        let r = UserTable::new().overlay(self);
        assert(r@ =~= self@);
        r
    }
}

impl Default for UserTable {
    fn default() -> (r: Self)
        ensures
            r@ == Map::<Seq<char>, UserConfigView>::empty(),
    {
        UserTable::new()
    }
}

/// Simkl settings of the server.
#[derive(Debug)]
pub struct SimklConfig {
    pub client_id: String,
    pub completion_threshold: u32,
    pub users: UserTable,
}

/// The content of the Simkl settings of the server.
pub struct ConfigView {
    pub client_id: Seq<char>,
    pub completion_threshold: u32,
    pub users: Map<Seq<char>, UserConfigView>,
}

impl View for SimklConfig {
    type V = ConfigView;

    open spec fn view(&self) -> ConfigView {
        ConfigView {
            client_id: self.client_id@,
            completion_threshold: self.completion_threshold,
            users: self.users@,
        }
    }
}

impl Clone for SimklConfig {
    fn clone(&self) -> (r: Self)
        ensures
            r@ == self@,
    {
        SimklConfig {
            client_id: self.client_id.clone(),
            completion_threshold: self.completion_threshold,
            users: self.users.clone(),
        }
    }
}

/// The content of optional settings.
pub open spec fn opt_config(cfg: Option<SimklConfig>) -> Option<ConfigView> {
    match cfg {
        Some(cfg) => Some(cfg@),
        None => None,
    }
}

/// Stored settings laid over those of the configuration file: a stored client
/// identifier counts unless it is empty, a stored threshold unless it is
/// zero, and stored users replace those of the same key.
pub open spec fn layered(base: ConfigView, stored: Option<ConfigView>) -> ConfigView {
    match stored {
        Some(s) => ConfigView {
            client_id: if s.client_id.len() > 0 {
                s.client_id
            } else {
                base.client_id
            },
            completion_threshold: if s.completion_threshold > 0 {
                s.completion_threshold
            } else {
                base.completion_threshold
            },
            users: base.users.union_prefer_right(s.users),
        },
        None => base,
    }
}

/// The settings of a user: those under the hyphenated identifier or, failing
/// that, under the simple one; the defaults where there are neither.
pub open spec fn user_settings(cfg: ConfigView, user_id: u128) -> UserConfigView {
    if cfg.users.contains_key(hyphenated_text(user_id)) {
        cfg.users[hyphenated_text(user_id)]
    } else if cfg.users.contains_key(simple_text(user_id)) {
        cfg.users[simple_text(user_id)]
    } else {
        default_user_config()
    }
}

/// The settings with those of one user replaced.
pub open spec fn with_user(cfg: ConfigView, user_id: u128, user: UserConfigView) -> ConfigView {
    ConfigView { users: cfg.users.insert(hyphenated_text(user_id), user), ..cfg }
}

/// A row of the settings table.
#[derive(Debug, PartialEq)]
pub struct SettingRow {
    pub key: String,
    pub value: String,
}

/// The identifier of the server, and whether it has yet to be stored.
#[derive(Debug, PartialEq)]
pub struct ServerId {
    pub id: String,
    pub is_new: bool,
}

/// The identifier that a stored text stands for: its simple form where it is
/// a UUID, else the text itself.
pub open spec fn normal_id(stored: Seq<char>) -> Seq<char> {
    match uuid_value(stored) {
        Some(id) => simple_text(id),
        None => stored,
    }
}

/// Access to the stored settings.
pub struct Settings;

impl Settings {
    /// The server configuration: what is stored, which must be readable, or
    /// the default.
    pub fn get_config<T, E>(stored: Option<Result<T, E>>, default: T) -> (r: Result<T, E>)
        ensures
            r == match stored {
                Some(read) => read,
                None => Ok(default),
            },
    {
        match stored {
            Some(read) => read,
            None => Ok(default),
        }
    }

    /// The server configuration, or the default where it cannot be read.
    pub fn get_config_or_default<T, E>(loaded: Result<T, E>, default: T) -> (r: T)
        ensures
            r == match loaded {
                Ok(config) => config,
                Err(_) => default,
            },
    {
        match loaded {
            Ok(config) => config,
            Err(_) => default,
        }
    }

    /// The row that stores the server configuration.
    pub fn set_config(json: String) -> (r: SettingRow)
        ensures
            r.key@ == SERVER_CONFIG_KEY@,
            r.value == json,
    {
        SettingRow { key: SERVER_CONFIG_KEY.to_string(), value: json }
    }

    /// The encoding configuration: what is stored if it is readable, else the
    /// default.
    pub fn get_encoding_config<T, E>(stored: Option<Result<T, E>>, default: T) -> (r: T)
        ensures
            r == match stored {
                Some(Ok(options)) => options,
                _ => default,
            },
    {
        match stored {
            Some(Ok(options)) => options,
            _ => default,
        }
    }

    /// The row that stores the encoding configuration.
    pub fn set_encoding_config(json: String) -> (r: SettingRow)
        ensures
            r.key@ == ENCODING_CONFIG_KEY@,
            r.value == json,
    {
        SettingRow { key: ENCODING_CONFIG_KEY.to_string(), value: json }
    }

    /// The intro configuration: what is stored if it is readable, else the
    /// default.
    pub fn get_intro_config<T, E>(stored: Option<Result<T, E>>, default: T) -> (r: T)
        ensures
            r == match stored {
                Some(Ok(options)) => options,
                _ => default,
            },
    {
        match stored {
            Some(Ok(options)) => options,
            _ => default,
        }
    }

    /// The row that stores the intro configuration.
    pub fn set_intro_config(json: String) -> (r: SettingRow)
        ensures
            r.key@ == INTRO_CONFIG_KEY@,
            r.value == json,
    {
        SettingRow { key: INTRO_CONFIG_KEY.to_string(), value: json }
    }

    /// The Simkl settings in force: the stored ones, if they are readable,
    /// over those of the configuration file.
    pub fn get_simkl_config(base_config: &SimklConfig, stored: Option<SimklConfig>) -> (r:
        SimklConfig)
        ensures
            r@ == layered(base_config@, opt_config(stored)),
    {
        let mut cfg = base_config.clone();
        if let Some(db_cfg) = stored {
            if !db_cfg.client_id.as_str().is_empty() {
                cfg.client_id = db_cfg.client_id.clone();
            }
            if db_cfg.completion_threshold > 0 {
                cfg.completion_threshold = db_cfg.completion_threshold;
            }
            cfg.users = cfg.users.overlay(&db_cfg.users);
        }
        cfg
    }

    /// The row that stores the Simkl settings.
    pub fn set_simkl_config(json: String) -> (r: SettingRow)
        ensures
            r.key@ == SIMKL_CONFIG_KEY@,
            r.value == json,
    {
        SettingRow { key: SIMKL_CONFIG_KEY.to_string(), value: json }
    }

    /// The Simkl settings of a user.
    pub fn get_user_simkl_config(
        base_config: &SimklConfig,
        stored: Option<SimklConfig>,
        user_id: u128,
    ) -> (r: SimklUserConfig)
        ensures
            r@ == user_settings(layered(base_config@, opt_config(stored)), user_id),
    {
        let full = Self::get_simkl_config(base_config, stored);
        let key = hyphenated(user_id);
        let simple_key = simple(user_id);
        match full.users.get(key.as_str()) {
            Some(cfg) => cfg.clone(),
            None => match full.users.get(simple_key.as_str()) {
                Some(cfg) => cfg.clone(),
                None => SimklUserConfig::default(),
            },
        }
    }

    /// The Simkl settings to store once those of a user have been replaced.
    pub fn set_user_simkl_config(
        base_config: &SimklConfig,
        stored: Option<SimklConfig>,
        user_id: u128,
        user_config: SimklUserConfig,
    ) -> (r: SimklConfig)
        ensures
            r@ == with_user(layered(base_config@, opt_config(stored)), user_id, user_config@),
    {
        let full = Self::get_simkl_config(base_config, stored);
        SimklConfig {
            client_id: full.client_id,
            completion_threshold: full.completion_threshold,
            users: full.users.insert(hyphenated(user_id), user_config),
        }
    }

    /// The identifier of the server: the stored one in simple form, or a new
    /// random one.
    pub fn init_server_id(stored: Option<String>) -> (r: ServerId)
        ensures
            match stored {
                Some(text) => !r.is_new && r.id@ == normal_id(text@),
                None => r.is_new && exists|fresh: u128|
                    is_random_uuid(fresh) && #[trigger] simple_text(fresh) == r.id@,
            },
    {
        match stored {
            Some(text) => Self::server_id(Some(text), 0),
            None => {
                let fresh: u128 = random_uuid();
                Self::server_id(None, fresh)
            },
        }
    }

    /// The identifier of the server, given a fresh one to use where none is
    /// stored.
    pub fn server_id(stored: Option<String>, fresh: u128) -> (r: ServerId)
        ensures
            match stored {
                Some(text) => !r.is_new && r.id@ == normal_id(text@),
                None => r.is_new && r.id@ == simple_text(fresh),
            },
    {
        match stored {
            Some(text) => ServerId {
                id: match parse_uuid(text.as_str()) {
                    Some(id) => simple(id),
                    None => text,
                },
                is_new: false,
            },
            None => ServerId { id: simple(fresh), is_new: true },
        }
    }
}

/// Layering is settled after one round: settings that were read and stored
/// unchanged read the same again.
pub proof fn layering_is_stable(base: ConfigView, stored: Option<ConfigView>)
    ensures
        layered(base, Some(layered(base, stored))) == layered(base, stored),
{
    let once = layered(base, stored);
    assert(base.users.union_prefer_right(once.users) =~= once.users);
}

/// The settings of a user read back as they were stored.
pub proof fn stored_user_reads_back(
    base: ConfigView,
    stored: Option<ConfigView>,
    user_id: u128,
    user: UserConfigView,
)
    ensures
        user_settings(
            layered(base, Some(with_user(layered(base, stored), user_id, user))),
            user_id,
        ) == user,
{
}

/// Storing the settings of one user changes neither those of another nor the
/// settings of the server.
pub proof fn storing_a_user_keeps_the_rest(
    base: ConfigView,
    stored: Option<ConfigView>,
    user_id: u128,
    user: UserConfigView,
    other: u128,
)
    requires
        other != user_id,
    ensures
        ({
            let before = layered(base, stored);
            let after = layered(base, Some(with_user(before, user_id, user)));
            &&& user_settings(after, other) == user_settings(before, other)
            &&& after.client_id == before.client_id
            &&& after.completion_threshold == before.completion_threshold
        }),
{
    let before = layered(base, stored);
    let written = with_user(before, user_id, user);
    texts_are_distinct(user_id, other);
    texts_are_distinct(other, user_id);
    layering_is_stable(base, stored);
    assert(layered(base, Some(written)).users =~= written.users);
}

/// An identifier of the server that was stored is kept from then on.
pub proof fn server_id_is_kept(fresh: u128, stored: Seq<char>)
    ensures
        normal_id(simple_text(fresh)) == simple_text(fresh),
        normal_id(normal_id(stored)) == normal_id(stored),
{
    parse_of_simple(fresh);
    if let Some(id) = uuid_value(stored) {
        parse_of_simple(id);
    }
}

} // verus!
