//! Continue-watching: taking over playback sessions that were left in
//! progress elsewhere.

use std::collections::HashMap;

use vstd::prelude::*;
use vstd::string::*;

use crate::http::{pair, status_line, Body, BodyView, Method, Reply, Request, RequestView};
use crate::json::opt_text;
use crate::media::{
    describes_movie, describes_series, ExternalIds, Media, MediaKind, SimklService,
};
use crate::scrobble::{failure, SkipReason, APP_QUERY, SIMKL_API_BASE};
use crate::settings::{SimklUserConfig, UserConfigView};
use crate::simkl::{bearer, SimklEpisode, SimklMovie, SimklPlaybackItem, SimklShow};
use crate::text::{
    clean_credential, cleaned, decimal_reads_back, i64_value, parse_i64, text_eq,
};
use crate::time::{
    is_within, parse_rfc3339, rfc3339_timestamp, ticks_of, to_ticks, within_secs, Moment,
    TickUnit, Timestamp,
};

verus! {

broadcast use vstd::std_specs::hash::group_hash_axioms;

/// The least number of seconds between two synchronisations of a user.
pub const PLAYBACK_SYNC_COOLDOWN: u64 = 30;

/// Why nothing is taken over for a user, if nothing is.
pub open spec fn playback_skip(client_id: Seq<char>, user: UserConfigView) -> Option<SkipReason> {
    if client_id.len() == 0 {
        Some(SkipReason::NoClientId)
    } else if !user.enabled {
        Some(SkipReason::Disabled)
    } else if !user.sync_continue_watching {
        Some(SkipReason::SyncDisabled)
    } else if user.user_token.len() == 0 {
        Some(SkipReason::NoToken)
    } else {
        None
    }
}

/// When the sessions of each user were last asked for.
#[derive(Debug)]
pub struct PlaybackSyncs {
    last: HashMap<u128, Moment>,
}

impl View for PlaybackSyncs {
    type V = Map<u128, Moment>;

    closed spec fn view(&self) -> Map<u128, Moment> {
        self.last@
    }
}

/// What a synchronisation does first.
#[derive(Clone, Copy, Debug, PartialEq, Eq, Structural)]
pub enum SyncStart {
    Skip(SkipReason),
    CoolingDown,
    Fetch,
}

/// The sessions of `user` were asked for less than the cooldown ago.
pub open spec fn cooling_down(last: Map<u128, Moment>, user: u128, now: Moment) -> bool {
    last.contains_key(user) && within_secs(last[user], now, PLAYBACK_SYNC_COOLDOWN)
}

/// What a synchronisation at `now` does first.
pub open spec fn sync_begins(
    last: Map<u128, Moment>,
    client_id: Seq<char>,
    user: UserConfigView,
    user_id: u128,
    now: Moment,
) -> SyncStart {
    match playback_skip(client_id, user) {
        Some(reason) => SyncStart::Skip(reason),
        None => if cooling_down(last, user_id, now) {
            SyncStart::CoolingDown
        } else {
            SyncStart::Fetch
        },
    }
}

impl PlaybackSyncs {
    /// No user was synchronised yet.
    pub fn new() -> (r: PlaybackSyncs)
        ensures
            r@ == Map::<u128, Moment>::empty(),
    {
        PlaybackSyncs { last: HashMap::new() }
    }

    /// Begins a synchronisation of a user, unless the settings rule it out or
    /// the last one is less than the cooldown ago. The time is noted before
    /// Simkl is asked, so that a synchronisation that fails counts too.
    pub fn sync_playback(
        &mut self,
        client_id: &str,
        user_cfg: &SimklUserConfig,
        user_id: u128,
        now: Moment,
    ) -> (r: SyncStart)
        ensures
            r == sync_begins(old(self)@, client_id@, user_cfg@, user_id, now),
            final(self)@ == if r is Fetch {
                old(self)@.insert(user_id, now)
            } else {
                old(self)@
            },
    {
        if let Some(reason) = SimklService::playback_gate(client_id, user_cfg) {
            return SyncStart::Skip(reason);
        }
        if let Some(last) = self.last.get(&user_id) {
            if is_within(*last, now, PLAYBACK_SYNC_COOLDOWN) {
                return SyncStart::CoolingDown;
            }
        }
        self.last.insert(user_id, now);
        SyncStart::Fetch
    }
}

/// The request for the sessions that were left in progress. Credentials are
/// cleaned first.
pub open spec fn playback_request(client_id: Seq<char>, user_token: Seq<char>) -> RequestView {
    RequestView {
        method: Method::GET,
        url: SIMKL_API_BASE@ + "/sync/playback?hide_watched=true&client_id="@ + cleaned(client_id)
            + APP_QUERY@,
        headers: seq![
            ("simkl-api-key"@, cleaned(client_id)),
            ("Authorization"@, "Bearer "@ + cleaned(user_token)),
            ("Accept"@, "application/json"@),
        ],
        body: BodyView::Empty,
    }
}

/// The sessions in a reply, or why there are none.
pub open spec fn fetched_sessions(reply: Reply<Vec<SimklPlaybackItem>>) -> Result<
    Seq<SimklPlaybackItem>,
    Seq<char>,
> {
    match reply {
        Reply::Unreachable => Err("failed to send request to Simkl Playback API"@),
        Reply::Answered { status, parsed, body } => if status.spec_success() {
            match parsed {
                Some(items) => Ok(items@),
                None => Err("failed to parse Simkl playback items"@),
            }
        } else {
            Err(
                "Simkl GET /sync/playback returned HTTP "@ + status_line(status.spec_code()) + ": "@
                    + body@,
            )
        },
    }
}

/// A synchronisation under way: the credentials it was begun with, and the
/// sessions that are still to be taken over.
#[derive(Debug)]
pub struct PlaybackRun {
    client_id: String,
    user_token: String,
    rest: Vec<SimklPlaybackItem>,
}

/// The content of a synchronisation under way.
pub struct RunView {
    pub client_id: Seq<char>,
    pub user_token: Seq<char>,
    pub rest: Seq<SimklPlaybackItem>,
}

impl View for PlaybackRun {
    type V = RunView;

    closed spec fn view(&self) -> RunView {
        RunView { client_id: self.client_id@, user_token: self.user_token@, rest: self.rest@ }
    }
}

/// What happened in a synchronisation.
#[derive(Debug)]
pub enum SyncEvent {
    /// The user was looked up, and found or not.
    UserLookedUp(bool),
    /// Simkl replied.
    Replied(Reply<Vec<SimklPlaybackItem>>),
    /// A session was taken over, or failed to be.
    Handled(Result<(), String>),
}

/// What a synchronisation does next.
#[derive(Debug)]
pub enum SyncAction {
    /// Ask Simkl for the sessions.
    Ask(Request),
    /// Take a session over.
    TakeOver(SimklPlaybackItem),
    /// Stop, with this outcome.
    Finish(Result<(), String>),
}

/// The content of an action; an outcome by its message, if it is a failure.
pub enum SyncActionView {
    Ask(RequestView),
    TakeOver(SimklPlaybackItem),
    Finish(Option<Seq<char>>),
}

impl View for SyncAction {
    type V = SyncActionView;

    open spec fn view(&self) -> SyncActionView {
        match self {
            SyncAction::Ask(request) => SyncActionView::Ask(request@),
            SyncAction::TakeOver(item) => SyncActionView::TakeOver(*item),
            SyncAction::Finish(outcome) => SyncActionView::Finish(failure(*outcome)),
        }
    }
}

/// The next session is taken over; once there is none, all is well.
pub open spec fn run_advances(run: RunView) -> (RunView, SyncActionView) {
    if run.rest.len() > 0 {
        (
            RunView { rest: run.rest.drop_first(), ..run },
            SyncActionView::TakeOver(run.rest[0]),
        )
    } else {
        (run, SyncActionView::Finish(None))
    }
}

/// What follows an event: nothing for a user who is not there, a failure
/// where the sessions could not be had, else one session after the other. A
/// session that fails is skipped.
pub open spec fn run_goes_on(run: RunView, event: SyncEvent) -> (RunView, SyncActionView) {
    match event {
        SyncEvent::UserLookedUp(found) => (
            run,
            if found {
                SyncActionView::Ask(playback_request(run.client_id, run.user_token))
            } else {
                SyncActionView::Finish(None)
            },
        ),
        SyncEvent::Replied(reply) => match fetched_sessions(reply) {
            Ok(items) => run_advances(RunView { rest: items, ..run }),
            Err(message) => (run, SyncActionView::Finish(Some(message))),
        },
        SyncEvent::Handled(_) => run_advances(run),
    }
}

impl PlaybackRun {
    /// A synchronisation that is about to look its user up.
    pub fn new(client_id: String, user_token: String) -> (r: PlaybackRun)
        ensures
            r@ == (RunView { client_id: client_id@, user_token: user_token@, rest: seq![] }),
    {
        let r = PlaybackRun { client_id, user_token, rest: Vec::new() };
        assert(r@.rest =~= seq![]);
        r
    }

    /// Goes on after an event.
    pub fn go_on(&mut self, event: SyncEvent) -> (r: SyncAction)
        ensures
            (final(self)@, r@) == run_goes_on(old(self)@, event),
    {
        match event {
            SyncEvent::UserLookedUp(found) => {
                if found {
                    SyncAction::Ask(
                        SimklService::get_playback(
                            self.client_id.as_str(),
                            self.user_token.as_str(),
                        ),
                    )
                } else {
                    SyncAction::Finish(Ok(()))
                }
            },
            SyncEvent::Replied(reply) => match SimklService::playback_reply(reply) {
                Ok(items) => {
                    self.rest = items;
                    self.advance()
                },
                Err(message) => SyncAction::Finish(Err(message)),
            },
            SyncEvent::Handled(_) => self.advance(),
        }
    }

    fn advance(&mut self) -> (r: SyncAction)
        ensures
            (final(self)@, r@) == run_advances(old(self)@),
    {
        if self.rest.is_empty() {
            SyncAction::Finish(Ok(()))
        } else {
            let item = self.rest.remove(0);
            assert(self@.rest =~= old(self)@.rest.drop_first());
            SyncAction::TakeOver(item)
        }
    }
}

/// What a synchronisation does about a run of events.
pub open spec fn run_actions(run: RunView, events: Seq<SyncEvent>) -> Seq<SyncActionView>
    decreases events.len(),
{
    if events.len() == 0 {
        seq![]
    } else {
        let (next, action) = run_goes_on(run, events[0]);
        seq![action] + run_actions(next, events.drop_first())
    }
}

/// Each of the sessions is taken over, and then all is well.
pub open spec fn all_taken_over(items: Seq<SimklPlaybackItem>) -> Seq<SyncActionView> {
    items.map_values(|item: SimklPlaybackItem| SyncActionView::TakeOver(item)).push(
        SyncActionView::Finish(None),
    )
}

/// What a playback session is about.
#[derive(Debug)]
pub enum PlaybackTarget<'a> {
    Movie(&'a SimklMovie),
    Episode(&'a SimklShow, &'a SimklEpisode),
}

/// A session is about a movie if it says so, or if it has a movie and no
/// episode.
pub open spec fn is_movie_session(item: SimklPlaybackItem) -> bool {
    opt_text(item.item_type) == Some("movie"@) || (item.movie is Some && item.episode is None)
}

/// The show of a session; an anime counts where there is no show.
pub open spec fn session_show(item: SimklPlaybackItem) -> Option<SimklShow> {
    match item.show {
        Some(show) => Some(show),
        None => item.anime,
    }
}

/// `target` is what `item` is about, or the message says what is missing.
pub open spec fn targets(item: SimklPlaybackItem, r: Result<PlaybackTarget, String>) -> bool {
    if is_movie_session(item) {
        match item.movie {
            Some(movie) => r matches Ok(PlaybackTarget::Movie(m)) && *m == movie,
            None => r matches Err(e) && e@ == "missing movie object in playback item"@,
        }
    } else {
        match (session_show(item), item.episode) {
            (None, _) => r matches Err(e) && e@ == "missing show object in playback item"@,
            (Some(_), None) => r matches Err(e) && e@
                == "missing episode object in playback item"@,
            (Some(show), Some(episode)) => r matches Ok(PlaybackTarget::Episode(s, e)) && *s
                == show && *e == episode,
        }
    }
}

/// An identifier counts unless it is empty.
pub open spec fn known_text(id: Option<String>) -> Option<Seq<char>> {
    match id {
        Some(s) => if s@.len() > 0 {
            Some(s@)
        } else {
            None
        },
        None => None,
    }
}

/// A numeric identifier counts if it is a number.
pub open spec fn known_number(id: Option<String>) -> Option<i64> {
    match id {
        Some(s) => i64_value(s@),
        None => None,
    }
}

/// `ids` are the identifiers to look a movie up by.
pub open spec fn movie_lookup_ids(movie: SimklMovie, ids: ExternalIds) -> bool {
    &&& opt_text(ids.imdb) == known_text(movie.ids.imdb)
    &&& ids.tmdb == known_number(movie.ids.tmdb)
    &&& ids.tvdb is None
    &&& ids.custom_stremio_id is None
}

/// `ids` are the identifiers to look a series up by.
pub open spec fn series_lookup_ids(show: SimklShow, ids: ExternalIds) -> bool {
    &&& opt_text(ids.imdb) == known_text(show.ids.imdb)
    &&& ids.tmdb == known_number(show.ids.tmdb)
    &&& ids.tvdb == known_number(show.ids.tvdb)
    &&& ids.custom_stremio_id is None
}

/// A description from which a medium can be brought into the library.
#[derive(Debug, PartialEq)]
pub struct MediaIdRaw {
    pub kind: MediaKind,
    pub external_ids: ExternalIds,
    pub season: Option<i64>,
    pub episode: Option<i64>,
}

/// `raw` describes the medium of a kind that `ids` identify. TVDB does not
/// count for movies.
pub open spec fn raw_of(kind: MediaKind, ids: ExternalIds, raw: MediaIdRaw) -> bool {
    &&& raw.kind == kind
    &&& raw.external_ids.imdb == ids.imdb
    &&& raw.external_ids.custom_stremio_id == ids.imdb
    &&& raw.external_ids.tmdb == ids.tmdb
    &&& raw.external_ids.tvdb == if kind == MediaKind::Movie {
        None
    } else {
        ids.tvdb
    }
    &&& raw.season is None
    &&& raw.episode is None
}

/// Where a medium that was looked up is to be had.
#[derive(Debug, PartialEq)]
pub enum Located {
    /// In the library, under this identifier.
    Here(u128),
    /// Not yet in the library, but it can be brought in.
    Resolve(MediaIdRaw),
    /// Nowhere.
    Nowhere,
}

/// What follows looking a medium up: a medium that is not found can be
/// brought in by its IMDb identifier.
pub open spec fn locates(
    kind: MediaKind,
    ids: ExternalIds,
    found: Option<u128>,
    r: Located,
) -> bool {
    match found {
        Some(id) => r == Located::Here(id),
        None => if ids.imdb is Some {
            r matches Located::Resolve(raw) && raw_of(kind, ids, raw)
        } else {
            r == Located::Nowhere
        },
    }
}

/// Which episode of which series.
#[derive(Clone, Copy, Debug, PartialEq, Eq, Structural)]
pub struct EpisodeQuery {
    pub series_id: u128,
    pub season: i64,
    pub number: i64,
}

/// How far a user has watched a medium.
#[derive(Clone, Copy, Debug, PartialEq, Eq, Structural)]
pub struct UserMediaState {
    pub playback_position: i64,
    pub last_played_at: Option<Timestamp>,
    pub played_at: Option<Timestamp>,
}

/// When a session was left: the time that it gives, if it can be read, else
/// now.
pub open spec fn session_time(item: SimklPlaybackItem, now: Timestamp) -> Timestamp {
    match item.spec_timestamp() {
        Some(text) => match rfc3339_timestamp(text) {
            Some(at) => at,
            None => now,
        },
        None => now,
    }
}

/// The run time of a medium in ticks; two hours for a movie and three
/// quarters of an hour for an episode where it is not known.
pub open spec fn assumed_run_time(media: Media) -> i64 {
    let known = match media.runtime {
        Some(secs) => ticks_of(secs, TickUnit::Seconds),
        None => None,
    };
    match known {
        Some(ticks) => ticks,
        None => if media.kind == MediaKind::Movie {
            72_000_000_000
        } else {
            27_000_000_000
        },
    }
}

/// The local state is newer than a session left at `paused_at`.
pub open spec fn local_is_newer(state: UserMediaState, paused_at: Timestamp) -> bool {
    state.last_played_at is Some && state.last_played_at->0.later_than(paused_at)
}

/// The state after taking over a session, if it is taken over: not where the
/// local state is newer.
pub open spec fn taken_over(
    state: UserMediaState,
    paused_at: Timestamp,
    target_ticks: i64,
) -> Option<UserMediaState> {
    if local_is_newer(state, paused_at) {
        None
    } else {
        Some(
            UserMediaState {
                playback_position: target_ticks,
                last_played_at: Some(paused_at),
                played_at: None,
            },
        )
    }
}

fn nonempty(id: &Option<String>) -> (r: Option<String>)
    ensures
        opt_text(r) == known_text(*id),
{
    match id {
        Some(s) => {
            if s.as_str().is_empty() {
                None
            } else {
                Some(s.clone())
            }
        },
        None => None,
    }
}

fn number(id: &Option<String>) -> (r: Option<i64>)
    ensures
        r == known_number(*id),
{
    match id {
        Some(s) => parse_i64(s.as_str()),
        None => None,
    }
}

impl SimklService {
    /// Why nothing is taken over for a user, if nothing is.
    pub fn playback_gate(client_id: &str, user_cfg: &SimklUserConfig) -> (r: Option<SkipReason>)
        ensures
            r == playback_skip(client_id@, user_cfg@),
    {
        if client_id.is_empty() {
            Some(SkipReason::NoClientId)
        } else if !user_cfg.enabled {
            Some(SkipReason::Disabled)
        } else if !user_cfg.sync_continue_watching {
            Some(SkipReason::SyncDisabled)
        } else if user_cfg.user_token.as_str().is_empty() {
            Some(SkipReason::NoToken)
        } else {
            None
        }
    }

    /// The request for the sessions that were left in progress.
    pub fn get_playback(client_id: &str, user_token: &str) -> (r: Request)
        ensures
            r@ == playback_request(client_id@, user_token@),
    {
        let client_id = clean_credential(client_id);
        let user_token = clean_credential(user_token);
        let mut url = SIMKL_API_BASE.to_string();
        url.append("/sync/playback?hide_watched=true&client_id=");
        url.append(client_id);
        url.append(APP_QUERY);
        let headers = vec![
            pair("simkl-api-key", client_id),
            pair("Authorization", bearer(user_token).as_str()),
            pair("Accept", "application/json"),
        ];
        let request = Request { method: Method::GET, url, headers, body: Body::Empty };
        assert(request@.headers =~= seq![
            ("simkl-api-key"@, client_id@),
            ("Authorization"@, "Bearer "@ + user_token@),
            ("Accept"@, "application/json"@),
        ]);
        request
    }

    /// The sessions in a reply.
    pub fn playback_reply(reply: Reply<Vec<SimklPlaybackItem>>) -> (r: Result<
        Vec<SimklPlaybackItem>,
        String,
    >)
        ensures
            match r {
                Ok(items) => fetched_sessions(reply) == Ok::<
                    Seq<SimklPlaybackItem>,
                    Seq<char>,
                >(items@),
                Err(e) => fetched_sessions(reply) == Err::<Seq<SimklPlaybackItem>, Seq<char>>(e@),
            },
    {
        match reply {
            Reply::Unreachable => Err("failed to send request to Simkl Playback API".to_string()),
            Reply::Answered { status, parsed, body } => {
                if status.is_success() {
                    match parsed {
                        Some(items) => Ok(items),
                        None => Err("failed to parse Simkl playback items".to_string()),
                    }
                } else {
                    let mut message = "Simkl GET /sync/playback returned HTTP ".to_string();
                    message.append(status.line().as_str());
                    message.append(": ");
                    message.append(body.as_str());
                    Err(message)
                }
            },
        }
    }

    /// What a playback session is about, or what it lacks.
    pub fn playback_target<'a>(item: &'a SimklPlaybackItem) -> (r: Result<
        PlaybackTarget<'a>,
        String,
    >)
        ensures
            targets(*item, r),
    {
        let says_movie = match &item.item_type {
            Some(t) => text_eq(t.as_str(), "movie"),
            None => false,
        };
        if says_movie || (item.movie.is_some() && item.episode.is_none()) {
            match &item.movie {
                Some(movie) => Ok(PlaybackTarget::Movie(movie)),
                None => Err("missing movie object in playback item".to_string()),
            }
        } else {
            let show = match &item.show {
                Some(show) => show,
                None => match &item.anime {
                    Some(anime) => anime,
                    None => {
                        return Err("missing show object in playback item".to_string());
                    },
                },
            };
            match &item.episode {
                Some(episode) => Ok(PlaybackTarget::Episode(show, episode)),
                None => Err("missing episode object in playback item".to_string()),
            }
        }
    }

    /// The identifiers to look a movie up by.
    pub fn movie_ids(movie: &SimklMovie) -> (r: ExternalIds)
        ensures
            movie_lookup_ids(*movie, r),
    {
        ExternalIds {
            imdb: nonempty(&movie.ids.imdb),
            tmdb: number(&movie.ids.tmdb),
            tvdb: None,
            custom_stremio_id: None,
        }
    }

    /// Goes on after looking a movie up by `ids`.
    pub fn find_or_resolve_movie(ids: &ExternalIds, found: Option<u128>) -> (r: Located)
        ensures
            locates(MediaKind::Movie, *ids, found, r),
    {
        match found {
            Some(id) => Located::Here(id),
            None => match &ids.imdb {
                Some(imdb) => Located::Resolve(
                    MediaIdRaw {
                        kind: MediaKind::Movie,
                        external_ids: ExternalIds {
                            imdb: Some(imdb.clone()),
                            tmdb: ids.tmdb,
                            tvdb: None,
                            custom_stremio_id: Some(imdb.clone()),
                        },
                        season: None,
                        episode: None,
                    },
                ),
                None => Located::Nowhere,
            },
        }
    }

    /// The identifiers to look a series up by.
    pub fn series_ids(show: &SimklShow) -> (r: ExternalIds)
        ensures
            series_lookup_ids(*show, r),
    {
        ExternalIds {
            imdb: nonempty(&show.ids.imdb),
            tmdb: number(&show.ids.tmdb),
            tvdb: number(&show.ids.tvdb),
            custom_stremio_id: None,
        }
    }

    /// Goes on after looking the series of an episode up by `ids`.
    pub fn find_or_resolve_series(ids: &ExternalIds, found: Option<u128>) -> (r: Located)
        ensures
            locates(MediaKind::Series, *ids, found, r),
    {
        match found {
            Some(id) => Located::Here(id),
            None => match &ids.imdb {
                Some(imdb) => Located::Resolve(
                    MediaIdRaw {
                        kind: MediaKind::Series,
                        external_ids: ExternalIds {
                            imdb: Some(imdb.clone()),
                            tmdb: ids.tmdb,
                            tvdb: ids.tvdb,
                            custom_stremio_id: Some(imdb.clone()),
                        },
                        season: None,
                        episode: None,
                    },
                ),
                None => Located::Nowhere,
            },
        }
    }

    /// Which episode to look for once the series is known, if it is.
    pub fn find_or_resolve_episode(series_id: Option<u128>, episode: &SimklEpisode) -> (r: Option<
        EpisodeQuery,
    >)
        ensures
            r == match series_id {
                Some(id) => Some(
                    EpisodeQuery { series_id: id, season: episode.season, number: episode.number },
                ),
                None => None,
            },
    {
        match series_id {
            Some(id) => Some(
                EpisodeQuery { series_id: id, season: episode.season, number: episode.number },
            ),
            None => None,
        }
    }

    /// When a session was left.
    pub fn paused_at(item: &SimklPlaybackItem, now: Timestamp) -> (r: Timestamp)
        ensures
            r == session_time(*item, now),
    {
        match item.timestamp() {
            Some(text) => match parse_rfc3339(text) {
                Some((secs, nanos)) => Timestamp { secs, nanos },
                None => now,
            },
            None => now,
        }
    }

    /// The run time of a medium in ticks, or a typical one.
    pub fn session_run_time(media: &Media) -> (r: i64)
        ensures
            r == assumed_run_time(*media),
    {
        let known = match media.runtime {
            Some(secs) => to_ticks(secs, TickUnit::Seconds),
            None => None,
        };
        match known {
            Some(ticks) => ticks,
            None => match media.kind {
                MediaKind::Movie => 72_000_000_000,
                _ => 27_000_000_000,
            },
        }
    }

    /// Takes over a session left at `paused_at`, `target_ticks` into the
    /// medium; `None` where the local state is newer and stays.
    pub fn sync_single_playback_item(
        state: UserMediaState,
        paused_at: Timestamp,
        target_ticks: i64,
    ) -> (r: Option<UserMediaState>)
        ensures
            r == taken_over(state, paused_at, target_ticks),
    {
        if let Some(last_local) = state.last_played_at {
            if last_local.is_after(paused_at) {
                return None;
            }
        }
        Some(
            UserMediaState {
                playback_position: target_ticks,
                last_played_at: Some(paused_at),
                played_at: None,
            },
        )
    }
}

/// A newer local state is never overwritten, and taking over never moves the
/// time of the last playback back.
pub proof fn newer_local_state_stays(
    state: UserMediaState,
    paused_at: Timestamp,
    target_ticks: i64,
)
    ensures
        taken_over(state, paused_at, target_ticks) is None <==> local_is_newer(state, paused_at),
        taken_over(state, paused_at, target_ticks) matches Some(next) ==> !local_is_newer(
            state,
            next.last_played_at->0,
        ),
{
}

/// Taking over the same session twice is taking it over once.
pub proof fn taking_over_twice(state: UserMediaState, paused_at: Timestamp, target_ticks: i64)
    ensures
        taken_over(state, paused_at, target_ticks) matches Some(next) ==> taken_over(
            next,
            paused_at,
            target_ticks,
        ) == Some(next),
{
}

/// Two sessions of one medium leave the same state in either order, unless
/// they were left at the same time.
pub proof fn newest_session_wins(
    state: UserMediaState,
    first: Timestamp,
    first_ticks: i64,
    second: Timestamp,
    second_ticks: i64,
)
    requires
        second.later_than(first),
        !local_is_newer(state, first),
    ensures
        taken_over(
            taken_over(state, first, first_ticks)->0,
            second,
            second_ticks,
        ) == taken_over(state, second, second_ticks),
        taken_over(taken_over(state, second, second_ticks)->0, first, first_ticks) is None,
{
}

/// Within the cooldown after the sessions of a user were asked for, they are
/// not asked for again; afterwards they are, if the settings allow it.
pub proof fn cooldown_holds(
    last: Map<u128, Moment>,
    client_id: Seq<char>,
    user: UserConfigView,
    user_id: u128,
    now: Moment,
    later: Moment,
)
    requires
        sync_begins(last, client_id, user, user_id, now) is Fetch,
    ensures
        sync_begins(last.insert(user_id, now), client_id, user, user_id, later) == if within_secs(
            now,
            later,
            PLAYBACK_SYNC_COOLDOWN,
        ) {
            SyncStart::CoolingDown
        } else {
            SyncStart::Fetch
        },
{
}

/// Once the sessions came, each is taken over in turn, whatever became of the
/// others, and the synchronisation ends well.
pub proof fn failing_sessions_are_skipped(
    run: RunView,
    reply: Reply<Vec<SimklPlaybackItem>>,
    items: Seq<SimklPlaybackItem>,
    handled: Seq<SyncEvent>,
)
    requires
        fetched_sessions(reply) == Ok::<Seq<SimklPlaybackItem>, Seq<char>>(items),
        handled.len() == items.len(),
        forall|i: int| 0 <= i < handled.len() ==> (#[trigger] handled[i]) is Handled,
    ensures
        run_actions(run, seq![SyncEvent::Replied(reply)] + handled) == all_taken_over(items),
{
    let events = seq![SyncEvent::Replied(reply)] + handled;
    assert(events.drop_first() =~= handled);
    let fetched = RunView { rest: items, ..run };
    if items.len() > 0 {
        let next = run_advances(fetched).0;
        lemma_run_of_handled(next, handled);
        lemma_all_taken_over_first(items);
    } else {
        reveal_with_fuel(run_actions, 2);
        assert(run_actions(run, events) =~= all_taken_over(items));
    }
}

proof fn lemma_all_taken_over_first(items: Seq<SimklPlaybackItem>)
    requires
        items.len() > 0,
    ensures
        all_taken_over(items) == seq![SyncActionView::TakeOver(items[0])] + all_taken_over(
            items.drop_first(),
        ),
{
    assert(all_taken_over(items) =~= seq![SyncActionView::TakeOver(items[0])] + all_taken_over(
        items.drop_first(),
    ));
}

proof fn lemma_run_of_handled(run: RunView, handled: Seq<SyncEvent>)
    requires
        handled.len() == run.rest.len() + 1,
        forall|i: int| 0 <= i < handled.len() ==> (#[trigger] handled[i]) is Handled,
    ensures
        run_actions(run, handled) == all_taken_over(run.rest),
    decreases handled.len(),
{
    assert(handled[0] is Handled);
    if run.rest.len() > 0 {
        assert forall|i: int| 0 <= i < handled.drop_first().len() implies (
        #[trigger] handled.drop_first()[i]) is Handled by {
            assert(handled[i + 1] is Handled);
        }
        lemma_run_of_handled(run_advances(run).0, handled.drop_first());
        lemma_all_taken_over_first(run.rest);
    } else {
        reveal_with_fuel(run_actions, 2);
        assert(run_actions(run, handled) =~= all_taken_over(run.rest));
    }
}

/// One user's synchronisation does not delay another's.
pub proof fn cooldown_is_per_user(
    last: Map<u128, Moment>,
    user_id: u128,
    now: Moment,
    other: u128,
    later: Moment,
)
    requires
        other != user_id,
    ensures
        cooling_down(last.insert(user_id, now), other, later) == cooling_down(last, other, later),
{
}

/// What Simkl was told about a movie finds that movie again: the identifiers
/// come back as they were.
pub proof fn movie_ids_come_back(media: Media, movie: SimklMovie, ids: ExternalIds)
    requires
        describes_movie(movie, media),
        media.external_ids.imdb matches Some(imdb) ==> imdb@.len() > 0,
        movie_lookup_ids(movie, ids),
    ensures
        opt_text(ids.imdb) == opt_text(media.external_ids.imdb),
        ids.tmdb == media.external_ids.tmdb,
{
    if let Some(n) = media.external_ids.tmdb {
        decimal_reads_back(n);
    }
}

/// What Simkl was told about a series finds that series again: the
/// identifiers come back as they were.
pub proof fn series_ids_come_back(series: Media, show: SimklShow, ids: ExternalIds)
    requires
        describes_series(show, series),
        series.external_ids.imdb matches Some(imdb) ==> imdb@.len() > 0,
        series_lookup_ids(show, ids),
    ensures
        opt_text(ids.imdb) == opt_text(series.external_ids.imdb),
        ids.tmdb == series.external_ids.tmdb,
        ids.tvdb == series.external_ids.tvdb,
{
    if let Some(n) = series.external_ids.tmdb {
        decimal_reads_back(n);
    }
    if let Some(n) = series.external_ids.tvdb {
        decimal_reads_back(n);
    }
}

} // verus!
