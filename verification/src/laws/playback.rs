//! Laws of taking over playback sessions.

use vstd::prelude::*;

use crate::http::{pairs, status_line, BodyView, Method, Reply, Request};
use crate::json::opt_text;
use crate::laws::scrobble::lemma_header;
use crate::media::{ExternalIds, Media, MediaKind, SimklService};
use crate::playback::{
    EpisodeQuery, Located, PlaybackRun, PlaybackSyncs, PlaybackTarget, SyncAction,
    SyncEvent, SyncStart, UserMediaState,
};
use crate::scrobble::SkipReason;
use crate::settings::SimklUserConfig;
use crate::simkl::{SimklEpisode, SimklMovie, SimklPlaybackItem, SimklShow};
use crate::text::{cleaned, decimal_reads_back, i64_value, int_text};
use crate::time::{rfc3339_utc, Moment, Timestamp};

verus! {

/// A run time that is known and whose ticks fit is used exactly, whatever the
/// medium; two hours and three quarters of an hour stand in only for one that
/// is not known or does not fit.
pub proof fn known_run_times_are_used_exactly(media: &Media, r: i64)
    requires
        call_ensures(SimklService::session_run_time, (media,), r),
    ensures
        media.runtime matches Some(secs) ==> i64::MIN <= secs * 10_000_000 <= i64::MAX ==> r == secs
            * 10_000_000,
        (media.runtime is None || !(i64::MIN <= media.runtime->0 * 10_000_000 <= i64::MAX)) ==> r
            == if media.kind == MediaKind::Movie {
            2 * 60 * 60 * 10_000_000
        } else {
            45 * 60 * 10_000_000
        },
{
}

/// Media of the same known run time are taken to run equally long, of
/// whatever kind they are.
pub proof fn equal_run_times_are_used_alike(one: &Media, two: &Media, secs: i64, a: i64, b: i64)
    requires
        call_ensures(SimklService::session_run_time, (one,), a),
        call_ensures(SimklService::session_run_time, (two,), b),
        one.runtime == Some(secs),
        two.runtime == Some(secs),
        i64::MIN <= secs * 10_000_000 <= i64::MAX,
    ensures
        a == b,
{
}

/// Nothing holds a synchronisation back exactly if there are a client
/// identifier, consent to scrobbling and to taking over, and a token; what is
/// named as missing is missing.
pub proof fn gate_opens_with_all_four(
    client_id: &str,
    user: &SimklUserConfig,
    r: Option<SkipReason>,
)
    requires
        call_ensures(SimklService::playback_gate, (client_id, user), r),
    ensures
        r is None <==> client_id@.len() > 0 && user.enabled && user.sync_continue_watching
            && user.user_token@.len() > 0,
        r == Some(SkipReason::NoClientId) <==> client_id@.len() == 0,
        r == Some(SkipReason::Disabled) <==> client_id@.len() > 0 && !user.enabled,
        r == Some(SkipReason::SyncDisabled) <==> client_id@.len() > 0 && user.enabled
            && !user.sync_continue_watching,
        r == Some(SkipReason::NoToken) <==> client_id@.len() > 0 && user.enabled
            && user.sync_continue_watching && user.user_token@.len() == 0,
{
}

/// Sessions are asked for exactly if the settings allow it and half a minute
/// has passed since they were last asked for; then, and only then, the time is
/// noted, for this user alone.
pub proof fn sessions_are_asked_for_every_half_minute(
    syncs: &mut PlaybackSyncs,
    client_id: &str,
    user: &SimklUserConfig,
    user_id: u128,
    now: Moment,
    r: SyncStart,
)
    requires
        call_ensures(PlaybackSyncs::sync_playback, (syncs, client_id, user, user_id, now), r),
    ensures
        ({
            let last = old(syncs)@;
            let allowed = client_id@.len() > 0 && user.enabled && user.sync_continue_watching
                && user.user_token@.len() > 0;
            let recent = last.contains_key(user_id) && now.nanos < last[user_id].nanos
                + 30_000_000_000;
            &&& r is Fetch <==> allowed && !recent
            &&& r is CoolingDown <==> allowed && recent
            &&& r is Skip <==> !allowed
            &&& r is Fetch ==> final(syncs)@ == last.insert(user_id, now)
            &&& !(r is Fetch) ==> final(syncs)@ == last
        }),
{
}

/// A request for the sessions of a user.
pub open spec fn asks_for_sessions(
    request: Request,
    client_id: Seq<char>,
    user_token: Seq<char>,
) -> bool {
    &&& request.method == Method::GET
    &&& request.url@ == "https://api.simkl.com"@ + "/sync/playback?hide_watched=true&client_id="@
        + cleaned(client_id) + "&app-name=remux&app-version=1.0"@
    &&& request.headers@.len() == 3
    &&& request.headers@[0].0@ == "simkl-api-key"@ && request.headers@[0].1@ == cleaned(client_id)
    &&& request.headers@[1].0@ == "Authorization"@ && request.headers@[1].1@ == "Bearer "@ + cleaned(
        user_token,
    )
    &&& request.headers@[2].0@ == "Accept"@ && request.headers@[2].1@ == "application/json"@
    &&& request.body is Empty
}

proof fn lemma_asks_for_sessions(request: Request, client_id: Seq<char>, user_token: Seq<char>)
    requires
        request@ == crate::playback::playback_request(client_id, user_token),
    ensures
        asks_for_sessions(request, client_id, user_token),
{
    assert(pairs(request.headers@).len() == 3);
    lemma_header(request.headers@, 0);
    lemma_header(request.headers@, 1);
    lemma_header(request.headers@, 2);
    assert(request@.body == BodyView::Empty);
}

/// Sessions are asked for with the cleaned credentials.
pub proof fn sessions_are_asked_for_with_credentials(
    client_id: &str,
    user_token: &str,
    r: Request,
)
    requires
        call_ensures(SimklService::get_playback, (client_id, user_token), r),
    ensures
        asks_for_sessions(r, client_id@, user_token@),
{
    lemma_asks_for_sessions(r, client_id@, user_token@);
}

/// The sessions of a reply of success that could be read are all handed on, in
/// order; each failure has its message.
pub proof fn sessions_are_handed_on(
    reply: Reply<Vec<SimklPlaybackItem>>,
    r: Result<Vec<SimklPlaybackItem>, String>,
)
    requires
        call_ensures(SimklService::playback_reply, (reply,), r),
    ensures
        reply is Unreachable ==> r is Err && r->Err_0@
            == "failed to send request to Simkl Playback API"@,
        reply matches Reply::Answered { status, parsed, body } ==> {
            let fine = 200 <= status.spec_code() < 300;
            &&& r is Ok <==> fine && parsed is Some
            &&& r is Ok ==> r->Ok_0@ == parsed->0@
            &&& fine && parsed is None ==> r->Err_0@ == "failed to parse Simkl playback items"@
            &&& !fine ==> r->Err_0@ == "Simkl GET /sync/playback returned HTTP "@ + status_line(
                status.spec_code(),
            ) + ": "@ + body@
        },
{
}

/// A synchronisation asks for a user who is there with the credentials that it
/// was begun with, and ends at once for one who is not.
pub proof fn synchronisation_begins_with_the_user(
    client_id: String,
    user_token: String,
    begun: PlaybackRun,
    run: &mut PlaybackRun,
    found: bool,
    r: SyncAction,
)
    requires
        call_ensures(PlaybackRun::new, (client_id, user_token), begun),
        *old(run) == begun,
        call_ensures(PlaybackRun::go_on, (run, SyncEvent::UserLookedUp(found)), r),
    ensures
        !found ==> r is Finish && r->Finish_0 is Ok,
        found ==> r is Ask && asks_for_sessions(r->Ask_0, client_id@, user_token@),
        final(run)@ == old(run)@,
{
    if found {
        lemma_asks_for_sessions(r->Ask_0, client_id@, user_token@);
    }
}

/// A synchronisation whose sessions could not be had ends with the reason; one
/// that got sessions begins with the first, and without any ends well.
pub proof fn synchronisation_goes_on_with_the_sessions(
    run: &mut PlaybackRun,
    reply: Reply<Vec<SimklPlaybackItem>>,
    fetched: Result<Vec<SimklPlaybackItem>, String>,
    r: SyncAction,
)
    requires
        call_ensures(PlaybackRun::go_on, (run, SyncEvent::Replied(reply)), r),
        call_ensures(SimklService::playback_reply, (reply,), fetched),
    ensures
        fetched matches Err(e) ==> r is Finish && r->Finish_0 is Err && r->Finish_0->Err_0@ == e@,
        fetched matches Ok(items) ==> {
            &&& items@.len() == 0 ==> r is Finish && r->Finish_0 is Ok
            &&& items@.len() > 0 ==> r is TakeOver && r->TakeOver_0 == items@[0] && final(run)@.rest == items@.drop_first()
        },
{
}

/// Whatever became of a session, the next one is taken over, until none is
/// left; then all is well.
pub proof fn outcome_of_a_session_does_not_matter(
    run: &mut PlaybackRun,
    outcome: Result<(), String>,
    r: SyncAction,
)
    requires
        call_ensures(PlaybackRun::go_on, (run, SyncEvent::Handled(outcome)), r),
    ensures
        old(run)@.rest.len() > 0 ==> r is TakeOver && r->TakeOver_0 == old(run)@.rest[0] && final(run)@.rest == old(run)@.rest.drop_first(),
        old(run)@.rest.len() == 0 ==> r is Finish && r->Finish_0 is Ok,
{
}

/// A session that says it is a movie, or has a movie and no episode, is about
/// its movie; any other is about its episode of its show or, without a show,
/// of its anime. What is missing is named.
pub proof fn sessions_are_about_what_they_hold(
    item: &SimklPlaybackItem,
    r: Result<PlaybackTarget, String>,
)
    requires
        call_ensures(SimklService::playback_target, (item,), r),
    ensures
        ({
            let says_movie = item.item_type is Some && item.item_type->0@ == "movie"@;
            let movie_alone = item.movie is Some && item.episode is None;
            let show = if item.show is Some {
                item.show
            } else {
                item.anime
            };
            &&& (says_movie || movie_alone) && item.movie is Some ==> r is Ok
                && r->Ok_0 is Movie && *r->Ok_0->Movie_0 == item.movie->0
            &&& says_movie && item.movie is None ==> r is Err && r->Err_0@
                == "missing movie object in playback item"@
            &&& !says_movie && !movie_alone ==> {
                &&& show is None ==> r is Err && r->Err_0@
                    == "missing show object in playback item"@
                &&& show is Some && item.episode is None ==> r is Err && r->Err_0@
                    == "missing episode object in playback item"@
                &&& show is Some && item.episode is Some ==> r is Ok
                    && r->Ok_0 is Episode && *r->Ok_0->Episode_0 == show->0
                    && *r->Ok_0->Episode_1 == item.episode->0
            }
        }),
{
}

/// `found` is the text where that is there and not empty.
pub open spec fn is_text_id(id: Option<String>, found: Option<String>) -> bool {
    &&& found is Some <==> id is Some && id->0@.len() > 0
    &&& found matches Some(t) ==> t@ == id->0@
}

/// Movies are looked up by the identifiers that came with them, as far as
/// those make sense.
pub proof fn movies_are_looked_up_by_their_ids(movie: &SimklMovie, n: i64, r: ExternalIds)
    requires
        call_ensures(SimklService::movie_ids, (movie,), r),
    ensures
        is_text_id(movie.ids.imdb, r.imdb),
        movie.ids.tmdb is None ==> r.tmdb is None,
        movie.ids.tmdb matches Some(t) ==> r.tmdb == i64_value(t@),
        opt_text(movie.ids.tmdb) == Some(int_text(n as int)) ==> r.tmdb == Some(n),
        r.tvdb is None,
        r.custom_stremio_id is None,
{
    decimal_reads_back(n);
}

/// Series are looked up by the identifiers that came with them, as far as
/// those make sense.
pub proof fn series_are_looked_up_by_their_ids(show: &SimklShow, n: i64, r: ExternalIds)
    requires
        call_ensures(SimklService::series_ids, (show,), r),
    ensures
        is_text_id(show.ids.imdb, r.imdb),
        show.ids.tmdb is None ==> r.tmdb is None,
        show.ids.tmdb matches Some(t) ==> r.tmdb == i64_value(t@),
        opt_text(show.ids.tmdb) == Some(int_text(n as int)) ==> r.tmdb == Some(n),
        show.ids.tvdb is None ==> r.tvdb is None,
        show.ids.tvdb matches Some(t) ==> r.tvdb == i64_value(t@),
        opt_text(show.ids.tvdb) == Some(int_text(n as int)) ==> r.tvdb == Some(n),
        r.custom_stremio_id is None,
{
    decimal_reads_back(n);
}

/// What is in the library is taken from there; what is not can be brought in
/// by its IMDb identifier, with the others that it has; without one it cannot
/// be had.
pub proof fn media_are_found_or_brought_in(
    ids: &ExternalIds,
    found: Option<u128>,
    movie: Located,
    series: Located,
)
    requires
        call_ensures(SimklService::find_or_resolve_movie, (ids, found), movie),
        call_ensures(SimklService::find_or_resolve_series, (ids, found), series),
    ensures
        found matches Some(id) ==> movie == Located::Here(id) && series == Located::Here(id),
        found is None && ids.imdb is None ==> movie is Nowhere && series is Nowhere,
        found is None && ids.imdb is Some ==> {
            &&& movie is Resolve && movie->Resolve_0.kind == MediaKind::Movie
            &&& movie->Resolve_0.external_ids == (ExternalIds {
                imdb: ids.imdb,
                tmdb: ids.tmdb,
                tvdb: None,
                custom_stremio_id: ids.imdb,
            })
            &&& movie->Resolve_0.season is None && movie->Resolve_0.episode is None
            &&& series is Resolve && series->Resolve_0.kind == MediaKind::Series
            &&& series->Resolve_0.external_ids == (ExternalIds {
                imdb: ids.imdb,
                tmdb: ids.tmdb,
                tvdb: ids.tvdb,
                custom_stremio_id: ids.imdb,
            })
            &&& series->Resolve_0.season is None && series->Resolve_0.episode is None
        },
{
}

/// An episode is looked for in its series, by its own season and number.
pub proof fn episodes_are_looked_for_in_their_series(
    series_id: Option<u128>,
    episode: &SimklEpisode,
    r: Option<EpisodeQuery>,
)
    requires
        call_ensures(SimklService::find_or_resolve_episode, (series_id, episode), r),
    ensures
        r is Some <==> series_id is Some,
        r matches Some(query) ==> {
            &&& Some(query.series_id) == series_id
            &&& query.season == episode.season
            &&& query.number == episode.number
        },
{
}

/// A session was left at the time that it gives, of its pause before that of
/// its watching; at one that cannot be read, or without one, it counts as left
/// now.
pub proof fn sessions_are_left_when_they_say(
    item: &SimklPlaybackItem,
    now: Timestamp,
    r: Timestamp,
)
    requires
        call_ensures(SimklService::paused_at, (item, now), r),
    ensures
        ({
            let said = if item.paused_at is Some {
                item.paused_at
            } else {
                item.watched_at
            };
            &&& said is None ==> r == now
            &&& said matches Some(text) ==> {
                &&& rfc3339_utc(text@) is None ==> r == now
                &&& rfc3339_utc(text@) matches Some(at) ==> r.secs == at.0 && r.nanos == at.1
            }
        }),
{
}

/// A session is taken over unless the local state is from later; then the
/// position and the time are those of the session, and the medium is no longer
/// marked as played.
pub proof fn sessions_are_taken_over_unless_older(
    state: UserMediaState,
    paused_at: Timestamp,
    target_ticks: i64,
    r: Option<UserMediaState>,
)
    requires
        call_ensures(
            SimklService::sync_single_playback_item,
            (state, paused_at, target_ticks),
            r,
        ),
    ensures
        ({
            let newer = state.last_played_at is Some && state.last_played_at->0.secs * 4_294_967_296
                + state.last_played_at->0.nanos > paused_at.secs * 4_294_967_296 + paused_at.nanos;
            &&& r is None <==> newer
            &&& r matches Some(next) ==> {
                &&& next.playback_position == target_ticks
                &&& next.last_played_at == Some(paused_at)
                &&& next.played_at is None
            }
        }),
{
}

} // verus!
