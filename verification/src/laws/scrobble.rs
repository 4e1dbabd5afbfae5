//! Laws of scrobbling, and of what travels to Simkl.

use vstd::prelude::*;

use crate::http::{pairs, status_line, Body, BodyView, Method, Reply, Request};
use crate::laws::numbers::is_bound_of;
use crate::media::{Media, ResolvedMedia, SimklService};
use crate::progress::Progress;
use crate::scrobble::SkipReason;
use crate::settings::{SimklConfig, SimklUserConfig};
use crate::simkl::{
    GetPlaybackEndpoint, ScrobblePauseEndpoint, ScrobblePayload, ScrobbleStartEndpoint,
    ScrobbleStopEndpoint, SimklAuth, SimklPlaybackItem, SimklUserSettings, UserSettingsEndpoint,
};
use crate::text::cleaned;

verus! {

/// Progress is the ratio, bounded; before the start, and where there is no run
/// time, it is nothing.
pub proof fn progress_is_the_bounded_ratio(
    position: i64,
    run_time: i64,
    scaled: Progress,
    r: Progress,
)
    requires
        call_ensures(SimklService::calculate_progress, (position, run_time, scaled), r),
    ensures
        position > 0 && run_time > 0 ==> is_bound_of(scaled, r),
        position <= 0 || run_time <= 0 ==> r.bits == 0,
{
}

/// The player's report of position and run time counts; failing that, the
/// position is the start and the run time that of the medium, at ten million
/// ticks to the second, or none.
pub proof fn ticks_are_the_players_or_the_mediums(
    media: &Media,
    position: Option<i64>,
    run_time: Option<i64>,
    r: (i64, i64),
)
    requires
        call_ensures(SimklService::playback_ticks, (media, position, run_time), r),
        run_time is None ==> (media.runtime matches Some(secs) ==> i64::MIN <= secs * 10_000_000
            <= i64::MAX),
    ensures
        position matches Some(p) ==> r.0 == p,
        position is None ==> r.0 == 0,
        run_time matches Some(t) ==> r.1 == t,
        run_time is None ==> (media.runtime matches Some(secs) ==> r.1 == secs * 10_000_000),
        run_time is None && media.runtime is None ==> r.1 == 0,
{
}

/// Nothing holds scrobbling back exactly if there are a client identifier,
/// consent and a token; what is named as missing is missing.
pub proof fn gate_opens_with_all_three(
    client_id: &str,
    user: &SimklUserConfig,
    r: Option<SkipReason>,
)
    requires
        call_ensures(SimklService::scrobble_gate, (client_id, user), r),
    ensures
        r is None <==> client_id@.len() > 0 && user.enabled && user.user_token@.len() > 0,
        r == Some(SkipReason::NoClientId) <==> client_id@.len() == 0,
        r == Some(SkipReason::Disabled) <==> client_id@.len() > 0 && !user.enabled,
        r == Some(SkipReason::NoToken) <==> client_id@.len() > 0 && user.enabled
            && user.user_token@.len() == 0,
{
}

/// The threshold is the configured one, and one percent where none is.
pub proof fn threshold_is_never_none(cfg: &SimklConfig, r: u32)
    requires
        call_ensures(SimklService::completion_threshold, (cfg,), r),
    ensures
        cfg.completion_threshold > 0 ==> r == cfg.completion_threshold,
        cfg.completion_threshold == 0 ==> r == 1,
{
}

/// `request` reports `payload` under `action`, with the cleaned credentials.
pub open spec fn reports(
    request: Request,
    action: Seq<char>,
    payload: ScrobblePayload,
    client_id: Seq<char>,
    user_token: Seq<char>,
) -> bool {
    &&& request.method == Method::POST
    &&& request.url@ == "https://api.simkl.com"@ + "/scrobble/"@ + action + "?client_id="@
        + cleaned(client_id) + "&app-name=remux&app-version=1.0"@
    &&& request.headers@.len() == 4
    &&& request.headers@[0].0@ == "simkl-api-key"@ && request.headers@[0].1@ == cleaned(client_id)
    &&& request.headers@[1].0@ == "Authorization"@ && request.headers@[1].1@ == "Bearer "@ + cleaned(
        user_token,
    )
    &&& request.headers@[2].0@ == "Content-Type"@ && request.headers@[2].1@ == "application/json"@
    &&& request.headers@[3].0@ == "Accept"@ && request.headers@[3].1@ == "application/json"@
    &&& request.body matches Body::Json(sent) && sent == payload
}

pub(crate) proof fn lemma_header(list: Seq<(String, String)>, i: int)
    requires
        0 <= i < list.len(),
    ensures
        pairs(list)[i] == (list[i].0@, list[i].1@),
        pairs(list).len() == list.len(),
{
}

proof fn lemma_reports(
    request: Request,
    action: Seq<char>,
    payload: ScrobblePayload,
    client_id: Seq<char>,
    user_token: Seq<char>,
)
    requires
        request@ == crate::scrobble::scrobble_request(action, payload, client_id, user_token),
    ensures
        reports(request, action, payload, client_id, user_token),
{
    assert(pairs(request.headers@).len() == 4);
    assert(request.headers@.len() == 4);
    lemma_header(request.headers@, 0);
    lemma_header(request.headers@, 1);
    lemma_header(request.headers@, 2);
    lemma_header(request.headers@, 3);
    assert(request@.headers[0] == ("simkl-api-key"@, cleaned(client_id)));
    assert(request@.headers[1] == ("Authorization"@, "Bearer "@ + cleaned(user_token)));
    assert(request@.headers[2] == ("Content-Type"@, "application/json"@));
    assert(request@.headers[3] == ("Accept"@, "application/json"@));
    assert(request@.body == BodyView::Json(payload));
}

/// A report carries the action, the payload and the credentials it was given.
pub proof fn reports_carry_what_they_are_given(
    action: &str,
    payload: ScrobblePayload,
    client_id: &str,
    user_token: &str,
    r: Request,
)
    requires
        call_ensures(
            SimklService::send_scrobble_request,
            (action, payload, client_id, user_token),
            r,
        ),
    ensures
        reports(r, action@, payload, client_id@, user_token@),
{
    lemma_reports(r, action@, payload, client_id@, user_token@);
}

/// The run time of a described medium, in seconds.
pub open spec fn recorded_run_time(resolved: ResolvedMedia) -> Option<i64> {
    match resolved {
        ResolvedMedia::Movie { media, .. } => media.runtime,
        ResolvedMedia::Episode { media, .. } => media.runtime,
    }
}

/// The run time that counts can be given in ticks.
pub open spec fn has_ticks(resolved: ResolvedMedia, run_time: Option<i64>) -> bool {
    run_time is None ==> (recorded_run_time(resolved) matches Some(secs) ==> i64::MIN <= secs
        * 10_000_000 <= i64::MAX)
}

/// `payload` names what is described and carries `progress`, which is nothing
/// before the start and where there is no run time, and else the ratio,
/// bounded.
pub open spec fn is_payload_at(
    resolved: ResolvedMedia,
    position: Option<i64>,
    run_time: Option<i64>,
    scaled: Progress,
    progress: Progress,
    payload: ScrobblePayload,
) -> bool {
    let from_medium = recorded_run_time(resolved);
    let at: int = match position {
        Some(p) => p as int,
        None => 0,
    };
    let of: int = match (run_time, from_medium) {
        (Some(t), _) => t as int,
        (None, Some(secs)) => secs * 10_000_000,
        (None, None) => 0,
    };
    &&& at <= 0 || of <= 0 ==> progress.bits == 0
    &&& at > 0 && of > 0 ==> is_bound_of(scaled, progress)
    &&& payload.progress == Some(progress)
    &&& resolved matches ResolvedMedia::Movie { movie, .. } ==> payload.movie == Some(movie)
        && payload.show is None && payload.episode is None
    &&& resolved matches ResolvedMedia::Episode { show, episode, .. } ==> payload.movie is None
        && payload.show == Some(show) && payload.episode == Some(episode)
}

/// A start and a pause are reported exactly if nothing holds scrobbling back
/// and the medium is recognised, and both carry the medium and the progress at
/// the position: at the same position they send the same.
pub proof fn start_and_pause_carry_the_progress(
    client_id: &str,
    user: &SimklUserConfig,
    resolved: &ResolvedMedia,
    position: Option<i64>,
    run_time: Option<i64>,
    scaled: Progress,
    started: Option<Request>,
    paused: Option<Request>,
) -> (payload: ScrobblePayload)
    requires
        has_ticks(*resolved, run_time),
        call_ensures(
            SimklService::handle_start,
            (client_id, user, Some(resolved), position, run_time, scaled),
            started,
        ),
        call_ensures(
            SimklService::handle_pause,
            (client_id, user, Some(resolved), position, run_time, scaled),
            paused,
        ),
    ensures
        started is Some <==> client_id@.len() > 0 && user.enabled && user.user_token@.len() > 0,
        paused is Some <==> client_id@.len() > 0 && user.enabled && user.user_token@.len() > 0,
        payload.progress is Some,
        is_payload_at(*resolved, position, run_time, scaled, payload.progress->0, payload),
        started matches Some(request) ==> reports(
            request,
            "start"@,
            payload,
            client_id@,
            user.user_token@,
        ),
        paused matches Some(request) ==> reports(
            request,
            "pause"@,
            payload,
            client_id@,
            user.user_token@,
        ),
{
    let at = crate::scrobble::position_in_ticks(position) as int;
    let of = crate::scrobble::run_time_in_ticks(resolved.spec_media(), run_time);
    let progress = crate::scrobble::progress_at(at, of, scaled);
    let payload = resolved.payload(progress);
    if let Some(request) = started {
        lemma_reports(request, "start"@, payload, client_id@, user.user_token@);
    }
    if let Some(request) = paused {
        lemma_reports(request, "pause"@, payload, client_id@, user.user_token@);
    }
    payload
}

/// A stop carries the same payload as a start at that position would, except
/// for its progress: what was played, or watched up to the threshold, is
/// reported at the larger of the two; all else stays.
pub proof fn stop_carries_the_progress_or_the_threshold(
    client_id: &str,
    user: &SimklUserConfig,
    resolved: &ResolvedMedia,
    position: Option<i64>,
    run_time: Option<i64>,
    scaled: Progress,
    threshold: Progress,
    played: bool,
    reached: bool,
    larger: Progress,
    progress: Progress,
    started: ScrobblePayload,
    stopped: Option<Request>,
) -> (payload: ScrobblePayload)
    requires
        has_ticks(*resolved, run_time),
        call_ensures(
            SimklService::handle_stop,
            (client_id, user, Some(resolved), position, run_time, scaled, threshold, played),
            stopped,
        ),
        call_ensures(Progress::reaches, (progress, threshold), reached),
        call_ensures(Progress::max, (progress, threshold), larger),
        is_payload_at(*resolved, position, run_time, scaled, progress, started),
    ensures
        stopped is Some <==> client_id@.len() > 0 && user.enabled && user.user_token@.len() > 0,
        payload.progress == Some(
            if played || reached {
                larger
            } else {
                progress
            },
        ),
        payload.movie == started.movie,
        payload.show == started.show,
        payload.episode == started.episode,
        stopped matches Some(request) ==> reports(
            request,
            "stop"@,
            payload,
            client_id@,
            user.user_token@,
        ),
{
    let payload = resolved.payload(
        crate::scrobble::progress_at_stop(progress, threshold, played),
    );
    if let Some(request) = stopped {
        lemma_reports(request, "stop"@, payload, client_id@, user.user_token@);
    }
    payload
}

/// What Simkl cannot recognise is never reported.
pub proof fn unrecognised_media_are_not_reported(
    client_id: &str,
    user: &SimklUserConfig,
    position: Option<i64>,
    run_time: Option<i64>,
    scaled: Progress,
    threshold: Progress,
    played: bool,
    started: Option<Request>,
    paused: Option<Request>,
    stopped: Option<Request>,
)
    requires
        call_ensures(
            SimklService::handle_start,
            (client_id, user, None, position, run_time, scaled),
            started,
        ),
        call_ensures(
            SimklService::handle_pause,
            (client_id, user, None, position, run_time, scaled),
            paused,
        ),
        call_ensures(
            SimklService::handle_stop,
            (client_id, user, None, position, run_time, scaled, threshold, played),
            stopped,
        ),
    ensures
        started is None,
        paused is None,
        stopped is None,
{
}

/// A report succeeds exactly on a status of success or of conflict; any other
/// failure tells the action, the status and the body.
pub proof fn reports_succeed_or_conflict(action: &str, reply: Reply<()>, r: Result<(), String>)
    requires
        call_ensures(SimklService::scrobble_reply, (action, reply), r),
    ensures
        reply is Unreachable ==> r is Err && r->Err_0@ == "failed to send request to Simkl API"@,
        reply matches Reply::Answered { status, parsed, body } ==> {
            &&& r is Ok <==> 200 <= status.spec_code() < 300 || status.spec_code() == 409
            &&& r is Err ==> r->Err_0@ == "Simkl scrobble "@ + action@ + " returned HTTP "@
                + status_line(status.spec_code()) + ": "@ + body@
        },
{
}

/// A connection test asks for the settings of the user, with the cleaned
/// credentials.
pub proof fn connection_test_asks_for_settings(client_id: &str, user_token: &str, r: Request)
    requires
        call_ensures(SimklService::test_connection, (client_id, user_token), r),
    ensures
        r.method == Method::GET,
        r.url@ == "https://api.simkl.com"@ + "/users/settings?client_id="@ + cleaned(client_id@)
            + "&app-name=remux&app-version=1.0"@,
        r.headers@.len() == 4,
        r.headers@[0].0@ == "simkl-api-key"@ && r.headers@[0].1@ == cleaned(client_id@),
        r.headers@[1].0@ == "Authorization"@ && r.headers@[1].1@ == "Bearer "@ + cleaned(
            user_token@,
        ),
        r.headers@[2].0@ == "Content-Type"@ && r.headers@[2].1@ == "application/json"@,
        r.headers@[3].0@ == "Accept"@ && r.headers@[3].1@ == "application/json"@,
        r.body is Empty,
{
    assert(pairs(r.headers@).len() == r.headers@.len());
    assert(r@.headers.len() == 4);
    lemma_header(r.headers@, 0);
    lemma_header(r.headers@, 1);
    lemma_header(r.headers@, 2);
    lemma_header(r.headers@, 3);
    assert(r@.body == BodyView::Empty);
}

/// A connection test succeeds exactly on settings that could be read, and
/// names the user; each failure has its message.
pub proof fn connection_test_names_the_user(
    reply: Reply<SimklUserSettings>,
    r: Result<String, String>,
)
    requires
        call_ensures(SimklService::connection_reply, (reply,), r),
    ensures
        reply is Unreachable ==> r is Err && r->Err_0@ == "Failed to reach Simkl API"@,
        reply matches Reply::Answered { status, parsed, body } ==> {
            let fine = 200 <= status.spec_code() < 300;
            &&& r is Ok <==> fine && parsed is Some
            &&& r is Ok ==> (parsed matches Some(settings) ==> {
                &&& (settings.user is Some && settings.user->0.name is Some) ==> r->Ok_0@
                    == "Connected successfully as "@ + settings.user->0.name->0@
                &&& (settings.user is None || settings.user->0.name is None) ==> r->Ok_0@
                    == "Connected successfully as "@ + "User"@
            })
            &&& fine && parsed is None ==> r->Err_0@ == "Failed to parse Simkl user settings"@
            &&& status.spec_code() == 401 ==> r->Err_0@
                == "Unauthorized: Invalid Simkl access token"@
            &&& !fine && status.spec_code() != 401 ==> r->Err_0@ == "Simkl API returned HTTP "@
                + status_line(status.spec_code()) + ": "@ + body@
        },
{
}

/// Credentials travel in headers: the client always, the user where one is
/// signed in.
pub proof fn credentials_travel_in_headers(auth: &SimklAuth, r: Vec<(String, String)>)
    requires
        call_ensures(SimklAuth::apply, (auth,), r),
    ensures
        r@.len() == if auth.user_token is Some {
            4nat
        } else {
            3
        },
        r@[0].0@ == "simkl-api-key"@ && r@[0].1@ == auth.client_id@,
        r@[1].0@ == "Content-Type"@ && r@[1].1@ == "application/json"@,
        r@[2].0@ == "Accept"@ && r@[2].1@ == "application/json"@,
        auth.user_token matches Some(token) ==> r@[3].0@ == "Authorization"@ && r@[3].1@
            == "Bearer "@ + token@,
{
    assert(pairs(r@).len() == r@.len());
    lemma_header(r@, 0);
    lemma_header(r@, 1);
    lemma_header(r@, 2);
    if auth.user_token is Some {
        lemma_header(r@, 3);
    }
}

/// Each endpoint has its path and method, and carries the payload it was made
/// with.
pub proof fn endpoints_carry_their_payload(
    payload: ScrobblePayload,
    start: Body,
    pause: Body,
    stop: Body,
    start_path: String,
    pause_path: String,
    stop_path: String,
)
    requires
        call_ensures(ScrobbleStartEndpoint::body, (&ScrobbleStartEndpoint { payload },), start),
        call_ensures(ScrobblePauseEndpoint::body, (&ScrobblePauseEndpoint { payload },), pause),
        call_ensures(ScrobbleStopEndpoint::body, (&ScrobbleStopEndpoint { payload },), stop),
        call_ensures(
            ScrobbleStartEndpoint::path,
            (&ScrobbleStartEndpoint { payload },),
            start_path,
        ),
        call_ensures(
            ScrobblePauseEndpoint::path,
            (&ScrobblePauseEndpoint { payload },),
            pause_path,
        ),
        call_ensures(ScrobbleStopEndpoint::path, (&ScrobbleStopEndpoint { payload },), stop_path),
    ensures
        start == Body::Json(payload) && pause == Body::Json(payload) && stop == Body::Json(payload),
        start_path@ == "scrobble/start"@,
        pause_path@ == "scrobble/pause"@,
        stop_path@ == "scrobble/stop"@,
{
}

/// The other endpoints have their paths too.
pub proof fn queries_have_their_paths(
    endpoint: &GetPlaybackEndpoint,
    playback: String,
    settings: String,
)
    requires
        call_ensures(GetPlaybackEndpoint::path, (endpoint,), playback),
        call_ensures(UserSettingsEndpoint::path, (&UserSettingsEndpoint,), settings),
    ensures
        endpoint.hide_watched ==> playback@ == "sync/playback?hide_watched="@ + "true"@,
        !endpoint.hide_watched ==> playback@ == "sync/playback?hide_watched="@ + "false"@,
        settings@ == "users/settings"@,
{
}

/// A session was left when it was paused or, failing that, when it was
/// watched.
pub proof fn sessions_are_dated_by_their_pause(item: &SimklPlaybackItem, r: Option<&str>)
    requires
        call_ensures(SimklPlaybackItem::timestamp, (item,), r),
    ensures
        item.paused_at matches Some(at) ==> r is Some && r->0@ == at@,
        item.paused_at is None ==> (item.watched_at matches Some(at) ==> r is Some && r->0@ == at@),
        item.paused_at is None && item.watched_at is None ==> r is None,
{
}

/// Scrobbles are posted, and sessions are got.
pub proof fn scrobbles_are_posted(
    start: &ScrobbleStartEndpoint,
    pause: &ScrobblePauseEndpoint,
    stop: &ScrobbleStopEndpoint,
    playback: &GetPlaybackEndpoint,
    of_start: Method,
    of_pause: Method,
    of_stop: Method,
    of_playback: Method,
)
    requires
        call_ensures(ScrobbleStartEndpoint::method, (start,), of_start),
        call_ensures(ScrobblePauseEndpoint::method, (pause,), of_pause),
        call_ensures(ScrobbleStopEndpoint::method, (stop,), of_stop),
        call_ensures(GetPlaybackEndpoint::method, (playback,), of_playback),
    ensures
        of_start is POST && of_pause is POST && of_stop is POST,
        of_playback is GET,
{
}

} // verus!
