//! Reporting playback to Simkl.

use vstd::prelude::*;
use vstd::string::*;

use crate::http::{pair, status_line, Body, BodyView, Method, Reply, Request, RequestView};
use crate::media::{Media, ResolvedMedia, SimklService};
use crate::progress::Progress;
use crate::settings::{
    layered, opt_config, user_settings, Settings, SimklConfig, SimklUserConfig, UserConfigView,
};
use crate::simkl::{bearer, ScrobblePayload, SimklUserSettings};
use crate::text::{clean_credential, cleaned};
use crate::time::TICKS_PER_SECOND;

verus! {

/// The root of the Simkl API.
pub const SIMKL_API_BASE: &'static str = "https://api.simkl.com";

/// How this application introduces itself in a query.
pub const APP_QUERY: &'static str = "&app-name=remux&app-version=1.0";

/// Why nothing is exchanged with Simkl.
#[derive(Clone, Copy, Debug, PartialEq, Eq, Structural)]
pub enum SkipReason {
    NoClientId,
    Disabled,
    SyncDisabled,
    NoToken,
}

/// Why nothing is scrobbled for a user, if nothing is: no client identifier,
/// scrobbling switched off, or no access token.
pub open spec fn scrobble_skip(client_id: Seq<char>, user: UserConfigView) -> Option<SkipReason> {
    if client_id.len() == 0 {
        Some(SkipReason::NoClientId)
    } else if !user.enabled {
        Some(SkipReason::Disabled)
    } else if user.user_token.len() == 0 {
        Some(SkipReason::NoToken)
    } else {
        None
    }
}

/// The run time in ticks: as reported by the player, else as recorded with
/// the medium in seconds, else zero.
pub open spec fn run_time_in_ticks(media: Media, reported: Option<i64>) -> int {
    match reported {
        Some(ticks) => ticks as int,
        None => match media.runtime {
            Some(secs) => secs * TICKS_PER_SECOND,
            None => 0,
        },
    }
}

/// The run time in ticks can be represented.
pub open spec fn run_time_fits(media: Media, reported: Option<i64>) -> bool {
    i64::MIN <= run_time_in_ticks(media, reported) <= i64::MAX
}

/// A position that was not reported counts as the start.
pub open spec fn position_in_ticks(reported: Option<i64>) -> i64 {
    match reported {
        Some(ticks) => ticks,
        None => 0,
    }
}

/// The progress at a position: zero where there is no position or no run
/// time, else the given ratio in percent, bounded to the range 0 to 100.
pub open spec fn progress_at(position: int, run_time: int, scaled: Progress) -> Progress {
    if run_time <= 0 || position <= 0 {
        Progress::zero()
    } else {
        scaled.bounded()
    }
}

/// The progress to report when playback stops: a medium that was played, or
/// watched up to the threshold, counts as watched at least that far.
pub open spec fn progress_at_stop(progress: Progress, threshold: Progress, played: bool) -> Progress {
    if played || progress.at_least(threshold) {
        progress.larger(threshold)
    } else {
        progress
    }
}

/// The address that an action is reported to.
pub open spec fn scrobble_url(action: Seq<char>, client_id: Seq<char>) -> Seq<char> {
    SIMKL_API_BASE@ + "/scrobble/"@ + action + "?client_id="@ + client_id + APP_QUERY@
}

/// The request that reports an action. Credentials are cleaned first.
pub open spec fn scrobble_request(
    action: Seq<char>,
    payload: ScrobblePayload,
    client_id: Seq<char>,
    user_token: Seq<char>,
) -> RequestView {
    RequestView {
        method: Method::POST,
        url: scrobble_url(action, cleaned(client_id)),
        headers: seq![
            ("simkl-api-key"@, cleaned(client_id)),
            ("Authorization"@, "Bearer "@ + cleaned(user_token)),
            ("Content-Type"@, "application/json"@),
            ("Accept"@, "application/json"@),
        ],
        body: BodyView::Json(payload),
    }
}

/// The request that tests the credentials of a user. They are cleaned first.
pub open spec fn connection_test(client_id: Seq<char>, user_token: Seq<char>) -> RequestView {
    RequestView {
        method: Method::GET,
        url: SIMKL_API_BASE@ + "/users/settings?client_id="@ + cleaned(client_id) + APP_QUERY@,
        headers: seq![
            ("simkl-api-key"@, cleaned(client_id)),
            ("Authorization"@, "Bearer "@ + cleaned(user_token)),
            ("Content-Type"@, "application/json"@),
            ("Accept"@, "application/json"@),
        ],
        body: BodyView::Empty,
    }
}

/// The request that `r` is, if it is one.
pub open spec fn opt_request(r: Option<Request>) -> Option<RequestView> {
    match r {
        Some(request) => Some(request@),
        None => None,
    }
}

/// What an event of playback is reported as, if it is reported at all.
pub open spec fn reported(
    action: Seq<char>,
    client_id: Seq<char>,
    user: UserConfigView,
    resolved: Option<ResolvedMedia>,
    progress: spec_fn(Media) -> Progress,
) -> Option<RequestView> {
    match resolved {
        Some(m) => if scrobble_skip(client_id, user) is None {
            Some(
                scrobble_request(
                    action,
                    m.payload(progress(m.spec_media())),
                    client_id,
                    user.user_token,
                ),
            )
        } else {
            None
        },
        None => None,
    }
}

/// The message of an outcome.
pub open spec fn failure<T>(r: Result<T, String>) -> Option<Seq<char>> {
    match r {
        Ok(_) => None,
        Err(e) => Some(e@),
    }
}

/// What a connection test reports about a reply.
pub open spec fn connection_report(reply: Reply<SimklUserSettings>) -> Result<Seq<char>, Seq<char>> {
    match reply {
        Reply::Unreachable => Err("Failed to reach Simkl API"@),
        Reply::Answered { status, parsed, body } => if status.spec_success() {
            match parsed {
                Some(settings) => Ok("Connected successfully as "@ + account_name(settings)),
                None => Err("Failed to parse Simkl user settings"@),
            }
        } else if status.spec_code() == 401 {
            Err("Unauthorized: Invalid Simkl access token"@)
        } else {
            Err("Simkl API returned HTTP "@ + status_line(status.spec_code()) + ": "@ + body@)
        },
    }
}

/// The name that an account goes by.
pub open spec fn account_name(settings: SimklUserSettings) -> Seq<char> {
    match settings.user {
        Some(user) => match user.name {
            Some(name) => name@,
            None => "User"@,
        },
        None => "User"@,
    }
}

/// The content of an outcome.
pub open spec fn outcome(r: Result<String, String>) -> Result<Seq<char>, Seq<char>> {
    match r {
        Ok(s) => Ok(s@),
        Err(e) => Err(e@),
    }
}

impl SimklService {
    /// The progress in percent at a position. `scaled` is the ratio of the
    /// position to the run time, times a hundred.
    pub fn calculate_progress(position_ticks: i64, run_time_ticks: i64, scaled: Progress) -> (r:
        Progress)
        ensures
            r == progress_at(position_ticks as int, run_time_ticks as int, scaled),
    {
        if run_time_ticks <= 0 || position_ticks <= 0 {
            return Progress { bits: 0 };
        }
        scaled.clamp_percent()
    }

    /// The position and the run time that progress is calculated from.
    pub fn playback_ticks(
        media: &Media,
        position_ticks: Option<i64>,
        run_time_ticks: Option<i64>,
    ) -> (r: (i64, i64))
        requires
            run_time_fits(*media, run_time_ticks),
        ensures
            r.0 == position_in_ticks(position_ticks),
            r.1 == run_time_in_ticks(*media, run_time_ticks),
    {
        let run_time: i64 = match run_time_ticks {
            Some(ticks) => ticks,
            None => match media.runtime {
                Some(secs) => secs * TICKS_PER_SECOND,
                None => 0,
            },
        };
        (position_ticks.unwrap_or(0), run_time)
    }

    /// The client identifier of the server and the settings of a user.
    pub fn get_credentials(
        base_config: &SimklConfig,
        stored: Option<SimklConfig>,
        user_id: u128,
    ) -> (r: (String, SimklUserConfig))
        ensures
            r.0@ == layered(base_config@, opt_config(stored)).client_id,
            r.1@ == user_settings(layered(base_config@, opt_config(stored)), user_id),
    {
        let again = match &stored {
            Some(cfg) => Some(cfg.clone()),
            None => None,
        };
        let simkl_cfg = Settings::get_simkl_config(base_config, again);
        let user_cfg = Settings::get_user_simkl_config(base_config, stored, user_id);
        (simkl_cfg.client_id, user_cfg)
    }

    /// Why nothing is scrobbled for a user, if nothing is.
    pub fn scrobble_gate(client_id: &str, user_cfg: &SimklUserConfig) -> (r: Option<SkipReason>)
        ensures
            r == scrobble_skip(client_id@, user_cfg@),
    {
        if client_id.is_empty() {
            Some(SkipReason::NoClientId)
        } else if !user_cfg.enabled {
            Some(SkipReason::Disabled)
        } else if user_cfg.user_token.as_str().is_empty() {
            Some(SkipReason::NoToken)
        } else {
            None
        }
    }

    /// The completion threshold in percent; it is never below one.
    pub fn completion_threshold(cfg: &SimklConfig) -> (r: u32)
        ensures
            r == if cfg.completion_threshold >= 1 {
                cfg.completion_threshold
            } else {
                1
            },
    {
        if cfg.completion_threshold >= 1 {
            cfg.completion_threshold
        } else {
            1
        }
    }

    /// Reports that playback of a medium started.
    pub fn handle_start(
        client_id: &str,
        user_cfg: &SimklUserConfig,
        resolved: Option<&ResolvedMedia>,
        position_ticks: Option<i64>,
        run_time_ticks: Option<i64>,
        scaled: Progress,
    ) -> (r: Option<Request>)
        requires
            scrobble_skip(client_id@, user_cfg@) is None ==> (resolved matches Some(m)
                ==> run_time_fits(m.spec_media(), run_time_ticks)),
        ensures
            opt_request(r) == reported(
                "start"@,
                client_id@,
                user_cfg@,
                match resolved {
                    Some(m) => Some(*m),
                    None => None,
                },
                |media: Media|
                    progress_at(
                        position_in_ticks(position_ticks) as int,
                        run_time_in_ticks(media, run_time_ticks),
                        scaled,
                    ),
            ),
    {
        if Self::scrobble_gate(client_id, user_cfg).is_some() {
            return None;
        }
        let resolved = match resolved {
            Some(resolved) => resolved,
            None => {
                return None;
            },
        };
        let (pos, runtime): (i64, i64) = Self::playback_ticks(
            resolved.media(),
            position_ticks,
            run_time_ticks,
        );
        let progress = Self::calculate_progress(pos, runtime, scaled);
        let payload = resolved.to_payload(progress);
        Some(
            Self::send_scrobble_request(
                "start",
                payload,
                client_id,
                user_cfg.user_token.as_str(),
            ),
        )
    }

    /// Reports that playback of a medium paused.
    pub fn handle_pause(
        client_id: &str,
        user_cfg: &SimklUserConfig,
        resolved: Option<&ResolvedMedia>,
        position_ticks: Option<i64>,
        run_time_ticks: Option<i64>,
        scaled: Progress,
    ) -> (r: Option<Request>)
        requires
            scrobble_skip(client_id@, user_cfg@) is None ==> (resolved matches Some(m)
                ==> run_time_fits(m.spec_media(), run_time_ticks)),
        ensures
            opt_request(r) == reported(
                "pause"@,
                client_id@,
                user_cfg@,
                match resolved {
                    Some(m) => Some(*m),
                    None => None,
                },
                |media: Media|
                    progress_at(
                        position_in_ticks(position_ticks) as int,
                        run_time_in_ticks(media, run_time_ticks),
                        scaled,
                    ),
            ),
    {
        if Self::scrobble_gate(client_id, user_cfg).is_some() {
            return None;
        }
        let resolved = match resolved {
            Some(resolved) => resolved,
            None => {
                return None;
            },
        };
        let (pos, runtime): (i64, i64) = Self::playback_ticks(
            resolved.media(),
            position_ticks,
            run_time_ticks,
        );
        let progress = Self::calculate_progress(pos, runtime, scaled);
        let payload = resolved.to_payload(progress);
        Some(
            Self::send_scrobble_request(
                "pause",
                payload,
                client_id,
                user_cfg.user_token.as_str(),
            ),
        )
    }

    /// Reports that playback of a medium stopped. `threshold` is the
    /// completion threshold in percent.
    pub fn handle_stop(
        client_id: &str,
        user_cfg: &SimklUserConfig,
        resolved: Option<&ResolvedMedia>,
        position_ticks: Option<i64>,
        run_time_ticks: Option<i64>,
        scaled: Progress,
        threshold: Progress,
        played: bool,
    ) -> (r: Option<Request>)
        requires
            scrobble_skip(client_id@, user_cfg@) is None ==> (resolved matches Some(m)
                ==> run_time_fits(m.spec_media(), run_time_ticks)),
        ensures
            opt_request(r) == reported(
                "stop"@,
                client_id@,
                user_cfg@,
                match resolved {
                    Some(m) => Some(*m),
                    None => None,
                },
                |media: Media|
                    progress_at_stop(
                        progress_at(
                            position_in_ticks(position_ticks) as int,
                            run_time_in_ticks(media, run_time_ticks),
                            scaled,
                        ),
                        threshold,
                        played,
                    ),
            ),
    {
        if Self::scrobble_gate(client_id, user_cfg).is_some() {
            return None;
        }
        let resolved = match resolved {
            Some(resolved) => resolved,
            None => {
                return None;
            },
        };
        let (pos, runtime): (i64, i64) = Self::playback_ticks(
            resolved.media(),
            position_ticks,
            run_time_ticks,
        );
        let mut progress = Self::calculate_progress(pos, runtime, scaled);
        if played || progress.reaches(threshold) {
            progress = progress.max(threshold);
        }
        let payload = resolved.to_payload(progress);
        Some(
            Self::send_scrobble_request(
                "stop",
                payload,
                client_id,
                user_cfg.user_token.as_str(),
            ),
        )
    }

    /// The request that reports an action.
    pub fn send_scrobble_request(
        action: &str,
        payload: ScrobblePayload,
        client_id: &str,
        user_token: &str,
    ) -> (r: Request)
        ensures
            r@ == scrobble_request(action@, payload, client_id@, user_token@),
    {
        let client_id = clean_credential(client_id);
        let user_token = clean_credential(user_token);
        let mut url = SIMKL_API_BASE.to_string();
        url.append("/scrobble/");
        url.append(action);
        url.append("?client_id=");
        url.append(client_id);
        url.append(APP_QUERY);
        let headers = vec![
            pair("simkl-api-key", client_id),
            pair("Authorization", bearer(user_token).as_str()),
            pair("Content-Type", "application/json"),
            pair("Accept", "application/json"),
        ];
        let request = Request { method: Method::POST, url, headers, body: Body::Json(payload) };
        assert(request@.headers =~= seq![
            ("simkl-api-key"@, client_id@),
            ("Authorization"@, "Bearer "@ + user_token@),
            ("Content-Type"@, "application/json"@),
            ("Accept"@, "application/json"@),
        ]);
        request
    }

    /// What the reply to a report means. A conflict means that the same was
    /// reported a moment ago, and counts as success.
    pub fn scrobble_reply(action: &str, reply: Reply<()>) -> (r: Result<(), String>)
        ensures
            failure(r) == match reply {
                Reply::Unreachable => Some("failed to send request to Simkl API"@),
                Reply::Answered { status, parsed, body } => if status.spec_success()
                    || status.spec_code() == 409 {
                    None
                } else {
                    Some(
                        "Simkl scrobble "@ + action@ + " returned HTTP "@ + status_line(
                            status.spec_code(),
                        ) + ": "@ + body@,
                    )
                },
            },
    {
        match reply {
            Reply::Unreachable => Err("failed to send request to Simkl API".to_string()),
            Reply::Answered { status, body, .. } => {
                if status.is_success() || status.as_u16() == 409 {
                    Ok(())
                } else {
                    let mut message = "Simkl scrobble ".to_string();
                    message.append(action);
                    message.append(" returned HTTP ");
                    message.append(status.line().as_str());
                    message.append(": ");
                    message.append(body.as_str());
                    Err(message)
                }
            },
        }
    }

    /// The request that tests the credentials of a user.
    pub fn test_connection(client_id: &str, user_token: &str) -> (r: Request)
        ensures
            r@ == connection_test(client_id@, user_token@),
    {
        let client_id = clean_credential(client_id);
        let user_token = clean_credential(user_token);
        let mut url = SIMKL_API_BASE.to_string();
        url.append("/users/settings?client_id=");
        url.append(client_id);
        url.append(APP_QUERY);
        let headers = vec![
            pair("simkl-api-key", client_id),
            pair("Authorization", bearer(user_token).as_str()),
            pair("Content-Type", "application/json"),
            pair("Accept", "application/json"),
        ];
        let request = Request { method: Method::GET, url, headers, body: Body::Empty };
        assert(request@.headers =~= seq![
            ("simkl-api-key"@, client_id@),
            ("Authorization"@, "Bearer "@ + user_token@),
            ("Content-Type"@, "application/json"@),
            ("Accept"@, "application/json"@),
        ]);
        request
    }

    /// What the reply to a connection test means for the user.
    pub fn connection_reply(reply: Reply<SimklUserSettings>) -> (r: Result<String, String>)
        ensures
            outcome(r) == connection_report(reply),
    {
        match reply {
            Reply::Unreachable => Err("Failed to reach Simkl API".to_string()),
            Reply::Answered { status, parsed, body } => {
                if status.is_success() {
                    match parsed {
                        Some(settings) => {
                            let mut message = "Connected successfully as ".to_string();
                            let name = match settings.user {
                                Some(user) => match user.name {
                                    Some(name) => name,
                                    None => "User".to_string(),
                                },
                                None => "User".to_string(),
                            };
                            message.append(name.as_str());
                            Ok(message)
                        },
                        None => Err("Failed to parse Simkl user settings".to_string()),
                    }
                } else if status.as_u16() == 401 {
                    Err("Unauthorized: Invalid Simkl access token".to_string())
                } else {
                    let mut message = "Simkl API returned HTTP ".to_string();
                    message.append(status.line().as_str());
                    message.append(": ");
                    message.append(body.as_str());
                    Err(message)
                }
            },
        }
    }
}

/// A calculated progress lies between 0 and 100, whatever the ratio, as long
/// as that is a number where it counts; from a ratio of 100 on it is 100.
pub proof fn progress_is_percentage(position: int, run_time: int, scaled: Progress)
    requires
        position > 0 && run_time > 0 ==> !scaled.is_nan(),
    ensures
        progress_at(position, run_time, scaled).is_percentage(),
        position > 0 && run_time > 0 && scaled.at_least(Progress::hundred()) ==> progress_at(
            position,
            run_time,
            scaled,
        ) == Progress::hundred(),
{
}

/// Progress never falls as the position rises: a later position, whose ratio
/// is no smaller, has no smaller progress.
pub proof fn progress_rises(
    earlier: int,
    later: int,
    run_time: int,
    earlier_scaled: Progress,
    later_scaled: Progress,
)
    requires
        earlier <= later,
        later > 0 && run_time > 0 ==> !later_scaled.is_nan(),
        earlier > 0 && run_time > 0 ==> later_scaled.at_least(earlier_scaled),
    ensures
        progress_at(later, run_time, later_scaled).at_least(
            progress_at(earlier, run_time, earlier_scaled),
        ),
        progress_at(earlier, run_time, earlier_scaled).rank() <= progress_at(
            later,
            run_time,
            later_scaled,
        ).rank(),
{
}

/// What was played is reported at the threshold or beyond; what was not
/// played keeps its progress unless that is already there.
pub proof fn played_reaches_threshold(progress: Progress, threshold: Progress, played: bool)
    requires
        !progress.is_nan(),
        !threshold.is_nan(),
    ensures
        played ==> progress_at_stop(progress, threshold, played).at_least(threshold),
        progress_at_stop(progress, threshold, played).at_least(progress),
        !played ==> progress_at_stop(progress, threshold, played) == progress,
{
}

/// Nothing is ever sent without a client identifier, for a user who has
/// scrobbling switched off, or without an access token.
pub proof fn nothing_sent_without_consent(
    action: Seq<char>,
    client_id: Seq<char>,
    user: UserConfigView,
    resolved: Option<ResolvedMedia>,
    progress: spec_fn(Media) -> Progress,
)
    ensures
        reported(action, client_id, user, resolved, progress) is Some ==> client_id.len() > 0
            && user.enabled && user.user_token.len() > 0 && resolved is Some,
{
}

} // verus!
