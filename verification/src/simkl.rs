//! What Simkl is sent and what it answers.

use vstd::prelude::*;
use vstd::string::*;

use crate::http::{pair, pairs, Body, Method};
use crate::progress::Progress;

verus! {

/// Credentials of an application and, where one is signed in, of a user.
#[derive(Clone, Debug)]
pub struct SimklAuth {
    pub client_id: String,
    pub user_token: Option<String>,
}

/// Identifiers of a title with Simkl and other catalogues.
#[derive(Debug, PartialEq)]
pub struct SimklIds {
    pub simkl: Option<i64>,
    pub imdb: Option<String>,
    pub tmdb: Option<String>,
    pub tvdb: Option<String>,
}

/// A movie, as Simkl knows it.
#[derive(Debug, Default, PartialEq)]
pub struct SimklMovie {
    pub title: Option<String>,
    pub year: Option<i32>,
    pub ids: SimklIds,
}

/// A show, as Simkl knows it.
#[derive(Debug, Default, PartialEq)]
pub struct SimklShow {
    pub title: Option<String>,
    pub year: Option<i32>,
    pub ids: SimklIds,
}

/// An episode of a show.
#[derive(Debug, Default, PartialEq)]
pub struct SimklEpisode {
    pub season: i64,
    pub number: i64,
    pub ids: Option<SimklIds>,
}

/// A playback session that was left in progress.
#[derive(Debug, Default, PartialEq)]
pub struct SimklPlaybackItem {
    pub id: Option<i64>,
    pub progress: Progress,
    pub paused_at: Option<String>,
    pub watched_at: Option<String>,
    pub item_type: Option<String>,
    pub movie: Option<SimklMovie>,
    pub show: Option<SimklShow>,
    pub anime: Option<SimklShow>,
    pub episode: Option<SimklEpisode>,
}

/// What a scrobble tells Simkl: a movie, or a show and an episode, and how
/// far it was watched.
#[derive(Debug, Default, PartialEq)]
pub struct ScrobblePayload {
    pub movie: Option<SimklMovie>,
    pub show: Option<SimklShow>,
    pub episode: Option<SimklEpisode>,
    pub progress: Option<Progress>,
}

/// The answer to a scrobble.
#[derive(Clone, Debug)]
pub struct ScrobbleResponse {
    pub result: Option<String>,
    pub action: Option<String>,
    pub message: Option<String>,
}

/// Reports that playback started.
#[derive(Clone, Debug)]
pub struct ScrobbleStartEndpoint {
    pub payload: ScrobblePayload,
}

/// Reports that playback paused.
#[derive(Clone, Debug)]
pub struct ScrobblePauseEndpoint {
    pub payload: ScrobblePayload,
}

/// Reports that playback stopped.
#[derive(Clone, Debug)]
pub struct ScrobbleStopEndpoint {
    pub payload: ScrobblePayload,
}

/// The settings of the signed-in user.
#[derive(Clone, Debug, Default)]
pub struct SimklUserSettings {
    pub user: Option<SimklUserProfile>,
    pub account: Option<SimklUserAccount>,
}

/// The public profile of a user.
#[derive(Clone, Debug, Default)]
pub struct SimklUserProfile {
    pub name: Option<String>,
    pub joined_at: Option<String>,
    pub avatar: Option<String>,
}

/// The account of a user.
#[derive(Clone, Debug, Default)]
pub struct SimklUserAccount {
    pub id: Option<i64>,
    pub timezone: Option<String>,
    pub kind: Option<String>,
}

/// Asks for the settings of the signed-in user.
#[derive(Clone, Debug, Default)]
pub struct UserSettingsEndpoint;

/// The answer to a request for a device login: the code to enter and where.
/// Only the OAuth 2.0 flow issues a device code.
#[derive(Debug, Default)]
pub struct SimklDeviceCodeResponse {
    pub device_code: Option<String>,
    pub user_code: String,
    pub verification_uri: String,
    pub verification_uri_complete: Option<String>,
    pub expires_in: u64,
    pub interval: u64,
}

/// An access token.
#[derive(Clone, Debug, Default)]
pub struct SimklTokenResponse {
    pub access_token: String,
    pub token_type: Option<String>,
    pub expires_in: Option<u64>,
    pub refresh_token: Option<String>,
    pub scope: Option<String>,
}

/// Why no access token is issued.
#[derive(Clone, Debug, Default)]
pub struct SimklTokenErrorResponse {
    pub error: String,
    pub error_description: Option<String>,
}

/// The state of a login by PIN.
#[derive(Clone, Debug, Default)]
pub struct SimklPinPollResponse {
    pub result: String,
    pub access_token: Option<String>,
    pub message: Option<String>,
}

/// Asks for the playback sessions that were left in progress.
#[derive(Clone, Debug, Default)]
pub struct GetPlaybackEndpoint {
    pub hide_watched: bool,
}

/// Copies an optional text.
pub(crate) fn copy_text(s: &Option<String>) -> (r: Option<String>)
    ensures
        r == *s,
{
    match s {
        Some(t) => Some(t.clone()),
        None => None,
    }
}

impl Default for SimklIds {
    fn default() -> (r: Self)
        ensures
            r == (SimklIds { simkl: None, imdb: None, tmdb: None, tvdb: None }),
    {
        SimklIds { simkl: None, imdb: None, tmdb: None, tvdb: None }
    }
}

impl Clone for SimklIds {
    fn clone(&self) -> (r: Self)
        ensures
            r == *self,
    {
        SimklIds {
            simkl: self.simkl,
            imdb: copy_text(&self.imdb),
            tmdb: copy_text(&self.tmdb),
            tvdb: copy_text(&self.tvdb),
        }
    }
}

impl Clone for SimklMovie {
    fn clone(&self) -> (r: Self)
        ensures
            r == *self,
    {
        SimklMovie { title: copy_text(&self.title), year: self.year, ids: self.ids.clone() }
    }
}

impl Clone for SimklShow {
    fn clone(&self) -> (r: Self)
        ensures
            r == *self,
    {
        SimklShow { title: copy_text(&self.title), year: self.year, ids: self.ids.clone() }
    }
}

impl Clone for SimklEpisode {
    fn clone(&self) -> (r: Self)
        ensures
            r == *self,
    {
        SimklEpisode {
            season: self.season,
            number: self.number,
            ids: match &self.ids {
                Some(ids) => Some(ids.clone()),
                None => None,
            },
        }
    }
}

impl Clone for ScrobblePayload {
    fn clone(&self) -> (r: Self)
        ensures
            r == *self,
    {
        ScrobblePayload {
            movie: match &self.movie {
                Some(movie) => Some(movie.clone()),
                None => None,
            },
            show: match &self.show {
                Some(show) => Some(show.clone()),
                None => None,
            },
            episode: match &self.episode {
                Some(episode) => Some(episode.clone()),
                None => None,
            },
            progress: self.progress,
        }
    }
}

impl SimklAuth {
    /// The headers of a request under these credentials.
    pub open spec fn headers(self) -> Seq<(Seq<char>, Seq<char>)> {
        let common = seq![
            ("simkl-api-key"@, self.client_id@),
            ("Content-Type"@, "application/json"@),
            ("Accept"@, "application/json"@),
        ];
        match self.user_token {
            Some(token) => common.push(("Authorization"@, "Bearer "@ + token@)),
            None => common,
        }
    }

    /// The headers that carry these credentials.
    pub fn apply(&self) -> (r: Vec<(String, String)>)
        ensures
            pairs(r@) == self.headers(),
    {
        let mut list = vec![
            pair("simkl-api-key", self.client_id.as_str()),
            pair("Content-Type", "application/json"),
            pair("Accept", "application/json"),
        ];
        if let Some(token) = &self.user_token {
            let bearer = bearer(token.as_str());
            list.push(pair("Authorization", bearer.as_str()));
        }
        assert(pairs(list@) =~= self.headers());
        list
    }
}

/// The value of an authorization header.
pub(crate) fn bearer(token: &str) -> (r: String)
    ensures
        r@ == "Bearer "@ + token@,
{
    let mut s = "Bearer ".to_string();
    s.append(token);
    s
}

impl SimklPlaybackItem {
    /// When the session was left: the time of the pause or, failing that, of
    /// watching.
    pub open spec fn spec_timestamp(self) -> Option<Seq<char>> {
        match self.paused_at {
            Some(at) => Some(at@),
            None => match self.watched_at {
                Some(at) => Some(at@),
                None => None,
            },
        }
    }

    /// When the session was left.
    pub fn timestamp(&self) -> (r: Option<&str>)
        ensures
            match r {
                Some(at) => self.spec_timestamp() == Some(at@),
                None => self.spec_timestamp() is None,
            },
    {
        match &self.paused_at {
            Some(at) => Some(at.as_str()),
            None => match &self.watched_at {
                Some(at) => Some(at.as_str()),
                None => None,
            },
        }
    }
}

impl ScrobbleStartEndpoint {
    /// The path below the API root.
    pub fn path(&self) -> (r: String)
        ensures
            r@ == "scrobble/start"@,
    {
        "scrobble/start".to_string()
    }

    /// The request method.
    pub fn method(&self) -> (r: Method)
        ensures
            r == Method::POST,
    {
        Method::POST
    }

    /// The request body.
    pub fn body(&self) -> (r: Body)
        ensures
            r == Body::Json(self.payload),
    {
        Body::Json(self.payload.clone())
    }
}

impl ScrobblePauseEndpoint {
    /// The path below the API root.
    pub fn path(&self) -> (r: String)
        ensures
            r@ == "scrobble/pause"@,
    {
        "scrobble/pause".to_string()
    }

    /// The request method.
    pub fn method(&self) -> (r: Method)
        ensures
            r == Method::POST,
    {
        Method::POST
    }

    /// The request body.
    pub fn body(&self) -> (r: Body)
        ensures
            r == Body::Json(self.payload),
    {
        Body::Json(self.payload.clone())
    }
}

impl ScrobbleStopEndpoint {
    /// The path below the API root.
    pub fn path(&self) -> (r: String)
        ensures
            r@ == "scrobble/stop"@,
    {
        "scrobble/stop".to_string()
    }

    /// The request method.
    pub fn method(&self) -> (r: Method)
        ensures
            r == Method::POST,
    {
        Method::POST
    }

    /// The request body.
    pub fn body(&self) -> (r: Body)
        ensures
            r == Body::Json(self.payload),
    {
        Body::Json(self.payload.clone())
    }
}

impl UserSettingsEndpoint {
    /// The path below the API root.
    pub fn path(&self) -> (r: String)
        ensures
            r@ == "users/settings"@,
    {
        "users/settings".to_string()
    }
}

impl GetPlaybackEndpoint {
    /// The path below the API root.
    pub fn path(&self) -> (r: String)
        ensures
            r@ == "sync/playback?hide_watched="@ + if self.hide_watched {
                "true"@
            } else {
                "false"@
            },
    {
        let mut path = "sync/playback?hide_watched=".to_string();
        path.append(if self.hide_watched { "true" } else { "false" });
        path
    }

    /// The request method.
    pub fn method(&self) -> (r: Method)
        ensures
            r == Method::GET,
    {
        Method::GET
    }
}

} // verus!
