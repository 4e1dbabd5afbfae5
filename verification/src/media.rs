//! Media of the local library, and what Simkl needs to recognise them.

use vstd::prelude::*;

use crate::json::opt_text;
use crate::progress::Progress;
use crate::simkl::{
    copy_text, ScrobblePayload, SimklEpisode, SimklIds, SimklMovie, SimklShow,
};
use crate::text::{i64_text, int_text};
use crate::time::{calendar_year, has_year, Timestamp};

verus! {

/// What a medium is.
#[derive(Clone, Copy, Debug, PartialEq, Eq, Structural)]
pub enum MediaKind {
    Movie,
    Series,
    Season,
    Episode,
    Other,
}

/// Identifiers of a medium with outside catalogues.
#[derive(Debug, Default, PartialEq)]
pub struct ExternalIds {
    pub imdb: Option<String>,
    pub tmdb: Option<i64>,
    pub tvdb: Option<i64>,
    pub custom_stremio_id: Option<String>,
}

/// A medium of the local library.
#[derive(Debug, PartialEq)]
pub struct Media {
    pub id: u128,
    pub kind: MediaKind,
    pub title: String,
    pub released_at: Option<Timestamp>,
    pub external_ids: ExternalIds,
    /// The number of an episode within its season.
    pub idx: Option<i64>,
    /// The number of the season that an episode belongs to.
    pub parent_idx: Option<i64>,
    pub grandparent_id: Option<u128>,
    /// The run time in seconds.
    pub runtime: Option<i64>,
}

/// A medium together with its description for Simkl.
#[derive(Debug, PartialEq)]
pub enum ResolvedMedia {
    Movie { media: Media, movie: SimklMovie },
    Episode { media: Media, show: SimklShow, episode: SimklEpisode },
}

/// The Simkl integration.
pub struct SimklService;

impl ResolvedMedia {
    /// The medium of the local library.
    pub open spec fn spec_media(self) -> Media {
        match self {
            ResolvedMedia::Movie { media, .. } => media,
            ResolvedMedia::Episode { media, .. } => media,
        }
    }

    /// What a scrobble of this medium at `progress` says.
    pub open spec fn payload(self, progress: Progress) -> ScrobblePayload {
        match self {
            ResolvedMedia::Movie { movie, .. } => ScrobblePayload {
                movie: Some(movie),
                show: None,
                episode: None,
                progress: Some(progress),
            },
            ResolvedMedia::Episode { show, episode, .. } => ScrobblePayload {
                movie: None,
                show: Some(show),
                episode: Some(episode),
                progress: Some(progress),
            },
        }
    }

    /// The medium of the local library.
    pub fn media(&self) -> (r: &Media)
        ensures
            *r == self.spec_media(),
    {
        match self {
            ResolvedMedia::Movie { media, .. } => media,
            ResolvedMedia::Episode { media, .. } => media,
        }
    }

    /// Describes a scrobble of this medium.
    pub fn to_payload(&self, progress: Progress) -> (r: ScrobblePayload)
        ensures
            r == self.payload(progress),
    {
        match self {
            ResolvedMedia::Movie { movie, .. } => ScrobblePayload {
                movie: Some(movie.clone()),
                show: None,
                episode: None,
                progress: Some(progress),
            },
            ResolvedMedia::Episode { show, episode, .. } => ScrobblePayload {
                movie: None,
                show: Some(show.clone()),
                episode: Some(episode.clone()),
                progress: Some(progress),
            },
        }
    }
}

/// Decimal notation of an optional number.
pub open spec fn opt_int_text(n: Option<i64>) -> Option<Seq<char>> {
    match n {
        Some(n) => Some(int_text(n as int)),
        None => None,
    }
}

fn number_text(n: Option<i64>) -> (r: Option<String>)
    ensures
        opt_text(r) == opt_int_text(n),
{
    match n {
        Some(n) => Some(i64_text(n)),
        None => None,
    }
}

/// `year` is the year of a release, where the date is known.
pub open spec fn release_year(released_at: Option<Timestamp>, year: Option<i32>) -> bool {
    match released_at {
        Some(at) => has_year(at, year),
        None => year is None,
    }
}

fn year_of_release(released_at: Option<Timestamp>) -> (r: Option<i32>)
    ensures
        release_year(released_at, r),
{
    match released_at {
        Some(at) => calendar_year(at),
        None => None,
    }
}

/// Simkl can recognise a movie by an IMDb or a TMDB identifier.
pub open spec fn movie_is_known(media: Media) -> bool {
    media.external_ids.imdb is Some || media.external_ids.tmdb is Some
}

/// Simkl can recognise a series by an IMDb, a TVDB or a TMDB identifier.
pub open spec fn series_is_known(series: Media) -> bool {
    series.external_ids.imdb is Some || series.external_ids.tvdb is Some
        || series.external_ids.tmdb is Some
}

/// `movie` describes the movie `media` for Simkl.
pub open spec fn describes_movie(movie: SimklMovie, media: Media) -> bool {
    &&& movie.title == Some(media.title)
    &&& release_year(media.released_at, movie.year)
    &&& movie.ids.simkl is None
    &&& movie.ids.imdb == media.external_ids.imdb
    &&& opt_text(movie.ids.tmdb) == opt_int_text(media.external_ids.tmdb)
    &&& movie.ids.tvdb is None
}

/// `show` describes the series `series` for Simkl.
pub open spec fn describes_series(show: SimklShow, series: Media) -> bool {
    &&& show.title == Some(series.title)
    &&& release_year(series.released_at, show.year)
    &&& show.ids.simkl is None
    &&& show.ids.imdb == series.external_ids.imdb
    &&& opt_text(show.ids.tmdb) == opt_int_text(series.external_ids.tmdb)
    &&& opt_text(show.ids.tvdb) == opt_int_text(series.external_ids.tvdb)
}

/// An episode whose series is still to be found.
#[derive(Debug, PartialEq)]
pub struct PendingEpisode {
    pub media: Media,
    pub season: i64,
    pub number: i64,
}

/// What describing a medium needs next.
#[derive(Debug, PartialEq)]
pub enum ResolveStep {
    /// Nothing more: the description, or nothing that Simkl could recognise.
    Done(Option<ResolvedMedia>),
    /// The ancestors of the episode.
    NeedAncestors(PendingEpisode),
    /// The medium with this identifier.
    NeedSeries(PendingEpisode, u128),
}

/// `step` is the first step towards describing `media`.
pub open spec fn resolve_begins(media: Option<Media>, step: ResolveStep) -> bool {
    match media {
        None => step == ResolveStep::Done(None),
        Some(m) => match m.kind {
            MediaKind::Movie => if movie_is_known(m) {
                &&& step matches ResolveStep::Done(Some(ResolvedMedia::Movie { media, movie }))
                &&& media == m
                &&& describes_movie(movie, m)
            } else {
                step == ResolveStep::Done(None)
            },
            MediaKind::Episode => match (m.idx, m.parent_idx) {
                (Some(number), Some(season)) => step == ResolveStep::NeedAncestors(
                    PendingEpisode { media: m, season, number },
                ),
                _ => step == ResolveStep::Done(None),
            },
            _ => step == ResolveStep::Done(None),
        },
    }
}

/// `step` concludes the description of an episode of `series`.
pub open spec fn resolve_ends(pending: PendingEpisode, series: Media, step: ResolveStep) -> bool {
    if series_is_known(series) {
        &&& step matches ResolveStep::Done(Some(ResolvedMedia::Episode { media, show, episode }))
        &&& media == pending.media
        &&& describes_series(show, series)
        &&& episode == (SimklEpisode {
            season: pending.season,
            number: pending.number,
            ids: None,
        })
    } else {
        step == ResolveStep::Done(None)
    }
}

/// The first series in a list.
pub open spec fn first_series(list: Seq<Media>) -> Option<Media>
    decreases list.len(),
{
    if list.len() == 0 {
        None
    } else if list[0].kind == MediaKind::Series {
        Some(list[0])
    } else {
        first_series(list.drop_first())
    }
}

fn find_series(list: &Vec<Media>) -> (r: Option<&Media>)
    ensures
        match r {
            Some(m) => first_series(list@) == Some(*m),
            None => first_series(list@) is None,
        },
{
    let mut i: usize = 0;
    proof {
        assert(list@.skip(0) =~= list@);
    }
    while i < list.len()
        invariant
            i <= list.len(),
            first_series(list@) == first_series(list@.skip(i as int)),
        decreases list.len() - i,
    {
        proof {
            assert(list@.skip(i as int).drop_first() =~= list@.skip(i + 1));
        }
        match list[i].kind {
            MediaKind::Series => {
                return Some(&list[i]);
            },
            _ => {},
        }
        i += 1;
    }
    None
}

impl SimklService {
    /// Begins to describe a medium for Simkl. Movies need an IMDb or a TMDB
    /// identifier; episodes need their season and number, and their series.
    pub fn resolve_media(media: Option<Media>) -> (r: ResolveStep)
        ensures
            resolve_begins(media, r),
    {
        let media = match media {
            Some(media) => media,
            None => {
                return ResolveStep::Done(None);
            },
        };
        match media.kind {
            MediaKind::Movie => {
                let imdb = copy_text(&media.external_ids.imdb);
                let tmdb = number_text(media.external_ids.tmdb);
                if imdb.is_none() && tmdb.is_none() {
                    return ResolveStep::Done(None);
                }
                let movie = SimklMovie {
                    title: Some(media.title.clone()),
                    year: year_of_release(media.released_at),
                    ids: SimklIds { simkl: None, imdb, tmdb, tvdb: None },
                };
                ResolveStep::Done(Some(ResolvedMedia::Movie { media, movie }))
            },
            MediaKind::Episode => {
                let number: i64 = match media.idx {
                    Some(number) => number,
                    None => {
                        return ResolveStep::Done(None);
                    },
                };
                let season: i64 = match media.parent_idx {
                    Some(season) => season,
                    None => {
                        return ResolveStep::Done(None);
                    },
                };
                ResolveStep::NeedAncestors(PendingEpisode { media, season, number })
            },
            _ => ResolveStep::Done(None),
        }
    }

    /// Goes on with the ancestors of the episode: its series is the first
    /// one among them or, failing that, its recorded grandparent.
    pub fn resolve_with_ancestors(pending: PendingEpisode, ancestors: Vec<Media>) -> (r:
        ResolveStep)
        ensures
            match first_series(ancestors@) {
                Some(series) => resolve_ends(pending, series, r),
                None => match pending.media.grandparent_id {
                    Some(id) => r == ResolveStep::NeedSeries(pending, id),
                    None => r == ResolveStep::Done(None),
                },
            },
    {
        match find_series(&ancestors) {
            Some(series) => Self::describe_episode(pending, series),
            None => match pending.media.grandparent_id {
                Some(id) => ResolveStep::NeedSeries(pending, id),
                None => ResolveStep::Done(None),
            },
        }
    }

    /// Concludes with the recorded grandparent, which counts only if it is a
    /// series.
    pub fn resolve_with_series(pending: PendingEpisode, found: Option<Media>) -> (r: ResolveStep)
        ensures
            match found {
                Some(m) => if m.kind == MediaKind::Series {
                    resolve_ends(pending, m, r)
                } else {
                    r == ResolveStep::Done(None)
                },
                None => r == ResolveStep::Done(None),
            },
    {
        match found {
            Some(m) => match m.kind {
                MediaKind::Series => Self::describe_episode(pending, &m),
                _ => ResolveStep::Done(None),
            },
            None => ResolveStep::Done(None),
        }
    }

    fn describe_episode(pending: PendingEpisode, series: &Media) -> (r: ResolveStep)
        ensures
            resolve_ends(pending, *series, r),
    {
        let imdb = copy_text(&series.external_ids.imdb);
        let tvdb = number_text(series.external_ids.tvdb);
        let tmdb = number_text(series.external_ids.tmdb);
        if imdb.is_none() && tvdb.is_none() && tmdb.is_none() {
            return ResolveStep::Done(None);
        }
        let show = SimklShow {
            title: Some(series.title.clone()),
            year: year_of_release(series.released_at),
            ids: SimklIds { simkl: None, imdb, tmdb, tvdb },
        };
        let episode = SimklEpisode { season: pending.season, number: pending.number, ids: None };
        ResolveStep::Done(Some(ResolvedMedia::Episode { media: pending.media, show, episode }))
    }
}

/// What Simkl can recognise: a movie by IMDb or TMDB, a show by IMDb, TVDB or
/// TMDB.
pub open spec fn is_identified(resolved: ResolvedMedia) -> bool {
    match resolved {
        ResolvedMedia::Movie { movie, .. } => movie.ids.imdb is Some || movie.ids.tmdb is Some,
        ResolvedMedia::Episode { show, .. } => show.ids.imdb is Some || show.ids.tvdb is Some
            || show.ids.tmdb is Some,
    }
}

/// A movie that is described carries an identifier, and is described from the
/// very medium that was asked for.
pub proof fn described_movie_is_identified(media: Media, step: ResolveStep)
    requires
        resolve_begins(Some(media), step),
    ensures
        step matches ResolveStep::Done(Some(resolved)) ==> is_identified(resolved)
            && resolved.spec_media() == media && media.kind == MediaKind::Movie,
{
}

/// An episode that is described carries an identifier of its series, and the
/// season and number of the episode that was asked for.
pub proof fn described_episode_is_identified(
    media: Media,
    pending: PendingEpisode,
    series: Media,
    step: ResolveStep,
)
    requires
        resolve_begins(Some(media), ResolveStep::NeedAncestors(pending)),
        resolve_ends(pending, series, step),
    ensures
        step matches ResolveStep::Done(Some(resolved)) ==> {
            &&& is_identified(resolved)
            &&& resolved.spec_media() == media
            &&& media.kind == MediaKind::Episode
            &&& resolved matches ResolvedMedia::Episode { episode, .. }
            &&& media.idx == Some(episode.number)
            &&& media.parent_idx == Some(episode.season)
        },
{
}

/// A scrobble names a movie or a show with an episode, never both, and always
/// its progress.
pub proof fn payload_is_one_of(resolved: ResolvedMedia, progress: Progress)
    ensures
        resolved.payload(progress).movie is Some <==> resolved.payload(progress).show is None,
        resolved.payload(progress).show is Some <==> resolved.payload(progress).episode is Some,
        resolved.payload(progress).progress == Some(progress),
{
}

} // verus!
