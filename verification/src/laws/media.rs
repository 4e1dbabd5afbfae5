//! Laws of describing media for Simkl.

use vstd::prelude::*;

use crate::json::opt_text;
use crate::media::{
    first_series, Media, MediaKind, PendingEpisode, ResolveStep, ResolvedMedia, SimklService,
};
use crate::progress::Progress;
use crate::simkl::{ScrobblePayload, SimklMovie, SimklShow};
use crate::text::{decimal_reads_back, i64_value, int_text};
use crate::time::{year_is_unique, year_start, Timestamp};

verus! {

/// `year` is the year that a date lies in; there is none without a date, nor
/// outside the years that are known.
pub open spec fn is_year_of(date: Option<Timestamp>, year: Option<i32>) -> bool {
    match (date, year) {
        (None, _) => year is None,
        (Some(at), Some(y)) => year_start(y as int) <= at.secs < year_start(y + 1),
        (Some(at), None) => at.secs < year_start(-262143) || year_start(262143) <= at.secs,
    }
}

/// `text` is the decimal notation of `number`, and is there where that is.
pub open spec fn is_notation_of(number: Option<i64>, text: Option<String>) -> bool {
    match (number, text) {
        (None, _) => text is None,
        (Some(n), Some(t)) => t@ == int_text(n as int) && i64_value(t@) == Some(n),
        (Some(_), None) => false,
    }
}

/// `movie` says of a medium what Simkl needs.
pub open spec fn is_movie_of(movie: SimklMovie, media: Media) -> bool {
    &&& movie.title == Some(media.title)
    &&& is_year_of(media.released_at, movie.year)
    &&& movie.ids.imdb == media.external_ids.imdb
    &&& is_notation_of(media.external_ids.tmdb, movie.ids.tmdb)
    &&& movie.ids.tvdb is None
    &&& movie.ids.simkl is None
}

/// `show` says of a series what Simkl needs.
pub open spec fn is_show_of(show: SimklShow, series: Media) -> bool {
    &&& show.title == Some(series.title)
    &&& is_year_of(series.released_at, show.year)
    &&& show.ids.imdb == series.external_ids.imdb
    &&& is_notation_of(series.external_ids.tmdb, show.ids.tmdb)
    &&& is_notation_of(series.external_ids.tvdb, show.ids.tvdb)
    &&& show.ids.simkl is None
}

proof fn lemma_notation(number: Option<i64>)
    ensures
        number matches Some(n) ==> i64_value(int_text(n as int)) == Some(n),
{
    if let Some(n) = number {
        decimal_reads_back(n);
    }
}

/// A movie is described exactly if it has an IMDb or a TMDB identifier, and
/// then by its own title, year and identifiers.
pub proof fn movies_are_described_by_themselves(media: Media, step: ResolveStep)
    requires
        call_ensures(SimklService::resolve_media, (Some(media),), step),
        media.kind == MediaKind::Movie,
    ensures
        media.external_ids.imdb is None && media.external_ids.tmdb is None ==> step
            == ResolveStep::Done(None),
        media.external_ids.imdb is Some || media.external_ids.tmdb is Some ==> {
            &&& step is Done && step->Done_0 is Some
            &&& step->Done_0->0 matches ResolvedMedia::Movie { media: own, movie } && own == media
                && is_movie_of(movie, media)
        },
{
    lemma_notation(media.external_ids.tmdb);
}

/// Movies of the same title, date and identifiers are described alike.
pub proof fn like_movies_are_described_alike(
    one: Media,
    two: Media,
    of_one: SimklMovie,
    of_two: SimklMovie,
)
    requires
        call_ensures(
            SimklService::resolve_media,
            (Some(one),),
            ResolveStep::Done(Some(ResolvedMedia::Movie { media: one, movie: of_one })),
        ),
        call_ensures(
            SimklService::resolve_media,
            (Some(two),),
            ResolveStep::Done(Some(ResolvedMedia::Movie { media: two, movie: of_two })),
        ),
        one.title == two.title,
        one.released_at == two.released_at,
        one.external_ids == two.external_ids,
    ensures
        of_one.title == of_two.title,
        of_one.year == of_two.year,
        of_one.ids.imdb == of_two.ids.imdb,
        opt_text(of_one.ids.tmdb) == opt_text(of_two.ids.tmdb),
{
    lemma_same_year(one.released_at, of_one.year, of_two.year);
}

proof fn lemma_same_year(date: Option<Timestamp>, one: Option<i32>, two: Option<i32>)
    requires
        crate::media::release_year(date, one),
        crate::media::release_year(date, two),
    ensures
        one == two,
{
    if let Some(at) = date {
        if one is Some && two is Some {
            year_is_unique(at.secs, one->0 as int, two->0 as int);
        }
        if one is Some {
            crate::laws::numbers::lemma_year_in_range(at.secs, one);
        }
        if two is Some {
            crate::laws::numbers::lemma_year_in_range(at.secs, two);
        }
    }
}

/// An episode is looked into exactly if it has its season and its number, and
/// then with those.
pub proof fn episodes_are_looked_into(media: Media, step: ResolveStep)
    requires
        call_ensures(SimklService::resolve_media, (Some(media),), step),
        media.kind == MediaKind::Episode,
    ensures
        media.idx is None || media.parent_idx is None ==> step == ResolveStep::Done(None),
        media.idx is Some && media.parent_idx is Some ==> {
            &&& step is NeedAncestors
            &&& step->NeedAncestors_0.media == media
            &&& Some(step->NeedAncestors_0.season) == media.parent_idx
            &&& Some(step->NeedAncestors_0.number) == media.idx
        },
{
}

/// What is neither a movie nor an episode is not described, nor what is not
/// there.
pub proof fn nothing_else_is_described(media: Media, step: ResolveStep, of_nothing: ResolveStep)
    requires
        call_ensures(SimklService::resolve_media, (Some(media),), step),
        call_ensures(SimklService::resolve_media, (None,), of_nothing),
    ensures
        media.kind != MediaKind::Movie && media.kind != MediaKind::Episode ==> step
            == ResolveStep::Done(None),
        of_nothing == ResolveStep::Done(None),
{
}

/// `step` describes the episode by the series, if Simkl can recognise that.
pub open spec fn is_described_by(
    pending: PendingEpisode,
    series: Media,
    step: ResolveStep,
) -> bool {
    let known = series.external_ids.imdb is Some || series.external_ids.tvdb is Some
        || series.external_ids.tmdb is Some;
    &&& !known ==> step == ResolveStep::Done(None)
    &&& known ==> {
        &&& step is Done && step->Done_0 is Some
        &&& step->Done_0->0 matches ResolvedMedia::Episode { media, show, episode } && {
            &&& media == pending.media
            &&& is_show_of(show, series)
            &&& episode.season == pending.season
            &&& episode.number == pending.number
            &&& episode.ids is None
        }
    }
}

proof fn lemma_first_series(list: Seq<Media>, i: int)
    requires
        0 <= i < list.len(),
        list[i].kind == MediaKind::Series,
        forall|j: int| 0 <= j < i ==> (#[trigger] list[j]).kind != MediaKind::Series,
    ensures
        first_series(list) == Some(list[i]),
    decreases list.len(),
{
    if i > 0 {
        assert(list[0].kind != MediaKind::Series);
        let rest = list.drop_first();
        assert forall|j: int| 0 <= j < i - 1 implies (#[trigger] rest[j]).kind
            != MediaKind::Series by {
            assert(list[j + 1].kind != MediaKind::Series);
        }
        lemma_first_series(rest, i - 1);
    }
}

proof fn lemma_no_series(list: Seq<Media>)
    requires
        forall|j: int| 0 <= j < list.len() ==> (#[trigger] list[j]).kind != MediaKind::Series,
    ensures
        first_series(list) is None,
    decreases list.len(),
{
    if list.len() > 0 {
        assert(list[0].kind != MediaKind::Series);
        let rest = list.drop_first();
        assert forall|j: int| 0 <= j < rest.len() implies (#[trigger] rest[j]).kind
            != MediaKind::Series by {
            assert(list[j + 1].kind != MediaKind::Series);
        }
        lemma_no_series(rest);
    }
}

/// The series of an episode is the nearest one among its ancestors, and the
/// episode is described by that.
pub proof fn nearest_series_describes(
    pending: PendingEpisode,
    ancestors: Vec<Media>,
    i: int,
    step: ResolveStep,
)
    requires
        call_ensures(SimklService::resolve_with_ancestors, (pending, ancestors), step),
        0 <= i < ancestors@.len(),
        ancestors@[i].kind == MediaKind::Series,
        forall|j: int| 0 <= j < i ==> (#[trigger] ancestors@[j]).kind != MediaKind::Series,
    ensures
        is_described_by(pending, ancestors@[i], step),
{
    lemma_first_series(ancestors@, i);
    lemma_notation(ancestors@[i].external_ids.tmdb);
    lemma_notation(ancestors@[i].external_ids.tvdb);
}

/// Without a series among the ancestors the recorded grandparent is looked
/// for, if there is one.
pub proof fn grandparent_is_looked_for(
    pending: PendingEpisode,
    ancestors: Vec<Media>,
    step: ResolveStep,
)
    requires
        call_ensures(SimklService::resolve_with_ancestors, (pending, ancestors), step),
        forall|j: int|
            0 <= j < ancestors@.len() ==> (#[trigger] ancestors@[j]).kind != MediaKind::Series,
    ensures
        pending.media.grandparent_id is None ==> step == ResolveStep::Done(None),
        pending.media.grandparent_id matches Some(id) ==> step == ResolveStep::NeedSeries(
            pending,
            id,
        ),
{
    lemma_no_series(ancestors@);
}

/// A grandparent that is a series describes the episode; anything else does
/// not.
pub proof fn grandparent_describes(
    pending: PendingEpisode,
    found: Media,
    step: ResolveStep,
    without: ResolveStep,
)
    requires
        call_ensures(SimklService::resolve_with_series, (pending, Some(found)), step),
        call_ensures(SimklService::resolve_with_series, (pending, None), without),
    ensures
        found.kind == MediaKind::Series ==> is_described_by(pending, found, step),
        found.kind != MediaKind::Series ==> step == ResolveStep::Done(None),
        without == ResolveStep::Done(None),
{
    lemma_notation(found.external_ids.tmdb);
    lemma_notation(found.external_ids.tvdb);
}

/// Two episodes of one series are described by the same show, however the
/// series was found.
pub proof fn episodes_of_a_series_share_its_show(
    one: PendingEpisode,
    two: PendingEpisode,
    ancestors: Vec<Media>,
    i: int,
    of_one: ResolveStep,
    of_two: ResolveStep,
)
    requires
        call_ensures(SimklService::resolve_with_ancestors, (one, ancestors), of_one),
        call_ensures(SimklService::resolve_with_series, (two, Some(ancestors@[i])), of_two),
        0 <= i < ancestors@.len(),
        ancestors@[i].kind == MediaKind::Series,
        forall|j: int| 0 <= j < i ==> (#[trigger] ancestors@[j]).kind != MediaKind::Series,
    ensures
        of_one->Done_0 is Some <==> of_two->Done_0 is Some,
        of_one->Done_0 matches Some(ResolvedMedia::Episode { show: a, .. }) ==> (
        of_two->Done_0 matches Some(ResolvedMedia::Episode { show: b, .. }) && {
            &&& a.title == b.title
            &&& a.year == b.year
            &&& a.ids.imdb == b.ids.imdb
            &&& opt_text(a.ids.tmdb) == opt_text(b.ids.tmdb)
            &&& opt_text(a.ids.tvdb) == opt_text(b.ids.tvdb)
        }),
{
    lemma_first_series(ancestors@, i);
    if of_one->Done_0 is Some {
        let series = ancestors@[i];
        if let Some(ResolvedMedia::Episode { show: a, .. }) = of_one->Done_0 {
            if let Some(ResolvedMedia::Episode { show: b, .. }) = of_two->Done_0 {
                lemma_same_year(series.released_at, a.year, b.year);
            }
        }
    }
}

/// A description keeps the medium it was made for, and a scrobble says exactly
/// what is described, and how far it was watched.
pub proof fn scrobbles_say_what_is_described(
    resolved: &ResolvedMedia,
    progress: Progress,
    media: &Media,
    payload: ScrobblePayload,
)
    requires
        call_ensures(ResolvedMedia::media, (resolved,), media),
        call_ensures(ResolvedMedia::to_payload, (resolved, progress), payload),
    ensures
        payload.progress == Some(progress),
        resolved matches ResolvedMedia::Movie { media: own, movie } ==> {
            &&& media == own
            &&& payload.movie == Some(*movie)
            &&& payload.show is None && payload.episode is None
        },
        resolved matches ResolvedMedia::Episode { media: own, show, episode } ==> {
            &&& media == own
            &&& payload.movie is None
            &&& payload.show == Some(*show) && payload.episode == Some(*episode)
        },
{
}

} // verus!
