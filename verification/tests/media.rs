use remux_sync::media::{
    ExternalIds, Media, MediaKind, PendingEpisode, ResolveStep, ResolvedMedia, SimklService,
};
use remux_sync::progress::Progress;
use remux_sync::time::Timestamp;

fn medium(kind: MediaKind) -> Media {
    Media {
        id: 1,
        kind,
        title: "Heat".to_string(),
        released_at: Some(Timestamp { secs: 819_072_000, nanos: 0 }), // 1995-12-16
        external_ids: ExternalIds::default(),
        idx: None,
        parent_idx: None,
        grandparent_id: None,
        runtime: None,
    }
}

fn episode() -> Media {
    Media { idx: Some(5), parent_idx: Some(2), grandparent_id: Some(9), ..medium(MediaKind::Episode) }
}

fn series() -> Media {
    Media {
        id: 9,
        title: "Show".to_string(),
        external_ids: ExternalIds {
            tvdb: Some(305288),
            ..ExternalIds::default()
        },
        ..medium(MediaKind::Series)
    }
}

fn pending(media: Media) -> PendingEpisode {
    match SimklService::resolve_media(Some(media)) {
        ResolveStep::NeedAncestors(pending) => pending,
        other => panic!("unexpected step: {:?}", other),
    }
}

#[test]
fn movie_needs_imdb_or_tmdb() {
    let mut movie = medium(MediaKind::Movie);
    movie.external_ids.tvdb = Some(4);
    assert_eq!(SimklService::resolve_media(Some(movie)), ResolveStep::Done(None));

    let mut movie = medium(MediaKind::Movie);
    movie.external_ids.tmdb = Some(949);
    match SimklService::resolve_media(Some(movie)) {
        ResolveStep::Done(Some(resolved)) => {
            assert_eq!(resolved.media().title, "Heat");
            let payload = resolved.to_payload(Progress { bits: 50.0f64.to_bits() });
            let movie = payload.movie.unwrap();
            assert_eq!(movie.title.as_deref(), Some("Heat"));
            assert_eq!(movie.year, Some(1995));
            assert_eq!(movie.ids.imdb, None);
            assert_eq!(movie.ids.tmdb.as_deref(), Some("949"));
            assert_eq!(movie.ids.tvdb, None);
            assert_eq!(movie.ids.simkl, None);
            assert_eq!(payload.show, None);
            assert_eq!(payload.episode, None);
            assert_eq!(f64::from_bits(payload.progress.unwrap().bits), 50.0);
        }
        other => panic!("unexpected step: {:?}", other),
    }

    let mut movie = medium(MediaKind::Movie);
    movie.released_at = None;
    movie.external_ids.imdb = Some("tt0113277".to_string());
    match SimklService::resolve_media(Some(movie)) {
        ResolveStep::Done(Some(ResolvedMedia::Movie { movie, .. })) => {
            assert_eq!(movie.year, None);
            assert_eq!(movie.ids.imdb.as_deref(), Some("tt0113277"));
        }
        other => panic!("unexpected step: {:?}", other),
    }
}

#[test]
fn other_media_are_not_described() {
    assert_eq!(SimklService::resolve_media(None), ResolveStep::Done(None));
    for kind in [MediaKind::Series, MediaKind::Season, MediaKind::Other] {
        let mut media = medium(kind);
        media.external_ids.imdb = Some("tt1".to_string());
        assert_eq!(SimklService::resolve_media(Some(media)), ResolveStep::Done(None));
    }
}

#[test]
fn episode_needs_its_number() {
    let media = Media { idx: None, ..episode() };
    assert_eq!(SimklService::resolve_media(Some(media)), ResolveStep::Done(None));
}

#[test]
fn episode_needs_its_season() {
    let media = Media { parent_idx: None, ..episode() };
    assert_eq!(SimklService::resolve_media(Some(media)), ResolveStep::Done(None));
    let pending = pending(episode());
    assert_eq!((pending.season, pending.number), (2, 5));
}

#[test]
fn episode_is_described_by_its_series() {
    let season = medium(MediaKind::Season);
    let step = SimklService::resolve_with_ancestors(pending(episode()), vec![season, series()]);
    match step {
        ResolveStep::Done(Some(resolved)) => {
            let payload = resolved.to_payload(Progress { bits: 0 });
            let show = payload.show.unwrap();
            assert_eq!(show.title.as_deref(), Some("Show"));
            assert_eq!(show.ids.tvdb.as_deref(), Some("305288"));
            assert_eq!(show.ids.tmdb, None);
            let episode = payload.episode.unwrap();
            assert_eq!(episode.season, 2);
            assert_eq!(episode.number, 5);
            assert_eq!(episode.ids, None);
            assert_eq!(payload.movie, None);
        }
        other => panic!("unexpected step: {:?}", other),
    }
}

#[test]
fn first_series_among_the_ancestors_counts() {
    let mut second = series();
    second.title = "Other".to_string();
    let step = SimklService::resolve_with_ancestors(pending(episode()), vec![series(), second]);
    match step {
        ResolveStep::Done(Some(ResolvedMedia::Episode { show, .. })) => {
            assert_eq!(show.title.as_deref(), Some("Show"));
        }
        other => panic!("unexpected step: {:?}", other),
    }
}

#[test]
fn grandparent_stands_in_for_missing_ancestors() {
    let step = SimklService::resolve_with_ancestors(pending(episode()), Vec::new());
    let waiting = match step {
        ResolveStep::NeedSeries(waiting, id) => {
            assert_eq!(id, 9);
            waiting
        }
        other => panic!("unexpected step: {:?}", other),
    };
    match SimklService::resolve_with_series(waiting, Some(series())) {
        ResolveStep::Done(Some(ResolvedMedia::Episode { show, .. })) => {
            assert_eq!(show.ids.tvdb.as_deref(), Some("305288"));
        }
        other => panic!("unexpected step: {:?}", other),
    }
}

#[test]
fn episode_without_a_series_is_not_described() {
    let lone = Media { grandparent_id: None, ..episode() };
    assert_eq!(
        SimklService::resolve_with_ancestors(pending(lone), vec![medium(MediaKind::Season)]),
        ResolveStep::Done(None)
    );
    assert_eq!(
        SimklService::resolve_with_series(pending(episode()), None),
        ResolveStep::Done(None)
    );
    assert_eq!(
        SimklService::resolve_with_series(pending(episode()), Some(medium(MediaKind::Movie))),
        ResolveStep::Done(None)
    );
    let nameless = Media { external_ids: ExternalIds::default(), ..series() };
    assert_eq!(
        SimklService::resolve_with_series(pending(episode()), Some(nameless)),
        ResolveStep::Done(None)
    );
}
