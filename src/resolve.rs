//! Resolution of the release that should be downloaded for one season.
//!
//! Resolution needs three queries to the library manager, each depending on
//! the one before. The decisions between them are the functions here: each
//! takes what a query returned and says what to ask next, or what came out.
use vstd::prelude::*;
use crate::sonarr::{EpisodeId, Episode, Grabbed, History, HistoryEvent, MissingGuid, Release, SeriesId};

verus! {

/// Why a season cannot be resolved.
#[derive(Debug, Clone, Copy, PartialEq, Eq, Structural)]
pub enum ResolveError {
    /// The series has no episode in the season.
    NoEpisodesForSeason,
    /// No release was ever grabbed for the season's first episode.
    NoGrabHistory,
    /// The newest grab record names no release.
    MalformedHistory,
    /// A query to the library manager failed.
    Upstream,
}

/// Episode `i` is the season's representative: the one with the least episode
/// number in the season, the first of those in list order.
pub open spec fn is_first_episode(eps: Seq<Episode>, season_number: usize, i: int) -> bool {
    &&& 0 <= i < eps.len()
    &&& eps[i].season_number == season_number
    &&& forall|j: int|
        0 <= j < eps.len() && #[trigger] eps[j].season_number == season_number ==> {
            &&& eps[i].episode_number <= eps[j].episode_number
            &&& j < i ==> eps[i].episode_number < eps[j].episode_number
        }
}

/// The series has no episode in the season.
pub open spec fn season_is_empty(eps: Seq<Episode>, season_number: usize) -> bool {
    forall|j: int| 0 <= j < eps.len() ==> #[trigger] eps[j].season_number != season_number
}

/// Picks the representative episode of a season.
pub fn first_episode(episodes: &Vec<Episode>, season_number: usize) -> (r: Result<EpisodeId, ResolveError>)
    ensures
        match r {
            Ok(id) => exists|i: int| is_first_episode(episodes@, season_number, i) && episodes@[i].id == id,
            Err(e) => e == ResolveError::NoEpisodesForSeason && season_is_empty(episodes@, season_number),
        },
{
    let mut best: Option<usize> = None;
    let mut i: usize = 0;
    while i < episodes.len()
        invariant
            i <= episodes@.len(),
            match best {
                Some(b) => b < i && {
                    &&& episodes@[b as int].season_number == season_number
                    &&& forall|j: int|
                        0 <= j < i && #[trigger] episodes@[j].season_number == season_number ==> {
                            &&& episodes@[b as int].episode_number <= episodes@[j].episode_number
                            &&& j < b ==> episodes@[b as int].episode_number < episodes@[j].episode_number
                        }
                },
                None => forall|j: int| 0 <= j < i ==> #[trigger] episodes@[j].season_number != season_number,
            },
        decreases episodes@.len() - i,
    {
        let e = &episodes[i];
        if e.season_number == season_number {
            match best {
                Some(b) => {
                    if e.episode_number < episodes[b].episode_number {
                        best = Some(i);
                    }
                },
                None => {
                    best = Some(i);
                },
            }
        }
        i += 1;
    }
    match best {
        Some(b) => {
            assert(is_first_episode(episodes@, season_number, b as int));
            Ok(episodes[b].id)
        },
        None => Err(ResolveError::NoEpisodesForSeason),
    }
}

/// The outcome of scanning a history, newest record first: the first grab
/// record decides, and records after it are not read.
pub open spec fn grab_outcome(records: Seq<HistoryEvent>) -> Result<Seq<char>, ResolveError>
    decreases records.len(),
{
    if records.len() == 0 {
        Err(ResolveError::NoGrabHistory)
    } else {
        match records[0].grabbed_spec() {
            Ok(Some(g)) => Ok(g),
            Err(_) => Err(ResolveError::MalformedHistory),
            Ok(None) => grab_outcome(records.drop_first()),
        }
    }
}

/// No record of the history is a grab.
pub open spec fn has_no_grab(records: Seq<HistoryEvent>) -> bool {
    forall|i: int| 0 <= i < records.len() ==> !(#[trigger] records[i]).is_grab()
}

/// Finds the release that the newest grab record names.
pub fn latest_grab(history: &History) -> (r: Result<Grabbed, ResolveError>)
    ensures
        match (r, grab_outcome(history.records@)) {
            (Ok(g), Ok(s)) => g.guid@ == s,
            (Err(e), Err(f)) => e == f,
            _ => false,
        },
{
    let records = &history.records;
    let mut i: usize = 0;
    proof {
        assert(records@.subrange(0, records@.len() as int) =~= records@);
    }
    while i < records.len()
        invariant
            records == &history.records,
            i <= records@.len(),
            grab_outcome(records@) == grab_outcome(records@.subrange(i as int, records@.len() as int)),
        decreases records@.len() - i,
    {
        proof {
            assert(records@.subrange(i as int, records@.len() as int).drop_first()
                =~= records@.subrange(i + 1, records@.len() as int));
            assert(records@.subrange(i as int, records@.len() as int)[0] == records@[i as int]);
        }
        let found = records[i].grabbed();
        proof {
            let sub = records@.subrange(i as int, records@.len() as int);
            assert(sub.len() > 0);
            assert(grab_outcome(sub) == match records@[i as int].grabbed_spec() {
                Ok(Some(g)) => Ok(g),
                Err(_) => Err(ResolveError::MalformedHistory),
                Ok(None) => grab_outcome(sub.drop_first()),
            });
        }
        match found {
            Ok(Some(g)) => {
                return Ok(g);
            },
            Err(MissingGuid) => {
                return Err(ResolveError::MalformedHistory);
            },
            Ok(None) => {},
        }
        i += 1;
    }
    proof {
        assert(records@.subrange(i as int, records@.len() as int).len() == 0);
    }
    Err(ResolveError::NoGrabHistory)
}

/// The first release in `releases` whose GUID is `guid`.
pub open spec fn release_for(releases: Seq<Release>, guid: Seq<char>) -> Option<Release>
    decreases releases.len(),
{
    if releases.len() == 0 {
        None
    } else if releases[0].guid@ == guid {
        Some(releases[0])
    } else {
        release_for(releases.drop_first(), guid)
    }
}

/// Picks, among the live search's releases, the one that was grabbed.
pub fn matching_release(releases: &Vec<Release>, grabbed: &Grabbed) -> (r: Option<Release>)
    ensures
        r == release_for(releases@, grabbed.guid@),
{
    let mut i: usize = 0;
    proof {
        assert(releases@.subrange(0, releases@.len() as int) =~= releases@);
    }
    while i < releases.len()
        invariant
            i <= releases@.len(),
            release_for(releases@, grabbed.guid@)
                == release_for(releases@.subrange(i as int, releases@.len() as int), grabbed.guid@),
        decreases releases@.len() - i,
    {
        proof {
            assert(releases@.subrange(i as int, releases@.len() as int).drop_first()
                =~= releases@.subrange(i + 1, releases@.len() as int));
            assert(releases@.subrange(i as int, releases@.len() as int)[0] == releases@[i as int]);
        }
        if releases[i].guid == grabbed.guid {
            return Some(releases[i].duplicate());
        }
        i += 1;
    }
    proof {
        assert(releases@.subrange(i as int, releases@.len() as int).len() == 0);
    }
    None
}

/// A history without any grab record resolves to `NoGrabHistory`, so no
/// release search follows it.
pub proof fn lemma_no_grab_history(records: Seq<HistoryEvent>)
    requires
        has_no_grab(records),
    ensures
        grab_outcome(records) == Err::<Seq<char>, ResolveError>(ResolveError::NoGrabHistory),
    decreases records.len(),
{
    if records.len() > 0 {
        assert(!records[0].is_grab());
        let rest = records.drop_first();
        assert forall|i: int| 0 <= i < rest.len() implies !(#[trigger] rest[i]).is_grab() by {
            assert(rest[i] == records[i + 1]);
        }
        lemma_no_grab_history(rest);
    }
}

/// A live search yields a release exactly when one of its releases carries the
/// grabbed GUID, and the release it yields carries that GUID.
pub proof fn lemma_release_iff_guid(releases: Seq<Release>, guid: Seq<char>)
    ensures
        release_for(releases, guid) is Some <==> exists|i: int|
            0 <= i < releases.len() && (#[trigger] releases[i]).guid@ == guid,
        release_for(releases, guid) matches Some(r) ==> r.guid@ == guid,
    decreases releases.len(),
{
    if releases.len() > 0 {
        let rest = releases.drop_first();
        lemma_release_iff_guid(rest, guid);
        if releases[0].guid@ != guid {
            if exists|i: int| 0 <= i < releases.len() && (#[trigger] releases[i]).guid@ == guid {
                let i = choose|i: int| 0 <= i < releases.len() && (#[trigger] releases[i]).guid@ == guid;
                assert(rest[i - 1] == releases[i]);
            }
            if release_for(rest, guid) is Some {
                let i = choose|i: int| 0 <= i < rest.len() && (#[trigger] rest[i]).guid@ == guid;
                assert(releases[i + 1] == rest[i]);
            }
        }
    }
}

/// Only the newest grab record counts: once the newer records hold a grab,
/// older records, grabs or not, change nothing.
pub proof fn lemma_newest_grab_decides(newer: Seq<HistoryEvent>, older: Seq<HistoryEvent>)
    requires
        !has_no_grab(newer),
    ensures
        grab_outcome(newer + older) == grab_outcome(newer),
    decreases newer.len(),
{
    let all = newer + older;
    assert(newer.len() > 0);
    assert(all[0] == newer[0]);
    if !newer[0].is_grab() {
        let rest = newer.drop_first();
        assert(all.drop_first() =~= rest + older);
        let i = choose|i: int| 0 <= i < newer.len() && (#[trigger] newer[i]).is_grab();
        assert(rest[i - 1] == newer[i]);
        lemma_newest_grab_decides(rest, older);
    }
}

/// The whole resolution of a season, from the series' episodes, the history
/// of the season's representative episode, and the live search for it.
pub open spec fn resolution(
    episodes: Seq<Episode>,
    season_number: usize,
    records: Seq<HistoryEvent>,
    releases: Seq<Release>,
) -> Result<Option<Release>, ResolveError> {
    if season_is_empty(episodes, season_number) {
        Err(ResolveError::NoEpisodesForSeason)
    } else {
        match grab_outcome(records) {
            Ok(g) => Ok(release_for(releases, g)),
            Err(e) => Err(e),
        }
    }
}

/// A season with episodes whose history holds no grab resolves to
/// `NoGrabHistory`, whatever a release search would return: the search plays
/// no part.
pub proof fn lemma_resolution_without_grab(
    episodes: Seq<Episode>,
    season_number: usize,
    records: Seq<HistoryEvent>,
    releases: Seq<Release>,
)
    requires
        !season_is_empty(episodes, season_number),
        has_no_grab(records),
    ensures
        resolution(episodes, season_number, records, releases)
            == Err::<Option<Release>, ResolveError>(ResolveError::NoGrabHistory),
{
    lemma_no_grab_history(records);
}

/// When the newest grab names `guid`, resolution yields a release exactly when
/// the search offers one with that GUID, and the release carries it.
pub proof fn lemma_resolution_matches_grab(
    episodes: Seq<Episode>,
    season_number: usize,
    records: Seq<HistoryEvent>,
    releases: Seq<Release>,
    guid: Seq<char>,
)
    requires
        !season_is_empty(episodes, season_number),
        grab_outcome(records) == Ok::<Seq<char>, ResolveError>(guid),
    ensures
        resolution(episodes, season_number, records, releases) matches Ok(Some(_)) <==> exists|i: int|
            0 <= i < releases.len() && (#[trigger] releases[i]).guid@ == guid,
        resolution(episodes, season_number, records, releases) matches Ok(r) && (r matches Some(
            rel,
        ) ==> rel.guid@ == guid),
{
    lemma_release_iff_guid(releases, guid);
}

} // verus!
