//! Decisions of one reconciliation pass: which seasons to look at, whether a
//! resolved release is recent enough to submit, and which series to leave
//! alone for a while.
use vstd::prelude::*;
use crate::resolve::ResolveError;
use crate::sonarr::{Release, Season, Series, SeriesId};

verus! {

/// A release is recent while its publication time plus the freshness window
/// lies after `now`; at the boundary it has expired.
pub open spec fn is_fresh_spec(publish_date: u64, max_age: u64, now: u64) -> bool {
    publish_date + max_age > now
}

/// Tells whether a release published at `publish_date` (seconds since the Unix
/// epoch) is still inside a freshness window of `max_age` seconds at `now`.
pub fn is_fresh(publish_date: u64, max_age: u64, now: u64) -> (r: bool)
    ensures
        r == is_fresh_spec(publish_date, max_age, now),
{
    if publish_date > now {
        true
    } else {
        now - publish_date < max_age
    }
}

/// What a pass submits after a resolution: a resolved release that is still
/// recent, else nothing.
pub open spec fn submission_spec(
    outcome: Result<Option<Release>, ResolveError>,
    max_age: u64,
    now: u64,
) -> Option<Release> {
    match outcome {
        Ok(Some(r)) => if is_fresh_spec(r.publish_date, max_age, now) {
            Some(r)
        } else {
            None
        },
        _ => None,
    }
}

/// Applies the recency filter to the outcome of a resolution. Failed
/// resolutions, and those that found no release, submit nothing.
pub fn submission(outcome: Result<Option<Release>, ResolveError>, max_age: u64, now: u64) -> (r: Option<Release>)
    ensures
        r == submission_spec(outcome, max_age, now),
{
    match outcome {
        Ok(Some(r)) => {
            if is_fresh(r.publish_date, max_age, now) {
                Some(r)
            } else {
                None
            }
        },
        _ => None,
    }
}

/// A release published exactly `max_age` seconds before `now` is not submitted.
pub proof fn lemma_boundary_expires(r: Release, max_age: u64, now: u64)
    requires
        r.publish_date + max_age == now,
    ensures
        !is_fresh_spec(r.publish_date, max_age, now),
        submission_spec(Ok(Some(r)), max_age, now) is None,
{
}

/// The category under which releases are submitted to the download client.
pub fn category() -> (r: String)
    ensures
        r@ == "tv-sonarr"@,
{
    "tv-sonarr".to_owned()
}

/// The numbers of the seasons that need an update, in the order of `seasons`.
pub open spec fn pending_seasons(seasons: Seq<Season>) -> Seq<usize>
    decreases seasons.len(),
{
    if seasons.len() == 0 {
        Seq::empty()
    } else {
        let before = pending_seasons(seasons.drop_last());
        if seasons.last().needs_update_spec() {
            before.push(seasons.last().season_number)
        } else {
            before
        }
    }
}

/// Lists the seasons of a series that a pass resolves.
pub fn seasons_to_update(series: &Series) -> (r: Vec<usize>)
    ensures
        r@ == pending_seasons(series.seasons@),
{
    let mut out: Vec<usize> = Vec::new();
    let mut i: usize = 0;
    while i < series.seasons.len()
        invariant
            i <= series.seasons@.len(),
            out@ == pending_seasons(series.seasons@.subrange(0, i as int)),
        decreases series.seasons@.len() - i,
    {
        proof {
            let next = series.seasons@.subrange(0, i + 1);
            assert(next.drop_last() =~= series.seasons@.subrange(0, i as int));
            assert(next.last() == series.seasons@[i as int]);
        }
        let season = &series.seasons[i];
        if season.needs_update() {
            out.push(season.season_number);
        }
        i += 1;
    }
    proof {
        assert(series.seasons@.subrange(0, i as int) =~= series.seasons@);
    }
    out
}

/// Series left out of reconciliation for a while. Entries are only added
/// within a window; when the window has run out, all of them are cleared at
/// once.
pub struct SkipSet {
    ids: Vec<SeriesId>,
    since: u64,
    window: u64,
}

impl SkipSet {
    /// The series that are skipped.
    pub closed spec fn marked(&self) -> Set<SeriesId> {
        self.ids@.to_set()
    }

    /// When the current window began, in seconds since the Unix epoch.
    pub closed spec fn since(&self) -> u64 {
        self.since
    }

    /// How long a window lasts, in seconds.
    pub closed spec fn window(&self) -> u64 {
        self.window
    }

    /// The window that began at `since()` has run out at `now`.
    pub open spec fn expired(&self, now: u64) -> bool {
        now >= self.since() + self.window()
    }

    /// An empty skip-set whose first window begins at `now`.
    pub fn new(window: u64, now: u64) -> (r: SkipSet)
        ensures
            r.marked() == Set::<SeriesId>::empty(),
            r.since() == now,
            r.window() == window,
    {
        let r = SkipSet { ids: Vec::new(), since: now, window };
        proof {
            assert(r.ids@.to_set() =~= Set::<SeriesId>::empty());
        }
        r
    }

    /// Excludes a series until the window runs out.
    pub fn mark(&mut self, id: SeriesId)
        ensures
            final(self).marked() == old(self).marked().insert(id),
            final(self).since() == old(self).since(),
            final(self).window() == old(self).window(),
    {
        if !self.should_skip(id) {
            self.ids.push(id);
            proof {
                assert(self.ids@.to_set() =~= old(self).ids@.to_set().insert(id)) by {
                    assert(self.ids@ =~= old(self).ids@.push(id));
                    old(self).ids@.lemma_push_to_set_commute(id);
                }
            }
        } else {
            proof {
                assert(old(self).ids@.to_set().insert(id) =~= old(self).ids@.to_set());
            }
        }
    }

    /// Tells whether a series is excluded.
    pub fn should_skip(&self, id: SeriesId) -> (r: bool)
        ensures
            r == self.marked().contains(id),
    {
        let mut i: usize = 0;
        while i < self.ids.len()
            invariant
                i <= self.ids@.len(),
                forall|j: int| 0 <= j < i ==> self.ids@[j] != id,
            decreases self.ids@.len() - i,
        {
            if self.ids[i] == id {
                proof {
                    assert(self.ids@.contains(id));
                }
                return true;
            }
            i += 1;
        }
        false
    }

    /// Clears every entry at once when the window has run out at `now`, and
    /// begins a new window; otherwise changes nothing.
    pub fn maybe_reset(&mut self, now: u64)
        ensures
            old(self).expired(now) ==> {
                &&& final(self).marked() == Set::<SeriesId>::empty()
                &&& final(self).since() == now
                &&& final(self).window() == old(self).window()
            },
            !old(self).expired(now) ==> *final(self) == *old(self),
    {
        if now >= self.since && now - self.since >= self.window {
            self.ids = Vec::new();
            self.since = now;
            proof {
                assert(self.ids@.to_set() =~= Set::<SeriesId>::empty());
            }
        }
    }
}

/// A marked series stays skipped until the window runs out, and then every
/// entry clears at once, whenever it was marked.
pub proof fn lemma_skip_until_window(before: SkipSet, after: SkipSet, id: SeriesId, now: u64)
    requires
        before.marked().contains(id),
        !before.expired(now) ==> after == before,
        before.expired(now) ==> after.marked() == Set::<SeriesId>::empty(),
    ensures
        !before.expired(now) ==> after.marked().contains(id),
        before.expired(now) ==> forall|other: SeriesId| !after.marked().contains(other),
{
}

/// Lists the seasons of a series that a pass works on: none while the series
/// is in the skip-set, else those that need an update.
pub fn seasons_to_process(skip: Option<&SkipSet>, series: &Series) -> (r: Vec<usize>)
    ensures
        r@ == match skip {
            Some(s) => if s.marked().contains(series.id) {
                Seq::<usize>::empty()
            } else {
                pending_seasons(series.seasons@)
            },
            None => pending_seasons(series.seasons@),
        },
{
    match skip {
        Some(s) => {
            if s.should_skip(series.id) {
                Vec::new()
            } else {
                seasons_to_update(series)
            }
        },
        None => seasons_to_update(series),
    }
}

} // verus!
