//! The library manager's catalog data, as plain values.
use vstd::prelude::*;
use vstd::string::StringExecFns;

verus! {

/// Identifier of a series in the library manager.
#[derive(Debug, Clone, Copy, PartialEq, Eq, Structural, Hash)]
pub struct SeriesId(pub i64);

/// Identifier of an episode in the library manager.
#[derive(Debug, Clone, Copy, PartialEq, Eq, Structural, Hash)]
pub struct EpisodeId(pub i64);

/// Completion of a season, in hundredths of a percent: a whole season is
/// `COMPLETE`.
pub const COMPLETE: u32 = 10000;

/// The address of an endpoint `name` under the base address `base`.
pub fn endpoint(base: &String, name: &str) -> (r: String)
    ensures
        r@ == base@ + "/"@ + name@,
{
    base.clone().concat("/").concat(name)
}

/// A tracked show.
#[derive(Debug)]
pub struct Series {
    pub id: SeriesId,
    pub title: String,
    pub seasons: Vec<Season>,
}

/// A numbered season of a series.
#[derive(Debug)]
pub struct Season {
    pub season_number: usize,
    pub monitored: bool,
    pub statistics: Statistics,
}

/// How much of a season the library already holds.
#[derive(Debug)]
pub struct Statistics {
    /// Share of the season's episodes on disk, in hundredths of a percent.
    pub percent_of_episodes: u32,
}

impl Season {
    /// The season is wanted and not yet complete.
    pub open spec fn needs_update_spec(&self) -> bool {
        self.monitored && self.statistics.percent_of_episodes < COMPLETE
    }

    pub fn needs_update(&self) -> (r: bool)
        ensures
            r == self.needs_update_spec(),
            !self.monitored ==> !r,
    {
        self.monitored && self.statistics.percent_of_episodes < COMPLETE
    }
}

/// An episode of a series.
#[derive(Debug)]
pub struct Episode {
    pub id: EpisodeId,
    pub series_id: SeriesId,
    pub season_number: usize,
    pub episode_number: usize,
}

/// A release offered by a live search.
#[derive(Debug)]
pub struct Release {
    pub guid: String,
    pub download_url: String,
    /// Publication time, in seconds since the Unix epoch.
    pub publish_date: u64,
}

impl Release {
    /// A copy of the release, field for field.
    pub fn duplicate(&self) -> (r: Release)
        ensures
            r == *self,
    {
        Release {
            guid: self.guid.clone(),
            download_url: self.download_url.clone(),
            publish_date: self.publish_date,
        }
    }
}

/// An episode's history, newest record first.
#[derive(Debug)]
pub struct History {
    pub records: Vec<HistoryEvent>,
}

/// One record of an episode's history.
#[derive(Debug)]
pub struct HistoryEvent {
    pub event_type: String,
    pub data: HistoryData,
}

/// What a history record carries.
#[derive(Debug)]
pub struct HistoryData {
    pub guid: Option<String>,
    pub published_date: Option<String>,
}

/// The release that a grab record names.
#[derive(Debug)]
pub struct Grabbed {
    pub guid: String,
}

/// A history record that should name a release and does not.
#[derive(Debug, Clone, Copy, PartialEq, Eq, Structural)]
pub struct MissingGuid;

/// The event type of a grab record.
pub open spec fn grabbed_event_type() -> Seq<char> {
    "grabbed"@
}

impl HistoryEvent {
    /// The record says that a release was grabbed.
    pub open spec fn is_grab(&self) -> bool {
        self.event_type@ == grabbed_event_type()
    }

    /// What the record tells of a grab: nothing for another event, the grabbed
    /// release's GUID for a grab, an error for a grab without one.
    pub open spec fn grabbed_spec(&self) -> Result<Option<Seq<char>>, MissingGuid> {
        if !self.is_grab() {
            Ok(None)
        } else {
            match self.data.guid {
                Some(g) => Ok(Some(g@)),
                None => Err(MissingGuid),
            }
        }
    }

    pub fn grabbed(&self) -> (r: Result<Option<Grabbed>, MissingGuid>)
        ensures
            match (r, self.grabbed_spec()) {
                (Ok(None), Ok(None)) => true,
                (Ok(Some(g)), Ok(Some(s))) => g.guid@ == s,
                (Err(_), Err(_)) => true,
                _ => false,
            },
    {
        proof {
            reveal_strlit("grabbed");
        }
        let kind: String = "grabbed".to_owned();
        if self.event_type == kind {
            match &self.data.guid {
                Some(g) => Ok(Some(Grabbed { guid: g.clone() })),
                None => Err(MissingGuid),
            }
        } else {
            Ok(None)
        }
    }
}

} // verus!
