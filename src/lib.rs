//! Reconciles a media library's incomplete seasons against a download client:
//! finds the release that the library last grabbed for a season, checks that
//! the live search still offers it and that it is recent, and decides whether
//! to submit it.
pub mod reconcile;
pub mod resolve;
pub mod sonarr;
