//! Core of a segmented file downloader: planning byte ranges, choosing a
//! transfer strategy, following redirects, tracking progress under
//! epoch-based cancellation, and naming the files it writes.

pub mod account;
pub mod cookie;
pub mod download;
pub mod epoch;
pub mod error;
pub mod filename;
pub mod planner;
pub mod progress;
pub mod quark;
pub mod redirect;
pub mod strategy;
pub mod text;
pub mod worker;
