//! Determines the single best-known creation timestamp for an image file.
//!
//! Several sources of date information may be present for one file: date
//! fields embedded in the image's own metadata, and the filesystem's
//! creation, modification and access instants.  Each source has a fixed
//! priority rank; the library probes them in rank order and returns the
//! highest-priority instant that could be extracted, or a documented
//! far-future sentinel when no source yields anything.
//!
//! The library works on plain values: the raw bytes of the image and the
//! filesystem instants already converted to whole seconds since the Unix
//! epoch.  Opening files and querying the host filesystem is left to the
//! caller.

pub mod candidate;
pub mod datetime;
pub mod embedded;
pub mod filesystem;
pub mod laws;
pub mod resolver;
