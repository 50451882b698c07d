//! Builds and reuses a persistent seek index for one video track of a media
//! container, and resolves stream-level and frame-level descriptors into one
//! canonical video-metadata record.
//!
//! The decode engine itself (container demux, frame decode) is an external
//! collaborator driven from outside this crate; this crate holds the decision
//! logic: the index-acquisition protocol, the track-selection rule, and every
//! field-resolution rule for the metadata record.

pub mod index;
pub mod info;
pub mod numfmt;
pub mod resolve;
