//! A verified content-type discovery library: a sniffing classifier that
//! resolves the authoritative MIME type of a byte buffer from fixed byte
//! signatures, a feed scanner and a text/binary heuristic, together with the
//! data model of a channel-based delivery pipeline around it.

pub mod binary;
pub mod byte_matcher;
pub mod classifier;
pub mod feeds;
pub mod grouped;
pub mod mp4;
pub mod pipeline;
pub mod signatures;
pub mod text;
pub mod urls;
