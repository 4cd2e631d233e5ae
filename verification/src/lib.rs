//! The decisions of a media-transcoding gateway: what an upload is, which
//! route takes it, what the transcoder is asked to do, which temporary files
//! are alive, and which HTTP status a failure becomes.

pub mod artifact;
pub mod failure;
pub mod imagemagick;
pub mod pipeline;
pub mod routes;
pub mod sniff;
pub mod target;
pub mod text;
pub mod transcoder;
