//! Session bootstrap and playback orchestration for a single-track
//! streaming client: the credential record and its persisted form, the
//! device identity announced during discovery, media identifiers, the
//! command-line surface, and the state machine that sequences one run.

pub mod failure;
pub mod text;
pub mod device;
pub mod json;
pub mod credentials;
pub mod media;
pub mod args;
pub mod flow;
pub mod laws;
