//! Native backend of a desktop music player: the rules by which a remote
//! audio resource is accepted and by which a directory listing is reduced to
//! the playable files in it.

pub mod error;
pub mod fetcher;
pub mod headers;
pub mod paths;
pub mod scanner;
pub mod text;
