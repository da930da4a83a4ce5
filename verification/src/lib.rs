//! Verified core of a desktop front end for DepotDownloader: the terminals it
//! knows, the commands it builds to download a Steam depot, and the small
//! platform decisions around them.

pub mod command;
pub mod depotdownloader;
pub mod platform;
pub mod scan;
pub mod steam;
pub mod terminal;
pub mod text;
