//! Resolution of a title query into a playable media link: search, episode
//! enumeration and per-episode link resolution over scraped pages, with the
//! decisions of every stage separated from the network and browser work they
//! ask for.

pub mod animeflv;
pub mod app;
pub mod client;
pub mod error;
pub mod fetch;
pub mod frontend;
pub mod input;
pub mod intercept;
pub mod key;
pub mod layout;
pub mod list;
pub mod logging;
pub mod number;
pub mod provider;
pub mod resolution;
pub mod resolver;
pub mod search;
pub mod series;
pub mod server;
pub mod site;
pub mod text;
