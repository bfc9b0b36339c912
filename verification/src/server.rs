//! The sites to choose from.

use vstd::prelude::*;

use crate::animeflv::{AnimeFlv, PipelineModel};
use crate::key::Key;

verus! {

/// A site that can be searched.
#[derive(Debug, Clone, Copy, PartialEq, Eq, Structural)]
pub enum Server {
    AnimeFlv,
}

impl Default for Server {
    fn default() -> (r: Server)
        ensures
            r == Server::AnimeFlv,
    {
        Server::AnimeFlv
    }
}

/// The site after `server` in the round of the sites.
pub open spec fn next_server(server: Server) -> Server {
    match server {
        Server::AnimeFlv => Server::AnimeFlv,
    }
}

/// The site before `server` in the round of the sites.
pub open spec fn previous_server(server: Server) -> Server {
    match server {
        Server::AnimeFlv => Server::AnimeFlv,
    }
}

/// The selector of the site.
#[derive(Debug, Clone, Copy, PartialEq, Eq, Structural)]
pub struct Servers {
    pub current_server: Server,
    pub focus: bool,
}

/// The selector after a key, and the site to switch to, where the key asks
/// for one: the arrows go round the sites.
pub open spec fn servers_after_key(v: Servers, key: Key) -> (Servers, Option<Server>) {
    match key {
        Key::Right => (
            Servers { current_server: next_server(v.current_server), ..v },
            Some(next_server(v.current_server)),
        ),
        Key::Left => (
            Servers { current_server: previous_server(v.current_server), ..v },
            Some(previous_server(v.current_server)),
        ),
        _ => (v, None),
    }
}

impl Default for Servers {
    fn default() -> (r: Servers)
        ensures
            r == (Servers { current_server: Server::AnimeFlv, focus: false }),
    {
        Servers { current_server: Server::AnimeFlv, focus: false }
    }
}

impl Servers {
    pub fn focus(&mut self)
        ensures
            *final(self) == (Servers { focus: true, ..*old(self) }),
    {
        self.focus = true;
    }

    pub fn defocus(&mut self)
        ensures
            *final(self) == (Servers { focus: false, ..*old(self) }),
    {
        self.focus = false;
    }

    fn right(&mut self) -> (r: Server)
        ensures
            (*final(self), Some(r)) == servers_after_key(*old(self), Key::Right),
    {
        self.current_server = match self.current_server {
            Server::AnimeFlv => Server::AnimeFlv,
        };
        self.current_server
    }

    fn left(&mut self) -> (r: Server)
        ensures
            (*final(self), Some(r)) == servers_after_key(*old(self), Key::Left),
    {
        self.current_server = match self.current_server {
            Server::AnimeFlv => Server::AnimeFlv,
        };
        self.current_server
    }

    /// Takes a key in; gives the site to switch to, where the key asks for
    /// one.
    pub fn handle_key_event(&mut self, key: Key) -> (r: Option<Server>)
        ensures
            (*final(self), r) == servers_after_key(*old(self), key),
    {
        match key {
            Key::Right => Some(self.right()),
            Key::Left => Some(self.left()),
            _ => None,
        }
    }

    /// A fresh client for a site: without results and without a series.
    pub fn generate_current_client(server: &Server) -> (r: AnimeFlv)
        ensures
            r@ == (PipelineModel { references: Seq::empty(), session: None, resolution: None }),
    {
        match server {
            Server::AnimeFlv => AnimeFlv::new(),
        }
    }
}

} // verus!
