//! What the application asks of a site, whichever it is.
//!
//! A client never touches the network. For each stage it names the page it
//! needs and takes the answer in; the application does the fetching in
//! between.

use vstd::prelude::*;

use crate::animeflv::{
    after_search, after_select, begin_resolution, continue_resolution, search_outcome,
    select_outcome, AnimeFlv, Progress, ProgressView,
};
use crate::error::{Error, ErrorView};
use crate::fetch::Fetched;
use crate::intercept::DEFAULT_TIMEOUT_MS;
use crate::provider::ProviderSpec;
use crate::resolver::{providers_view, ResolveEvent};
use crate::search::{titles, titles_of, SearchResultEntryView};
use crate::text::strings_view;
use crate::site::{search_address, search_url, series_address};

verus! {

/// A site, as the application uses it.
pub trait Client {
    /// How many results the last search left.
    spec fn result_total(&self) -> nat;

    /// Whether a series is selected.
    spec fn has_series(&self) -> bool;

    /// Whether the resolution of a link is in progress.
    spec fn is_resolving(&self) -> bool;

    /// The address of the search page for `query`.
    fn search_request(&self, query: &str) -> String;

    /// Takes the answer to a search in: the titles found, in the order of
    /// the page. They are the results from then on, and no series is
    /// selected among them yet.
    fn get_animes(&mut self, response: &Fetched) -> (r: Result<Vec<String>, Error>)
        ensures
            r matches Ok(titles) ==> final(self).result_total() == titles.len()
                && !final(self).has_series(),
            !final(self).is_resolving() || r is Err,
    ;

    /// The address of the page of the `index`-th result: there is one
    /// exactly for the indices below the number of results.
    fn series_request(&self, index: usize) -> (r: Result<String, Error>)
        ensures
            r is Ok <==> index < self.result_total(),
            r matches Err(e) ==> e@ == ErrorView::IndexOutOfRange,
    ;

    /// Takes the answer to the request for the `index`-th result's page in:
    /// the episode numbers of the series, which is selected from then on.
    fn select_anime(&mut self, index: usize, response: &Fetched) -> (r: Result<Vec<i32>, Error>)
        ensures
            final(self).result_total() == old(self).result_total(),
            index >= old(self).result_total() ==> r is Err && r->Err_0@
                == ErrorView::IndexOutOfRange,
            index < old(self).result_total() ==> final(self).has_series() == r is Ok
                && !final(self).is_resolving(),
            r matches Err(e) ==> (e@ == ErrorView::IndexOutOfRange <==> index >= old(
                self,
            ).result_total()),
    ;

    /// Begins the resolution of the link of an episode of the series
    /// selected; without one, it is over at once with `NoActiveSeries`.
    fn get_episode_link(&mut self, episode: i32, providers: Vec<ProviderSpec>) -> (p: Progress)
        ensures
            !old(self).has_series() ==> p@ == ProgressView::Done(Err(ErrorView::NoActiveSeries)),
            final(self).is_resolving() <==> p is Next,
            final(self).has_series() == old(self).has_series(),
    ;

    /// Takes what came of the last request of the resolution in; with no
    /// resolution in progress, it is over at once with `NoActiveSeries`.
    fn resolve_step(&mut self, event: &ResolveEvent) -> (p: Progress)
        ensures
            !old(self).is_resolving() ==> p@ == ProgressView::Done(Err(ErrorView::NoActiveSeries)),
            final(self).is_resolving() <==> p is Next,
    ;
}

impl Client for AnimeFlv {
    open spec fn result_total(&self) -> nat {
        self@.references.len()
    }

    open spec fn has_series(&self) -> bool {
        self@.session is Some
    }

    open spec fn is_resolving(&self) -> bool {
        self@.resolution is Some
    }

    fn search_request(&self, query: &str) -> (url: String)
        ensures
            url@ == search_address(query@),
    {
        search_url(query)
    }

    fn get_animes(&mut self, response: &Fetched) -> (r: Result<Vec<String>, Error>)
        ensures
            final(self)@ == after_search(old(self)@, response@),
            match r {
                Ok(titles) => search_outcome(response@) is Ok && strings_view(titles@) == titles_of(
                    search_outcome(response@)->Ok_0,
                ),
                Err(e) => search_outcome(response@) == Err::<Seq<SearchResultEntryView>, ErrorView>(
                    e@,
                ),
            },
    {
        match self.search(response) {
            Err(e) => Err(e),
            Ok(entries) => Ok(titles(&entries)),
        }
    }

    fn series_request(&self, index: usize) -> (r: Result<String, Error>)
        ensures
            r matches Ok(url) ==> url@ == series_address(self@.references[index as int]),
    {
        AnimeFlv::series_request(self, index)
    }

    fn select_anime(&mut self, index: usize, response: &Fetched) -> (r: Result<Vec<i32>, Error>)
        ensures
            final(self)@ == after_select(old(self)@, index as int, response@),
            match r {
                Ok(episodes) => select_outcome(old(self)@, index as int, response@) == Ok::<
                    Seq<i32>,
                    ErrorView,
                >(episodes@),
                Err(e) => select_outcome(old(self)@, index as int, response@) == Err::<
                    Seq<i32>,
                    ErrorView,
                >(e@),
            },
    {
        self.select(index, response)
    }

    fn get_episode_link(&mut self, episode: i32, providers: Vec<ProviderSpec>) -> (p: Progress)
        ensures
            (final(self)@, p@) == begin_resolution(
                old(self)@,
                episode,
                providers_view(providers@),
                DEFAULT_TIMEOUT_MS,
            ),
    {
        self.resolve(episode, providers)
    }

    fn resolve_step(&mut self, event: &ResolveEvent) -> (p: Progress)
        ensures
            (final(self)@, p@) == continue_resolution(old(self)@, event@),
    {
        AnimeFlv::resolve_step(self, event)
    }
}

} // verus!
