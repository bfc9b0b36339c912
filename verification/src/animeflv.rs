//! The pipeline for one site: search, then a series, then the link of an
//! episode.
//!
//! The pipeline keeps the references of the last search and the series
//! selected among them. It never touches the network: for each stage it
//! says which page it needs and takes the answer in. A new search or a new
//! selection puts an end to whatever was resolved for the series before.

use vstd::prelude::*;

use crate::error::{Error, ErrorView};
use crate::fetch::{fetched_page, Fetched, FetchedView};
use crate::intercept::DEFAULT_TIMEOUT_MS;
use crate::provider::ProviderSpec;
use crate::resolver::{
    providers_view, resolver_start, resolver_step, result_view, LinkResolver, LinkView,
    ResolveAction, ResolveActionView, ResolveEvent, ResolveEventView, ResolvedLink, ResolverModel,
    StageModel,
};
use crate::fetch::is_success;
use crate::search::{
    all_well_formed, block_entry, entries_view, page_blocks, page_entries, parse_search_page,
    EntryBlockView, SearchResultEntry, SearchResultEntryView, BLOCK_SELECTOR, HEADING_SELECTOR,
    LINK_ATTRIBUTE, LINK_SELECTOR,
};
use crate::series::{page_episodes, parse_episodes};
use crate::text::strings_view;
use crate::resolution::lemma_links_are_absolute;
use crate::site::{
    episode_address, episode_url, is_absolute, is_reference, series_address, series_url,
};

verus! {

/// The series selected, and its episodes in the order of its page.
#[derive(Debug, Clone, PartialEq, Eq)]
pub struct SeriesSession {
    pub reference: String,
    pub episode_numbers: Vec<i32>,
}

/// A [`SeriesSession`] as the contracts see it.
pub struct SeriesSessionView {
    pub reference: Seq<char>,
    pub episode_numbers: Seq<i32>,
}

impl View for SeriesSession {
    type V = SeriesSessionView;

    open spec fn view(&self) -> SeriesSessionView {
        SeriesSessionView { reference: self.reference@, episode_numbers: self.episode_numbers@ }
    }
}

/// The pipeline as the contracts see it.
pub struct PipelineModel {
    /// The references of the last search, in the order of its page.
    pub references: Seq<Seq<char>>,
    pub session: Option<SeriesSessionView>,
    /// The resolution in progress, tied to the session.
    pub resolution: Option<ResolverModel>,
}

/// How far a resolution has come.
#[derive(Debug)]
pub enum Progress {
    /// The driver is to do this and report what came of it.
    Next(ResolveAction),
    /// The resolution is over.
    Done(Result<ResolvedLink, Error>),
}

/// A [`Progress`] as the contracts see it.
pub enum ProgressView {
    Next(ResolveActionView),
    Done(Result<LinkView, ErrorView>),
}

impl View for Progress {
    type V = ProgressView;

    open spec fn view(&self) -> ProgressView {
        match self {
            Progress::Next(a) => ProgressView::Next(a@),
            Progress::Done(r) => ProgressView::Done(result_view(*r)),
        }
    }
}

/// The pipeline for the site.
#[derive(Debug)]
pub struct AnimeFlv {
    series_links: Vec<String>,
    session: Option<SeriesSession>,
    resolution: Option<LinkResolver>,
}

/// The references of the entries, in their order.
pub open spec fn references_of(entries: Seq<SearchResultEntryView>) -> Seq<Seq<char>> {
    entries.map_values(|e: SearchResultEntryView| e.reference)
}

impl View for AnimeFlv {
    type V = PipelineModel;

    closed spec fn view(&self) -> PipelineModel {
        PipelineModel {
            references: strings_view(self.series_links@),
            session: match self.session {
                Some(s) => Some(s@),
                None => None,
            },
            resolution: match self.resolution {
                Some(r) => Some(r@),
                None => None,
            },
        }
    }
}

/// Every reference that the pipeline holds is a path below the series prefix.
pub open spec fn holds_references(m: PipelineModel) -> bool {
    &&& forall|i: int| 0 <= i < m.references.len() ==> is_reference(#[trigger] m.references[i])
    &&& m.session matches Some(s) ==> is_reference(s.reference)
}

/// What a search makes of the answer to its request.
pub open spec fn search_outcome(f: FetchedView) -> Result<Seq<SearchResultEntryView>, ErrorView> {
    match fetched_page(f) {
        Err(e) => Err(e),
        Ok(page) => match page_entries(page) {
            Ok(entries) => Ok(entries),
            Err(x) => Err(ErrorView::Extraction(x)),
        },
    }
}

/// The pipeline after a search. Without a page nothing changes; with one,
/// the references of the page replace those held, none where the page
/// fails, and no series is selected any more.
pub open spec fn after_search(m: PipelineModel, f: FetchedView) -> PipelineModel {
    match fetched_page(f) {
        Err(_) => m,
        Ok(page) => PipelineModel {
            references: match page_entries(page) {
                Ok(entries) => references_of(entries),
                Err(_) => Seq::empty(),
            },
            session: None,
            resolution: None,
        },
    }
}

/// What the selection of the `index`-th result makes of the answer to its
/// request: `IndexOutOfRange` for an index that is no result's, whatever
/// the answer.
pub open spec fn select_outcome(m: PipelineModel, index: int, f: FetchedView) -> Result<
    Seq<i32>,
    ErrorView,
> {
    if !(0 <= index < m.references.len()) {
        Err(ErrorView::IndexOutOfRange)
    } else {
        match fetched_page(f) {
            Err(e) => Err(e),
            Ok(page) => match page_episodes(page) {
                Ok(episodes) => Ok(episodes),
                Err(x) => Err(ErrorView::Extraction(x)),
            },
        }
    }
}

/// The pipeline after a selection. An index that is no result's changes
/// nothing. Any other ends what was selected and resolved before, and where
/// the page gives its episodes the series is selected.
pub open spec fn after_select(m: PipelineModel, index: int, f: FetchedView) -> PipelineModel {
    if !(0 <= index < m.references.len()) {
        m
    } else {
        PipelineModel {
            session: match select_outcome(m, index, f) {
                Ok(episodes) => Some(
                    SeriesSessionView {
                        reference: m.references[index],
                        episode_numbers: episodes,
                    },
                ),
                Err(_) => None,
            },
            resolution: None,
            ..m
        }
    }
}

/// The pipeline with this resolution in progress, and what the driver is
/// told: the resolver's request, or the result where it is over, which the
/// pipeline then keeps no longer.
pub open spec fn resolving(m: PipelineModel, step: (ResolverModel, ResolveActionView)) -> (
    PipelineModel,
    ProgressView,
) {
    match step.0.stage {
        StageModel::Finished(result) => (
            PipelineModel { resolution: None, ..m },
            ProgressView::Done(result),
        ),
        _ => (PipelineModel { resolution: Some(step.0), ..m }, ProgressView::Next(step.1)),
    }
}

/// The start of the resolution of an episode: `NoActiveSeries` without a
/// series selected.
pub open spec fn begin_resolution(
    m: PipelineModel,
    episode: i32,
    providers: Seq<crate::provider::ProviderSpecView>,
    timeout_ms: u64,
) -> (PipelineModel, ProgressView) {
    match m.session {
        None => (
            PipelineModel { resolution: None, ..m },
            ProgressView::Done(Err(ErrorView::NoActiveSeries)),
        ),
        Some(s) => resolving(
            m,
            resolver_start(episode_address(s.reference, episode as int), providers, timeout_ms),
        ),
    }
}

/// One more step of the resolution in progress: `NoActiveSeries` where there
/// is none, be it that none was begun or that a search or a selection has
/// put an end to it.
pub open spec fn continue_resolution(m: PipelineModel, e: ResolveEventView) -> (
    PipelineModel,
    ProgressView,
) {
    match m.resolution {
        None => (m, ProgressView::Done(Err(ErrorView::NoActiveSeries))),
        Some(r) => resolving(m, resolver_step(r, e)),
    }
}

impl Default for AnimeFlv {
    /// A pipeline without results and without a series.
    fn default() -> (r: AnimeFlv)
        ensures
            r@ == (PipelineModel { references: Seq::empty(), session: None, resolution: None }),
    {
        AnimeFlv::new()
    }
}

impl AnimeFlv {
    /// Every reference held is a path below the series prefix.
    #[verifier::type_invariant]
    spec fn references_are_paths(self) -> bool {
        &&& forall|i: int|
            0 <= i < self.series_links.len() ==> is_reference((#[trigger] self.series_links[i])@)
        &&& self.session matches Some(s) ==> is_reference(s.reference@)
        &&& self.resolution matches Some(r) ==> !(r@.stage is Finished)
    }

    /// A pipeline without results and without a series.
    pub fn new() -> (r: AnimeFlv)
        ensures
            r@ == (PipelineModel { references: Seq::empty(), session: None, resolution: None }),
    {
        let r = AnimeFlv { series_links: Vec::new(), session: None, resolution: None };
        assert(strings_view(r.series_links@) =~= Seq::<Seq<char>>::empty());
        r
    }

    /// How many results the last search left.
    pub fn result_count(&self) -> (n: usize)
        ensures
            n == self@.references.len(),
            holds_references(self@),
    {
        proof {
            use_type_invariant(self);
        }
        self.series_links.len()
    }

    /// The series selected, if one is.
    pub fn session(&self) -> (r: Option<&SeriesSession>)
        ensures
            match r {
                Some(s) => self@.session == Some(s@) && is_reference(s@.reference),
                None => self@.session is None,
            },
    {
        proof {
            use_type_invariant(self);
        }
        self.session.as_ref()
    }

    /// Takes the answer to a search in: the entries of the page, in its
    /// order.
    ///
    /// A block of the page without a link to a series or without a title
    /// fails the search with `MissingField`; an answer without a page fails
    /// it with what the transport said.
    pub fn search(&mut self, response: &Fetched) -> (r: Result<Vec<SearchResultEntry>, Error>)
        ensures
            final(self)@ == after_search(old(self)@, response@),
            match r {
                Ok(entries) => search_outcome(response@) == Ok::<
                    Seq<SearchResultEntryView>,
                    ErrorView,
                >(entries_view(entries@)),
                Err(e) => search_outcome(response@) == Err::<Seq<SearchResultEntryView>, ErrorView>(
                    e@,
                ),
            },
    {
        proof {
            use_type_invariant(&*self);
        }
        let page = match response.page() {
            Ok(page) => page,
            Err(e) => {
                return Err(e);
            },
        };
        self.resolution = None;
        self.session = None;
        match parse_search_page(page.as_str()) {
            Err(x) => {
                self.series_links = Vec::new();
                assert(strings_view(self.series_links@) =~= Seq::<Seq<char>>::empty());
                Err(Error::Extraction(x))
            },
            Ok(entries) => {
                let mut links: Vec<String> = Vec::new();
                let mut i: usize = 0;
                while i < entries.len()
                    invariant
                        i <= entries.len(),
                        links.len() == i,
                        forall|k: int|
                            0 <= k < i ==> (#[trigger] links@[k])@ == entries@[k]@.reference,
                    decreases entries.len() - i,
                {
                    links.push(entries[i].reference.clone());
                    i += 1;
                }
                assert(strings_view(links@) =~= references_of(entries_view(entries@)));
                proof {
                    lemma_entries_are_references(page@);
                    assert forall|k: int| 0 <= k < links.len() implies is_reference(
                        (#[trigger] links[k])@,
                    ) by {
                        assert(links@[k]@ == entries_view(entries@)[k].reference);
                    }
                }
                self.series_links = links;
                Ok(entries)
            },
        }
    }

    /// The address of the page of the `index`-th result of the last search.
    pub fn series_request(&self, index: usize) -> (r: Result<String, Error>)
        ensures
            match r {
                Ok(url) => index < self@.references.len() && url@ == series_address(
                    self@.references[index as int],
                ),
                Err(e) => index >= self@.references.len() && e@ == ErrorView::IndexOutOfRange,
            },
    {
        if index < self.series_links.len() {
            Ok(series_url(self.series_links[index].as_str()))
        } else {
            Err(Error::IndexOutOfRange)
        }
    }

    /// Takes the answer to the request for the `index`-th result's page in
    /// and selects that series: its episode numbers, in the order of the
    /// page.
    ///
    /// An index that is no result's fails with `IndexOutOfRange`. A page
    /// without the episode list fails with `MissingMarker`, one whose list
    /// has no end with `MalformedList`.
    pub fn select(&mut self, index: usize, response: &Fetched) -> (r: Result<Vec<i32>, Error>)
        ensures
            final(self)@ == after_select(old(self)@, index as int, response@),
            match r {
                Ok(episodes) => select_outcome(old(self)@, index as int, response@) == Ok::<
                    Seq<i32>,
                    ErrorView,
                >(episodes@),
                Err(e) => select_outcome(old(self)@, index as int, response@) == Err::<
                    Seq<i32>,
                    ErrorView,
                >(e@),
            },
    {
        proof {
            use_type_invariant(&*self);
        }
        if index >= self.series_links.len() {
            return Err(Error::IndexOutOfRange);
        }
        self.resolution = None;
        self.session = None;
        let page = match response.page() {
            Ok(page) => page,
            Err(e) => {
                return Err(e);
            },
        };
        match parse_episodes(page.as_str()) {
            Err(x) => Err(Error::Extraction(x)),
            Ok(episodes) => {
                let mut copy: Vec<i32> = Vec::new();
                let mut i: usize = 0;
                while i < episodes.len()
                    invariant
                        i <= episodes.len(),
                        copy@ == episodes@.take(i as int),
                    decreases episodes.len() - i,
                {
                    copy.push(episodes[i]);
                    assert(episodes@.take(i + 1) =~= episodes@.take(i as int).push(
                        episodes@[i as int],
                    ));
                    i += 1;
                }
                assert(copy@ =~= episodes@);
                self.session = Some(
                    SeriesSession {
                        reference: self.series_links[index].clone(),
                        episode_numbers: copy,
                    },
                );
                Ok(episodes)
            },
        }
    }

    fn settle(&mut self, step: (LinkResolver, ResolveAction)) -> (p: Progress)
        requires
            old(self)@.resolution is None,
        ensures
            (final(self)@, p@) == resolving(old(self)@, (step.0@, step.1@)),
    {
        proof {
            use_type_invariant(&*self);
        }
        let (resolver, action) = step;
        match resolver.result() {
            Some(result) => Progress::Done(result),
            None => {
                self.resolution = Some(resolver);
                Progress::Next(action)
            },
        }
    }

    /// Begins the resolution of the link of `episode` of the series
    /// selected, trying `providers` in their order and giving a browser
    /// session `timeout_ms` to see the media response.
    pub fn resolve_within(
        &mut self,
        episode: i32,
        providers: Vec<ProviderSpec>,
        timeout_ms: u64,
    ) -> (p: Progress)
        ensures
            (final(self)@, p@) == begin_resolution(
                old(self)@,
                episode,
                providers_view(providers@),
                timeout_ms,
            ),
    {
        proof {
            use_type_invariant(&*self);
        }
        self.resolution = None;
        let url = match &self.session {
            None => {
                return Progress::Done(Err(Error::NoActiveSeries));
            },
            Some(s) => episode_url(s.reference.as_str(), episode),
        };
        self.settle(LinkResolver::start(url, providers, timeout_ms))
    }

    /// Begins the resolution of the link of `episode` of the series
    /// selected, with the usual time for a browser session.
    pub fn resolve(&mut self, episode: i32, providers: Vec<ProviderSpec>) -> (p: Progress)
        ensures
            (final(self)@, p@) == begin_resolution(
                old(self)@,
                episode,
                providers_view(providers@),
                DEFAULT_TIMEOUT_MS,
            ),
    {
        self.resolve_within(episode, providers, DEFAULT_TIMEOUT_MS)
    }

    /// Takes what came of the last request of the resolution in and says
    /// how it goes on. A link that it ends with is absolute.
    pub fn resolve_step(&mut self, event: &ResolveEvent) -> (p: Progress)
        ensures
            (final(self)@, p@) == continue_resolution(old(self)@, event@),
            p matches Progress::Done(Ok(link)) ==> is_absolute(link@.url),
    {
        proof {
            use_type_invariant(&*self);
        }
        let mut taken: Option<LinkResolver> = None;
        core::mem::swap(&mut self.resolution, &mut taken);
        match taken {
            None => Progress::Done(Err(Error::NoActiveSeries)),
            Some(resolver) => {
                proof {
                    lemma_links_are_absolute(resolver@, event@);
                }
                self.settle(resolver.handle(event))
            },
        }
    }
}

/// Every entry of a page that the search accepts holds a reference.
pub proof fn lemma_entries_are_references(page: Seq<char>)
    ensures
        page_entries(page) matches Ok(entries) ==> forall|i: int|
            0 <= i < entries.len() ==> is_reference((#[trigger] entries[i]).reference),
{
    match page_entries(page) {
        Ok(entries) => {
            let blocks = crate::search::page_blocks(
                page,
                crate::search::BLOCK_SELECTOR@,
                crate::search::LINK_SELECTOR@,
                crate::search::LINK_ATTRIBUTE@,
                crate::search::HEADING_SELECTOR@,
            )->0;
            assert forall|i: int| 0 <= i < entries.len() implies is_reference(
                (#[trigger] entries[i]).reference,
            ) by {
                assert(crate::search::block_entry(blocks[i]) is Some);
            }
        },
        Err(_) => {},
    }
}

/// After the search of a page whose blocks are all well formed, there is
/// one entry for each block, in the order of the blocks, and the indices
/// that select a series are exactly those of the entries: any other fails
/// with `IndexOutOfRange`, and only such a one does.
pub proof fn lemma_search_then_select(
    m: PipelineModel,
    status: u16,
    page: Seq<char>,
    blocks: Seq<EntryBlockView>,
    index: int,
    answer: FetchedView,
)
    requires
        is_success(status),
        page_blocks(
            page,
            BLOCK_SELECTOR@,
            LINK_SELECTOR@,
            LINK_ATTRIBUTE@,
            HEADING_SELECTOR@,
        ) == Some(blocks),
        all_well_formed(blocks),
    ensures
        ({
            let found = FetchedView::Response { status, body: page };
            let after = after_search(m, found);
            &&& search_outcome(found) is Ok
            &&& search_outcome(found)->Ok_0.len() == blocks.len()
            &&& forall|i: int|
                0 <= i < blocks.len() ==> Some(#[trigger] search_outcome(found)->Ok_0[i])
                    == block_entry(blocks[i])
            &&& after.references.len() == blocks.len()
            &&& select_outcome(after, index, answer) == Err::<Seq<i32>, ErrorView>(
                ErrorView::IndexOutOfRange,
            ) <==> !(0 <= index < blocks.len())
            &&& 0 <= index < blocks.len() && fetched_page(answer) is Ok && page_episodes(
                fetched_page(answer)->Ok_0,
            ) is Ok ==> select_outcome(after, index, answer) is Ok
        }),
{
}

} // verus!
