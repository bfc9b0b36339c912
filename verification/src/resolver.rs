//! From an episode page to a playable link, provider by provider.
//!
//! The resolver tries the providers strictly in the order given. For each
//! it asks for the episode page, reads the provider's embed code from it
//! and, where the provider needs it, has a fresh browser session find the
//! media address behind the code. The first provider that yields an address
//! ends the resolution; a provider that fails only makes room for the next.
//! When none is left, the resolution fails with the last provider's error.

use vstd::prelude::*;

use crate::error::{Error, ErrorView, ProviderError, ProviderErrorView};
use crate::fetch::{provider_page, Fetched, FetchedView};
use crate::intercept::{
    session_step, BrowserInterceptSession, InterceptOutcome, OutcomeView, PhaseModel,
    SessionAction, SessionActionView, SessionEvent, SessionEventView, SessionModel,
};
use crate::provider::{extract_code, provider_value, ProviderSpec, ProviderSpecView};
use crate::resolution::{consistent, lemma_start_is_consistent, lemma_step_is_consistent};
use crate::site::{absolute, absolute_url, lemma_absolute_is_absolute};
use crate::text::{chars_of, string_of};

verus! {

/// A playable address and the provider that gave it.
#[derive(Debug, Clone, PartialEq, Eq)]
pub struct ResolvedLink {
    pub url: String,
    pub provider: String,
}

/// A [`ResolvedLink`] as the contracts see it.
pub struct LinkView {
    pub url: Seq<char>,
    pub provider: Seq<char>,
}

impl View for ResolvedLink {
    type V = LinkView;

    open spec fn view(&self) -> LinkView {
        LinkView { url: self.url@, provider: self.provider@ }
    }
}

impl ResolvedLink {
    /// A copy of this link.
    pub fn duplicate(&self) -> (r: ResolvedLink)
        ensures
            r@ == self@,
    {
        ResolvedLink { url: self.url.clone(), provider: self.provider.clone() }
    }
}

/// What the driver reports to the resolver.
#[derive(Debug, Clone, PartialEq, Eq)]
pub enum ResolveEvent {
    /// The answer to the last `Fetch`.
    Page(Fetched),
    /// What happened in the browser.
    Browser(SessionEvent),
}

/// A [`ResolveEvent`] as the contracts see it.
pub enum ResolveEventView {
    Page(FetchedView),
    Browser(SessionEventView),
}

impl View for ResolveEvent {
    type V = ResolveEventView;

    open spec fn view(&self) -> ResolveEventView {
        match self {
            ResolveEvent::Page(f) => ResolveEventView::Page(f@),
            ResolveEvent::Browser(e) => ResolveEventView::Browser(e@),
        }
    }
}

/// What the resolver asks of its driver.
#[derive(Debug, Clone, PartialEq, Eq)]
pub enum ResolveAction {
    /// Get the page at this address and report it.
    Fetch(String),
    /// Do this with the browser of the current session.
    Browser(SessionAction),
    /// The resolution is over; its result can be taken.
    Finished,
    /// The event changed nothing: go on with what was asked before.
    Ignored,
}

/// A [`ResolveAction`] as the contracts see it.
pub enum ResolveActionView {
    Fetch(Seq<char>),
    Browser(SessionActionView),
    Finished,
    Ignored,
}

impl View for ResolveAction {
    type V = ResolveActionView;

    open spec fn view(&self) -> ResolveActionView {
        match self {
            ResolveAction::Fetch(url) => ResolveActionView::Fetch(url@),
            ResolveAction::Browser(a) => ResolveActionView::Browser(a@),
            ResolveAction::Finished => ResolveActionView::Finished,
            ResolveAction::Ignored => ResolveActionView::Ignored,
        }
    }
}

/// What the resolver is waiting for.
#[derive(Debug)]
pub enum ResolveStage {
    /// The episode page, for the current provider.
    Fetching,
    /// The browser session of the current provider.
    Intercepting(BrowserInterceptSession),
    /// Nothing: this is the result.
    Finished(Result<ResolvedLink, Error>),
}

/// A [`ResolveStage`] as the contracts see it.
pub enum StageModel {
    Fetching,
    Intercepting(SessionModel),
    Finished(Result<LinkView, ErrorView>),
}

/// A result as the contracts see it.
pub open spec fn result_view(r: Result<ResolvedLink, Error>) -> Result<LinkView, ErrorView> {
    match r {
        Ok(link) => Ok(link@),
        Err(e) => Err(e@),
    }
}

impl View for ResolveStage {
    type V = StageModel;

    open spec fn view(&self) -> StageModel {
        match self {
            ResolveStage::Fetching => StageModel::Fetching,
            ResolveStage::Intercepting(s) => StageModel::Intercepting(s@),
            ResolveStage::Finished(r) => StageModel::Finished(result_view(*r)),
        }
    }
}

/// A resolution as the contracts see it.
pub struct ResolverModel {
    /// The address of the episode page.
    pub page_url: Seq<char>,
    pub providers: Seq<ProviderSpecView>,
    pub timeout_ms: u64,
    /// The provider being tried, or the one that ended the resolution.
    pub index: nat,
    /// The failures of the providers tried so far, in their order.
    pub failures: Seq<ProviderErrorView>,
    pub stage: StageModel,
}

/// The resolution of the link of one episode.
#[derive(Debug)]
pub struct LinkResolver {
    page_url: String,
    providers: Vec<ProviderSpec>,
    timeout_ms: u64,
    index: usize,
    failures: Vec<ProviderError>,
    stage: ResolveStage,
}

/// The providers as the contracts see them, in their order.
pub open spec fn providers_view(providers: Seq<ProviderSpec>) -> Seq<ProviderSpecView> {
    providers.map_values(|p: ProviderSpec| p@)
}

/// The failures as the contracts see them, in their order.
pub open spec fn failures_view(failures: Seq<ProviderError>) -> Seq<ProviderErrorView> {
    failures.map_values(|e: ProviderError| e@)
}

impl View for LinkResolver {
    type V = ResolverModel;

    closed spec fn view(&self) -> ResolverModel {
        ResolverModel {
            page_url: self.page_url@,
            providers: providers_view(self.providers@),
            timeout_ms: self.timeout_ms,
            index: self.index as nat,
            failures: failures_view(self.failures@),
            stage: self.stage@,
        }
    }
}

/// What a provider makes of the answer to its request: the address in its
/// embed code, made absolute, or its failure.
pub open spec fn attempt(p: ProviderSpecView, f: FetchedView) -> Result<
    Seq<char>,
    ProviderErrorView,
> {
    match provider_page(f) {
        Err(e) => Err(e),
        Ok(body) => match provider_value(body, p.code) {
            Ok(value) => Ok(absolute(value)),
            Err(x) => Err(ProviderErrorView::Extraction(x)),
        },
    }
}

/// The resolution after the current provider failed with `e`: on to the
/// next provider and a new request for the page, or over where none is left.
pub open spec fn fail(m: ResolverModel, e: ProviderErrorView) -> (
    ResolverModel,
    ResolveActionView,
) {
    let failures = m.failures.push(e);
    if m.index + 1 < m.providers.len() {
        (
            ResolverModel { index: m.index + 1, failures, stage: StageModel::Fetching, ..m },
            ResolveActionView::Fetch(m.page_url),
        )
    } else {
        (
            ResolverModel {
                failures,
                stage: StageModel::Finished(Err(ErrorView::NoProviderSucceeded(Some(e)))),
                ..m
            },
            ResolveActionView::Finished,
        )
    }
}

/// The resolution after the current provider gave `url`: over.
pub open spec fn succeed(m: ResolverModel, url: Seq<char>) -> (ResolverModel, ResolveActionView) {
    (
        ResolverModel {
            stage: StageModel::Finished(
                Ok(LinkView { url: absolute(url), provider: m.providers[m.index as int].code }),
            ),
            ..m
        },
        ResolveActionView::Finished,
    )
}

/// The fresh session for a candidate address, already asked to run.
pub open spec fn opened_session(
    candidate: Seq<char>,
    marker: Option<Seq<char>>,
    timeout_ms: u64,
) -> SessionModel {
    SessionModel { candidate, marker, timeout_ms, phase: PhaseModel::Launching }
}

/// The failure that a session's outcome means for its provider.
pub open spec fn outcome_failure(o: OutcomeView) -> ProviderErrorView {
    match o {
        OutcomeView::TimedOut => ProviderErrorView::TimedOut,
        OutcomeView::NavigationFailed => ProviderErrorView::NavigationFailed,
        _ => ProviderErrorView::LaunchFailed,
    }
}

/// The resolution at its start, and what it asks for first.
pub open spec fn resolver_start(
    page_url: Seq<char>,
    providers: Seq<ProviderSpecView>,
    timeout_ms: u64,
) -> (ResolverModel, ResolveActionView) {
    let m = ResolverModel {
        page_url,
        providers,
        timeout_ms,
        index: 0,
        failures: Seq::empty(),
        stage: StageModel::Fetching,
    };
    if providers.len() == 0 {
        (
            ResolverModel {
                stage: StageModel::Finished(Err(ErrorView::NoProviderSucceeded(None))),
                ..m
            },
            ResolveActionView::Finished,
        )
    } else {
        (m, ResolveActionView::Fetch(page_url))
    }
}

/// The resolution after an event, and what it asks for next.
pub open spec fn resolver_step(m: ResolverModel, e: ResolveEventView) -> (
    ResolverModel,
    ResolveActionView,
) {
    match (m.stage, e) {
        (StageModel::Fetching, ResolveEventView::Page(f)) => {
            let p = m.providers[m.index as int];
            match attempt(p, f) {
                Err(x) => fail(m, x),
                Ok(url) => if p.requires_intercept {
                    (
                        ResolverModel {
                            stage: StageModel::Intercepting(
                                opened_session(url, p.intercept_target_marker, m.timeout_ms),
                            ),
                            ..m
                        },
                        ResolveActionView::Browser(SessionActionView::Launch),
                    )
                } else {
                    succeed(m, url)
                },
            }
        },
        (StageModel::Intercepting(s), ResolveEventView::Browser(b)) => {
            let (next, action) = session_step(s, b);
            match next.phase {
                PhaseModel::Closed(OutcomeView::Matched(url)) => succeed(m, url),
                PhaseModel::Closed(o) => fail(m, outcome_failure(o)),
                _ => (
                    ResolverModel { stage: StageModel::Intercepting(next), ..m },
                    ResolveActionView::Browser(action),
                ),
            }
        },
        (StageModel::Finished(_), _) => (m, ResolveActionView::Finished),
        _ => (m, ResolveActionView::Ignored),
    }
}

impl LinkResolver {
    /// A resolution is consistent at every moment.
    #[verifier::type_invariant]
    spec fn is_consistent(self) -> bool {
        consistent(self@)
    }

    /// Starts the resolution of the episode whose page is at `page_url`,
    /// with the providers in the order in which they are to be tried.
    pub fn start(page_url: String, providers: Vec<ProviderSpec>, timeout_ms: u64) -> (r: (
        LinkResolver,
        ResolveAction,
    ))
        ensures
            (r.0@, r.1@) == resolver_start(page_url@, providers_view(providers@), timeout_ms),
            consistent(r.0@),
    {
        proof {
            lemma_start_is_consistent(page_url@, providers_view(providers@), timeout_ms);
        }
        let failures: Vec<ProviderError> = Vec::new();
        assert(failures_view(failures@) =~= Seq::<ProviderErrorView>::empty());
        if providers.len() == 0 {
            (
                LinkResolver {
                    page_url,
                    providers,
                    timeout_ms,
                    index: 0,
                    failures,
                    stage: ResolveStage::Finished(Err(Error::NoProviderSucceeded(None))),
                },
                ResolveAction::Finished,
            )
        } else {
            let first = ResolveAction::Fetch(page_url.clone());
            (
                LinkResolver {
                    page_url,
                    providers,
                    timeout_ms,
                    index: 0,
                    failures,
                    stage: ResolveStage::Fetching,
                },
                first,
            )
        }
    }

    /// The result, once the resolution is over.
    pub fn result(&self) -> (r: Option<Result<ResolvedLink, Error>>)
        ensures
            match r {
                Some(res) => self@.stage == StageModel::Finished(result_view(res)),
                None => !(self@.stage is Finished),
            },
            consistent(self@),
    {
        proof {
            use_type_invariant(self);
        }
        match &self.stage {
            ResolveStage::Finished(Ok(link)) => Some(Ok(link.duplicate())),
            ResolveStage::Finished(Err(e)) => Some(Err(e.duplicate())),
            _ => None,
        }
    }

    /// How many providers have failed so far.
    pub fn failed(&self) -> (n: usize)
        ensures
            n == self@.failures.len(),
    {
        self.failures.len()
    }

    /// The position of the provider being tried, or of the one that ended
    /// the resolution.
    pub fn current(&self) -> (i: usize)
        ensures
            i == self@.index,
    {
        self.index
    }

    fn fail(self, e: ProviderError) -> (r: (LinkResolver, ResolveAction))
        requires
            !(self@.stage is Finished),
        ensures
            (r.0@, r.1@) == fail(self@, e@),
    {
        proof {
            use_type_invariant(&self);
        }
        let LinkResolver { page_url, providers, timeout_ms, index, mut failures, stage } = self;
        let ghost before = failures_view(failures@);
        let last = e.duplicate();
        failures.push(e);
        assert(failures_view(failures@) =~= before.push(last@));
        if index < providers.len() && index + 1 < providers.len() {
            let action = ResolveAction::Fetch(page_url.clone());
            (
                LinkResolver {
                    page_url,
                    providers,
                    timeout_ms,
                    index: index + 1,
                    failures,
                    stage: ResolveStage::Fetching,
                },
                action,
            )
        } else {
            (
                LinkResolver {
                    page_url,
                    providers,
                    timeout_ms,
                    index,
                    failures,
                    stage: ResolveStage::Finished(Err(Error::NoProviderSucceeded(Some(last)))),
                },
                ResolveAction::Finished,
            )
        }
    }

    fn succeed(self, url: &[char]) -> (r: (LinkResolver, ResolveAction))
        requires
            !(self@.stage is Finished),
        ensures
            (r.0@, r.1@) == succeed(self@, url@),
    {
        proof {
            use_type_invariant(&self);
        }
        let LinkResolver { page_url, providers, timeout_ms, index, failures, stage } = self;
        let address = absolute_url(url);
        let link = ResolvedLink {
            url: string_of(address.as_slice()),
            provider: providers[index].code.clone(),
        };
        (
            LinkResolver {
                page_url,
                providers,
                timeout_ms,
                index,
                failures,
                stage: ResolveStage::Finished(Ok(link)),
            },
            ResolveAction::Finished,
        )
    }

    fn with_stage(self, next: ResolveStage) -> (r: LinkResolver)
        requires
            consistent((ResolverModel { stage: next@, ..self@ })),
        ensures
            r@ == (ResolverModel { stage: next@, ..self@ }),
    {
        let LinkResolver { page_url, providers, timeout_ms, index, failures, stage } = self;
        LinkResolver { page_url, providers, timeout_ms, index, failures, stage: next }
    }

    fn on_page(self, fetched: &Fetched) -> (r: (LinkResolver, ResolveAction))
        requires
            self@.stage is Fetching,
        ensures
            (r.0@, r.1@) == resolver_step(self@, ResolveEventView::Page(fetched@)),
    {
        proof {
            use_type_invariant(&self);
        }
        let body = match fetched.provider_page() {
            Ok(body) => body,
            Err(e) => {
                return self.fail(e);
            },
        };
        let code = chars_of(self.providers[self.index].code.as_str());
        let value = match extract_code(chars_of(body.as_str()).as_slice(), code.as_slice()) {
            Ok(value) => value,
            Err(x) => {
                return self.fail(ProviderError::Extraction(x));
            },
        };
        let candidate = absolute_url(value.as_slice());
        if self.providers[self.index].requires_intercept {
            let marker = match &self.providers[self.index].intercept_target_marker {
                Some(m) => Some(m.clone()),
                None => None,
            };
            let mut session = BrowserInterceptSession::new(
                string_of(candidate.as_slice()),
                marker,
                self.timeout_ms,
            );
            let first = session.handle(&SessionEvent::Start);
            (self.with_stage(ResolveStage::Intercepting(session)), ResolveAction::Browser(first))
        } else {
            proof {
                lemma_absolute_is_absolute(absolute(value@));
            }
            self.succeed(candidate.as_slice())
        }
    }

    fn on_browser(self, event: &SessionEvent) -> (r: (LinkResolver, ResolveAction))
        requires
            self@.stage is Intercepting,
        ensures
            (r.0@, r.1@) == resolver_step(self@, ResolveEventView::Browser(event@)),
    {
        proof {
            use_type_invariant(&self);
        }
        let LinkResolver { page_url, providers, timeout_ms, index, failures, stage } = self;
        let mut session = match stage {
            ResolveStage::Intercepting(session) => session,
            _ => vstd::pervasive::unreached(),
        };
        let action = session.handle(event);
        let outcome = session.outcome();
        let resolver = LinkResolver {
            page_url,
            providers,
            timeout_ms,
            index,
            failures,
            stage: ResolveStage::Intercepting(session),
        };
        match outcome {
            Some(InterceptOutcome::Matched(url)) => resolver.succeed(
                chars_of(url.as_str()).as_slice(),
            ),
            Some(InterceptOutcome::TimedOut) => resolver.fail(ProviderError::TimedOut),
            Some(InterceptOutcome::NavigationFailed) => resolver.fail(
                ProviderError::NavigationFailed,
            ),
            Some(InterceptOutcome::LaunchFailed) => resolver.fail(ProviderError::LaunchFailed),
            None => (resolver, ResolveAction::Browser(action)),
        }
    }

    /// Takes an event in; gives the resolution after it and what to do next.
    pub fn handle(self, event: &ResolveEvent) -> (r: (LinkResolver, ResolveAction))
        ensures
            (r.0@, r.1@) == resolver_step(self@, event@),
            consistent(r.0@),
    {
        proof {
            use_type_invariant(&self);
            lemma_step_is_consistent(self@, event@);
        }
        match (&self.stage, event) {
            (ResolveStage::Fetching, ResolveEvent::Page(fetched)) => self.on_page(fetched),
            (ResolveStage::Intercepting(_), ResolveEvent::Browser(b)) => self.on_browser(b),
            (ResolveStage::Finished(_), _) => (self, ResolveAction::Finished),
            _ => (self, ResolveAction::Ignored),
        }
    }
}

} // verus!
