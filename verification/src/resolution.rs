//! What holds of every resolution, whatever the site and the browser answer.

use vstd::prelude::*;

use crate::error::{ErrorView, ProviderErrorView};
use crate::fetch::FetchedView;
use crate::intercept::{
    session_run, session_step, OutcomeView, PhaseModel, SessionEventView, SessionModel,
};
use crate::resolver::{
    attempt, fail, opened_session, outcome_failure, resolver_start, resolver_step, succeed,
    LinkView, ResolveActionView, ResolveEventView, ResolverModel, StageModel,
};
use crate::provider::ProviderSpecView;
use crate::site::{absolute, is_absolute, lemma_absolute_is_absolute};

verus! {

/// The error of a resolution in which every provider failed: it holds the
/// failure of the last one.
pub open spec fn exhausted(failures: Seq<ProviderErrorView>) -> ErrorView {
    if failures.len() == 0 {
        ErrorView::NoProviderSucceeded(None)
    } else {
        ErrorView::NoProviderSucceeded(Some(failures.last()))
    }
}

/// What holds of a resolution at every moment.
///
/// While it runs, the providers before the current one, and only they, have
/// failed, and a browser session is alive only for a provider that needs
/// one, on an absolute address and with that provider's marker. Once it has
/// succeeded, the link is absolute and is the current provider's, and no
/// provider after that one was tried. Once it has failed, every provider
/// has failed, and the error holds the failure of the last.
pub open spec fn consistent(m: ResolverModel) -> bool {
    match m.stage {
        StageModel::Fetching => m.index < m.providers.len() && m.failures.len() == m.index,
        StageModel::Intercepting(s) => {
            &&& m.index < m.providers.len()
            &&& m.failures.len() == m.index
            &&& m.providers[m.index as int].requires_intercept
            &&& s.marker == m.providers[m.index as int].intercept_target_marker
            &&& s.timeout_ms == m.timeout_ms
            &&& is_absolute(s.candidate)
        },
        StageModel::Finished(Ok(link)) => {
            &&& m.index < m.providers.len()
            &&& m.failures.len() == m.index
            &&& link.provider == m.providers[m.index as int].code
            &&& is_absolute(link.url)
        },
        StageModel::Finished(Err(e)) => {
            &&& m.failures.len() == m.providers.len()
            &&& m.index + 1 == m.providers.len() || (m.index == 0 && m.providers.len() == 0)
            &&& e == exhausted(m.failures)
        },
    }
}

/// A resolution starts consistent.
pub proof fn lemma_start_is_consistent(
    page_url: Seq<char>,
    providers: Seq<ProviderSpecView>,
    timeout_ms: u64,
)
    ensures
        consistent(resolver_start(page_url, providers, timeout_ms).0),
{
}

/// No event makes a consistent resolution inconsistent.
pub proof fn lemma_step_is_consistent(m: ResolverModel, e: ResolveEventView)
    requires
        consistent(m),
    ensures
        consistent(resolver_step(m, e).0),
{
    match (m.stage, e) {
        (StageModel::Fetching, ResolveEventView::Page(f)) => {
            match attempt(m.providers[m.index as int], f) {
                Ok(url) => {
                    lemma_attempt_is_absolute(m.providers[m.index as int], f);
                    lemma_absolute_is_absolute(url);
                },
                Err(_) => {},
            }
        },
        (StageModel::Intercepting(s), ResolveEventView::Browser(b)) => {
            let next = session_step(s, b).0;
            match next.phase {
                PhaseModel::Closed(OutcomeView::Matched(url)) => {
                    lemma_absolute_is_absolute(url);
                },
                _ => {},
            }
        },
        _ => {},
    }
}

/// The address that a provider's attempt yields is absolute.
pub proof fn lemma_attempt_is_absolute(p: ProviderSpecView, f: FetchedView)
    ensures
        attempt(p, f) matches Ok(url) ==> is_absolute(url),
{
    match crate::fetch::provider_page(f) {
        Ok(body) => match crate::provider::provider_value(body, p.code) {
            Ok(value) => lemma_absolute_is_absolute(value),
            Err(_) => {},
        },
        Err(_) => {},
    }
}

/// Every link is absolute: a resolution that succeeds does so with a link
/// whose address has a scheme.
pub proof fn lemma_links_are_absolute(m: ResolverModel, e: ResolveEventView)
    requires
        !(m.stage is Finished),
    ensures
        resolver_step(m, e).0.stage matches StageModel::Finished(Ok(link)) ==> is_absolute(
            link.url,
        ),
{
    match (m.stage, e) {
        (StageModel::Fetching, ResolveEventView::Page(f)) => {
            match attempt(m.providers[m.index as int], f) {
                Ok(url) => lemma_absolute_is_absolute(url),
                Err(_) => {},
            }
        },
        (StageModel::Intercepting(s), ResolveEventView::Browser(b)) => {
            match session_step(s, b).0.phase {
                PhaseModel::Closed(OutcomeView::Matched(url)) => {
                    lemma_absolute_is_absolute(url);
                },
                _ => {},
            }
        },
        _ => {},
    }
}

/// A resolution that is over stays as it is: it asks for no page and for no
/// browser again, so no provider after the one that ended it is ever tried.
pub proof fn lemma_finished_is_final(m: ResolverModel, e: ResolveEventView)
    requires
        m.stage is Finished,
    ensures
        resolver_step(m, e) == (m, ResolveActionView::Finished),
{
}

/// The first success ends the resolution: where the current provider needs
/// no browser and its page yields an address, the result is that address
/// under that provider's name.
pub proof fn lemma_success_ends(m: ResolverModel, f: FetchedView)
    requires
        m.stage is Fetching,
        attempt(m.providers[m.index as int], f) is Ok,
        !m.providers[m.index as int].requires_intercept,
    ensures
        resolver_step(m, ResolveEventView::Page(f)).0 == (ResolverModel {
            stage: StageModel::Finished(
                Ok(
                    LinkView {
                        url: attempt(m.providers[m.index as int], f)->Ok_0,
                        provider: m.providers[m.index as int].code,
                    },
                ),
            ),
            ..m
        }),
{
    lemma_attempt_is_absolute(m.providers[m.index as int], f);
    lemma_absolute_is_absolute(attempt(m.providers[m.index as int], f)->Ok_0);
}

/// A failure only makes room for the next provider; the failure of the last
/// provider fails the resolution, which then holds that failure.
pub proof fn lemma_failure_moves_on(m: ResolverModel, f: FetchedView)
    requires
        m.stage is Fetching,
        attempt(m.providers[m.index as int], f) is Err,
    ensures
        ({
            let e = attempt(m.providers[m.index as int], f)->Err_0;
            let after = resolver_step(m, ResolveEventView::Page(f));
            if m.index + 1 < m.providers.len() {
                &&& after.0.stage is Fetching
                &&& after.0.index == m.index + 1
                &&& after.0.failures == m.failures.push(e)
                &&& after.1 == ResolveActionView::Fetch(m.page_url)
            } else {
                &&& after.0.stage == StageModel::Finished(
                    Err::<LinkView, ErrorView>(ErrorView::NoProviderSucceeded(Some(e))),
                )
                &&& after.0.failures == m.failures.push(e)
                &&& after.1 == ResolveActionView::Finished
            }
        }),
{
}

/// A browser session that ends without a match is its provider's failure,
/// and like any other only makes room for the next provider.
pub proof fn lemma_session_failure_moves_on(m: ResolverModel, b: SessionEventView)
    requires
        m.stage is Intercepting,
        session_step(m.stage->Intercepting_0, b).0.phase is Closed,
        !(session_step(m.stage->Intercepting_0, b).0.phase->Closed_0 is Matched),
    ensures
        resolver_step(m, ResolveEventView::Browser(b)) == fail(
            m,
            outcome_failure(
                session_step(m.stage->Intercepting_0, b).0.phase->Closed_0,
            ),
        ),
{
}

/// The resolution after a run of events.
pub open spec fn resolver_run(m: ResolverModel, events: Seq<ResolveEventView>) -> ResolverModel
    decreases events.len(),
{
    if events.len() == 0 {
        m
    } else {
        resolver_run(resolver_step(m, events[0]).0, events.drop_first())
    }
}

/// A run of events in two parts is the run of the second part after the first.
pub proof fn lemma_run_concat(m: ResolverModel, a: Seq<ResolveEventView>, b: Seq<ResolveEventView>)
    ensures
        resolver_run(m, a + b) == resolver_run(resolver_run(m, a), b),
    decreases a.len(),
{
    if a.len() == 0 {
        assert(a + b =~= b);
    } else {
        assert((a + b)[0] == a[0]);
        assert((a + b).drop_first() =~= a.drop_first() + b);
        lemma_run_concat(resolver_step(m, a[0]).0, a.drop_first(), b);
    }
}

/// What the outside does for one provider: the page it answers with, and
/// what then happens in the browser, if the provider gets that far.
pub struct Attempt {
    pub page: FetchedView,
    pub browser: Seq<SessionEventView>,
}

/// What happens in the browser, as the events that report it.
pub open spec fn browser_events(happenings: Seq<SessionEventView>) -> Seq<ResolveEventView> {
    happenings.map_values(|b: SessionEventView| ResolveEventView::Browser(b))
}

/// The events of one attempt, in their order.
pub open spec fn attempt_events(a: Attempt) -> Seq<ResolveEventView> {
    seq![ResolveEventView::Page(a.page)] + browser_events(a.browser)
}

/// The events of the attempts, one attempt after the other.
pub open spec fn attempts_events(attempts: Seq<Attempt>) -> Seq<ResolveEventView>
    decreases attempts.len(),
{
    if attempts.len() == 0 {
        Seq::empty()
    } else {
        attempt_events(attempts[0]) + attempts_events(attempts.drop_first())
    }
}

/// How an attempt ends for a provider: with the address of the link, or
/// with the provider's failure. A provider that needs the browser ends with
/// the outcome of its session; `None` where the browser leaves the session
/// open.
pub open spec fn attempt_end(p: ProviderSpecView, a: Attempt, timeout_ms: u64) -> Option<
    Result<Seq<char>, ProviderErrorView>,
> {
    match attempt(p, a.page) {
        Err(e) => Some(Err(e)),
        Ok(url) => if !p.requires_intercept {
            Some(Ok(url))
        } else {
            match session_run(
                opened_session(url, p.intercept_target_marker, timeout_ms),
                a.browser,
            ).phase {
                PhaseModel::Closed(OutcomeView::Matched(found)) => Some(Ok(absolute(found))),
                PhaseModel::Closed(o) => Some(Err(outcome_failure(o))),
                _ => None,
            }
        },
    }
}

/// The resolution once the current provider has ended its attempt.
pub open spec fn after_attempt(
    m: ResolverModel,
    end: Result<Seq<char>, ProviderErrorView>,
) -> ResolverModel {
    match end {
        Ok(url) => succeed(m, url).0,
        Err(e) => fail(m, e).0,
    }
}

proof fn lemma_browser_is_ignored(m: ResolverModel, happenings: Seq<SessionEventView>)
    requires
        m.stage is Fetching || m.stage is Finished,
    ensures
        resolver_run(m, browser_events(happenings)) == m,
    decreases happenings.len(),
{
    if happenings.len() > 0 {
        assert(browser_events(happenings).drop_first() =~= browser_events(
            happenings.drop_first(),
        ));
        lemma_browser_is_ignored(m, happenings.drop_first());
    }
}

proof fn lemma_closed_stays_closed(s: SessionModel, happenings: Seq<SessionEventView>)
    requires
        s.phase is Closed,
    ensures
        session_run(s, happenings).phase == s.phase,
    decreases happenings.len(),
{
    if happenings.len() > 0 {
        lemma_closed_stays_closed(session_step(s, happenings[0]).0, happenings.drop_first());
    }
}

proof fn lemma_session_ends_attempt(m: ResolverModel, happenings: Seq<SessionEventView>)
    requires
        m.stage is Intercepting,
        !(m.stage->Intercepting_0.phase is Closed),
        session_run(m.stage->Intercepting_0, happenings).phase is Closed,
    ensures
        resolver_run(m, browser_events(happenings)) == (match session_run(
            m.stage->Intercepting_0,
            happenings,
        ).phase->Closed_0 {
            OutcomeView::Matched(found) => succeed(m, found).0,
            o => fail(m, outcome_failure(o)).0,
        }),
    decreases happenings.len(),
{
    let s = m.stage->Intercepting_0;
    if happenings.len() > 0 {
        let rest = happenings.drop_first();
        assert(browser_events(happenings).drop_first() =~= browser_events(rest));
        let next = session_step(s, happenings[0]).0;
        let after = resolver_step(m, ResolveEventView::Browser(happenings[0])).0;
        if next.phase is Closed {
            lemma_closed_stays_closed(next, rest);
            lemma_browser_is_ignored(after, rest);
        } else {
            lemma_session_ends_attempt(after, rest);
        }
    }
}

/// One attempt takes the resolution to where its end says: on a link to
/// its result, on a failure to the next provider or to the failure of the
/// whole.
pub proof fn lemma_attempt(m: ResolverModel, a: Attempt)
    requires
        m.stage is Fetching,
        attempt_end(m.providers[m.index as int], a, m.timeout_ms) is Some,
    ensures
        resolver_run(m, attempt_events(a)) == after_attempt(
            m,
            attempt_end(m.providers[m.index as int], a, m.timeout_ms)->0,
        ),
{
    let p = m.providers[m.index as int];
    let first = seq![ResolveEventView::Page(a.page)];
    let after = resolver_step(m, ResolveEventView::Page(a.page)).0;
    assert(resolver_run(m, first) == after) by {
        assert(first.drop_first().len() == 0);
        assert(resolver_run(after, first.drop_first()) == after);
    }
    lemma_run_concat(m, first, browser_events(a.browser));
    match attempt(p, a.page) {
        Err(e) => {
            lemma_browser_is_ignored(after, a.browser);
        },
        Ok(url) => {
            lemma_attempt_is_absolute(p, a.page);
            lemma_absolute_is_absolute(url);
            if !p.requires_intercept {
                lemma_browser_is_ignored(after, a.browser);
            } else {
                lemma_session_ends_attempt(after, a.browser);
                match session_run(after.stage->Intercepting_0, a.browser).phase->Closed_0 {
                    OutcomeView::Matched(found) => {
                        lemma_absolute_is_absolute(found);
                        lemma_absolute_is_absolute(absolute(found));
                    },
                    _ => {},
                }
            }
        },
    }
}

/// The failures with which the attempts end, for the providers from `from`
/// on.
pub open spec fn attempt_failures(
    providers: Seq<ProviderSpecView>,
    from: int,
    attempts: Seq<Attempt>,
    timeout_ms: u64,
) -> Seq<ProviderErrorView> {
    Seq::new(
        attempts.len(),
        |j: int| attempt_end(providers[from + j], attempts[j], timeout_ms)->0->Err_0,
    )
}

/// The attempt of the provider at `index` ends with a failure.
pub open spec fn fails(m: ResolverModel, index: int, a: Attempt) -> bool {
    attempt_end(m.providers[index], a, m.timeout_ms) matches Some(Err(_))
}

/// A run of attempts, each of which ends with its provider's failure: the
/// resolution is at the provider after them, or has failed with the last
/// failure where they were all that there are.
pub proof fn lemma_failures_in_a_row(m: ResolverModel, attempts: Seq<Attempt>)
    requires
        m.stage is Fetching,
        m.index + attempts.len() <= m.providers.len(),
        forall|j: int| 0 <= j < attempts.len() ==> fails(m, m.index + j, #[trigger] attempts[j]),
    ensures
        ({
            let after = resolver_run(m, attempts_events(attempts));
            let failures = m.failures + attempt_failures(
                m.providers,
                m.index as int,
                attempts,
                m.timeout_ms,
            );
            if m.index + attempts.len() < m.providers.len() || attempts.len() == 0 {
                after == (ResolverModel { index: m.index + attempts.len(), failures, ..m })
            } else {
                after == (ResolverModel {
                    index: (m.providers.len() - 1) as nat,
                    failures,
                    stage: StageModel::Finished(
                        Err(ErrorView::NoProviderSucceeded(Some(failures.last()))),
                    ),
                    ..m
                })
            }
        }),
    decreases attempts.len(),
{
    let here = attempt_failures(m.providers, m.index as int, attempts, m.timeout_ms);
    if attempts.len() == 0 {
        assert(m.failures + here =~= m.failures);
    } else {
        let rest = attempts.drop_first();
        assert(fails(m, m.index + 0int, attempts[0]));
        lemma_attempt(m, attempts[0]);
        lemma_run_concat(m, attempt_events(attempts[0]), attempts_events(rest));
        let e = attempt_end(m.providers[m.index as int], attempts[0], m.timeout_ms)->0->Err_0;
        let next = fail(m, e).0;
        let there = attempt_failures(m.providers, m.index + 1int, rest, m.timeout_ms);
        if m.index + 1 < m.providers.len() {
            assert forall|j: int| 0 <= j < rest.len() implies fails(
                next,
                next.index + j,
                #[trigger] rest[j],
            ) by {
                assert(rest[j] == attempts[j + 1]);
                assert(fails(m, m.index + (j + 1), attempts[j + 1]));
            }
            lemma_failures_in_a_row(next, rest);
            assert(next.failures + there =~= m.failures + here);
        } else {
            assert(rest.len() == 0);
            assert(attempts_events(rest) =~= Seq::<ResolveEventView>::empty());
            assert(resolver_run(next, attempts_events(rest)) == next);
            assert(m.failures.push(e) =~= m.failures + here);
        }
    }
}

/// The resolution returns at the first success. Where the attempts of the
/// providers before the `k`-th end with failures and the `k`-th ends with an
/// address, the result is that address under the `k`-th provider's name,
/// and no provider after the `k`-th is tried.
pub proof fn lemma_first_success_wins(
    page_url: Seq<char>,
    providers: Seq<ProviderSpecView>,
    timeout_ms: u64,
    attempts: Seq<Attempt>,
    k: int,
)
    requires
        0 <= k < providers.len(),
        attempts.len() == k + 1,
        forall|j: int|
            0 <= j < k ==> (#[trigger] attempt_end(providers[j], attempts[j], timeout_ms))
                matches Some(Err(_)),
        attempt_end(providers[k], attempts[k], timeout_ms) matches Some(Ok(_)),
    ensures
        ({
            let end = resolver_run(
                resolver_start(page_url, providers, timeout_ms).0,
                attempts_events(attempts),
            );
            &&& end.stage == StageModel::Finished(
                Ok::<LinkView, ErrorView>(
                    LinkView {
                        url: attempt_end(providers[k], attempts[k], timeout_ms)->0->Ok_0,
                        provider: providers[k].code,
                    },
                ),
            )
            &&& end.index == k
            &&& end.failures.len() == k
        }),
{
    let start = resolver_start(page_url, providers, timeout_ms).0;
    let before = attempts.take(k);
    let last = seq![attempts[k]];
    assert(attempts =~= before + last);
    lemma_attempts_concat(before, last);
    assert forall|j: int| 0 <= j < before.len() implies fails(
        start,
        start.index + j,
        #[trigger] before[j],
    ) by {
        assert(before[j] == attempts[j]);
        assert(attempt_end(providers[j], attempts[j], timeout_ms) matches Some(Err(_)));
    }
    lemma_failures_in_a_row(start, before);
    lemma_run_concat(start, attempts_events(before), attempts_events(last));
    let middle = resolver_run(start, attempts_events(before));
    lemma_attempt(middle, attempts[k]);
    assert(attempts_events(last) =~= attempt_events(attempts[k])) by {
        assert(last.drop_first().len() == 0);
        assert(attempts_events(last.drop_first()) =~= Seq::<ResolveEventView>::empty());
    }
    let url = attempt_end(providers[k], attempts[k], timeout_ms)->0->Ok_0;
    assert(is_absolute(url)) by {
        lemma_attempt_is_absolute(providers[k], attempts[k].page);
        match attempt(providers[k], attempts[k].page) {
            Ok(candidate) => if providers[k].requires_intercept {
                match session_run(
                    opened_session(candidate, providers[k].intercept_target_marker, timeout_ms),
                    attempts[k].browser,
                ).phase {
                    PhaseModel::Closed(OutcomeView::Matched(found)) => {
                        lemma_absolute_is_absolute(found);
                    },
                    _ => {},
                }
            },
            Err(_) => {},
        }
    }
    lemma_absolute_is_absolute(url);
}

/// The events of attempts in two parts are those of the first part, then
/// those of the second.
pub proof fn lemma_attempts_concat(a: Seq<Attempt>, b: Seq<Attempt>)
    ensures
        attempts_events(a + b) == attempts_events(a) + attempts_events(b),
    decreases a.len(),
{
    if a.len() == 0 {
        assert(a + b =~= b);
        assert(attempts_events(a) + attempts_events(b) =~= attempts_events(b));
    } else {
        assert((a + b)[0] == a[0]);
        assert((a + b).drop_first() =~= a.drop_first() + b);
        lemma_attempts_concat(a.drop_first(), b);
        assert(attempt_events(a[0]) + (attempts_events(a.drop_first()) + attempts_events(b))
            =~= (attempt_events(a[0]) + attempts_events(a.drop_first())) + attempts_events(b));
    }
}

/// Where every provider fails, be it on its page or in the browser, the
/// resolution fails with `NoProviderSucceeded`, holding the failure of the
/// last provider.
pub proof fn lemma_all_fail(
    page_url: Seq<char>,
    providers: Seq<ProviderSpecView>,
    timeout_ms: u64,
    attempts: Seq<Attempt>,
)
    requires
        providers.len() > 0,
        attempts.len() == providers.len(),
        forall|j: int|
            0 <= j < providers.len() ==> (#[trigger] attempt_end(
                providers[j],
                attempts[j],
                timeout_ms,
            )) matches Some(Err(_)),
    ensures
        resolver_run(
            resolver_start(page_url, providers, timeout_ms).0,
            attempts_events(attempts),
        ).stage == StageModel::Finished(
            Err::<LinkView, ErrorView>(
                ErrorView::NoProviderSucceeded(
                    Some(attempt_end(providers.last(), attempts.last(), timeout_ms)->0->Err_0),
                ),
            ),
        ),
{
    let start = resolver_start(page_url, providers, timeout_ms).0;
    assert forall|j: int| 0 <= j < attempts.len() implies fails(
        start,
        start.index + j,
        #[trigger] attempts[j],
    ) by {
        assert(attempt_end(providers[j], attempts[j], timeout_ms) matches Some(Err(_)));
    }
    lemma_failures_in_a_row(start, attempts);
    let failures = start.failures + attempt_failures(providers, 0, attempts, timeout_ms);
    assert(failures.last() == attempt_end(
        providers.last(),
        attempts.last(),
        timeout_ms,
    )->0->Err_0);
}

} // verus!
