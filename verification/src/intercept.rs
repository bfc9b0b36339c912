//! One browser session that watches network traffic for the media response.
//!
//! The session decides; its driver acts. The driver starts a browser,
//! subscribes to its responses, loads the candidate page and waits, as the
//! session asks, and reports back what happened. The first response whose
//! address contains the target marker, arriving before the time allowed has
//! run out, is the outcome. Whatever the outcome, the session asks for the
//! browser to be closed, and gives the outcome away only once it is.

use vstd::prelude::*;

use crate::text::{chars_of, contains, contains_chars};

verus! {

/// The time allowed for the media response to arrive, in milliseconds.
pub const DEFAULT_TIMEOUT_MS: u64 = 10000;

/// How a session ended.
#[derive(Debug, Clone, PartialEq, Eq)]
pub enum InterceptOutcome {
    /// The address of the first matching response.
    Matched(String),
    TimedOut,
    NavigationFailed,
    LaunchFailed,
}

/// An [`InterceptOutcome`] as the contracts see it.
pub enum OutcomeView {
    Matched(Seq<char>),
    TimedOut,
    NavigationFailed,
    LaunchFailed,
}

impl View for InterceptOutcome {
    type V = OutcomeView;

    open spec fn view(&self) -> OutcomeView {
        match self {
            InterceptOutcome::Matched(url) => OutcomeView::Matched(url@),
            InterceptOutcome::TimedOut => OutcomeView::TimedOut,
            InterceptOutcome::NavigationFailed => OutcomeView::NavigationFailed,
            InterceptOutcome::LaunchFailed => OutcomeView::LaunchFailed,
        }
    }
}

impl InterceptOutcome {
    /// A copy of this outcome.
    pub fn duplicate(&self) -> (r: InterceptOutcome)
        ensures
            r@ == self@,
    {
        match self {
            InterceptOutcome::Matched(url) => InterceptOutcome::Matched(url.clone()),
            InterceptOutcome::TimedOut => InterceptOutcome::TimedOut,
            InterceptOutcome::NavigationFailed => InterceptOutcome::NavigationFailed,
            InterceptOutcome::LaunchFailed => InterceptOutcome::LaunchFailed,
        }
    }
}

/// What the driver reports to the session.
#[derive(Debug, Clone, PartialEq, Eq)]
pub enum SessionEvent {
    /// The caller wants the session to run.
    Start,
    /// The browser is up.
    Launched,
    /// The browser could not be started, or not be made to report its
    /// responses.
    LaunchError,
    /// Responses are now reported.
    CaptureEnabled,
    /// The candidate page was loaded.
    Navigated,
    /// The candidate page could not be loaded.
    NavigationError,
    /// A response was received, `elapsed_ms` into the wait.
    Response { url: String, elapsed_ms: u64 },
    /// Nothing happened; the wait has lasted `elapsed_ms`.
    Tick { elapsed_ms: u64 },
    /// The browser is gone.
    Closed,
}

/// A [`SessionEvent`] as the contracts see it.
pub enum SessionEventView {
    Start,
    Launched,
    LaunchError,
    CaptureEnabled,
    Navigated,
    NavigationError,
    Response { url: Seq<char>, elapsed_ms: u64 },
    Tick { elapsed_ms: u64 },
    Closed,
}

impl View for SessionEvent {
    type V = SessionEventView;

    open spec fn view(&self) -> SessionEventView {
        match self {
            SessionEvent::Start => SessionEventView::Start,
            SessionEvent::Launched => SessionEventView::Launched,
            SessionEvent::LaunchError => SessionEventView::LaunchError,
            SessionEvent::CaptureEnabled => SessionEventView::CaptureEnabled,
            SessionEvent::Navigated => SessionEventView::Navigated,
            SessionEvent::NavigationError => SessionEventView::NavigationError,
            SessionEvent::Response { url, elapsed_ms } => SessionEventView::Response {
                url: url@,
                elapsed_ms: *elapsed_ms,
            },
            SessionEvent::Tick { elapsed_ms } => SessionEventView::Tick { elapsed_ms: *elapsed_ms },
            SessionEvent::Closed => SessionEventView::Closed,
        }
    }
}

impl SessionEvent {
    /// A copy of this event.
    pub fn duplicate(&self) -> (r: SessionEvent)
        ensures
            r@ == self@,
    {
        match self {
            SessionEvent::Start => SessionEvent::Start,
            SessionEvent::Launched => SessionEvent::Launched,
            SessionEvent::LaunchError => SessionEvent::LaunchError,
            SessionEvent::CaptureEnabled => SessionEvent::CaptureEnabled,
            SessionEvent::Navigated => SessionEvent::Navigated,
            SessionEvent::NavigationError => SessionEvent::NavigationError,
            SessionEvent::Response { url, elapsed_ms } => SessionEvent::Response {
                url: url.clone(),
                elapsed_ms: *elapsed_ms,
            },
            SessionEvent::Tick { elapsed_ms } => SessionEvent::Tick { elapsed_ms: *elapsed_ms },
            SessionEvent::Closed => SessionEvent::Closed,
        }
    }
}

/// What the session asks of its driver.
#[derive(Debug, Clone, PartialEq, Eq)]
pub enum SessionAction {
    /// Start a browser of its own for this session.
    Launch,
    /// Subscribe to the browser's responses, before anything is loaded.
    EnableCapture,
    /// Load this address.
    Navigate(String),
    /// Go on reporting responses, for at most this long.
    Wait { remaining_ms: u64 },
    /// Close the browser and report `Closed`.
    Close,
    /// The session is closed; its outcome can be taken.
    Finished,
    /// The event changed nothing: go on with what was asked before.
    Ignored,
}

/// A [`SessionAction`] as the contracts see it.
pub enum SessionActionView {
    Launch,
    EnableCapture,
    Navigate(Seq<char>),
    Wait { remaining_ms: u64 },
    Close,
    Finished,
    Ignored,
}

impl View for SessionAction {
    type V = SessionActionView;

    open spec fn view(&self) -> SessionActionView {
        match self {
            SessionAction::Launch => SessionActionView::Launch,
            SessionAction::EnableCapture => SessionActionView::EnableCapture,
            SessionAction::Navigate(url) => SessionActionView::Navigate(url@),
            SessionAction::Wait { remaining_ms } => SessionActionView::Wait {
                remaining_ms: *remaining_ms,
            },
            SessionAction::Close => SessionActionView::Close,
            SessionAction::Finished => SessionActionView::Finished,
            SessionAction::Ignored => SessionActionView::Ignored,
        }
    }
}

/// The states of a session, as its caller names them.
#[derive(Debug, Clone, Copy, PartialEq, Eq, Structural)]
pub enum SessionState {
    Idle,
    Launching,
    Monitoring,
    Matched,
    TimedOut,
    NavigationFailed,
    LaunchFailed,
    Closed,
}

/// Where a session stands.
#[derive(Debug, Clone, PartialEq, Eq)]
pub enum Phase {
    Idle,
    Launching,
    /// The browser is up; responses are not reported yet.
    Subscribing,
    /// Responses are reported; the candidate page is loading or loaded.
    Capturing,
    /// The outcome is known; the browser is still to be closed.
    Decided(InterceptOutcome),
    Closed(InterceptOutcome),
}

/// A [`Phase`] as the contracts see it.
pub enum PhaseModel {
    Idle,
    Launching,
    Subscribing,
    Capturing,
    Decided(OutcomeView),
    Closed(OutcomeView),
}

impl View for Phase {
    type V = PhaseModel;

    open spec fn view(&self) -> PhaseModel {
        match self {
            Phase::Idle => PhaseModel::Idle,
            Phase::Launching => PhaseModel::Launching,
            Phase::Subscribing => PhaseModel::Subscribing,
            Phase::Capturing => PhaseModel::Capturing,
            Phase::Decided(o) => PhaseModel::Decided(o@),
            Phase::Closed(o) => PhaseModel::Closed(o@),
        }
    }
}

/// A session as the contracts see it.
pub struct SessionModel {
    pub candidate: Seq<char>,
    pub marker: Option<Seq<char>>,
    pub timeout_ms: u64,
    pub phase: PhaseModel,
}

/// One run of a browser against one candidate address.
#[derive(Debug, Clone, PartialEq, Eq)]
pub struct BrowserInterceptSession {
    candidate: String,
    marker: Option<String>,
    timeout_ms: u64,
    phase: Phase,
}

/// The marker as characters.
pub open spec fn marker_view(marker: Option<String>) -> Option<Seq<char>> {
    match marker {
        Some(m) => Some(m@),
        None => None,
    }
}

impl View for BrowserInterceptSession {
    type V = SessionModel;

    closed spec fn view(&self) -> SessionModel {
        SessionModel {
            candidate: self.candidate@,
            marker: marker_view(self.marker),
            timeout_ms: self.timeout_ms,
            phase: self.phase@,
        }
    }
}

/// The named state of a phase.
pub open spec fn state_of(phase: PhaseModel) -> SessionState {
    match phase {
        PhaseModel::Idle => SessionState::Idle,
        PhaseModel::Launching => SessionState::Launching,
        PhaseModel::Subscribing => SessionState::Monitoring,
        PhaseModel::Capturing => SessionState::Monitoring,
        PhaseModel::Decided(OutcomeView::Matched(_)) => SessionState::Matched,
        PhaseModel::Decided(OutcomeView::TimedOut) => SessionState::TimedOut,
        PhaseModel::Decided(OutcomeView::NavigationFailed) => SessionState::NavigationFailed,
        PhaseModel::Decided(OutcomeView::LaunchFailed) => SessionState::LaunchFailed,
        PhaseModel::Closed(_) => SessionState::Closed,
    }
}

/// Whether a response at `url` is the one looked for: its address contains
/// the marker. Without a marker nothing is.
pub open spec fn is_target(url: Seq<char>, marker: Option<Seq<char>>) -> bool {
    match marker {
        Some(m) => contains(url, m),
        None => false,
    }
}

/// The session `s` in another phase.
pub open spec fn in_phase(s: SessionModel, phase: PhaseModel) -> SessionModel {
    SessionModel { phase, ..s }
}

/// What the session makes of a moment of its wait: over once the time
/// allowed has run out, matched by a response that is the target, and
/// otherwise still waiting for what is left of the time.
pub open spec fn watch(s: SessionModel, response: Option<Seq<char>>, elapsed_ms: u64) -> (
    SessionModel,
    SessionActionView,
) {
    if elapsed_ms >= s.timeout_ms {
        (in_phase(s, PhaseModel::Decided(OutcomeView::TimedOut)), SessionActionView::Close)
    } else if response is Some && is_target(response->0, s.marker) {
        (
            in_phase(s, PhaseModel::Decided(OutcomeView::Matched(response->0))),
            SessionActionView::Close,
        )
    } else {
        (s, SessionActionView::Wait { remaining_ms: (s.timeout_ms - elapsed_ms) as u64 })
    }
}

/// The session after an event, and what it asks for next.
pub open spec fn session_step(s: SessionModel, e: SessionEventView) -> (
    SessionModel,
    SessionActionView,
) {
    match (s.phase, e) {
        (PhaseModel::Idle, SessionEventView::Start) => (
            in_phase(s, PhaseModel::Launching),
            SessionActionView::Launch,
        ),
        (PhaseModel::Launching, SessionEventView::Launched) => (
            in_phase(s, PhaseModel::Subscribing),
            SessionActionView::EnableCapture,
        ),
        (PhaseModel::Launching, SessionEventView::LaunchError) => (
            in_phase(s, PhaseModel::Decided(OutcomeView::LaunchFailed)),
            SessionActionView::Close,
        ),
        (PhaseModel::Subscribing, SessionEventView::CaptureEnabled) => (
            in_phase(s, PhaseModel::Capturing),
            SessionActionView::Navigate(s.candidate),
        ),
        (PhaseModel::Subscribing, SessionEventView::LaunchError) => (
            in_phase(s, PhaseModel::Decided(OutcomeView::LaunchFailed)),
            SessionActionView::Close,
        ),
        (PhaseModel::Capturing, SessionEventView::Navigated) => (
            s,
            SessionActionView::Wait { remaining_ms: s.timeout_ms },
        ),
        (PhaseModel::Capturing, SessionEventView::NavigationError) => (
            in_phase(s, PhaseModel::Decided(OutcomeView::NavigationFailed)),
            SessionActionView::Close,
        ),
        (PhaseModel::Capturing, SessionEventView::Response { url, elapsed_ms }) => watch(
            s,
            Some(url),
            elapsed_ms,
        ),
        (PhaseModel::Capturing, SessionEventView::Tick { elapsed_ms }) => watch(
            s,
            None,
            elapsed_ms,
        ),
        (PhaseModel::Decided(outcome), SessionEventView::Closed) => (
            in_phase(s, PhaseModel::Closed(outcome)),
            SessionActionView::Finished,
        ),
        (PhaseModel::Closed(_), _) => (s, SessionActionView::Finished),
        _ => (s, SessionActionView::Ignored),
    }
}

/// The session after a run of events.
pub open spec fn session_run(s: SessionModel, events: Seq<SessionEventView>) -> SessionModel
    decreases events.len(),
{
    if events.len() == 0 {
        s
    } else {
        session_run(session_step(s, events[0]).0, events.drop_first())
    }
}

/// What the session asks for after a run of events: what it asks for after
/// the last of them, and `Ignored` where there is none.
pub open spec fn session_answer(
    s: SessionModel,
    events: Seq<SessionEventView>,
) -> SessionActionView {
    if events.len() == 0 {
        SessionActionView::Ignored
    } else {
        session_step(session_run(s, events.drop_last()), events.last()).1
    }
}

/// The events as the contracts see them, in their order.
pub open spec fn events_view(events: Seq<SessionEvent>) -> Seq<SessionEventView> {
    events.map_values(|e: SessionEvent| e@)
}

/// The outcome that a session holds, once one is known.
pub open spec fn outcome_of(phase: PhaseModel) -> Option<OutcomeView> {
    match phase {
        PhaseModel::Decided(o) => Some(o),
        PhaseModel::Closed(o) => Some(o),
        _ => None,
    }
}

impl BrowserInterceptSession {
    /// A session for `candidate`, not started yet.
    pub fn new(candidate: String, marker: Option<String>, timeout_ms: u64) -> (s: Self)
        ensures
            s@ == (SessionModel {
                candidate: candidate@,
                marker: marker_view(marker),
                timeout_ms,
                phase: PhaseModel::Idle,
            }),
    {
        BrowserInterceptSession { candidate, marker, timeout_ms, phase: Phase::Idle }
    }

    /// The state of the session.
    pub fn state(&self) -> (r: SessionState)
        ensures
            r == state_of(self@.phase),
    {
        match &self.phase {
            Phase::Idle => SessionState::Idle,
            Phase::Launching => SessionState::Launching,
            Phase::Subscribing => SessionState::Monitoring,
            Phase::Capturing => SessionState::Monitoring,
            Phase::Decided(InterceptOutcome::Matched(_)) => SessionState::Matched,
            Phase::Decided(InterceptOutcome::TimedOut) => SessionState::TimedOut,
            Phase::Decided(InterceptOutcome::NavigationFailed) => SessionState::NavigationFailed,
            Phase::Decided(InterceptOutcome::LaunchFailed) => SessionState::LaunchFailed,
            Phase::Closed(_) => SessionState::Closed,
        }
    }

    /// The outcome of the session: there is none before the session is closed.
    pub fn outcome(&self) -> (r: Option<InterceptOutcome>)
        ensures
            match r {
                Some(o) => self@.phase == PhaseModel::Closed(o@),
                None => !(self@.phase is Closed),
            },
    {
        match &self.phase {
            Phase::Closed(o) => Some(o.duplicate()),
            _ => None,
        }
    }

    fn is_target_url(&self, url: &String) -> (r: bool)
        ensures
            r == is_target(url@, self@.marker),
    {
        match &self.marker {
            Some(m) => contains_chars(
                chars_of(url.as_str()).as_slice(),
                chars_of(m.as_str()).as_slice(),
            ),
            None => false,
        }
    }

    fn watch(&mut self, response: Option<&String>, elapsed_ms: u64) -> (action: SessionAction)
        requires
            old(self)@.phase is Capturing,
        ensures
            (final(self)@, action@) == watch(
                old(self)@,
                match response {
                    Some(url) => Some(url@),
                    None => None,
                },
                elapsed_ms,
            ),
    {
        if elapsed_ms >= self.timeout_ms {
            self.phase = Phase::Decided(InterceptOutcome::TimedOut);
            return SessionAction::Close;
        }
        if let Some(url) = response {
            if self.is_target_url(url) {
                self.phase = Phase::Decided(InterceptOutcome::Matched(url.clone()));
                return SessionAction::Close;
            }
        }
        SessionAction::Wait { remaining_ms: self.timeout_ms - elapsed_ms }
    }

    /// Takes an event in and says what to do next.
    pub fn handle(&mut self, event: &SessionEvent) -> (action: SessionAction)
        ensures
            (final(self)@, action@) == session_step(old(self)@, event@),
    {
        let mut phase = Phase::Idle;
        core::mem::swap(&mut self.phase, &mut phase);
        match (phase, event) {
            (Phase::Idle, SessionEvent::Start) => {
                self.phase = Phase::Launching;
                SessionAction::Launch
            },
            (Phase::Launching, SessionEvent::Launched) => {
                self.phase = Phase::Subscribing;
                SessionAction::EnableCapture
            },
            (Phase::Launching, SessionEvent::LaunchError) => {
                self.phase = Phase::Decided(InterceptOutcome::LaunchFailed);
                SessionAction::Close
            },
            (Phase::Subscribing, SessionEvent::CaptureEnabled) => {
                self.phase = Phase::Capturing;
                SessionAction::Navigate(self.candidate.clone())
            },
            (Phase::Subscribing, SessionEvent::LaunchError) => {
                self.phase = Phase::Decided(InterceptOutcome::LaunchFailed);
                SessionAction::Close
            },
            (Phase::Capturing, SessionEvent::Navigated) => {
                self.phase = Phase::Capturing;
                SessionAction::Wait { remaining_ms: self.timeout_ms }
            },
            (Phase::Capturing, SessionEvent::NavigationError) => {
                self.phase = Phase::Decided(InterceptOutcome::NavigationFailed);
                SessionAction::Close
            },
            (Phase::Capturing, SessionEvent::Response { url, elapsed_ms }) => {
                self.phase = Phase::Capturing;
                self.watch(Some(url), *elapsed_ms)
            },
            (Phase::Capturing, SessionEvent::Tick { elapsed_ms }) => {
                self.phase = Phase::Capturing;
                self.watch(None, *elapsed_ms)
            },
            (Phase::Decided(outcome), SessionEvent::Closed) => {
                self.phase = Phase::Closed(outcome);
                SessionAction::Finished
            },
            (Phase::Closed(outcome), _) => {
                self.phase = Phase::Closed(outcome);
                SessionAction::Finished
            },
            (phase, _) => {
                self.phase = phase;
                SessionAction::Ignored
            },
        }
    }

    /// Takes a run of events in, one after the other, and says what to do
    /// after the last; `Ignored` for an empty run.
    pub fn replay(&mut self, events: &Vec<SessionEvent>) -> (action: SessionAction)
        ensures
            final(self)@ == session_run(old(self)@, events_view(events@)),
            action@ == session_answer(old(self)@, events_view(events@)),
    {
        let ghost all = events_view(events@);
        let mut action = SessionAction::Ignored;
        let mut i: usize = 0;
        assert(all.take(0) =~= Seq::<SessionEventView>::empty());
        while i < events.len()
            invariant
                i <= events.len(),
                all == events_view(events@),
                self@ == session_run(old(self)@, all.take(i as int)),
                action@ == session_answer(old(self)@, all.take(i as int)),
            decreases events.len() - i,
        {
            action = self.handle(&events[i]);
            proof {
                let upto = all.take(i + 1);
                assert(upto.drop_last() =~= all.take(i as int));
                assert(upto.last() == events@[i as int]@);
                lemma_run_push(old(self)@, all.take(i as int), all[i as int]);
                assert(all.take(i as int).push(all[i as int]) =~= upto);
            }
            i += 1;
        }
        assert(all.take(events.len() as int) =~= all);
        action
    }
}

/// A run of events in two parts is the run of the second part after the first.
pub proof fn lemma_run_concat(s: SessionModel, a: Seq<SessionEventView>, b: Seq<SessionEventView>)
    ensures
        session_run(s, a + b) == session_run(session_run(s, a), b),
    decreases a.len(),
{
    if a.len() == 0 {
        assert(a + b =~= b);
    } else {
        assert((a + b)[0] == a[0]);
        assert((a + b).drop_first() =~= a.drop_first() + b);
        lemma_run_concat(session_step(s, a[0]).0, a.drop_first(), b);
    }
}

/// A run with one more event is the run, then that event.
pub proof fn lemma_run_push(s: SessionModel, events: Seq<SessionEventView>, e: SessionEventView)
    ensures
        session_run(s, events.push(e)) == session_step(session_run(s, events), e).0,
{
    let one = seq![e];
    assert(events.push(e) =~= events + one);
    lemma_run_concat(s, events, one);
    let after = session_run(s, events);
    assert(one.drop_first().len() == 0);
    assert(session_run(session_step(after, one[0]).0, one.drop_first()) == session_step(
        after,
        e,
    ).0);
}

/// Exactly one outcome: once a session holds an outcome, no event changes it.
pub proof fn lemma_outcome_is_kept(s: SessionModel, events: Seq<SessionEventView>)
    requires
        outcome_of(s.phase) is Some,
    ensures
        outcome_of(session_run(s, events).phase) == outcome_of(s.phase),
    decreases events.len(),
{
    if events.len() > 0 {
        lemma_outcome_is_kept(session_step(s, events[0]).0, events.drop_first());
    }
}

/// An event that settles the outcome of a session that is capturing.
pub open spec fn is_decisive(s: SessionModel, e: SessionEventView) -> bool {
    outcome_of(session_step(s, e).0.phase) is Some
}

/// The first match wins: where a response in time is the target and no
/// event before it settled the outcome, its address is the outcome, whatever
/// comes after it.
pub proof fn lemma_first_match_wins(s: SessionModel, events: Seq<SessionEventView>, k: int)
    requires
        s.phase is Capturing,
        0 <= k < events.len(),
        forall|j: int| 0 <= j < k ==> !is_decisive(s, #[trigger] events[j]),
        events[k] is Response,
        events[k]->Response_elapsed_ms < s.timeout_ms,
        is_target(events[k]->Response_url, s.marker),
    ensures
        outcome_of(session_run(s, events).phase) == Some(
            OutcomeView::Matched(events[k]->Response_url),
        ),
    decreases k,
{
    let next = session_step(s, events[0]).0;
    let rest = events.drop_first();
    if k == 0 {
        lemma_outcome_is_kept(next, rest);
    } else {
        assert(!is_decisive(s, events[0]));
        assert(next == s);
        assert forall|j: int| 0 <= j < k - 1 implies !is_decisive(s, #[trigger] rest[j]) by {
            assert(rest[j] == events[j + 1]);
        }
        lemma_first_match_wins(s, rest, k - 1);
    }
}

/// No response can be missed: the page is loaded only by a session that has
/// just been told that responses are reported.
pub proof fn lemma_capture_before_navigation(s: SessionModel, e: SessionEventView)
    requires
        session_step(s, e).1 is Navigate,
    ensures
        s.phase is Subscribing,
        e is CaptureEnabled,
        session_step(s, e).0.phase is Capturing,
        session_step(s, e).1 == SessionActionView::Navigate(s.candidate),
{
}

/// The wait is never given up early: a capturing session times out only on
/// an event that says that the time allowed has run out.
pub proof fn lemma_timeout_is_due(s: SessionModel, e: SessionEventView)
    requires
        s.phase is Capturing,
        session_step(s, e).0.phase == PhaseModel::Decided(OutcomeView::TimedOut),
    ensures
        match e {
            SessionEventView::Response { url, elapsed_ms } => elapsed_ms >= s.timeout_ms,
            SessionEventView::Tick { elapsed_ms } => elapsed_ms >= s.timeout_ms,
            _ => false,
        },
{
}

/// Every outcome passes through the closing of the browser: a session that
/// holds an outcome asks for the close, becomes closed when the close is
/// reported, and says that it has finished only when it is closed.
pub proof fn lemma_outcome_is_closed(s: SessionModel, e: SessionEventView)
    ensures
        outcome_of(session_step(s, e).0.phase) is Some && outcome_of(s.phase) is None
            ==> session_step(s, e).1 == SessionActionView::Close,
        s.phase is Decided ==> session_step(s, SessionEventView::Closed).0.phase
            == PhaseModel::Closed(s.phase->Decided_0),
        session_step(s, e).1 == SessionActionView::Finished ==> session_step(
            s,
            e,
        ).0.phase is Closed,
{
}

/// The address of the first response that is the target.
pub open spec fn first_target(
    responses: Seq<(Seq<char>, u64)>,
    marker: Option<Seq<char>>,
) -> Option<Seq<char>>
    decreases responses.len(),
{
    if responses.len() == 0 {
        None
    } else if is_target(responses[0].0, marker) {
        Some(responses[0].0)
    } else {
        first_target(responses.drop_first(), marker)
    }
}

/// The responses, as the events that report them.
pub open spec fn response_events(responses: Seq<(Seq<char>, u64)>) -> Seq<SessionEventView> {
    responses.map_values(
        |r: (Seq<char>, u64)| SessionEventView::Response { url: r.0, elapsed_ms: r.1 },
    )
}

/// The events of a session that starts, loads its page, sees `responses`
/// and is closed after the time allowed.
pub open spec fn lifecycle(responses: Seq<(Seq<char>, u64)>, timeout_ms: u64) -> Seq<
    SessionEventView,
> {
    seq![
        SessionEventView::Start,
        SessionEventView::Launched,
        SessionEventView::CaptureEnabled,
        SessionEventView::Navigated,
    ] + response_events(responses) + seq![
        SessionEventView::Tick { elapsed_ms: timeout_ms },
        SessionEventView::Closed,
    ]
}

proof fn lemma_responses_run(s: SessionModel, responses: Seq<(Seq<char>, u64)>)
    requires
        s.phase is Capturing || s.phase is Decided,
        forall|i: int| 0 <= i < responses.len() ==> (#[trigger] responses[i]).1 < s.timeout_ms,
    ensures
        session_run(s, response_events(responses)) == (match s.phase {
            PhaseModel::Capturing => match first_target(responses, s.marker) {
                Some(url) => in_phase(s, PhaseModel::Decided(OutcomeView::Matched(url))),
                None => s,
            },
            _ => s,
        }),
    decreases responses.len(),
{
    let events = response_events(responses);
    if responses.len() > 0 {
        let next = session_step(s, events[0]).0;
        let rest = responses.drop_first();
        assert(events.drop_first() =~= response_events(rest));
        assert(responses[0].1 < s.timeout_ms);
        assert forall|i: int| 0 <= i < rest.len() implies (#[trigger] rest[i]).1
            < next.timeout_ms by {
            assert(rest[i] == responses[i + 1]);
        }
        lemma_responses_run(next, rest);
    }
}

/// A whole session: started, its page loaded, `responses` seen within the
/// time allowed, then the time run out and the browser closed. It ends
/// closed, with the address of the first response that is the target, or
/// timed out where none is.
pub proof fn lemma_lifecycle(s: SessionModel, responses: Seq<(Seq<char>, u64)>)
    requires
        s.phase is Idle,
        forall|i: int| 0 <= i < responses.len() ==> (#[trigger] responses[i]).1 < s.timeout_ms,
    ensures
        session_run(s, lifecycle(responses, s.timeout_ms)) == in_phase(
            s,
            PhaseModel::Closed(
                match first_target(responses, s.marker) {
                    Some(url) => OutcomeView::Matched(url),
                    None => OutcomeView::TimedOut,
                },
            ),
        ),
{
    let opening = seq![
        SessionEventView::Start,
        SessionEventView::Launched,
        SessionEventView::CaptureEnabled,
        SessionEventView::Navigated,
    ];
    let closing = seq![
        SessionEventView::Tick { elapsed_ms: s.timeout_ms },
        SessionEventView::Closed,
    ];
    let capturing = in_phase(s, PhaseModel::Capturing);
    assert(session_run(s, opening) == capturing) by {
        let s1 = session_step(s, opening[0]).0;
        let o1 = opening.drop_first();
        let s2 = session_step(s1, o1[0]).0;
        let o2 = o1.drop_first();
        let s3 = session_step(s2, o2[0]).0;
        let o3 = o2.drop_first();
        let s4 = session_step(s3, o3[0]).0;
        let o4 = o3.drop_first();
        assert(o4.len() == 0);
        assert(session_run(s4, o4) == s4);
        assert(session_run(s3, o3) == s4);
        assert(session_run(s2, o2) == s4);
        assert(session_run(s1, o1) == s4);
        assert(s4 == capturing);
    }
    lemma_responses_run(capturing, responses);
    let watched = session_run(capturing, response_events(responses));
    lemma_run_concat(s, opening, response_events(responses));
    lemma_run_concat(s, opening + response_events(responses), closing);
    assert(session_run(watched, closing) == session_step(
        session_step(watched, closing[0]).0,
        closing[1],
    ).0) by {
        let w1 = session_step(watched, closing[0]).0;
        let c1 = closing.drop_first();
        let w2 = session_step(w1, c1[0]).0;
        assert(c1.drop_first().len() == 0);
        assert(session_run(w2, c1.drop_first()) == w2);
        assert(session_run(w1, c1) == w2);
    }
}

} // verus!
