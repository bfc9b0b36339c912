//! The application: three widgets, a client, and what a key or an answer
//! from outside makes of them.
//!
//! The application never waits for anything itself. A key may ask for work
//! outside: a page, a step of the browser, the start of the player, the
//! saving of the site chosen. The application names the work, remembers
//! what it is waiting for, and goes on when the outcome is reported. While
//! it waits, keys are ignored. An error is shown until the next key.

use vstd::prelude::*;

use crate::animeflv::{
    after_search, after_select, begin_resolution, continue_resolution, search_outcome,
    select_outcome, AnimeFlv, PipelineModel, Progress, ProgressView,
};
use crate::error::{message_text, Error, ErrorView};
use crate::fetch::{Fetched, FetchedView};
use crate::frontend::{launch_of, Frontend, Launch, LaunchView};
use crate::input::{after_key, Input, InputView};
use crate::intercept::{
    SessionAction, SessionActionView, SessionEvent, SessionEventView, DEFAULT_TIMEOUT_MS,
};
use crate::key::{Key, KeyPress};
use crate::list::{list_after_key, settled, OptionsList, OptionsListView};
use crate::number::{decimal, push_decimal};
use crate::provider::{ProviderSpec, ProviderSpecView};
use crate::resolver::{
    providers_view, ResolveAction, ResolveActionView, ResolveEvent, ResolveEventView,
};
use crate::search::{titles, titles_of};
use crate::server::{servers_after_key, Server, Servers};
use crate::site::{search_address, search_url, series_address};
use crate::text::{chars_of, extend, string_of, strings_view};

verus! {

/// The widget that takes the keys.
#[derive(Debug, Clone, Copy, PartialEq, Eq, Structural)]
pub enum Focus {
    Input,
    List,
    Servers,
}

/// What the list shows.
#[derive(Debug, Clone, Copy, PartialEq, Eq, Structural)]
pub enum Stage {
    SeriesSelect,
    EpisodeSelect,
}

/// The outcome that the application is waiting for.
#[derive(Debug, Clone, Copy, PartialEq, Eq, Structural)]
pub enum Pending {
    Nothing,
    /// The page of a search.
    Search,
    /// The page of the result of this index.
    Select(usize),
    /// The next event of a resolution.
    Resolve,
    /// The start of the player.
    Launch,
}

/// What is reported to the application.
#[derive(Debug, Clone, PartialEq, Eq)]
pub enum AppEvent {
    /// A key was pressed, `since_last_ms` after the key before it.
    Key { press: KeyPress, since_last_ms: u64 },
    /// The answer to the last `Fetch`.
    Page(Fetched),
    /// What happened in the browser.
    Browser(SessionEvent),
    /// The player was started, or could not be, with the reason.
    Launched(Option<String>),
}

/// An [`AppEvent`] as the contracts see it.
pub enum AppEventView {
    Key { press: KeyPress, since_last_ms: u64 },
    Page(FetchedView),
    Browser(SessionEventView),
    Launched(Option<Seq<char>>),
}

impl View for AppEvent {
    type V = AppEventView;

    open spec fn view(&self) -> AppEventView {
        match self {
            AppEvent::Key { press, since_last_ms } => AppEventView::Key {
                press: *press,
                since_last_ms: *since_last_ms,
            },
            AppEvent::Page(f) => AppEventView::Page(f@),
            AppEvent::Browser(e) => AppEventView::Browser(e@),
            AppEvent::Launched(None) => AppEventView::Launched(None),
            AppEvent::Launched(Some(reason)) => AppEventView::Launched(Some(reason@)),
        }
    }
}

/// What the application asks for.
#[derive(Debug, Clone, PartialEq, Eq)]
pub enum AppAction {
    /// Nothing: read the next key.
    Idle,
    /// Get the page at this address and report it.
    Fetch(String),
    /// Do this with the browser and report what happens.
    Browser(SessionAction),
    /// Start the player and report whether it started.
    Launch(Launch),
    /// Save the choice of this site, then read the next key.
    Persist(Server),
    /// The event was not the one waited for: go on waiting.
    Ignored,
}

/// An [`AppAction`] as the contracts see it.
pub enum AppActionView {
    Idle,
    Fetch(Seq<char>),
    Browser(SessionActionView),
    Launch(LaunchView),
    Persist(Server),
    Ignored,
}

impl View for AppAction {
    type V = AppActionView;

    open spec fn view(&self) -> AppActionView {
        match self {
            AppAction::Idle => AppActionView::Idle,
            AppAction::Fetch(url) => AppActionView::Fetch(url@),
            AppAction::Browser(a) => AppActionView::Browser(a@),
            AppAction::Launch(l) => AppActionView::Launch(l@),
            AppAction::Persist(s) => AppActionView::Persist(*s),
            AppAction::Ignored => AppActionView::Ignored,
        }
    }
}

/// The application as the contracts see it.
pub struct AppView {
    pub exit: bool,
    pub focus: Focus,
    pub stage: Stage,
    /// The errors to show, oldest first.
    pub errors: Seq<Seq<char>>,
    pub input: InputView,
    pub list: OptionsListView,
    pub servers: Servers,
    pub client: PipelineModel,
    pub pending: Pending,
    pub frontend: Frontend,
    pub providers: Seq<ProviderSpecView>,
}

/// The application.
#[derive(Debug)]
pub struct App {
    exit: bool,
    focus: Focus,
    stage: Stage,
    errors: Vec<String>,
    input: Input,
    list: OptionsList,
    servers: Servers,
    client: AnimeFlv,
    pending: Pending,
    frontend: Frontend,
    providers: Vec<ProviderSpec>,
}

impl View for App {
    type V = AppView;

    closed spec fn view(&self) -> AppView {
        AppView {
            exit: self.exit,
            focus: self.focus,
            stage: self.stage,
            errors: strings_view(self.errors@),
            input: self.input@,
            list: self.list@,
            servers: self.servers,
            client: self.client@,
            pending: self.pending,
            frontend: self.frontend,
            providers: providers_view(self.providers@),
        }
    }
}

/// The focus on the next widget: input, list, sites, and round again.
pub open spec fn focus_forward(v: AppView) -> AppView {
    match v.focus {
        Focus::Input => AppView {
            input: InputView { focus: false, ..v.input },
            list: OptionsListView { focus: true, ..v.list },
            focus: Focus::List,
            ..v
        },
        Focus::List => AppView {
            list: OptionsListView { focus: false, ..v.list },
            servers: Servers { focus: true, ..v.servers },
            focus: Focus::Servers,
            ..v
        },
        Focus::Servers => AppView {
            servers: Servers { focus: false, ..v.servers },
            input: InputView { focus: true, ..v.input },
            focus: Focus::Input,
            ..v
        },
    }
}

/// The focus on the widget before: the other way round.
pub open spec fn focus_backwards(v: AppView) -> AppView {
    match v.focus {
        Focus::Input => AppView {
            input: InputView { focus: false, ..v.input },
            servers: Servers { focus: true, ..v.servers },
            focus: Focus::Servers,
            ..v
        },
        Focus::Servers => AppView {
            servers: Servers { focus: false, ..v.servers },
            list: OptionsListView { focus: true, ..v.list },
            focus: Focus::List,
            ..v
        },
        Focus::List => AppView {
            list: OptionsListView { focus: false, ..v.list },
            input: InputView { focus: true, ..v.input },
            focus: Focus::Input,
            ..v
        },
    }
}

/// The application with one more error to show, waiting for nothing.
pub open spec fn with_error(v: AppView, message: Seq<char>) -> AppView {
    AppView { errors: v.errors.push(message), pending: Pending::Nothing, ..v }
}

/// The list with other options, the first of them selected.
pub open spec fn with_options(list: OptionsListView, options: Seq<Seq<char>>) -> OptionsListView {
    OptionsListView { contents: options, selected: settled(Some(0), options.len()), ..list }
}

/// The episode numbers as the list shows them.
pub open spec fn episode_labels(episodes: Seq<i32>) -> Seq<Seq<char>> {
    episodes.map_values(|n: i32| decimal(n as int))
}

/// The application after a step of a resolution: on with what the
/// resolution asks for, or, once it is over, the player to start on the
/// link or the error to show.
pub open spec fn after_progress(v: AppView, step: (PipelineModel, ProgressView)) -> (
    AppView,
    AppActionView,
) {
    let w = AppView { client: step.0, ..v };
    match step.1 {
        ProgressView::Next(ResolveActionView::Fetch(url)) => (
            AppView { pending: Pending::Resolve, ..w },
            AppActionView::Fetch(url),
        ),
        ProgressView::Next(ResolveActionView::Browser(a)) => (
            AppView { pending: Pending::Resolve, ..w },
            AppActionView::Browser(a),
        ),
        ProgressView::Next(_) => (
            AppView { pending: Pending::Resolve, ..w },
            AppActionView::Ignored,
        ),
        ProgressView::Done(Ok(link)) => (
            AppView { pending: Pending::Launch, ..w },
            AppActionView::Launch(launch_of(v.frontend, link.url)),
        ),
        ProgressView::Done(Err(e)) => (with_error(w, message_text(e)), AppActionView::Idle),
    }
}

/// What the enter key does: a search for what the input holds, or, in the
/// list, the selection of a series or the resolution of an episode's link.
pub open spec fn after_enter(v: AppView) -> (AppView, AppActionView) {
    match v.focus {
        Focus::Input => (
            AppView { pending: Pending::Search, ..v },
            AppActionView::Fetch(search_address(v.input.content)),
        ),
        Focus::List => match (v.stage, v.list.selected) {
            (_, None) => (v, AppActionView::Idle),
            (Stage::SeriesSelect, Some(i)) => if i < v.client.references.len() {
                (
                    AppView { pending: Pending::Select(i), ..v },
                    AppActionView::Fetch(series_address(v.client.references[i as int])),
                )
            } else {
                (with_error(v, message_text(ErrorView::IndexOutOfRange)), AppActionView::Idle)
            },
            (Stage::EpisodeSelect, Some(i)) => match v.client.session {
                Some(s) => if i < s.episode_numbers.len() {
                    after_progress(
                        v,
                        begin_resolution(
                            v.client,
                            s.episode_numbers[i as int],
                            v.providers,
                            DEFAULT_TIMEOUT_MS,
                        ),
                    )
                } else {
                    (with_error(v, message_text(ErrorView::IndexOutOfRange)), AppActionView::Idle)
                },
                None => (
                    with_error(v, message_text(ErrorView::NoActiveSeries)),
                    AppActionView::Idle,
                ),
            },
        },
        Focus::Servers => (v, AppActionView::Idle),
    }
}

/// What a key does to the widget in focus.
pub open spec fn after_widget_key(v: AppView, key: Key, since_last_ms: u64) -> (
    AppView,
    AppActionView,
) {
    match v.focus {
        Focus::Input => (AppView { input: after_key(v.input, key), ..v }, AppActionView::Idle),
        Focus::List => (
            AppView { list: list_after_key(v.list, key, since_last_ms), ..v },
            AppActionView::Idle,
        ),
        Focus::Servers => match servers_after_key(v.servers, key) {
            (servers, Some(server)) => (
                AppView {
                    servers,
                    client: PipelineModel {
                        references: Seq::empty(),
                        session: None,
                        resolution: None,
                    },
                    ..v
                },
                AppActionView::Persist(server),
            ),
            (servers, None) => (AppView { servers, ..v }, AppActionView::Idle),
        },
    }
}

/// What a key does. While something is waited for, nothing. While errors
/// are shown, it only takes them away. Otherwise control with escape or `c`
/// ends the application, the tabulator moves the focus, enter acts, and any
/// other key goes to the widget in focus.
pub open spec fn after_press(v: AppView, press: KeyPress, since_last_ms: u64) -> (
    AppView,
    AppActionView,
) {
    if v.pending != Pending::Nothing {
        (v, AppActionView::Ignored)
    } else if v.errors.len() > 0 {
        (AppView { errors: Seq::empty(), ..v }, AppActionView::Idle)
    } else if press.control && (press.key == Key::Esc || press.key == Key::Char('c')) {
        (AppView { exit: true, ..v }, AppActionView::Idle)
    } else {
        match press.key {
            Key::BackTab => (focus_backwards(v), AppActionView::Idle),
            Key::Tab => (focus_forward(v), AppActionView::Idle),
            Key::Enter => after_enter(v),
            key => after_widget_key(v, key, since_last_ms),
        }
    }
}

/// What the page waited for does: the results of a search fill the list
/// and take the focus there; the episodes of a series fill the list; a
/// page of a resolution takes it one step further. A failure is shown.
pub open spec fn after_page(v: AppView, f: FetchedView) -> (AppView, AppActionView) {
    match v.pending {
        Pending::Search => {
            let w = AppView { client: after_search(v.client, f), ..v };
            match search_outcome(f) {
                Err(e) => (with_error(w, message_text(e)), AppActionView::Idle),
                Ok(entries) => {
                    let moved = focus_forward(w);
                    (
                        AppView {
                            list: with_options(moved.list, titles_of(entries)),
                            input: InputView { content: Seq::empty(), index: 0, ..moved.input },
                            stage: Stage::SeriesSelect,
                            pending: Pending::Nothing,
                            ..moved
                        },
                        AppActionView::Idle,
                    )
                },
            }
        },
        Pending::Select(i) => {
            let w = AppView { client: after_select(v.client, i as int, f), ..v };
            match select_outcome(v.client, i as int, f) {
                Err(e) => (with_error(w, message_text(e)), AppActionView::Idle),
                Ok(episodes) => (
                    AppView {
                        list: with_options(w.list, episode_labels(episodes)),
                        stage: Stage::EpisodeSelect,
                        pending: Pending::Nothing,
                        ..w
                    },
                    AppActionView::Idle,
                ),
            }
        },
        Pending::Resolve => after_progress(
            v,
            continue_resolution(v.client, ResolveEventView::Page(f)),
        ),
        _ => (v, AppActionView::Ignored),
    }
}

/// The application after an event, and what it asks for.
pub open spec fn app_step(v: AppView, e: AppEventView) -> (AppView, AppActionView) {
    match e {
        AppEventView::Key { press, since_last_ms } => after_press(v, press, since_last_ms),
        AppEventView::Page(f) => after_page(v, f),
        AppEventView::Browser(b) => match v.pending {
            Pending::Resolve => after_progress(
                v,
                continue_resolution(v.client, ResolveEventView::Browser(b)),
            ),
            _ => (v, AppActionView::Ignored),
        },
        AppEventView::Launched(failure) => match v.pending {
            Pending::Launch => match failure {
                Some(reason) => (with_error(v, reason), AppActionView::Idle),
                None => (AppView { pending: Pending::Nothing, ..v }, AppActionView::Idle),
            },
            _ => (v, AppActionView::Ignored),
        },
    }
}

/// The errors as they are shown: numbered from 1, one to a line.
pub open spec fn error_lines(errors: Seq<Seq<char>>) -> Seq<char>
    decreases errors.len(),
{
    if errors.len() == 0 {
        Seq::empty()
    } else {
        let line = decimal(errors.len() as int) + seq!['.', ' '] + errors.last();
        if errors.len() == 1 {
            line
        } else {
            error_lines(errors.drop_last()) + seq!['\n'] + line
        }
    }
}

fn copy_providers(providers: &Vec<ProviderSpec>) -> (r: Vec<ProviderSpec>)
    ensures
        providers_view(r@) == providers_view(providers@),
{
    let mut out: Vec<ProviderSpec> = Vec::new();
    let mut i: usize = 0;
    while i < providers.len()
        invariant
            i <= providers.len(),
            out.len() == i,
            forall|k: int| 0 <= k < i ==> (#[trigger] out@[k])@ == providers@[k]@,
        decreases providers.len() - i,
    {
        out.push(providers[i].duplicate());
        i += 1;
    }
    assert(providers_view(out@) =~= providers_view(providers@));
    out
}

fn labels(episodes: &Vec<i32>) -> (r: Vec<String>)
    ensures
        strings_view(r@) == episode_labels(episodes@),
{
    let mut out: Vec<String> = Vec::new();
    let mut i: usize = 0;
    while i < episodes.len()
        invariant
            i <= episodes.len(),
            out.len() == i,
            forall|k: int| 0 <= k < i ==> (#[trigger] out@[k])@ == decimal(episodes@[k] as int),
        decreases episodes.len() - i,
    {
        let mut label: Vec<char> = Vec::new();
        push_decimal(&mut label, episodes[i]);
        assert(label@ =~= decimal(episodes@[i as int] as int));
        out.push(string_of(label.as_slice()));
        i += 1;
    }
    assert(strings_view(out@) =~= episode_labels(episodes@));
    out
}

impl App {
    /// The application at its start: the empty input in focus, an empty
    /// list, no error, a fresh client for the site.
    pub fn new(server: Server, frontend: Frontend, providers: Vec<ProviderSpec>) -> (r: App)
        ensures
            r@ == (AppView {
                exit: false,
                focus: Focus::Input,
                stage: Stage::SeriesSelect,
                errors: Seq::empty(),
                input: InputView { content: Seq::empty(), index: 0, focus: true },
                list: OptionsListView {
                    contents: Seq::empty(),
                    selected: None,
                    focus: false,
                    search_buffer: Seq::empty(),
                },
                servers: Servers { current_server: server, focus: false },
                client: PipelineModel { references: Seq::empty(), session: None, resolution: None },
                pending: Pending::Nothing,
                frontend,
                providers: providers_view(providers@),
            }),
    {
        let r = App {
            exit: false,
            focus: Focus::Input,
            stage: Stage::SeriesSelect,
            errors: Vec::new(),
            input: Input::default(),
            list: OptionsList::default(),
            servers: Servers { current_server: server, focus: false },
            client: Servers::generate_current_client(&server),
            pending: Pending::Nothing,
            frontend,
            providers,
        };
        assert(strings_view(r.errors@) =~= Seq::<Seq<char>>::empty());
        r
    }

    /// Whether the application is to end.
    pub fn should_exit(&self) -> (r: bool)
        ensures
            r == self@.exit,
    {
        self.exit
    }

    pub fn focus(&self) -> (r: Focus)
        ensures
            r == self@.focus,
    {
        self.focus
    }

    pub fn stage(&self) -> (r: Stage)
        ensures
            r == self@.stage,
    {
        self.stage
    }

    pub fn pending(&self) -> (r: Pending)
        ensures
            r == self@.pending,
    {
        self.pending
    }

    pub fn input(&self) -> (r: &Input)
        ensures
            r@ == self@.input,
    {
        &self.input
    }

    pub fn list(&self) -> (r: &OptionsList)
        ensures
            r@ == self@.list,
    {
        &self.list
    }

    pub fn servers(&self) -> (r: &Servers)
        ensures
            *r == self@.servers,
    {
        &self.servers
    }

    pub fn client(&self) -> (r: &AnimeFlv)
        ensures
            r@ == self@.client,
    {
        &self.client
    }

    /// Whether there are errors to show.
    pub fn has_errors(&self) -> (r: bool)
        ensures
            r == (self@.errors.len() > 0),
    {
        self.errors.len() > 0
    }

    /// The errors as they are shown: numbered from 1, one to a line.
    pub fn errors_text(&self) -> (r: String)
        ensures
            r@ == error_lines(self@.errors),
    {
        let ghost all = strings_view(self.errors@);
        let mut out: Vec<char> = Vec::new();
        let mut i: usize = 0;
        assert(all.take(0) =~= Seq::<Seq<char>>::empty());
        while i < self.errors.len()
            invariant
                i <= self.errors.len(),
                all == strings_view(self.errors@),
                out@ == error_lines(all.take(i as int)),
            decreases self.errors.len() - i,
        {
            let ghost before = out@;
            let ghost upto = all.take(i + 1);
            assert(upto.drop_last() =~= all.take(i as int));
            assert(upto.last() == self.errors@[i as int]@);
            if i > 0 {
                out.push('\n');
            }
            crate::number::push_natural(&mut out, (i + 1) as u64);
            out.push('.');
            out.push(' ');
            extend(&mut out, chars_of(self.errors[i].as_str()).as_slice());
            assert(decimal(upto.len() as int) == crate::number::nat_digits((i + 1) as nat));
            assert(out@ =~= error_lines(upto));
            i += 1;
        }
        assert(all.take(self.errors.len() as int) =~= all);
        string_of(out.as_slice())
    }

    fn change_focus_forward(&mut self)
        ensures
            final(self)@ == focus_forward(old(self)@),
    {
        match self.focus {
            Focus::Input => {
                self.input.defocus();
                self.list.focus();
                self.focus = Focus::List;
            },
            Focus::List => {
                self.list.defocus();
                self.servers.focus();
                self.focus = Focus::Servers;
            },
            Focus::Servers => {
                self.servers.defocus();
                self.input.focus();
                self.focus = Focus::Input;
            },
        }
    }

    fn change_focus_backwards(&mut self)
        ensures
            final(self)@ == focus_backwards(old(self)@),
    {
        match self.focus {
            Focus::Input => {
                self.input.defocus();
                self.servers.focus();
                self.focus = Focus::Servers;
            },
            Focus::Servers => {
                self.servers.defocus();
                self.list.focus();
                self.focus = Focus::List;
            },
            Focus::List => {
                self.list.defocus();
                self.input.focus();
                self.focus = Focus::Input;
            },
        }
    }

    fn show_error(&mut self, message: String)
        ensures
            final(self)@ == with_error(old(self)@, message@),
    {
        self.errors.push(message);
        self.pending = Pending::Nothing;
        assert(strings_view(self.errors@) =~= old(self)@.errors.push(message@));
    }

    fn advance(&mut self, progress: Progress) -> (action: AppAction)
        ensures
            (final(self)@, action@) == after_progress(
                old(self)@,
                (old(self)@.client, progress@),
            ),
    {
        match progress {
            Progress::Next(ResolveAction::Fetch(url)) => {
                self.pending = Pending::Resolve;
                AppAction::Fetch(url)
            },
            Progress::Next(ResolveAction::Browser(a)) => {
                self.pending = Pending::Resolve;
                AppAction::Browser(a)
            },
            Progress::Next(_) => {
                self.pending = Pending::Resolve;
                AppAction::Ignored
            },
            Progress::Done(Ok(link)) => {
                self.pending = Pending::Launch;
                AppAction::Launch(self.frontend.launch(link.url.as_str()))
            },
            Progress::Done(Err(e)) => {
                self.show_error(e.message());
                AppAction::Idle
            },
        }
    }

    fn handle_enter_input(&mut self) -> (action: AppAction)
        requires
            old(self)@.focus == Focus::Input,
        ensures
            (final(self)@, action@) == after_enter(old(self)@),
    {
        let query = self.input.content();
        self.pending = Pending::Search;
        AppAction::Fetch(search_url(query.as_str()))
    }

    fn handle_enter_list(&mut self) -> (action: AppAction)
        requires
            old(self)@.focus == Focus::List,
        ensures
            (final(self)@, action@) == after_enter(old(self)@),
    {
        let selected = match self.list.current() {
            Some(selected) => selected,
            None => {
                return AppAction::Idle;
            },
        };
        match self.stage {
            Stage::SeriesSelect => {
                match self.client.series_request(selected) {
                    Ok(url) => {
                        self.pending = Pending::Select(selected);
                        AppAction::Fetch(url)
                    },
                    Err(e) => {
                        self.show_error(e.message());
                        AppAction::Idle
                    },
                }
            },
            Stage::EpisodeSelect => {
                let episode = match self.client.session() {
                    None => {
                        self.show_error(Error::NoActiveSeries.message());
                        return AppAction::Idle;
                    },
                    Some(session) => {
                        if selected < session.episode_numbers.len() {
                            session.episode_numbers[selected]
                        } else {
                            self.show_error(Error::IndexOutOfRange.message());
                            return AppAction::Idle;
                        }
                    },
                };
                let providers = copy_providers(&self.providers);
                let progress = self.client.resolve(episode, providers);
                self.advance(progress)
            },
        }
    }

    fn handle_enter(&mut self) -> (action: AppAction)
        ensures
            (final(self)@, action@) == after_enter(old(self)@),
    {
        match self.focus {
            Focus::Input => self.handle_enter_input(),
            Focus::List => self.handle_enter_list(),
            _ => AppAction::Idle,
        }
    }

    fn handle_widget_key(&mut self, key: Key, since_last_ms: u64) -> (action: AppAction)
        ensures
            (final(self)@, action@) == after_widget_key(old(self)@, key, since_last_ms),
    {
        match self.focus {
            Focus::Input => {
                self.input.handle_key_event(key);
                AppAction::Idle
            },
            Focus::List => {
                self.list.handle_key_event(key, since_last_ms);
                AppAction::Idle
            },
            Focus::Servers => {
                match self.servers.handle_key_event(key) {
                    Some(server) => {
                        self.client = Servers::generate_current_client(&server);
                        AppAction::Persist(server)
                    },
                    None => AppAction::Idle,
                }
            },
        }
    }

    fn handle_key_event(&mut self, press: KeyPress, since_last_ms: u64) -> (action: AppAction)
        ensures
            (final(self)@, action@) == after_press(old(self)@, press, since_last_ms),
    {
        match self.pending {
            Pending::Nothing => {},
            _ => {
                return AppAction::Ignored;
            },
        }
        if self.errors.len() > 0 {
            self.errors = Vec::new();
            assert(strings_view(self.errors@) =~= Seq::<Seq<char>>::empty());
            return AppAction::Idle;
        }
        match press.key {
            Key::Esc => {
                if press.control {
                    self.exit = true;
                    return AppAction::Idle;
                }
            },
            Key::Char(c) => {
                if press.control && c == 'c' {
                    self.exit = true;
                    return AppAction::Idle;
                }
            },
            _ => {},
        }
        match press.key {
            Key::BackTab => {
                self.change_focus_backwards();
                AppAction::Idle
            },
            Key::Tab => {
                self.change_focus_forward();
                AppAction::Idle
            },
            Key::Enter => self.handle_enter(),
            key => self.handle_widget_key(key, since_last_ms),
        }
    }

    fn handle_page(&mut self, response: &Fetched) -> (action: AppAction)
        ensures
            (final(self)@, action@) == after_page(old(self)@, response@),
    {
        match self.pending {
            Pending::Search => {
                match self.client.search(response) {
                    Err(e) => {
                        self.show_error(e.message());
                    },
                    Ok(entries) => {
                        let options = titles(&entries);
                        self.change_focus_forward();
                        self.list.set_contents(options);
                        self.input.clear();
                        self.stage = Stage::SeriesSelect;
                        self.pending = Pending::Nothing;
                    },
                }
                AppAction::Idle
            },
            Pending::Select(index) => {
                match self.client.select(index, response) {
                    Err(e) => {
                        self.show_error(e.message());
                    },
                    Ok(episodes) => {
                        self.list.set_contents(labels(&episodes));
                        self.stage = Stage::EpisodeSelect;
                        self.pending = Pending::Nothing;
                    },
                }
                AppAction::Idle
            },
            Pending::Resolve => {
                let event = ResolveEvent::Page(response.duplicate());
                let progress = self.client.resolve_step(&event);
                self.advance(progress)
            },
            _ => AppAction::Ignored,
        }
    }

    /// Takes an event in and says what to do next.
    pub fn step(&mut self, event: &AppEvent) -> (action: AppAction)
        ensures
            (final(self)@, action@) == app_step(old(self)@, event@),
    {
        match event {
            AppEvent::Key { press, since_last_ms } => self.handle_key_event(*press, *since_last_ms),
            AppEvent::Page(response) => self.handle_page(response),
            AppEvent::Browser(b) => {
                match self.pending {
                    Pending::Resolve => {
                        let event = ResolveEvent::Browser(b.duplicate());
                        let progress = self.client.resolve_step(&event);
                        self.advance(progress)
                    },
                    _ => AppAction::Ignored,
                }
            },
            AppEvent::Launched(failure) => {
                match self.pending {
                    Pending::Launch => {
                        match failure {
                            Some(reason) => self.show_error(reason.clone()),
                            None => {
                                self.pending = Pending::Nothing;
                            },
                        }
                        AppAction::Idle
                    },
                    _ => AppAction::Ignored,
                }
            },
        }
    }
}

/// Exactly the widget that takes the keys shows itself in focus.
pub open spec fn focus_agrees(v: AppView) -> bool {
    &&& v.input.focus == (v.focus == Focus::Input)
    &&& v.list.focus == (v.focus == Focus::List)
    &&& v.servers.focus == (v.focus == Focus::Servers)
}

/// The focus goes round: backwards undoes forward, forward undoes
/// backwards, and three moves either way come back to where they began.
pub proof fn lemma_focus_goes_round(v: AppView)
    requires
        focus_agrees(v),
    ensures
        focus_agrees(focus_forward(v)),
        focus_agrees(focus_backwards(v)),
        focus_backwards(focus_forward(v)) == v,
        focus_forward(focus_backwards(v)) == v,
        focus_forward(focus_forward(focus_forward(v))) == v,
        focus_backwards(focus_backwards(focus_backwards(v))) == v,
{
}

/// Whatever happens, exactly the widget that takes the keys shows itself in
/// focus.
pub proof fn lemma_focus_stays_agreed(v: AppView, e: AppEventView)
    requires
        focus_agrees(v),
    ensures
        focus_agrees(app_step(v, e).0),
{
}

/// Nothing is asked for without being waited for: an application that
/// waits for nothing waits, after a step, exactly when it has asked for a
/// page, for the browser or for the player.
pub proof fn lemma_asked_is_awaited(v: AppView, e: AppEventView)
    requires
        v.pending == Pending::Nothing,
    ensures
        ({
            let (after, action) = app_step(v, e);
            after.pending != Pending::Nothing <==> action is Fetch || action is Browser
                || action is Launch
        }),
{
}

} // verus!
