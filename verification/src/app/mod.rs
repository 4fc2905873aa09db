//! The shared application: its modes, status log, and the handling of what
//! the stream screen reports.

#![verifier::loop_isolation(false)]

pub mod actions;
pub mod catalog;
pub mod effects;
pub mod screens;

use vstd::prelude::*;
use vstd::string::*;
use crate::config::{ConfigError, first_run_status, first_run_text};
use crate::filter::{FilterTerm, TermSpec, parse_filter, parse_filter_spec};
use crate::models::{
    AppConfig, LibraryCounts, LibraryView, SavedQuery, Selection, StreamItem, item_views,
    query_views,
};
use crate::status::{STATUS_HISTORY_LIMIT, StatusEntry, retained};
use crate::storage::{
    QueryMatch, QueryRow, Storage, StorageError, StoredItemView, filter_has_id, host_named, is_listing,
    is_neighbor, moved_queries, saved_query_list, selected_items,
};
use crate::filter::filter_text_matches;
use crate::models::StreamItemView;
use crate::seq_util::first_index;
use self::actions::{
    Notice, storage_error_message, storage_error_text, add_filter_input_term,
    add_filter_input_term_step, add_filter_stream, add_filter_stream_step, add_query,
    add_query_step, delete_filter_stream, delete_filter_stream_step, delete_query,
    delete_query_step, item_action, item_action_step, mark_read, mark_read_step, move_query,
    move_query_step, reloaded, select, select_step, set_filter_input, set_filter_input_step,
    set_local_filter, set_local_filter_step, show_updates, show_updates_step, store_kept,
    update_filter_stream, update_filter_stream_step, update_query, update_query_step,
};
use self::effects::{ExternalEffect, connection_test_message, connection_test_text};
use self::screens::setup::{SetupEvent, SetupState};
use self::screens::stream::{ItemAction, StreamEvent, StreamState};

verus! {

/// What the application holds once a host is configured.
pub struct Runtime {
    pub config: AppConfig,
    pub storage: Storage,
    pub host_id: i64,
    pub library_counts: LibraryCounts,
    pub saved_queries: Vec<SavedQuery>,
    pub items: Vec<StreamItem>,
}

/// The two screens of the application: the host settings form, which may
/// return to a runtime it was opened from, and the main stream.
pub enum AppMode {
    Setup { previous_runtime: Option<Box<Runtime>> },
    Main(Box<Runtime>),
}

/// The shared application.
pub struct GhStreamApp {
    pub config_path: String,
    pub database_path: String,
    pub mode: AppMode,
    pub setup: SetupState,
    pub stream: StreamState,
    pub status: String,
    pub status_history: Vec<StatusEntry>,
    /// When the last automatic refresh started, in seconds, if one did.
    pub last_poll_at: Option<u64>,
    /// Whether a refresh is running in the background.
    pub refresh_pending: bool,
}

/// The terms of the accepted local filter; a text that does not parse
/// narrows nothing.
pub open spec fn local_terms(local: Option<String>) -> Option<Seq<TermSpec>> {
    match local {
        None => None,
        Some(t) => parse_filter_spec(t@),
    }
}

impl Runtime {
    /// The sidebar shows what the store holds: the host's saved queries and
    /// the counts of the library views.
    pub open spec fn sidebar_fresh(&self) -> bool {
        &&& query_views(self.saved_queries@) == saved_query_list(
            self.storage.query_rows(),
            self.storage.filter_rows(),
            self.host_id,
        )
        &&& self.library_counts.inbox == selected_items(self.storage, self.host_id, Selection::Library(LibraryView::Inbox), None).len()
        &&& self.library_counts.unread == selected_items(self.storage, self.host_id, Selection::Library(LibraryView::Unread), None).len()
        &&& self.library_counts.bookmarked == selected_items(self.storage, self.host_id, Selection::Library(LibraryView::Bookmarked), None).len()
        &&& self.library_counts.archived == selected_items(self.storage, self.host_id, Selection::Library(LibraryView::Archived), None).len()
    }

    /// The stream shows what the store holds for the selection, narrowed by
    /// the local filter and in the configured order.
    pub open spec fn items_fresh(&self, stream: StreamState) -> bool {
        is_listing(
            item_views(self.items@),
            self.storage,
            self.host_id,
            stream.selection,
            local_terms(stream.local_filter),
            self.config.ui.default_sort,
        )
    }

    /// The store is well-formed and the screen shows what it holds.
    pub open spec fn fresh(&self, stream: StreamState) -> bool {
        &&& self.storage.wf()
        &&& self.sidebar_fresh()
        &&& self.items_fresh(stream)
    }

    /// Reloads the saved queries, counts and items from the store.
    pub fn reload(&mut self, stream: &StreamState)
        requires
            old(self).storage.wf(),
        ensures
            final(self).fresh(*stream),
            final(self).config == old(self).config,
            final(self).storage == old(self).storage,
            final(self).host_id == old(self).host_id,
    {
        let local: Option<Vec<FilterTerm>> = match &stream.local_filter {
            Some(t) => parse_filter(t.as_str()),
            None => None,
        };
        let items = match &local {
            Some(ts) => self.storage.list_items(
                self.host_id,
                stream.selection,
                Some(ts),
                self.config.ui.default_sort,
            ),
            None => self.storage.list_items(
                self.host_id,
                stream.selection,
                None,
                self.config.ui.default_sort,
            ),
        };
        let queries = self.storage.list_saved_queries(self.host_id);
        let counts = self.storage.library_counts(self.host_id);
        self.items = items;
        self.saved_queries = queries;
        self.library_counts = counts;
    }
}

impl GhStreamApp {
    /// The status line is the newest entry of a history that is neither
    /// empty nor over its limit, and the main screen, or the one that the
    /// settings form returns to, shows what the store holds.
    pub open spec fn wf(&self) -> bool {
        &&& self.status_wf()
        &&& match self.mode {
            AppMode::Main(rt) => rt.fresh(self.stream),
            AppMode::Setup { previous_runtime } => match previous_runtime {
                Some(rt) => rt.fresh(self.stream),
                None => true,
            },
        }
    }

    /// The status line is the newest entry of a history that is neither
    /// empty nor over its limit.
    pub open spec fn status_wf(&self) -> bool {
        &&& 1 <= self.status_history@.len() <= STATUS_HISTORY_LIMIT
        &&& self.status == self.status_history@.last().message
    }

    /// The runtime of the main screen, if the application shows it.
    pub open spec fn main_runtime(&self) -> Option<Runtime> {
        match self.mode {
            AppMode::Main(rt) => Some(*rt),
            _ => None,
        }
    }

    /// Makes `entry` the status and appends it to the bounded history.
    pub fn push_entry(status: &mut String, status_history: &mut Vec<StatusEntry>, entry: StatusEntry)
        ensures
            *final(status) == entry.message,
            final(status_history)@ == retained(old(status_history)@.push(entry)),
    {
        crate::status::push_entry(status, status_history, entry);
    }

    /// Reports an informational message.
    pub fn replace_status(status: &mut String, status_history: &mut Vec<StatusEntry>, value: String)
        ensures
            *final(status) == value,
            final(status_history)@ == retained(old(status_history)@.push(StatusEntry::new_spec(value))),
    {
        Self::push_entry(status, status_history, StatusEntry::new(value));
    }

    /// Reports a failure.
    pub fn replace_status_error(status: &mut String, status_history: &mut Vec<StatusEntry>, value: String)
        ensures
            *final(status) == value,
            final(status_history)@ == retained(
                old(status_history)@.push(StatusEntry::new_error_spec(value)),
            ),
    {
        Self::push_entry(status, status_history, StatusEntry::new_error(value));
    }
}

/// The external work that a stream event stands for, if any; every other
/// event is handled locally.
pub open spec fn event_effect(event: StreamEvent) -> Option<ExternalEffect> {
    match event {
        StreamEvent::PreviewQuery { query, source } => Some(ExternalEffect::PreviewQuery { query, source }),
        StreamEvent::ExportQueries(path) => Some(ExternalEffect::ExportQueries(path)),
        StreamEvent::ImportQueries(path) => Some(ExternalEffect::ImportQueries(path)),
        StreamEvent::RefreshNow => Some(ExternalEffect::Refresh),
        StreamEvent::SetDefaultSort(sort) => Some(ExternalEffect::SetDefaultSort(sort)),
        StreamEvent::SetPollingInterval(seconds) => Some(ExternalEffect::SetPollingInterval(seconds)),
        StreamEvent::SetTheme(theme) => Some(ExternalEffect::SetTheme(theme)),
        StreamEvent::SetFontSize(size) => Some(ExternalEffect::SetFontSize(size)),
        StreamEvent::ItemAction(ItemAction::Open { id, url }) => Some(ExternalEffect::OpenItem { id, url }),
        _ => None,
    }
}

/// What handling a local stream event does to the runtime and the stream
/// state, and what it reports.
pub open spec fn local_step(
    rt0: Runtime,
    s0: StreamState,
    event: StreamEvent,
    rt1: Runtime,
    s1: StreamState,
    n: Notice,
) -> bool {
    match event {
        StreamEvent::Select(selection) => select_step(rt0, s0, selection, rt1, s1, n),
        StreamEvent::SetFilter(text) => rt1 == rt0 && set_filter_input_step(s0, text, s1, n),
        StreamEvent::SetLocalFilter(filter) => set_local_filter_step(rt0, s0, filter, rt1, s1, n),
        StreamEvent::AddLocalFilterInputTerm(term) => rt1 == rt0 && add_filter_input_term_step(s0, term, s1, n),
        StreamEvent::AddFilterStream { saved_query_id, name, filter_query, enabled } =>
            add_filter_stream_step(rt0, s0, saved_query_id, name, filter_query, enabled, rt1, s1, n),
        StreamEvent::AddQuery { name, query, source, enabled } =>
            add_query_step(rt0, s0, name, query, source, enabled, rt1, s1, n),
        StreamEvent::UpdateFilterStream { id, name, filter_query, enabled } => s1 == s0
            && update_filter_stream_step(rt0, s0, id, name, filter_query, enabled, rt1, n),
        StreamEvent::UpdateQuery { id, name, query, source, enabled } => s1 == s0
            && update_query_step(rt0, s0, id, name, query, source, enabled, rt1, n),
        StreamEvent::DeleteFilterStream(id) => delete_filter_stream_step(rt0, s0, id, rt1, s1, n),
        StreamEvent::DeleteQuery(id) => delete_query_step(rt0, s0, id, rt1, s1, n),
        StreamEvent::MoveQueryUp(id) => s1 == s0 && move_query_step(rt0, s0, id, true, rt1, n),
        StreamEvent::MoveQueryDown(id) => s1 == s0 && move_query_step(rt0, s0, id, false, rt1, n),
        StreamEvent::MarkLibraryRead(view) => s1 == s0 && mark_read_step(
            rt0,
            s0,
            Selection::Library(view),
            rt1,
            n,
        ),
        StreamEvent::MarkFilterStreamRead(id) => s1 == s0 && mark_read_step(
            rt0,
            s0,
            Selection::FilterStream(id),
            rt1,
            n,
        ),
        StreamEvent::MarkSavedQueryRead(id) => s1 == s0 && mark_read_step(
            rt0,
            s0,
            Selection::SavedQuery(id),
            rt1,
            n,
        ),
        StreamEvent::ShowRemoteUpdates => s1 == s0 && show_updates_step(rt0, s0, rt1, n),
        StreamEvent::ItemAction(action) => s1 == s0 && item_action_step(rt0, s0, action, rt1, n),
        _ => false,
    }
}

/// Handles a local stream event on the runtime of the main screen.
pub fn handle_local(rt: &mut Runtime, stream: &mut StreamState, event: StreamEvent) -> (n: Notice)
    requires
        old(rt).storage.wf(),
        event_effect(event) is None,
        event != StreamEvent::OpenSetup,
    ensures
        local_step(*old(rt), *old(stream), event, *final(rt), *final(stream), n),
{
    match event {
        StreamEvent::Select(selection) => select(rt, stream, selection),
        StreamEvent::SetFilter(text) => set_filter_input(stream, text),
        StreamEvent::SetLocalFilter(filter) => set_local_filter(rt, stream, filter),
        StreamEvent::AddLocalFilterInputTerm(term) => add_filter_input_term(stream, &term),
        StreamEvent::AddFilterStream { saved_query_id, name, filter_query, enabled } =>
            add_filter_stream(rt, stream, saved_query_id, name, filter_query, enabled),
        StreamEvent::AddQuery { name, query, source, enabled } =>
            add_query(rt, stream, name, query, source, enabled),
        StreamEvent::UpdateFilterStream { id, name, filter_query, enabled } =>
            update_filter_stream(rt, stream, id, name, filter_query, enabled),
        StreamEvent::UpdateQuery { id, name, query, source, enabled } =>
            update_query(rt, stream, id, name, query, source, enabled),
        StreamEvent::DeleteFilterStream(id) => delete_filter_stream(rt, stream, id),
        StreamEvent::DeleteQuery(id) => delete_query(rt, stream, id),
        StreamEvent::MoveQueryUp(id) => move_query(rt, stream, id, true),
        StreamEvent::MoveQueryDown(id) => move_query(rt, stream, id, false),
        StreamEvent::MarkLibraryRead(view) => mark_read(rt, stream, Selection::Library(view)),
        StreamEvent::MarkFilterStreamRead(id) => mark_read(rt, stream, Selection::FilterStream(id)),
        StreamEvent::MarkSavedQueryRead(id) => mark_read(rt, stream, Selection::SavedQuery(id)),
        StreamEvent::ShowRemoteUpdates => show_updates(rt, stream),
        StreamEvent::ItemAction(action) => item_action(rt, stream, &action),
        _ => Notice::Quiet,
    }
}

/// What reporting a notice does to the status line and its history.
pub open spec fn noted(
    status0: String,
    history0: Seq<StatusEntry>,
    n: Notice,
    status1: String,
    history1: Seq<StatusEntry>,
) -> bool {
    match n {
        Notice::Quiet => status1 == status0 && history1 == history0,
        Notice::Info(m) => status1 == m && history1 == retained(history0.push(StatusEntry::new_spec(m))),
        Notice::Error(m) => status1 == m && history1 == retained(
            history0.push(StatusEntry::new_error_spec(m)),
        ),
    }
}

impl GhStreamApp {
    /// Reports a notice on the status line.
    pub fn note(&mut self, n: Notice)
        requires
            old(self).status_wf(),
        ensures
            final(self).status_wf(),
            noted(old(self).status, old(self).status_history@, n, final(self).status, final(self).status_history@),
            final(self).mode == old(self).mode,
            final(self).stream == old(self).stream,
            final(self).setup == old(self).setup,
            final(self).config_path == old(self).config_path,
            final(self).database_path == old(self).database_path,
            final(self).last_poll_at == old(self).last_poll_at,
            final(self).refresh_pending == old(self).refresh_pending,
    {
        match n {
            Notice::Quiet => {},
            Notice::Info(m) => {
                Self::replace_status(&mut self.status, &mut self.status_history, m);
            },
            Notice::Error(m) => {
                Self::replace_status_error(&mut self.status, &mut self.status_history, m);
            },
        }
        proof {
            crate::status::lemma_history_bounded(old(self).status_history@, StatusEntry::new_spec(self.status));
            crate::status::lemma_push_keeps_order(old(self).status_history@, StatusEntry::new_spec(self.status));
            crate::status::lemma_history_bounded(old(self).status_history@, StatusEntry::new_error_spec(self.status));
            crate::status::lemma_push_keeps_order(old(self).status_history@, StatusEntry::new_error_spec(self.status));
        }
    }

    /// Takes the mode out, leaving the settings form with nothing to return
    /// to in its place.
    fn take_mode(&mut self) -> (m: AppMode)
        ensures
            m == old(self).mode,
            final(self).mode == (AppMode::Setup { previous_runtime: None }),
            final(self).stream == old(self).stream,
            final(self).setup == old(self).setup,
            final(self).status == old(self).status,
            final(self).status_history == old(self).status_history,
            final(self).config_path == old(self).config_path,
            final(self).database_path == old(self).database_path,
            final(self).last_poll_at == old(self).last_poll_at,
            final(self).refresh_pending == old(self).refresh_pending,
    {
        let mut mode = AppMode::Setup { previous_runtime: None };
        core::mem::swap(&mut mode, &mut self.mode);
        mode
    }

    /// Reloads the main screen from the store.
    pub fn reload_current_view(&mut self)
        requires
            match old(self).mode {
                AppMode::Main(rt) => rt.storage.wf(),
                _ => true,
            },
        ensures
            match old(self).mode {
                AppMode::Main(rt0) => final(self).main_runtime() matches Some(rt1) && reloaded(
                    *rt0,
                    rt1,
                    final(self).stream,
                ) && store_kept(*rt0, rt1),
                _ => final(self).mode == old(self).mode,
            },
            final(self).stream == old(self).stream,
            final(self).setup == old(self).setup,
            final(self).status == old(self).status,
            final(self).status_history == old(self).status_history,
            final(self).config_path == old(self).config_path,
            final(self).database_path == old(self).database_path,
            final(self).last_poll_at == old(self).last_poll_at,
            final(self).refresh_pending == old(self).refresh_pending,
    {
        match self.take_mode() {
            AppMode::Main(rt) => {
                let mut rt = *rt;
                rt.reload(&self.stream);
                self.mode = AppMode::Main(Box::new(rt));
            },
            other => {
                self.mode = other;
            },
        }
    }

    /// Handles what the stream screen reports: external work is handed back
    /// untouched, everything else is done here.
    pub fn handle_stream_event(&mut self, event: StreamEvent) -> (r: Option<ExternalEffect>)
        requires
            old(self).wf(),
        ensures
            final(self).wf(),
            r == event_effect(event),
            r is Some ==> *final(self) == *old(self),
            final(self).config_path == old(self).config_path,
            final(self).database_path == old(self).database_path,
            final(self).last_poll_at == old(self).last_poll_at,
            final(self).refresh_pending == old(self).refresh_pending,
            event == StreamEvent::OpenSetup ==> open_setup_step(*old(self), *final(self)),
            r is None && event != StreamEvent::OpenSetup ==> match old(self).mode {
                AppMode::Main(rt0) => {
                    &&& final(self).main_runtime() matches Some(rt1)
                    &&& exists|n: Notice|
                        local_step(*rt0, old(self).stream, event, rt1, final(self).stream, n) && noted(
                            old(self).status,
                            old(self).status_history@,
                            n,
                            final(self).status,
                            final(self).status_history@,
                        )
                    &&& final(self).setup == old(self).setup
                },
                _ => *final(self) == *old(self),
            },
    {
        match event {
            StreamEvent::PreviewQuery { query, source } => {
                return Some(ExternalEffect::PreviewQuery { query, source });
            },
            StreamEvent::ExportQueries(path) => {
                return Some(ExternalEffect::ExportQueries(path));
            },
            StreamEvent::ImportQueries(path) => {
                return Some(ExternalEffect::ImportQueries(path));
            },
            StreamEvent::RefreshNow => {
                return Some(ExternalEffect::Refresh);
            },
            StreamEvent::SetDefaultSort(sort) => {
                return Some(ExternalEffect::SetDefaultSort(sort));
            },
            StreamEvent::SetPollingInterval(seconds) => {
                return Some(ExternalEffect::SetPollingInterval(seconds));
            },
            StreamEvent::SetTheme(theme) => {
                return Some(ExternalEffect::SetTheme(theme));
            },
            StreamEvent::SetFontSize(size) => {
                return Some(ExternalEffect::SetFontSize(size));
            },
            StreamEvent::ItemAction(ItemAction::Open { id, url }) => {
                return Some(ExternalEffect::OpenItem { id, url });
            },
            StreamEvent::OpenSetup => {
                self.open_setup_settings();
                return None;
            },
            _ => {},
        }
        let ghost old_self = *self;
        match self.take_mode() {
            AppMode::Main(rt) => {
                let mut rt = *rt;
                let n = handle_local(&mut rt, &mut self.stream, event);
                self.mode = AppMode::Main(Box::new(rt));
                self.note(n);
            },
            other => {
                self.mode = other;
            },
        }
        None
    }

    /// Shows on the host settings form how a connection test of the
    /// configuration went.
    pub fn report_connection_test(&mut self, config: &AppConfig, outcome: Result<(), String>)
        requires
            old(self).wf(),
        ensures
            final(self).wf(),
            final(self).setup == (SetupState { validation_message: final(self).setup.validation_message, ..old(self).setup }),
            final(self).setup.validation_message@ == connection_test_text(*config, outcome),
            *final(self) == (GhStreamApp { setup: final(self).setup, ..*old(self) }),
    {
        let message = connection_test_message(config, outcome);
        self.setup.set_validation_message(message);
    }

    /// Opens the host settings form from the main screen, remembering the
    /// runtime to return to.
    pub fn open_setup_settings(&mut self)
        requires
            old(self).wf(),
        ensures
            final(self).wf(),
            open_setup_step(*old(self), *final(self)),
            final(self).config_path == old(self).config_path,
            final(self).database_path == old(self).database_path,
            final(self).last_poll_at == old(self).last_poll_at,
            final(self).refresh_pending == old(self).refresh_pending,
    {
        match self.take_mode() {
            AppMode::Main(rt) => {
                self.setup = SetupState::from_config(&rt.config);
                self.mode = AppMode::Setup { previous_runtime: Some(rt) };
                self.note(Notice::Info(String::from_str("Editing host settings.")));
            },
            other => {
                self.mode = other;
            },
        }
    }
}

/// What opening the host settings does: from the main screen, the form is
/// filled in from the configuration and remembers the runtime; in the form,
/// nothing happens.
pub open spec fn open_setup_step(a: GhStreamApp, b: GhStreamApp) -> bool {
    match a.mode {
        AppMode::Main(rt) => {
            &&& b.mode == (AppMode::Setup { previous_runtime: Some(rt) })
            &&& b.setup.name == rt.config.host.name
            &&& b.setup.scheme == rt.config.host.scheme
            &&& b.setup.hostname == rt.config.host.hostname
            &&& b.setup.rest_api_base_path == rt.config.host.rest_api_base_path
            &&& b.setup.kind == rt.config.host.kind
            &&& b.setup.pat == rt.config.auth.pat
            &&& b.setup.validation_message@ == Seq::<char>::empty()
            &&& b.stream == a.stream
            &&& b.status@ == "Editing host settings."@
            &&& b.status_history@ == retained(a.status_history@.push(StatusEntry::new_spec(b.status)))
        },
        _ => b == a,
    }
}

/// The runtime was made for the configuration on the store: the host is
/// recorded and the sidebar shows what the store holds.
pub open spec fn opened_runtime(rt: Runtime, config: AppConfig) -> bool {
    &&& rt.config == config
    &&& rt.storage.wf()
    &&& rt.sidebar_fresh()
    &&& exists|i: int|
        0 <= i < rt.storage.host_rows().len() && (#[trigger] rt.storage.host_rows()[i]).id == rt.host_id
            && rt.storage.host_rows()[i].hostname@ == config.host.hostname@
}

impl GhStreamApp {
    /// A runtime for the configuration on the given store: the host is
    /// recorded and the sidebar loaded.
    pub fn runtime_from_storage(config: AppConfig, storage: Storage) -> (r: Result<Runtime, StorageError>)
        requires
            storage.wf(),
        ensures
            match r {
                Ok(rt) => opened_runtime(rt, config) && rt.items@.len() == 0 && rt.storage.item_rows() == storage.item_rows()
                    && rt.storage.query_rows() == storage.query_rows() && rt.storage.filter_rows()
                    == storage.filter_rows() && rt.storage.match_rows() == storage.match_rows(),
                Err(e) => e == StorageError::IdsExhausted,
            },
            r is Err <==> host_unrecordable(storage, config),
    {
        let ghost rows0 = storage.host_rows();
        let mut storage = storage;
        let host_id = storage.ensure_host(&config.host)?;
        proof {
            crate::seq_util::lemma_first_index_some(
                rows0,
                host_named(config.host.hostname@),
            );
            match first_index(rows0, host_named(config.host.hostname@)) {
                Some(i) => {
                    assert(storage.host_rows()[i].id == host_id);
                },
                None => {
                    let i = storage.host_rows().len() - 1;
                    assert(storage.host_rows()[i].id == host_id);
                },
            }
        }
        let saved_queries = storage.list_saved_queries(host_id);
        let library_counts = storage.library_counts(host_id);
        Ok(Runtime { config, storage, host_id, library_counts, saved_queries, items: Vec::new() })
    }
}

/// The runtime of the mode can back the main screen: a runtime for the main
/// screen has a well-formed store, and one that the settings form returns to
/// already shows the inbox as the store holds it.
pub open spec fn mode_ready(mode: AppMode) -> bool {
    match mode {
        AppMode::Main(rt) => rt.storage.wf(),
        AppMode::Setup { previous_runtime } => match previous_runtime {
            Some(rt) => {
                &&& rt.storage.wf()
                &&& rt.sidebar_fresh()
                &&& is_listing(
                    item_views(rt.items@),
                    rt.storage,
                    rt.host_id,
                    Selection::Library(LibraryView::Inbox),
                    None,
                    rt.config.ui.default_sort,
                )
            },
            None => true,
        },
    }
}

/// `b` is the mode `a` with its main runtime, if any, reloaded for the
/// stream state.
pub open spec fn mode_reloaded(a: AppMode, b: AppMode, stream: StreamState) -> bool {
    match a {
        AppMode::Main(rt0) => b matches AppMode::Main(rt1) && reloaded(*rt0, *rt1, stream) && store_kept(*rt0, *rt1),
        _ => b == a,
    }
}

impl GhStreamApp {
    /// The application in the given mode, showing the inbox, with the status
    /// as the only entry of its history.
    pub fn initialize(
        config_path: String,
        database_path: String,
        mode: AppMode,
        setup: SetupState,
        status: String,
    ) -> (app: GhStreamApp)
        requires
            mode_ready(mode),
        ensures
            app.wf(),
            mode_reloaded(mode, app.mode, app.stream),
            app.config_path == config_path,
            app.database_path == database_path,
            app.setup == setup,
            app.status == status,
            app.status_history@ == seq![StatusEntry::new_spec(status)],
            app.stream.selection == Selection::Library(LibraryView::Inbox),
            app.stream.local_filter is None,
            app.stream.local_filter_input@ == Seq::<char>::empty(),
            app.stream.polling_interval_draft == 0,
            !app.stream.status_log_open,
            app.last_poll_at is None,
            !app.refresh_pending,
    {
        let mut app = GhStreamApp {
            config_path,
            database_path,
            mode,
            setup,
            stream: StreamState::new(),
            status: status.clone(),
            status_history: vec![StatusEntry::new(status)],
            last_poll_at: None,
            refresh_pending: false,
        };
        app.reload_current_view();
        app
    }

    /// A runtime for the configuration on a new store.
    pub fn open_runtime(config: AppConfig) -> (r: Result<Runtime, StorageError>)
        ensures
            r matches Ok(rt) && opened_runtime(rt, config),
    {
        match Storage::in_memory() {
            Ok(storage) => Self::runtime_from_storage(config, storage),
            Err(e) => Err(e),
        }
    }

    /// The application on a store that the caller prepared, showing the main
    /// screen.
    pub fn from_storage(config: AppConfig, storage: Storage, status: &str) -> (r: Result<GhStreamApp, StorageError>)
        requires
            storage.wf(),
        ensures
            match r {
                Ok(app) => {
                    &&& app.wf()
                    &&& app.main_runtime() matches Some(rt) && opened_runtime(rt, config)
                    &&& app.main_runtime() matches Some(rt) && rt.storage.item_rows() == storage.item_rows()
                        && rt.storage.query_rows() == storage.query_rows()
                        && rt.storage.filter_rows() == storage.filter_rows()
                        && rt.storage.match_rows() == storage.match_rows()
                    &&& app.status@ == status@
                    &&& app.status_history@ == seq![StatusEntry::new_spec(app.status)]
                    &&& app.stream.selection == Selection::Library(LibraryView::Inbox)
                    &&& app.stream.local_filter is None
                    &&& app.config_path@ == Seq::<char>::empty()
                    &&& app.database_path@ == Seq::<char>::empty()
                    &&& app.last_poll_at is None
                    &&& !app.refresh_pending
                    &&& app.setup.name == config.host.name
                    &&& app.setup.scheme == config.host.scheme
                    &&& app.setup.hostname == config.host.hostname
                    &&& app.setup.rest_api_base_path == config.host.rest_api_base_path
                    &&& app.setup.kind == config.host.kind
                    &&& app.setup.pat == config.auth.pat
                    &&& app.setup.validation_message@ == Seq::<char>::empty()
                },
                Err(e) => e == StorageError::IdsExhausted,
            },
            r is Err <==> host_unrecordable(storage, config),
    {
        let setup = SetupState::from_config(&config);
        let runtime = Self::runtime_from_storage(config, storage)?;
        Ok(Self::initialize(
            String::new(),
            String::new(),
            AppMode::Main(Box::new(runtime)),
            setup,
            String::from_str(status),
        ))
    }
}

impl Runtime {
    /// Points the runtime at another host configuration, recording the host
    /// in the store; a refused change leaves the runtime as it was.
    pub fn rehost(&mut self, config: AppConfig, stream: &StreamState) -> (r: Result<(), StorageError>)
        requires
            old(self).storage.wf(),
        ensures
            match r {
                Ok(()) => {
                    &&& final(self).config == config
                    &&& final(self).fresh(*stream)
                    &&& final(self).storage.item_rows() == old(self).storage.item_rows()
                    &&& final(self).storage.query_rows() == old(self).storage.query_rows()
                    &&& final(self).storage.filter_rows() == old(self).storage.filter_rows()
                    &&& final(self).storage.match_rows() == old(self).storage.match_rows()
                    &&& exists|i: int|
                        0 <= i < final(self).storage.host_rows().len() && (
                        #[trigger] final(self).storage.host_rows()[i]).id == final(self).host_id
                            && final(self).storage.host_rows()[i].hostname@ == config.host.hostname@
                },
                Err(e) => {
                    &&& e == StorageError::IdsExhausted
                    &&& runtime_kept_value(*old(self), *final(self))
                },
            },
            r is Err <==> host_unrecordable(old(self).storage, config),
    {
        let ghost rows0 = self.storage.host_rows();
        match self.storage.ensure_host(&config.host) {
            Ok(host_id) => {
                proof {
                    crate::seq_util::lemma_first_index_some(rows0, host_named(config.host.hostname@));
                    match first_index(rows0, host_named(config.host.hostname@)) {
                        Some(i) => {
                            assert(self.storage.host_rows()[i].id == host_id);
                        },
                        None => {
                            let i = self.storage.host_rows().len() - 1;
                            assert(self.storage.host_rows()[i].id == host_id);
                        },
                    }
                }
                self.host_id = host_id;
                self.config = config;
                self.reload(stream);
                Ok(())
            },
            Err(e) => Err(e),
        }
    }
}

/// The store cannot record the host of the configuration: it does not know
/// it yet and has no identifier left.
pub open spec fn host_unrecordable(st: Storage, config: AppConfig) -> bool {
    &&& first_index(st.host_rows(), host_named(config.host.hostname@)) is None
    &&& st.next_row_id() == i64::MAX
}

/// Nothing of the runtime changed but, possibly, how its store is laid out.
pub open spec fn runtime_kept_value(old: Runtime, new: Runtime) -> bool {
    &&& store_kept(old, new)
    &&& new.config == old.config
    &&& new.host_id == old.host_id
    &&& new.library_counts == old.library_counts
    &&& new.saved_queries == old.saved_queries
    &&& new.items == old.items
}

pub open spec fn ready_text() -> Seq<char> {
    "Ready"@
}

pub open spec fn saved_text() -> Seq<char> {
    "Configuration saved. PAT is stored as plain text in v1."@
}

/// What saving the host settings does to a runtime: it is pointed at the
/// configuration and the main screen shows it; when the store cannot record
/// the host, the failure is reported and the application stays in `kept`.
pub open spec fn setup_saved(a: GhStreamApp, rt0: Runtime, config: AppConfig, b: GhStreamApp, kept: AppMode) -> bool {
    &&& b.status_history@ == retained(a.status_history@.push(StatusEntry {
        message: b.status,
        level: if host_unrecordable(rt0.storage, config) {
            crate::status::StatusLevel::Error
        } else {
            crate::status::StatusLevel::Info
        },
    }))
    &&& if host_unrecordable(rt0.storage, config) {
        &&& b.status@ == "Configuration saved, but database failed: "@ + storage_error_text(
            StorageError::IdsExhausted,
        )
        &&& match (kept, b.mode) {
            (AppMode::Main(_), AppMode::Main(rt1)) => runtime_kept_value(rt0, *rt1),
            (
                AppMode::Setup { previous_runtime: Some(_) },
                AppMode::Setup { previous_runtime: Some(rt1) },
            ) => runtime_kept_value(rt0, *rt1),
            _ => false,
        }
    } else {
        &&& b.status@ == saved_text()
        &&& b.main_runtime() matches Some(rt1) && {
            &&& rt1.config == config
            &&& rt1.fresh(b.stream)
            &&& rt1.storage.item_rows() == rt0.storage.item_rows()
            &&& rt1.storage.query_rows() == rt0.storage.query_rows()
            &&& rt1.storage.filter_rows() == rt0.storage.filter_rows()
            &&& rt1.storage.match_rows() == rt0.storage.match_rows()
        }
    }
}

impl GhStreamApp {
    /// The application for the outcome of loading the configuration: the main
    /// screen when there is a configuration, the host settings form
    /// otherwise.
    pub fn from_paths(
        config_path: String,
        database_path: String,
        loaded: Result<AppConfig, ConfigError>,
    ) -> (app: GhStreamApp)
        ensures
            app.wf(),
            app.config_path == config_path,
            app.database_path == database_path,
            match loaded {
                Ok(config) => {
                    &&& app.main_runtime() matches Some(rt) && opened_runtime(rt, config)
                    &&& app.status@ == ready_text()
                },
                Err(e) => {
                    &&& app.mode == (AppMode::Setup { previous_runtime: None })
                    &&& app.status@ == first_run_text(e)
                },
            },
            app.setup.hostname@ == "github.com"@,
            app.setup.pat@ == Seq::<char>::empty(),
            app.status_history@ == seq![StatusEntry::new_spec(app.status)],
            app.stream.selection == Selection::Library(LibraryView::Inbox),
            app.stream.local_filter is None,
            app.last_poll_at is None,
            !app.refresh_pending,
    {
        let (mode, status) = match loaded {
            Ok(config) => match Self::open_runtime(config) {
                Ok(runtime) => (AppMode::Main(Box::new(runtime)), String::from_str("Ready")),
                Err(err) => (
                    AppMode::Setup { previous_runtime: None },
                    String::from_str("Database initialization failed: ").concat(
                        storage_error_message(err).as_str(),
                    ),
                ),
            },
            Err(err) => (AppMode::Setup { previous_runtime: None }, first_run_status(&err)),
        };
        Self::initialize(config_path, database_path, mode, SetupState::default(), status)
    }

    /// The application for the outcome of loading the configuration at the
    /// given paths.
    pub fn new(
        config_path: String,
        database_path: String,
        loaded: Result<AppConfig, ConfigError>,
    ) -> (app: GhStreamApp)
        ensures
            app.wf(),
            app.config_path == config_path,
            app.database_path == database_path,
            match loaded {
                Ok(config) => {
                    &&& app.main_runtime() matches Some(rt) && opened_runtime(rt, config)
                    &&& app.status@ == ready_text()
                },
                Err(e) => {
                    &&& app.mode == (AppMode::Setup { previous_runtime: None })
                    &&& app.status@ == first_run_text(e)
                },
            },
            app.setup.hostname@ == "github.com"@,
            app.setup.pat@ == Seq::<char>::empty(),
            app.status_history@ == seq![StatusEntry::new_spec(app.status)],
            app.stream.selection == Selection::Library(LibraryView::Inbox),
            app.stream.local_filter is None,
            app.last_poll_at is None,
            !app.refresh_pending,
    {
        Self::from_paths(config_path, database_path, loaded)
    }

    /// Returns to the runtime that the host settings form was opened from,
    /// if there is one.
    pub fn cancel_setup(&mut self, previous_runtime: Option<Box<Runtime>>)
        requires
            old(self).status_wf(),
            previous_runtime matches Some(rt) ==> rt.storage.wf(),
        ensures
            final(self).wf(),
            match previous_runtime {
                Some(rt0) => {
                    &&& final(self).main_runtime() matches Some(rt1) && reloaded(*rt0, rt1, final(self).stream)
                        && store_kept(*rt0, rt1)
                    &&& final(self).status@ == "Host settings unchanged."@
                    &&& final(self).status_history@ == retained(
                        old(self).status_history@.push(StatusEntry::new_spec(final(self).status)),
                    )
                },
                None => {
                    &&& final(self).mode == (AppMode::Setup { previous_runtime: None })
                    &&& final(self).status == old(self).status
                    &&& final(self).status_history == old(self).status_history
                },
            },
            final(self).stream == old(self).stream,
            final(self).setup == old(self).setup,
            final(self).config_path == old(self).config_path,
            final(self).database_path == old(self).database_path,
            final(self).last_poll_at == old(self).last_poll_at,
            final(self).refresh_pending == old(self).refresh_pending,
    {
        match previous_runtime {
            Some(runtime) => {
                self.mode = AppMode::Main(runtime);
                self.note(Notice::Info(String::from_str("Host settings unchanged.")));
                self.reload_current_view();
            },
            None => {
                self.mode = AppMode::Setup { previous_runtime: None };
            },
        }
    }

    /// Handles what the host settings form reports: saving and testing are
    /// handed back as external work, going back is done here.
    pub fn handle_setup_event(&mut self, event: SetupEvent) -> (r: Option<ExternalEffect>)
        requires
            old(self).wf(),
        ensures
            final(self).wf(),
            match event {
                SetupEvent::Save(config) => r == Some(ExternalEffect::SaveSetup(config)) && *final(self) == *old(self),
                SetupEvent::Test(config) => r == Some(ExternalEffect::TestConnection(config)) && *final(self) == *old(self),
                SetupEvent::Cancel => {
                    &&& r is None
                    &&& match old(self).mode {
                        AppMode::Setup { previous_runtime: Some(rt0) } => {
                            &&& final(self).main_runtime() matches Some(rt1) && reloaded(*rt0, rt1, final(self).stream)
                                && store_kept(*rt0, rt1)
                            &&& final(self).status@ == "Host settings unchanged."@
                            &&& final(self).status_history@ == retained(
                                old(self).status_history@.push(StatusEntry::new_spec(final(self).status)),
                            )
                        },
                        AppMode::Setup { previous_runtime: None } => {
                            &&& final(self).mode == old(self).mode
                            &&& final(self).status == old(self).status
                            &&& final(self).status_history == old(self).status_history
                        },
                        AppMode::Main(_) => *final(self) == *old(self),
                    }
                    &&& final(self).stream == old(self).stream
                    &&& final(self).setup == old(self).setup
                    &&& final(self).config_path == old(self).config_path
                    &&& final(self).database_path == old(self).database_path
                    &&& final(self).last_poll_at == old(self).last_poll_at
                    &&& final(self).refresh_pending == old(self).refresh_pending
                },
            },
    {
        match event {
            SetupEvent::Save(config) => Some(ExternalEffect::SaveSetup(config)),
            SetupEvent::Test(config) => Some(ExternalEffect::TestConnection(config)),
            SetupEvent::Cancel => {
                match self.take_mode() {
                    AppMode::Setup { previous_runtime } => {
                        self.cancel_setup(previous_runtime);
                    },
                    other => {
                        self.mode = other;
                    },
                }
                None
            },
        }
    }

    /// Finishes saving the host settings, once the caller wrote the
    /// configuration file (or failed to): the runtime that the form was
    /// opened from, or a new one, is pointed at the configuration and the
    /// main screen shows it.
    pub fn save_setup_config(&mut self, config: AppConfig, written: Result<(), String>)
        requires
            old(self).wf(),
        ensures
            final(self).wf(),
            final(self).stream == old(self).stream,
            match written {
                Err(m) => {
                    &&& final(self).mode == old(self).mode
                    &&& final(self).status == m
                    &&& final(self).status_history@ == retained(
                        old(self).status_history@.push(StatusEntry::new_error_spec(m)),
                    )
                },
                Ok(()) => match old(self).mode {
                    AppMode::Setup { previous_runtime: None } => {
                        &&& final(self).status@ == saved_text()
                        &&& final(self).status_history@ == retained(
                            old(self).status_history@.push(StatusEntry::new_spec(final(self).status)),
                        )
                        &&& final(self).main_runtime() matches Some(rt) && opened_runtime(rt, config)
                            && rt.fresh(final(self).stream)
                    },
                    AppMode::Setup { previous_runtime: Some(rt0) } => setup_saved(
                        *old(self),
                        *rt0,
                        config,
                        *final(self),
                        AppMode::Setup { previous_runtime: Some(rt0) },
                    ),
                    AppMode::Main(rt0) => setup_saved(*old(self), *rt0, config, *final(self), AppMode::Main(rt0)),
                },
            },
    {
        match written {
            Err(m) => {
                self.note(Notice::Error(m));
            },
            Ok(()) => {
                match self.take_mode() {
                    AppMode::Setup { previous_runtime: Some(rt) } => {
                        let mut rt = *rt;
                        match rt.rehost(config, &self.stream) {
                            Ok(()) => {
                                self.mode = AppMode::Main(Box::new(rt));
                                self.note(Notice::Info(String::from_str(
                                    "Configuration saved. PAT is stored as plain text in v1.",
                                )));
                            },
                            Err(e) => {
                                self.mode = AppMode::Setup { previous_runtime: Some(Box::new(rt)) };
                                self.note(Notice::Error(String::from_str(
                                    "Configuration saved, but database failed: ",
                                ).concat(storage_error_message(e).as_str())));
                            },
                        }
                    },
                    AppMode::Main(rt) => {
                        let mut rt = *rt;
                        match rt.rehost(config, &self.stream) {
                            Ok(()) => {
                                self.mode = AppMode::Main(Box::new(rt));
                                self.note(Notice::Info(String::from_str(
                                    "Configuration saved. PAT is stored as plain text in v1.",
                                )));
                            },
                            Err(e) => {
                                self.mode = AppMode::Main(Box::new(rt));
                                self.note(Notice::Error(String::from_str(
                                    "Configuration saved, but database failed: ",
                                ).concat(storage_error_message(e).as_str())));
                            },
                        }
                    },
                    AppMode::Setup { previous_runtime: None } => {
                        match Self::open_runtime(config) {
                            Ok(rt) => {
                                let mut rt = rt;
                                rt.reload(&self.stream);
                                self.mode = AppMode::Main(Box::new(rt));
                                self.note(Notice::Info(String::from_str(
                                    "Configuration saved. PAT is stored as plain text in v1.",
                                )));
                            },
                            Err(e) => {
                                self.mode = AppMode::Setup { previous_runtime: None };
                                self.note(Notice::Error(String::from_str(
                                    "Configuration saved, but database failed: ",
                                ).concat(storage_error_message(e).as_str())));
                            },
                        }
                    },
                }
            },
        }
    }
}

/// How `moved_queries` trades a saved query with a neighbour of its host.
proof fn lemma_moved_queries_swap(q: Seq<QueryRow>, id: i64, up: bool, k: int, j: int)
    requires
        0 <= k < q.len(),
        0 <= j < q.len(),
        q[k].id == id,
        forall|t: int| 0 <= t < k ==> (#[trigger] q[t]).id != id,
        q[j].host_id == q[k].host_id,
        up ==> j < k && forall|t: int| j < t < k ==> (#[trigger] q[t]).host_id != q[k].host_id,
        !up ==> k < j && forall|t: int| k < t < j ==> (#[trigger] q[t]).host_id != q[k].host_id,
    ensures
        moved_queries(q, id, up) == q.update(j, QueryRow { position: q[j].position, ..q[k] }).update(
            k,
            QueryRow { position: q[k].position, ..q[j] },
        ),
{
    crate::seq_util::lemma_first_index_is(q, |r: QueryRow| r.id == id, k);
    assert(is_neighbor(q, k, j, up));
    let j2 = choose|j2: int| is_neighbor(q, k, j2, up);
    if j2 != j {
        if up {
            if j2 < j {
                assert(q[j].host_id != q[k].host_id);
            } else {
                assert(q[j2].host_id != q[k].host_id);
            }
        } else {
            if j2 < j {
                assert(q[j2].host_id != q[k].host_id);
            } else {
                assert(q[j].host_id != q[k].host_id);
            }
        }
    }
}

/// Moving a saved query up puts it in the place of the nearest earlier query
/// of its host, which takes the moved query's place: the two trade places
/// and positions, and nothing else of the store changes.
pub proof fn lemma_move_up_trades_with_previous(
    rt0: Runtime,
    s0: StreamState,
    id: i64,
    rt1: Runtime,
    s1: StreamState,
    n: Notice,
    k: int,
    j: int,
)
    requires
        local_step(rt0, s0, StreamEvent::MoveQueryUp(id), rt1, s1, n),
        0 <= j < k < rt0.storage.query_rows().len(),
        rt0.storage.query_rows()[k].id == id,
        forall|t: int| 0 <= t < k ==> (#[trigger] rt0.storage.query_rows()[t]).id != id,
        rt0.storage.query_rows()[j].host_id == rt0.storage.query_rows()[k].host_id,
        forall|t: int|
            j < t < k ==> (#[trigger] rt0.storage.query_rows()[t]).host_id != rt0.storage.query_rows()[k].host_id,
    ensures
        rt1.storage.query_rows().len() == rt0.storage.query_rows().len(),
        rt1.storage.query_rows()[j] == (QueryRow {
            position: rt0.storage.query_rows()[j].position,
            ..rt0.storage.query_rows()[k]
        }),
        rt1.storage.query_rows()[k] == (QueryRow {
            position: rt0.storage.query_rows()[k].position,
            ..rt0.storage.query_rows()[j]
        }),
        forall|t: int|
            0 <= t < rt0.storage.query_rows().len() && t != j && t != k ==> #[trigger] rt1.storage.query_rows()[t]
                == rt0.storage.query_rows()[t],
        rt1.storage.item_rows() == rt0.storage.item_rows(),
        rt1.storage.match_rows() == rt0.storage.match_rows(),
{
    lemma_moved_queries_swap(rt0.storage.query_rows(), id, true, k, j);
}

/// Moving a saved query down puts it in the place of the nearest later query
/// of its host, which takes the moved query's place: the two trade places
/// and positions, and nothing else of the store changes.
pub proof fn lemma_move_down_trades_with_next(
    rt0: Runtime,
    s0: StreamState,
    id: i64,
    rt1: Runtime,
    s1: StreamState,
    n: Notice,
    k: int,
    j: int,
)
    requires
        local_step(rt0, s0, StreamEvent::MoveQueryDown(id), rt1, s1, n),
        0 <= k < j < rt0.storage.query_rows().len(),
        rt0.storage.query_rows()[k].id == id,
        forall|t: int| 0 <= t < k ==> (#[trigger] rt0.storage.query_rows()[t]).id != id,
        rt0.storage.query_rows()[j].host_id == rt0.storage.query_rows()[k].host_id,
        forall|t: int|
            k < t < j ==> (#[trigger] rt0.storage.query_rows()[t]).host_id != rt0.storage.query_rows()[k].host_id,
    ensures
        rt1.storage.query_rows().len() == rt0.storage.query_rows().len(),
        rt1.storage.query_rows()[j] == (QueryRow {
            position: rt0.storage.query_rows()[j].position,
            ..rt0.storage.query_rows()[k]
        }),
        rt1.storage.query_rows()[k] == (QueryRow {
            position: rt0.storage.query_rows()[k].position,
            ..rt0.storage.query_rows()[j]
        }),
        forall|t: int|
            0 <= t < rt0.storage.query_rows().len() && t != j && t != k ==> #[trigger] rt1.storage.query_rows()[t]
                == rt0.storage.query_rows()[t],
        rt1.storage.item_rows() == rt0.storage.item_rows(),
        rt1.storage.match_rows() == rt0.storage.match_rows(),
{
    lemma_moved_queries_swap(rt0.storage.query_rows(), id, false, k, j);
}

/// Marking a filter stream read marks read exactly the items that it lists:
/// those that a refresh found for its saved query, that are not archived
/// and that its filter admits. Every other item stays as it was.
pub proof fn lemma_mark_filter_stream_read(
    rt0: Runtime,
    s0: StreamState,
    fid: i64,
    rt1: Runtime,
    s1: StreamState,
    n: Notice,
    f: int,
)
    requires
        local_step(rt0, s0, StreamEvent::MarkFilterStreamRead(fid), rt1, s1, n),
        0 <= f < rt0.storage.filter_rows().len(),
        rt0.storage.filter_rows()[f].id == fid,
        forall|t: int| 0 <= t < f ==> (#[trigger] rt0.storage.filter_rows()[t]).id != fid,
    ensures
        rt1.storage.item_rows().len() == rt0.storage.item_rows().len(),
        forall|k: int|
            0 <= k < rt0.storage.item_rows().len() ==> {
                let r = rt0.storage.item_rows()[k];
                let fs = rt0.storage.filter_rows()[f];
                if rt0.storage.match_rows().contains(
                    QueryMatch { saved_query_id: fs.saved_query_id, stream_item_id: r.item.id },
                ) && !r.item.is_archived && filter_text_matches(fs.filter_query@, r.item) {
                    #[trigger] rt1.storage.item_rows()[k] == (StoredItemView {
                        item: StreamItemView { is_unread: false, ..r.item },
                        ..r
                    })
                } else {
                    rt1.storage.item_rows()[k] == r
                }
            },
        rt1.storage.query_rows() == rt0.storage.query_rows(),
        rt1.storage.filter_rows() == rt0.storage.filter_rows(),
        rt1.storage.match_rows() == rt0.storage.match_rows(),
{
    crate::seq_util::lemma_first_index_is(rt0.storage.filter_rows(), filter_has_id(fid), f);
}

} // verus!
