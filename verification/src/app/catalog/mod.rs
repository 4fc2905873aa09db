//! The complete shared application backed by session-only sample data: the
//! demonstration runs every screen and action of the application on an
//! in-memory store, and simulates the work that would reach outside it.

#![verifier::loop_isolation(false)]

pub mod fixtures;
pub mod transfer;

use vstd::prelude::*;
use vstd::string::*;
use crate::app::actions::{
    Notice, item_action, item_flag_set, reloaded, storage_error_message, storage_error_text,
    store_kept,
};
use crate::app::effects::ExternalEffect;
use crate::app::screens::setup::{SetupState, shows_config};
use crate::app::screens::stream::{ItemAction, StreamState};
use crate::app::{AppMode, GhStreamApp, Runtime};
use crate::models::{
    AppConfig, FontSize, HostKind, ImportedSavedQuery, ImportedSavedQueryView, LibraryCounts,
    LibraryView, RefreshConfig, Scheme, Selection, SortOrder, StreamItemView, Theme, UiConfig,
    default_refresh, default_ui, item_views,
};
use crate::status::{StatusEntry, retained};
use crate::storage::{
    QueryMatch, Storage, StorageError, StoredItemView, imported_filter_rows, imported_query_rows,
    is_listing, local_admits, selected_items, selection_member, store_is,
};
use self::fixtures::{
    avatar_free, is_fresh_seeded_row, is_sample_definitions, people_avatar_free, refresh_finds,
    rows_avatar_free,
};
use self::transfer::{export_step, import_source, import_step, imported};
use crate::app::local_terms;
use crate::filter::TermSpec;
use crate::text::blank;

verus! {

/// The demonstration: the shared application, and the saved query
/// definitions that the last export kept in memory.
pub struct CatalogApp {
    pub app: GhStreamApp,
    pub exported_queries: Option<Vec<ImportedSavedQuery>>,
}

/// What the status line says once the demonstration has started.
pub open spec fn demo_status_text() -> Seq<char> {
    "Demo: sample data; all changes stay in memory."@
}

/// The configuration of the demonstration: a GitHub Enterprise host named
/// "Sample host" at github.example.test, a placeholder token, and the
/// preferences of a fresh configuration.
pub open spec fn is_demo_config(c: AppConfig) -> bool {
    &&& c.host.name@ == "Sample host"@
    &&& c.host.scheme == Scheme::Https
    &&& c.host.hostname@ == "github.example.test"@
    &&& c.host.rest_api_base_path@ == "/api/v3"@
    &&& c.host.kind == HostKind::Ghes
    &&& c.auth.pat@ == "demo-token"@
    &&& c.ui == default_ui()
    &&& c.refresh == default_refresh()
}

/// The store of the demonstration as it starts: the one host, the sample
/// saved queries and filter streams, the seven samples in order and nothing
/// else, no avatar anywhere, and exactly the matches that a refresh finds.
/// Identifiers are handed out in that order from the host's on: the saved
/// queries and filter streams take the next three, the samples the seven
/// after them.
pub open spec fn is_demo_store(st: Storage, host_id: i64) -> bool {
    &&& st.wf()
    &&& st.host_rows().len() == 1
    &&& st.host_rows()[0].id == host_id
    &&& st.host_rows()[0].hostname@ == "github.example.test"@
    &&& st.host_rows()[0].kind == HostKind::Ghes
    &&& exists|defs: Seq<ImportedSavedQueryView>|
        #[trigger] is_sample_definitions(defs) && st.query_rows() == imported_query_rows(defs, host_id, host_id + 1)
            && st.filter_rows() == imported_filter_rows(defs, host_id + 1)
    &&& st.item_rows().len() == 7
    &&& forall|n: i64|
        1 <= n <= 7 ==> #[trigger] is_fresh_seeded_row(st.item_rows()[n - 1], host_id, n)
            && st.item_rows()[n - 1].item.id == host_id + 3 + n
    &&& st.next_row_id() == host_id + 11
    &&& rows_avatar_free(st.item_rows())
    &&& forall|m: QueryMatch| #[trigger] st.match_rows().contains(m) <==> refresh_finds(st, host_id, m)
}

/// Nothing of the application changed but its mode and status line.
pub open spec fn kept_but_mode(a: GhStreamApp, b: GhStreamApp) -> bool {
    &&& b.config_path == a.config_path
    &&& b.database_path == a.database_path
    &&& b.setup == a.setup
    &&& b.stream == a.stream
    &&& b.last_poll_at == a.last_poll_at
    &&& b.refresh_pending == a.refresh_pending
}

/// The status line of `b` reads `text`, and is the newest entry of the
/// history of `a`.
pub open spec fn reported(a: GhStreamApp, b: GhStreamApp, text: Seq<char>) -> bool {
    &&& b.status@ == text
    &&& b.status_history@ == retained(a.status_history@.push(StatusEntry::new_spec(b.status)))
}

impl CatalogApp {
    /// The demonstration is consistent: the application is.
    pub open spec fn wf(&self) -> bool {
        self.app.wf()
    }

    /// Starts the demonstration on a new in-memory store seeded with the
    /// samples, showing the inbox.
    pub fn new() -> (r: Result<CatalogApp, StorageError>)
        ensures
            r matches Ok(c) && {
                &&& c.wf()
                &&& c.exported_queries is None
                &&& c.app.main_runtime() matches Some(rt) && is_demo_config(rt.config) && is_demo_store(
                    rt.storage,
                    rt.host_id,
                )
                &&& c.app.status@ == demo_status_text()
                &&& c.app.status_history@ == seq![StatusEntry::new_spec(c.app.status)]
                &&& c.app.stream.selection == Selection::Library(LibraryView::Inbox)
                &&& c.app.stream.local_filter is None
                &&& c.app.stream.local_filter_input@ == Seq::<char>::empty()
                &&& c.app.stream.polling_interval_draft == 0
                &&& !c.app.stream.status_log_open
                &&& c.app.last_poll_at is None
                &&& !c.app.refresh_pending
                &&& c.app.config_path@ == Seq::<char>::empty()
                &&& c.app.database_path@ == Seq::<char>::empty()
                &&& c.app.main_runtime() matches Some(rt) && rt.host_id == 1 && shows_config(c.app.setup, rt.config)
            },
    {
        let mut config = AppConfig::default_with_pat(String::from_str("demo-token"));
        config.host.hostname = String::from_str("github.example.test");
        config.host.name = String::from_str("Sample host");
        config.host.kind = HostKind::Ghes;
        let mut storage = match Storage::in_memory() {
            Ok(s) => s,
            Err(e) => {
                return Err(e);
            },
        };
        let ghost st0 = storage;
        let host_id = match storage.ensure_host(&config.host) {
            Ok(id) => id,
            Err(e) => {
                return Err(e);
            },
        };
        proof {
            crate::seq_util::lemma_first_index_none(
                st0.host_rows(),
                crate::storage::host_named(config.host.hostname@),
            );
        }
        let ghost st1 = storage;
        match fixtures::seed(&mut storage, host_id) {
            Ok(()) => {},
            Err(e) => {
                return Err(e);
            },
        }
        proof {
            assert(st1.query_rows().filter(|q: crate::storage::QueryRow| q.host_id != host_id)
                =~= Seq::<crate::storage::QueryRow>::empty());
            assert(st1.filter_rows().filter(
                |f: crate::models::FilterStream| !crate::storage::query_of_host(st1.query_rows(), f.saved_query_id, host_id),
            ) =~= Seq::<crate::models::FilterStream>::empty());
            assert(st1.match_rows().filter(
                |m: QueryMatch| !crate::storage::query_of_host(st1.query_rows(), m.saved_query_id, host_id),
            ) =~= Seq::<QueryMatch>::empty());
            let defs = choose|defs: Seq<ImportedSavedQueryView>|
                #[trigger] is_sample_definitions(defs) && storage.query_rows() == st1.query_rows().filter(
                    |q: crate::storage::QueryRow| q.host_id != host_id,
                ) + imported_query_rows(defs, host_id, st1.next_row_id() as int)
                    && storage.filter_rows() == st1.filter_rows().filter(
                    |f: crate::models::FilterStream|
                        !crate::storage::query_of_host(st1.query_rows(), f.saved_query_id, host_id),
                ) + imported_filter_rows(defs, st1.next_row_id() as int);
            assert(storage.query_rows() =~= imported_query_rows(defs, host_id, host_id + 1));
            assert(storage.filter_rows() =~= imported_filter_rows(defs, host_id + 1));
            assert(self::fixtures::no_items_of(st1.item_rows(), host_id));
            assert(st1.item_rows().len() == 0);
            assert forall|n: i64| 1 <= n <= 7 implies #[trigger] is_fresh_seeded_row(
                storage.item_rows()[n - 1],
                host_id,
                n,
            ) && storage.item_rows()[n - 1].item.id == host_id + 3 + n by {
                assert(is_fresh_seeded_row(storage.item_rows()[0 + n - 1], host_id, n));
            }
            assert(is_demo_store(storage, host_id));
        }
        let setup = SetupState::from_config(&config);
        let runtime = Runtime {
            config,
            storage,
            host_id,
            library_counts: LibraryCounts { inbox: 0, unread: 0, bookmarked: 0, archived: 0 },
            saved_queries: Vec::new(),
            items: Vec::new(),
        };
        let app = GhStreamApp::initialize(
            String::new(),
            String::new(),
            AppMode::Main(Box::new(runtime)),
            setup,
            String::from_str("Demo: sample data; all changes stay in memory."),
        );
        Ok(CatalogApp { app, exported_queries: None })
    }

    /// Reports an informational message on the status line.
    pub fn status(&mut self, message: &str)
        requires
            old(self).app.status_wf(),
        ensures
            final(self).app.status_wf(),
            reported(old(self).app, final(self).app, message@),
            kept_but_mode(old(self).app, final(self).app),
            final(self).app.mode == old(self).app.mode,
            final(self).exported_queries == old(self).exported_queries,
    {
        self.app.note(Notice::Info(String::from_str(message)));
    }
}


/// Only the status line changed, to `text`.
pub open spec fn only_reported(c0: CatalogApp, c1: CatalogApp, text: Seq<char>) -> bool {
    &&& kept_but_mode(c0.app, c1.app)
    &&& c1.app.mode == c0.app.mode
    &&& c1.exported_queries == c0.exported_queries
    &&& reported(c0.app, c1.app, text)
}

/// A simulated connection test: the form says that it succeeded.
pub open spec fn test_connection_step(c0: CatalogApp, c1: CatalogApp) -> bool {
    &&& c1.app.setup == (SetupState { validation_message: c1.app.setup.validation_message, ..c0.app.setup })
    &&& c1.app.setup.validation_message@ == "Demo connection succeeded (simulated; no network request)."@
    &&& c1.app == (GhStreamApp { setup: c1.app.setup, ..c0.app })
    &&& c1.exported_queries == c0.exported_queries
}

/// Saving the host settings in memory: from the form opened on the main
/// screen, the runtime gets the new host and token, keeps all else (its
/// store, saved queries, items and counts), and the main screen returns;
/// otherwise nothing happens.
pub open spec fn save_setup_step(c0: CatalogApp, config: AppConfig, c1: CatalogApp) -> bool {
    &&& kept_but_mode(c0.app, c1.app)
    &&& c1.exported_queries == c0.exported_queries
    &&& match c0.app.mode {
        AppMode::Setup { previous_runtime: Some(rt0) } => {
            &&& c1.app.main_runtime() == Some(
                Runtime { config: AppConfig { host: config.host, auth: config.auth, ..rt0.config }, ..*rt0 },
            )
            &&& reported(c0.app, c1.app, "Demo host settings saved in memory."@)
        },
        _ => c1.app == c0.app,
    }
}

/// A simulated refresh: the runtime records the matches that the sample
/// queries find and shows the store again.
pub open spec fn refresh_step(c0: CatalogApp, c1: CatalogApp) -> bool {
    &&& kept_but_mode(c0.app, c1.app)
    &&& c1.exported_queries == c0.exported_queries
    &&& reported(c0.app, c1.app, "Demo refresh completed with sample results; no network request."@)
    &&& match c0.app.mode {
        AppMode::Main(rt0) => c1.app.main_runtime() matches Some(rt1) && {
            &&& reloaded(*rt0, rt1, c1.app.stream)
            &&& store_is(
                rt1.storage,
                rt0.storage.host_rows(),
                rt0.storage.item_rows(),
                rt0.storage.query_rows(),
                rt0.storage.filter_rows(),
                rt1.storage.match_rows(),
                rt0.storage.next_row_id(),
            )
            &&& forall|m: QueryMatch|
                #[trigger] rt1.storage.match_rows().contains(m) <==> rt0.storage.match_rows().contains(m)
                    || refresh_finds(rt0.storage, rt0.host_id, m)
        },
        _ => c1.app.mode == c0.app.mode,
    }
}

/// Opening an item, simulated: it is marked read.
pub open spec fn open_item_step(c0: CatalogApp, id: i64, c1: CatalogApp) -> bool {
    &&& kept_but_mode(c0.app, c1.app)
    &&& c1.exported_queries == c0.exported_queries
    &&& reported(c0.app, c1.app, "Demo item opening simulated; no browser was opened."@)
    &&& match c0.app.mode {
        AppMode::Main(rt0) => c1.app.main_runtime() matches Some(rt1) && item_flag_set(
            *rt0,
            rt1,
            id,
            crate::storage::ItemFlag::Unread,
            false,
        ) && reloaded(*rt0, rt1, c1.app.stream),
        _ => c1.app.mode == c0.app.mode,
    }
}

/// A preference saved in memory: the runtime of the main screen gets
/// `config`, the screen shows the store again, and the status line says
/// `text`.
pub open spec fn preference_step(c0: CatalogApp, c1: CatalogApp, config: spec_fn(AppConfig) -> AppConfig, text: Seq<char>) -> bool {
    &&& c1.exported_queries == c0.exported_queries
    &&& reported(c0.app, c1.app, text)
    &&& match c0.app.mode {
        AppMode::Main(rt0) => c1.app.main_runtime() matches Some(rt1) && {
            &&& rt1.config == config(rt0.config)
            &&& rt1.host_id == rt0.host_id
            &&& store_kept(*rt0, rt1)
            &&& rt1.fresh(c1.app.stream)
        },
        _ => c1.app.mode == c0.app.mode,
    }
}

/// The configuration with another default sort order.
pub open spec fn with_sort(sort: SortOrder) -> spec_fn(AppConfig) -> AppConfig {
    |c: AppConfig| AppConfig { ui: UiConfig { default_sort: sort, ..c.ui }, ..c }
}

/// The configuration with another polling interval.
pub open spec fn with_polling(seconds: u32) -> spec_fn(AppConfig) -> AppConfig {
    |c: AppConfig| AppConfig { refresh: RefreshConfig { polling_interval_seconds: seconds }, ..c }
}

/// The configuration with another theme.
pub open spec fn with_theme(theme: Theme) -> spec_fn(AppConfig) -> AppConfig {
    |c: AppConfig| AppConfig { ui: UiConfig { theme: theme, ..c.ui }, ..c }
}

/// The configuration with another font size.
pub open spec fn with_font_size(size: FontSize) -> spec_fn(AppConfig) -> AppConfig {
    |c: AppConfig| AppConfig { ui: UiConfig { font_size: size, ..c.ui }, ..c }
}

/// Nothing of the application changed but its mode and status line, and
/// the polling interval being typed, which is cleared.
pub open spec fn polling_draft_cleared(a: GhStreamApp, b: GhStreamApp) -> bool {
    b == (GhStreamApp {
        mode: b.mode,
        stream: StreamState { polling_interval_draft: 0, ..a.stream },
        status: b.status,
        status_history: b.status_history,
        ..a
    })
}

/// What carrying out an external effect does in the demonstration, where
/// nothing reaches outside: each effect is simulated in memory.
pub open spec fn executed(c0: CatalogApp, effect: ExternalEffect, c1: CatalogApp, r: Result<(), StorageError>) -> bool {
    match effect {
        ExternalEffect::TestConnection(_) => r is Ok && test_connection_step(c0, c1),
        ExternalEffect::SaveSetup(config) => r is Ok && save_setup_step(c0, config, c1),
        ExternalEffect::Refresh => r is Ok && refresh_step(c0, c1),
        ExternalEffect::OpenItem { id, url: _ } => r is Ok && open_item_step(c0, id, c1),
        ExternalEffect::PreviewQuery { query: _, source: _ } => r is Ok && only_reported(
            c0,
            c1,
            "Demo query preview simulated; no browser was opened."@,
        ),
        ExternalEffect::ExportQueries(path) => r is Ok && export_step(c0, path@, c1),
        ExternalEffect::ImportQueries(path) => import_step(c0, path@, c1, r),
        ExternalEffect::SetDefaultSort(sort) => r is Ok && kept_but_mode(c0.app, c1.app) && preference_step(
            c0,
            c1,
            with_sort(sort),
            "Demo sort preference saved in memory."@,
        ),
        ExternalEffect::SetPollingInterval(seconds) => r is Ok && polling_draft_cleared(c0.app, c1.app)
            && preference_step(
            c0,
            c1,
            with_polling(seconds),
            "Demo polling preference saved in memory; automatic polling is inactive."@,
        ),
        ExternalEffect::SetTheme(theme) => r is Ok && kept_but_mode(c0.app, c1.app) && preference_step(
            c0,
            c1,
            with_theme(theme),
            "Demo theme saved in memory."@,
        ),
        ExternalEffect::SetFontSize(size) => r is Ok && kept_but_mode(c0.app, c1.app) && preference_step(
            c0,
            c1,
            with_font_size(size),
            "Demo font size saved in memory."@,
        ),
    }
}

impl CatalogApp {
    /// Carries out an external effect that the shared application handed
    /// back, simulating it in memory.
    pub fn execute_effect(&mut self, effect: ExternalEffect) -> (r: Result<(), StorageError>)
        requires
            old(self).wf(),
        ensures
            final(self).wf(),
            executed(*old(self), effect, *final(self), r),
    {
        match effect {
            ExternalEffect::TestConnection(_) => {
                self.test_connection();
            },
            ExternalEffect::SaveSetup(config) => {
                self.save_setup(config);
            },
            ExternalEffect::Refresh => {
                self.refresh();
            },
            ExternalEffect::OpenItem { id, url: _ } => {
                self.open_item(id);
            },
            ExternalEffect::PreviewQuery { query: _, source: _ } => {
                self.status("Demo query preview simulated; no browser was opened.");
            },
            ExternalEffect::ExportQueries(path) => {
                self.export_queries(path.as_str());
            },
            ExternalEffect::ImportQueries(path) => {
                return self.import_queries(path.as_str());
            },
            ExternalEffect::SetDefaultSort(sort) => {
                self.set_default_sort(sort);
            },
            ExternalEffect::SetPollingInterval(seconds) => {
                self.set_polling_interval(seconds);
            },
            ExternalEffect::SetTheme(theme) => {
                self.set_theme(theme);
            },
            ExternalEffect::SetFontSize(size) => {
                self.set_font_size(size);
            },
        }
        Ok(())
    }
}

impl CatalogApp {
    /// Simulates a connection test.
    pub fn test_connection(&mut self)
        requires
            old(self).wf(),
        ensures
            final(self).wf(),
            test_connection_step(*old(self), *final(self)),
    {
        self.app.setup.set_validation_message(
            String::from_str("Demo connection succeeded (simulated; no network request)."),
        );
    }

    /// Saves the host settings in memory.
    pub fn save_setup(&mut self, config: AppConfig)
        requires
            old(self).wf(),
        ensures
            final(self).wf(),
            save_setup_step(*old(self), config, *final(self)),
    {
        match self.app.take_mode() {
            AppMode::Setup { previous_runtime: Some(rt) } => {
                let mut rt = *rt;
                rt.config.host = config.host;
                rt.config.auth = config.auth;
                self.app.mode = AppMode::Main(Box::new(rt));
                self.status("Demo host settings saved in memory.");
            },
            other => {
                self.app.mode = other;
            },
        }
    }

    /// Simulates a refresh.
    pub fn refresh(&mut self)
        requires
            old(self).wf(),
        ensures
            final(self).wf(),
            refresh_step(*old(self), *final(self)),
    {
        match self.app.take_mode() {
            AppMode::Main(rt) => {
                let mut rt = *rt;
                let _ = fixtures::refresh_matches(&mut rt.storage, rt.host_id);
                rt.reload(&self.app.stream);
                self.app.mode = AppMode::Main(Box::new(rt));
            },
            other => {
                self.app.mode = other;
            },
        }
        self.status("Demo refresh completed with sample results; no network request.");
    }

    /// Simulates opening an item: it is marked read.
    pub fn open_item(&mut self, id: i64)
        requires
            old(self).wf(),
        ensures
            final(self).wf(),
            open_item_step(*old(self), id, *final(self)),
    {
        match self.app.take_mode() {
            AppMode::Main(rt) => {
                let mut rt = *rt;
                let _ = item_action(&mut rt, &self.app.stream, &ItemAction::MarkRead(id));
                self.app.mode = AppMode::Main(Box::new(rt));
            },
            other => {
                self.app.mode = other;
            },
        }
        self.status("Demo item opening simulated; no browser was opened.");
    }

    /// Saves the default sort order in memory.
    pub fn set_default_sort(&mut self, sort: SortOrder)
        requires
            old(self).wf(),
        ensures
            final(self).wf(),
            kept_but_mode(old(self).app, final(self).app),
            preference_step(*old(self), *final(self), with_sort(sort), "Demo sort preference saved in memory."@),
    {
        match self.app.take_mode() {
            AppMode::Main(rt) => {
                let mut rt = *rt;
                rt.config.ui.default_sort = sort;
                rt.reload(&self.app.stream);
                self.app.mode = AppMode::Main(Box::new(rt));
            },
            other => {
                self.app.mode = other;
            },
        }
        self.status("Demo sort preference saved in memory.");
    }

    /// Saves the polling interval in memory; the demonstration never polls.
    pub fn set_polling_interval(&mut self, seconds: u32)
        requires
            old(self).wf(),
        ensures
            final(self).wf(),
            polling_draft_cleared(old(self).app, final(self).app),
            preference_step(
                *old(self),
                *final(self),
                with_polling(seconds),
                "Demo polling preference saved in memory; automatic polling is inactive."@,
            ),
    {
        match self.app.take_mode() {
            AppMode::Main(rt) => {
                let mut rt = *rt;
                rt.config.refresh.polling_interval_seconds = seconds;
                self.app.mode = AppMode::Main(Box::new(rt));
            },
            other => {
                self.app.mode = other;
            },
        }
        self.app.stream.polling_interval_draft = 0;
        self.status("Demo polling preference saved in memory; automatic polling is inactive.");
    }

    /// Saves the theme in memory.
    pub fn set_theme(&mut self, theme: Theme)
        requires
            old(self).wf(),
        ensures
            final(self).wf(),
            kept_but_mode(old(self).app, final(self).app),
            preference_step(*old(self), *final(self), with_theme(theme), "Demo theme saved in memory."@),
    {
        match self.app.take_mode() {
            AppMode::Main(rt) => {
                let mut rt = *rt;
                rt.config.ui.theme = theme;
                self.app.mode = AppMode::Main(Box::new(rt));
            },
            other => {
                self.app.mode = other;
            },
        }
        self.status("Demo theme saved in memory.");
    }

    /// Saves the font size in memory.
    pub fn set_font_size(&mut self, size: FontSize)
        requires
            old(self).wf(),
        ensures
            final(self).wf(),
            kept_but_mode(old(self).app, final(self).app),
            preference_step(*old(self), *final(self), with_font_size(size), "Demo font size saved in memory."@),
    {
        match self.app.take_mode() {
            AppMode::Main(rt) => {
                let mut rt = *rt;
                rt.config.ui.font_size = size;
                self.app.mode = AppMode::Main(Box::new(rt));
            },
            other => {
                self.app.mode = other;
            },
        }
        self.status("Demo font size saved in memory.");
    }
}

/// The failure of an effect as the status line reports it.
pub open spec fn failed_text(e: StorageError) -> Seq<char> {
    "Demo operation failed: "@ + storage_error_text(e)
}

impl CatalogApp {
    /// Carries out an effect that a screen handed back; a failure is
    /// reported on the status line.
    pub fn run_effect(&mut self, effect: ExternalEffect)
        requires
            old(self).wf(),
        ensures
            final(self).wf(),
            exists|mid: CatalogApp, r: Result<(), StorageError>|
                #[trigger] executed(*old(self), effect, mid, r) && match r {
                    Ok(()) => *final(self) == mid,
                    Err(e) => {
                        &&& final(self).app == (GhStreamApp {
                            status: final(self).app.status,
                            status_history: final(self).app.status_history,
                            ..mid.app
                        })
                        &&& final(self).exported_queries == mid.exported_queries
                        &&& final(self).app.status@ == failed_text(e)
                        &&& final(self).app.status_history@ == retained(
                            mid.app.status_history@.push(StatusEntry::new_error_spec(final(self).app.status)),
                        )
                    },
                },
    {
        let ghost before = *self;
        let r = self.execute_effect(effect);
        let ghost mid = *self;
        match r {
            Ok(()) => {},
            Err(e) => {
                self.app.note(
                    Notice::Error(String::from_str("Demo operation failed: ").concat(storage_error_message(e).as_str())),
                );
            },
        }
        assert(executed(before, effect, mid, r));
    }
}

/// What the main screen lists of a store that holds no avatar shows no
/// avatar: the listing only shows items of the store's rows.
pub proof fn lemma_listing_avatar_free(
    items: Seq<StreamItemView>,
    st: Storage,
    host_id: i64,
    selection: Selection,
    local: Option<Seq<TermSpec>>,
    order: SortOrder,
)
    requires
        is_listing(items, st, host_id, selection, local, order),
        rows_avatar_free(st.item_rows()),
    ensures
        forall|i: int| 0 <= i < items.len() ==> avatar_free(#[trigger] items[i]),
{
    let pred = |r: StoredItemView|
        selection_member(st.query_rows(), st.filter_rows(), st.match_rows(), host_id, selection, r)
            && local_admits(local, r.item);
    let kept = st.item_rows().filter(pred);
    let shown = selected_items(st, host_id, selection, local);
    assert(shown == kept.map_values(|r: StoredItemView| r.item));
    crate::seq_util::lemma_filter_members(st.item_rows(), pred);
    assert forall|i: int| 0 <= i < items.len() implies avatar_free(#[trigger] items[i]) by {
        vstd::seq_lib::to_multiset_contains(items, items[i]);
        vstd::seq_lib::to_multiset_contains(shown, items[i]);
        assert(items.contains(items[i]));
        let j = choose|j: int| 0 <= j < shown.len() && shown[j] == items[i];
        assert(shown[j] == kept[j].item);
        assert(st.item_rows().contains(kept[j]));
        let k = choose|k: int| 0 <= k < st.item_rows().len() && st.item_rows()[k] == kept[j];
        assert(avatar_free(st.item_rows()[k].item));
    }
}

/// The demonstration starts with no avatar on its main screen.
pub proof fn lemma_demo_shows_no_avatar(c: CatalogApp)
    requires
        c.wf(),
        c.app.main_runtime() matches Some(rt) && is_demo_store(rt.storage, rt.host_id),
    ensures
        c.app.main_runtime() matches Some(rt) && forall|i: int|
            0 <= i < rt.items@.len() ==> avatar_free(#[trigger] item_views(rt.items@)[i]),
{
    let rt = c.app.main_runtime()->0;
    lemma_listing_avatar_free(
        item_views(rt.items@),
        rt.storage,
        rt.host_id,
        c.app.stream.selection,
        local_terms(c.app.stream.local_filter),
        rt.config.ui.default_sort,
    );
}

/// A simulated refresh is deterministic: refreshing again records nothing
/// that the first refresh did not.
pub proof fn lemma_refresh_idempotent(c0: CatalogApp, c1: CatalogApp, c2: CatalogApp)
    requires
        c0.app.mode is Main,
        refresh_step(c0, c1),
        refresh_step(c1, c2),
    ensures
        c1.app.main_runtime() matches Some(rt1) && c2.app.main_runtime() matches Some(rt2) && forall|m: QueryMatch|
            #[trigger] rt2.storage.match_rows().contains(m) <==> rt1.storage.match_rows().contains(m),
{
    let rt0 = c0.app.main_runtime()->0;
    let rt1 = c1.app.main_runtime()->0;
    let rt2 = c2.app.main_runtime()->0;
    assert forall|m: QueryMatch|
        #[trigger] rt2.storage.match_rows().contains(m) <==> rt1.storage.match_rows().contains(m) by {
        assert(refresh_finds(rt1.storage, rt1.host_id, m) == refresh_finds(rt0.storage, rt0.host_id, m));
    }
}

/// Every effect leaves the rows of the store without avatars if they had
/// none: the demonstration never brings an avatar in.
pub proof fn lemma_effects_keep_avatar_free(
    c0: CatalogApp,
    effect: ExternalEffect,
    c1: CatalogApp,
    r: Result<(), StorageError>,
)
    requires
        c0.wf(),
        executed(c0, effect, c1, r),
        c0.app.main_runtime() matches Some(rt0) && rows_avatar_free(rt0.storage.item_rows()),
    ensures
        c1.app.main_runtime() matches Some(rt1) ==> rows_avatar_free(rt1.storage.item_rows()),
{
    let rt0 = c0.app.main_runtime()->0;
    match effect {
        ExternalEffect::OpenItem { id, url: _ } => {
            let rt1 = c1.app.main_runtime()->0;
            let rows0 = rt0.storage.item_rows();
            let rows1 = rt1.storage.item_rows();
            assert forall|k: int| 0 <= k < rows1.len() implies avatar_free((#[trigger] rows1[k]).item)
                && people_avatar_free(rows1[k].participants) by {
                assert(avatar_free(rows0[k].item) && people_avatar_free(rows0[k].participants));
            }
        },
        ExternalEffect::ImportQueries(path) => {
            if !blank(path@) {
                let defs = choose|defs: Seq<ImportedSavedQueryView>|
                    #[trigger] import_source(c0.exported_queries, defs) && imported(c0, defs, c1, r);
            }
        },
        _ => {},
    }
}

} // verus!
