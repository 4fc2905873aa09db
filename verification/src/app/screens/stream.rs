//! The state and events of the main stream screen.

use vstd::prelude::*;
use crate::models::{FontSize, LibraryView, Selection, SortOrder, StreamSource, Theme};

verus! {

/// What the stream screen keeps between frames.
#[derive(Clone, Debug, PartialEq)]
pub struct StreamState {
    /// The sidebar entry whose items are shown.
    pub selection: Selection,
    /// The local filter that narrows the shown items, once accepted.
    pub local_filter: Option<String>,
    /// The filter text being typed in the toolbar.
    pub local_filter_input: String,
    /// The polling interval being typed in the preferences, 0 when none.
    pub polling_interval_draft: u32,
    /// Whether the status log is open.
    pub status_log_open: bool,
}

impl StreamState {
    /// The inbox, with no filter and nothing being typed.
    pub fn new() -> (s: StreamState)
        ensures
            s.selection == Selection::Library(LibraryView::Inbox),
            s.local_filter is None,
            s.local_filter_input@ == Seq::<char>::empty(),
            s.polling_interval_draft == 0,
            !s.status_log_open,
    {
        StreamState {
            selection: Selection::Library(LibraryView::Inbox),
            local_filter: None,
            local_filter_input: String::new(),
            polling_interval_draft: 0,
            status_log_open: false,
        }
    }
}

/// What the user does to an item.
#[derive(Clone, Debug, PartialEq)]
pub enum ItemAction {
    Open { id: i64, url: String },
    MarkRead(i64),
    MarkUnread(i64),
    Bookmark(i64, bool),
    Archive(i64, bool),
}

/// What the stream screen reports back to the application.
#[derive(Clone, Debug, PartialEq)]
pub enum StreamEvent {
    Select(Selection),
    /// The toolbar filter text was edited.
    SetFilter(String),
    /// A local filter was submitted, or cleared with `None`.
    SetLocalFilter(Option<String>),
    /// A suggested term was picked for the toolbar filter text.
    AddLocalFilterInputTerm(String),
    AddFilterStream { saved_query_id: i64, name: String, filter_query: String, enabled: bool },
    AddQuery { name: String, query: String, source: StreamSource, enabled: bool },
    PreviewQuery { query: String, source: StreamSource },
    UpdateFilterStream { id: i64, name: String, filter_query: String, enabled: bool },
    UpdateQuery { id: i64, name: String, query: String, source: StreamSource, enabled: bool },
    DeleteFilterStream(i64),
    DeleteQuery(i64),
    MoveQueryUp(i64),
    MoveQueryDown(i64),
    MarkLibraryRead(LibraryView),
    MarkFilterStreamRead(i64),
    MarkSavedQueryRead(i64),
    ExportQueries(String),
    ImportQueries(String),
    RefreshNow,
    ShowRemoteUpdates,
    SetDefaultSort(SortOrder),
    SetPollingInterval(u32),
    SetTheme(Theme),
    SetFontSize(FontSize),
    OpenSetup,
    ItemAction(ItemAction),
}

} // verus!
