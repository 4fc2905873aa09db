//! The data that the application shows and edits: host configuration, stream
//! items, saved queries with their filter streams, and what the sidebar selects.

use vstd::prelude::*;
use vstd::string::*;

verus! {

#[derive(Clone, Copy, Debug, PartialEq, Eq, Structural)]
pub enum Scheme {
    Https,
    Http,
}

#[derive(Clone, Copy, Debug, PartialEq, Eq, Structural)]
pub enum HostKind {
    GitHub,
    Ghes,
}

#[derive(Clone, Debug, PartialEq)]
pub struct HostConfig {
    pub name: String,
    pub scheme: Scheme,
    pub hostname: String,
    pub rest_api_base_path: String,
    pub kind: HostKind,
}

#[derive(Clone, Debug, PartialEq)]
pub struct AuthConfig {
    pub pat: String,
}

#[derive(Clone, Copy, Debug, PartialEq, Eq, Structural)]
pub enum SortOrder {
    UpdatedDesc,
    UpdatedAsc,
}

#[derive(Clone, Copy, Debug, PartialEq, Eq, Structural)]
pub enum Theme {
    System,
    Light,
    Dark,
}

#[derive(Clone, Copy, Debug, PartialEq, Eq, Structural)]
pub enum FontSize {
    Small,
    Medium,
    Large,
}

#[derive(Clone, Copy, Debug, PartialEq, Eq, Structural)]
pub struct UiConfig {
    pub default_sort: SortOrder,
    pub theme: Theme,
    pub font_size: FontSize,
}

#[derive(Clone, Copy, Debug, PartialEq, Eq, Structural)]
pub struct RefreshConfig {
    pub polling_interval_seconds: u32,
}

#[derive(Clone, Debug, PartialEq)]
pub struct AppConfig {
    pub host: HostConfig,
    pub auth: AuthConfig,
    pub ui: UiConfig,
    pub refresh: RefreshConfig,
}

/// Polling interval of a fresh configuration, in seconds.
pub const DEFAULT_POLLING_INTERVAL_SECONDS: u32 = 300;

/// The preferences of a fresh configuration.
pub open spec fn default_ui() -> UiConfig {
    UiConfig { default_sort: SortOrder::UpdatedDesc, theme: Theme::System, font_size: FontSize::Medium }
}

/// The refresh settings of a fresh configuration.
pub open spec fn default_refresh() -> RefreshConfig {
    RefreshConfig { polling_interval_seconds: DEFAULT_POLLING_INTERVAL_SECONDS }
}

/// How a scheme is written in an address.
pub open spec fn scheme_text(s: Scheme) -> Seq<char> {
    match s {
        Scheme::Https => "https"@,
        Scheme::Http => "http"@,
    }
}

/// The address of the host's REST API: api.github.com for GitHub, the host
/// name followed by the configured base path for GitHub Enterprise Server.
pub open spec fn rest_api_base_url_text(h: HostConfig) -> Seq<char> {
    match h.kind {
        HostKind::GitHub => "https://api.github.com"@,
        HostKind::Ghes => scheme_text(h.scheme) + "://"@ + h.hostname@ + h.rest_api_base_path@,
    }
}

/// The address of the host's GraphQL API.
pub open spec fn graphql_url_text(h: HostConfig) -> Seq<char> {
    match h.kind {
        HostKind::GitHub => "https://api.github.com/graphql"@,
        HostKind::Ghes => scheme_text(h.scheme) + "://"@ + h.hostname@ + "/api/graphql"@,
    }
}

impl HostConfig {
    /// The address of the host's REST API.
    pub fn rest_api_base_url(&self) -> (r: String)
        ensures
            r@ == rest_api_base_url_text(*self),
    {
        match self.kind {
            HostKind::GitHub => String::from_str("https://api.github.com"),
            HostKind::Ghes => {
                let scheme = match self.scheme {
                    Scheme::Https => "https",
                    Scheme::Http => "http",
                };
                String::from_str(scheme).concat("://").concat(self.hostname.as_str()).concat(
                    self.rest_api_base_path.as_str(),
                )
            },
        }
    }

    /// The address of the host's GraphQL API.
    pub fn graphql_url(&self) -> (r: String)
        ensures
            r@ == graphql_url_text(*self),
    {
        match self.kind {
            HostKind::GitHub => String::from_str("https://api.github.com/graphql"),
            HostKind::Ghes => {
                let scheme = match self.scheme {
                    Scheme::Https => "https",
                    Scheme::Http => "http",
                };
                String::from_str(scheme).concat("://").concat(self.hostname.as_str()).concat("/api/graphql")
            },
        }
    }

    pub fn copy(&self) -> (r: HostConfig)
        ensures
            r == *self,
    {
        HostConfig {
            name: self.name.clone(),
            scheme: self.scheme,
            hostname: self.hostname.clone(),
            rest_api_base_path: self.rest_api_base_path.clone(),
            kind: self.kind,
        }
    }
}

impl AppConfig {
    pub fn copy(&self) -> (r: AppConfig)
        ensures
            r == *self,
    {
        AppConfig {
            host: self.host.copy(),
            auth: AuthConfig { pat: self.auth.pat.clone() },
            ui: self.ui,
            refresh: self.refresh,
        }
    }

    /// The configuration of a github.com host with the given token and the
    /// default preferences.
    pub fn default_with_pat(pat: String) -> (c: AppConfig)
        ensures
            c.host.name@ == "GitHub"@,
            c.host.scheme == Scheme::Https,
            c.host.hostname@ == "github.com"@,
            c.host.rest_api_base_path@ == "/api/v3"@,
            c.host.kind == HostKind::GitHub,
            c.auth.pat == pat,
            c.ui == default_ui(),
            c.refresh == default_refresh(),
    {
        AppConfig {
            host: HostConfig {
                name: String::from_str("GitHub"),
                scheme: Scheme::Https,
                hostname: String::from_str("github.com"),
                rest_api_base_path: String::from_str("/api/v3"),
                kind: HostKind::GitHub,
            },
            auth: AuthConfig { pat },
            ui: UiConfig {
                default_sort: SortOrder::UpdatedDesc,
                theme: Theme::System,
                font_size: FontSize::Medium,
            },
            refresh: RefreshConfig { polling_interval_seconds: DEFAULT_POLLING_INTERVAL_SECONDS },
        }
    }
}


#[derive(Clone, Copy, Debug, PartialEq, Eq, Structural)]
pub enum ItemType {
    Issue,
    PullRequest,
    Discussion,
}

#[derive(Clone, Debug, PartialEq)]
pub struct ItemPerson {
    pub login: String,
    pub avatar_url: Option<String>,
}

#[derive(Clone, Debug, PartialEq)]
pub struct ItemReview {
    pub login: String,
    pub avatar_url: Option<String>,
    pub state: String,
}

/// An issue, pull request or discussion as the stream lists it, with its
/// local read, bookmark and archive state.
#[derive(Clone, Debug, PartialEq)]
pub struct StreamItem {
    pub id: i64,
    pub repository_owner: String,
    pub repository_name: String,
    pub number: i64,
    pub item_type: ItemType,
    pub title: String,
    pub author_login: Option<String>,
    pub author_avatar_url: Option<String>,
    pub html_url: String,
    pub state: String,
    pub is_draft: Option<bool>,
    pub is_merged: Option<bool>,
    pub review_status: Option<String>,
    pub comment_count: i64,
    pub created_at_github: String,
    pub updated_at_github: String,
    pub closed_at_github: Option<String>,
    pub merged_at_github: Option<String>,
    pub read_at: Option<String>,
    pub labels: Vec<String>,
    pub assignees: Vec<ItemPerson>,
    pub review_requests: Vec<ItemPerson>,
    pub reviewers: Vec<ItemReview>,
    pub is_unread: bool,
    pub is_bookmarked: bool,
    pub is_archived: bool,
}

impl ItemPerson {
    pub fn copy(&self) -> (r: ItemPerson)
        ensures
            r == *self,
    {
        ItemPerson { login: self.login.clone(), avatar_url: self.avatar_url.clone() }
    }
}

impl ItemReview {
    pub fn copy(&self) -> (r: ItemReview)
        ensures
            r == *self,
    {
        ItemReview {
            login: self.login.clone(),
            avatar_url: self.avatar_url.clone(),
            state: self.state.clone(),
        }
    }
}

pub fn copy_strings(v: &Vec<String>) -> (r: Vec<String>)
    ensures
        r@ == v@,
{
    let r = v.clone();
    assert(r@ =~= v@);
    r
}

pub fn copy_people(v: &Vec<ItemPerson>) -> (r: Vec<ItemPerson>)
    ensures
        r@ == v@,
{
    let mut r: Vec<ItemPerson> = Vec::new();
    let mut i: usize = 0;
    while i < v.len()
        invariant
            i <= v.len(),
            r@ == v@.subrange(0, i as int),
        decreases v.len() - i,
    {
        r.push(v[i].copy());
        i = i + 1;
        assert(r@ =~= v@.subrange(0, i as int));
    }
    assert(r@ =~= v@);
    r
}

pub fn copy_reviews(v: &Vec<ItemReview>) -> (r: Vec<ItemReview>)
    ensures
        r@ == v@,
{
    let mut r: Vec<ItemReview> = Vec::new();
    let mut i: usize = 0;
    while i < v.len()
        invariant
            i <= v.len(),
            r@ == v@.subrange(0, i as int),
        decreases v.len() - i,
    {
        r.push(v[i].copy());
        i = i + 1;
        assert(r@ =~= v@.subrange(0, i as int));
    }
    assert(r@ =~= v@);
    r
}

/// A stream item with its lists taken as sequences.
pub struct StreamItemView {
    pub id: i64,
    pub repository_owner: String,
    pub repository_name: String,
    pub number: i64,
    pub item_type: ItemType,
    pub title: String,
    pub author_login: Option<String>,
    pub author_avatar_url: Option<String>,
    pub html_url: String,
    pub state: String,
    pub is_draft: Option<bool>,
    pub is_merged: Option<bool>,
    pub review_status: Option<String>,
    pub comment_count: i64,
    pub created_at_github: String,
    pub updated_at_github: String,
    pub closed_at_github: Option<String>,
    pub merged_at_github: Option<String>,
    pub read_at: Option<String>,
    pub labels: Seq<String>,
    pub assignees: Seq<ItemPerson>,
    pub review_requests: Seq<ItemPerson>,
    pub reviewers: Seq<ItemReview>,
    pub is_unread: bool,
    pub is_bookmarked: bool,
    pub is_archived: bool,
}

impl View for StreamItem {
    type V = StreamItemView;

    open spec fn view(&self) -> StreamItemView {
        StreamItemView {
            id: self.id,
            repository_owner: self.repository_owner,
            repository_name: self.repository_name,
            number: self.number,
            item_type: self.item_type,
            title: self.title,
            author_login: self.author_login,
            author_avatar_url: self.author_avatar_url,
            html_url: self.html_url,
            state: self.state,
            is_draft: self.is_draft,
            is_merged: self.is_merged,
            review_status: self.review_status,
            comment_count: self.comment_count,
            created_at_github: self.created_at_github,
            updated_at_github: self.updated_at_github,
            closed_at_github: self.closed_at_github,
            merged_at_github: self.merged_at_github,
            read_at: self.read_at,
            labels: self.labels@,
            assignees: self.assignees@,
            review_requests: self.review_requests@,
            reviewers: self.reviewers@,
            is_unread: self.is_unread,
            is_bookmarked: self.is_bookmarked,
            is_archived: self.is_archived,
        }
    }
}

/// The views of a sequence of stream items.
pub open spec fn item_views(s: Seq<StreamItem>) -> Seq<StreamItemView> {
    s.map_values(|x: StreamItem| x@)
}

impl StreamItem {
    pub fn copy(&self) -> (r: StreamItem)
        ensures
            r@ == self@,
    {
        let r = StreamItem {
            id: self.id,
            repository_owner: self.repository_owner.clone(),
            repository_name: self.repository_name.clone(),
            number: self.number,
            item_type: self.item_type,
            title: self.title.clone(),
            author_login: self.author_login.clone(),
            author_avatar_url: self.author_avatar_url.clone(),
            html_url: self.html_url.clone(),
            state: self.state.clone(),
            is_draft: self.is_draft,
            is_merged: self.is_merged,
            review_status: self.review_status.clone(),
            comment_count: self.comment_count,
            created_at_github: self.created_at_github.clone(),
            updated_at_github: self.updated_at_github.clone(),
            closed_at_github: self.closed_at_github.clone(),
            merged_at_github: self.merged_at_github.clone(),
            read_at: self.read_at.clone(),
            labels: copy_strings(&self.labels),
            assignees: copy_people(&self.assignees),
            review_requests: copy_people(&self.review_requests),
            reviewers: copy_reviews(&self.reviewers),
            is_unread: self.is_unread,
            is_bookmarked: self.is_bookmarked,
            is_archived: self.is_archived,
        };
        r
    }
}

/// Which search a saved query runs on the host.
#[derive(Clone, Copy, Debug, PartialEq, Eq, Structural)]
pub enum StreamSource {
    IssueOrPullRequest,
    Discussion,
    ProjectV2,
}

/// A local filter nested under a saved query.
#[derive(Clone, Debug, PartialEq)]
pub struct FilterStream {
    pub id: i64,
    pub saved_query_id: i64,
    pub name: String,
    pub filter_query: String,
    pub enabled: bool,
    pub position: i64,
}

#[derive(Clone, Debug, PartialEq)]
pub struct SavedQuery {
    pub id: i64,
    pub name: String,
    pub query: String,
    pub source: StreamSource,
    pub enabled: bool,
    pub position: i64,
    pub filter_streams: Vec<FilterStream>,
}

/// A filter stream definition as export and import carry it.
#[derive(Clone, Debug, PartialEq)]
pub struct ImportedFilterStream {
    pub name: String,
    pub filter_query: String,
    pub enabled: bool,
    pub position: i64,
}

/// A saved query definition as export and import carry it.
#[derive(Clone, Debug, PartialEq)]
pub struct ImportedSavedQuery {
    pub name: String,
    pub query: String,
    pub source: StreamSource,
    pub enabled: bool,
    pub position: i64,
    pub filter_streams: Vec<ImportedFilterStream>,
}

pub struct SavedQueryView {
    pub id: i64,
    pub name: String,
    pub query: String,
    pub source: StreamSource,
    pub enabled: bool,
    pub position: i64,
    pub filter_streams: Seq<FilterStream>,
}

impl View for SavedQuery {
    type V = SavedQueryView;

    open spec fn view(&self) -> SavedQueryView {
        SavedQueryView {
            id: self.id,
            name: self.name,
            query: self.query,
            source: self.source,
            enabled: self.enabled,
            position: self.position,
            filter_streams: self.filter_streams@,
        }
    }
}

pub open spec fn query_views(s: Seq<SavedQuery>) -> Seq<SavedQueryView> {
    s.map_values(|x: SavedQuery| x@)
}

pub struct ImportedSavedQueryView {
    pub name: String,
    pub query: String,
    pub source: StreamSource,
    pub enabled: bool,
    pub position: i64,
    pub filter_streams: Seq<ImportedFilterStream>,
}

impl View for ImportedSavedQuery {
    type V = ImportedSavedQueryView;

    open spec fn view(&self) -> ImportedSavedQueryView {
        ImportedSavedQueryView {
            name: self.name,
            query: self.query,
            source: self.source,
            enabled: self.enabled,
            position: self.position,
            filter_streams: self.filter_streams@,
        }
    }
}

pub open spec fn definition_views(s: Seq<ImportedSavedQuery>) -> Seq<ImportedSavedQueryView> {
    s.map_values(|x: ImportedSavedQuery| x@)
}

/// A filter stream as an export carries it.
pub open spec fn exported_filter(f: FilterStream) -> ImportedFilterStream {
    ImportedFilterStream {
        name: f.name,
        filter_query: f.filter_query,
        enabled: f.enabled,
        position: f.position,
    }
}

/// The filter streams of a saved query as an export carries them.
pub open spec fn exported_filters(fs: Seq<FilterStream>) -> Seq<ImportedFilterStream> {
    fs.map_values(|f: FilterStream| exported_filter(f))
}

/// A saved query as an export carries it: its definition, without the
/// identifiers that the store gave it.
pub open spec fn exported_definition(q: SavedQueryView) -> ImportedSavedQueryView {
    ImportedSavedQueryView {
        name: q.name,
        query: q.query,
        source: q.source,
        enabled: q.enabled,
        position: q.position,
        filter_streams: exported_filters(q.filter_streams),
    }
}

/// The saved queries of the sidebar as an export carries them.
pub open spec fn snapshot(qs: Seq<SavedQueryView>) -> Seq<ImportedSavedQueryView> {
    qs.map_values(|q: SavedQueryView| exported_definition(q))
}

impl FilterStream {
    pub fn copy(&self) -> (r: FilterStream)
        ensures
            r == *self,
    {
        FilterStream {
            id: self.id,
            saved_query_id: self.saved_query_id,
            name: self.name.clone(),
            filter_query: self.filter_query.clone(),
            enabled: self.enabled,
            position: self.position,
        }
    }
}

impl ImportedFilterStream {
    pub fn copy(&self) -> (r: ImportedFilterStream)
        ensures
            r == *self,
    {
        ImportedFilterStream {
            name: self.name.clone(),
            filter_query: self.filter_query.clone(),
            enabled: self.enabled,
            position: self.position,
        }
    }
}

impl ImportedSavedQuery {
    pub fn copy(&self) -> (r: ImportedSavedQuery)
        ensures
            r@ == self@,
    {
        let mut filters: Vec<ImportedFilterStream> = Vec::new();
        let mut i: usize = 0;
        while i < self.filter_streams.len()
            invariant
                i <= self.filter_streams.len(),
                filters@ == self.filter_streams@.subrange(0, i as int),
            decreases self.filter_streams.len() - i,
        {
            filters.push(self.filter_streams[i].copy());
            i = i + 1;
            assert(filters@ =~= self.filter_streams@.subrange(0, i as int));
        }
        assert(filters@ =~= self.filter_streams@);
        ImportedSavedQuery {
            name: self.name.clone(),
            query: self.query.clone(),
            source: self.source,
            enabled: self.enabled,
            position: self.position,
            filter_streams: filters,
        }
    }
}

pub fn copy_definitions(v: &Vec<ImportedSavedQuery>) -> (r: Vec<ImportedSavedQuery>)
    ensures
        definition_views(r@) == definition_views(v@),
{
    let mut r: Vec<ImportedSavedQuery> = Vec::new();
    let mut i: usize = 0;
    while i < v.len()
        invariant
            i <= v.len(),
            r@.len() == i,
            forall|j: int| 0 <= j < i ==> (#[trigger] r@[j])@ == v@[j]@,
        decreases v.len() - i,
    {
        r.push(v[i].copy());
        i = i + 1;
    }
    assert(definition_views(r@) =~= definition_views(v@));
    r
}

/// The built-in views of the library section of the sidebar.
#[derive(Clone, Copy, Debug, PartialEq, Eq, Structural)]
pub enum LibraryView {
    Inbox,
    Unread,
    Bookmarked,
    Archived,
}

/// What the stream shows: a library view, a saved query or a filter stream.
#[derive(Clone, Copy, Debug, PartialEq, Eq, Structural)]
pub enum Selection {
    Library(LibraryView),
    SavedQuery(i64),
    FilterStream(i64),
}

/// Badge counts of the library views.
#[derive(Clone, Copy, Debug, PartialEq, Eq, Structural, Default)]
pub struct LibraryCounts {
    pub inbox: usize,
    pub unread: usize,
    pub bookmarked: usize,
    pub archived: usize,
}

} // verus!
