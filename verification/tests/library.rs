use ghtl::app::screens::setup::{press, SetupButton, SetupEvent, SetupState};
use ghtl::app::screens::stream::StreamEvent;
use ghtl::app::effects::connection_test_message;
use ghtl::app::{AppMode, GhStreamApp};
use ghtl::config::{first_run_status, validate_config, ConfigError};
use ghtl::filter::{parse_filter, FilterTerm};
use ghtl::models::{
    AppConfig, HostConfig, HostKind, ItemPerson, ItemReview, ItemType, Scheme, SortOrder,
    StreamItem, StreamSource,
};
use ghtl::ordering::sort_items;
use ghtl::status::{push_entry, StatusEntry, StatusLevel, STATUS_HISTORY_LIMIT};
use ghtl::storage::items::StreamItemUpsert;
use ghtl::storage::{Storage, StorageError};
use ghtl::text::{decimal_string, is_blank, text_lt};

fn valid_config() -> AppConfig {
    let mut config = AppConfig::default_with_pat("token".into());
    config.host.hostname = "ghes.example.test".into();
    config.host.kind = HostKind::Ghes;
    config
}

fn upsert(host_id: i64, number: i64, updated_at: &str) -> StreamItemUpsert {
    StreamItemUpsert {
        host_id,
        node_id: None,
        repository_owner: "octo".into(),
        repository_name: "repo".into(),
        number,
        item_type: ItemType::PullRequest,
        title: format!("Item {number}"),
        author_login: Some("author".into()),
        author_avatar_url: None,
        html_url: format!("https://ghes.example.test/octo/repo/pull/{number}"),
        api_url: None,
        state: "open".into(),
        is_draft: Some(false),
        is_merged: Some(false),
        review_status: Some("review_required".into()),
        comment_count: 0,
        created_at_github: "2026-01-01T00:00:00Z".into(),
        updated_at_github: updated_at.into(),
        closed_at_github: None,
        merged_at_github: None,
        labels: vec!["bug".into()],
        assignees: vec![ItemPerson {
            login: "assignee".into(),
            avatar_url: None,
        }],
        review_requests: Vec::new(),
        reviewers: vec![ItemReview {
            login: "maintainer".into(),
            avatar_url: None,
            state: "approved".into(),
        }],
        participants: Vec::new(),
        mentions: Vec::new(),
        graphql_enriched: true,
    }
}

fn item(id: i64, updated_at: &str) -> StreamItem {
    StreamItem {
        id,
        repository_owner: "octo".into(),
        repository_name: "repo".into(),
        number: id,
        item_type: ItemType::Issue,
        title: format!("Item {id}"),
        author_login: None,
        author_avatar_url: None,
        html_url: String::new(),
        state: "open".into(),
        is_draft: None,
        is_merged: None,
        review_status: None,
        comment_count: 0,
        created_at_github: updated_at.into(),
        updated_at_github: updated_at.into(),
        closed_at_github: None,
        merged_at_github: None,
        read_at: None,
        labels: Vec::new(),
        assignees: Vec::new(),
        review_requests: Vec::new(),
        reviewers: Vec::new(),
        is_unread: true,
        is_bookmarked: false,
        is_archived: false,
    }
}

#[test]
fn filter_parses_supported_terms_in_order() {
    let terms = parse_filter("is:pr  author:octo\tlabel:bug is:unread").unwrap();
    assert_eq!(
        terms,
        vec![
            FilterTerm::Kind(ItemType::PullRequest),
            FilterTerm::Author("octo".into()),
            FilterTerm::Label("bug".into()),
            FilterTerm::Unread,
        ]
    );
    assert_eq!(parse_filter("is:discussion").unwrap(), vec![FilterTerm::Kind(ItemType::Discussion)]);
    assert_eq!(parse_filter("label:a:b").unwrap(), vec![FilterTerm::Label("a:b".into())]);
}

#[test]
fn filter_refuses_unknown_or_empty_terms() {
    assert!(parse_filter("not-a-supported-filter:value").is_none());
    assert!(parse_filter("is:").is_none());
    assert!(parse_filter("author:").is_none());
    assert!(parse_filter("plain").is_none());
    assert!(parse_filter("is:pr bogus").is_none());
}

#[test]
fn blank_filter_has_no_terms() {
    assert_eq!(parse_filter("   ").unwrap(), Vec::<FilterTerm>::new());
    assert_eq!(parse_filter("").unwrap(), Vec::<FilterTerm>::new());
    assert!(is_blank(" \t\n"));
    assert!(!is_blank(" x "));
}

#[test]
fn decimal_renders_every_integer() {
    assert_eq!(decimal_string(0), "0");
    assert_eq!(decimal_string(42), "42");
    assert_eq!(decimal_string(-7), "-7");
    assert_eq!(decimal_string(i64::MAX), "9223372036854775807");
    assert_eq!(decimal_string(i64::MIN), "-9223372036854775808");
}

#[test]
fn text_order_is_by_characters() {
    assert!(text_lt("2026-01-01T00:00:00Z", "2026-01-02T00:00:00Z"));
    assert!(!text_lt("b", "a"));
    assert!(!text_lt("same", "same"));
    assert!(text_lt("ab", "abc"));
}

#[test]
fn status_history_keeps_the_newest_entries() {
    let mut status = String::new();
    let mut history = Vec::new();
    for i in 0..250 {
        push_entry(&mut status, &mut history, StatusEntry::new(format!("m{i}")));
    }
    assert_eq!(history.len(), STATUS_HISTORY_LIMIT);
    assert_eq!(status, "m249");
    assert_eq!(history[0].message, "m50");
    assert_eq!(history[STATUS_HISTORY_LIMIT - 1].message, "m249");
    let error = StatusEntry::new_error("failed".into());
    assert_eq!(error.level, StatusLevel::Error);
    assert_eq!(StatusEntry::new("ok".into()).level, StatusLevel::Info);
}

#[test]
fn config_validation_names_the_first_broken_rule() {
    let config = valid_config();
    assert_eq!(validate_config(config.clone()), Ok(config.clone()));
    let mut c = config.clone();
    c.host.name = " ".into();
    assert_eq!(
        validate_config(c),
        Err(ConfigError::Invalid("Host name must not be empty.".into()))
    );
    let mut c = config.clone();
    c.host.hostname = "".into();
    assert_eq!(
        validate_config(c),
        Err(ConfigError::Invalid("Hostname must not be empty.".into()))
    );
    let mut c = config.clone();
    c.host.hostname = "ghes.example.test:8443".into();
    assert_eq!(
        validate_config(c),
        Err(ConfigError::Invalid(
            "Hostname must not contain spaces, slashes or a port.".into()
        ))
    );
    let mut c = config;
    c.auth.pat = "\t".into();
    assert_eq!(
        validate_config(c),
        Err(ConfigError::Invalid("Personal access token must not be empty.".into()))
    );
}

#[test]
fn config_errors_read_as_first_run_status() {
    assert_eq!(
        first_run_status(&ConfigError::NotFound),
        "First-run setup required. No config.yml exists yet."
    );
    assert_eq!(
        first_run_status(&ConfigError::Read("denied".into())),
        "Setup required: failed to read config.yml: denied"
    );
    assert_eq!(
        first_run_status(&ConfigError::Parse("bad yaml".into())),
        "Setup required: failed to parse config.yml: bad yaml"
    );
    assert_eq!(
        first_run_status(&ConfigError::Invalid("Hostname must not be empty.".into())),
        "Setup required: Hostname must not be empty."
    );
}

#[test]
fn default_config_points_at_github() {
    let config = AppConfig::default_with_pat("pat".into());
    assert_eq!(config.host.name, "GitHub");
    assert_eq!(config.host.hostname, "github.com");
    assert_eq!(config.host.rest_api_base_path, "/api/v3");
    assert_eq!(config.host.scheme, Scheme::Https);
    assert_eq!(config.host.kind, HostKind::GitHub);
    assert_eq!(config.ui.default_sort, SortOrder::UpdatedDesc);
    assert_eq!(config.refresh.polling_interval_seconds, 300);
}

#[test]
fn upsert_reports_changes_and_keeps_local_state() {
    let mut storage = Storage::in_memory().unwrap();
    let host = HostConfig {
        name: "Host".into(),
        scheme: Scheme::Https,
        hostname: "ghes.example.test".into(),
        rest_api_base_path: "/api/v3".into(),
        kind: HostKind::Ghes,
    };
    let host_id = storage.ensure_host(&host).unwrap();
    assert_eq!(storage.ensure_host(&host).unwrap(), host_id);

    let first = storage.upsert_stream_item(&upsert(host_id, 1, "2026-01-01T00:00:00Z")).unwrap();
    assert!(first.changed);
    let again = storage.upsert_stream_item(&upsert(host_id, 1, "2026-01-01T00:00:00Z")).unwrap();
    assert_eq!(again.id, first.id);
    assert!(!again.changed);

    storage.set_read_state(first.id, false);
    storage.set_bookmarked(first.id, true);
    let mut reviewed = upsert(host_id, 1, "2026-01-01T00:00:00Z");
    reviewed.review_status = Some("approved".into());
    let enriched = storage.upsert_stream_item(&reviewed).unwrap();
    assert!(enriched.changed);

    let newer = storage.upsert_stream_item(&upsert(host_id, 1, "2026-01-03T00:00:00Z")).unwrap();
    assert_eq!(newer.id, first.id);
    assert!(newer.changed);
    let older = storage.upsert_stream_item(&upsert(host_id, 1, "2026-01-02T00:00:00Z")).unwrap();
    assert!(!older.changed);

    let other = storage.upsert_stream_item(&upsert(host_id, 2, "2026-01-01T00:00:00Z")).unwrap();
    assert_ne!(other.id, first.id);
}

#[test]
fn filter_stream_needs_an_existing_saved_query() {
    let mut storage = Storage::in_memory().unwrap();
    let host_id = storage
        .ensure_host(&valid_config().host)
        .unwrap();
    assert_eq!(
        storage.add_filter_stream(999, "PRs".into(), "is:pr".into(), true),
        Err(StorageError::UnknownSavedQuery)
    );
    let query_id = storage
        .add_saved_query(host_id, "Mine".into(), "is:open".into(), StreamSource::IssueOrPullRequest, true)
        .unwrap();
    let filter_id = storage
        .add_filter_stream(query_id, "PRs".into(), "is:pr".into(), true)
        .unwrap();
    let queries = storage.list_saved_queries(host_id);
    assert_eq!(queries.len(), 1);
    assert_eq!(queries[0].name, "Mine");
    assert_eq!(queries[0].filter_streams.len(), 1);
    assert_eq!(queries[0].filter_streams[0].id, filter_id);
}

#[test]
fn items_sort_by_update_time() {
    let items = vec![
        item(1, "2026-01-02T00:00:00Z"),
        item(2, "2026-01-03T00:00:00Z"),
        item(3, "2026-01-01T00:00:00Z"),
    ];
    let desc = sort_items(items.clone(), SortOrder::UpdatedDesc);
    assert_eq!(desc.iter().map(|i| i.id).collect::<Vec<_>>(), vec![2, 1, 3]);
    let asc = sort_items(items, SortOrder::UpdatedAsc);
    assert_eq!(asc.iter().map(|i| i.id).collect::<Vec<_>>(), vec![3, 1, 2]);
}

#[test]
fn setup_form_checks_before_reporting() {
    let mut state = SetupState::default();
    assert!(press(&mut state, SetupButton::Back, false).is_none());
    assert!(matches!(press(&mut state, SetupButton::Back, true), Some(SetupEvent::Cancel)));
    assert!(press(&mut state, SetupButton::Test, false).is_none());
    assert_eq!(state.validation_message, "Personal access token must not be empty.");
    state.pat = "secret".into();
    match press(&mut state, SetupButton::Save, false) {
        Some(SetupEvent::Save(config)) => {
            assert_eq!(config.host.hostname, "github.com");
            assert_eq!(config.auth.pat, "secret");
        }
        _ => panic!("expected a save"),
    }
}

#[test]
fn application_starts_in_setup_without_configuration() {
    let app = GhStreamApp::new(
        "config.yml".into(),
        "ghtl.db".into(),
        Err(ConfigError::NotFound),
    );
    assert!(matches!(app.mode, AppMode::Setup { previous_runtime: None }));
    assert_eq!(app.status, "First-run setup required. No config.yml exists yet.");
    assert_eq!(app.status_history.len(), 1);
    assert_eq!(app.config_path, "config.yml");

    let mut app = GhStreamApp::new("config.yml".into(), "ghtl.db".into(), Ok(valid_config()));
    assert_eq!(app.status, "Ready");
    let AppMode::Main(runtime) = &app.mode else {
        panic!("expected main screen")
    };
    assert!(runtime.items.is_empty());
    assert!(runtime.saved_queries.is_empty());

    assert!(app.handle_stream_event(StreamEvent::OpenSetup).is_none());
    assert!(matches!(app.mode, AppMode::Setup { previous_runtime: Some(_) }));
    assert_eq!(app.setup.hostname, "ghes.example.test");
    assert!(app.handle_setup_event(SetupEvent::Cancel).is_none());
    assert!(matches!(app.mode, AppMode::Main(_)));
    assert_eq!(app.status, "Host settings unchanged.");
}

#[test]
fn saving_settings_reports_a_failed_write() {
    let mut app = GhStreamApp::new("config.yml".into(), "ghtl.db".into(), Err(ConfigError::NotFound));
    app.save_setup_config(valid_config(), Err("disk full".into()));
    assert_eq!(app.status, "disk full");
    assert!(matches!(app.mode, AppMode::Setup { previous_runtime: None }));
    app.save_setup_config(valid_config(), Ok(()));
    assert_eq!(app.status, "Configuration saved. PAT is stored as plain text in v1.");
    assert!(matches!(app.mode, AppMode::Main(_)));
}

#[test]
fn test_button_emits_validated_config_without_connecting() {
    let mut config = AppConfig::default_with_pat("sample-token".into());
    config.host.hostname = "never-connect.example.test".into();
    config.host.kind = HostKind::Ghes;
    let mut state = SetupState::from_config(&config);
    let event = press(&mut state, SetupButton::Test, true);
    let Some(SetupEvent::Test(actual)) = &event else {
        panic!("test event")
    };
    assert_eq!(actual.host.hostname, config.host.hostname);
    assert_eq!(actual.auth.pat, config.auth.pat);
}

#[test]
fn test_and_save_reject_invalid_config_in_shared_form() {
    let mut state = SetupState::default();
    for button in [SetupButton::Test, SetupButton::Save] {
        let event = press(&mut state, button, true);
        assert!(event.is_none());
        assert!(!state.validation_message.is_empty());
    }
}

#[test]
fn connection_test_message_names_the_addresses_or_the_failure() {
    let github = AppConfig::default_with_pat("pat".into());
    assert_eq!(
        connection_test_message(&github, Ok(())),
        "Connection succeeded. REST: https://api.github.com GraphQL: https://api.github.com/graphql"
    );
    let mut ghes = valid_config();
    ghes.host.scheme = Scheme::Http;
    assert_eq!(
        connection_test_message(&ghes, Ok(())),
        "Connection succeeded. REST: http://ghes.example.test/api/v3 GraphQL: http://ghes.example.test/api/graphql"
    );
    assert_eq!(
        connection_test_message(&ghes, Err("timed out".into())),
        "Configuration is valid, but connection failed: timed out"
    );
}

#[test]
fn connection_test_outcome_is_shown_on_the_form() {
    let mut app = GhStreamApp::new("config.yml".into(), "ghtl.db".into(), Err(ConfigError::NotFound));
    let status = app.status.clone();
    app.report_connection_test(&valid_config(), Err("refused".into()));
    assert_eq!(
        app.setup.validation_message,
        "Configuration is valid, but connection failed: refused"
    );
    assert_eq!(app.status, status);
}

#[test]
fn back_without_a_runtime_changes_nothing() {
    let mut app = GhStreamApp::new("config.yml".into(), "ghtl.db".into(), Err(ConfigError::NotFound));
    let status = app.status.clone();
    assert!(app.handle_setup_event(SetupEvent::Cancel).is_none());
    assert!(matches!(app.mode, AppMode::Setup { previous_runtime: None }));
    assert_eq!(app.status, status);
    assert_eq!(app.status_history.len(), 1);
}

#[test]
fn enrichment_ignores_order_and_repetition() {
    let mut storage = Storage::in_memory().unwrap();
    let host_id = storage.ensure_host(&valid_config().host).unwrap();
    let mut first = upsert(host_id, 1, "2026-01-01T00:00:00Z");
    first.participants = vec![
        ItemPerson { login: "a".into(), avatar_url: None },
        ItemPerson { login: "b".into(), avatar_url: None },
    ];
    first.mentions = vec!["x".into(), "y".into()];
    assert!(storage.upsert_stream_item(&first).unwrap().changed);
    let mut shuffled = upsert(host_id, 1, "2026-01-01T00:00:00Z");
    shuffled.participants = vec![
        ItemPerson { login: "b".into(), avatar_url: None },
        ItemPerson { login: "a".into(), avatar_url: None },
        ItemPerson { login: "b".into(), avatar_url: None },
    ];
    shuffled.mentions = vec!["y".into(), "x".into(), "x".into()];
    assert!(!storage.upsert_stream_item(&shuffled).unwrap().changed);
    let mut fewer = upsert(host_id, 1, "2026-01-01T00:00:00Z");
    fewer.participants = vec![ItemPerson { login: "a".into(), avatar_url: None }];
    fewer.mentions = vec!["x".into(), "y".into()];
    assert!(storage.upsert_stream_item(&fewer).unwrap().changed);
}
