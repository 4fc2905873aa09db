use ghtl::app::effects::ExternalEffect;
use ghtl::app::screens::stream::{ItemAction, StreamEvent};
use ghtl::app::{AppMode, Runtime};
use ghtl::catalog::CatalogApp;
use ghtl::models::{FontSize, ItemType, LibraryView, Selection, StreamSource, Theme};

fn runtime(app: &CatalogApp) -> &Runtime {
    let AppMode::Main(runtime) = &app.app.mode else {
        panic!("expected main screen")
    };
    runtime
}

fn dispatch(app: &mut CatalogApp, event: StreamEvent) {
    if let Some(effect) = app.app.handle_stream_event(event) {
        app.execute_effect(effect).expect("demo effect");
    }
}

#[test]
fn samples_use_memory_storage_and_have_no_remote_images() {
    let app = CatalogApp::new().unwrap();
    let runtime = runtime(&app);
    let filename: String = runtime.storage.file_path();
    assert!(filename.is_empty());
    assert_eq!(runtime.saved_queries.len(), 2);
    assert_eq!(runtime.saved_queries[0].filter_streams.len(), 1);
    let mut items = runtime.items.clone();
    items.extend(runtime.storage.list_items(
        runtime.host_id,
        Selection::Library(LibraryView::Archived),
        None,
        runtime.config.ui.default_sort,
    ));
    assert_eq!(items.len(), 7);
    for item in items {
        assert!(item.author_avatar_url.is_none());
        assert!(item
            .assignees
            .iter()
            .chain(&item.review_requests)
            .all(|person| person.avatar_url.is_none()));
        assert!(item
            .reviewers
            .iter()
            .all(|person| person.avatar_url.is_none()));
    }
    assert!(!app.app.refresh_pending);
    assert!(app.app.last_poll_at.is_none());
}

#[test]
fn shared_actions_update_queries_filters_and_item_state() {
    let mut app = CatalogApp::new().unwrap();
    dispatch(
        &mut app,
        StreamEvent::AddQuery {
            name: "New sample".into(),
            query: "is:issue".into(),
            source: StreamSource::IssueOrPullRequest,
            enabled: true,
        },
    );
    let Selection::SavedQuery(query_id) = app.app.stream.selection else {
        panic!("selection")
    };
    assert!(runtime(&app).items.is_empty());
    dispatch(&mut app, StreamEvent::RefreshNow);
    assert!(!runtime(&app).items.is_empty());
    dispatch(
        &mut app,
        StreamEvent::AddFilterStream {
            saved_query_id: query_id,
            name: "PRs".into(),
            filter_query: "is:pr".into(),
            enabled: true,
        },
    );
    assert!(runtime(&app)
        .items
        .iter()
        .all(|item| item.item_type == ItemType::PullRequest));
    let id = runtime(&app).items[0].id;
    dispatch(
        &mut app,
        StreamEvent::ItemAction(ItemAction::Bookmark(id, true)),
    );
    assert!(
        runtime(&app)
            .items
            .iter()
            .find(|item| item.id == id)
            .unwrap()
            .is_bookmarked
    );
    dispatch(
        &mut app,
        StreamEvent::SetLocalFilter(Some("not-a-supported-filter:value".into())),
    );
    assert!(app.app.stream.local_filter.is_none());
    dispatch(&mut app, StreamEvent::DeleteQuery(query_id));
    assert_eq!(
        app.app.stream.selection,
        Selection::Library(LibraryView::Inbox)
    );
    assert_eq!(runtime(&app).saved_queries.len(), 2);
}

#[test]
fn preferences_and_host_save_stay_in_memory_and_keep_sample_data() {
    let mut app = CatalogApp::new().unwrap();
    let original_ids = runtime(&app)
        .items
        .iter()
        .map(|item| item.id)
        .collect::<Vec<_>>();
    dispatch(&mut app, StreamEvent::SetTheme(Theme::Dark));
    dispatch(&mut app, StreamEvent::SetFontSize(FontSize::Large));
    dispatch(&mut app, StreamEvent::SetPollingInterval(120));
    assert_eq!(runtime(&app).config.ui.theme, Theme::Dark);
    assert_eq!(runtime(&app).config.ui.font_size, FontSize::Large);
    assert_eq!(runtime(&app).config.refresh.polling_interval_seconds, 120);
    let mut config = runtime(&app).config.clone();
    config.host.hostname = "changed.example.test".into();
    dispatch(&mut app, StreamEvent::OpenSetup);
    app.execute_effect(ExternalEffect::TestConnection(config.clone()))
        .unwrap();
    app.execute_effect(ExternalEffect::SaveSetup(config))
        .unwrap();
    assert_eq!(runtime(&app).config.host.hostname, "changed.example.test");
    assert_eq!(runtime(&app).config.ui.theme, Theme::Dark);
    assert_eq!(
        runtime(&app)
            .items
            .iter()
            .map(|item| item.id)
            .collect::<Vec<_>>(),
        original_ids
    );
    assert!(app.app.status.contains("in memory"));
}

#[test]
fn transfer_uses_snapshots_without_accessing_the_supplied_path() {
    let mut app = CatalogApp::new().unwrap();
    let path = std::path::Path::new("/nonexistent-ghtl-demo-transfer/queries.yaml");
    assert!(!path.exists());
    let path = path.to_string_lossy().into_owned();
    dispatch(&mut app, StreamEvent::ExportQueries(path.clone()));
    assert!(!std::path::Path::new(&path).exists());
    let id = runtime(&app).saved_queries[0].id;
    dispatch(&mut app, StreamEvent::DeleteQuery(id));
    assert_eq!(runtime(&app).saved_queries.len(), 1);
    dispatch(&mut app, StreamEvent::ImportQueries(path));
    assert_eq!(runtime(&app).saved_queries.len(), 2);
    assert!(runtime(&app).items.is_empty());
    dispatch(&mut app, StreamEvent::RefreshNow);
    assert!(!runtime(&app).items.is_empty());
    dispatch(&mut app, StreamEvent::ImportQueries(String::new()));
    assert!(app.app.status.contains("must not be empty"));
}

#[test]
fn external_stream_actions_are_returned_before_execution() {
    let mut app = CatalogApp::new().unwrap();
    for event in [
        StreamEvent::RefreshNow,
        StreamEvent::ExportQueries("unused".into()),
        StreamEvent::ImportQueries("unused".into()),
        StreamEvent::PreviewQuery {
            query: "is:pr".into(),
            source: StreamSource::IssueOrPullRequest,
        },
        StreamEvent::ItemAction(ItemAction::Open {
            id: 1,
            url: "https://example.test".into(),
        }),
        StreamEvent::SetTheme(Theme::Light),
    ] {
        let effect = app
            .app
            .handle_stream_event(event)
            .expect("must return an external effect");
        app.execute_effect(effect).unwrap();
    }
    assert!(!app.app.refresh_pending);
}

fn saved_query_names(app: &CatalogApp) -> Vec<String> {
    runtime(app)
        .saved_queries
        .iter()
        .map(|query| query.name.clone())
        .collect()
}

#[test]
fn demo_export_then_import_restores_the_sidebar() {
    let mut app = CatalogApp::new().unwrap();
    let before = saved_query_names(&app);
    let filters_before: Vec<usize> = runtime(&app)
        .saved_queries
        .iter()
        .map(|query| query.filter_streams.len())
        .collect();
    app.run_effect(ExternalEffect::ExportQueries("queries.yaml".into()));
    assert_eq!(
        app.app.status,
        "Demo export saved a snapshot in memory; no file was written."
    );
    assert_eq!(app.exported_queries.as_ref().unwrap().len(), 2);
    let id = runtime(&app).saved_queries[1].id;
    dispatch(&mut app, StreamEvent::DeleteQuery(id));
    assert_eq!(saved_query_names(&app), vec!["Sample work".to_string()]);
    app.run_effect(ExternalEffect::ImportQueries("queries.yaml".into()));
    assert_eq!(saved_query_names(&app), before);
    let filters_after: Vec<usize> = runtime(&app)
        .saved_queries
        .iter()
        .map(|query| query.filter_streams.len())
        .collect();
    assert_eq!(filters_after, filters_before);
}

#[test]
fn demo_import_without_export_restores_the_samples() {
    let mut app = CatalogApp::new().unwrap();
    for id in runtime(&app).saved_queries.iter().map(|q| q.id).collect::<Vec<_>>() {
        dispatch(&mut app, StreamEvent::DeleteQuery(id));
    }
    assert!(runtime(&app).saved_queries.is_empty());
    dispatch(&mut app, StreamEvent::ImportQueries("any".into()));
    assert_eq!(
        saved_query_names(&app),
        vec!["Sample work".to_string(), "Community".to_string()]
    );
    assert_eq!(runtime(&app).saved_queries[0].filter_streams[0].filter_query, "is:pr");
    assert!(app.app.status.contains("Refresh to rebuild matches"));
}

#[test]
fn demo_blank_paths_are_refused() {
    let mut app = CatalogApp::new().unwrap();
    dispatch(&mut app, StreamEvent::ExportQueries("  ".into()));
    assert_eq!(app.app.status, "Saved query export path must not be empty.");
    assert!(app.exported_queries.is_none());
    dispatch(&mut app, StreamEvent::ImportQueries("\t".into()));
    assert_eq!(app.app.status, "Saved query import path must not be empty.");
    assert_eq!(runtime(&app).saved_queries.len(), 2);
}

#[test]
fn demo_refresh_twice_lists_the_same_items() {
    let mut app = CatalogApp::new().unwrap();
    let start = runtime(&app).items.iter().map(|i| i.id).collect::<Vec<_>>();
    dispatch(&mut app, StreamEvent::RefreshNow);
    let once = runtime(&app).items.iter().map(|i| i.id).collect::<Vec<_>>();
    dispatch(&mut app, StreamEvent::RefreshNow);
    let twice = runtime(&app).items.iter().map(|i| i.id).collect::<Vec<_>>();
    assert_eq!(start, once);
    assert_eq!(once, twice);
    assert_eq!(
        app.app.status,
        "Demo refresh completed with sample results; no network request."
    );
}

#[test]
fn demo_samples_cover_every_state() {
    let app = CatalogApp::new().unwrap();
    let runtime = runtime(&app);
    let mut items = runtime.items.clone();
    items.extend(runtime.storage.list_items(
        runtime.host_id,
        Selection::Library(LibraryView::Archived),
        None,
        runtime.config.ui.default_sort,
    ));
    assert!(items.iter().any(|i| i.is_draft == Some(true)));
    assert!(items.iter().any(|i| i.is_merged == Some(true)));
    assert!(items.iter().any(|i| i.state == "closed"));
    assert!(items.iter().any(|i| i.is_bookmarked));
    assert!(items.iter().any(|i| i.is_archived));
    assert!(items.iter().any(|i| i.is_unread));
    assert!(items.iter().any(|i| !i.is_unread));
    assert!(items.iter().any(|i| i.item_type == ItemType::Discussion));
    let long = items.iter().find(|i| i.number == 7).unwrap();
    assert_eq!(long.title.matches("日本語").count(), 3);
    assert_eq!(long.labels.len(), 8);
    assert_eq!(long.labels[7], "sample-label-8");
    let first = items.iter().find(|i| i.number == 1).unwrap();
    assert_eq!(first.html_url, "https://github.example.test/demo/catalog/items/1");
    assert_eq!(first.title, "Unread issue with labels");
    assert_eq!(runtime.config.host.hostname, "github.example.test");
    assert_eq!(runtime.config.host.kind, ghtl::models::HostKind::Ghes);
    assert_eq!(app.app.status, "Demo: sample data; all changes stay in memory.");
    assert_eq!(runtime.library_counts.archived, 1);
}

#[test]
fn demo_opening_an_item_marks_it_read() {
    let mut app = CatalogApp::new().unwrap();
    let unread = runtime(&app)
        .items
        .iter()
        .find(|item| item.is_unread)
        .unwrap()
        .id;
    dispatch(
        &mut app,
        StreamEvent::ItemAction(ItemAction::Open {
            id: unread,
            url: "https://github.example.test/demo/catalog/items/1".into(),
        }),
    );
    assert_eq!(
        app.app.status,
        "Demo item opening simulated; no browser was opened."
    );
    assert!(!runtime(&app)
        .items
        .iter()
        .find(|item| item.id == unread)
        .unwrap()
        .is_unread);
}

#[test]
fn demo_sort_preference_reorders_the_stream() {
    let mut app = CatalogApp::new().unwrap();
    dispatch(&mut app, StreamEvent::SetDefaultSort(ghtl::models::SortOrder::UpdatedAsc));
    assert_eq!(runtime(&app).config.ui.default_sort, ghtl::models::SortOrder::UpdatedAsc);
    assert_eq!(app.app.status, "Demo sort preference saved in memory.");
    assert!(!runtime(&app).items.is_empty());
}

#[test]
fn demo_host_save_outside_the_form_changes_nothing() {
    let mut app = CatalogApp::new().unwrap();
    let mut config = runtime(&app).config.clone();
    config.host.hostname = "other.example.test".into();
    app.execute_effect(ExternalEffect::SaveSetup(config)).unwrap();
    assert_eq!(runtime(&app).config.host.hostname, "github.example.test");
    assert_eq!(app.app.status, "Demo: sample data; all changes stay in memory.");
    app.execute_effect(ExternalEffect::TestConnection(runtime(&app).config.clone()))
        .unwrap();
    assert_eq!(
        app.app.setup.validation_message,
        "Demo connection succeeded (simulated; no network request)."
    );
    app.execute_effect(ExternalEffect::PreviewQuery {
        query: "is:pr".into(),
        source: StreamSource::IssueOrPullRequest,
    })
    .unwrap();
    assert_eq!(
        app.app.status,
        "Demo query preview simulated; no browser was opened."
    );
    assert_eq!(app.app.stream.polling_interval_draft, 0);
}

#[test]
fn demo_host_save_keeps_the_lists_of_the_screen() {
    let mut app = CatalogApp::new().unwrap();
    dispatch(&mut app, StreamEvent::Select(Selection::Library(LibraryView::Unread)));
    let items = runtime(&app).items.iter().map(|i| i.id).collect::<Vec<_>>();
    let queries = saved_query_names(&app);
    let counts = runtime(&app).library_counts;
    dispatch(&mut app, StreamEvent::OpenSetup);
    let mut config = match &app.app.mode {
        AppMode::Setup { previous_runtime: Some(rt) } => rt.config.clone(),
        _ => panic!("expected the settings form"),
    };
    config.auth.pat = "other-token".into();
    app.execute_effect(ExternalEffect::SaveSetup(config)).unwrap();
    assert_eq!(runtime(&app).config.auth.pat, "other-token");
    assert_eq!(runtime(&app).items.iter().map(|i| i.id).collect::<Vec<_>>(), items);
    assert_eq!(saved_query_names(&app), queries);
    assert_eq!(runtime(&app).library_counts, counts);
    assert_eq!(app.app.status, "Demo host settings saved in memory.");
}

#[test]
fn demo_store_numbers_its_rows_in_order() {
    let app = CatalogApp::new().unwrap();
    let runtime = runtime(&app);
    assert_eq!(runtime.host_id, 1);
    let mut ids = runtime.items.iter().map(|i| i.id).collect::<Vec<_>>();
    ids.extend(
        runtime
            .storage
            .list_items(runtime.host_id, Selection::Library(LibraryView::Archived), None, runtime.config.ui.default_sort)
            .iter()
            .map(|i| i.id),
    );
    ids.sort();
    assert_eq!(ids, vec![5, 6, 7, 8, 9, 10, 11]);
    assert_eq!(app.app.setup.name, "Sample host");
    assert_eq!(app.app.setup.rest_api_base_path, "/api/v3");
    assert!(app.app.setup.validation_message.is_empty());
}

#[test]
fn demo_restarts_with_the_same_data() {
    let first = CatalogApp::new().unwrap();
    let second = CatalogApp::new().unwrap();
    let a = runtime(&first);
    let b = runtime(&second);
    assert_eq!(a.items, b.items);
    assert_eq!(a.saved_queries, b.saved_queries);
    assert_eq!(a.library_counts, b.library_counts);
    assert_eq!(a.config, b.config);
    assert_eq!(first.app.status, second.app.status);
    assert_eq!(first.app.stream, second.app.stream);
}
