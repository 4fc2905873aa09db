//! Work that reaches outside the application: the shared screens hand it to
//! their caller instead of doing it.

use vstd::prelude::*;
use vstd::string::*;
use crate::models::{
    AppConfig, FontSize, SortOrder, StreamSource, Theme, graphql_url_text, rest_api_base_url_text,
};

verus! {

/// Work whose implementation depends on the application's external
/// environment.
#[derive(Clone, Debug, PartialEq)]
pub enum ExternalEffect {
    SaveSetup(AppConfig),
    TestConnection(AppConfig),
    Refresh,
    OpenItem { id: i64, url: String },
    PreviewQuery { query: String, source: StreamSource },
    ExportQueries(String),
    ImportQueries(String),
    SetDefaultSort(SortOrder),
    SetPollingInterval(u32),
    SetTheme(Theme),
    SetFontSize(FontSize),
}


/// What the host settings form says after a connection test: the addresses
/// that answered, or why the connection failed although the configuration
/// is valid.
pub open spec fn connection_test_text(config: AppConfig, outcome: Result<(), String>) -> Seq<char> {
    match outcome {
        Ok(()) => "Connection succeeded. REST: "@ + rest_api_base_url_text(config.host) + " GraphQL: "@
            + graphql_url_text(config.host),
        Err(e) => "Configuration is valid, but connection failed: "@ + e@,
    }
}

/// The message of a connection test, from the configuration and the test's
/// outcome.
pub fn connection_test_message(config: &AppConfig, outcome: Result<(), String>) -> (s: String)
    ensures
        s@ == connection_test_text(*config, outcome),
{
    match outcome {
        Ok(()) => String::from_str("Connection succeeded. REST: ").concat(
            config.host.rest_api_base_url().as_str(),
        ).concat(" GraphQL: ").concat(config.host.graphql_url().as_str()),
        Err(e) => String::from_str("Configuration is valid, but connection failed: ").concat(e.as_str()),
    }
}

} // verus!
