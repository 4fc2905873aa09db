//! The host settings form: its state, and what its buttons decide.

use vstd::prelude::*;
use vstd::string::*;
use crate::config::{config_problem, validate_config};
use crate::models::{
    AppConfig, AuthConfig, HostConfig, HostKind, Scheme, default_refresh, default_ui,
};

verus! {

/// The host settings form as it is being edited.
#[derive(Clone, Debug, PartialEq)]
pub struct SetupState {
    pub name: String,
    pub scheme: Scheme,
    pub hostname: String,
    pub rest_api_base_path: String,
    pub kind: HostKind,
    pub pat: String,
    pub validation_message: String,
}

/// The form shows the host and token of the configuration, with no
/// message.
pub open spec fn shows_config(s: SetupState, config: AppConfig) -> bool {
    &&& s.name == config.host.name
    &&& s.scheme == config.host.scheme
    &&& s.hostname == config.host.hostname
    &&& s.rest_api_base_path == config.host.rest_api_base_path
    &&& s.kind == config.host.kind
    &&& s.pat == config.auth.pat
    &&& s.validation_message@ == Seq::<char>::empty()
}

/// What the form reports back.
#[derive(Clone, Debug, PartialEq)]
pub enum SetupEvent {
    Cancel,
    Save(AppConfig),
    Test(AppConfig),
}

/// The buttons of the form.
#[derive(Clone, Copy, Debug, PartialEq, Eq, Structural)]
pub enum SetupButton {
    Back,
    Test,
    Save,
}

impl Default for SetupState {
    /// The form for a github.com host, with no token.
    fn default() -> (s: SetupState)
        ensures
            s.name@ == "GitHub"@,
            s.scheme == Scheme::Https,
            s.hostname@ == "github.com"@,
            s.rest_api_base_path@ == "/api/v3"@,
            s.kind == HostKind::GitHub,
            s.pat@ == Seq::<char>::empty(),
            s.validation_message@ == Seq::<char>::empty(),
    {
        let config = AppConfig::default_with_pat(String::new());
        SetupState {
            name: config.host.name,
            scheme: config.host.scheme,
            hostname: config.host.hostname,
            rest_api_base_path: config.host.rest_api_base_path,
            kind: config.host.kind,
            pat: String::new(),
            validation_message: String::new(),
        }
    }
}

/// The configuration that the form describes, with the preferences of a
/// fresh configuration.
pub open spec fn form_config(state: SetupState) -> AppConfig {
    AppConfig {
        host: HostConfig {
            name: state.name,
            scheme: state.scheme,
            hostname: state.hostname,
            rest_api_base_path: state.rest_api_base_path,
            kind: state.kind,
        },
        auth: AuthConfig { pat: state.pat },
        ui: default_ui(),
        refresh: default_refresh(),
    }
}

impl SetupState {
    /// Replaces the message under the form.
    pub fn set_validation_message(&mut self, message: String)
        ensures
            *final(self) == (SetupState { validation_message: message, ..*old(self) }),
    {
        self.validation_message = message;
    }

    /// The form filled in from a configuration, with no message.
    pub fn from_config(config: &AppConfig) -> (s: SetupState)
        ensures
            shows_config(s, *config),
    {
        SetupState {
            name: config.host.name.clone(),
            scheme: config.host.scheme,
            hostname: config.host.hostname.clone(),
            rest_api_base_path: config.host.rest_api_base_path.clone(),
            kind: config.host.kind,
            pat: config.auth.pat.clone(),
            validation_message: String::new(),
        }
    }
}

/// The configuration that the form describes, with the default preferences.
pub fn build_config(state: &SetupState) -> (c: AppConfig)
    ensures
        c == form_config(*state),
{
    let mut config = AppConfig::default_with_pat(state.pat.clone());
    config.host.name = state.name.clone();
    config.host.scheme = state.scheme;
    config.host.hostname = state.hostname.clone();
    config.host.rest_api_base_path = state.rest_api_base_path.clone();
    config.host.kind = state.kind;
    config
}

/// What pressing a button of the form decides. Back cancels where there is
/// something to go back to. Test and Save check the configuration: a valid
/// one is reported, a broken rule is shown under the form instead.
pub fn press(state: &mut SetupState, button: SetupButton, can_cancel: bool) -> (r: Option<SetupEvent>)
    ensures
        match button {
            SetupButton::Back => {
                &&& *final(state) == *old(state)
                &&& r == if can_cancel { Some(SetupEvent::Cancel) } else { None::<SetupEvent> }
            },
            _ => {
                let c = form_config(*old(state));
                match config_problem(c) {
                    None => {
                        &&& *final(state) == *old(state)
                        &&& r == if button == SetupButton::Test {
                            Some(SetupEvent::Test(c))
                        } else {
                            Some(SetupEvent::Save(c))
                        }
                    },
                    Some(m) => {
                        &&& r is None
                        &&& final(state).validation_message@ == m
                        &&& *final(state) == (SetupState {
                            validation_message: final(state).validation_message,
                            ..*old(state)
                        })
                    },
                }
            },
        },
{
    match button {
        SetupButton::Back => {
            if can_cancel {
                Some(SetupEvent::Cancel)
            } else {
                None
            }
        },
        _ => {
            match validate_config(build_config(state)) {
                Ok(config) => match button {
                    SetupButton::Test => Some(SetupEvent::Test(config)),
                    _ => Some(SetupEvent::Save(config)),
                },
                Err(err) => {
                    state.validation_message = err.message();
                    None
                },
            }
        },
    }
}

} // verus!
