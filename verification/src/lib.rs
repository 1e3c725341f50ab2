//! Verified core of a command-line deployment client.
//!
//! The heart of the crate is [`menu`]: the navigation state machine,
//! render model and key dispatch of an interactive single-select
//! terminal menu.  Around it stand the client's small domain types and
//! the pure decision logic of its commands; terminal and network I/O
//! live outside the library and hand plain values in and out.

mod api;
mod app_config;
mod build_output;
mod cli;
mod config;
mod dispatch;
mod env_var;
mod error;
mod listing;
mod log_format;
mod menu;
mod restart_policy;
mod secret;
mod service;
mod signup;
mod text;
mod tier;

pub use api::APIError;
pub use app_config::{is_zero, App};
pub use build_output::{
    build_line_action, deploy_verdict, str_starts_with, strip_prefix_all, trim_start, BuildAction,
};
pub use cli::{normalize_credentials, sanitize_app_name};
pub use config::{get_auth_header, token_needs_refresh, REFRESH_THRESHOLD_SECONDS};
pub use dispatch::{check_card, confirm_delete, login_gate, requires_app, requires_login};
pub use env_var::EnvVar;
pub use error::CommandError;
pub use listing::{sort_apps_newest_first, sort_secrets_newest_first};
pub use log_format::{iso_prefix_len, split_log_line, split_timestamp};
pub use menu::{
    find_current, key_command, line_style, next_index_skipping_current, render_lines, LineStyle,
    Menu, MenuCommand, MenuKey, MenuLine, MenuOutcome, MenuStep,
};
pub use restart_policy::{RestartPolicy, RestartPolicyWire};
pub use secret::{
    check_random_generation, encode_secret_value, generate_secret, Secret, SecretType,
};
pub use service::Service;
pub use signup::{check_email, check_username};
pub use text::{ellipsis, is_whitespace, str_eq, trim};
pub use tier::{find_current_tier, Tier};
