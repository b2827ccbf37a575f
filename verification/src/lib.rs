//! Quota-monitor core: `.env` parsing, configuration lookup, API endpoint
//! routing with failover and retries, alert escalation, monitor state and
//! text rendering helpers.

pub mod accounts;
pub mod agents;
pub mod api;
pub mod config;
pub mod dotenv;
pub mod format;
pub mod laws;
pub mod monitor;
pub mod notify;
pub mod offline;
pub mod order;
pub mod output;
pub mod paths;
pub mod router;
pub mod strmap;
pub mod text;
pub mod theme;
pub mod trends;
pub mod update;

pub use accounts::{AccountConfig, AccountsConfig};
pub use agents::AgentStatus;
pub use api::is_retryable_error;
pub use config::{config_value, remember_deprecated_env_warning, RuntimeConfig, DEFAULT_ABTOP_BIN};
pub use dotenv::{parse_dotenv, unquote_env_value, EnvMap};
pub use format::{format_duration_opt, format_duration_secs};
pub use monitor::{fit_text, panel_bottom, panel_line, panel_top, PanelState};
pub use notify::{AlertLevel, NotificationMessage, Notifier};
pub use offline::{get_offline_duration_min, update_offline_state, OfflineState};
pub use output::{exit_code, FailOn, Preset};
pub use router::{Router, DEFAULT_API_BASE, VPN_API_BASE};
pub use theme::Theme;
pub use update::{
    is_auto_api_failover_enabled, is_auto_check_enabled, set_auto_api_failover_enabled,
    set_auto_check_enabled,
};
