//! Application settings: shell, editor, theme and feature toggles.

use vstd::prelude::*;
use crate::text::to_owned;

verus! {

/// The colour theme of the interface.
#[derive(Debug, Clone, Copy, PartialEq, Eq, Structural)]
pub enum Theme {
    Default,
    Dark,
    Light,
}

impl Default for Theme {
    fn default() -> (r: Self)
        ensures
            r == Theme::Default,
    {
        Theme::Default
    }
}

/// Application settings.
#[derive(Debug, Clone)]
pub struct AppConfig {
    pub tmux_enabled: bool,
    /// The terminal shell.
    pub shell: String,
    /// The editor command.
    pub editor: String,
    pub theme: Theme,
    pub onboarding_completed: bool,
}

/// The shell to use: the one the environment names (`COMSPEC` on Windows,
/// `SHELL` elsewhere), else the platform's usual one.
pub fn default_shell(from_env: Option<String>, windows: bool) -> (r: String)
    ensures
        r@ == match from_env {
            Some(s) => s@,
            None => if windows {
                "cmd.exe"@
            } else {
                "/bin/bash"@
            },
        },
{
    match from_env {
        Some(s) => s,
        None => if windows {
            to_owned("cmd.exe")
        } else {
            to_owned("/bin/bash")
        },
    }
}

/// The editor to use: the one `EDITOR` names, else the platform's usual one.
pub fn default_editor(from_env: Option<String>, windows: bool) -> (r: String)
    ensures
        r@ == match from_env {
            Some(s) => s@,
            None => if windows {
                "notepad"@
            } else {
                "nano"@
            },
        },
{
    match from_env {
        Some(s) => s,
        None => if windows {
            to_owned("notepad")
        } else {
            to_owned("nano")
        },
    }
}

impl AppConfig {
    /// The default settings, with the shell and editor the environment
    /// gives (see `default_shell`, `default_editor`).
    pub fn with_environment(shell: Option<String>, editor: Option<String>, windows: bool) -> (r:
        Self)
        ensures
            r.tmux_enabled,
            r.shell@ == default_shell_spec(shell, windows),
            r.editor@ == default_editor_spec(editor, windows),
            r.theme == Theme::Default,
            !r.onboarding_completed,
    {
        AppConfig {
            tmux_enabled: true,
            shell: default_shell(shell, windows),
            editor: default_editor(editor, windows),
            theme: Theme::Default,
            onboarding_completed: false,
        }
    }
}

/// What `default_shell` gives.
pub open spec fn default_shell_spec(from_env: Option<String>, windows: bool) -> Seq<char> {
    match from_env {
        Some(s) => s@,
        None => if windows {
            "cmd.exe"@
        } else {
            "/bin/bash"@
        },
    }
}

/// What `default_editor` gives.
pub open spec fn default_editor_spec(from_env: Option<String>, windows: bool) -> Seq<char> {
    match from_env {
        Some(s) => s@,
        None => if windows {
            "notepad"@
        } else {
            "nano"@
        },
    }
}

/// Settings of proactive context recall.
#[derive(Debug, Clone, Copy)]
pub struct PaCoReConfig {
    pub enabled: bool,
    /// Number of proactive rounds.
    pub rounds: usize,
}

impl Default for PaCoReConfig {
    fn default() -> (r: Self)
        ensures
            !r.enabled,
            r.rounds == 3,
    {
        PaCoReConfig { enabled: false, rounds: 3 }
    }
}

/// Feature toggles.
#[derive(Debug, Clone, Copy)]
pub struct FeatureConfig {
    pub web_search: bool,
    pub memory: bool,
    /// Delegation to workers.
    pub workers: bool,
    pub telemetry: bool,
    /// Approve safe commands without asking.
    pub auto_approve_safe: bool,
    pub pacore: PaCoReConfig,
}

impl Default for FeatureConfig {
    fn default() -> (r: Self)
        ensures
            !r.web_search,
            r.memory,
            r.workers,
            !r.telemetry,
            !r.auto_approve_safe,
            !r.pacore.enabled,
            r.pacore.rounds == 3,
    {
        FeatureConfig {
            web_search: false,
            memory: true,
            workers: true,
            telemetry: false,
            auto_approve_safe: false,
            pacore: PaCoReConfig::default(),
        }
    }
}

} // verus!
