//! User configuration: the skip list, the custom commands that extend the
//! static step catalog, and the cleanup and notification settings.
//!
//! The configuration provider (a file and the environment) lives outside
//! the engine; it hands over an already-parsed [`Config`], or nothing, and
//! [`Config::load`] resolves what the run uses. Absence is tolerated: the
//! defaults apply.

use vstd::prelude::*;

use crate::stats::UpdateStats;

verus! {

/// One user-defined maintenance action to append to the step catalog.
#[derive(Debug, Clone)]
pub struct CustomCommand {
    pub name: String,
    pub commands: Vec<String>,
    pub enabled: bool,
}

/// Retention and scope knobs for the cleanup steps of the catalog.
#[derive(Debug, Clone, Copy, PartialEq, Eq, Structural)]
pub struct CleanupSettings {
    pub downloads_days_old: u32,
    pub screenshots_days_old: u32,
    pub dmg_files_days_old: u32,
    pub clear_browser_caches: bool,
    pub clear_system_logs: bool,
}

/// When the completion notification is wanted.
#[derive(Debug, Clone, Copy, PartialEq, Eq, Structural)]
pub struct NotificationSettings {
    pub enabled: bool,
    pub success_only: bool,
    pub include_stats: bool,
}

/// The user configuration consumed once at startup.
#[derive(Debug, Clone)]
pub struct Config {
    /// Names of catalog steps to leave out of the run.
    pub skip_steps: Vec<String>,
    /// User-defined steps appended to the catalog when enabled.
    pub custom_commands: Vec<CustomCommand>,
    pub cleanup_settings: CleanupSettings,
    pub notification_settings: NotificationSettings,
}

/// Mathematical model of one custom command.
#[verifier::ext_equal]
pub struct CustomCommandSpec {
    pub name: Seq<char>,
    pub commands: Seq<Seq<char>>,
    pub enabled: bool,
}

impl View for CustomCommand {
    type V = CustomCommandSpec;

    open spec fn view(&self) -> CustomCommandSpec {
        CustomCommandSpec {
            name: self.name@,
            commands: self.commands.deep_view(),
            enabled: self.enabled,
        }
    }
}

/// Mathematical model of the configuration.
#[verifier::ext_equal]
pub struct ConfigSpec {
    pub skip_steps: Seq<Seq<char>>,
    pub custom_commands: Seq<CustomCommandSpec>,
    pub cleanup_settings: CleanupSettings,
    pub notification_settings: NotificationSettings,
}

impl View for Config {
    type V = ConfigSpec;

    open spec fn view(&self) -> ConfigSpec {
        ConfigSpec {
            skip_steps: self.skip_steps.deep_view(),
            custom_commands: self.custom_commands@.map_values(|c: CustomCommand| c@),
            cleanup_settings: self.cleanup_settings,
            notification_settings: self.notification_settings,
        }
    }
}

/// The defaults that apply where no configuration was found: skip nothing,
/// one disabled custom command for Homebrew casks, the usual retention
/// windows, notifications on.
pub open spec fn default_config() -> ConfigSpec {
    ConfigSpec {
        skip_steps: Seq::empty(),
        custom_commands: seq![
            CustomCommandSpec {
                name: "Update Homebrew Casks"@,
                commands: seq!["brew upgrade --cask"@],
                enabled: false,
            },
        ],
        cleanup_settings: (CleanupSettings {
            downloads_days_old: 30,
            screenshots_days_old: 14,
            dmg_files_days_old: 7,
            clear_browser_caches: true,
            clear_system_logs: true,
        }),
        notification_settings: (NotificationSettings {
            enabled: true,
            success_only: false,
            include_stats: true,
        }),
    }
}

impl Default for Config {
    /// The default configuration, exactly as [`default_config`] states.
    fn default() -> (c: Config)
        ensures
            c@ == default_config(),
    {
        let mut commands: Vec<String> = Vec::new();
        commands.push("brew upgrade --cask".to_owned());
        let mut custom_commands: Vec<CustomCommand> = Vec::new();
        custom_commands.push(CustomCommand {
            name: "Update Homebrew Casks".to_owned(),
            commands,
            enabled: false,
        });
        let c = Config {
            skip_steps: Vec::new(),
            custom_commands,
            cleanup_settings: CleanupSettings {
                downloads_days_old: 30,
                screenshots_days_old: 14,
                dmg_files_days_old: 7,
                clear_browser_caches: true,
                clear_system_logs: true,
            },
            notification_settings: NotificationSettings {
                enabled: true,
                success_only: false,
                include_stats: true,
            },
        };
        proof {
            assert(c@ =~~= default_config());
        }
        c
    }
}

impl Config {
    /// Resolve the configuration for a run: the value the provider managed
    /// to parse, or the defaults where none was found or it was unreadable.
    pub fn load(parsed: Option<Config>) -> (c: Config)
        ensures
            c@ == (match parsed {
                Some(p) => p@,
                None => default_config(),
            }),
    {
        match parsed {
            Some(p) => p,
            None => Config::default(),
        }
    }
}

impl NotificationSettings {
    /// Whether the completion notification is owed for a finished run:
    /// notifications must be enabled, and where only successes are wanted
    /// the run must have no failed step.
    pub fn should_notify(&self, stats: &UpdateStats) -> (b: bool)
        ensures
            b == (self.enabled && (!self.success_only || stats.failed_steps == 0)),
    {
        self.enabled && (!self.success_only || stats.failed_steps == 0)
    }
}

} // verus!
