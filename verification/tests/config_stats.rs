use mac_updater::config::{CleanupSettings, Config, CustomCommand, NotificationSettings};
use mac_updater::stats::{elapsed_millis, minutes_seconds, UpdateStats};
use mac_updater::steps::{build_catalog, CommandStep};

fn step(name: &str, cmds: &[&str]) -> CommandStep {
    CommandStep::new(name.to_string(), cmds.iter().map(|c| c.to_string()).collect())
}

#[test]
fn defaults_apply_when_nothing_was_found() {
    let c = Config::load(None);
    assert!(c.skip_steps.is_empty());
    assert_eq!(c.custom_commands.len(), 1);
    assert_eq!(c.custom_commands[0].name, "Update Homebrew Casks");
    assert_eq!(c.custom_commands[0].commands, vec!["brew upgrade --cask".to_string()]);
    assert!(!c.custom_commands[0].enabled);
    assert_eq!(c.cleanup_settings.downloads_days_old, 30);
    assert_eq!(c.cleanup_settings.screenshots_days_old, 14);
    assert_eq!(c.cleanup_settings.dmg_files_days_old, 7);
    assert!(c.cleanup_settings.clear_browser_caches);
    assert!(c.cleanup_settings.clear_system_logs);
    assert!(c.notification_settings.enabled);
    assert!(!c.notification_settings.success_only);
    assert!(c.notification_settings.include_stats);
}

#[test]
fn parsed_configuration_wins_over_defaults() {
    let parsed = Config {
        skip_steps: vec!["Updating Homebrew".to_string()],
        custom_commands: vec![],
        cleanup_settings: CleanupSettings {
            downloads_days_old: 5,
            screenshots_days_old: 6,
            dmg_files_days_old: 7,
            clear_browser_caches: false,
            clear_system_logs: false,
        },
        notification_settings: NotificationSettings {
            enabled: false,
            success_only: true,
            include_stats: false,
        },
    };
    let c = Config::load(Some(parsed));
    assert_eq!(c.skip_steps, vec!["Updating Homebrew".to_string()]);
    assert!(c.custom_commands.is_empty());
    assert_eq!(c.cleanup_settings.downloads_days_old, 5);
    assert!(!c.notification_settings.enabled);
}

#[test]
fn catalog_filters_skipped_names_and_keeps_order() {
    let base = vec![
        step("Updating Homebrew", &["brew update", "brew upgrade"]),
        step("Clearing system caches", &["sudo dscacheutil -flushcache"]),
        step("Optimizing disk space", &["sudo purge"]),
    ];
    let mut config = Config::load(None);
    config.skip_steps = vec!["Clearing system caches".to_string()];
    let catalog = build_catalog(base, &config);
    assert_eq!(catalog.len(), 2);
    assert_eq!(catalog[0].description, "Updating Homebrew");
    assert_eq!(catalog[0].cmds, vec!["brew update".to_string(), "brew upgrade".to_string()]);
    assert_eq!(catalog[1].description, "Optimizing disk space");
}

#[test]
fn catalog_appends_only_enabled_custom_commands() {
    let base = vec![step("Updating Homebrew", &["brew update"])];
    let mut config = Config::load(None);
    config.custom_commands = vec![
        CustomCommand {
            name: "Dotfile sync".to_string(),
            commands: vec!["git -C ~/dotfiles pull".to_string()],
            enabled: true,
        },
        CustomCommand {
            name: "Disabled extra".to_string(),
            commands: vec!["true".to_string()],
            enabled: false,
        },
    ];
    let catalog = build_catalog(base, &config);
    assert_eq!(catalog.len(), 2);
    assert_eq!(catalog[1].description, "Dotfile sync");
    assert_eq!(catalog[1].cmds, vec!["git -C ~/dotfiles pull".to_string()]);
}

#[test]
fn catalog_default_config_changes_nothing_but_appends_nothing() {
    let base = vec![step("a", &["true"]), step("b", &["false"])];
    let catalog = build_catalog(base, &Config::load(None));
    // The default custom command exists but is disabled.
    assert_eq!(catalog.len(), 2);
    assert_eq!(catalog[0].description, "a");
    assert_eq!(catalog[1].description, "b");
}

#[test]
fn notification_policy() {
    let mut stats = UpdateStats::new(3);
    let on = NotificationSettings { enabled: true, success_only: false, include_stats: true };
    let successes_only = NotificationSettings {
        enabled: true,
        success_only: true,
        include_stats: true,
    };
    let off = NotificationSettings { enabled: false, success_only: false, include_stats: true };
    assert!(on.should_notify(&stats));
    assert!(successes_only.should_notify(&stats));
    assert!(!off.should_notify(&stats));
    stats.failed_steps = 1;
    assert!(on.should_notify(&stats));
    assert!(!successes_only.should_notify(&stats));
    assert!(!off.should_notify(&stats));
}

#[test]
fn fresh_statistics_are_zeroed() {
    let s = UpdateStats::new(13);
    assert_eq!(s.total_steps, 13);
    assert_eq!(s.completed_steps, 0);
    assert_eq!(s.skipped_steps, 0);
    assert_eq!(s.failed_steps, 0);
}

#[test]
fn elapsed_is_the_difference_of_the_readings() {
    assert_eq!(elapsed_millis(1_000, 126_000), 125_000);
    assert_eq!(elapsed_millis(0, 0), 0);
    // A clock that moved backwards counts as no time passed.
    assert_eq!(elapsed_millis(2_000, 1_000), 0);
    assert_eq!(elapsed_millis(i64::MIN, i64::MAX), u64::MAX);
}

#[test]
fn summary_clock_split() {
    assert_eq!(minutes_seconds(0), (0, 0));
    assert_eq!(minutes_seconds(125_000), (2, 5));
    assert_eq!(minutes_seconds(60_000), (1, 0));
    assert_eq!(minutes_seconds(59_999), (0, 59));
    assert_eq!(minutes_seconds(3_599_000), (59, 59));
}

#[test]
fn duration_reads_the_local_clock() {
    let s = UpdateStats::new(1);
    // The run just began: far less than ten minutes can have passed.
    assert!(s.duration() < 600_000);
}
