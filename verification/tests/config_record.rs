use ajour_core::column::ColumnConfig;
use ajour_core::column::ColumnConfigV2;
use ajour_core::config::AccountKeys;
use ajour_core::config::Config;
use ajour_core::config::Language;
use ajour_core::config::LoadOutcome;
use ajour_core::config::PartialConfig;
use ajour_core::config::SelfUpdateChannel;
use ajour_core::config::load_or_default_step;
use ajour_core::default_true;
use ajour_core::flavor::Flavor;
use ajour_core::flavor::Wow;

fn empty_partial() -> PartialConfig {
    PartialConfig {
        wow: None,
        theme: None,
        column_config: None,
        window_size: None,
        scale: None,
        backup_directory: None,
        backup_addons: None,
        backup_wtf: None,
        hide_ignored_addons: None,
        self_update_channel: None,
        weak_auras_account: None,
        alternating_row_colors: None,
        language: None,
    }
}

#[test]
fn default_record_has_documented_values() {
    let config = Config::default();
    assert_eq!(config.wow.directory, None);
    assert_eq!(config.theme, None);
    assert_eq!(
        config.column_config,
        ColumnConfig::V1 {
            local_version_width: 150,
            remote_version_width: 150,
            status_width: 85,
        }
    );
    assert_eq!(config.window_size, None);
    assert_eq!(config.scale, None);
    assert_eq!(config.backup_directory, None);
    assert!(!config.backup_addons);
    assert!(!config.backup_wtf);
    assert!(!config.hide_ignored_addons);
    assert_eq!(config.self_update_channel, SelfUpdateChannel::Stable);
    assert_eq!(config.weak_auras_account.get(Flavor::Retail), &None);
    assert!(config.alternating_row_colors);
    assert_eq!(config.language, Language::English);
}

#[test]
fn default_true_is_true() {
    assert!(default_true());
}

#[test]
fn column_config_default_is_v1_fixed_widths() {
    assert_eq!(
        ColumnConfig::default(),
        ColumnConfig::V1 {
            local_version_width: 150,
            remote_version_width: 150,
            status_width: 85,
        }
    );
}

#[test]
fn missing_fields_take_documented_defaults() {
    let loaded = Config::from_partial(empty_partial());
    assert_eq!(loaded, Config::default());
}

#[test]
fn present_fields_are_kept() {
    let mut partial = empty_partial();
    partial.wow = Some(Wow {
        directory: Some("/games".to_string()),
    });
    partial.theme = Some("Dark".to_string());
    partial.backup_addons = Some(true);
    partial.alternating_row_colors = Some(false);
    partial.language = Some(Language::German);
    partial.window_size = Some((1280, 720));
    let loaded = Config::from_partial(partial);
    assert_eq!(loaded.wow.directory, Some("/games".to_string()));
    assert_eq!(loaded.theme, Some("Dark".to_string()));
    assert!(loaded.backup_addons);
    assert!(!loaded.alternating_row_colors);
    assert_eq!(loaded.language, Language::German);
    assert_eq!(loaded.window_size, Some((1280, 720)));
    // Fields the stored data omitted still take their defaults.
    assert_eq!(loaded.self_update_channel, SelfUpdateChannel::Stable);
    assert_eq!(loaded.column_config, ColumnConfig::default());
}

#[test]
fn v3_layout_without_aura_columns_defaults_to_empty() {
    let my = vec![ColumnConfigV2 {
        key: "title".to_string(),
        width: Some(120),
        hidden: false,
    }];
    let catalog = vec![ColumnConfigV2 {
        key: "source".to_string(),
        width: None,
        hidden: true,
    }];
    let layout = ColumnConfig::v3_from_parts(my.clone(), catalog.clone(), None);
    assert_eq!(
        layout,
        ColumnConfig::V3 {
            my_addons_columns: my,
            catalog_columns: catalog,
            aura_columns: Vec::new(),
        }
    );
}

#[test]
fn v3_layout_with_aura_columns_keeps_them() {
    let aura = vec![ColumnConfigV2 {
        key: "author".to_string(),
        width: Some(85),
        hidden: false,
    }];
    let layout = ColumnConfig::v3_from_parts(Vec::new(), Vec::new(), Some(aura.clone()));
    assert_eq!(
        layout,
        ColumnConfig::V3 {
            my_addons_columns: Vec::new(),
            catalog_columns: Vec::new(),
            aura_columns: aura,
        }
    );
}

fn populated_config(layout: ColumnConfig) -> Config {
    let mut keys = AccountKeys::default();
    keys.insert(Flavor::RetailBeta, "beta-account".to_string());
    Config {
        wow: Wow {
            directory: Some("/games/wow".to_string()),
        },
        theme: Some("Dark".to_string()),
        column_config: layout,
        window_size: Some((1920, 1080)),
        scale: Some(1250),
        backup_directory: Some("/backups".to_string()),
        backup_addons: true,
        backup_wtf: true,
        hide_ignored_addons: true,
        self_update_channel: SelfUpdateChannel::Beta,
        weak_auras_account: keys,
        alternating_row_colors: false,
        language: Language::Danish,
    }
}

#[test]
fn round_trip_keeps_every_field_v1() {
    let config = populated_config(ColumnConfig::V1 {
        local_version_width: 100,
        remote_version_width: 110,
        status_width: 90,
    });
    assert_eq!(Config::from_partial(config.clone().to_partial()), config);
}

#[test]
fn round_trip_keeps_every_field_v2() {
    let config = populated_config(ColumnConfig::V2 {
        columns: vec![ColumnConfigV2 {
            key: "status".to_string(),
            width: Some(85),
            hidden: true,
        }],
    });
    assert_eq!(Config::from_partial(config.clone().to_partial()), config);
}

#[test]
fn round_trip_keeps_every_field_v3() {
    let config = populated_config(ColumnConfig::V3 {
        my_addons_columns: vec![ColumnConfigV2 {
            key: "title".to_string(),
            width: None,
            hidden: false,
        }],
        catalog_columns: Vec::new(),
        aura_columns: vec![ColumnConfigV2 {
            key: "author".to_string(),
            width: Some(60),
            hidden: false,
        }],
    });
    assert_eq!(Config::from_partial(config.clone().to_partial()), config);
}

#[test]
fn load_step_missing_gives_default_and_persists() {
    let r = load_or_default_step(LoadOutcome::Missing);
    assert_eq!(r, Ok((Config::default(), true)));
}

#[test]
fn load_step_keeps_loaded_record() {
    let mut config = Config::default();
    config.theme = Some("Light".to_string());
    config.language = Language::French;
    let r = load_or_default_step(LoadOutcome::Loaded(config.clone()));
    assert_eq!(r, Ok((config, false)));
}

#[test]
fn load_step_surfaces_corruption() {
    let r = load_or_default_step(LoadOutcome::Corrupt("bad yaml at line 3".to_string()));
    assert_eq!(r, Err("bad yaml at line 3".to_string()));
}

#[test]
fn language_codes_exact_and_distinct() {
    assert_eq!(Language::English.language_code(), "en_US");
    assert_eq!(Language::Danish.language_code(), "da_DK");
    assert_eq!(Language::German.language_code(), "de_DE");
    assert_eq!(Language::French.language_code(), "fr_FR");
    let all = Language::all();
    assert_eq!(
        all,
        vec![
            Language::English,
            Language::Danish,
            Language::German,
            Language::French,
        ]
    );
    for a in &all {
        for b in &all {
            if a != b {
                assert_ne!(a.language_code(), b.language_code());
            }
        }
    }
}

#[test]
fn display_names_exact() {
    assert_eq!(Language::English.name(), "English");
    assert_eq!(Language::Danish.name(), "Danish");
    assert_eq!(Language::German.name(), "German");
    assert_eq!(Language::French.name(), "French");
    assert_eq!(SelfUpdateChannel::Stable.name(), "Stable");
    assert_eq!(SelfUpdateChannel::Beta.name(), "Beta");
}

#[test]
fn update_channels_enumerated_in_order() {
    assert_eq!(
        SelfUpdateChannel::all(),
        [SelfUpdateChannel::Stable, SelfUpdateChannel::Beta]
    );
    assert_eq!(SelfUpdateChannel::default(), SelfUpdateChannel::Stable);
}

#[test]
fn account_keys_per_flavor() {
    let mut keys = AccountKeys::default();
    assert_eq!(keys.get(Flavor::Retail), &None);
    keys.insert(Flavor::Retail, "retail-account".to_string());
    keys.insert(Flavor::Classic, "classic-account".to_string());
    assert_eq!(keys.get(Flavor::Retail), &Some("retail-account".to_string()));
    assert_eq!(keys.get(Flavor::Classic), &Some("classic-account".to_string()));
    assert_eq!(keys.get(Flavor::RetailPtr), &None);
    assert_eq!(keys.get(Flavor::RetailBeta), &None);
    keys.insert(Flavor::Retail, "renamed".to_string());
    assert_eq!(keys.get(Flavor::Retail), &Some("renamed".to_string()));
    assert_eq!(keys.get(Flavor::Classic), &Some("classic-account".to_string()));
}

#[test]
fn stored_location_is_well_known() {
    assert_eq!(Config::relative_path(), "ajour.yml");
}
