use planet_generator::prelude::{GenerationSettings, SectorSettings, SettingsError, StarSettings};
use star_atlas::failure::PipelineError;
use star_atlas::settings::{
    check_settings, default_settings, keeps_ranges, map_layers, seed_of, settle_seed, violations,
    wants_fresh_seed, with_seed, DEFAULT_SEED,
};

fn settings_with_seed(seed: &str) -> GenerationSettings {
    GenerationSettings { seed: seed.into(), ..Default::default() }
}

#[test]
fn default_settings_have_the_default_seed_and_default_parameters() {
    let settings = default_settings();
    assert_eq!(DEFAULT_SEED, "default");
    assert_eq!(seed_of(&settings), "default");
    assert_eq!(settings, settings_with_seed("default"));
    assert_eq!(settings.sector, SectorSettings::default());
    assert_eq!(settings.star, StarSettings::default());
    assert_eq!(check_settings(&settings), Ok(()));
}

#[test]
fn seed_is_read_from_the_settings() {
    assert_eq!(seed_of(&settings_with_seed("orion")), "orion");
    assert_eq!(seed_of(&settings_with_seed("")), "");
}

#[test]
fn only_an_empty_seed_is_left_open() {
    assert!(wants_fresh_seed(&settings_with_seed("")));
    assert!(!wants_fresh_seed(&settings_with_seed("default")));
    assert!(!wants_fresh_seed(&settings_with_seed(" ")));
}

#[test]
fn with_seed_changes_the_seed_alone() {
    let mut given = settings_with_seed("orion");
    given.sector.hex_size = (2, 3, 4);
    given.system.only_interesting = true;
    let changed = with_seed(&given, "lyra");
    assert_eq!(seed_of(&changed), "lyra");
    assert_eq!(seed_of(&given), "orion");
    let mut expected = given.clone();
    expected.seed = "lyra".into();
    assert_eq!(changed, expected);
}

#[test]
fn named_seed_is_kept_and_empty_seed_is_replaced() {
    let named = settle_seed(settings_with_seed("orion"), "fresh");
    assert_eq!(named, settings_with_seed("orion"));
    let settled = settle_seed(settings_with_seed(""), "fresh");
    assert_eq!(settled, settings_with_seed("fresh"));
    let still_open = settle_seed(settings_with_seed(""), "");
    assert_eq!(still_open, settings_with_seed(""));
}

#[test]
fn valid_settings_break_nothing() {
    assert!(violations(&settings_with_seed("orion")).is_empty());
    assert_eq!(check_settings(&settings_with_seed("orion")), Ok(()));
}

#[test]
fn every_broken_range_is_reported() {
    let mut settings = settings_with_seed("orion");
    settings.sector.hex_size = (0, 1, 1);
    settings.sector.level_2_size = (3, 4, 4);
    settings.star.fixed_mass = Some(-1.0);
    let found = violations(&settings);
    assert_eq!(
        found,
        vec![
            SettingsError::InvalidHexSize(0, 1, 1),
            SettingsError::InvalidLevelSize { level: 2, size: (3, 4, 4) },
            SettingsError::InvalidStarMass(-1.0),
        ]
    );
    assert_eq!(check_settings(&settings), Err(PipelineError::InvalidSettings { violations: 3 }));
}

#[test]
fn validity_does_not_depend_on_the_seed() {
    let mut settings = settings_with_seed("");
    settings.celestial_body.do_not_generate_gaseous = true;
    settings.celestial_body.do_not_generate_icy = true;
    settings.celestial_body.do_not_generate_rocky = true;
    settings.celestial_body.do_not_generate_metallic = true;
    assert_eq!(violations(&settings), vec![SettingsError::AllBodyTypesDisabled]);
    let settled = settle_seed(settings, "fresh");
    assert_eq!(violations(&settled), vec![SettingsError::AllBodyTypesDisabled]);
    assert_eq!(check_settings(&settled), Err(PipelineError::InvalidSettings { violations: 1 }));
}

#[test]
fn default_settings_are_the_same_on_every_call_and_carry_no_layer() {
    let first = default_settings();
    let later = default_settings();
    assert_eq!(first, later);
    assert!(map_layers(&first).is_empty());
    assert!(keeps_ranges(&first));
}

#[test]
fn ranges_are_kept_or_broken_whatever_the_layers() {
    let mut settings = settings_with_seed("orion");
    settings.galaxy.galactic_map_layers = vec![String::from("<svg><image href='a.png'/></svg>")];
    assert!(keeps_ranges(&settings));
    assert!(violations(&settings).is_empty());
    assert_eq!(check_settings(&settings), Err(PipelineError::OpenLayer { layer: 0 }));
    let changed = with_seed(&settings, "lyra");
    assert_eq!(map_layers(&changed), map_layers(&settings));
    settings.star.fixed_age = Some(-1.0);
    assert!(!keeps_ranges(&settings));
}
