use calliper::ScenarioConfig;

#[test]
fn default_configuration_sets_nothing() {
    let config = ScenarioConfig::default();
    assert_eq!(config.get_branch_sim(), None);
    assert_eq!(config.get_cache_sim(), None);
    assert_eq!(config.get_collect_atstart(), None);
    assert_eq!(config.get_output(), None);
}

#[test]
fn builders_set_one_setting_each() {
    let config = ScenarioConfig::default().branch_sim(true);
    assert_eq!(config.get_branch_sim(), Some(true));
    assert_eq!(config.get_cache_sim(), None);
    assert_eq!(config.get_collect_atstart(), None);
    assert_eq!(config.get_output(), None);

    let config = config.cache_sim(false);
    assert_eq!(config.get_branch_sim(), Some(true));
    assert_eq!(config.get_cache_sim(), Some(false));

    let config = config.collect_atstart(true).output("bench.out".to_string());
    assert_eq!(config.get_collect_atstart(), Some(true));
    assert_eq!(config.get_output(), Some(&"bench.out".to_string()));
    assert_eq!(config.get_branch_sim(), Some(true));
    assert_eq!(config.get_cache_sim(), Some(false));
}

#[test]
fn a_builder_replaces_an_earlier_value() {
    let config = ScenarioConfig::default().branch_sim(true).branch_sim(false);
    assert_eq!(config.get_branch_sim(), Some(false));
    let config = config.output("first".to_string()).output("second".to_string());
    assert_eq!(config.get_output(), Some(&"second".to_string()));
}

#[test]
fn overriding_settings_win_where_present() {
    let defaults = ScenarioConfig::default()
        .branch_sim(false)
        .cache_sim(true)
        .output("default.out".to_string());
    let overrides = ScenarioConfig::default().branch_sim(true).output("mine.out".to_string());
    let merged = defaults.overwrite(&overrides);
    assert_eq!(merged.get_branch_sim(), Some(true));
    assert_eq!(merged.get_output(), Some(&"mine.out".to_string()));
}

#[test]
fn defaults_show_through_where_nothing_overrides() {
    let defaults = ScenarioConfig::default()
        .branch_sim(false)
        .cache_sim(true)
        .output("default.out".to_string());
    let overrides = ScenarioConfig::default().branch_sim(true);
    let merged = defaults.overwrite(&overrides);
    assert_eq!(merged.get_cache_sim(), Some(true));
    assert_eq!(merged.get_output(), Some(&"default.out".to_string()));
    assert_eq!(merged.get_collect_atstart(), None);
}

#[test]
fn overriding_with_a_value_equal_to_false_still_overrides() {
    let defaults = ScenarioConfig::default().collect_atstart(true);
    let overrides = ScenarioConfig::default().collect_atstart(false);
    assert_eq!(defaults.overwrite(&overrides).get_collect_atstart(), Some(false));
}

#[test]
fn a_configuration_that_sets_nothing_is_neutral() {
    let config = ScenarioConfig::default().cache_sim(true).output("x".to_string());
    assert_eq!(config.overwrite(&ScenarioConfig::default()), config);
    assert_eq!(ScenarioConfig::default().overwrite(&config), config);
}

#[test]
fn overwrite_leaves_both_sides_as_they_were() {
    let defaults = ScenarioConfig::default().output("default.out".to_string());
    let overrides = ScenarioConfig::default().output("mine.out".to_string());
    let _ = defaults.overwrite(&overrides);
    assert_eq!(defaults.get_output(), Some(&"default.out".to_string()));
    assert_eq!(overrides.get_output(), Some(&"mine.out".to_string()));
}

#[test]
fn a_cloned_configuration_is_equal() {
    let config = ScenarioConfig::default().branch_sim(true).output("o".to_string());
    assert_eq!(config.clone(), config);
}
