use mouse2joy::config::{load_config, Config, ConfigLookup, BASE_RANGE, MAX_SENSITIVITY};

fn with_sensitivity(sensitivity: i32) -> Config {
    Config { sensitivity, dead_zone: 3, flat: 7, gui: false }
}

#[test]
fn default_is_baseline() {
    let c = Config::default();
    assert_eq!(c.sensitivity, 1);
    assert_eq!(c.dead_zone, 0);
    assert_eq!(c.flat, 0);
    assert!(c.gui);
}

#[test]
fn range_at_sensitivity_one() {
    let c = Config::default();
    assert_eq!(c.range_min(), -512);
    assert_eq!(c.range_max(), 512);
}

#[test]
fn range_scales_with_sensitivity() {
    let c = with_sensitivity(3);
    assert_eq!(c.range_min(), -1536);
    assert_eq!(c.range_max(), 1536);
}

#[test]
fn range_is_symmetric() {
    for s in [0, 1, 2, 5, 100, 4096, MAX_SENSITIVITY] {
        let c = with_sensitivity(s);
        assert_eq!(c.range_min(), -c.range_max());
    }
}

#[test]
fn non_positive_sensitivity_acts_as_one() {
    for s in [0, -1, -50, i32::MIN] {
        let c = with_sensitivity(s);
        assert_eq!(c.effective_sensitivity(), 1);
        assert_eq!(c.range_min(), -512);
        assert_eq!(c.range_max(), 512);
    }
}

#[test]
fn huge_sensitivity_is_capped() {
    let c = with_sensitivity(i32::MAX);
    assert_eq!(c.effective_sensitivity(), MAX_SENSITIVITY);
    assert_eq!(c.range_max(), MAX_SENSITIVITY * 512);
    assert_eq!(c.range_min(), -(MAX_SENSITIVITY * 512));
}

#[test]
fn axis_parameters() {
    let c = with_sensitivity(2);
    assert_eq!(c.fuzz(), 3);
    assert_eq!(c.flat(), 7);
    assert_eq!(c.value(), 0);
    assert_eq!(c.resolution(), BASE_RANGE);
    let a = c.axis_info();
    assert_eq!(a.value, 0);
    assert_eq!(a.minimum, -1024);
    assert_eq!(a.maximum, 1024);
    assert_eq!(a.fuzz, 3);
    assert_eq!(a.flat, 7);
    assert_eq!(a.resolution, 1024);
}

#[test]
fn missing_file_gives_default() {
    let c = load_config(ConfigLookup::Missing);
    assert_eq!(c, Config::default());
    assert_eq!(c.sensitivity, 1);
    assert_eq!(c.dead_zone, 0);
    assert_eq!(c.flat, 0);
}

#[test]
fn malformed_file_gives_default() {
    assert_eq!(load_config(ConfigLookup::Malformed), Config::default());
}

#[test]
fn parsed_file_is_used() {
    let c = with_sensitivity(4);
    assert_eq!(load_config(ConfigLookup::Parsed(c)), c);
}

#[test]
fn path_for_invoking_user() {
    let p = Config::path(Some("alice"), Some("/root/.config"));
    assert_eq!(p, "/home/alice/.config/mouse2joy/config.toml");
}

#[test]
fn path_for_root_uses_config_dir() {
    assert_eq!(Config::path(Some("root"), Some("/root/.config")), "/root/.config/mouse2joy/config.toml");
    assert_eq!(Config::path(None, Some("/home/bob/.config")), "/home/bob/.config/mouse2joy/config.toml");
}

#[test]
fn path_join_keeps_single_separator() {
    assert_eq!(Config::path(None, Some("/etc/xdg/")), "/etc/xdg/mouse2joy/config.toml");
}

#[test]
fn path_without_config_dir_is_relative() {
    assert_eq!(Config::path(None, None), "mouse2joy/config.toml");
    assert_eq!(Config::path(Some("root"), None), "mouse2joy/config.toml");
}

#[test]
fn path_user_named_like_root_prefix() {
    assert_eq!(Config::path(Some("roots"), None), "/home/roots/.config/mouse2joy/config.toml");
}
