use smartcat::config::{
    resolve_config_path, ConfigLocation, CUSTOM_CONFIG_ENV_VAR, DEFAULT_CONFIG_PATH,
};
use smartcat::error::Error;
use std::path::{Path, PathBuf};

fn directory(location: &ConfigLocation) -> PathBuf {
    match location {
        ConfigLocation::Custom(path) => PathBuf::from(path),
        ConfigLocation::UnderHome(home) => PathBuf::from(home).join(DEFAULT_CONFIG_PATH),
    }
}

#[test]
fn resolver_custom_config_path() {
    let temp_path = "/tmp/custom_path";
    let result = resolve_config_path(Some(temp_path.to_string()), Some("/home/someone".to_string()))
        .expect("a custom path resolves");
    assert_eq!(result, ConfigLocation::Custom(temp_path.to_string()));
    assert_eq!(directory(&result), Path::new(temp_path));
}

#[test]
fn resolve_default_config_path() {
    let home_dir = "/home/someone".to_string();
    let default_path = PathBuf::new().join(&home_dir).join(DEFAULT_CONFIG_PATH);
    let result = resolve_config_path(None, Some(home_dir.clone())).expect("HOME resolves");
    assert_eq!(result, ConfigLocation::UnderHome(home_dir));
    assert_eq!(directory(&result), Path::new(&default_path));
}

#[test]
fn custom_path_wins_without_home() {
    let result = resolve_config_path(Some("/etc/sc".to_string()), None);
    assert_eq!(result, Ok(ConfigLocation::Custom("/etc/sc".to_string())));
}

#[test]
fn unresolvable_config_path_is_an_error() {
    assert_eq!(resolve_config_path(None, None), Err(Error::ConfigPathUnresolvable));
}

#[test]
fn well_known_names() {
    assert_eq!(DEFAULT_CONFIG_PATH, ".config/smartcat/");
    assert_eq!(CUSTOM_CONFIG_ENV_VAR, "SMARTCAT_CONFIG_PATH");
}
