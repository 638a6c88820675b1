use cardano_devkit::paths::{
    config_path_for, default_config_path, devkit_root_for, expand_home_symbol, get_devkit_root,
    join_path, resolve_home_symbol,
};

#[test]
fn join_adds_one_separator() {
    assert_eq!(join_path("/a/b", "c"), "/a/b/c");
    assert_eq!(join_path("/a/b/", "c"), "/a/b/c");
    assert_eq!(join_path("", "c"), "c");
    assert_eq!(join_path("/a", "/etc"), "/etc");
    assert_eq!(join_path("/a", "config/download.properties"), "/a/config/download.properties");
}

#[test]
fn home_symbol_expands_to_known_home() {
    assert_eq!(expand_home_symbol("~/.foo", Some("/home/ada")), "/home/ada/.foo");
}

#[test]
fn home_symbol_without_home_is_root() {
    assert_eq!(expand_home_symbol("~/.foo", None), "/root/.foo");
}

#[test]
fn home_symbol_every_occurrence_and_none() {
    assert_eq!(expand_home_symbol("~/a/~", Some("/h")), "/h/a//h");
    assert_eq!(expand_home_symbol("/opt/kit", Some("/h")), "/opt/kit");
    assert_eq!(expand_home_symbol("", None), "");
}

#[test]
fn resolve_uses_a_real_directory() {
    let r = resolve_home_symbol("~/.foo");
    assert!(r.ends_with("/.foo"));
    assert!(!r.starts_with('~'));
    assert_eq!(resolve_home_symbol("/plain/path"), "/plain/path");
}

#[test]
fn devkit_root_and_config_path() {
    assert_eq!(devkit_root_for(Some("/home/ada")), "/home/ada/.cardano-devkit");
    assert_eq!(devkit_root_for(None), "/root/.cardano-devkit");
    assert_eq!(config_path_for(Some("/home/ada")), "/home/ada/.cardano-devkit/config.json");
    assert_eq!(config_path_for(None), "~/.cardano-devkit/config.json");
    assert!(get_devkit_root().ends_with("/.cardano-devkit"));
    assert!(default_config_path().ends_with(".cardano-devkit/config.json"));
}
