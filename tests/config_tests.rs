use cardano_devkit::config::{self, config_file_path, Config, ConfigFile, LoadStep};

#[test]
fn default_config_is_rooted() {
    let c = Config::default("/home/ada/.cardano-devkit");
    assert_eq!(c.yaci_devkit.path, "/home/ada/.cardano-devkit/yaci-devkit");
    assert_eq!(c.yaci_devkit.services_path, "/home/ada/.cardano-devkit/services");
    assert_eq!(c.yaci_devkit.version, "0.9.3-beta");
    assert_ne!(c.yaci_devkit.path, c.yaci_devkit.services_path);
}

#[test]
fn parsed_config_is_used() {
    let found = Config::default("/srv/kit");
    match config::init(None, "/root/.cardano-devkit", ConfigFile::Parsed(found)) {
        LoadStep::Use(c) => assert_eq!(c.yaci_devkit.path, "/srv/kit/yaci-devkit"),
        other => panic!("unexpected {:?}", other),
    }
}

#[test]
fn malformed_config_falls_back_to_default() {
    match Config::load(Some("/x".to_string()), "/root/.cardano-devkit", ConfigFile::Malformed) {
        LoadStep::FallBack(c) => {
            assert_eq!(c.yaci_devkit.path, "/x/yaci-devkit");
            assert_eq!(c.yaci_devkit.services_path, "/x/services");
        }
        other => panic!("unexpected {:?}", other),
    }
}

#[test]
fn missing_config_is_created_then_stops() {
    match config::init(None, "/root/.cardano-devkit", ConfigFile::Missing) {
        LoadStep::Create { config, config_path } => {
            assert_eq!(config_path, "/root/.cardano-devkit/config.json");
            assert_eq!(config.yaci_devkit.path, "/root/.cardano-devkit/yaci-devkit");
        }
        other => panic!("unexpected {:?}", other),
    }
}

#[test]
fn config_file_location_and_copy() {
    assert_eq!(config_file_path("/r"), "/r/config.json");
    let c = Config::default("/r");
    let d = config::get_config(&c);
    assert_eq!(d.yaci_devkit.path, c.yaci_devkit.path);
    assert_eq!(d.yaci_devkit.version, c.yaci_devkit.version);
    assert_eq!(d.yaci_devkit.services_path, c.yaci_devkit.services_path);
}
