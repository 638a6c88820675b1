use cardano_devkit::config::Config;
use cardano_devkit::setup::{
    arch_is_x86, check_setup, download_and_configure_yaci_devkit, download_services, install_dir,
    platform_supported, release_url, SetupAction, SetupError,
};

fn sample() -> Config {
    Config::default("~/.cardano-devkit")
}

#[test]
fn supported_platforms() {
    assert!(platform_supported("linux", "x86_64"));
    assert!(platform_supported("linux", "x86"));
    assert!(platform_supported("macos", "aarch64"));
    assert!(!platform_supported("linux", "aarch64"));
    assert!(!platform_supported("macos", "x86_64"));
    assert!(!platform_supported("windows", "x86_64"));
    assert!(arch_is_x86("i686-x86"));
    assert!(!arch_is_x86("x8"));
}

#[test]
fn release_urls() {
    assert_eq!(
        release_url("0.9.3-beta", "linux", "x86_64").unwrap(),
        "https://github.com/bloxbean/yaci-devkit/releases/download/v0.9.3-beta/yaci-cli-0.9.3-beta-linux-X64.zip"
    );
    assert_eq!(
        release_url("1.0", "macos", "aarch64").unwrap(),
        "https://github.com/bloxbean/yaci-devkit/releases/download/v1.0/yaci-cli-1.0-macos-ARM64.zip"
    );
    assert_eq!(release_url("1.0", "freebsd", "x86_64"), Err(SetupError::UnsupportedPlatform));
}

#[test]
fn installed_devkit_needs_nothing() {
    let plan = check_setup(&sample(), Some("/home/ada"), true, "linux", "x86_64").unwrap();
    assert!(plan.is_empty());
    let plan = check_setup(&sample(), Some("/home/ada"), true, "plan9", "mips").unwrap();
    assert!(plan.is_empty());
}

#[test]
fn unsupported_platform_plans_nothing() {
    assert_eq!(
        check_setup(&sample(), Some("/home/ada"), false, "windows", "x86_64").unwrap_err(),
        SetupError::UnsupportedPlatform
    );
    assert_eq!(
        check_setup(&sample(), None, false, "linux", "arm").unwrap_err(),
        SetupError::UnsupportedPlatform
    );
}

#[test]
fn install_path_without_parent_is_refused() {
    let r = download_and_configure_yaci_devkit("/", "/srv", "1.0", "linux", "x86_64");
    assert_eq!(r.unwrap_err(), SetupError::NoParentDirectory);
}

#[test]
fn full_setup_plan() {
    let plan = check_setup(&sample(), Some("/home/ada"), false, "linux", "x86_64").unwrap();
    assert_eq!(plan.len(), 8);
    let root = "/home/ada/.cardano-devkit";
    let kit = "/home/ada/.cardano-devkit/yaci-devkit";
    let zip = "/home/ada/.cardano-devkit/yaci-devkit.zip";
    match &plan[0] {
        SetupAction::CreateDirAll(p) => assert_eq!(p, root),
        other => panic!("unexpected {:?}", other),
    }
    match &plan[1] {
        SetupAction::CreateDirAll(p) => assert_eq!(p, "/home/ada/.cardano-devkit/services"),
        other => panic!("unexpected {:?}", other),
    }
    match &plan[2] {
        SetupAction::Download { url, destination } => {
            assert_eq!(url, "https://github.com/bloxbean/yaci-devkit/releases/download/v0.9.3-beta/yaci-cli-0.9.3-beta-linux-X64.zip");
            assert_eq!(destination, zip);
        }
        other => panic!("unexpected {:?}", other),
    }
    match &plan[3] {
        SetupAction::Extract { archive, destination } => {
            assert_eq!(archive, zip);
            assert_eq!(destination, kit);
        }
        other => panic!("unexpected {:?}", other),
    }
    match &plan[4] {
        SetupAction::RemoveFile(p) => assert_eq!(p, zip),
        other => panic!("unexpected {:?}", other),
    }
    match &plan[5] {
        SetupAction::AppendToFile { path, text } => {
            assert_eq!(path, "/home/ada/.cardano-devkit/yaci-devkit/config/download.properties");
            assert_eq!(text, "\nyaci.cli.home=/home/ada/.cardano-devkit/services\n");
        }
        other => panic!("unexpected {:?}", other),
    }
    match &plan[6] {
        SetupAction::MakeExecutable(p) => assert_eq!(p, "/home/ada/.cardano-devkit/yaci-devkit/yaci-cli"),
        other => panic!("unexpected {:?}", other),
    }
    match &plan[7] {
        SetupAction::Run { program, dir, args } => {
            assert_eq!(program, "/home/ada/.cardano-devkit/yaci-devkit/yaci-cli");
            assert_eq!(dir, kit);
            assert_eq!(args, &vec!["download".to_string()]);
        }
        other => panic!("unexpected {:?}", other),
    }
}

#[test]
fn second_setup_after_install_is_idle() {
    let c = sample();
    let first = check_setup(&c, Some("/home/ada"), false, "macos", "aarch64").unwrap();
    assert!(first.iter().any(|a| matches!(a, SetupAction::Download { .. })));
    let second = check_setup(&c, Some("/home/ada"), true, "macos", "aarch64").unwrap();
    assert!(!second
        .iter()
        .any(|a| matches!(a, SetupAction::Download { .. } | SetupAction::Extract { .. })));
}

#[test]
fn services_step_and_install_dir() {
    let steps = download_services("/k");
    assert_eq!(steps.len(), 2);
    assert!(matches!(&steps[0], SetupAction::MakeExecutable(p) if p == "/k/yaci-cli"));
    assert_eq!(install_dir(&sample(), None), "/root/.cardano-devkit/yaci-devkit");
}
