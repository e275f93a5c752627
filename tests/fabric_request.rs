use mct::fabric_request::{FabricMCRequest, GameVersion, InstallerVersion, LoaderVersion, Selection};
use mct::platform::Platform;

fn games() -> Vec<GameVersion> {
    vec![
        GameVersion { version: "1.21.4".to_string(), stable: true },
        GameVersion { version: "1.21.3".to_string(), stable: true },
        GameVersion { version: "25w02a".to_string(), stable: false },
    ]
}

#[test]
fn requested_game_version_taken_without_asking() {
    let mut f = FabricMCRequest::build(None);
    assert!(matches!(f.select_game_version(&games(), Some("1.21.3")), Selection::Selected));
    assert_eq!(f.get_version().as_deref(), Some("1.21.3"));
}

#[test]
fn unknown_game_version_offers_reversed_list() {
    let mut f = FabricMCRequest::build(None);
    match f.select_game_version(&games(), Some("1.8.9")) {
        Selection::Choose(options) => assert_eq!(options, vec!["25w02a", "1.21.3", "1.21.4"]),
        _ => panic!("expected a choice"),
    }
    assert_eq!(f.get_version(), None);
    assert!(matches!(f.select_game_version(&Vec::new(), None), Selection::NoneFound));
}

#[test]
fn full_fabric_resolution_builds_url() {
    let mut f = FabricMCRequest::build(Some("srv".to_string()));
    assert!(!f.generate_download_url());
    assert_eq!(f.get_download_url(), None);
    f.choose_game_version("1.21.4".to_string());
    let loaders = vec![
        LoaderVersion { version: "0.16.10".to_string(), stable: true },
        LoaderVersion { version: "0.16.9".to_string(), stable: true },
    ];
    match f.select_loader_version(&loaders) {
        Selection::Choose(options) => assert_eq!(options, vec!["0.16.10", "0.16.9"]),
        _ => panic!("expected a choice"),
    }
    f.choose_loader_version("0.16.10".to_string());
    assert!(!f.fetch_latest_installer_version(&Vec::new()));
    let installers = vec![
        InstallerVersion { version: "1.0.1".to_string() },
        InstallerVersion { version: "1.0.0".to_string() },
    ];
    assert!(f.fetch_latest_installer_version(&installers));
    assert_eq!(f.get_installer_version().as_deref(), Some("1.0.1"));
    assert!(f.generate_download_url());
    assert_eq!(
        f.get_download_url().as_deref(),
        Some("https://meta.fabricmc.net/v2/versions/loader/1.21.4/0.16.10/1.0.1/server/jar")
    );
}

#[test]
fn empty_version_builds_no_url() {
    let mut f = FabricMCRequest::build(None);
    f.choose_game_version(String::new());
    f.choose_loader_version("0.16.10".to_string());
    let _ = f.fetch_latest_installer_version(&vec![InstallerVersion { version: "1.0.1".to_string() }]);
    assert!(!f.generate_download_url());
    assert_eq!(f.get_download_url(), None);
}

#[test]
fn mods_directory_under_server() {
    assert_eq!(FabricMCRequest::build(Some("C:\\srv".to_string())).get_download_path().as_deref(), Some("C:\\srv\\mods"));
    assert_eq!(FabricMCRequest::build(None).get_download_path(), None);
}

#[test]
fn state_missing_then_saved_then_found() {
    let mut first = FabricMCRequest::build(Some("srv".to_string()));
    assert_eq!(first.check_data(None), Err(()));
    first.choose_game_version("1.21.4".to_string());
    first.choose_loader_version("0.16.10".to_string());
    let _ = first.fetch_latest_installer_version(&vec![InstallerVersion { version: "1.0.1".to_string() }]);
    assert!(first.generate_download_url());
    let saved = FabricMCRequest::restore(
        first.get_project(),
        first.get_version(),
        first.get_loader_version(),
        first.get_installer_version(),
        first.get_download_url(),
        first.get_server_path(),
    );
    let mut second = FabricMCRequest::build(Some("srv".to_string()));
    assert_eq!(second.check_data(Some(saved)), Ok(()));
    assert_eq!(second.get_project(), "fabric");
    assert_eq!(second.get_version().as_deref(), Some("1.21.4"));
    assert_eq!(second.get_loader_version().as_deref(), Some("0.16.10"));
    assert_eq!(second.get_installer_version().as_deref(), Some("1.0.1"));
    assert_eq!(second.get_download_url(), first.get_download_url());
    assert_eq!(second.get_server_path().as_deref(), Some("srv"));
}

#[test]
fn fabric_launch_command() {
    let f = FabricMCRequest::build(None);
    assert_eq!(
        f.java_args(Some("2G".to_string()), None, Some(false)),
        vec!["-Xmx2G", "-jar", "fabric-server.jar", "-nogui"]
    );
    assert_eq!(f.java_args(None, None, Some(true)), vec!["-jar", "fabric-server.jar"]);
    assert_eq!(f.startup_script(Some("2G".to_string()), Some("1G".to_string()), None), "java -Xmx2G-Xms1G-jar fabric-server.jar -nogui");
}

#[test]
fn platform_from_input() {
    assert_eq!(Platform::with(Some("Fabric")), Platform::Fabric);
    assert_eq!(Platform::with(Some("PAPER")), Platform::Paper);
    assert_eq!(Platform::with(Some("spigot")), Platform::Paper);
    assert_eq!(Platform::with(None), Platform::Paper);
    assert_eq!(Platform::from_lowercase("Fabric"), Platform::Paper);
}

#[test]
fn restored_url_without_versions_is_dropped() {
    let f = FabricMCRequest::restore(
        "fabric".to_string(),
        None,
        Some("0.16.10".to_string()),
        Some("1.0.1".to_string()),
        Some("https://meta.fabricmc.net/v2/versions/loader/1.21.4/0.16.10/1.0.1/server/jar".to_string()),
        None,
    );
    assert_eq!(f.get_download_url(), None);
    let g = FabricMCRequest::restore(
        "fabric".to_string(),
        Some("1.21.4".to_string()),
        Some("0.16.10".to_string()),
        Some("1.0.1".to_string()),
        Some("https://example.invalid/other.jar".to_string()),
        None,
    );
    assert_eq!(g.get_download_url(), None);
}

#[test]
fn changing_a_version_drops_the_url() {
    let mut f = FabricMCRequest::build(None);
    f.choose_game_version("1.21.4".to_string());
    f.choose_loader_version("0.16.10".to_string());
    let _ = f.fetch_latest_installer_version(&vec![InstallerVersion { version: "1.0.1".to_string() }]);
    assert!(f.generate_download_url());
    f.choose_game_version("1.21.3".to_string());
    assert_eq!(f.get_download_url(), None);
    assert!(f.generate_download_url());
    assert_eq!(
        f.get_download_url().as_deref(),
        Some("https://meta.fabricmc.net/v2/versions/loader/1.21.3/0.16.10/1.0.1/server/jar")
    );
    f.choose_loader_version(String::new());
    assert!(!f.generate_download_url());
    assert_eq!(f.get_download_url(), None);
}
