use mct::modrinth_entry::ResolutionError;
use mct::papermc_request::{build_options, BuildInfo, PaperMCRequest, PaperStep};

fn builds() -> Vec<BuildInfo> {
    vec![
        BuildInfo { build: 10, application: "paper-1.21.4-10.jar".to_string() },
        BuildInfo { build: 11, application: "paper-1.21.4-11.jar".to_string() },
    ]
}

#[test]
fn chosen_build_pins_download_url() {
    let mut paper = PaperMCRequest::build();
    match paper.check_build(Some("1.21.4".to_string()), None) {
        PaperStep::Fetch(url) => assert_eq!(url, "https://api.papermc.io/v2/projects/paper/versions/1.21.4/builds"),
        _ => panic!("expected a request"),
    }
    let options = match paper.on_builds(Some(builds())) {
        PaperStep::Choose(options) => options,
        _ => panic!("expected a choice"),
    };
    assert_eq!(options, vec!["11".to_string(), "10".to_string()]);
    assert!(matches!(paper.on_choice("11"), PaperStep::Pinned));
    assert_eq!(paper.get_build(), Some(11));
    assert_eq!(paper.get_project().as_deref(), Some("paper"));
    assert_eq!(paper.get_version().as_deref(), Some("1.21.4"));
    assert_eq!(paper.get_download().as_deref(), Some("paper-1.21.4-11.jar"));
    let url = paper.download_url().unwrap();
    assert_eq!(
        url,
        "https://api.papermc.io/v2/projects/paper/versions/1.21.4/builds/11/downloads/paper-1.21.4-11.jar"
    );
    assert!(url.contains("/builds/11/downloads/"));
    let artifact = paper.resolved().unwrap();
    assert_eq!(artifact.build(), "11");
    assert_eq!(artifact.version(), "1.21.4");
    assert_eq!(artifact.loader(), &None);
    assert_eq!(artifact.filename(), "paper-1.21.4-11.jar");
    assert!(artifact.is_fetchable());
    assert!(artifact.download_url().as_deref().unwrap().contains("/builds/11/downloads/"));
}

#[test]
fn missing_game_version_requests_nothing() {
    let mut paper = PaperMCRequest::build();
    assert!(matches!(paper.check_build(None, None), PaperStep::Fail(ResolutionError::MissingField)));
    assert!(matches!(paper.check_build(Some(String::new()), None), PaperStep::Fail(ResolutionError::MissingField)));
    assert_eq!(paper.download_url(), None);
    assert!(paper.resolved().is_none());
}

#[test]
fn requested_build_is_validated() {
    let mut paper = PaperMCRequest::build();
    match paper.check_build(Some("1.21.4".to_string()), Some("10".to_string())) {
        PaperStep::Fetch(url) => assert_eq!(url, "https://api.papermc.io/v2/projects/paper/versions/1.21.4/builds/10"),
        _ => panic!("expected a request"),
    }
    assert!(matches!(paper.on_builds(Some(builds())), PaperStep::Pinned));
    assert_eq!(paper.get_build(), Some(10));
    let mut paper = PaperMCRequest::build();
    let _ = paper.check_build(Some("1.21.4".to_string()), Some("99".to_string()));
    assert!(matches!(paper.on_builds(Some(builds())), PaperStep::Fail(ResolutionError::NoSuitableBuild)));
}

#[test]
fn empty_build_list_and_bad_choice() {
    let mut paper = PaperMCRequest::build();
    let _ = paper.check_build(Some("1.21.4".to_string()), None);
    assert!(matches!(paper.on_builds(Some(Vec::new())), PaperStep::Fail(ResolutionError::NoSuitableBuild)));
    let mut paper = PaperMCRequest::build();
    let _ = paper.check_build(Some("1.21.4".to_string()), None);
    let _ = paper.on_builds(Some(builds()));
    assert!(matches!(paper.on_choice("12"), PaperStep::Fail(ResolutionError::NoMatch)));
    assert_eq!(paper.download_url(), None);
}

#[test]
fn build_request_retried_once() {
    let mut paper = PaperMCRequest::build();
    let _ = paper.check_build(Some("1.21.4".to_string()), None);
    match paper.on_builds(None) {
        PaperStep::Fetch(url) => assert_eq!(url, "https://api.papermc.io/v2/projects/paper/versions/1.21.4/builds"),
        _ => panic!("expected the retry"),
    }
    assert!(matches!(paper.on_builds(None), PaperStep::Fail(ResolutionError::NetworkError)));
}

#[test]
fn build_options_newest_first() {
    let list = vec![
        BuildInfo { build: 7, application: "a".to_string() },
        BuildInfo { build: 100, application: "b".to_string() },
        BuildInfo { build: 231, application: "c".to_string() },
    ];
    assert_eq!(build_options(&list), vec!["231".to_string(), "100".to_string(), "7".to_string()]);
}

#[test]
fn saved_record_skips_resolution() {
    let mut fresh = PaperMCRequest::build();
    assert_eq!(fresh.check_data(None), Err(()));
    let saved = PaperMCRequest::restore(
        Some("paper".to_string()),
        Some("1.21.4".to_string()),
        Some(11),
        Some("paper-1.21.4-11.jar".to_string()),
        Some("server".to_string()),
        Some("server/paper-1.21.4-11.jar".to_string()),
    );
    assert_eq!(fresh.check_data(Some(saved)), Ok(()));
    assert_eq!(fresh.get_build(), Some(11));
    assert_eq!(fresh.get_server_dir().as_deref(), Some("server"));
    assert_eq!(fresh.get_jar_path().as_deref(), Some("server/paper-1.21.4-11.jar"));
    assert!(fresh.download_url().unwrap().ends_with("/builds/11/downloads/paper-1.21.4-11.jar"));
}

#[test]
fn paper_launch_arguments() {
    let paper = PaperMCRequest::restore(
        Some("paper".to_string()), Some("1.21.4".to_string()), Some(11),
        Some("paper-1.21.4-11.jar".to_string()), None, None,
    );
    assert_eq!(
        paper.java_args(Some("4G".to_string()), Some("1G".to_string()), None),
        vec!["-Xmx4G", "-Xms1G", "-jar", "paper-1.21.4-11.jar", "-nogui"]
    );
    assert_eq!(paper.java_args(None, None, Some(true)), vec!["-jar", "paper-1.21.4-11.jar"]);
}

#[test]
fn new_lookup_keeps_loaded_pin_until_a_build_is_pinned() {
    let mut paper = PaperMCRequest::restore(
        Some("paper".to_string()), Some("1.21.3".to_string()), Some(80),
        Some("paper-1.21.3-80.jar".to_string()), Some("srv".to_string()), Some("srv/paper-1.21.3-80.jar".to_string()),
    );
    let _ = paper.check_build(Some("1.21.4".to_string()), Some("99".to_string()));
    assert_eq!(paper.get_version().as_deref(), Some("1.21.3"));
    assert_eq!(paper.asked_version().as_deref(), Some("1.21.4"));
    assert!(matches!(paper.on_builds(Some(builds())), PaperStep::Fail(ResolutionError::NoSuitableBuild)));
    assert_eq!(paper.get_build(), Some(80));
    assert_eq!(paper.get_download().as_deref(), Some("paper-1.21.3-80.jar"));
    let _ = paper.check_build(Some("1.21.4".to_string()), None);
    let _ = paper.on_builds(Some(builds()));
    assert!(matches!(paper.on_choice("10"), PaperStep::Pinned));
    assert_eq!(paper.get_version().as_deref(), Some("1.21.4"));
    assert_eq!(paper.get_build(), Some(10));
    assert_eq!(paper.get_download().as_deref(), Some("paper-1.21.4-10.jar"));
    assert_eq!(paper.get_server_dir().as_deref(), Some("srv"));
}

#[test]
fn fresh_lookup_pins_nothing_before_a_build() {
    let mut paper = PaperMCRequest::build();
    let _ = paper.check_build(Some("1.21.4".to_string()), None);
    assert_eq!(paper.get_version(), None);
    assert_eq!(paper.get_project(), None);
    let _ = paper.on_builds(None);
    assert_eq!(paper.get_version(), None);
}
