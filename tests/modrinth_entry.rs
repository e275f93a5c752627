use mct::modrinth_entry::{name_search_url, ModStep, ModrinthEntry, ResolutionError};
use mct::modrinth_request::ServerSide;
use mct::records::{CandidateRecord, Dependency, FileEntry, VersionEntry};

fn hit(id: &str, title: &str, author: &str) -> CandidateRecord {
    CandidateRecord {
        title: title.to_string(),
        project_id: id.to_string(),
        author: author.to_string(),
        description: "Rendering engine".to_string(),
        slug: "sodium".to_string(),
        project_type: "mod".to_string(),
        server_side: None,
        versions: vec!["1.20.1".to_string()],
    }
}

fn sodium_versions() -> Vec<VersionEntry> {
    vec![
        VersionEntry {
            version_number: "mc1.20.1-0.5.3-forge".to_string(),
            game_versions: vec!["1.20.1".to_string()],
            loaders: vec!["forge".to_string()],
            dependencies: Vec::new(),
            files: vec![FileEntry { url: "https://cdn.example/forge.jar".to_string(), filename: "forge.jar".to_string() }],
        },
        VersionEntry {
            version_number: "mc1.20.1-0.5.3".to_string(),
            game_versions: vec!["1.20.1".to_string()],
            loaders: vec!["fabric".to_string(), "quilt".to_string()],
            dependencies: vec![Dependency { project_id: "P7dR8mSH".to_string(), required: true }],
            files: vec![FileEntry {
                url: "https://cdn.example/sodium-fabric.jar".to_string(),
                filename: "sodium-fabric.jar".to_string(),
            }],
        },
    ]
}

#[test]
fn same_title_hits_need_one_choice() {
    let mut entry = ModrinthEntry::builder();
    let step = entry.download_mod(None, Some("sodium".to_string()), Some("fabric".to_string()), Some("1.20.1".to_string()));
    match step {
        ModStep::Search(url) => assert_eq!(
            url,
            "https://api.modrinth.com/v2/search?query=sodium&facets=[[\"project_type:mod\"],[\"categories:fabric\"],[\"versions:1.20.1\"]]"
        ),
        _ => panic!("expected a search"),
    }
    let hits = vec![hit("AANobbMI", "Sodium", "jellysquid3"), hit("XyZ12345", "Sodium", "copycat")];
    let labels = match entry.on_search(Some(hits)) {
        ModStep::Choose(labels) => labels,
        _ => panic!("expected a choice"),
    };
    assert_eq!(labels.len(), 2);
    match entry.on_choice(&labels[1]) {
        ModStep::ListVersions(url) => assert_eq!(url, "https://api.modrinth.com/v2/project/XyZ12345/version"),
        _ => panic!("expected the version list"),
    }
    assert_eq!(entry.mod_id().as_deref(), Some("XyZ12345"));
    match entry.on_versions(Some(sodium_versions())) {
        ModStep::Fetch(a) => {
            assert_eq!(a.project_id(), "XyZ12345");
            assert_eq!(a.download_url().as_deref(), Some("https://cdn.example/sodium-fabric.jar"));
            assert_eq!(a.loader().as_deref(), Some("fabric"));
            assert_eq!(a.version(), "1.20.1");
            assert_eq!(a.build(), "mc1.20.1-0.5.3");
            assert_eq!(a.filename(), "sodium-fabric.jar");
        }
        _ => panic!("expected an artifact"),
    }
}

#[test]
fn identifier_skips_search_and_choice() {
    let mut entry = ModrinthEntry::builder();
    match entry.download_mod(Some("AANobbMI".to_string()), Some("sodium".to_string()), None, None) {
        ModStep::ListVersions(url) => assert_eq!(url, "https://api.modrinth.com/v2/project/AANobbMI/version"),
        _ => panic!("expected the version list"),
    }
    match entry.on_versions(Some(sodium_versions())) {
        ModStep::Fetch(a) => {
            assert_eq!(a.loader().as_deref(), Some("forge"));
            assert_eq!(a.download_url().as_deref(), Some("https://cdn.example/forge.jar"));
        }
        _ => panic!("expected an artifact"),
    }
}

#[test]
fn single_hit_is_taken() {
    let mut entry = ModrinthEntry::builder();
    let _ = entry.download_mod(None, Some("sodium".to_string()), None, None);
    match entry.on_search(Some(vec![hit("AANobbMI", "Sodium", "jellysquid3")])) {
        ModStep::ListVersions(url) => assert_eq!(url, "https://api.modrinth.com/v2/project/AANobbMI/version"),
        _ => panic!("expected the version list"),
    }
}

#[test]
fn no_hit_is_no_match() {
    let mut entry = ModrinthEntry::builder();
    let _ = entry.download_mod(None, Some("nothing".to_string()), None, None);
    assert!(matches!(entry.on_search(Some(Vec::new())), ModStep::Fail(ResolutionError::NoMatch)));
}

#[test]
fn unknown_choice_is_no_match() {
    let mut entry = ModrinthEntry::builder();
    let _ = entry.download_mod(None, Some("sodium".to_string()), None, None);
    let hits = vec![hit("a", "Sodium", "x"), hit("b", "Sodium", "y")];
    let _ = entry.on_search(Some(hits));
    assert!(matches!(entry.on_choice("Sodium"), ModStep::Fail(ResolutionError::NoMatch)));
}

#[test]
fn missing_name_and_id_requests_nothing() {
    let mut entry = ModrinthEntry::builder();
    assert!(matches!(entry.download_mod(None, None, None, None), ModStep::Fail(ResolutionError::MissingField)));
}

#[test]
fn first_request_is_retried_once() {
    let mut entry = ModrinthEntry::builder();
    let first = match entry.download_mod(None, Some("sodium".to_string()), None, None) {
        ModStep::Search(url) => url,
        _ => panic!("expected a search"),
    };
    match entry.on_search(None) {
        ModStep::Search(url) => assert_eq!(url, first),
        _ => panic!("expected the retry"),
    }
    assert!(matches!(entry.on_search(None), ModStep::Fail(ResolutionError::NetworkError)));
}

#[test]
fn later_request_is_not_retried() {
    let mut entry = ModrinthEntry::builder();
    let _ = entry.download_mod(None, Some("sodium".to_string()), None, None);
    let _ = entry.on_search(Some(vec![hit("AANobbMI", "Sodium", "jellysquid3")]));
    assert!(matches!(entry.on_versions(None), ModStep::Fail(ResolutionError::NetworkError)));
}

#[test]
fn no_fitting_version_is_no_suitable_build() {
    let mut entry = ModrinthEntry::builder();
    let _ = entry.download_mod(Some("AANobbMI".to_string()), None, Some("neoforge".to_string()), None);
    assert!(matches!(entry.on_versions(Some(sodium_versions())), ModStep::Fail(ResolutionError::NoSuitableBuild)));
    let mut entry = ModrinthEntry::builder();
    let _ = entry.download_mod(Some("AANobbMI".to_string()), None, Some("fabric".to_string()), Some("1.19.2".to_string()));
    assert!(matches!(entry.on_versions(Some(sodium_versions())), ModStep::Fail(ResolutionError::NoSuitableBuild)));
}

#[test]
fn search_url_without_filters() {
    assert_eq!(
        name_search_url("lithium", None, None),
        "https://api.modrinth.com/v2/search?query=lithium&facets=[[\"project_type:mod\"]]"
    );
}

fn side_hit(id: &str, title: &str, side: Option<ServerSide>) -> CandidateRecord {
    let mut h = hit(id, title, "someone");
    h.server_side = side;
    h.slug = title.to_lowercase();
    h
}

#[test]
fn server_install_asks_about_optional_hits() {
    let mut entry = ModrinthEntry::builder();
    let _ = entry.download_server_mod(None, Some("lithium".to_string()), Some("fabric".to_string()), Some("1.21.4".to_string()));
    let hits = vec![
        side_hit("a", "Lithium", Some(ServerSide::Required)),
        side_hit("b", "Krypton", Some(ServerSide::Optional)),
        side_hit("c", "Sodium", Some(ServerSide::Unsupported)),
    ];
    match entry.on_search(Some(hits)) {
        ModStep::Confirm(q) => assert_eq!(q, vec![None, Some("krypton".to_string()), None]),
        _ => panic!("expected questions"),
    }
    match entry.on_confirm(&vec![false, false, false]) {
        ModStep::ListVersions(url) => assert_eq!(url, "https://api.modrinth.com/v2/project/a/version"),
        _ => panic!("expected the version list"),
    }
}

#[test]
fn server_install_confirmed_optional_needs_choice() {
    let mut entry = ModrinthEntry::builder();
    let _ = entry.download_server_mod(None, Some("lithium".to_string()), None, None);
    let hits = vec![
        side_hit("a", "Lithium", Some(ServerSide::Required)),
        side_hit("b", "Krypton", Some(ServerSide::Optional)),
    ];
    let _ = entry.on_search(Some(hits));
    match entry.on_confirm(&vec![false, true]) {
        ModStep::Choose(labels) => assert_eq!(labels.len(), 2),
        _ => panic!("expected a choice"),
    }
}

#[test]
fn server_install_drops_unsupported_without_asking() {
    let mut entry = ModrinthEntry::builder();
    let _ = entry.download_server_mod(None, Some("sodium".to_string()), None, None);
    let hits = vec![side_hit("a", "Sodium", Some(ServerSide::Unsupported)), side_hit("b", "Sodium", Some(ServerSide::Unknown))];
    assert!(matches!(entry.on_search(Some(hits)), ModStep::Fail(ResolutionError::NoMatch)));
    let mut entry = ModrinthEntry::builder();
    let _ = entry.download_server_mod(None, Some("lithium".to_string()), None, None);
    let hits = vec![side_hit("a", "Lithium", None), side_hit("c", "Sodium", Some(ServerSide::Unsupported))];
    match entry.on_search(Some(hits)) {
        ModStep::ListVersions(url) => assert_eq!(url, "https://api.modrinth.com/v2/project/a/version"),
        _ => panic!("expected the version list"),
    }
}

#[test]
fn dependency_reuses_root_loader_and_server_version() {
    let mut root_entry = ModrinthEntry::builder();
    let _ = root_entry.download_mod(Some("AANobbMI".to_string()), None, Some("fabric".to_string()), Some("1.20.1".to_string()));
    let root = match root_entry.on_versions(Some(sodium_versions())) {
        ModStep::Fetch(a) => a,
        _ => panic!("expected an artifact"),
    };
    let mut dep = ModrinthEntry::builder();
    match dep.download_dependency("P7dR8mSH".to_string(), &root, true) {
        ModStep::ListVersions(url) => assert_eq!(url, "https://api.modrinth.com/v2/project/P7dR8mSH/version"),
        _ => panic!("expected the version list"),
    }
    assert_eq!(dep.mod_loader().as_deref(), Some("fabric"));
    assert_eq!(dep.mod_version().as_deref(), Some("1.20.1"));
    let mut client_dep = ModrinthEntry::builder();
    let _ = client_dep.download_dependency("P7dR8mSH".to_string(), &root, false);
    assert_eq!(client_dep.mod_version(), &None);
}

#[test]
fn version_list_retry_keeps_the_request() {
    let mut entry = ModrinthEntry::builder();
    let first = match entry.download_mod(Some("AANobbMI".to_string()), None, Some("fabric".to_string()), None) {
        ModStep::ListVersions(url) => url,
        _ => panic!("expected the version list"),
    };
    match entry.on_versions(None) {
        ModStep::ListVersions(url) => assert_eq!(url, first),
        _ => panic!("expected the retry"),
    }
    assert_eq!(entry.mod_id().as_deref(), Some("AANobbMI"));
    assert_eq!(entry.mod_loader().as_deref(), Some("fabric"));
    assert!(matches!(entry.on_versions(Some(sodium_versions())), ModStep::Fetch(_)));
}
