use mct::records::{ArtifactKind, Dependency, ResolvedArtifact};

fn deps() -> Vec<Dependency> {
    vec![Dependency { project_id: "P7dR8mSH".to_string(), required: true }]
}

#[test]
fn complete_mod_triple_keeps_url() {
    let a = ResolvedArtifact::pin(
        "AANobbMI".to_string(),
        "1.20.1".to_string(),
        Some("fabric".to_string()),
        "mc1.20.1-0.5.3".to_string(),
        "https://cdn.example/sodium.jar".to_string(),
        "sodium.jar".to_string(),
        deps(),
        ArtifactKind::Mod,
    );
    assert!(a.is_fetchable());
    assert_eq!(a.download_url().as_deref(), Some("https://cdn.example/sodium.jar"));
    assert_eq!(a.project_id(), "AANobbMI");
    assert_eq!(a.build(), "mc1.20.1-0.5.3");
    assert_eq!(a.dependencies().len(), 1);
    assert_eq!(a.kind(), ArtifactKind::Mod);
}

#[test]
fn incomplete_triple_has_no_url() {
    let no_loader = ResolvedArtifact::pin(
        "AANobbMI".to_string(),
        "1.20.1".to_string(),
        None,
        "0.5.3".to_string(),
        "https://cdn.example/sodium.jar".to_string(),
        "sodium.jar".to_string(),
        deps(),
        ArtifactKind::Mod,
    );
    assert!(!no_loader.is_fetchable());
    assert_eq!(no_loader.download_url(), &None);
    let empty_loader = ResolvedArtifact::pin(
        "x".to_string(), "1.20.1".to_string(), Some(String::new()), "1".to_string(),
        "u".to_string(), "f".to_string(), Vec::new(), ArtifactKind::Mod,
    );
    assert!(!empty_loader.is_fetchable());
    let empty_version = ResolvedArtifact::pin(
        "x".to_string(), String::new(), Some("fabric".to_string()), "1".to_string(),
        "u".to_string(), "f".to_string(), Vec::new(), ArtifactKind::Mod,
    );
    assert!(!empty_version.is_fetchable());
    let empty_build = ResolvedArtifact::pin(
        "x".to_string(), "1.21.4".to_string(), None, String::new(),
        "u".to_string(), "f".to_string(), Vec::new(), ArtifactKind::Platform,
    );
    assert!(!empty_build.is_fetchable());
}

#[test]
fn platform_build_needs_no_loader() {
    let a = ResolvedArtifact::pin(
        "paper".to_string(), "1.21.4".to_string(), None, "11".to_string(),
        "u".to_string(), "paper-1.21.4-11.jar".to_string(), Vec::new(), ArtifactKind::Platform,
    );
    assert!(a.is_fetchable());
    assert_eq!(a.loader(), &None);
    assert_eq!(a.version(), "1.21.4");
    assert_eq!(a.filename(), "paper-1.21.4-11.jar");
}
