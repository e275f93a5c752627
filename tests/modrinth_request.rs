use mct::modrinth_request::{
    project_versions_url, ClientSide, ModLoaders, ModQuery, ModrinthSortingFilter, ProjectType,
    ServerSide,
};

#[test]
fn sorting_filter_ignores_case() {
    assert_eq!(ModrinthSortingFilter::with(Some("Downloads")), Some(ModrinthSortingFilter::Downloads));
    assert_eq!(ModrinthSortingFilter::with(Some("NEWEST")), Some(ModrinthSortingFilter::Newest));
    assert_eq!(ModrinthSortingFilter::with(Some("updated")), Some(ModrinthSortingFilter::Updated));
}

#[test]
fn sorting_filter_unknown_means_no_preference() {
    assert_eq!(ModrinthSortingFilter::with(Some("popularity")), None);
    assert_eq!(ModrinthSortingFilter::with(None), None);
    assert_eq!(ModrinthSortingFilter::from_lowercase("Follows"), None);
    assert_eq!(ModrinthSortingFilter::from_lowercase("follows"), Some(ModrinthSortingFilter::Follows));
}

#[test]
fn vocabulary_names() {
    assert_eq!(ModrinthSortingFilter::Relevance.get_filter(), "relevance");
    assert_eq!(ModLoaders::NeoForge.get_loader(), "neoforge");
    assert_eq!(ModLoaders::LiteLoader.get_loader(), "liteloader");
    assert_eq!(ProjectType::ResourcePack.get_str(), "resourcepack");
    assert_eq!(ClientSide::Unsupported.get_str(), "unsupported");
    assert_eq!(ServerSide::Optional.get_str(), "optional");
}

#[test]
fn search_url_defaults() {
    let q = ModQuery::new("sodium".to_string(), None, None, None, None, None, None, None, None);
    assert_eq!(
        q.search_url(),
        "https://api.modrinth.com/v2/search?query=sodium&facets=[[\"project_type:mod\"]]&limit=10&index=relevance&offset=0"
    );
}

#[test]
fn search_url_all_facets_and_together() {
    let q = ModQuery::new(
        "sodium".to_string(),
        Some("1.20.1".to_string()),
        Some(ModLoaders::Fabric),
        Some(25),
        Some(ProjectType::Shader),
        Some(ModrinthSortingFilter::Downloads),
        Some(120),
        Some(ClientSide::Required),
        Some(ServerSide::Unsupported),
    );
    assert_eq!(
        q.search_url(),
        "https://api.modrinth.com/v2/search?query=sodium&facets=[[\"project_type:shader\"],[\"versions:1.20.1\"],[\"categories:fabric\"],[\"client_side:required\"],[\"server_side:unsupported\"]]&limit=25&index=downloads&offset=120"
    );
}

#[test]
fn client_and_server_facets_are_independent() {
    let q = ModQuery::new(
        "lithium".to_string(),
        None,
        None,
        None,
        None,
        None,
        None,
        Some(ClientSide::Optional),
        Some(ServerSide::Required),
    );
    assert_eq!(
        q.facets(),
        vec![
            "project_type:mod".to_string(),
            "client_side:optional".to_string(),
            "server_side:required".to_string()
        ]
    );
    let q = ModQuery::new("lithium".to_string(), None, None, None, None, None, None, None, Some(ServerSide::Unknown));
    assert_eq!(q.facets(), vec!["project_type:mod".to_string(), "server_side:unknown".to_string()]);
}

#[test]
fn project_versions_url_for_id() {
    assert_eq!(project_versions_url("AANobbMI"), "https://api.modrinth.com/v2/project/AANobbMI/version");
}

#[test]
fn names_parse_back() {
    assert_eq!(ModLoaders::from_name("neoforge"), Some(ModLoaders::NeoForge));
    assert_eq!(ModLoaders::from_name("Fabric"), None);
    assert_eq!(ProjectType::from_name("modpack"), Some(ProjectType::ModPack));
    assert_eq!(ProjectType::from_name("plugin"), None);
}

#[test]
fn facet_terms_are_json_escaped() {
    let q = ModQuery::new(
        "x".to_string(),
        Some("1.20\"a\\b\n\u{1}".to_string()),
        None, None, None, None, None, None, None,
    );
    assert_eq!(
        q.search_url(),
        "https://api.modrinth.com/v2/search?query=x&facets=[[\"project_type:mod\"],[\"versions:1.20\\\"a\\\\b\\n\\u0001\"]]&limit=10&index=relevance&offset=0"
    );
}
