use mct::listing::SearchHit;
use mct::modrinth_entry::ModrinthEntry;

#[test]
fn listing_of_search_hits() {
    let hits = vec![
        SearchHit {
            title: Some("Sodium".to_string()),
            project_id: Some("AANobbMI".to_string()),
            project_type: Some("mod".to_string()),
            versions: Some(vec!["1.20.1".to_string(), "1.21.4".to_string()]),
            description: Some("A modern rendering engine\nfor Minecraft".to_string()),
        },
        SearchHit {
            title: Some("Iris".to_string()),
            project_id: Some("YL57xq9U".to_string()),
            project_type: Some("mod".to_string()),
            versions: Some(Vec::new()),
            description: Some("Shaders".to_string()),
        },
    ];
    assert_eq!(
        ModrinthEntry::display_entries(&hits),
        "Found 2 entries:\n\n1. Name: Sodium\n   ID: AANobbMI\n   Type: mod\n   Game Versions: 1.20.1, 1.21.4\n   Description: A modern rendering enginefor Minecraft\n\n2. Name: Iris\n   ID: YL57xq9U\n   Type: mod\n   Game Versions: \n   Description: Shaders\n"
    );
}

#[test]
fn listing_shows_missing_fields() {
    let hits = vec![SearchHit { title: None, project_id: None, project_type: None, versions: None, description: None }];
    assert_eq!(
        ModrinthEntry::display_entries(&hits),
        "Found 1 entries:\n\n1. Name: Unknown\n   ID: Unknown\n   Type: Unknown\n   Game Versions: Unknown\n   Description: No description\n"
    );
}

#[test]
fn listing_of_no_hits() {
    assert_eq!(ModrinthEntry::display_entries(&Vec::new()), "Found 0 entries:\n");
}
