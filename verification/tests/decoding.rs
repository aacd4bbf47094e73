use resource_catalog::resource::{decode_all, Category, DecodeError, Platform, Resource, Row};

fn full_row() -> Row {
    Row {
        key: "seven".to_string(),
        display_name: "Seven \"Zip\"".to_string(),
        icon_url: Some("https://example.org/i.png".to_string()),
        description: Some(String::new()),
        category: "Tool".to_string(),
        platform: "Windows".to_string(),
        website: None,
        download_url: "https://example.org/7.exe".to_string(),
        readme_md: Some("# Seven\n\u{4e03}".to_string()),
        warning_text: None,
    }
}

#[test]
fn decoding_keeps_every_column() {
    let row = full_row();
    let found = Resource::from_row(&row).unwrap();
    assert_eq!(found.key, "seven");
    assert_eq!(found.display_name, "Seven \"Zip\"");
    assert_eq!(found.icon_url, Some("https://example.org/i.png".to_string()));
    assert_eq!(found.description, Some(String::new()));
    assert_eq!(found.category, Category::Tool);
    assert_eq!(found.platform, Platform::Windows);
    assert_eq!(found.website, None);
    assert_eq!(found.download_url, "https://example.org/7.exe");
    assert_eq!(found.readme_md, Some("# Seven\n\u{4e03}".to_string()));
    assert_eq!(found.warning_text, None);
}

#[test]
fn resource_goes_to_its_row_and_back() {
    let row = full_row();
    let found = Resource::from_row(&row).unwrap();
    assert_eq!(found.to_row(), row);
    assert_eq!(Resource::from_row(&found.to_row()), Ok(found));
}

#[test]
fn duplicate_is_the_same_row() {
    let row = full_row();
    assert_eq!(row.duplicate(), row);
}

#[test]
fn every_category_has_its_name() {
    let all = [
        (Category::Game, "Game"),
        (Category::Video, "Video"),
        (Category::Remote, "Remote"),
        (Category::Music, "Music"),
        (Category::Tool, "Tool"),
        (Category::Proxy, "Proxy"),
        (Category::Development, "Development"),
    ];
    for (category, name) in all {
        assert_eq!(category.name(), name);
        assert_eq!(Category::from_name(&name.to_string()), Some(category));
    }
}

#[test]
fn every_platform_has_its_name() {
    let all = [
        (Platform::Windows, "Windows"),
        (Platform::Android, "Android"),
        (Platform::IOS, "IOS"),
    ];
    for (platform, name) in all {
        assert_eq!(platform.name(), name);
        assert_eq!(Platform::from_name(&name.to_string()), Some(platform));
    }
}

#[test]
fn other_text_names_nothing() {
    for text in ["", "game", "GAME", "Game ", " Game", "Games", "Gam", "Windows", "Book"] {
        assert_eq!(Category::from_name(&text.to_string()), None);
    }
    for text in ["", "windows", "iOS", "Ios", "IOS\n", "Linux", "Game"] {
        assert_eq!(Platform::from_name(&text.to_string()), None);
    }
}

#[test]
fn unknown_category_is_refused() {
    let mut row = full_row();
    row.category = "Book".to_string();
    assert_eq!(Resource::from_row(&row), Err(DecodeError::UnknownCategory));
}

#[test]
fn unknown_platform_is_refused() {
    let mut row = full_row();
    row.platform = "Linux".to_string();
    assert_eq!(Resource::from_row(&row), Err(DecodeError::UnknownPlatform));
}

#[test]
fn unknown_category_is_named_before_unknown_platform() {
    let mut row = full_row();
    row.category = "Book".to_string();
    row.platform = "Linux".to_string();
    assert_eq!(Resource::from_row(&row), Err(DecodeError::UnknownCategory));
}

#[test]
fn decode_all_keeps_the_order() {
    let mut second = full_row();
    second.key = "eight".to_string();
    second.category = "Development".to_string();
    second.platform = "IOS".to_string();
    let found = decode_all(&vec![full_row(), second]).unwrap();
    assert_eq!(found.len(), 2);
    assert_eq!(found[0].key, "seven");
    assert_eq!(found[0].category, Category::Tool);
    assert_eq!(found[1].key, "eight");
    assert_eq!(found[1].category, Category::Development);
    assert_eq!(found[1].platform, Platform::IOS);
    assert_eq!(decode_all(&Vec::new()), Ok(Vec::new()));
}

#[test]
fn decode_all_gives_the_first_failure() {
    let mut bad_platform = full_row();
    bad_platform.platform = "Linux".to_string();
    let mut bad_category = full_row();
    bad_category.category = "Book".to_string();
    assert_eq!(
        decode_all(&vec![full_row(), bad_platform.duplicate(), bad_category.duplicate()]),
        Err(DecodeError::UnknownPlatform)
    );
    assert_eq!(
        decode_all(&vec![bad_category, full_row(), bad_platform]),
        Err(DecodeError::UnknownCategory)
    );
}
