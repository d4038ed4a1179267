use authcore::asset::{create_assets_map, extract_etag, get_asset_path};

#[test]
fn source_map_lookup() {
    let map = create_assets_map("styles/main.css;styles/main.1a2b3c.css\nscripts/main.js;scripts/main.9f8e.js\n");
    assert_eq!(get_asset_path(&map, "styles/main.css").unwrap(), "styles/main.1a2b3c.css");
    assert_eq!(get_asset_path(&map, "scripts/main.js").unwrap(), "scripts/main.9f8e.js");
    let missing = get_asset_path(&map, "styles/other.css").unwrap_err();
    assert_eq!(missing.asset, "styles/other.css");
}

#[test]
fn source_map_line_rules() {
    let map = create_assets_map("a;1\r\nno separator\nb;2;3\n\na;4");
    assert_eq!(get_asset_path(&map, "a").unwrap(), "4");
    assert_eq!(get_asset_path(&map, "b").unwrap(), "2;3");
    assert!(get_asset_path(&map, "no separator").is_err());
    assert!(get_asset_path(&map, "").is_err());
    let empty = create_assets_map("");
    assert!(get_asset_path(&empty, "a").is_err());
}

#[test]
fn etag_of_fingerprinted_names() {
    assert_eq!(extract_etag("/main.1a2b3c.css").as_deref(), Some("1a2b3c"));
    assert_eq!(extract_etag("/main.css"), None);
    assert_eq!(extract_etag("/main.a.b.css"), None);
    assert_eq!(extract_etag(".a.css"), None);
    assert_eq!(extract_etag("main..css"), None);
    assert_eq!(extract_etag("main.a."), None);
    assert_eq!(extract_etag(""), None);
}
