use authcore::fingerprint::{append_hash_to_path, calculate_hash, fingerprinted_file_name, HASH_LENGTH};

#[test]
fn properly_append_hash_to_path() {
    let hash = "123";
    let tests = vec![
        ("dist/file.js", "dist/file.123.js"),
        ("file.js", "file.123.js"),
        ("file", "file.123"),
        ("", "123"),
    ];
    for (input, expected) in tests {
        assert_eq!(append_hash_to_path(input, hash), expected);
    }
}

#[test]
fn file_name_parts() {
    assert_eq!(fingerprinted_file_name(Some("a"), Some("css"), "h"), "a.h.css");
    assert_eq!(fingerprinted_file_name(None, None, "h"), "h");
    assert_eq!(fingerprinted_file_name(Some("a"), None, "h"), "a.h");
}

#[test]
fn content_hash_prefix() {
    assert_eq!(calculate_hash("", HASH_LENGTH), "e3b0c44298");
    assert_eq!(calculate_hash("abc", 64), "ba7816bf8f01cfea414140de5dae2223b00361a396177a9cb410ff61f20015ad");
    assert_eq!(calculate_hash("abc", 0), "");
}
