use vardy::assets::{asset_url, fingerprint_of, hash_all, AssetFile};
use vardy::templates::{auto_escape_for, AutoEscape};

fn static_files() -> Vec<AssetFile> {
    vec![
        AssetFile { path: "static/singlethread-icon.png".into(), contents: vec![0x89, b'P', b'N', b'G'] },
        AssetFile { path: "static/site.css".into(), contents: b"body { margin: 0 }".to_vec() },
        AssetFile { path: "static/img/alanvardy.jpg".into(), contents: vec![0xff, 0xd8, 0xff] },
    ]
}

#[test]
fn known_file_yields_versioned_url() {
    let hashes = hash_all("static", &static_files());
    let url = asset_url(&hashes, "singlethread-icon.png");
    assert!(url.starts_with("/static/singlethread-icon.png?v="));
    let hash = url.rsplit("?v=").next().unwrap();
    assert_eq!(hash.len(), 12);
    assert!(hash.chars().all(|c| c.is_ascii_hexdigit()));
}

#[test]
fn hashes_are_deterministic() {
    let a = hash_all("static", &static_files());
    let b = hash_all("static", &static_files());
    assert_eq!(a, b);
}

#[test]
fn unknown_file_is_not_an_asset() {
    let hashes = hash_all("static", &static_files());
    assert!(!hashes.contains("nope.css"));
    assert!(hashes.get("nope.css").is_none());
    assert!(hashes.contains("site.css"));
}

#[test]
fn nested_files_are_keyed_relative_to_the_directory() {
    let hashes = hash_all("static", &static_files());
    assert!(hashes.contains("img/alanvardy.jpg"));
    assert!(!hashes.contains("alanvardy.jpg"));
    assert!(!hashes.contains("static/site.css"));
}

#[test]
fn fingerprint_is_sha256_prefix() {
    assert_eq!(fingerprint_of(b"abc"), "ba7816bf8f01");
    assert_eq!(fingerprint_of(b""), "e3b0c44298fc");
    let hashes = hash_all("static", &vec![AssetFile { path: "static/a.txt".into(), contents: b"abc".to_vec() }]);
    assert_eq!(asset_url(&hashes, "a.txt"), "/static/a.txt?v=ba7816bf8f01");
}

#[test]
fn later_file_with_same_key_wins() {
    let files = vec![
        AssetFile { path: "static/a.txt".into(), contents: b"abc".to_vec() },
        AssetFile { path: "static/a.txt".into(), contents: Vec::new() },
    ];
    let hashes = hash_all("static", &files);
    assert_eq!(hashes.get("a.txt").map(|s| s.as_str()), Some("e3b0c44298fc"));
}

#[test]
fn html_templates_escape_and_others_do_not() {
    assert_eq!(auto_escape_for("note.html"), AutoEscape::Html);
    assert_eq!(auto_escape_for("home.html"), AutoEscape::Html);
    assert_eq!(auto_escape_for("note.txt"), AutoEscape::Off);
    assert_eq!(auto_escape_for("html"), AutoEscape::Off);
    assert_eq!(auto_escape_for(".html"), AutoEscape::Html);
}
