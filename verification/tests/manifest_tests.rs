use neurust::manifest::{add_dependency, ManifestError};

#[test]
fn dependency_is_added_to_existing_table() {
    let manifest = "[package]\nname = \"x\"\n\n[dependencies]\nserde = \"1\"\n";
    assert_eq!(
        add_dependency(manifest, "anyhow", "1.0"),
        Ok(String::from(
            "[package]\nname = \"x\"\n\n[dependencies]\nserde = \"1\"\nanyhow = \"1.0\"\n"
        ))
    );
}

#[test]
fn dependency_version_is_replaced() {
    let manifest = "[dependencies]\nserde = \"1\"\n";
    assert_eq!(
        add_dependency(manifest, "serde", "2"),
        Ok(String::from("[dependencies]\nserde = \"2\"\n"))
    );
}

#[test]
fn dependencies_table_is_made_where_missing() {
    let edited = add_dependency("[package]\nname = \"x\"\n", "rand", "0.8").unwrap();
    assert_eq!(edited, "[package]\nname = \"x\"\n\n[dependencies]\nrand = \"0.8\"\n");
    let edited = add_dependency("", "rand", "0.8").unwrap();
    assert_eq!(edited, "[dependencies]\nrand = \"0.8\"\n");
}

#[test]
fn invalid_manifest_is_refused() {
    assert_eq!(add_dependency("[package", "rand", "0.8"), Err(ManifestError::InvalidManifest));
    assert_eq!(add_dependency("dependencies = 1\n", "rand", "0.8"), Err(ManifestError::InvalidManifest));
    assert_eq!(ManifestError::InvalidManifest.message(), "Invalid TOML format");
}
