use hook_inject::{
    cdylib_candidates, check_manifest, library_filename, manifest_fields, read_cdylib_file,
    read_manifest, BuildError, CrateMetadata, ManifestFields, Platform,
};

const AGENT_MANIFEST: &str = r#"
[package]
name = "hook-inject-fixture-agent"
version = "0.1.0"
edition = "2024"

[lib]
crate-type = ["cdylib"]

[package.metadata.hook-inject]
entrypoint = "hook_inject_entry"
data = "fixture"
"#;

const TARGET_MANIFEST: &str = r#"
[package]
name = "hook-inject-fixture-target"
version = "0.1.0"
edition = "2024"
"#;

#[test]
fn reads_fixture_metadata() {
    let meta = read_manifest(AGENT_MANIFEST, Platform::Other).expect("fixture metadata ok");
    assert_eq!(meta.package_name, "hook-inject-fixture-agent");
    assert_eq!(meta.entrypoint.as_deref(), Some("hook_inject_entry"));
    assert_eq!(meta.data.as_deref(), Some("fixture"));
    assert_eq!(meta.cdylib_filename, "libhook_inject_fixture_agent.so");
}

#[test]
fn library_filename_formats() {
    let name = library_filename("foo-bar", Platform::Windows);
    assert_eq!(name, "foo_bar.dll");
    let name = library_filename("foo-bar", Platform::MacOs);
    assert_eq!(name, "libfoo_bar.dylib");
    let name = library_filename("foo-bar", Platform::Other);
    assert_eq!(name, "libfoo_bar.so");
}

#[test]
fn library_filename_keeps_other_characters() {
    assert_eq!(library_filename("agent", Platform::Other), "libagent.so");
    assert_eq!(library_filename("a-b-c_d", Platform::Windows), "a_b_c_d.dll");
    assert_eq!(library_filename("", Platform::MacOs), "lib.dylib");
}

#[test]
fn from_crate_rejects_non_cdylib() {
    let err = read_manifest(TARGET_MANIFEST, Platform::Other).unwrap_err();
    assert!(err.to_string().contains("crate is not configured as cdylib"));
}

#[test]
fn manifest_without_package_is_rejected() {
    let err = read_manifest("[lib]\ncrate-type = [\"cdylib\"]\n", Platform::Other).unwrap_err();
    assert_eq!(err.message(), "missing [package] section");
}

#[test]
fn manifest_without_name_is_rejected() {
    let err = read_manifest("[package]\nversion = \"1.0.0\"\n", Platform::Other).unwrap_err();
    assert_eq!(err.message(), "missing [package].name");
}

#[test]
fn manifest_that_is_not_toml_is_rejected() {
    let err = read_manifest("[package\nname = ", Platform::Other).unwrap_err();
    assert!(err.message().starts_with("failed to parse Cargo.toml: "));
    assert!(err.message().len() > "failed to parse Cargo.toml: ".len());
}

#[test]
fn manifest_with_several_crate_types_is_accepted() {
    let src = "[package]\nname = \"agent\"\n[lib]\ncrate-type = [\"rlib\", 3, \"cdylib\"]\n";
    let meta = read_manifest(src, Platform::Windows).unwrap();
    assert_eq!(meta.package_name, "agent");
    assert_eq!(meta.entrypoint, None);
    assert_eq!(meta.data, None);
    assert_eq!(meta.cdylib_filename, "agent.dll");
}

#[test]
fn check_manifest_reads_plain_fields() {
    let fields = ManifestFields {
        has_package: true,
        name: Some("my-agent".to_string()),
        crate_types: Some(vec![None, Some("cdylib".to_string())]),
        entrypoint: Some("go".to_string()),
        data: None,
    };
    let info = check_manifest(fields, Platform::MacOs).unwrap();
    assert_eq!(info.cdylib_filename, "libmy_agent.dylib");
    assert_eq!(info.entrypoint.as_deref(), Some("go"));
    let fields = ManifestFields {
        has_package: true,
        name: Some("x".to_string()),
        crate_types: None,
        entrypoint: None,
        data: None,
    };
    assert!(check_manifest(fields, Platform::Other).is_err());
}

#[test]
fn read_cdylib_file_needs_a_built_library() {
    assert!(read_cdylib_file(None).is_none());
    let err = read_cdylib_file(Some(Err(BuildError::new("bad")))).unwrap().unwrap_err();
    assert_eq!(err.message(), "bad");
    let info = read_manifest(AGENT_MANIFEST, Platform::Other).unwrap();
    let unbuilt = CrateMetadata::new(
        info,
        "/w/Cargo.toml".to_string(),
        "/w".to_string(),
        "/w/target".to_string(),
        None,
    );
    assert!(read_cdylib_file(Some(Ok(unbuilt))).is_none());
    let info = read_manifest(AGENT_MANIFEST, Platform::Other).unwrap();
    let built = CrateMetadata::new(
        info,
        "/w/Cargo.toml".to_string(),
        "/w".to_string(),
        "/w/target".to_string(),
        Some("/w/target/debug/libhook_inject_fixture_agent.so".to_string()),
    );
    let found = read_cdylib_file(Some(Ok(built))).unwrap().unwrap();
    assert_eq!(found.path, "/w/target/debug/libhook_inject_fixture_agent.so");
    assert_eq!(found.entrypoint.as_deref(), Some("hook_inject_entry"));
    assert_eq!(found.data.as_deref(), Some("fixture"));
}

#[test]
fn manifest_fields_reads_named_entries() {
    let src = r#"
[package]
name = "agent"
version = "2"

[package.metadata.hook-inject]
entrypoint = "go"
data = 5

[lib]
crate-type = ["cdylib", 1]
"#;
    let doc: toml::Value = toml::from_str(src).unwrap();
    let fields = manifest_fields(&doc);
    assert!(fields.has_package);
    assert_eq!(fields.name.as_deref(), Some("agent"));
    assert_eq!(fields.crate_types, Some(vec![Some("cdylib".to_string()), None]));
    assert_eq!(fields.entrypoint.as_deref(), Some("go"));
    assert_eq!(fields.data, None);
    let doc: toml::Value = toml::from_str("name = \"top\"\n").unwrap();
    let fields = manifest_fields(&doc);
    assert!(!fields.has_package);
    assert_eq!(fields.name, None);
    assert_eq!(fields.crate_types, None);
}

#[test]
fn manifest_name_must_be_a_string() {
    let err = read_manifest("[package]\nname = 3\n[lib]\ncrate-type = [\"cdylib\"]\n", Platform::Other)
        .unwrap_err();
    assert_eq!(err.message(), "missing [package].name");
}

#[test]
fn cdylib_candidates_in_search_order() {
    let dirs: Vec<String> =
        ["/a/b/c/d/e", "/a/b/c/d", "/a/b/c", "/a/b", "/a"].iter().map(|d| d.to_string()).collect();
    let c = cdylib_candidates("/t", &dirs, "libx.so");
    assert_eq!(c.len(), 10);
    assert_eq!(c[0], vec!["/t", "release", "libx.so"]);
    assert_eq!(c[1], vec!["/t", "debug", "libx.so"]);
    assert_eq!(c[2], vec!["/a/b/c/d/e", "target", "release", "libx.so"]);
    assert_eq!(c[3], vec!["/a/b/c/d/e", "target", "debug", "libx.so"]);
    assert_eq!(c[9], vec!["/a/b", "target", "debug", "libx.so"]);
    let c = cdylib_candidates("/t", &vec!["/w".to_string()], "f");
    assert_eq!(c.len(), 4);
    assert_eq!(c[3], vec!["/w", "target", "debug", "f"]);
}
