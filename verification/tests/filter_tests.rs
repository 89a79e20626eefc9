use engram_core::filter::should_index_file;

#[test]
fn test_should_index_file_accepts_source_files() {
    assert!(should_index_file("src/Auth.ts"));
    assert!(should_index_file("lib/utils.rs"));
    assert!(should_index_file("README.md"));
    assert!(should_index_file("Cargo.toml"));
    assert!(should_index_file("package.json"));
}

#[test]
fn test_should_index_file_rejects_lockfiles() {
    assert!(!should_index_file("package-lock.json"));
    assert!(!should_index_file("yarn.lock"));
    assert!(!should_index_file("Cargo.lock"));
    assert!(!should_index_file("pnpm-lock.yaml"));
    assert!(!should_index_file("node_modules/foo/yarn.lock"));
}

#[test]
fn test_should_index_file_rejects_binaries() {
    assert!(!should_index_file("assets/logo.png"));
    assert!(!should_index_file("fonts/inter.woff2"));
    assert!(!should_index_file("dist/bundle.min.js"));
    assert!(!should_index_file("release/app.exe"));
    assert!(!should_index_file("lib/native.so"));
    assert!(!should_index_file("build/module.o"));
}

#[test]
fn test_should_index_file_rejects_os_files() {
    assert!(!should_index_file(".DS_Store"));
    assert!(!should_index_file("some/dir/.DS_Store"));
    assert!(!should_index_file("Thumbs.db"));
}

#[test]
fn test_should_index_file_extension_case_insensitive() {
    assert!(!should_index_file("assets/Image.PNG"));
    assert!(!should_index_file("assets/Logo.JPG"));
    assert!(!should_index_file("assets/Photo.JPEG"));
    assert!(!should_index_file("dist/bundle.MIN.JS"));
    assert!(!should_index_file("dist/styles.MIN.CSS"));
    assert!(!should_index_file("fonts/Inter.WOFF2"));
}

#[test]
fn test_should_index_file_filename_case_sensitive() {
    assert!(should_index_file(".ds_store"));
    assert!(should_index_file("PACKAGE-LOCK.JSON"));
    assert!(should_index_file("YARN.LOCK"));
}
