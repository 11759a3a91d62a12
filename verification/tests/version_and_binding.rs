use maa_lifecycle::binding::build_binding_table;
use maa_lifecycle::binding::classify_load_failure;
use maa_lifecycle::binding::check_dlls_exist;
use maa_lifecycle::binding::BindingTable;
use maa_lifecycle::binding::LibraryState;
use maa_lifecycle::binding::MaaLibraryError;
use maa_lifecycle::binding::SymbolResolution;
use maa_lifecycle::types::MaaError;
use maa_lifecycle::version::check_version_compat;

#[test]
fn version_equal_to_minimum_is_compatible() {
    let r = check_version_compat(&"v5.5.0-beta.1".to_string()).unwrap();
    assert_eq!(r.current, "v5.5.0-beta.1");
    assert_eq!(r.minimum, "v5.5.0-beta.1");
    assert!(r.is_compatible);
}

#[test]
fn version_below_minimum_is_incompatible() {
    let r = check_version_compat(&"v5.4.9".to_string()).unwrap();
    assert!(!r.is_compatible);
}

#[test]
fn version_above_minimum_is_compatible() {
    let r = check_version_compat(&"v5.5.0".to_string()).unwrap();
    assert!(r.is_compatible);
    let r = check_version_compat(&"6.0.0".to_string()).unwrap();
    assert!(r.is_compatible);
}

#[test]
fn unparsable_version_is_incompatible_not_an_error() {
    let r = check_version_compat(&"DEBUG_VERSION".to_string()).unwrap();
    assert_eq!(r.current, "DEBUG_VERSION");
    assert!(!r.is_compatible);
}

#[test]
fn prerelease_ordering_is_semantic() {
    // a prerelease of the minimum's release is below a later prerelease
    let r = check_version_compat(&"v5.5.0-alpha.1".to_string()).unwrap();
    assert!(!r.is_compatible);
    let r = check_version_compat(&"v5.5.0-beta.2".to_string()).unwrap();
    assert!(r.is_compatible);
}

fn sym(name: &str, required: bool, resolved: bool) -> SymbolResolution {
    SymbolResolution { name: name.to_string(), required, resolved }
}

#[test]
fn build_table_with_all_mandatory_resolved() {
    let resolutions = vec![
        sym("MaaVersion", true, true),
        sym("MaaTaskerOverridePipeline", false, true),
    ];
    let t = build_binding_table("5.5.0".to_string(), &resolutions).unwrap();
    assert_eq!(t.version, "5.5.0");
    assert!(t.has_override_pipeline);
}

#[test]
fn build_table_names_first_missing_mandatory_symbol() {
    let resolutions = vec![
        sym("MaaVersion", true, true),
        sym("MaaTaskerCreate", true, false),
        sym("MaaTaskerDestroy", true, false),
    ];
    match build_binding_table("5.5.0".to_string(), &resolutions) {
        Err(MaaLibraryError::Other(m)) => assert_eq!(m, "Failed to load MaaTaskerCreate"),
        other => panic!("expected a load error, got {:?}", other),
    }
}

#[test]
fn build_table_missing_optional_symbol_degrades() {
    let resolutions = vec![
        sym("MaaVersion", true, true),
        sym("MaaTaskerOverridePipeline", false, false),
    ];
    let t = build_binding_table("5.4.0".to_string(), &resolutions).unwrap();
    assert!(!t.has_override_pipeline);
}

#[test]
fn classify_distinguishes_absent_files_from_load_failure() {
    match classify_load_failure("/lib".to_string(), "boom".to_string(), true) {
        MaaLibraryError::LoadFailed { path, error, dlls_exist } => {
            assert_eq!(path, "/lib");
            assert_eq!(error, "boom");
            assert!(dlls_exist);
        },
        other => panic!("expected a load failure, got {:?}", other),
    }
    match classify_load_failure("/lib".to_string(), "boom".to_string(), false) {
        MaaLibraryError::FileNotFound(path) => assert_eq!(path, "/lib"),
        other => panic!("expected file not found, got {:?}", other),
    }
}

#[test]
fn library_error_messages() {
    let e = MaaLibraryError::FileNotFound("/lib".to_string());
    assert_eq!(e.message(), "DLL file not found: /lib");
    let e = MaaLibraryError::Other("plain".to_string());
    assert_eq!(e.message(), "plain");
}

#[test]
fn check_dlls_exist_only_on_windows_with_both_files() {
    assert!(check_dlls_exist(true, true, true));
    assert!(!check_dlls_exist(true, true, false));
    assert!(!check_dlls_exist(false, true, true));
}

#[test]
fn version_query_needs_a_published_table() {
    let mut lib = LibraryState::default();
    assert_eq!(lib.get_version(), Err(MaaError::NotInitialized));
    assert_eq!(lib.get_maa_version(), None);
    lib.install_table(BindingTable { version: "5.5.0".to_string(), has_override_pipeline: true });
    assert_eq!(lib.get_version(), Ok("5.5.0".to_string()));
    assert_eq!(lib.override_pipeline_available(), Some(true));
}

#[test]
fn standalone_version_is_cached_once_obtained() {
    let mut lib = LibraryState::default();
    // nothing published: the probe answers and is cached
    assert_eq!(lib.resolve_standalone_version(None), None);
    assert_eq!(
        lib.resolve_standalone_version(Some("5.5.1".to_string())),
        Some("5.5.1".to_string())
    );
    // later calls ignore the probe
    assert_eq!(
        lib.resolve_standalone_version(Some("9.9.9".to_string())),
        Some("5.5.1".to_string())
    );
    assert_eq!(lib.resolve_standalone_version(None), Some("5.5.1".to_string()));
}

#[test]
fn standalone_version_prefers_published_table() {
    let mut lib = LibraryState::default();
    lib.install_table(BindingTable { version: "5.6.0".to_string(), has_override_pipeline: false });
    assert_eq!(
        lib.resolve_standalone_version(Some("1.0.0".to_string())),
        Some("5.6.0".to_string())
    );
}

#[test]
fn vcredist_flag_is_consumed_on_read() {
    let mut lib = LibraryState::default();
    assert!(!lib.check_and_clear_vcredist_missing());
    lib.set_vcredist_missing(true);
    assert!(lib.check_and_clear_vcredist_missing());
    assert!(!lib.check_and_clear_vcredist_missing());
}
