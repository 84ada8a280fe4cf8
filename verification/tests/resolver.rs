use godspeed::resolver::{
    development_layout, is_file_locked, resolve_binaries_dir, sharing_violation, AncestorProbe,
    ExecutableLookup, OpenAttempt, PROJECT_DIRECTORY_NAME,
};

fn probe(candidate: &str, exists: bool) -> AncestorProbe {
    AncestorProbe { candidate: candidate.to_string(), exists }
}

fn found(directory: &str, ancestors: Vec<AncestorProbe>, root: Option<&str>) -> ExecutableLookup {
    ExecutableLookup {
        directory: Some(directory.to_string()),
        ancestors,
        project_root: root.map(|r| r.to_string()),
    }
}

#[test]
fn the_layout_of_development_is_told_by_the_build_output() {
    assert!(development_layout("/home/u/app/src-tauri/target/debug"));
    assert!(development_layout("/home/u/app/src-tauri/target/release/deps"));
    assert!(development_layout("C:\\app\\src-tauri\\target\\debug"));
    assert!(development_layout("C:\\app\\src-tauri\\target\\release"));
    assert!(!development_layout("C:\\Program Files\\Godspeed"));
    assert!(!development_layout("/opt/godspeed/target"));
    assert!(!development_layout("/opt/target-debug"));
    assert!(!development_layout(""));
    assert_eq!(PROJECT_DIRECTORY_NAME, "src-tauri");
}

#[test]
fn the_packaged_layout_resolves_to_the_executable_directory_unprobed() {
    let lookup = found(
        "C:\\Program Files\\Godspeed",
        vec![probe("C:\\Program Files\\Godspeed\\src-tauri", true)],
        Some("D:\\build\\src-tauri"),
    );
    assert_eq!(resolve_binaries_dir(lookup), Ok("C:\\Program Files\\Godspeed".to_string()));
    assert_eq!(resolve_binaries_dir(found("/opt/godspeed", vec![], None)), Ok("/opt/godspeed".to_string()));
}

#[test]
fn development_resolves_to_the_nearest_project_directory() {
    let lookup = found(
        "/w/app/src-tauri/target/debug",
        vec![
            probe("/w/app/src-tauri/target/debug/src-tauri", false),
            probe("/w/app/src-tauri/target/src-tauri", false),
            probe("/w/app/src-tauri/src-tauri", false),
            probe("/w/app/src-tauri", true),
            probe("/w/src-tauri", true),
        ],
        Some("/elsewhere"),
    );
    assert_eq!(resolve_binaries_dir(lookup), Ok("/w/app/src-tauri".to_string()));
}

fn six_levels(fifth_exists: bool) -> Vec<AncestorProbe> {
    vec![
        probe("/a/b/c/d/e/target/debug/src-tauri", false),
        probe("/a/b/c/d/e/target/src-tauri", false),
        probe("/a/b/c/d/e/src-tauri", false),
        probe("/a/b/c/d/src-tauri", false),
        probe("/a/b/c/src-tauri", fifth_exists),
        probe("/a/b/src-tauri", true),
    ]
}

#[test]
fn the_search_stops_after_five_levels() {
    let lookup = found("/a/b/c/d/e/target/debug", six_levels(false), Some("/root"));
    assert_eq!(resolve_binaries_dir(lookup), Ok("/root".to_string()));
    let lookup = found("/a/b/c/d/e/target/debug", six_levels(true), Some("/root"));
    assert_eq!(resolve_binaries_dir(lookup), Ok("/a/b/c/src-tauri".to_string()));
}

#[test]
fn development_without_a_project_falls_back_to_the_root_then_to_the_directory() {
    let lookup = found("/w/target/release", vec![probe("/w/target/release/src-tauri", false)], Some("/w/root"));
    assert_eq!(resolve_binaries_dir(lookup), Ok("/w/root".to_string()));
    let lookup = found("/w/target/release", vec![probe("/w/target/release/src-tauri", false)], None);
    assert_eq!(resolve_binaries_dir(lookup), Ok("/w/target/release".to_string()));
    let lookup = found("/w/target/release", vec![], None);
    assert_eq!(resolve_binaries_dir(lookup), Ok("/w/target/release".to_string()));
}

#[test]
fn an_executable_that_cannot_be_placed_still_resolves_to_a_path() {
    let lookup = ExecutableLookup {
        directory: None,
        ancestors: vec![probe("/w/src-tauri", true)],
        project_root: Some("/w/root".to_string()),
    };
    assert_eq!(resolve_binaries_dir(lookup), Ok("/w/root".to_string()));
    let lookup = ExecutableLookup { directory: None, ancestors: vec![], project_root: None };
    assert_eq!(resolve_binaries_dir(lookup), Ok(".".to_string()));
}

#[test]
fn the_resolver_never_fails() {
    for directory in [None, Some(""), Some("/opt/app"), Some("/w/target/debug")] {
        for root in [None, Some("/root")] {
            for exists in [false, true] {
                let lookup = ExecutableLookup {
                    directory: directory.map(|d| d.to_string()),
                    ancestors: vec![probe("/w/src-tauri", exists)],
                    project_root: root.map(|r| r.to_string()),
                };
                assert!(resolve_binaries_dir(lookup).is_ok());
            }
        }
    }
}

#[test]
fn a_missing_or_opened_file_is_not_locked() {
    assert!(!is_file_locked(OpenAttempt::Missing));
    assert!(!is_file_locked(OpenAttempt::Opened));
}

#[test]
fn only_permission_and_sharing_failures_mean_locked() {
    let failed = |permission_denied, raw_os_error| OpenAttempt::Failed { permission_denied, raw_os_error };
    assert!(is_file_locked(failed(true, None)));
    assert!(is_file_locked(failed(true, Some(5))));
    assert!(is_file_locked(failed(false, Some(32))));
    assert!(is_file_locked(failed(false, Some(33))));
    assert!(!is_file_locked(failed(false, Some(31))));
    assert!(!is_file_locked(failed(false, Some(34))));
    assert!(!is_file_locked(failed(false, Some(2))));
    assert!(!is_file_locked(failed(false, None)));
    assert!(sharing_violation(Some(32)));
    assert!(sharing_violation(Some(33)));
    assert!(!sharing_violation(Some(-32)));
    assert!(!sharing_violation(None));
}
