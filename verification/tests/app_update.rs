use godspeed::app_update::{
    check_app_update, install_app_update, release_response, InstallAction, InstallEvent,
    InstallPhase, InstallerRun, ReleaseAsset, UpdateInfo,
};
use godspeed::error::AppError;
use godspeed::http::HttpStatus;

fn asset(name: &str, url: &str) -> ReleaseAsset {
    ReleaseAsset { name: name.to_string(), browser_download_url: url.to_string() }
}

fn status(code: u16, text: &str, reason: Option<&str>) -> HttpStatus {
    HttpStatus { code, text: text.to_string(), reason: reason.map(|r| r.to_string()) }
}

#[test]
fn a_newer_release_is_an_update_with_its_installer() {
    let assets = vec![
        asset("godspeed.dmg", "https://example.org/a.dmg"),
        asset("Godspeed_2.2.0_x64.msi", "https://example.org/a.msi"),
        asset("Other.msi", "https://example.org/b.msi"),
    ];
    assert_eq!(
        check_app_update("2.1.1", "v2.2.0", &assets),
        UpdateInfo {
            update_available: true,
            latest_version: "2.2.0".to_string(),
            download_url: "https://example.org/a.msi".to_string(),
        }
    );
}

#[test]
fn the_same_version_is_no_update_whatever_the_prefix() {
    for (current, tag) in [("2.1.1", "v2.1.1"), ("v2.1.1", "2.1.1"), ("vv2.1.1", "v2.1.1"), ("2.1.1", "2.1.1")] {
        let info = check_app_update(current, tag, &vec![]);
        assert!(!info.update_available);
        assert_eq!(info.latest_version, "2.1.1");
        assert_eq!(info.download_url, "");
    }
}

#[test]
fn an_empty_tag_is_never_an_update() {
    for tag in ["", "v", "vvv"] {
        let info = check_app_update("1.0.0", tag, &vec![asset("a.msi", "u")]);
        assert!(!info.update_available);
        assert_eq!(info.latest_version, "");
        assert_eq!(info.download_url, "u");
    }
}

#[test]
fn versions_are_compared_as_text() {
    let info = check_app_update("2.1.1", "v2.1.0", &vec![]);
    assert!(info.update_available);
    assert_eq!(info.latest_version, "2.1.0");
    let info = check_app_update("", "v1", &vec![asset("setup.MSI", "x"), asset(".msi", "y")]);
    assert!(info.update_available);
    assert_eq!(info.download_url, "y");
    let info = check_app_update("1v", "1", &vec![asset("msi", "x")]);
    assert!(info.update_available);
    assert_eq!(info.download_url, "");
}

#[test]
fn only_a_success_lets_the_release_be_read() {
    assert_eq!(release_response(&status(200, "200 OK", Some("OK"))), Ok(()));
    assert_eq!(release_response(&status(299, "299 <unknown status code>", None)), Ok(()));
    assert_eq!(
        release_response(&status(403, "403 Forbidden", Some("Forbidden"))),
        Err(AppError::Network("GitHub API error: 403 Forbidden - Forbidden".to_string()))
    );
    assert_eq!(
        release_response(&status(199, "199 <unknown status code>", None)),
        Err(AppError::Network("GitHub API error: 199 <unknown status code> - Unknown error".to_string()))
    );
    assert!(release_response(&status(300, "300 Multiple Choices", Some("Multiple Choices"))).is_err());
}

fn drive(url: &str, events: Vec<InstallEvent>) -> (InstallerRun, Vec<InstallAction>) {
    let (mut run, first) = install_app_update(url, "C:\\Temp\\Godspeed_Update.msi".to_string());
    let mut actions = vec![first];
    for event in events {
        if let Some(action) = run.step(event) {
            actions.push(action);
        }
    }
    (run, actions)
}

#[test]
fn an_installer_without_an_address_is_refused_at_once() {
    let (mut run, actions) = drive("", vec![]);
    assert_eq!(actions, vec![InstallAction::Finish(Err(AppError::Logic("No download URL provided.".to_string())))]);
    assert_eq!(run.phase(), InstallPhase::Finished);
    assert_eq!(run.step(InstallEvent::StaleCleared), None);
}

#[test]
fn the_installer_is_fetched_stored_and_opened() {
    let (run, actions) = drive(
        "https://example.org/a.msi",
        vec![
            InstallEvent::StaleCleared,
            InstallEvent::Responded(status(200, "200 OK", Some("OK"))),
            InstallEvent::BodySaved,
            InstallEvent::Opened,
        ],
    );
    assert_eq!(
        actions,
        vec![
            InstallAction::ClearStale,
            InstallAction::Request { timeout_secs: 600 },
            InstallAction::SaveBody,
            InstallAction::Open,
            InstallAction::Finish(Ok(
                "Installer launched! Please follow the installation prompts. File: C:\\Temp\\Godspeed_Update.msi"
                    .to_string()
            )),
        ]
    );
    assert_eq!(run.phase(), InstallPhase::Finished);
    assert_eq!(run.path(), "C:\\Temp\\Godspeed_Update.msi");
}

#[test]
fn each_failure_of_the_installer_has_its_kind_and_message() {
    let ok = || InstallEvent::Responded(status(200, "200 OK", Some("OK")));
    let cases: Vec<(Vec<InstallEvent>, AppError)> = vec![
        (
            vec![InstallEvent::ClientFailed("no tls".to_string())],
            AppError::Network("Failed to create HTTP client: no tls".to_string()),
        ),
        (vec![InstallEvent::RequestFailed("dns".to_string())], AppError::Network("dns".to_string())),
        (
            vec![InstallEvent::Responded(status(404, "404 Not Found", Some("Not Found")))],
            AppError::Network("Download failed: 404 Not Found - Not Found".to_string()),
        ),
        (
            vec![InstallEvent::Responded(status(600, "600 <unknown status code>", None))],
            AppError::Network("Download failed: 600 <unknown status code> - Unknown error".to_string()),
        ),
        (vec![ok(), InstallEvent::BodyFailed("reset".to_string())], AppError::Network("reset".to_string())),
        (
            vec![ok(), InstallEvent::FileCreateFailed("denied".to_string())],
            AppError::Io("Failed to create MSI file: denied".to_string()),
        ),
        (
            vec![ok(), InstallEvent::FileWriteFailed("full".to_string())],
            AppError::Io("Failed to write MSI file: full".to_string()),
        ),
        (
            vec![ok(), InstallEvent::BodySaved, InstallEvent::OpenFailed("no handler".to_string())],
            AppError::Tauri("Failed to open installer: no handler".to_string()),
        ),
    ];
    for (tail, error) in cases {
        let mut events = vec![InstallEvent::StaleCleared];
        events.extend(tail);
        let (run, actions) = drive("https://example.org/a.msi", events);
        assert_eq!(actions.last(), Some(&InstallAction::Finish(Err(error))));
        assert_eq!(run.phase(), InstallPhase::Finished);
    }
}

#[test]
fn the_installer_run_passes_over_reports_out_of_turn() {
    let (mut run, first) = InstallerRun::begin("u", "p".to_string());
    assert_eq!(first, InstallAction::ClearStale);
    assert_eq!(run.step(InstallEvent::Opened), None);
    assert_eq!(run.step(InstallEvent::BodySaved), None);
    assert_eq!(run.phase(), InstallPhase::Clearing);
    assert_eq!(run.step(InstallEvent::StaleCleared), Some(InstallAction::Request { timeout_secs: 600 }));
    assert_eq!(run.step(InstallEvent::StaleCleared), None);
    assert_eq!(run.phase(), InstallPhase::Requesting);
}
