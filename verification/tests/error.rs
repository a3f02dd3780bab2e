use factorio_server::credentials::CredentialsFailure;
use factorio_server::error::ServerError;
use factorio_server::manager::has_safe_names;
use factorio_server::instance::InstanceSettings;
use factorio_server::paths::{is_safe_name, RelPath};
use factorio_server::platform::Platform;
use factorio_server::version::Version;

#[test]
fn every_error_says_what_it_is() {
    let text = || "why".to_string();
    let failure = CredentialsFailure { error: "e".to_string(), message: "m".to_string() };
    let cases = [
        (ServerError::NotAllowed(text()), "function not allowed for current Status: why"),
        (ServerError::IO(text()), "io error: why"),
        (ServerError::Rcon(text()), "rcon error: why"),
        (ServerError::TokioRecv(text()), "tokio recv error: why"),
        (ServerError::Utf8Error(), "utf-8 error"),
        (ServerError::TrackerSendError(text()), "send error: why"),
        (ServerError::WatchChannelSendError(text()), "watch status channel send error: why"),
        (ServerError::WatchChannelRecvError(text()), "watch status channel recv error: why"),
        (ServerError::ParseIntError(text()), "parse int error: why"),
        (ServerError::ReqwestError(text()), "ReqwestError: why"),
        (ServerError::ZipError(text()), "ZipError: why"),
        (ServerError::CredentialsFailure(failure), "CredentialsFailure: error: e, message: m"),
        (ServerError::SerdeJsonError(text()), "SerdeJsonError: why"),
        (ServerError::AlreadyRunningError, "the instance is already running"),
        (ServerError::InFlightError, "the fetch that was waited for has failed"),
        (ServerError::DownloadError(text()), "download error: why"),
        (ServerError::InvalidVersionFormat(text()), "invalid version format: why"),
    ];
    for (error, message) in cases {
        assert_eq!(error.to_string(), message);
        assert_eq!(error.clone(), error);
    }
}

#[test]
fn safe_names_stay_where_they_are_put() {
    for name in ["a", "test_1.1.110", "...", "a b", "ü", ".hidden", "x.zip"] {
        assert!(is_safe_name(name), "{name}");
    }
    for name in ["", ".", "..", "a/b", "/", "..\\x", "a\\b", "../x"] {
        assert!(!is_safe_name(name), "{name}");
    }
}

#[test]
fn contained_paths_have_safe_components() {
    let path = |parts: &[&str]| RelPath {
        segments: parts.iter().map(|part| part.to_string()).collect(),
    };
    assert!(path(&[]).is_contained());
    assert!(path(&["cache", "mods", "x.zip"]).is_contained());
    assert!(!path(&["cache", "..", "x.zip"]).is_contained());
    assert!(!path(&["cache", "a/b"]).is_contained());
    assert!(!path(&["", "a"]).is_contained());
}

#[test]
fn settings_with_unsafe_names_are_told_apart() {
    let settings = || {
        InstanceSettings::new("test3".to_string(), Version::from([1, 1, 110]), Platform::Linux)
            .unwrap()
    };
    assert!(has_safe_names("a", &settings()));
    assert!(!has_safe_names("../a", &settings()));
    assert!(!has_safe_names("", &settings()));
    let mut unsafe_save = settings();
    unsafe_save.save("..");
    assert!(!has_safe_names("a", &unsafe_save));
    let mut unsafe_mod = settings();
    unsafe_mod.add_mod("fine", Version::from([1, 0, 0]));
    unsafe_mod.add_mod("../../etc", Version::from([1, 0, 0]));
    assert!(!has_safe_names("a", &unsafe_mod));
    let mut safe_mods = settings();
    safe_mods.add_mod("fine", Version::from([1, 0, 0]));
    assert!(has_safe_names("a", &safe_mods));
    let mut unsafe_executable = settings();
    unsafe_executable.executable_path = RelPath::new().join("..").join("factorio");
    assert!(!has_safe_names("a", &unsafe_executable));
}
