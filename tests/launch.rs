use sidecar_boot::error::{PathSource, StartupError};
use sidecar_boot::launch::{
    launch_config, plan_launch, runtime_path, LOG_BACKEND_KEY, RUNTIME_MODE_KEY, SERVER_RUNTIME,
    STORAGE_DIR_KEY,
};
use sidecar_boot::paths::ServerLocation;

#[test]
fn config_through_runtime() {
    let c = launch_config(Some("bun"), "/src/binaries/api-server-x86_64-unknown-linux-gnu", "/home/u");
    assert_eq!(c.program, "bun");
    assert_eq!(c.args, vec!["/src/binaries/api-server-x86_64-unknown-linux-gnu".to_string()]);
    assert_eq!(
        c.argv(),
        vec!["bun".to_string(), "/src/binaries/api-server-x86_64-unknown-linux-gnu".to_string()]
    );
}

#[test]
fn config_direct() {
    let c = launch_config(None, "/opt/api-server-aarch64-apple-darwin", "/Users/u");
    assert_eq!(c.program, "/opt/api-server-aarch64-apple-darwin");
    assert!(c.args.is_empty());
    assert_eq!(c.argv(), vec!["/opt/api-server-aarch64-apple-darwin".to_string()]);
}

#[test]
fn config_sets_required_variables() {
    let c = launch_config(Some("bun"), "/x/api-server", "/home/u");
    assert_eq!(c.env.len(), 3);
    assert_eq!(c.env_value(STORAGE_DIR_KEY), Some("/home/u/.app/storage".to_string()));
    assert_eq!(c.env_value(RUNTIME_MODE_KEY), Some("DESKTOP".to_string()));
    assert_eq!(c.env_value(LOG_BACKEND_KEY), Some("pino".to_string()));
    assert_eq!(c.env_value("PATH"), None);
}

#[test]
fn storage_variable_scenario() {
    let c = launch_config(None, "/x/api-server", "/home/u");
    assert_eq!(c.env_value("STORAGE_DIR"), Some("/home/u/.app/storage".to_string()));
}

#[test]
fn runtime_lies_beside_executable() {
    assert_eq!(runtime_path("/opt/desk/desk", SERVER_RUNTIME), Ok("/opt/desk/bun".to_string()));
    assert_eq!(
        runtime_path("desk", SERVER_RUNTIME),
        Err(StartupError::PathResolution(PathSource::ExecutableDir))
    );
}

#[test]
fn plan_development_launch() {
    let loc = ServerLocation::Development { project_dir: "/src".to_string() };
    let c = plan_launch(&loc, "linux", "x86_64", Some("/home/u"), Some("/src/bun")).unwrap();
    assert_eq!(c.program, "/src/bun");
    assert_eq!(c.args, vec!["/src/binaries/api-server-x86_64-unknown-linux-gnu".to_string()]);
    assert_eq!(c.env_value(STORAGE_DIR_KEY), Some("/home/u/.app/storage".to_string()));
}

#[test]
fn plan_production_launch_on_unknown_host() {
    let loc = ServerLocation::Production { current_exe: "/Applications/Desk/desk".to_string() };
    let c = plan_launch(&loc, "haiku", "m68k", Some("/Users/u"), None).unwrap();
    assert_eq!(c.program, "/Applications/Desk/api-server-aarch64-apple-darwin");
    assert_eq!(c.env_value(STORAGE_DIR_KEY), Some("/Users/u/.app/storage".to_string()));
}

#[test]
fn plan_without_home_fails() {
    let loc = ServerLocation::Development { project_dir: "/src".to_string() };
    let r = plan_launch(&loc, "linux", "x86_64", None, Some("bun"));
    assert_eq!(r.err(), Some(StartupError::PathResolution(PathSource::Home)));
}

#[test]
fn plan_reports_executable_dir_before_home() {
    let loc = ServerLocation::Production { current_exe: "desk".to_string() };
    let r = plan_launch(&loc, "linux", "x86_64", None, Some("bun"));
    assert_eq!(r.err(), Some(StartupError::PathResolution(PathSource::ExecutableDir)));
}

#[test]
fn errors_have_descriptions() {
    assert_eq!(StartupError::PathResolution(PathSource::Home).describe(), "failed to resolve home dir");
    assert_eq!(StartupError::PathResolution(PathSource::ExecutableDir).describe(), "failed to get executable dir");
    assert_eq!(StartupError::PathResolution(PathSource::ResourceDir).describe(), "failed to resolve resource dir");
    assert_eq!(StartupError::Spawn.describe(), "failed to spawn the server");
}
