use dataflow_lib::platform::Platform;
use dataflow_lib::supervisor::SIDECAR_PORT;
use dataflow_lib::supervisor::SpawnEnv;
use dataflow_lib::supervisor::Supervisor;

fn good_env(resource_dir: &str) -> SpawnEnv {
    SpawnEnv {
        resource_dir: Some(resource_dir.to_string()),
        binary_exists: true,
        spawn_ok: true,
        spawn_error: String::new(),
    }
}

#[test]
fn port_is_fixed() {
    let s = Supervisor::new();
    assert_eq!(SIDECAR_PORT, 8000);
    assert_eq!(s.port(), 8000);
}

#[test]
fn ensure_running_is_idempotent() {
    let mut s = Supervisor::new();
    assert!(s.needs_spawn());
    let r = s.complete_spawn(Platform::Unix, &good_env("/app/resources"));
    assert_eq!(r, Ok(8000));
    assert_eq!(s.spawns, 1);
    // A second request without an intervening shutdown finds the handle
    // present and must not spawn again.
    assert!(!s.needs_spawn());
    assert_eq!(s.port(), 8000);
    assert_eq!(s.spawns, 1);
}

#[test]
fn shutdown_then_start_spawns_exactly_once() {
    let mut s = Supervisor::new();
    s.complete_spawn(Platform::Unix, &good_env("/app/resources")).unwrap();
    assert_eq!(s.spawns, 1);
    assert!(s.shutdown());
    assert_eq!(s.kills, 1);
    assert!(s.needs_spawn());
    let r = s.complete_spawn(Platform::Unix, &good_env("/app/resources"));
    assert_eq!(r, Ok(8000));
    assert_eq!(s.spawns, 2);
    assert_eq!(s.kills, 1);
}

#[test]
fn failed_restart_spawns_nothing() {
    let mut s = Supervisor::new();
    s.complete_spawn(Platform::Unix, &good_env("/app/resources")).unwrap();
    s.shutdown();
    let env = SpawnEnv {
        resource_dir: Some("/app/resources".to_string()),
        binary_exists: true,
        spawn_ok: false,
        spawn_error: "boom".to_string(),
    };
    let r = s.complete_spawn(Platform::Unix, &env);
    assert_eq!(r, Err("Failed to start sidecar process: boom".to_string()));
    assert_eq!(s.spawns, 1);
    assert!(s.needs_spawn());
}

#[test]
fn shutdown_without_process_kills_nothing() {
    let mut s = Supervisor::new();
    assert!(!s.shutdown());
    assert_eq!(s.kills, 0);
    s.complete_spawn(Platform::Unix, &good_env("/app/resources")).unwrap();
    assert!(s.shutdown());
    assert!(!s.shutdown());
    assert_eq!(s.kills, 1);
}

#[test]
fn missing_resource_dir_is_reported() {
    let mut s = Supervisor::new();
    let env = SpawnEnv {
        resource_dir: None,
        binary_exists: false,
        spawn_ok: false,
        spawn_error: String::new(),
    };
    let r = s.complete_spawn(Platform::Unix, &env);
    assert_eq!(r, Err("Failed to get resource directory".to_string()));
    assert!(s.needs_spawn());
    assert_eq!(s.spawns, 0);
}

#[test]
fn missing_binary_is_reported_with_its_path() {
    let mut s = Supervisor::new();
    let env = SpawnEnv {
        resource_dir: Some("/app/resources".to_string()),
        binary_exists: false,
        spawn_ok: false,
        spawn_error: String::new(),
    };
    let r = s.complete_spawn(Platform::Unix, &env);
    assert_eq!(
        r,
        Err("Sidecar binary not found at: /app/resources/bin/sidecar/dataflow_sidecar".to_string())
    );

    let mut w = Supervisor::new();
    let env = SpawnEnv {
        resource_dir: Some("C:\\app".to_string()),
        binary_exists: false,
        spawn_ok: false,
        spawn_error: String::new(),
    };
    let r = w.complete_spawn(Platform::Windows, &env);
    assert_eq!(
        r,
        Err("Sidecar binary not found at: C:\\app\\bin\\sidecar\\dataflow_sidecar.exe".to_string())
    );
}

#[test]
fn spawn_failure_is_reported_with_its_detail() {
    let mut s = Supervisor::new();
    let env = SpawnEnv {
        resource_dir: Some("/app/resources".to_string()),
        binary_exists: true,
        spawn_ok: false,
        spawn_error: "boom".to_string(),
    };
    let r = s.complete_spawn(Platform::Unix, &env);
    assert_eq!(r, Err("Failed to start sidecar process: boom".to_string()));
    assert!(s.needs_spawn());
    assert_eq!(s.spawns, 0);
}
