use dataflow_lib::greet;
use dataflow_lib::platform::Platform;
use dataflow_lib::platform::path_join;
use dataflow_lib::platform::sidecar_name;
use dataflow_lib::platform::sidecar_path;
use dataflow_lib::platform::tool_candidates;
use dataflow_lib::platform::tool_name;

#[test]
fn greet_builds_the_greeting() {
    assert_eq!(greet("World"), "Hello, World! You've been greeted from Rust!");
    assert_eq!(greet(""), "Hello, ! You've been greeted from Rust!");
}

#[test]
fn tool_name_per_platform() {
    assert_eq!(tool_name(Platform::Unix), "uvx");
    assert_eq!(tool_name(Platform::Windows), "uvx.exe");
}

#[test]
fn tool_candidates_per_platform() {
    assert_eq!(tool_candidates(Platform::Unix), vec!["uvx".to_string()]);
    assert_eq!(
        tool_candidates(Platform::Windows),
        vec!["uvx.exe".to_string(), "uvx".to_string()]
    );
}

#[test]
fn sidecar_name_per_platform() {
    assert_eq!(sidecar_name(Platform::Unix), "dataflow_sidecar");
    assert_eq!(sidecar_name(Platform::Windows), "dataflow_sidecar.exe");
}

#[test]
fn path_join_uses_platform_separator() {
    assert_eq!(path_join(Platform::Unix, "/opt/uv", "uvx"), "/opt/uv/uvx");
    assert_eq!(path_join(Platform::Windows, "C:\\uv", "uvx.exe"), "C:\\uv\\uvx.exe");
}

#[test]
fn sidecar_path_under_resource_dir() {
    assert_eq!(
        sidecar_path(Platform::Unix, "/app/resources"),
        "/app/resources/bin/sidecar/dataflow_sidecar"
    );
    assert_eq!(
        sidecar_path(Platform::Windows, "C:\\app"),
        "C:\\app\\bin\\sidecar\\dataflow_sidecar.exe"
    );
}
