use dataflow_lib::protocol::SidecarResponse;
use dataflow_lib::protocol::decode_sidecar_response;
use dataflow_lib::protocol::encode_generate_request;
use dataflow_lib::protocol::interpret_response;
use dataflow_lib::protocol::parse_failure_message;
use dataflow_lib::protocol::proxy_generate_decode;
use dataflow_lib::protocol::transport_failure_message;
use dataflow_lib::protocol::unknown_error_message;

#[test]
fn successful_reply_yields_the_artifact_path() {
    let r = proxy_generate_decode("{\"success\": true, \"html_path\": \"/tmp/out.html\"}");
    assert_eq!(r, Ok("/tmp/out.html".to_string()));
}

#[test]
fn failed_reply_surfaces_its_error_message() {
    let r = proxy_generate_decode("{\"success\": false, \"error\": \"bad metadata\"}");
    assert_eq!(r, Err("bad metadata".to_string()));
}

#[test]
fn reply_without_path_or_error_is_the_unknown_error() {
    let r = proxy_generate_decode("{\"success\": true}");
    assert_eq!(r, Err("Unknown error occurred".to_string()));
    let r = proxy_generate_decode("{}");
    assert_eq!(r, Err("Unknown error occurred".to_string()));
    assert_eq!(unknown_error_message(), "Unknown error occurred");
}

#[test]
fn path_without_success_flag_is_not_a_success() {
    // The success indicator defaults to false when absent or of the wrong
    // type, so a bare path is not returned.
    let r = proxy_generate_decode("{\"html_path\": \"/tmp/out.html\"}");
    assert_eq!(r, Err("Unknown error occurred".to_string()));
    let r = proxy_generate_decode("{\"success\": \"yes\", \"html_path\": \"/tmp/out.html\"}");
    assert_eq!(r, Err("Unknown error occurred".to_string()));
}

#[test]
fn unparseable_reply_is_a_parse_failure() {
    let r = proxy_generate_decode("not json at all");
    let msg = r.unwrap_err();
    assert!(msg.starts_with("Failed to parse sidecar response: "));
    assert!(decode_sidecar_response("{ truncated").is_err());
    assert!(decode_sidecar_response("{\"success\": true}").is_ok());
}

#[test]
fn decoded_fields_are_the_reply_fields() {
    let resp = decode_sidecar_response(
        "{\"success\": true, \"html_path\": \"/tmp/out.html\", \"error\": \"ignored\"}",
    )
    .unwrap();
    assert!(resp.success);
    assert_eq!(resp.html_path, Some("/tmp/out.html".to_string()));
    assert_eq!(resp.error, Some("ignored".to_string()));
    // Success together with a path wins over a present error field.
    assert_eq!(interpret_response(&resp), Ok("/tmp/out.html".to_string()));
}

#[test]
fn success_without_path_falls_back_to_the_error_field() {
    let resp = SidecarResponse {
        success: true,
        html_path: None,
        error: Some("half done".to_string()),
    };
    assert_eq!(interpret_response(&resp), Err("half done".to_string()));
}

#[test]
fn request_body_is_the_exact_json_object() {
    assert_eq!(
        encode_generate_request("/tmp/x.json"),
        "{\"metadata_path\":\"/tmp/x.json\"}"
    );
    // Quotes and backslashes in the path are escaped.
    assert_eq!(
        encode_generate_request("a\"b\\c"),
        "{\"metadata_path\":\"a\\\"b\\\\c\"}"
    );
}

#[test]
fn transport_failure_is_distinct_from_protocol_failures() {
    let t = transport_failure_message("connection refused");
    assert_eq!(t, "Failed to communicate with sidecar: connection refused");
    assert_ne!(t, unknown_error_message());
    assert_ne!(t, parse_failure_message("connection refused"));
}
