//! The one request/response exchange with the sidecar: encoding the
//! generation request's JSON body, decoding the sidecar's JSON reply, and
//! turning it into the caller-visible outcome — an artifact path or an
//! error message.
//!
//! The host performs the HTTP POST itself; JSON parsing and serialization
//! are delegated to `serde_json` behind the trusted items below.

use vstd::prelude::*;
use vstd::string::StringExecFns;

verus! {

#[verifier::external_type_specification]
#[verifier::external_body]
pub struct ExError(serde_json::Error);

/// Whether `serde_json::from_str` accepts the text as a JSON document.
pub uninterp spec fn json_parses(s: Seq<char>) -> bool;

/// The JSON string literal (quoted and escaped) that `serde_json` writes
/// for a string; it depends on the characters alone.
pub uninterp spec fn spec_json_quoted(s: Seq<char>) -> Seq<char>;

/// The `success` field of the document, as a boolean, when the document is
/// an object carrying one of that type.
pub uninterp spec fn spec_success_field(doc: Seq<char>) -> Option<bool>;

/// The `html_path` field of the document, as text, when the document is an
/// object carrying one of that type.
pub uninterp spec fn spec_html_path_field(doc: Seq<char>) -> Option<Seq<char>>;

/// The `error` field of the document, as text, when the document is an
/// object carrying one of that type.
pub uninterp spec fn spec_error_field(doc: Seq<char>) -> Option<Seq<char>>;

/// The view of an optional piece of text.
pub open spec fn spec_opt_text(o: Option<String>) -> Option<Seq<char>> {
    match o {
        Some(s) => Some(s@),
        None => None,
    }
}

/// Relies on `serde_json::from_str` at `serde_json::Value`, together with
/// `Value::get`, `Value::as_bool` and `Value::as_str`: parses the reply
/// text — acceptance depending on the text alone — and hands out its raw
/// `success`, `html_path` and `error` fields, each a function of the text
/// alone.
#[verifier::external_body]
fn json_extract_fields(s: &str) -> (r: Result<
    (Option<bool>, Option<String>, Option<String>),
    serde_json::Error,
>)
    ensures
        r is Ok <==> json_parses(s@),
        r matches Ok(fields) ==> ({
            &&& fields.0 == spec_success_field(s@)
            &&& spec_opt_text(fields.1) == spec_html_path_field(s@)
            &&& spec_opt_text(fields.2) == spec_error_field(s@)
        }),
{
    match serde_json::from_str::<serde_json::Value>(s) {
        Err(e) => Err(e),
        Ok(v) => Ok((
            v.get("success").and_then(serde_json::Value::as_bool),
            v.get("html_path").and_then(serde_json::Value::as_str).map(str::to_owned),
            v.get("error").and_then(serde_json::Value::as_str).map(str::to_owned),
        )),
    }
}

/// Relies on `ToString` for `serde_json::Error`: renders the parse error as
/// text.
#[verifier::external_body]
fn json_error_message(e: &serde_json::Error) -> String {
    e.to_string()
}

/// Relies on `serde_json::to_string` on a string value: writes the JSON
/// string literal for it, quoted and escaped; the result depends on the
/// characters alone.
#[verifier::external_body]
fn json_quote(s: &str) -> (r: String)
    ensures
        r@ == spec_json_quoted(s@),
{
    match serde_json::to_string(s) {
        Ok(q) => q,
        Err(_) => String::new(),
    }
}

/// The JSON body sent to the sidecar's generation endpoint for a metadata
/// file path.
pub open spec fn spec_generate_request_body(metadata_path: Seq<char>) -> Seq<char> {
    "{\"metadata_path\":"@ + spec_json_quoted(metadata_path) + "}"@
}

/// Builds the JSON body of the generation request: an object with the one
/// field `metadata_path` holding the given path.
pub fn encode_generate_request(metadata_path: &str) -> (r: String)
    ensures
        r@ == spec_generate_request_body(metadata_path@),
{
    let mut s: String = "{\"metadata_path\":".to_owned();
    let quoted = json_quote(metadata_path);
    s.append(quoted.as_str());
    s.append("}");
    s
}

/// What the sidecar's reply carried: the success indicator and, where
/// present, the artifact path and the error message.
pub struct SidecarResponse {
    /// The reply's `success` field, `false` when absent or not a boolean.
    pub success: bool,
    /// The reply's `html_path` field, when present as a string.
    pub html_path: Option<String>,
    /// The reply's `error` field, when present as a string.
    pub error: Option<String>,
}

/// Mathematical counterpart of [`SidecarResponse`].
pub struct ResponseModel {
    pub success: bool,
    pub html_path: Option<Seq<char>>,
    pub error: Option<Seq<char>>,
}

impl View for SidecarResponse {
    type V = ResponseModel;

    open spec fn view(&self) -> ResponseModel {
        ResponseModel {
            success: self.success,
            html_path: spec_opt_text(self.html_path),
            error: spec_opt_text(self.error),
        }
    }
}

/// What decoding yields for a parseable reply text: its raw fields, with
/// the defaulting rule applied — a `success` indicator that is absent or
/// not a boolean reads as `false`.
pub open spec fn spec_decoded(doc: Seq<char>) -> ResponseModel {
    ResponseModel {
        success: match spec_success_field(doc) {
            Some(b) => b,
            None => false,
        },
        html_path: spec_html_path_field(doc),
        error: spec_error_field(doc),
    }
}

/// Message surfaced when the reply names neither an artifact path nor an
/// error.
pub open spec fn spec_unknown_error_msg() -> Seq<char> {
    "Unknown error occurred"@
}

/// Message surfaced when the reply was no JSON document; `detail` is the
/// parser's account.
pub open spec fn spec_parse_failure_msg(detail: Seq<char>) -> Seq<char> {
    "Failed to parse sidecar response: "@ + detail
}

/// Message surfaced when the HTTP exchange itself failed; `detail` is the
/// transport's account.
pub open spec fn spec_transport_failure_msg(detail: Seq<char>) -> Seq<char> {
    "Failed to communicate with sidecar: "@ + detail
}

/// The caller-visible outcome for a decoded reply: the artifact path when
/// the reply indicates success and carries one; else the reply's error
/// message when it carries one; else the generic unknown-error message.
pub open spec fn spec_interpret(r: ResponseModel) -> Result<Seq<char>, Seq<char>> {
    if r.success && r.html_path is Some {
        Ok(r.html_path.unwrap())
    } else if r.error is Some {
        Err(r.error.unwrap())
    } else {
        Err(spec_unknown_error_msg())
    }
}

/// Message surfaced when the reply names neither an artifact path nor an
/// error.
pub fn unknown_error_message() -> (r: String)
    ensures
        r@ == spec_unknown_error_msg(),
{
    "Unknown error occurred".to_owned()
}

/// Message surfaced when the HTTP exchange itself failed with `detail`.
pub fn transport_failure_message(detail: &str) -> (r: String)
    ensures
        r@ == spec_transport_failure_msg(detail@),
{
    let mut s: String = "Failed to communicate with sidecar: ".to_owned();
    s.append(detail);
    s
}

/// Message surfaced when the reply could not be parsed; `detail` is the
/// parser's account.
pub fn parse_failure_message(detail: &str) -> (r: String)
    ensures
        r@ == spec_parse_failure_msg(detail@),
{
    let mut s: String = "Failed to parse sidecar response: ".to_owned();
    s.append(detail);
    s
}

/// Turns a decoded reply into the caller-visible outcome.
pub fn interpret_response(r: &SidecarResponse) -> (out: Result<String, String>)
    ensures
        match out {
            Ok(path) => spec_interpret(r@) == Ok::<Seq<char>, Seq<char>>(path@),
            Err(msg) => spec_interpret(r@) == Err::<Seq<char>, Seq<char>>(msg@),
        },
{
    if r.success {
        match &r.html_path {
            Some(path) => {
                return Ok(path.clone());
            },
            None => {},
        }
    }
    match &r.error {
        Some(msg) => Err(msg.clone()),
        None => Err(unknown_error_message()),
    }
}

/// Decodes the sidecar's reply text into its fields — applying the
/// defaulting rule for the `success` indicator — or reports a
/// parse-failure message when the text is no JSON document.
pub fn decode_sidecar_response(body: &str) -> (r: Result<SidecarResponse, String>)
    ensures
        r is Ok <==> json_parses(body@),
        r matches Ok(resp) ==> resp@ == spec_decoded(body@),
        r matches Err(msg) ==> exists|d: Seq<char>| msg@ == spec_parse_failure_msg(d),
{
    match json_extract_fields(body) {
        Err(e) => {
            let detail = json_error_message(&e);
            let msg = parse_failure_message(detail.as_str());
            proof {
                assert(exists|d: Seq<char>| msg@ == spec_parse_failure_msg(d)) by {
                    assert(msg@ == spec_parse_failure_msg(detail@));
                }
            }
            Err(msg)
        },
        Ok((success_field, html_path, error)) => {
            let success: bool = match success_field {
                Some(b) => b,
                None => false,
            };
            Ok(SidecarResponse { success, html_path, error })
        },
    }
}

/// The whole decode-and-interpret path for one generation request: given
/// the sidecar's reply text, the artifact path or the error message the
/// caller sees. A reply that is no JSON document yields a parse-failure
/// message; a decoded reply yields exactly what [`interpret_response`]
/// gives for its fields.
pub fn proxy_generate_decode(body: &str) -> (r: Result<String, String>)
    ensures
        !json_parses(body@) ==> (r matches Err(msg) && exists|d: Seq<char>|
            msg@ == spec_parse_failure_msg(d)),
        json_parses(body@) ==> match r {
            Ok(path) => spec_interpret(spec_decoded(body@)) == Ok::<Seq<char>, Seq<char>>(path@),
            Err(msg) => spec_interpret(spec_decoded(body@)) == Err::<Seq<char>, Seq<char>>(msg@),
        },
{
    match decode_sidecar_response(body) {
        Err(msg) => Err(msg),
        Ok(resp) => interpret_response(&resp),
    }
}

/// Transport failures are reported distinctly from protocol failures: a
/// transport-failure message never equals the generic unknown-error
/// message, nor any parse-failure message.
pub proof fn lemma_transport_failure_distinct(d1: Seq<char>, d2: Seq<char>)
    ensures
        spec_transport_failure_msg(d1) != spec_unknown_error_msg(),
        spec_transport_failure_msg(d1) != spec_parse_failure_msg(d2),
{
    reveal_strlit("Failed to communicate with sidecar: ");
    reveal_strlit("Failed to parse sidecar response: ");
    reveal_strlit("Unknown error occurred");
    assert(spec_transport_failure_msg(d1)[0] == 'F');
    assert(spec_unknown_error_msg()[0] == 'U');
    assert(spec_transport_failure_msg(d1)[10] == 'c');
    assert(spec_parse_failure_msg(d2)[10] == 'p');
}

} // verus!
