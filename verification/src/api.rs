//! The backend's endpoints and what the frontend makes of a refused
//! request: the URLs it sends to, and the message it shows when a reply
//! does not succeed.

use vstd::prelude::*;
use crate::text::{owned, to_decimal, decimal};

verus! {

/// Where the backend's API is served from, relative to the page: the
/// development server proxies every request under this path to the backend.
pub const API_BASE_URL: &'static str = "/api";

/// The text of [`API_BASE_URL`].
pub open spec fn api_base() -> Seq<char> {
    API_BASE_URL@
}

/// `"{API_BASE_URL}/{path}"`.
pub open spec fn endpoint(path: Seq<char>) -> Seq<char> {
    api_base() + "/"@ + path
}

/// The URL of `path` under the API.
pub fn endpoint_url(path: &str) -> (url: String)
    ensures
        url@ == endpoint(path@),
{
    let mut url = owned(API_BASE_URL);
    url.append("/");
    url.append(path);
    url
}

/// Where the list of models is fetched from.
pub fn models_url() -> (url: String)
    ensures
        url@ == endpoint("models"@),
{
    endpoint_url("models")
}

/// Where training jobs are posted, and the list of training algorithms is
/// fetched from.
pub fn train_url() -> (url: String)
    ensures
        url@ == endpoint("train"@),
{
    endpoint_url("train")
}

/// Where the list of stored training files is fetched from.
pub fn training_files_url() -> (url: String)
    ensures
        url@ == endpoint("training-files"@),
{
    endpoint_url("training-files")
}

/// Where the status of a training job is requested: `"{API_BASE_URL}/train/{job_id}"`.
pub fn training_status_url(job_id: &str) -> (url: String)
    ensures
        url@ == endpoint("train/"@ + job_id@),
{
    let mut url = endpoint_url("train/");
    url.append(job_id);
    proof {
        assert(endpoint("train/"@) + job_id@ =~= endpoint("train/"@ + job_id@));
    }
    url
}

/// The prediction URL for a model and one of its versions: the version
/// is named only where it is not empty.
pub open spec fn predict_url_spec(model_name: Seq<char>, version: Seq<char>) -> Seq<char> {
    let base = api_base() + "/predict?model="@ + model_name;
    if version.len() == 0 {
        base
    } else {
        base + "&version="@ + version
    }
}

/// `"{API_BASE_URL}/predict?model={model_name}"`, followed by
/// `"&version={version}"` where `version` is not empty.
pub fn predict_url(model_name: &str, version: &str) -> (url: String)
    ensures
        url@ == predict_url_spec(model_name@, version@),
{
    let mut url = owned(API_BASE_URL);
    url.append("/predict?model=");
    url.append(model_name);
    if version.unicode_len() > 0 {
        url.append("&version=");
        url.append(version);
    }
    url
}

/// The string that member `key` of a JSON object holds, where `body`
/// parses as JSON into an object with such a member whose value is a
/// string.
pub uninterp spec fn json_string_member(body: Seq<char>, key: Seq<char>) -> Option<Seq<char>>;

/// The member of a refused reply's JSON body that explains the refusal.
pub open spec fn error_key() -> Seq<char> {
    "error"@
}

/// The backend's own explanation in a refused reply's body: its `"error"`
/// member, where that is a string.
pub open spec fn json_error_field(body: Seq<char>) -> Option<Seq<char>> {
    json_string_member(body, error_key())
}

/// The string held by member `key` of the JSON object in `body`.
///
/// Trusted: parses `body` with `serde_json::from_str` into a
/// `serde_json::Value`, indexes it by `key` and takes `Value::as_str` of
/// that. Its result is named, not stated: JSON's grammar is not written
/// out here.
#[verifier::external_body]
fn string_member_of(body: &str, key: &str) -> (field: Option<String>)
    ensures
        field.deep_view() == json_string_member(body@, key@),
{
    match serde_json::from_str::<serde_json::Value>(body) {
        Ok(v) => match v[key].as_str() {
            Some(s) => Some(s.to_string()),
            None => None,
        },
        Err(_) => None,
    }
}

/// The backend's own explanation in a refused reply's body (see
/// [`json_error_field`]).
fn error_field_of(body: &str) -> (field: Option<String>)
    ensures
        field.deep_view() == json_error_field(body@),
{
    string_member_of(body, "error")
}

/// The message for a refused reply: the backend's own explanation where
/// it gave one, else `fallback` followed by the status code.
pub open spec fn failure_message_spec(
    explanation: Option<Seq<char>>,
    fallback: Seq<char>,
    status: u16,
) -> Seq<char> {
    match explanation {
        Some(e) => e,
        None => fallback + decimal(status as nat),
    }
}

/// The message for a refused reply, given the explanation taken from its
/// body (if any), the text to fall back on and the status code.
pub fn failure_message(explanation: Option<String>, fallback: &str, status: u16) -> (msg: String)
    ensures
        msg@ == failure_message_spec(explanation.deep_view(), fallback@, status),
{
    match explanation {
        Some(e) => e,
        None => {
            let mut msg = owned(fallback);
            let code = to_decimal(status as usize);
            msg.append(code.as_str());
            msg
        },
    }
}

/// The message shown when a request is refused: the `"error"` member of
/// the JSON body, else "Request failed with status {status}".
pub fn request_error(status: u16, body: &str) -> (msg: String)
    ensures
        msg@ == failure_message_spec(
            json_error_field(body@),
            "Request failed with status "@,
            status,
        ),
{
    failure_message(error_field_of(body), "Request failed with status ", status)
}

/// The message shown when a training request is refused: the `"error"`
/// member of the JSON body, else "Training failed with status {status}".
pub fn training_request_error(status: u16, body: &str) -> (msg: String)
    ensures
        msg@ == failure_message_spec(
            json_error_field(body@),
            "Training failed with status "@,
            status,
        ),
{
    failure_message(error_field_of(body), "Training failed with status ", status)
}

/// Whether a status code is a success: `Response::ok` in the Fetch
/// standard holds exactly for the codes 200 to 299.
pub open spec fn is_success_status(status: u16) -> bool {
    200 <= status <= 299
}

/// Every status from 200 to 299 is a success, and no other is: the Fetch
/// `ok` flag.
pub proof fn law_success_is_2xx(status: u16)
    ensures
        is_success_status(status) <==> (200 <= status && status <= 299),
        200 <= status <= 299 ==> is_success_status(status),
        status < 200 ==> !is_success_status(status),
        status > 299 ==> !is_success_status(status),
{
}

/// What a reply with the given status and body amounts to: `Ok` where the
/// status is a success, else the message to show.
pub fn check_reply(status: u16, body: &str) -> (r: Result<(), String>)
    ensures
        r is Ok <==> is_success_status(status),
        200 <= status && status <= 299 ==> r is Ok,
        status < 200 || 299 < status ==> r is Err,
        r matches Err(msg) ==> msg@ == failure_message_spec(
            json_error_field(body@),
            "Request failed with status "@,
            status,
        ),
{
    if 200 <= status && status <= 299 {
        Ok(())
    } else {
        Err(request_error(status, body))
    }
}

} // verus!
