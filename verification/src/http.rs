//! The decisions of the gateway transport: where a request goes, what an
//! HTTP status means, and how request fields map to the gateway's terms.
use crate::adapters::{adapter_for_protocol, endpoint_spec, video_endpoint_spec, ProtocolAdapter};
use crate::domain::{AudioRequest, GatewayProfile};
use crate::outside::{base64_standard_decode, decode_base64_standard, json_string_at, json_text_at};
use crate::validation::text_or_empty;
use vstd::utf8::encode_utf8;
use crate::text::{
    decimal_spec, decimal_text, join2, join3, owned, starts_with_seq, starts_with_str, str_eq,
    trim_end_char, trim_end_char_seq,
};
use vstd::prelude::*;

verus! {

/// The URL of endpoint `endpoint` under a gateway's base URL: the base
/// without trailing '/' characters, a '/', then the endpoint.
pub open spec fn gateway_url_spec(base_url: Seq<char>, endpoint: Seq<char>) -> Seq<char> {
    trim_end_char_seq(base_url, '/') + "/"@ + endpoint
}

/// The URL of endpoint `endpoint` of a gateway.
pub fn gateway_url(profile: &GatewayProfile, endpoint: &str) -> (r: String)
    ensures
        r@ == gateway_url_spec(profile.base_url@, endpoint@),
{
    let base = trim_end_char(profile.base_url.as_str(), '/');
    join3(base.as_str(), "/", endpoint)
}

/// The URL that lists a gateway's models.
pub fn models_url(profile: &GatewayProfile) -> (r: String)
    ensures
        r@ == gateway_url_spec(profile.base_url@, "models"@),
{
    gateway_url(profile, "models")
}

/// A gateway whose base URL starts with "mock://" is served locally.
pub open spec fn is_mock_gateway_spec(base_url: Seq<char>) -> bool {
    starts_with_seq(base_url, "mock://"@)
}

/// Whether the gateway is the local mock.
pub fn is_mock_gateway(profile: &GatewayProfile) -> (r: bool)
    ensures
        r == is_mock_gateway_spec(profile.base_url@),
{
    starts_with_str(profile.base_url.as_str(), "mock://")
}

/// The message for an HTTP status that the gateway answered with: a
/// server error, a rate limit, or another failure.
pub open spec fn status_error_spec(status: u16) -> Seq<char> {
    if 500 <= status && status <= 599 {
        "GATEWAY_5XX: HTTP "@ + decimal_spec(status as nat)
    } else if status == 429 {
        "RATE_LIMITED: gateway rate limit"@
    } else {
        "GATEWAY_HTTP: HTTP "@ + decimal_spec(status as nat)
    }
}

/// The message for an unsuccessful HTTP status.
pub fn status_error(status: u16) -> (r: String)
    ensures
        r@ == status_error_spec(status),
{
    if 500 <= status && status <= 599 {
        let code = decimal_text(status as u64);
        join2("GATEWAY_5XX: HTTP ", code.as_str())
    } else if status == 429 {
        owned("RATE_LIMITED: gateway rate limit")
    } else {
        let code = decimal_text(status as u64);
        join2("GATEWAY_HTTP: HTTP ", code.as_str())
    }
}

/// The message for a download answered with an unsuccessful status.
pub fn download_status_error(status: u16) -> (r: String)
    ensures
        r@ == "DOWNLOAD_FAILED: HTTP "@ + decimal_spec(status as nat),
{
    let code = decimal_text(status as u64);
    join2("DOWNLOAD_FAILED: HTTP ", code.as_str())
}

/// The API key to send: none when it is missing or empty.
pub fn usable_api_key(api_key: Option<&str>) -> (r: Option<&str>)
    ensures
        r == (match api_key {
            Some(k) => if k@.len() > 0 {
                Some(k)
            } else {
                None
            },
            None => None,
        }),
{
    match api_key {
        Some(k) => {
            if k.unicode_len() > 0 {
                Some(k)
            } else {
                None
            }
        },
        None => None,
    }
}

/// The image size that the gateway is asked for: widescreen and portrait
/// ratios have their own sizes, "2k" resolution asks for 2048 square, and
/// anything else for 1024 square.
pub open spec fn image_size_spec(aspect_ratio: Option<Seq<char>>, resolution: Option<Seq<char>>) -> Seq<
    char,
> {
    if aspect_ratio == Some("16:9"@) {
        "1792x1024"@
    } else if aspect_ratio == Some("9:16"@) {
        "1024x1792"@
    } else if resolution == Some("2k"@) {
        "2048x2048"@
    } else {
        "1024x1024"@
    }
}

/// The view of an optional text.
pub open spec fn opt_text(s: Option<String>) -> Option<Seq<char>> {
    match s {
        Some(t) => Some(t@),
        None => None,
    }
}

/// Whether an optional text is `Some(value)`.
pub fn opt_is(s: &Option<String>, value: &str) -> (r: bool)
    ensures
        r == (opt_text(*s) == Some(value@)),
{
    match s {
        Some(t) => str_eq(t.as_str(), value),
        None => false,
    }
}

/// The image size for a request's aspect ratio and resolution.
pub fn image_size(aspect_ratio: &Option<String>, resolution: &Option<String>) -> (r: &'static str)
    ensures
        r@ == image_size_spec(opt_text(*aspect_ratio), opt_text(*resolution)),
{
    if opt_is(aspect_ratio, "16:9") {
        "1792x1024"
    } else if opt_is(aspect_ratio, "9:16") {
        "1024x1792"
    } else if opt_is(resolution, "2k") {
        "2048x2048"
    } else {
        "1024x1024"
    }
}

/// The models that the local mock gateway lists.
pub open spec fn mock_models() -> Seq<Seq<char>> {
    seq!["gpt-4.1"@, "grok-imagine-image-2.0"@, "grok-imagine-video"@, "mock-audio"@]
}

/// The models that the local mock gateway lists.
pub fn mock_model_list() -> (r: Vec<String>)
    ensures
        r@.len() == mock_models().len(),
        forall|i: int| 0 <= i < r@.len() ==> #[trigger] r@[i]@ == mock_models()[i],
{
    let mut v: Vec<String> = Vec::new();
    v.push(owned("gpt-4.1"));
    v.push(owned("grok-imagine-image-2.0"));
    v.push(owned("grok-imagine-video"));
    v.push(owned("mock-audio"));
    v
}

/// What an HTTP status of a gateway's answer means: 401 is a rejected
/// key, any other status outside 200 to 299 is an error, and the rest is
/// success.
pub open spec fn gateway_status_spec(status: u16) -> Result<(), Seq<char>> {
    if status == 401 {
        Err("AUTH_INVALID: gateway rejected API key"@)
    } else if !(200 <= status && status <= 299) {
        Err(status_error_spec(status))
    } else {
        Ok(())
    }
}

/// What an HTTP status of a gateway's answer means.
pub fn check_gateway_status(status: u16) -> (r: Result<(), String>)
    ensures
        crate::validation::outcome_view(r) == gateway_status_spec(status),
{
    if status == 401 {
        Err(owned("AUTH_INVALID: gateway rejected API key"))
    } else if !(200 <= status && status <= 299) {
        Err(status_error(status))
    } else {
        Ok(())
    }
}

/// What the answer to cancelling a remote video means: success, or a job
/// the gateway no longer knows (404), is a cancellation.
pub fn cancel_outcome(status: u16) -> (r: Result<(), String>)
    ensures
        crate::validation::outcome_view(r) == (if (200 <= status && status <= 299) || status
            == 404 {
            Ok::<(), Seq<char>>(())
        } else {
            Err(status_error_spec(status))
        }),
{
    if (200 <= status && status <= 299) || status == 404 {
        Ok(())
    } else {
        Err(status_error(status))
    }
}

/// The URL of a gateway's chat completions endpoint.
pub fn chat_completions_url(profile: &GatewayProfile) -> (r: String)
    ensures
        r@ == gateway_url_spec(
            profile.base_url@,
            endpoint_spec(adapter_for_protocol(profile.protocol@), "chat/completions"@),
        ),
{
    let endpoint = ProtocolAdapter::from_profile(profile).endpoint("chat/completions");
    gateway_url(profile, endpoint.as_str())
}

/// The URL of a remote video job, optionally followed by "/content".
pub fn remote_video_url(profile: &GatewayProfile, model_id: &str, remote_id: &str, content: bool) -> (r:
    String)
    ensures
        r@ == gateway_url_spec(
            profile.base_url@,
            video_endpoint_spec(adapter_for_protocol(profile.protocol@), model_id@) + "/"@ + remote_id@
                + if content {
                "/content"@
            } else {
                Seq::<char>::empty()
            },
        ),
{
    let endpoint = ProtocolAdapter::from_profile(profile).video_endpoint(model_id);
    let mut path = join3(endpoint, "/", remote_id);
    if content {
        path.append("/content");
    }
    proof {
        if !content {
            assert(path@ =~= path@ + Seq::<char>::empty());
        }
    }
    gateway_url(profile, path.as_str())
}

/// What the local mock gateway answers to speech synthesis: the text
/// "Mock speech: " and the request's text, as UTF-8.
pub fn mock_speech(request: &AudioRequest) -> (r: Vec<u8>)
    ensures
        r@ == encode_utf8("Mock speech: "@ + text_or_empty(request.text)),
{
    let text = match &request.text {
        Some(t) => join2("Mock speech: ", t.as_str()),
        None => owned("Mock speech: "),
    };
    proof {
        if request.text is None {
            assert("Mock speech: "@ + Seq::<char>::empty() =~= "Mock speech: "@);
        }
    }
    let bytes = text.as_str().as_bytes();
    vstd::slice::slice_to_vec(bytes)
}

/// What the local mock gateway answers to transcription.
pub fn mock_transcript(request: &AudioRequest) -> (r: String)
    ensures
        r@ == "Mock transcript for "@ + match request.source_file_name {
            Some(n) => n@,
            None => "audio"@,
        },
{
    match &request.source_file_name {
        Some(n) => join2("Mock transcript for ", n.as_str()),
        None => join2("Mock transcript for ", "audio"),
    }
}

/// The audio bytes of a transcription request, decoded from its base64
/// payload.
pub fn decode_audio_payload(request: &AudioRequest) -> (r: Result<Vec<u8>, String>)
    ensures
        request.source_file_base64 is None ==> (r matches Err(e) && e@
            == "VALIDATION_FAILED: audio file content is missing"@),
        request.source_file_base64 matches Some(p) ==> match base64_standard_decode(p@) {
            Ok(bytes) => r matches Ok(b) && b@ == bytes,
            Err(m) => r matches Err(e) && e@ == "VALIDATION_FAILED: invalid audio payload: "@ + m,
        },
{
    match &request.source_file_base64 {
        None => Err(owned("VALIDATION_FAILED: audio file content is missing")),
        Some(p) => match decode_base64_standard(p.as_str()) {
            Ok(bytes) => Ok(bytes),
            Err(m) => Err(join2("VALIDATION_FAILED: invalid audio payload: ", m.as_str())),
        },
    }
}

/// Where the bytes of one generated image come from.
#[derive(Clone, Debug, PartialEq)]
pub enum ImageSource {
    /// The image was sent inline, base64-encoded; these are its bytes.
    Inline(Vec<u8>),
    /// The image is to be downloaded from this URL.
    Download(String),
}

/// The source of one image result: its inline base64 data when present,
/// else its URL; an error when the data does not decode or there is
/// neither.
pub fn image_result_source(b64_json: &Option<String>, url: &Option<String>) -> (r: Result<
    ImageSource,
    String,
>)
    ensures
        match *b64_json {
            Some(p) => match base64_standard_decode(p@) {
                Ok(bytes) => (r matches Ok(ImageSource::Inline(b)) && b@ == bytes),
                Err(m) => (r matches Err(e) && e@ == "GATEWAY_INVALID_RESPONSE: "@ + m),
            },
            None => match *url {
                Some(u) => (r matches Ok(ImageSource::Download(d)) && d@ == u@),
                None => (r matches Err(e) && e@
                    == "GATEWAY_INVALID_RESPONSE: image result has no data"@),
            },
        },
{
    match b64_json {
        Some(p) => match decode_base64_standard(p.as_str()) {
            Ok(bytes) => Ok(ImageSource::Inline(bytes)),
            Err(m) => Err(join2("GATEWAY_INVALID_RESPONSE: ", m.as_str())),
        },
        None => match url {
            Some(u) => Ok(ImageSource::Download(u.clone())),
            None => Err(owned("GATEWAY_INVALID_RESPONSE: image result has no data")),
        },
    }
}

/// The transcript in a gateway's transcription answer: the string field
/// "text" of a JSON answer, or else the whole answer.
pub fn transcript_text(raw: &str) -> (r: String)
    ensures
        r@ == match json_text_at(raw@, "/text"@) {
            Ok(Some(t)) => t,
            _ => raw@,
        },
{
    match json_string_at(raw, "/text") {
        Ok(Some(t)) => t,
        _ => owned(raw),
    }
}

} // verus!
