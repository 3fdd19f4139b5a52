//! Video jobs at a gateway: the request form, and the reading of the
//! status documents that gateways answer with.
use crate::checks::{asset_id_for, uuid_text_spec};
use crate::domain::{AudioRequest, GenerationJob, JobStatus, VideoRequest};
use crate::http::opt_text;
use crate::outside::{base64_standard_decode, decode_base64_standard, to_lowercase, unicode_lowercase};
use crate::text::{
    chars_of, decimal_spec, decimal_text, ends_with_seq, find_seq, find_spec, join2, occurs_at,
    owned, starts_with_seq, str_eq, substring,
};
use vstd::prelude::*;
use vstd::string::*;
use vstd::utf8::encode_utf8;

verus! {

broadcast use vstd::string::group_string_axioms;

/// A field of a JSON document as the status reader sees it.
#[derive(Clone, Debug, PartialEq)]
pub enum JsonField {
    /// The document has no value there.
    Absent,
    /// A string.
    Text(String),
    /// A number, given as the bit pattern of the `f32` that its `f64`
    /// value converts to.
    Number(u32),
    /// Any other value.
    Other,
}

/// The candidate fields of a gateway's video status document, read at the
/// pointers that `video_status_pointers` gives, in the same order.
#[derive(Clone, Debug)]
pub struct VideoStatusPayload {
    pub id_fields: Vec<JsonField>,
    pub status_fields: Vec<JsonField>,
    pub progress_fields: Vec<JsonField>,
    pub url_fields: Vec<JsonField>,
    pub error_fields: Vec<JsonField>,
}

/// The JSON pointers at which a video status document is read, each list
/// in the order in which the fields are consulted (a top-level key `k` is
/// the pointer `/k`).
#[derive(Clone, Debug, PartialEq)]
pub struct VideoStatusPointers {
    pub id_fields: Vec<String>,
    pub status_fields: Vec<String>,
    pub progress_fields: Vec<String>,
    pub url_fields: Vec<String>,
    pub error_fields: Vec<String>,
}

/// The views of a list of texts.
pub open spec fn texts_view(v: Vec<String>) -> Seq<Seq<char>> {
    v@.map_values(|t: String| t@)
}

fn texts_of(items: &[&str]) -> (r: Vec<String>)
    ensures
        r@.len() == items@.len(),
        forall|i: int| 0 <= i < items@.len() ==> #[trigger] r@[i]@ == items@[i]@,
{
    let mut out: Vec<String> = Vec::new();
    for i in 0..items.len()
        invariant
            out@.len() == i,
            forall|j: int| 0 <= j < i ==> #[trigger] out@[j]@ == items@[j]@,
    {
        out.push(owned(items[i]));
    }
    out
}

/// Where a gateway's video status document is read: the id at `/id`,
/// `/job_id`, `/task_id`, `/data/id`, `/job/id`; the status at `/status`,
/// `/data/status`, `/job/status`; the progress at `/progress`,
/// `/data/progress`, `/job/progress`; the result URL at `/url`,
/// `/video_url`, `/output/url`, `/output/video_url`, `/data/url`,
/// `/data/output/url`; the error at `/error`, `/message`, `/data/error`.
pub fn video_status_pointers() -> (r: VideoStatusPointers)
    ensures
        texts_view(r.id_fields) == seq!["/id"@, "/job_id"@, "/task_id"@, "/data/id"@, "/job/id"@],
        texts_view(r.status_fields) == seq!["/status"@, "/data/status"@, "/job/status"@],
        texts_view(r.progress_fields) == seq!["/progress"@, "/data/progress"@, "/job/progress"@],
        texts_view(r.url_fields) == seq![
            "/url"@,
            "/video_url"@,
            "/output/url"@,
            "/output/video_url"@,
            "/data/url"@,
            "/data/output/url"@,
        ],
        texts_view(r.error_fields) == seq!["/error"@, "/message"@, "/data/error"@],
{
    let r = VideoStatusPointers {
        id_fields: texts_of(&["/id", "/job_id", "/task_id", "/data/id", "/job/id"]),
        status_fields: texts_of(&["/status", "/data/status", "/job/status"]),
        progress_fields: texts_of(&["/progress", "/data/progress", "/job/progress"]),
        url_fields: texts_of(
            &["/url", "/video_url", "/output/url", "/output/video_url", "/data/url", "/data/output/url"],
        ),
        error_fields: texts_of(&["/error", "/message", "/data/error"]),
    };
    assert(texts_view(r.id_fields) =~= seq!["/id"@, "/job_id"@, "/task_id"@, "/data/id"@, "/job/id"@]);
    assert(texts_view(r.status_fields) =~= seq!["/status"@, "/data/status"@, "/job/status"@]);
    assert(texts_view(r.progress_fields) =~= seq!["/progress"@, "/data/progress"@, "/job/progress"@]);
    assert(texts_view(r.url_fields) =~= seq![
        "/url"@,
        "/video_url"@,
        "/output/url"@,
        "/output/video_url"@,
        "/data/url"@,
        "/data/output/url"@,
    ]);
    assert(texts_view(r.error_fields) =~= seq!["/error"@, "/message"@, "/data/error"@]);
    r
}

/// A remote video job's state.
#[derive(Clone, Debug, PartialEq)]
pub struct RemoteVideoStatus {
    pub remote_id: String,
    /// The status, in lower case.
    pub status: String,
    /// The bit pattern of the `f32` progress.
    pub progress_bits: u32,
    pub result_url: Option<String>,
    pub error_message: Option<String>,
}

/// The first field that the document has.
pub open spec fn first_present(fields: Seq<JsonField>) -> JsonField
    decreases fields.len(),
{
    if fields.len() == 0 {
        JsonField::Absent
    } else if fields[0] is Absent {
        first_present(fields.drop_first())
    } else {
        fields[0]
    }
}

/// The text of a field that is a string.
pub open spec fn field_text(f: JsonField) -> Option<Seq<char>> {
    match f {
        JsonField::Text(s) => Some(s@),
        _ => None,
    }
}

/// The number of a field that is a number.
pub open spec fn field_number(f: JsonField) -> Option<u32> {
    match f {
        JsonField::Number(b) => Some(b),
        _ => None,
    }
}

/// The bit pattern of the `f32` value 100.0.
pub open spec fn full_progress_bits() -> u32 {
    0x42C8_0000
}

/// The first field that the document has.
pub fn first_present_field(fields: &Vec<JsonField>) -> (r: &JsonField)
    ensures
        first_present(fields@) == if *r is Absent {
            JsonField::Absent
        } else {
            *r
        },
{
    let n = fields.len();
    let mut i: usize = 0;
    assert(fields@.subrange(0, n as int) == fields@);
    while i < n
        invariant
            n == fields@.len(),
            i <= n,
            first_present(fields@) == first_present(fields@.subrange(i as int, n as int)),
        decreases n - i,
    {
        assert(fields@.subrange(i as int, n as int)[0] == fields@[i as int]);
        assert(fields@.subrange(i as int, n as int).drop_first() == fields@.subrange(
            i as int + 1,
            n as int,
        ));
        match &fields[i] {
            JsonField::Absent => {},
            _ => {
                return &fields[i];
            },
        }
        i = i + 1;
    }
    &ABSENT_FIELD
}

/// A field that the document does not have.
pub const ABSENT_FIELD: JsonField = JsonField::Absent;

/// The text of the first field that the document has, when it is a string.
pub fn first_text(fields: &Vec<JsonField>) -> (r: Option<String>)
    ensures
        opt_text(r) == field_text(first_present(fields@)),
{
    match first_present_field(fields) {
        JsonField::Text(s) => Some(s.clone()),
        _ => None,
    }
}

/// The status that `assemble_video_status` reports for a document whose
/// id is `remote_id` and whose lower-cased status is `status`.
pub open spec fn assembled(
    payload: VideoStatusPayload,
    remote_id: Seq<char>,
    status: Seq<char>,
    r: RemoteVideoStatus,
) -> bool {
    &&& r.remote_id@ == remote_id
    &&& r.status@ == status
    &&& r.progress_bits == match field_number(first_present(payload.progress_fields@)) {
        Some(b) => b,
        None => if status == "succeeded"@ || status == "completed"@ {
            full_progress_bits()
        } else {
            0
        },
    }
    &&& opt_text(r.result_url) == field_text(first_present(payload.url_fields@))
    &&& opt_text(r.error_message) == field_text(first_present(payload.error_fields@))
}

/// A remote video status from a document's id, its lower-cased status and
/// the rest of its fields; a document without a progress number reports
/// full progress once succeeded or completed, and none before.
pub fn assemble_video_status(payload: &VideoStatusPayload, remote_id: String, status: String) -> (r:
    RemoteVideoStatus)
    ensures
        assembled(*payload, remote_id@, status@, r),
{
    let progress_bits = match first_present_field(&payload.progress_fields) {
        JsonField::Number(b) => *b,
        _ => {
            if str_eq(status.as_str(), "succeeded") || str_eq(status.as_str(), "completed") {
                0x42C8_0000u32
            } else {
                0u32
            }
        },
    };
    RemoteVideoStatus {
        remote_id,
        status,
        progress_bits,
        result_url: first_text(&payload.url_fields),
        error_message: first_text(&payload.error_fields),
    }
}

/// The raw status text of a document: its first status field when that
/// is a string, else "queued".
pub open spec fn raw_status(payload: VideoStatusPayload) -> Seq<char> {
    match field_text(first_present(payload.status_fields@)) {
        Some(s) => s,
        None => "queued"@,
    }
}

/// Reads a gateway's video status document: the id is required and must be
/// a string; the status is lower-cased and defaults to "queued".
pub fn parse_video_status(payload: &VideoStatusPayload) -> (r: Result<RemoteVideoStatus, String>)
    ensures
        field_text(first_present(payload.id_fields@)) is None ==> (r matches Err(e) && e@
            == "GATEWAY_INVALID_RESPONSE: video id missing"@),
        field_text(first_present(payload.id_fields@)) matches Some(id) ==> (r matches Ok(s)
            && assembled(*payload, id, unicode_lowercase(raw_status(*payload)), s)),
        field_text(first_present(payload.id_fields@)) is Some && field_number(
            first_present(payload.progress_fields@),
        ) is None && (unicode_lowercase(raw_status(*payload)) == "completed"@ || unicode_lowercase(
            raw_status(*payload),
        ) == "succeeded"@) ==> (r matches Ok(s) && s.progress_bits == 0x42C8_0000u32),
{
    let remote_id = match first_text(&payload.id_fields) {
        Some(id) => id,
        None => {
            return Err(owned("GATEWAY_INVALID_RESPONSE: video id missing"));
        },
    };
    let raw = match first_text(&payload.status_fields) {
        Some(s) => s,
        None => owned("queued"),
    };
    let status = to_lowercase(raw.as_str());
    Ok(assemble_video_status(payload, remote_id, status))
}

/// The job status that a remote video status stands for.
pub open spec fn job_status_for_remote_spec(status: Seq<char>) -> JobStatus {
    if status == "succeeded"@ || status == "completed"@ || status == "success"@ {
        JobStatus::Succeeded
    } else if status == "failed"@ || status == "error"@ {
        JobStatus::Failed
    } else if status == "canceled"@ || status == "cancelled"@ {
        JobStatus::Canceled
    } else {
        JobStatus::Running
    }
}

/// The job status that a remote video status stands for; any status not
/// known to be final counts as running.
pub fn job_status_for_remote(status: &str) -> (r: JobStatus)
    ensures
        r == job_status_for_remote_spec(status@),
{
    if str_eq(status, "succeeded") || str_eq(status, "completed") || str_eq(status, "success") {
        JobStatus::Succeeded
    } else if str_eq(status, "failed") || str_eq(status, "error") {
        JobStatus::Failed
    } else if str_eq(status, "canceled") || str_eq(status, "cancelled") {
        JobStatus::Canceled
    } else {
        JobStatus::Running
    }
}

/// The frame size that a video request asks for: portrait and square
/// ratios have their own sizes; otherwise "1080p" asks for 1920x1080 and
/// anything else for 1280x720.
pub open spec fn video_dimensions_spec(aspect_ratio: Option<Seq<char>>, resolution: Option<
    Seq<char>,
>) -> (u32, u32) {
    if aspect_ratio == Some("9:16"@) {
        (720, 1280)
    } else if aspect_ratio == Some("1:1"@) {
        (1024, 1024)
    } else if resolution == Some("1080p"@) {
        (1920, 1080)
    } else {
        (1280, 720)
    }
}

/// The size label for a frame size.
pub open spec fn size_label_spec(width: u32, height: u32) -> Seq<char> {
    if width == 720 && height == 1280 {
        "720x1280"@
    } else if width == 1024 && height == 1024 {
        "1024x1024"@
    } else if width == 1920 && height == 1080 {
        "1920x1080"@
    } else {
        "1280x720"@
    }
}

/// The frame size of a video request.
pub fn video_dimensions(request: &VideoRequest) -> (r: (u32, u32))
    ensures
        r == video_dimensions_spec(opt_text(request.aspect_ratio), opt_text(request.resolution)),
{
    if crate::http::opt_is(&request.aspect_ratio, "9:16") {
        (720, 1280)
    } else if crate::http::opt_is(&request.aspect_ratio, "1:1") {
        (1024, 1024)
    } else if crate::http::opt_is(&request.resolution, "1080p") {
        (1920, 1080)
    } else {
        (1280, 720)
    }
}

/// The size label for a frame size.
pub fn size_label(width: u32, height: u32) -> (r: &'static str)
    ensures
        r@ == size_label_spec(width, height),
{
    if width == 720 && height == 1280 {
        "720x1280"
    } else if width == 1024 && height == 1024 {
        "1024x1024"
    } else if width == 1920 && height == 1080 {
        "1920x1080"
    } else {
        "1280x720"
    }
}

/// The length that a video request asks for, in seconds: its duration,
/// else its extension, else six.
pub open spec fn video_seconds_spec(request: VideoRequest) -> u32 {
    match request.duration_sec {
        Some(d) => d,
        None => match request.extension_duration_sec {
            Some(e) => e,
            None => 6,
        },
    }
}

/// The length that a video request asks for, in seconds.
pub fn video_seconds(request: &VideoRequest) -> (r: u32)
    ensures
        r == video_seconds_spec(*request),
{
    match request.duration_sec {
        Some(d) => d,
        None => match request.extension_duration_sec {
            Some(e) => e,
            None => 6,
        },
    }
}

/// A data URL split at its first ',': the header and the encoded payload.
pub open spec fn data_url_parts(image: Seq<char>) -> Option<(Seq<char>, Seq<char>)> {
    match find_spec(image, ","@) {
        Some(i) => Some((image.subrange(0, i), image.subrange(i + 1, image.len() as int))),
        None => None,
    }
}

/// The MIME type of a data URL header "data:<type>;base64", or "image/png"
/// for any other header.
pub open spec fn data_url_mime(header: Seq<char>) -> Seq<char> {
    if starts_with_seq(header, "data:"@) && ends_with_seq(header.subrange(5, header.len() as int), ";base64"@) {
        header.subrange(5, header.len() - 7)
    } else {
        "image/png"@
    }
}

/// Splits a data URL at its first ',' into its MIME type and its encoded
/// payload; `None` when it has no ','.
pub fn split_data_url(image: &str) -> (r: Option<(String, String)>)
    ensures
        match data_url_parts(image@) {
            Some((header, encoded)) => r matches Some((mime, payload)) && mime@ == data_url_mime(
                header,
            ) && payload@ == encoded,
            None => r is None,
        },
{
    proof {
        reveal_strlit(",");
        reveal_strlit("data:");
        reveal_strlit(";base64");
    }
    let cs = chars_of(image);
    let comma = chars_of(",");
    match find_seq(&cs, &comma) {
        Some(i) => {
            let header = substring(&cs, 0, i);
            let total = cs.len();
            assert(comma@.len() == 1);
            assert(i + 1 <= total);
            let payload = substring(&cs, i + 1, total);
            let hs = chars_of(header.as_str());
            let prefix = chars_of("data:");
            let suffix = chars_of(";base64");
            let n = hs.len();
            let mime = if n >= 12 && crate::text::occurs_at_exec(&hs, &prefix, 0)
                && crate::text::occurs_at_exec(&hs, &suffix, n - 7) {
                proof {
                    assert(hs@.subrange(5, n as int).subrange(n - 5 - 7, n - 5) =~= hs@.subrange(
                        n - 7,
                        n as int,
                    ));
                }
                substring(&hs, 5, n - 7)
            } else {
                proof {
                    if starts_with_seq(hs@, "data:"@) && ends_with_seq(
                        hs@.subrange(5, hs@.len() as int),
                        ";base64"@,
                    ) {
                        assert(hs@.subrange(5, n as int).subrange(n - 5 - 7, n - 5) =~= hs@.subrange(
                            n - 7,
                            n as int,
                        ));
                    }
                }
                owned("image/png")
            };
            Some((mime, payload))
        },
        None => None,
    }
}

/// `buf` followed by the UTF-8 bytes of `s`.
pub fn push_text(buf: &mut Vec<u8>, s: &str)
    ensures
        final(buf)@ == old(buf)@ + encode_utf8(s@),
{
    let bytes = s.as_bytes();
    let ghost before = buf@;
    buf.extend_from_slice(bytes);
    assert(buf@ =~= before + encode_utf8(s@));
}

/// `buf` followed by `bytes`.
pub fn push_bytes(buf: &mut Vec<u8>, bytes: &[u8])
    ensures
        final(buf)@ == old(buf)@ + bytes@,
{
    let ghost before = buf@;
    buf.extend_from_slice(bytes);
    assert(buf@ =~= before + bytes@);
}

/// The text of one form field of a video request.
pub open spec fn video_field_text(boundary: Seq<char>, name: Seq<char>, value: Seq<char>) -> Seq<
    char,
> {
    "--"@ + boundary + "\r\nContent-Disposition: form-data; name=\""@ + name + "\"\r\n\r\n"@ + value
        + "\r\n"@
}

/// The text of the form fields model, prompt, seconds and size.
pub open spec fn video_fields_text(boundary: Seq<char>, request: VideoRequest, size: Seq<char>) -> Seq<
    char,
> {
    video_field_text(boundary, "model"@, request.model_id@) + video_field_text(
        boundary,
        "prompt"@,
        request.prompt@,
    ) + video_field_text(boundary, "seconds"@, decimal_spec(video_seconds_spec(request) as nat))
        + video_field_text(boundary, "size"@, size)
}

/// The text that introduces the reference image part.
pub open spec fn reference_header_text(boundary: Seq<char>, mime: Seq<char>) -> Seq<char> {
    "--"@ + boundary
        + "\r\nContent-Disposition: form-data; name=\"input_reference\"; filename=\"reference.png\"\r\nContent-Type: "@
        + mime + "\r\n\r\n"@
}

/// The multipart body of a video request with an optional reference image
/// (its MIME type and bytes).
pub open spec fn video_form_spec(
    boundary: Seq<char>,
    request: VideoRequest,
    size: Seq<char>,
    reference: Option<(Seq<char>, Seq<u8>)>,
) -> Seq<u8> {
    encode_utf8(video_fields_text(boundary, request, size)) + match reference {
        Some((mime, bytes)) => encode_utf8(reference_header_text(boundary, mime)) + bytes
            + encode_utf8("\r\n"@),
        None => Seq::<u8>::empty(),
    } + encode_utf8("--"@ + boundary + "--\r\n"@)
}

/// The text of one form field of a video request.
pub fn video_field(boundary: &str, name: &str, value: &str) -> (r: String)
    ensures
        r@ == video_field_text(boundary@, name@, value@),
{
    let mut s = owned("--");
    s.append(boundary);
    s.append("\r\nContent-Disposition: form-data; name=\"");
    s.append(name);
    s.append("\"\r\n\r\n");
    s.append(value);
    s.append("\r\n");
    s
}

/// The multipart body of a video request whose reference image, if any,
/// is already decoded.
pub fn video_form_body_with(
    boundary: &str,
    request: &VideoRequest,
    size: &str,
    reference: Option<(&str, &[u8])>,
) -> (r: Vec<u8>)
    ensures
        r@ == video_form_spec(
            boundary@,
            *request,
            size@,
            match reference {
                Some((m, b)) => Some((m@, b@)),
                None => None,
            },
        ),
{
    let seconds = decimal_text(video_seconds(request) as u64);
    let mut text = video_field(boundary, "model", request.model_id.as_str());
    let f2 = video_field(boundary, "prompt", request.prompt.as_str());
    text.append(f2.as_str());
    let f3 = video_field(boundary, "seconds", seconds.as_str());
    text.append(f3.as_str());
    let f4 = video_field(boundary, "size", size);
    text.append(f4.as_str());
    let mut body: Vec<u8> = Vec::new();
    push_text(&mut body, text.as_str());
    let ghost fields = body@;
    match reference {
        Some((mime, bytes)) => {
            let mut header = owned("--");
            header.append(boundary);
            header.append(
                "\r\nContent-Disposition: form-data; name=\"input_reference\"; filename=\"reference.png\"\r\nContent-Type: ",
            );
            header.append(mime);
            header.append("\r\n\r\n");
            push_text(&mut body, header.as_str());
            push_bytes(&mut body, bytes);
            push_text(&mut body, "\r\n");
        },
        None => {},
    }
    let mut tail = owned("--");
    tail.append(boundary);
    tail.append("--\r\n");
    push_text(&mut body, tail.as_str());
    proof {
        let refpart = match reference {
            Some((m, b)) => encode_utf8(reference_header_text(boundary@, m@)) + b@ + encode_utf8(
                "\r\n"@,
            ),
            None => Seq::<u8>::empty(),
        };
        assert(body@ =~= fields + refpart + encode_utf8("--"@ + boundary@ + "--\r\n"@));
    }
    body
}

/// The multipart body of a video request: the fields model, prompt,
/// seconds and size, then, when `image_data` is a data URL with a ',', its
/// payload decoded from base64 as the reference image.
pub fn video_form_body(boundary: &str, request: &VideoRequest, image_data: Option<&str>) -> (r:
    Result<Vec<u8>, String>)
    ensures
        ({
            let size = size_label_spec(
                video_dimensions_spec(opt_text(request.aspect_ratio), opt_text(request.resolution)).0,
                video_dimensions_spec(opt_text(request.aspect_ratio), opt_text(request.resolution)).1,
            );
            match image_data {
                Some(image) => match data_url_parts(image@) {
                    Some((header, encoded)) => match base64_standard_decode(encoded) {
                        Ok(bytes) => r matches Ok(body) && body@ == video_form_spec(
                            boundary@,
                            *request,
                            size,
                            Some((data_url_mime(header), bytes)),
                        ),
                        Err(e) => r matches Err(m) && m@
                            == "VALIDATION_FAILED: invalid reference image: "@ + e,
                    },
                    None => r matches Ok(body) && body@ == video_form_spec(
                        boundary@,
                        *request,
                        size,
                        None,
                    ),
                },
                None => r matches Ok(body) && body@ == video_form_spec(
                    boundary@,
                    *request,
                    size,
                    None,
                ),
            }
        }),
{
    let (width, height) = video_dimensions(request);
    let size = size_label(width, height);
    match image_data {
        Some(image) => match split_data_url(image) {
            Some((mime, encoded)) => match decode_base64_standard(encoded.as_str()) {
                Ok(bytes) => Ok(
                    video_form_body_with(boundary, request, size, Some((mime.as_str(), bytes.as_slice()))),
                ),
                Err(e) => Err(join2("VALIDATION_FAILED: invalid reference image: ", e.as_str())),
            },
            None => Ok(video_form_body_with(boundary, request, size, None)),
        },
        None => Ok(video_form_body_with(boundary, request, size, None)),
    }
}

/// The text of one form field of a transcription request, as the client
/// writes it: with the two-character sequences `\r\n` and `\"` in place of
/// line breaks and quotes.
pub open spec fn transcription_field_text(boundary: Seq<char>, name: Seq<char>, value: Seq<char>) -> Seq<
    char,
> {
    "--"@ + boundary + "\\r\\nContent-Disposition: form-data; name=\\\""@ + name
        + "\\\"\\r\\n\\r\\n"@ + value + "\\r\\n"@
}

/// The multipart body of a transcription request for the audio `bytes`.
pub open spec fn transcription_form_spec(
    boundary: Seq<char>,
    request: AudioRequest,
    bytes: Seq<u8>,
) -> Seq<u8> {
    let fields = transcription_field_text(boundary, "model"@, request.model_id@)
        + transcription_field_text(boundary, "response_format"@, unicode_lowercase(request.format@))
        + match request.language {
        Some(l) => transcription_field_text(boundary, "language"@, l@),
        None => Seq::<char>::empty(),
    };
    let file_name = match request.source_file_name {
        Some(n) => n@,
        None => "audio.bin"@,
    };
    encode_utf8(
        fields + "--"@ + boundary
            + "\\r\\nContent-Disposition: form-data; name=\\\"file\\\"; filename=\\\""@ + file_name
            + "\\\"\\r\\nContent-Type: application/octet-stream\\r\\n\\r\\n"@,
    ) + bytes + encode_utf8("\\r\\n--"@ + boundary + "--\\r\\n"@)
}

/// The text of one form field of a transcription request.
pub fn transcription_field(boundary: &str, name: &str, value: &str) -> (r: String)
    ensures
        r@ == transcription_field_text(boundary@, name@, value@),
{
    let mut s = owned("--");
    s.append(boundary);
    s.append("\\r\\nContent-Disposition: form-data; name=\\\"");
    s.append(name);
    s.append("\\\"\\r\\n\\r\\n");
    s.append(value);
    s.append("\\r\\n");
    s
}

/// The multipart body of a transcription request: the fields model,
/// response_format (the requested format in lower case) and, when given,
/// language, then the audio file.
pub fn transcription_form_body(boundary: &str, request: &AudioRequest, bytes: &[u8]) -> (r: Vec<u8>)
    ensures
        r@ == transcription_form_spec(boundary@, *request, bytes@),
        request.source_file_name matches Some(n) ==> exists|i: int|
            0 <= i && i + encode_utf8("filename=\\\""@ + n@ + "\\\""@).len() <= r@.len()
                && #[trigger] r@.subrange(
                i,
                i + encode_utf8("filename=\\\""@ + n@ + "\\\""@).len(),
            ) == encode_utf8("filename=\\\""@ + n@ + "\\\""@),
{
    let format = to_lowercase(request.format.as_str());
    let mut text = transcription_field(boundary, "model", request.model_id.as_str());
    let f2 = transcription_field(boundary, "response_format", format.as_str());
    text.append(f2.as_str());
    match &request.language {
        Some(language) => {
            let f3 = transcription_field(boundary, "language", language.as_str());
            text.append(f3.as_str());
        },
        None => {},
    }
    text.append("--");
    text.append(boundary);
    text.append("\\r\\nContent-Disposition: form-data; name=\\\"file\\\"; filename=\\\"");
    match &request.source_file_name {
        Some(n) => text.append(n.as_str()),
        None => text.append("audio.bin"),
    }
    text.append("\\\"\\r\\nContent-Type: application/octet-stream\\r\\n\\r\\n");
    let mut body: Vec<u8> = Vec::new();
    push_text(&mut body, text.as_str());
    push_bytes(&mut body, bytes);
    let mut tail = owned("\\r\\n--");
    tail.append(boundary);
    tail.append("--\\r\\n");
    push_text(&mut body, tail.as_str());
    proof {
        let fields = transcription_field_text(boundary@, "model"@, request.model_id@)
            + transcription_field_text(boundary@, "response_format"@, unicode_lowercase(request.format@))
            + match &request.language {
            Some(l) => transcription_field_text(boundary@, "language"@, l@),
            None => Seq::<char>::empty(),
        };
        let file_name = match &request.source_file_name {
            Some(n) => n@,
            None => "audio.bin"@,
        };
        assert(text@ =~= fields + "--"@ + boundary@
            + "\\r\\nContent-Disposition: form-data; name=\\\"file\\\"; filename=\\\""@ + file_name
            + "\\\"\\r\\nContent-Type: application/octet-stream\\r\\n\\r\\n"@);
        if request.source_file_name is Some {
            crate::laws::law_transcription_form_names_the_file(boundary@, *request, bytes@);
        }
    }
    body
}

/// What polling a remote video job leads to: the job's new status,
/// progress and error message, and, once it succeeded, the URL to download
/// and the id of the asset to save it as.
#[derive(Clone, Debug, PartialEq)]
pub struct PollOutcome {
    pub status: JobStatus,
    pub progress_bits: u32,
    pub error_message: Option<String>,
    pub download: Option<(String, String)>,
}

/// What polling a remote video job leads to, given the job and the
/// gateway's status: a succeeded job must come with a result URL.
pub fn poll_outcome(job: &GenerationJob, remote: &RemoteVideoStatus) -> (r: Result<PollOutcome, String>)
    ensures
        ({
            let status = job_status_for_remote_spec(remote.status@);
            if status == JobStatus::Succeeded {
                match remote.result_url {
                    Some(url) => {
                        &&& r is Ok
                        &&& r->Ok_0.status == status
                        &&& r->Ok_0.progress_bits == remote.progress_bits
                        &&& r->Ok_0.error_message == remote.error_message
                        &&& r->Ok_0.download is Some
                        &&& r->Ok_0.download->Some_0.0@ == url@
                        &&& r->Ok_0.download->Some_0.1@ == "asset_"@ + uuid_text_spec(job.id)
                    },
                    None => {
                        &&& r is Err
                        &&& r->Err_0@ == "GATEWAY_INVALID_RESPONSE: video result URL missing"@
                    },
                }
            } else {
                &&& r is Ok
                &&& r->Ok_0.status == status
                &&& r->Ok_0.progress_bits == remote.progress_bits
                &&& r->Ok_0.error_message == remote.error_message
                &&& r->Ok_0.download is None
            }
        }),
{
    let status = job_status_for_remote(remote.status.as_str());
    let error_message = crate::domain::copy_opt(&remote.error_message);
    match status {
        JobStatus::Succeeded => match &remote.result_url {
            Some(url) => Ok(
                PollOutcome {
                    status,
                    progress_bits: remote.progress_bits,
                    error_message,
                    download: Some((url.clone(), asset_id_for(job.id))),
                },
            ),
            None => Err(owned("GATEWAY_INVALID_RESPONSE: video result URL missing")),
        },
        _ => Ok(PollOutcome { status, progress_bits: remote.progress_bits, error_message, download: None }),
    }
}

} // verus!
