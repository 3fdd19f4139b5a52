//! The JSON request bodies sent to a gateway, as plain records: which
//! fields each request carries and what goes in them.
use crate::domain::{AudioRequest, ImageRequest, VideoRequest};
use crate::domain::copy_opt;
use crate::http::{image_size, image_size_spec, opt_text};
use crate::outside::{to_lowercase, unicode_lowercase};
use crate::text::{owned, str_eq};
use crate::video::{size_label, size_label_spec, video_dimensions, video_dimensions_spec};
use vstd::prelude::*;

verus! {

/// One message of a chat completion request.
#[derive(Clone, Debug, PartialEq)]
pub struct ChatMessageBody {
    pub role: String,
    pub content: String,
}

/// The body of a streamed chat completion request.
#[derive(Clone, Debug, PartialEq)]
pub struct ChatCompletionBody {
    pub model: String,
    pub stream: bool,
    pub messages: Vec<ChatMessageBody>,
}

/// The streamed chat completion request for one user message.
pub fn chat_completion_body(model_id: &str, content: &str) -> (r: ChatCompletionBody)
    ensures
        r.model@ == model_id@,
        r.stream,
        r.messages@.len() == 1,
        r.messages@[0].role@ == "user"@,
        r.messages@[0].content@ == content@,
{
    let mut messages: Vec<ChatMessageBody> = Vec::new();
    messages.push(ChatMessageBody { role: owned("user"), content: owned(content) });
    ChatCompletionBody { model: owned(model_id), stream: true, messages }
}

/// The body of an image generation request.
#[derive(Clone, Debug, PartialEq)]
pub struct ImageGenerationBody {
    pub model: String,
    pub prompt: String,
    pub n: u32,
    pub size: String,
    pub quality: Option<String>,
    pub response_format: String,
}

/// The image generation request for `request`: images asked for inline, in
/// the size that its aspect ratio and resolution select.
pub fn image_generation_body(request: &ImageRequest) -> (r: ImageGenerationBody)
    ensures
        r.model@ == request.model_id@,
        r.prompt@ == request.prompt@,
        r.n == request.count,
        r.size@ == image_size_spec(opt_text(request.aspect_ratio), opt_text(request.resolution)),
        r.quality == request.quality,
        r.response_format@ == "b64_json"@,
{
    ImageGenerationBody {
        model: request.model_id.clone(),
        prompt: request.prompt.clone(),
        n: request.count,
        size: owned(image_size(&request.aspect_ratio, &request.resolution)),
        quality: copy_opt(&request.quality),
        response_format: owned("b64_json"),
    }
}

/// The body of a speech synthesis request.
#[derive(Clone, Debug, PartialEq)]
pub struct SpeechBody {
    pub model: String,
    pub input: Option<String>,
    pub voice: Option<String>,
    pub response_format: String,
    /// The bit pattern of the `f32` speed.
    pub speed_bits: Option<u32>,
}

/// The speech synthesis request for `request`: its text, voice and speed,
/// and its format in lower case.
pub fn speech_body(request: &AudioRequest) -> (r: SpeechBody)
    ensures
        r.model@ == request.model_id@,
        r.input == request.text,
        r.voice == request.voice,
        r.response_format@ == unicode_lowercase(request.format@),
        r.speed_bits == request.speed_bits,
{
    SpeechBody {
        model: request.model_id.clone(),
        input: copy_opt(&request.text),
        voice: copy_opt(&request.voice),
        response_format: to_lowercase(request.format.as_str()),
        speed_bits: request.speed_bits,
    }
}

/// What a video request tells the gateway besides its main fields.
#[derive(Clone, Debug, PartialEq)]
pub struct VideoMetadataBody {
    pub operation: String,
    pub size: String,
    pub aspect_ratio: Option<String>,
    pub resolution: Option<String>,
    pub first_frame_asset_id: Option<String>,
    pub reference_image_asset_ids: Vec<String>,
    pub reference_voice_ids: Vec<String>,
    pub source_video_asset_id: Option<String>,
}

/// The JSON body of a video generation request.
#[derive(Clone, Debug, PartialEq)]
pub struct VideoJsonBody {
    pub model: String,
    pub prompt: String,
    pub image: Option<String>,
    pub duration: Option<u32>,
    pub width: u32,
    pub height: u32,
    pub response_format: String,
    pub metadata: VideoMetadataBody,
}

fn copy_texts(v: &Vec<String>) -> (r: Vec<String>)
    ensures
        r@ == v@,
{
    let mut out: Vec<String> = Vec::new();
    for i in 0..v.len()
        invariant
            out@ == v@.take(i as int),
    {
        out.push(v[i].clone());
        assert(out@ =~= v@.take(i as int + 1));
    }
    assert(v@.take(v@.len() as int) =~= v@);
    out
}

/// Whether a video endpoint takes a multipart form rather than JSON.
pub fn uses_form_body(endpoint: &str) -> (r: bool)
    ensures
        r == (endpoint@ == "videos"@),
{
    str_eq(endpoint, "videos")
}

/// The JSON video generation request for `request`, with the first-frame
/// image data when there is one: the duration is the requested one, else
/// the extension's; width, height and size follow the aspect ratio and
/// resolution; the video is asked for as a URL.
pub fn video_json_body(request: &VideoRequest, image_data: Option<&str>) -> (r: VideoJsonBody)
    ensures
        r.model@ == request.model_id@,
        r.prompt@ == request.prompt@,
        match image_data {
            Some(d) => r.image matches Some(i) && i@ == d@,
            None => r.image is None,
        },
        r.duration == (match request.duration_sec {
            Some(d) => Some(d),
            None => request.extension_duration_sec,
        }),
        (r.width, r.height) == video_dimensions_spec(
            opt_text(request.aspect_ratio),
            opt_text(request.resolution),
        ),
        r.response_format@ == "url"@,
        r.metadata.operation@ == request.operation@,
        r.metadata.size@ == size_label_spec(r.width, r.height),
        r.metadata.aspect_ratio == request.aspect_ratio,
        r.metadata.resolution == request.resolution,
        r.metadata.first_frame_asset_id == request.first_frame_asset_id,
        r.metadata.reference_image_asset_ids@ == request.reference_image_asset_ids@,
        r.metadata.reference_voice_ids@ == request.reference_voice_ids@,
        r.metadata.source_video_asset_id == request.source_video_asset_id,
{
    let (width, height) = video_dimensions(request);
    let duration = match request.duration_sec {
        Some(d) => Some(d),
        None => request.extension_duration_sec,
    };
    let image = match image_data {
        Some(d) => Some(owned(d)),
        None => None,
    };
    VideoJsonBody {
        model: request.model_id.clone(),
        prompt: request.prompt.clone(),
        image,
        duration,
        width,
        height,
        response_format: owned("url"),
        metadata: VideoMetadataBody {
            operation: request.operation.clone(),
            size: owned(size_label(width, height)),
            aspect_ratio: copy_opt(&request.aspect_ratio),
            resolution: copy_opt(&request.resolution),
            first_frame_asset_id: copy_opt(&request.first_frame_asset_id),
            reference_image_asset_ids: copy_texts(&request.reference_image_asset_ids),
            reference_voice_ids: copy_texts(&request.reference_voice_ids),
            source_video_asset_id: copy_opt(&request.source_video_asset_id),
        },
    }
}

} // verus!
