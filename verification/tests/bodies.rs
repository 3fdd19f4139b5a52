use lingjing::bodies::{
    chat_completion_body, image_generation_body, speech_body, uses_form_body, video_json_body,
};
use lingjing::checks::{form_boundary, fresh_uuid_text, new_asset, uuid_simple_text};
use lingjing::domain::{AudioRequest, ImageRequest, VideoRequest};

#[test]
fn chat_bodies_carry_one_user_message() {
    let body = chat_completion_body("gpt-4.1", "hello");
    assert_eq!(body.model, "gpt-4.1");
    assert!(body.stream);
    assert_eq!(body.messages.len(), 1);
    assert_eq!(body.messages[0].role, "user");
    assert_eq!(body.messages[0].content, "hello");
}

#[test]
fn image_bodies_ask_for_inline_images_in_the_selected_size() {
    let request = ImageRequest {
        gateway_profile_id: "g".into(),
        model_id: "flux-pro".into(),
        prompt: "cat".into(),
        count: 2,
        aspect_ratio: Some("16:9".into()),
        resolution: None,
        quality: Some("hd".into()),
        reference_asset_ids: vec![],
    };
    let body = image_generation_body(&request);
    assert_eq!(body.model, "flux-pro");
    assert_eq!(body.prompt, "cat");
    assert_eq!(body.n, 2);
    assert_eq!(body.size, "1792x1024");
    assert_eq!(body.quality, Some("hd".into()));
    assert_eq!(body.response_format, "b64_json");
}

#[test]
fn speech_bodies_name_the_format_in_lower_case() {
    let request = AudioRequest {
        gateway_profile_id: "g".into(),
        model_id: "tts-1".into(),
        kind: "tts".into(),
        text: Some("hi".into()),
        source_file_name: None,
        source_file_base64: None,
        voice: Some("Aria".into()),
        language: None,
        format: "MP3".into(),
        speed_bits: Some(1.5f32.to_bits()),
    };
    let body = speech_body(&request);
    assert_eq!(body.model, "tts-1");
    assert_eq!(body.input, Some("hi".into()));
    assert_eq!(body.voice, Some("Aria".into()));
    assert_eq!(body.response_format, "mp3");
    assert_eq!(body.speed_bits, Some(1.5f32.to_bits()));
}

fn video(duration: Option<u32>, extension: Option<u32>) -> VideoRequest {
    VideoRequest {
        gateway_profile_id: "g".into(),
        model_id: "veo-3".into(),
        operation: "generate".into(),
        prompt: "waves".into(),
        source_video_asset_id: None,
        first_frame_asset_id: Some("asset-1".into()),
        reference_image_asset_ids: vec!["r1".into(), "r2".into()],
        reference_voice_ids: vec!["v1".into()],
        duration_sec: duration,
        extension_duration_sec: extension,
        aspect_ratio: Some("9:16".into()),
        resolution: None,
    }
}

#[test]
fn video_bodies_fall_back_to_the_extension_duration() {
    let body = video_json_body(&video(None, Some(4)), Some("data:image/png;base64,AA=="));
    assert_eq!(body.model, "veo-3");
    assert_eq!(body.prompt, "waves");
    assert_eq!(body.image.as_deref(), Some("data:image/png;base64,AA=="));
    assert_eq!(body.duration, Some(4));
    assert_eq!((body.width, body.height), (720, 1280));
    assert_eq!(body.response_format, "url");
    assert_eq!(body.metadata.operation, "generate");
    assert_eq!(body.metadata.size, "720x1280");
    assert_eq!(body.metadata.aspect_ratio, Some("9:16".into()));
    assert_eq!(body.metadata.first_frame_asset_id, Some("asset-1".into()));
    assert_eq!(body.metadata.reference_image_asset_ids, vec!["r1".to_string(), "r2".to_string()]);
    assert_eq!(body.metadata.reference_voice_ids, vec!["v1".to_string()]);
    assert_eq!(video_json_body(&video(Some(8), Some(4)), None).duration, Some(8));
    assert_eq!(video_json_body(&video(None, None), None).image, None);
}

#[test]
fn only_the_videos_endpoint_takes_a_form() {
    assert!(uses_form_body("videos"));
    assert!(!uses_form_body("video/generations"));
}

#[test]
fn boundaries_and_correlation_ids_are_fresh_uuids() {
    let boundary = form_boundary("----X");
    assert!(boundary.starts_with("----X"));
    let digits = &boundary["----X".len()..];
    assert_eq!(digits.len(), 32);
    assert!(digits.chars().all(|c| c.is_ascii_hexdigit() && !c.is_ascii_uppercase()));
    assert_eq!(&digits[12..13], "4");
    assert_ne!(form_boundary("----X"), boundary);
    let id = fresh_uuid_text();
    assert_eq!(id.len(), 36);
    assert_eq!(&id[14..15], "4");
    assert_eq!(uuid_simple_text(0x1234_5678_9abc_4def_8000_0000_0000_0001), "123456789abc4def8000000000000001");
}

#[test]
fn new_assets_are_plain_records() {
    let asset = new_asset("asset_1".into(), 5, "image", "image/png", "/data/a.png".into(), 12);
    assert_eq!(asset.id, "asset_1");
    assert_eq!(asset.job_id, Some(5));
    assert_eq!(asset.kind, "image");
    assert_eq!(asset.mime_type, "image/png");
    assert_eq!(asset.local_path, "/data/a.png");
    assert_eq!(asset.thumbnail_path, None);
    assert_eq!(asset.size_bytes, 12);
    assert!(!asset.favorite);
    assert!(asset.created_at.contains('T'));
    assert!(asset.created_at.ends_with('Z'));
}
