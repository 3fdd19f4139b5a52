use lingjing::domain::{GatewayProfile, ImageRequest, JobKind, JobStatus, VideoRequest, AudioRequest};
use lingjing::registry::GatewayRegistry;

fn profile(id: &str, is_default: bool) -> GatewayProfile {
    GatewayProfile {
        id: id.into(),
        name: id.to_uppercase(),
        base_url: format!("mock://{id}"),
        protocol: "openai-compatible".into(),
        api_key_ref: format!("system-keychain:{id}"),
        enabled: true,
        is_default,
        created_at: None,
        updated_at: None,
    }
}

#[test]
fn default_registry_exposes_mock_profile_and_models() {
    let registry = GatewayRegistry::default();
    assert_eq!(registry.profiles()[0].id, "mock-default");
    assert!(registry
        .models("mock-default")
        .contains(&"grok-imagine-video".to_string()));
}

#[test]
fn default_can_be_changed() {
    let mut registry = GatewayRegistry::default();
    registry.create(GatewayProfile {
        id: "second".into(),
        name: "Second".into(),
        base_url: "mock://second".into(),
        protocol: "openai-compatible".into(),
        api_key_ref: "system-keychain:second".into(),
        enabled: true,
        is_default: false,
        created_at: None,
        updated_at: None,
    });
    registry.set_default("second");
    assert!(registry
        .profiles()
        .iter()
        .any(|profile| profile.id == "second" && profile.is_default));
}

#[test]
fn mock_profile_is_served_only_while_empty() {
    let mut registry = GatewayRegistry::default();
    let mock = registry.profile("mock-default").expect("mock profile");
    assert_eq!(mock, GatewayRegistry::mock_profile());
    assert_eq!(mock.base_url, "mock://local");
    assert_eq!(mock.created_at.as_deref(), Some("1970-01-01T00:00:00Z"));
    assert!(registry.profile("other").is_none());
    registry.create(profile("first", false));
    assert!(registry.profile("mock-default").is_none());
    assert_eq!(registry.profiles().len(), 1);
}

#[test]
fn created_profile_reads_back_and_delete_removes_it() {
    let mut registry = GatewayRegistry::default();
    registry.create(profile("a", false));
    registry.create(profile("b", false));
    assert_eq!(registry.profile("a"), Some(profile("a", false)));
    let mut changed = profile("a", false);
    changed.name = "Renamed".into();
    registry.update(changed.clone());
    assert_eq!(registry.profile("a"), Some(changed));
    assert_eq!(registry.profile("b"), Some(profile("b", false)));
    registry.delete("a");
    assert!(registry.profile("a").is_none());
    assert_eq!(registry.profiles(), vec![profile("b", false)]);
    registry.delete("missing");
    assert_eq!(registry.profiles().len(), 1);
}

#[test]
fn set_default_leaves_exactly_one_default() {
    let mut registry = GatewayRegistry::from_profiles(vec![
        profile("a", true),
        profile("b", true),
        profile("c", false),
    ]);
    registry.set_default("c");
    let profiles = registry.profiles();
    assert_eq!(profiles.len(), 3);
    assert_eq!(profiles.iter().filter(|p| p.is_default).count(), 1);
    assert!(registry.profile("c").unwrap().is_default);
    registry.set_default("nobody");
    assert_eq!(registry.profiles().iter().filter(|p| p.is_default).count(), 0);
}

#[test]
fn from_profiles_keeps_the_last_profile_per_id() {
    let mut later = profile("a", false);
    later.name = "Later".into();
    let registry = GatewayRegistry::from_profiles(vec![profile("a", false), profile("b", false), later.clone()]);
    assert_eq!(registry.profiles().len(), 2);
    assert_eq!(registry.profile("a"), Some(later));
}

#[test]
fn models_are_the_known_list() {
    let registry = GatewayRegistry::default();
    assert_eq!(
        registry.models("any"),
        vec!["gpt-4.1", "grok-imagine-image-2.0", "flux-pro", "gpt-image-1", "grok-imagine-video", "veo-3", "mock-audio"]
    );
}

#[test]
fn created_jobs_are_queued_with_a_version_four_id() {
    let registry = GatewayRegistry::default();
    let video = VideoRequest {
        gateway_profile_id: "mock-default".into(),
        model_id: "sora-2".into(),
        operation: "generate".into(),
        prompt: "a crane".into(),
        source_video_asset_id: None,
        first_frame_asset_id: None,
        reference_image_asset_ids: vec![],
        reference_voice_ids: vec![],
        duration_sec: Some(4),
        extension_duration_sec: None,
        aspect_ratio: None,
        resolution: None,
    };
    let job = registry.create_video_job(&video, "{\"prompt\":\"a crane\"}".into());
    assert_eq!(job.kind, JobKind::Video);
    assert_eq!(job.status, JobStatus::Queued);
    assert_eq!(job.operation.as_deref(), Some("generate"));
    assert_eq!(job.model_id.as_deref(), Some("sora-2"));
    assert_eq!(job.request_json, "{\"prompt\":\"a crane\"}");
    assert_eq!(job.progress_bits, 0.0f32.to_bits());
    assert_eq!((job.id >> 76) & 0xf, 4);
    assert!(!job.created_at.is_empty());
    assert!(job.created_at.ends_with('Z'));
    let other = registry.create_video_job(&video, String::new());
    assert_ne!(job.id, other.id);

    let image = ImageRequest {
        gateway_profile_id: "mock-default".into(),
        model_id: "gpt-image-1".into(),
        prompt: "p".into(),
        count: 1,
        aspect_ratio: None,
        resolution: None,
        quality: None,
        reference_asset_ids: vec![],
    };
    let job = registry.create_image_job(&image, String::new());
    assert_eq!(job.kind, JobKind::Image);
    assert_eq!(job.operation, None);

    let mut audio = AudioRequest {
        gateway_profile_id: "mock-default".into(),
        model_id: "mock-audio".into(),
        kind: "stt".into(),
        text: None,
        source_file_name: None,
        source_file_base64: None,
        voice: None,
        language: None,
        format: "TXT".into(),
        speed_bits: None,
    };
    assert_eq!(registry.create_audio_job(&audio, String::new()).kind, JobKind::Stt);
    audio.kind = "tts".into();
    assert_eq!(registry.create_audio_job(&audio, String::new()).kind, JobKind::Tts);
    audio.kind = "STT".into();
    assert_eq!(registry.create_audio_job(&audio, String::new()).kind, JobKind::Tts);
}
