use lingjing::adapters::{adapter_for, ProtocolAdapter};
use lingjing::domain::GatewayProfile;

fn profile(protocol: &str) -> GatewayProfile {
    GatewayProfile {
        id: protocol.into(),
        name: protocol.into(),
        base_url: "https://example.test".into(),
        protocol: protocol.into(),
        api_key_ref: format!("key:{protocol}"),
        enabled: true,
        is_default: false,
        created_at: None,
        updated_at: None,
    }
}

#[test]
fn registry_selects_each_supported_protocol() {
    assert_eq!(
        ProtocolAdapter::from_profile(&profile("newapi")),
        ProtocolAdapter::NewApi
    );
    assert_eq!(
        ProtocolAdapter::from_profile(&profile("sub2api")),
        ProtocolAdapter::Sub2Api
    );
    assert_eq!(
        ProtocolAdapter::from_profile(&profile("grok2api")),
        ProtocolAdapter::Grok2Api
    );
    assert_eq!(
        ProtocolAdapter::from_profile(&profile("custom")),
        ProtocolAdapter::Custom
    );
    assert_eq!(
        ProtocolAdapter::from_profile(&profile("unknown")),
        ProtocolAdapter::OpenAiCompatible
    );
    assert_eq!(ProtocolAdapter::NewApi.video_endpoint("sora-2"), "videos");
    assert_eq!(
        ProtocolAdapter::NewApi.video_endpoint("kling-v2"),
        "video/generations"
    );
}

#[test]
fn protocol_names_ignore_ascii_case() {
    assert_eq!(
        ProtocolAdapter::from_profile(&profile("NewAPI")),
        ProtocolAdapter::NewApi
    );
    assert_eq!(adapter_for(&profile("SUB2API")), ProtocolAdapter::Sub2Api);
    assert_eq!(
        ProtocolAdapter::from_profile(&profile("openai-compatible")),
        ProtocolAdapter::OpenAiCompatible
    );
    assert_eq!(
        ProtocolAdapter::from_profile(&profile("")),
        ProtocolAdapter::OpenAiCompatible
    );
}

#[test]
fn endpoints_follow_the_adapter() {
    assert_eq!(ProtocolAdapter::NewApi.endpoint("chat/completions"), "v1/chat/completions");
    assert_eq!(ProtocolAdapter::Sub2Api.endpoint("models"), "v1/models");
    assert_eq!(ProtocolAdapter::OpenAiCompatible.endpoint("chat/completions"), "chat/completions");
    assert_eq!(ProtocolAdapter::Grok2Api.endpoint("images"), "images");
    assert_eq!(ProtocolAdapter::Custom.endpoint(""), "");
    assert_eq!(ProtocolAdapter::NewApi.video_endpoint("SORA-2-pro"), "videos");
    assert_eq!(ProtocolAdapter::Custom.video_endpoint("kling-v2"), "videos");
    assert_eq!(ProtocolAdapter::Sub2Api.video_endpoint("kling-v2"), "videos");
}
