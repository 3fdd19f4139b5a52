//! How each gateway protocol names its endpoints.
use crate::domain::GatewayProfile;
use crate::text::{ascii_lower_seq, contains_seq, to_ascii_lowercase, str_eq, join2, owned, contains_str};
use vstd::prelude::*;

verus! {

/// The wire dialect of a gateway.
#[derive(Debug, Clone, Copy, PartialEq, Eq, Structural)]
pub enum ProtocolAdapter {
    OpenAiCompatible,
    NewApi,
    Sub2Api,
    Grok2Api,
    Custom,
}

/// The adapter that a protocol name selects, compared without regard to
/// ASCII case; an unknown name selects the OpenAI-compatible dialect.
pub open spec fn adapter_for_protocol(protocol: Seq<char>) -> ProtocolAdapter {
    let p = ascii_lower_seq(protocol);
    if p == "newapi"@ {
        ProtocolAdapter::NewApi
    } else if p == "sub2api"@ {
        ProtocolAdapter::Sub2Api
    } else if p == "grok2api"@ {
        ProtocolAdapter::Grok2Api
    } else if p == "custom"@ {
        ProtocolAdapter::Custom
    } else {
        ProtocolAdapter::OpenAiCompatible
    }
}

/// The path of endpoint `name` under an adapter.
pub open spec fn endpoint_spec(adapter: ProtocolAdapter, name: Seq<char>) -> Seq<char> {
    match adapter {
        ProtocolAdapter::NewApi | ProtocolAdapter::Sub2Api => "v1/"@ + name,
        _ => name,
    }
}

/// The video endpoint for a model under an adapter.
pub open spec fn video_endpoint_spec(adapter: ProtocolAdapter, model_id: Seq<char>) -> Seq<char> {
    match adapter {
        ProtocolAdapter::NewApi => if contains_seq(ascii_lower_seq(model_id), "sora"@) {
            "videos"@
        } else {
            "video/generations"@
        },
        _ => "videos"@,
    }
}

impl ProtocolAdapter {
    /// The adapter that the profile's protocol names.
    pub fn from_profile(profile: &GatewayProfile) -> (r: Self)
        ensures
            r == adapter_for_protocol(profile.protocol@),
    {
        let lower = to_ascii_lowercase(profile.protocol.as_str());
        if str_eq(lower.as_str(), "newapi") {
            ProtocolAdapter::NewApi
        } else if str_eq(lower.as_str(), "sub2api") {
            ProtocolAdapter::Sub2Api
        } else if str_eq(lower.as_str(), "grok2api") {
            ProtocolAdapter::Grok2Api
        } else if str_eq(lower.as_str(), "custom") {
            ProtocolAdapter::Custom
        } else {
            ProtocolAdapter::OpenAiCompatible
        }
    }

    /// The path of endpoint `name`: NewAPI and Sub2API put it under `v1/`.
    pub fn endpoint(self, name: &str) -> (r: String)
        ensures
            r@ == endpoint_spec(self, name@),
    {
        match self {
            ProtocolAdapter::NewApi | ProtocolAdapter::Sub2Api => join2("v1/", name),
            _ => owned(name),
        }
    }

    /// The video endpoint: NewAPI serves Sora models under `videos` and
    /// other models under `video/generations`; every other adapter uses
    /// `videos`.
    pub fn video_endpoint(self, model_id: &str) -> (r: &'static str)
        ensures
            r@ == video_endpoint_spec(self, model_id@),
            self != ProtocolAdapter::NewApi ==> r@ == "videos"@,
    {
        match self {
            ProtocolAdapter::NewApi => {
                let lower = to_ascii_lowercase(model_id);
                if contains_str(lower.as_str(), "sora") {
                    "videos"
                } else {
                    "video/generations"
                }
            },
            _ => "videos",
        }
    }
}

/// The adapter for a profile.
pub fn adapter_for(profile: &GatewayProfile) -> (r: ProtocolAdapter)
    ensures
        r == adapter_for_protocol(profile.protocol@),
{
    ProtocolAdapter::from_profile(profile)
}

} // verus!
