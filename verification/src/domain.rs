//! The records that the client keeps about gateways, jobs, requests, chat
//! sessions and assets.
//!
//! Identifiers that are UUIDs are held as their 128-bit value, times as
//! RFC 3339 text, JSON documents as their text, and single-precision
//! quantities (job progress, speech speed) as the IEEE-754 bit pattern of the
//! `f32` value.
use vstd::prelude::*;

verus! {

/// What a generation job produces.
#[derive(Clone, Copy, Debug, PartialEq, Eq, Structural)]
pub enum JobKind {
    Chat,
    Image,
    Video,
    Tts,
    Stt,
}

/// Where a generation job stands.
#[derive(Clone, Copy, Debug, PartialEq, Eq, Structural)]
pub enum JobStatus {
    Queued,
    Running,
    Succeeded,
    Failed,
    Canceled,
    Stopped,
}

/// A configured AI gateway.
#[derive(Clone, Debug, PartialEq, Eq)]
pub struct GatewayProfile {
    pub id: String,
    pub name: String,
    pub base_url: String,
    pub protocol: String,
    pub api_key_ref: String,
    pub enabled: bool,
    pub is_default: bool,
    pub created_at: Option<String>,
    pub updated_at: Option<String>,
}

/// A copy of an optional text.
pub fn copy_opt(s: &Option<String>) -> (r: Option<String>)
    ensures
        r == *s,
{
    match s {
        Some(v) => Some(v.clone()),
        None => None,
    }
}

impl GatewayProfile {
    /// A field-for-field copy.
    pub fn duplicate(&self) -> (r: Self)
        ensures
            r == *self,
    {
        GatewayProfile {
            id: self.id.clone(),
            name: self.name.clone(),
            base_url: self.base_url.clone(),
            protocol: self.protocol.clone(),
            api_key_ref: self.api_key_ref.clone(),
            enabled: self.enabled,
            is_default: self.is_default,
            created_at: copy_opt(&self.created_at),
            updated_at: copy_opt(&self.updated_at),
        }
    }
}

/// A generation job.
#[derive(Clone, Debug, PartialEq, Eq)]
pub struct GenerationJob {
    /// The job's UUID as a 128-bit value.
    pub id: u128,
    pub gateway_profile_id: String,
    pub kind: JobKind,
    pub operation: Option<String>,
    pub model_id: Option<String>,
    pub status: JobStatus,
    /// The bit pattern of the `f32` progress, from 0 to 100.
    pub progress_bits: u32,
    /// The request, as JSON text.
    pub request_json: String,
    pub error_message: Option<String>,
    pub remote_job_id: Option<String>,
    /// The creation time, as RFC 3339 text.
    pub created_at: String,
}

impl GenerationJob {
    /// A field-for-field copy.
    pub fn duplicate(&self) -> (r: Self)
        ensures
            r == *self,
    {
        GenerationJob {
            id: self.id,
            gateway_profile_id: self.gateway_profile_id.clone(),
            kind: self.kind,
            operation: copy_opt(&self.operation),
            model_id: copy_opt(&self.model_id),
            status: self.status,
            progress_bits: self.progress_bits,
            request_json: self.request_json.clone(),
            error_message: copy_opt(&self.error_message),
            remote_job_id: copy_opt(&self.remote_job_id),
            created_at: self.created_at.clone(),
        }
    }
}

/// A request for a video.
#[derive(Clone, Debug, PartialEq, Eq)]
pub struct VideoRequest {
    pub gateway_profile_id: String,
    pub model_id: String,
    pub operation: String,
    pub prompt: String,
    pub source_video_asset_id: Option<String>,
    pub first_frame_asset_id: Option<String>,
    pub reference_image_asset_ids: Vec<String>,
    pub reference_voice_ids: Vec<String>,
    pub duration_sec: Option<u32>,
    pub extension_duration_sec: Option<u32>,
    pub aspect_ratio: Option<String>,
    pub resolution: Option<String>,
}

/// A request for images.
#[derive(Clone, Debug, PartialEq, Eq)]
pub struct ImageRequest {
    pub gateway_profile_id: String,
    pub model_id: String,
    pub prompt: String,
    pub count: u32,
    pub aspect_ratio: Option<String>,
    pub resolution: Option<String>,
    pub quality: Option<String>,
    pub reference_asset_ids: Vec<String>,
}

/// A request for speech synthesis (`kind` "tts") or transcription ("stt").
#[derive(Clone, Debug, PartialEq, Eq)]
pub struct AudioRequest {
    pub gateway_profile_id: String,
    pub model_id: String,
    pub kind: String,
    pub text: Option<String>,
    pub source_file_name: Option<String>,
    pub source_file_base64: Option<String>,
    pub voice: Option<String>,
    pub language: Option<String>,
    pub format: String,
    /// The bit pattern of the `f32` speech speed.
    pub speed_bits: Option<u32>,
}

/// A chat message to send.
#[derive(Clone, Debug, PartialEq, Eq)]
pub struct ChatSendInput {
    pub gateway_profile_id: String,
    pub model_id: String,
    pub session_id: String,
    pub content: String,
}

/// One message of a chat session.
#[derive(Clone, Debug, PartialEq, Eq)]
pub struct ChatMessage {
    pub id: String,
    pub role: String,
    pub content: String,
    pub status: String,
    pub created_at: String,
}

/// A chat session with its messages.
#[derive(Clone, Debug, PartialEq, Eq)]
pub struct ChatSession {
    pub id: String,
    pub title: String,
    pub model_id: String,
    pub gateway_profile_id: String,
    pub messages: Vec<ChatMessage>,
    pub created_at: String,
    pub updated_at: String,
}

/// A media file that a job produced.
#[derive(Clone, Debug, PartialEq, Eq)]
pub struct Asset {
    pub id: String,
    /// The UUID of the job that produced it, as a 128-bit value.
    pub job_id: Option<u128>,
    pub kind: String,
    pub mime_type: String,
    pub local_path: String,
    pub thumbnail_path: Option<String>,
    pub size_bytes: u64,
    pub favorite: bool,
    /// The creation time, as RFC 3339 text.
    pub created_at: String,
}

impl Asset {
    /// A field-for-field copy.
    pub fn duplicate(&self) -> (r: Self)
        ensures
            r == *self,
    {
        Asset {
            id: self.id.clone(),
            job_id: self.job_id,
            kind: self.kind.clone(),
            mime_type: self.mime_type.clone(),
            local_path: self.local_path.clone(),
            thumbnail_path: copy_opt(&self.thumbnail_path),
            size_bytes: self.size_bytes,
            favorite: self.favorite,
            created_at: self.created_at.clone(),
        }
    }
}

} // verus!
