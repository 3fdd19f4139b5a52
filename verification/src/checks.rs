//! The input checks and naming rules that the commands apply around a job.
use crate::domain::{Asset, AudioRequest, GatewayProfile, ImageRequest};
use crate::text::{decimal_spec, decimal_text, is_blank, join2, join3, owned, str_eq, str_is_blank};
use crate::outside::{new_uuid_v4, to_lowercase, unicode_lowercase, utc_now_rfc3339};
use crate::validation::text_or_empty;
use vstd::prelude::*;
use vstd::string::*;

verus! {

broadcast use vstd::string::group_string_axioms;

/// Checks a speech-synthesis request before a job starts: it must be of
/// kind "tts" and have text that is not blank.
pub fn check_tts_input(request: &AudioRequest) -> (r: Result<(), String>)
    ensures
        (request.kind@ != "tts"@ || is_blank(text_or_empty(request.text))) ==> (r matches Err(e)
            && e@ == "请输入需要合成的文本"@),
        !(request.kind@ != "tts"@ || is_blank(text_or_empty(request.text))) ==> r is Ok,
{
    let blank = match &request.text {
        Some(t) => str_is_blank(t.as_str()),
        None => true,
    };
    if !str_eq(request.kind.as_str(), "tts") || blank {
        Err(owned("请输入需要合成的文本"))
    } else {
        Ok(())
    }
}

/// Checks a transcription request before a job starts: it must be of kind
/// "stt" and name a file that is not blank.
pub fn check_stt_input(request: &AudioRequest) -> (r: Result<(), String>)
    ensures
        (request.kind@ != "stt"@ || is_blank(text_or_empty(request.source_file_name))) ==> (r matches Err(e)
            && e@ == "请先选择音频或视频文件"@),
        !(request.kind@ != "stt"@ || is_blank(text_or_empty(request.source_file_name))) ==> r is Ok,
{
    let blank = match &request.source_file_name {
        Some(t) => str_is_blank(t.as_str()),
        None => true,
    };
    if !str_eq(request.kind.as_str(), "stt") || blank {
        Err(owned("请先选择音频或视频文件"))
    } else {
        Ok(())
    }
}

/// Checks an image request before a job starts: the prompt must not be
/// blank and from one to four images may be asked for.
pub fn check_image_input(request: &ImageRequest) -> (r: Result<(), String>)
    ensures
        is_blank(request.prompt@) ==> (r matches Err(e) && e@ == "请输入图片描述"@),
        !is_blank(request.prompt@) && (request.count == 0 || request.count > 4) ==> (r matches Err(e)
            && e@ == "图片数量必须在 1 到 4 张之间"@),
        !is_blank(request.prompt@) && 1 <= request.count <= 4 ==> r is Ok,
{
    if str_is_blank(request.prompt.as_str()) {
        return Err(owned("请输入图片描述"));
    }
    if request.count == 0 || request.count > 4 {
        return Err(owned("图片数量必须在 1 到 4 张之间"));
    }
    Ok(())
}

/// Checks that an API key to store is not blank.
pub fn check_api_key(secret: &str) -> (r: Result<(), String>)
    ensures
        is_blank(secret@) ==> (r matches Err(e) && e@ == "VALIDATION_FAILED: API key is empty"@),
        !is_blank(secret@) ==> r is Ok,
{
    if str_is_blank(secret) {
        Err(owned("VALIDATION_FAILED: API key is empty"))
    } else {
        Ok(())
    }
}

/// The file extension, and the format named to the gateway, of an audio
/// request's output: its format in lower case.
pub fn audio_extension(request: &AudioRequest) -> (r: String)
    ensures
        r@ == unicode_lowercase(request.format@),
{
    to_lowercase(request.format.as_str())
}

/// Checks that a gateway profile may take requests: it must be enabled.
pub fn check_profile_enabled(profile: &GatewayProfile) -> (r: Result<(), String>)
    ensures
        !profile.enabled ==> (r matches Err(e) && e@
            == "GATEWAY_DISABLED: gateway profile is disabled"@),
        profile.enabled ==> r is Ok,
{
    if profile.enabled {
        Ok(())
    } else {
        Err(owned("GATEWAY_DISABLED: gateway profile is disabled"))
    }
}

/// The reference under which a profile's API key is kept.
pub fn api_key_reference(profile_id: &str) -> (r: String)
    ensures
        r@ == "system-keychain:"@ + profile_id@,
{
    join2("system-keychain:", profile_id)
}

/// The MIME type of synthesized speech saved with extension `extension`.
pub fn speech_mime(extension: &str) -> (r: &'static str)
    ensures
        r@ == (if extension@ == "wav"@ {
            "audio/wav"@
        } else {
            "audio/mpeg"@
        }),
{
    if str_eq(extension, "wav") {
        "audio/wav"
    } else {
        "audio/mpeg"
    }
}

/// What a transcript is saved as for extension `extension`: the gateway's
/// raw answer when JSON is asked for and the answer is not empty, else the
/// transcript text; with its MIME type.
pub open spec fn transcript_output_spec(extension: Seq<char>, text: Seq<char>, raw: Seq<char>) -> (
    Seq<char>,
    Seq<char>,
) {
    (
        if extension == "json"@ && raw.len() > 0 {
            raw
        } else {
            text
        },
        if extension == "json"@ {
            "application/json"@
        } else {
            "text/plain"@
        },
    )
}

/// What a transcript is saved as, and its MIME type.
pub fn transcript_output(extension: &str, text: String, raw: String) -> (r: (String, &'static str))
    ensures
        (r.0@, r.1@) == transcript_output_spec(extension@, text@, raw@),
{
    let json = str_eq(extension, "json");
    let content = if json && raw.as_str().unicode_len() > 0 {
        raw
    } else {
        text
    };
    let mime = if json {
        "application/json"
    } else {
        "text/plain"
    };
    (content, mime)
}

/// The lower-case hexadecimal digit for `d` (0 to 15).
pub open spec fn hex_char(d: u128) -> char {
    if d < 10 {
        ((d + 48) as u32) as char
    } else {
        ((d + 87) as u32) as char
    }
}

/// The position among the 32 hexadecimal digits of the character at
/// position `p` of the hyphenated form, or -1 for a hyphen.
pub open spec fn hex_position(p: int) -> int {
    if p < 8 {
        p
    } else if p == 8 {
        -1
    } else if p < 13 {
        p - 1
    } else if p == 13 {
        -1
    } else if p < 18 {
        p - 2
    } else if p == 18 {
        -1
    } else if p < 23 {
        p - 3
    } else if p == 23 {
        -1
    } else {
        p - 4
    }
}

/// The `k`-th hexadecimal digit of `u`, from the most significant.
pub open spec fn nibble(u: u128, k: int) -> u128 {
    (u >> ((124 - 4 * k) as u128)) & 0xf
}

/// The hyphenated lower-case text of a UUID (8-4-4-4-12 digits).
pub open spec fn uuid_text_spec(u: u128) -> Seq<char> {
    Seq::new(
        36,
        |p: int|
            if hex_position(p) < 0 {
                '-'
            } else {
                hex_char(nibble(u, hex_position(p)))
            },
    )
}

fn hex_digit(d: u128) -> (c: char)
    requires
        d < 16,
    ensures
        c == hex_char(d),
{
    if d < 10 {
        ((d as u8) + 48) as char
    } else {
        ((d as u8) + 87) as char
    }
}

/// The hyphenated lower-case text of a UUID, as its `Display` form.
pub fn uuid_text(u: u128) -> (r: String)
    ensures
        r@ == uuid_text_spec(u),
{
    let mut s = String::new();
    let mut p: usize = 0;
    while p < 36
        invariant
            p <= 36,
            s@ == uuid_text_spec(u).take(p as int),
        decreases 36 - p,
    {
        let c = if p == 8 || p == 13 || p == 18 || p == 23 {
            '-'
        } else {
            let k: usize = if p < 8 {
                p
            } else if p < 13 {
                p - 1
            } else if p < 18 {
                p - 2
            } else if p < 23 {
                p - 3
            } else {
                p - 4
            };
            let shift: u128 = (124 - 4 * k) as u128;
            let d = (u >> shift) & 0xf;
            assert(d < 16) by (bit_vector)
                requires
                    d == (u >> shift) & 0xf,
            ;
            hex_digit(d)
        };
        s.push(c);
        assert(uuid_text_spec(u).take(p as int + 1) =~= uuid_text_spec(u).take(p as int).push(c));
        p = p + 1;
    }
    assert(uuid_text_spec(u).take(36) =~= uuid_text_spec(u));
    s
}

/// The 32 lower-case hexadecimal digits of a UUID, without hyphens.
pub open spec fn uuid_simple_spec(u: u128) -> Seq<char> {
    Seq::new(32, |k: int| hex_char(nibble(u, k)))
}

/// The 32 lower-case hexadecimal digits of a UUID, as its `simple` form.
pub fn uuid_simple_text(u: u128) -> (r: String)
    ensures
        r@ == uuid_simple_spec(u),
{
    let mut s = String::new();
    let mut k: usize = 0;
    while k < 32
        invariant
            k <= 32,
            s@ == uuid_simple_spec(u).take(k as int),
        decreases 32 - k,
    {
        let shift: u128 = (124 - 4 * k) as u128;
        let d = (u >> shift) & 0xf;
        assert(d < 16) by (bit_vector)
            requires
                d == (u >> shift) & 0xf,
        ;
        let c = hex_digit(d);
        s.push(c);
        assert(uuid_simple_spec(u).take(k as int + 1) =~= uuid_simple_spec(u).take(k as int).push(c));
        k = k + 1;
    }
    assert(uuid_simple_spec(u).take(32) =~= uuid_simple_spec(u));
    s
}

/// Whether `u` has the version (4) and variant bits of a random UUID.
pub open spec fn is_v4(u: u128) -> bool {
    u & 0xF000_C000_0000_0000_0000u128 == 0x4000_8000_0000_0000_0000u128
}

/// The text of a fresh random UUID, hyphenated, as an id that ties the
/// events of one exchange together.
pub fn fresh_uuid_text() -> (r: String)
    ensures
        exists|u: u128| is_v4(u) && r@ == uuid_text_spec(u),
{
    let u = new_uuid_v4();
    let r = uuid_text(u);
    assert(is_v4(u) && r@ == uuid_text_spec(u));
    r
}

/// A multipart boundary: `prefix` followed by the digits of a fresh random
/// UUID.
pub fn form_boundary(prefix: &str) -> (r: String)
    ensures
        exists|u: u128| is_v4(u) && r@ == prefix@ + uuid_simple_spec(u),
{
    let u = new_uuid_v4();
    let digits = uuid_simple_text(u);
    let r = join2(prefix, digits.as_str());
    assert(is_v4(u) && r@ == prefix@ + uuid_simple_spec(u));
    r
}

/// The record of a media file that a job produced, created now, with no
/// thumbnail and not a favorite.
pub fn new_asset(
    id: String,
    job_id: u128,
    kind: &str,
    mime_type: &str,
    local_path: String,
    size_bytes: u64,
) -> (r: Asset)
    ensures
        r == (Asset {
            id,
            job_id: Some(job_id),
            kind: r.kind,
            mime_type: r.mime_type,
            local_path,
            thumbnail_path: None,
            size_bytes,
            favorite: false,
            created_at: r.created_at,
        }),
        r.kind@ == kind@,
        r.mime_type@ == mime_type@,
{
    Asset {
        id,
        job_id: Some(job_id),
        kind: owned(kind),
        mime_type: owned(mime_type),
        local_path,
        thumbnail_path: None,
        size_bytes,
        favorite: false,
        created_at: utc_now_rfc3339(),
    }
}

/// The id of the asset that a job produced.
pub fn asset_id_for(job_id: u128) -> (r: String)
    ensures
        r@ == "asset_"@ + uuid_text_spec(job_id),
{
    let t = uuid_text(job_id);
    join2("asset_", t.as_str())
}

/// The id of the `index`-th image (counting from zero) that a job produced:
/// numbered from one.
pub fn image_asset_id(job_id: u128, index: u64) -> (r: String)
    requires
        index < u64::MAX,
    ensures
        r@ == "asset_"@ + uuid_text_spec(job_id) + "_"@ + decimal_spec((index + 1) as nat),
{
    let t = uuid_text(job_id);
    let n = decimal_text(index + 1);
    let mut s = join3("asset_", t.as_str(), "_");
    s.append(n.as_str());
    s
}

} // verus!
