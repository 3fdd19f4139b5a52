//! Checks that a request fits what its model can do, and the input checks
//! that the commands make before they start a job.
use crate::domain::{AudioRequest, ImageRequest};
use crate::outside::{base64_standard_decode, decode_base64_standard};
use crate::text::{
    ascii_lower_seq, chars_of, eq_ignore_ascii_case, eq_ignore_ascii_case_spec, find_seq,
    find_spec, is_blank, join2, owned, str_eq, str_is_blank, substring, to_ascii_lowercase,
};
use vstd::prelude::*;
use vstd::string::*;

verus! {

broadcast use vstd::string::group_string_axioms;

/// A JSON value read as a list of texts: `None` when the value is not an
/// array, and an element `None` when it is not a string.
pub type TextList = Option<Vec<Option<String>>>;

/// What a model offers for speech synthesis (the `tts` object).
#[derive(Clone, Debug)]
pub struct TtsCapabilities {
    pub voices: TextList,
    pub formats: TextList,
}

/// What a model offers for transcription (the `stt` object).
#[derive(Clone, Debug)]
pub struct SttCapabilities {
    pub formats: TextList,
    pub languages: TextList,
}

/// What a model offers for image generation (the `image` object).
#[derive(Clone, Debug)]
pub struct ImageCapabilities {
    /// `count.min` when it is an unsigned integer.
    pub count_min: Option<u64>,
    /// `count.max` when it is an unsigned integer.
    pub count_max: Option<u64>,
    /// `aspectRatios`.
    pub aspect_ratios: TextList,
    /// `resolutions`.
    pub resolutions: TextList,
    /// `qualities`.
    pub qualities: TextList,
    /// `supportsEdit` when it is a boolean.
    pub supports_edit: Option<bool>,
}

/// The capabilities of a model; a section is `None` when the document has
/// no such key.
#[derive(Clone, Debug)]
pub struct ModelCapabilities {
    pub tts: Option<TtsCapabilities>,
    pub stt: Option<SttCapabilities>,
    pub image: Option<ImageCapabilities>,
}

/// The view of a check's outcome.
pub open spec fn outcome_view(r: Result<(), String>) -> Result<(), Seq<char>> {
    match r {
        Ok(()) => Ok(()),
        Err(e) => Err(e@),
    }
}

/// The element is a text equal to `value` without regard to ASCII case.
pub open spec fn item_matches_ci(item: Option<String>, value: Seq<char>) -> bool {
    match item {
        Some(c) => eq_ignore_ascii_case_spec(c@, value),
        None => false,
    }
}

/// The element is a text equal to `value`.
pub open spec fn item_is(item: Option<String>, value: Seq<char>) -> bool {
    match item {
        Some(c) => c@ == value,
        None => false,
    }
}

/// The list holds a text equal to `value` without regard to ASCII case.
pub open spec fn lists_ignoring_case(values: TextList, value: Seq<char>) -> bool {
    match values {
        Some(items) => has_ignoring_case(items@, value),
        None => false,
    }
}

/// The sequence holds a text equal to `value` without regard to ASCII case.
pub open spec fn has_ignoring_case(items: Seq<Option<String>>, value: Seq<char>) -> bool {
    exists|i: int| 0 <= i < items.len() && #[trigger] item_matches_ci(items[i], value)
}

/// The list holds a text equal to `value`.
pub open spec fn lists_exactly(items: Seq<Option<String>>, value: Seq<char>) -> bool {
    exists|i: int| 0 <= i < items.len() && item_is(#[trigger] items[i], value)
}

/// Whether `values` holds `value`, comparing ASCII letters without regard to
/// case; a value that is not a list holds nothing.
pub fn supported_format(value: &str, values: &TextList) -> (r: bool)
    ensures
        r == lists_ignoring_case(*values, value@),
{
    match values {
        Some(items) => {
            let n = items.len();
            for i in 0..n
                invariant
                    n == items@.len(),
                    *values == Some(*items),
                    forall|j: int| 0 <= j < i ==> !#[trigger] item_matches_ci(items@[j], value@),
            {
                match &items[i] {
                    Some(candidate) => {
                        if eq_ignore_ascii_case(candidate.as_str(), value) {
                            assert(item_matches_ci(items@[i as int], value@));
                            assert(has_ignoring_case(items@, value@));
                            return true;
                        }
                    },
                    None => {},
                }
            }
            false
        },
        None => false,
    }
}

/// Whether `items` holds a text equal to `value`.
pub fn lists_text(items: &Vec<Option<String>>, value: &str) -> (r: bool)
    ensures
        r == lists_exactly(items@, value@),
{
    let n = items.len();
    for i in 0..n
        invariant
            n == items@.len(),
            forall|j: int| 0 <= j < i ==> !item_is(#[trigger] items@[j], value@),
    {
        match &items[i] {
            Some(candidate) => {
                if str_eq(candidate.as_str(), value) {
                    assert(item_is(items@[i as int], value@));
                    return true;
                }
            },
            None => {},
        }
    }
    false
}

/// The language code that a displayed language name stands for.
pub open spec fn normalized_language_spec(value: Seq<char>) -> Seq<char> {
    if value == "中文（普通话）"@ || value == "中文"@ {
        "zh"@
    } else if value == "English"@ || value == "英语"@ {
        "en"@
    } else {
        value
    }
}

/// The language code for a displayed language name: Mandarin and Chinese
/// give "zh", English gives "en", any other name is kept.
pub fn normalized_language(value: &str) -> (r: &str)
    ensures
        r@ == normalized_language_spec(value@),
{
    if str_eq(value, "中文（普通话）") || str_eq(value, "中文") {
        "zh"
    } else if str_eq(value, "English") || str_eq(value, "英语") {
        "en"
    } else {
        value
    }
}

/// A voice name without its description: the text before the first " · ".
pub open spec fn normalized_voice_spec(value: Seq<char>) -> Seq<char> {
    match find_spec(value, " · "@) {
        Some(i) => value.subrange(0, i),
        None => value,
    }
}

/// The voice name of a displayed voice label ("Aria · 温暖女声" gives "Aria").
pub fn normalized_voice(value: &str) -> (r: &str)
    ensures
        r@ == normalized_voice_spec(value@),
{
    let cs = chars_of(value);
    let sep = chars_of(" · ");
    match find_seq(&cs, &sep) {
        Some(i) => value.substring_char(0, i),
        None => value,
    }
}

/// The bit patterns of the `f32` values 0.25 and 4.0. For an `f32` `x`,
/// `(0.25..=4.0).contains(&x)` holds exactly when its bit pattern lies
/// between them: a negative value, a NaN or an infinity has a pattern
/// outside the range, and among non-negative finite values the order of
/// the patterns is the order of the values.
pub open spec fn speed_in_range(bits: u32) -> bool {
    0x3E80_0000 <= bits && bits <= 0x4080_0000
}

/// The outcome of checking a speech-synthesis request against a model.
pub open spec fn tts_check(request: AudioRequest, caps: ModelCapabilities) -> Result<(), Seq<char>> {
    match caps.tts {
        None => Err("CAPABILITY_UNSUPPORTED: model does not support speech synthesis"@),
        Some(tts) => {
            let text = match request.text {
                Some(t) => t@,
                None => Seq::<char>::empty(),
            };
            if is_blank(text) {
                Err("VALIDATION_FAILED: speech text is empty"@)
            } else if !lists_ignoring_case(tts.formats, request.format@) {
                Err("VALIDATION_FAILED: audio format is not supported by model"@)
            } else if request.voice matches Some(v) && !lists_ignoring_case(
                tts.voices,
                normalized_voice_spec(v@),
            ) {
                Err("VALIDATION_FAILED: voice is not supported by model"@)
            } else if request.speed_bits matches Some(b) && !speed_in_range(b) {
                Err("VALIDATION_FAILED: speech speed must be between 0.25 and 4.0"@)
            } else {
                Ok(())
            }
        },
    }
}

/// Checks a speech-synthesis request against the model's capabilities.
pub fn validate_tts_request(request: &AudioRequest, capabilities: &ModelCapabilities) -> (r: Result<
    (),
    String,
>)
    ensures
        outcome_view(r) == tts_check(*request, *capabilities),
{
    let tts = match &capabilities.tts {
        Some(t) => t,
        None => {
            return Err(owned("CAPABILITY_UNSUPPORTED: model does not support speech synthesis"));
        },
    };
    let blank = match &request.text {
        Some(t) => str_is_blank(t.as_str()),
        None => true,
    };
    if blank {
        return Err(owned("VALIDATION_FAILED: speech text is empty"));
    }
    if !supported_format(request.format.as_str(), &tts.formats) {
        return Err(owned("VALIDATION_FAILED: audio format is not supported by model"));
    }
    match &request.voice {
        Some(voice) => {
            let name = normalized_voice(voice.as_str());
            if !supported_format(name, &tts.voices) {
                return Err(owned("VALIDATION_FAILED: voice is not supported by model"));
            }
        },
        None => {},
    }
    match request.speed_bits {
        Some(bits) => {
            if !(0x3E80_0000 <= bits && bits <= 0x4080_0000) {
                return Err(owned("VALIDATION_FAILED: speech speed must be between 0.25 and 4.0"));
            }
        },
        None => {},
    }
    Ok(())
}

/// The text after the last '.' of `s`, or all of `s` when it has none.
pub open spec fn last_dot_segment(s: Seq<char>) -> Seq<char>
    decreases s.len(),
{
    if s.len() == 0 {
        s
    } else if s.last() == '.' {
        Seq::<char>::empty()
    } else {
        last_dot_segment(s.drop_last()).push(s.last())
    }
}

/// The file extensions that transcription accepts.
pub open spec fn is_media_extension(e: Seq<char>) -> bool {
    e == "mp3"@ || e == "wav"@ || e == "m4a"@ || e == "mp4"@ || e == "mov"@ || e == "webm"@ || e
        == "ogg"@
}

/// A file name that transcription accepts: not blank, and its extension,
/// in ASCII lower case, names an audio or video format.
pub open spec fn accepted_media_file(name: Seq<char>) -> bool {
    !is_blank(name) && is_media_extension(ascii_lower_seq(last_dot_segment(name)))
}

/// The text of an optional text, or nothing.
pub open spec fn text_or_empty(s: Option<String>) -> Seq<char> {
    match s {
        Some(t) => t@,
        None => Seq::<char>::empty(),
    }
}

/// The outcome of checking a transcription request against a model, given
/// what decoding its payload gives.
pub open spec fn stt_check(
    request: AudioRequest,
    caps: ModelCapabilities,
    decoded: Result<Seq<u8>, Seq<char>>,
) -> Result<(), Seq<char>> {
    match caps.stt {
        None => Err("CAPABILITY_UNSUPPORTED: model does not support transcription"@),
        Some(stt) => {
            if !accepted_media_file(text_or_empty(request.source_file_name)) {
                Err("VALIDATION_FAILED: unsupported audio or video file"@)
            } else if text_or_empty(request.source_file_base64).len() == 0 {
                Err("VALIDATION_FAILED: audio file content is missing"@)
            } else if decoded is Err {
                Err("VALIDATION_FAILED: invalid audio payload: "@ + decoded->Err_0)
            } else if !lists_ignoring_case(stt.formats, request.format@) {
                Err("VALIDATION_FAILED: transcription format is not supported by model"@)
            } else if request.language matches Some(l) && !lists_ignoring_case(
                stt.languages,
                normalized_language_spec(l@),
            ) {
                Err("VALIDATION_FAILED: language is not supported by model"@)
            } else {
                Ok(())
            }
        },
    }
}

/// The text after the last '.' of `name`, or all of it when it has none
/// (as `name.rsplit('.').next()`).
pub fn last_segment(name: &str) -> (r: String)
    ensures
        r@ == last_dot_segment(name@),
{
    let cs = chars_of(name);
    let n = cs.len();
    let mut start = n;
    while start > 0 && cs[start - 1] != '.'
        invariant
            start <= n,
            n == cs@.len(),
            cs@ == name@,
            forall|j: int| start <= j < n ==> cs@[j] != '.',
            start > 0 ==> cs@[start - 1] != '.' || true,
        decreases start,
    {
        start = start - 1;
    }
    proof {
        lemma_last_dot_segment(cs@, start as int);
    }
    substring(&cs, start, n)
}

/// The segment after the last '.' starts at `start` when no '.' follows it
/// and `start` is 0 or follows a '.'.
proof fn lemma_last_dot_segment(s: Seq<char>, start: int)
    requires
        0 <= start <= s.len(),
        forall|j: int| start <= j < s.len() ==> s[j] != '.',
        start == 0 || s[start - 1] == '.',
    ensures
        last_dot_segment(s) == s.subrange(start, s.len() as int),
    decreases s.len(),
{
    if s.len() == 0 {
        assert(s.subrange(start, 0) =~= s);
    } else if s.last() == '.' {
        assert(start == s.len());
        assert(s.subrange(start, s.len() as int) =~= Seq::<char>::empty());
    } else {
        lemma_last_dot_segment(s.drop_last(), start);
        assert(s.subrange(start, s.len() as int) =~= s.drop_last().subrange(
            start,
            s.len() - 1,
        ).push(s.last()));
    }
}

/// Whether a file name is one that transcription accepts.
pub fn accepted_media_file_exec(name: &str) -> (r: bool)
    ensures
        r == accepted_media_file(name@),
        r == (!is_blank(name@) && {
            let e = ascii_lower_seq(last_dot_segment(name@));
            e == "mp3"@ || e == "wav"@ || e == "m4a"@ || e == "mp4"@ || e == "mov"@ || e == "webm"@
                || e == "ogg"@
        }),
{
    if str_is_blank(name) {
        return false;
    }
    let seg = last_segment(name);
    let e = to_ascii_lowercase(seg.as_str());
    let e = e.as_str();
    str_eq(e, "mp3") || str_eq(e, "wav") || str_eq(e, "m4a") || str_eq(e, "mp4") || str_eq(e, "mov")
        || str_eq(e, "webm") || str_eq(e, "ogg")
}

/// Checks a transcription request against the model's capabilities, given
/// what decoding its base64 payload gave.
pub fn validate_stt_decoded(
    request: &AudioRequest,
    capabilities: &ModelCapabilities,
    decoded: &Result<Vec<u8>, String>,
) -> (r: Result<(), String>)
    ensures
        outcome_view(r) == stt_check(
            *request,
            *capabilities,
            match decoded {
                Ok(b) => Ok::<Seq<u8>, Seq<char>>(b@),
                Err(e) => Err::<Seq<u8>, Seq<char>>(e@),
            },
        ),
{
    let stt = match &capabilities.stt {
        Some(s) => s,
        None => {
            return Err(owned("CAPABILITY_UNSUPPORTED: model does not support transcription"));
        },
    };
    let accepted = match &request.source_file_name {
        Some(n) => accepted_media_file_exec(n.as_str()),
        None => false,
    };
    if !accepted {
        return Err(owned("VALIDATION_FAILED: unsupported audio or video file"));
    }
    let empty = match &request.source_file_base64 {
        Some(p) => p.as_str().unicode_len() == 0,
        None => true,
    };
    if empty {
        return Err(owned("VALIDATION_FAILED: audio file content is missing"));
    }
    match decoded {
        Err(e) => {
            return Err(join2("VALIDATION_FAILED: invalid audio payload: ", e.as_str()));
        },
        Ok(_) => {},
    }
    if !supported_format(request.format.as_str(), &stt.formats) {
        return Err(owned("VALIDATION_FAILED: transcription format is not supported by model"));
    }
    match &request.language {
        Some(language) => {
            let code = normalized_language(language.as_str());
            if !supported_format(code, &stt.languages) {
                return Err(owned("VALIDATION_FAILED: language is not supported by model"));
            }
        },
        None => {},
    }
    Ok(())
}

/// Checks a transcription request against the model's capabilities,
/// decoding its base64 payload once the checks before that step pass.
pub fn validate_stt_request(request: &AudioRequest, capabilities: &ModelCapabilities) -> (r: Result<
    (),
    String,
>)
    ensures
        outcome_view(r) == stt_check(
            *request,
            *capabilities,
            base64_standard_decode(text_or_empty(request.source_file_base64)),
        ),
{
    if capabilities.stt.is_none() {
        return Err(owned("CAPABILITY_UNSUPPORTED: model does not support transcription"));
    }
    let accepted = match &request.source_file_name {
        Some(n) => accepted_media_file_exec(n.as_str()),
        None => false,
    };
    if !accepted {
        return Err(owned("VALIDATION_FAILED: unsupported audio or video file"));
    }
    let empty = match &request.source_file_base64 {
        Some(p) => p.as_str().unicode_len() == 0,
        None => true,
    };
    if empty {
        return Err(owned("VALIDATION_FAILED: audio file content is missing"));
    }
    let decoded = match &request.source_file_base64 {
        Some(p) => decode_base64_standard(p.as_str()),
        None => decode_base64_standard(""),
    };
    assert(text_or_empty(request.source_file_base64) == request.source_file_base64->Some_0@);
    validate_stt_decoded(request, capabilities, &decoded)
}

/// The outcome of checking an image request against a model.
pub open spec fn image_check(request: ImageRequest, caps: ModelCapabilities) -> Result<(), Seq<char>> {
    if is_blank(request.prompt@) {
        Err("VALIDATION_FAILED: image prompt is empty"@)
    } else {
        match caps.image {
            None => Err("CAPABILITY_UNSUPPORTED: model does not support image generation"@),
            Some(image) => {
                let min: u64 = match image.count_min {
                    Some(m) => m,
                    None => 1,
                };
                let max: u64 = match image.count_max {
                    Some(m) => m,
                    None => 1,
                };
                if request.count < min || request.count > max {
                    Err("VALIDATION_FAILED: image count is outside model limits"@)
                } else if request.aspect_ratio matches Some(a) && image.aspect_ratios matches Some(
                    values,
                ) && !lists_exactly(values@, a@) {
                    Err("VALIDATION_FAILED: aspect ratio is not supported by model"@)
                } else if request.resolution matches Some(a) && image.resolutions matches Some(
                    values,
                ) && !lists_exactly(values@, a@) {
                    Err("VALIDATION_FAILED: resolution is not supported by model"@)
                } else if request.quality matches Some(a) && image.qualities matches Some(values)
                    && !lists_exactly(values@, a@) {
                    Err("VALIDATION_FAILED: quality is not supported by model"@)
                } else if request.reference_asset_ids@.len() > 0 && image.supports_edit != Some(
                    true,
                ) {
                    Err("CAPABILITY_UNSUPPORTED: model does not support image references"@)
                } else {
                    Ok(())
                }
            },
        }
    }
}

/// Whether an optional requested value is missing from an optional list
/// that constrains it.
fn not_listed(value: &Option<String>, values: &TextList) -> (r: bool)
    ensures
        r == (*value matches Some(a) && *values matches Some(items) && !lists_exactly(
            items@,
            a@,
        )),
{
    match value {
        Some(a) => match values {
            Some(items) => !lists_text(items, a.as_str()),
            None => false,
        },
        None => false,
    }
}

/// Checks an image request against the model's capabilities.
pub fn validate_image_request(request: &ImageRequest, capabilities: &ModelCapabilities) -> (r:
    Result<(), String>)
    ensures
        outcome_view(r) == image_check(*request, *capabilities),
{
    if str_is_blank(request.prompt.as_str()) {
        return Err(owned("VALIDATION_FAILED: image prompt is empty"));
    }
    let image = match &capabilities.image {
        Some(i) => i,
        None => {
            return Err(owned("CAPABILITY_UNSUPPORTED: model does not support image generation"));
        },
    };
    let min: u64 = match image.count_min {
        Some(m) => m,
        None => 1,
    };
    let max: u64 = match image.count_max {
        Some(m) => m,
        None => 1,
    };
    let count = request.count as u64;
    if count < min || count > max {
        return Err(owned("VALIDATION_FAILED: image count is outside model limits"));
    }
    if not_listed(&request.aspect_ratio, &image.aspect_ratios) {
        return Err(owned("VALIDATION_FAILED: aspect ratio is not supported by model"));
    }
    if not_listed(&request.resolution, &image.resolutions) {
        return Err(owned("VALIDATION_FAILED: resolution is not supported by model"));
    }
    if not_listed(&request.quality, &image.qualities) {
        return Err(owned("VALIDATION_FAILED: quality is not supported by model"));
    }
    let edits = match image.supports_edit {
        Some(b) => b,
        None => false,
    };
    if request.reference_asset_ids.len() > 0 && !edits {
        return Err(owned("CAPABILITY_UNSUPPORTED: model does not support image references"));
    }
    Ok(())
}

} // verus!
