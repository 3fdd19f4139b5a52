use lingjing::domain::{AudioRequest, ImageRequest};
use lingjing::validation::{
    normalized_language, normalized_voice, supported_format, validate_image_request,
    validate_stt_decoded, validate_stt_request, validate_tts_request, ImageCapabilities,
    ModelCapabilities, SttCapabilities, TtsCapabilities,
};

fn texts(values: &[&str]) -> Option<Vec<Option<String>>> {
    Some(values.iter().map(|v| Some(v.to_string())).collect())
}

fn capabilities() -> ModelCapabilities {
    ModelCapabilities {
        tts: Some(TtsCapabilities {
            voices: texts(&["Aria"]),
            formats: texts(&["MP3"]),
        }),
        stt: Some(SttCapabilities {
            languages: texts(&["zh", "en"]),
            formats: texts(&["TXT", "JSON"]),
        }),
        image: None,
    }
}

fn tts_request() -> AudioRequest {
    AudioRequest {
        gateway_profile_id: "mock-default".into(),
        model_id: "mock-audio".into(),
        kind: "tts".into(),
        text: Some("hello".into()),
        source_file_name: None,
        source_file_base64: None,
        voice: Some("Aria · 温暖女声".into()),
        language: None,
        format: "mp3".into(),
        speed_bits: Some(1.0f32.to_bits()),
    }
}

fn stt_request() -> AudioRequest {
    AudioRequest {
        gateway_profile_id: "mock-default".into(),
        model_id: "mock-audio".into(),
        kind: "stt".into(),
        text: None,
        source_file_name: Some("clip.wav".into()),
        source_file_base64: Some("aGk=".into()),
        voice: None,
        language: Some("中文（普通话）".into()),
        format: "TXT".into(),
        speed_bits: None,
    }
}

#[test]
fn accepts_display_voice_label_and_supported_tts_values() {
    let request = AudioRequest {
        gateway_profile_id: "mock-default".into(),
        model_id: "mock-audio".into(),
        kind: "tts".into(),
        text: Some("hello".into()),
        source_file_name: None,
        source_file_base64: None,
        voice: Some("Aria · 温暖女声".into()),
        language: None,
        format: "mp3".into(),
        speed_bits: Some(1.0f32.to_bits()),
    };
    assert!(validate_tts_request(&request, &capabilities()).is_ok());
}

#[test]
fn rejects_invalid_stt_payload_or_file() {
    let request = AudioRequest {
        gateway_profile_id: "mock-default".into(),
        model_id: "mock-audio".into(),
        kind: "stt".into(),
        text: None,
        source_file_name: Some("clip.exe".into()),
        source_file_base64: Some("not-base64".into()),
        voice: None,
        language: Some("中文（普通话）".into()),
        format: "TXT".into(),
        speed_bits: None,
    };
    assert!(validate_stt_request(&request, &capabilities()).is_err());
}

#[test]
fn tts_errors_name_the_failed_check() {
    let caps = capabilities();
    let mut r = tts_request();
    r.text = Some("  \n\t".into());
    assert_eq!(validate_tts_request(&r, &caps), Err("VALIDATION_FAILED: speech text is empty".into()));
    r.text = None;
    assert_eq!(validate_tts_request(&r, &caps), Err("VALIDATION_FAILED: speech text is empty".into()));
    let mut r = tts_request();
    r.format = "wav".into();
    assert_eq!(validate_tts_request(&r, &caps), Err("VALIDATION_FAILED: audio format is not supported by model".into()));
    let mut r = tts_request();
    r.voice = Some("Bob".into());
    assert_eq!(validate_tts_request(&r, &caps), Err("VALIDATION_FAILED: voice is not supported by model".into()));
    let mut r = tts_request();
    r.voice = None;
    assert!(validate_tts_request(&r, &caps).is_ok());
    for speed in [0.1f32, 4.5, -1.0, f32::NAN, f32::INFINITY, -0.0] {
        let mut r = tts_request();
        r.speed_bits = Some(speed.to_bits());
        assert_eq!(
            validate_tts_request(&r, &caps),
            Err("VALIDATION_FAILED: speech speed must be between 0.25 and 4.0".into())
        );
    }
    for speed in [0.25f32, 4.0, 2.5] {
        let mut r = tts_request();
        r.speed_bits = Some(speed.to_bits());
        assert!(validate_tts_request(&r, &caps).is_ok());
    }
    let no_tts = ModelCapabilities { tts: None, ..capabilities() };
    assert_eq!(
        validate_tts_request(&tts_request(), &no_tts),
        Err("CAPABILITY_UNSUPPORTED: model does not support speech synthesis".into())
    );
}

#[test]
fn stt_errors_name_the_failed_check() {
    let caps = capabilities();
    assert!(validate_stt_request(&stt_request(), &caps).is_ok());
    let mut r = stt_request();
    r.source_file_name = Some("CLIP.MOV".into());
    assert!(validate_stt_request(&r, &caps).is_ok());
    r.source_file_name = Some("clip.exe".into());
    assert_eq!(validate_stt_request(&r, &caps), Err("VALIDATION_FAILED: unsupported audio or video file".into()));
    r.source_file_name = Some("   ".into());
    assert_eq!(validate_stt_request(&r, &caps), Err("VALIDATION_FAILED: unsupported audio or video file".into()));
    r.source_file_name = Some("ogg".into());
    assert!(validate_stt_request(&r, &caps).is_ok());
    let mut r = stt_request();
    r.source_file_base64 = Some(String::new());
    assert_eq!(validate_stt_request(&r, &caps), Err("VALIDATION_FAILED: audio file content is missing".into()));
    r.source_file_base64 = Some("not-base64".into());
    let err = validate_stt_request(&r, &caps).unwrap_err();
    assert!(err.starts_with("VALIDATION_FAILED: invalid audio payload: "));
    assert!(err.len() > "VALIDATION_FAILED: invalid audio payload: ".len());
    let mut r = stt_request();
    r.format = "SRT".into();
    assert_eq!(validate_stt_request(&r, &caps), Err("VALIDATION_FAILED: transcription format is not supported by model".into()));
    let mut r = stt_request();
    r.language = Some("Français".into());
    assert_eq!(validate_stt_request(&r, &caps), Err("VALIDATION_FAILED: language is not supported by model".into()));
    r.language = Some("English".into());
    assert!(validate_stt_request(&r, &caps).is_ok());
    let no_stt = ModelCapabilities { stt: None, ..capabilities() };
    assert_eq!(
        validate_stt_request(&stt_request(), &no_stt),
        Err("CAPABILITY_UNSUPPORTED: model does not support transcription".into())
    );
    assert_eq!(
        validate_stt_decoded(&stt_request(), &caps, &Err("bad".into())),
        Err("VALIDATION_FAILED: invalid audio payload: bad".into())
    );
}

#[test]
fn labels_are_normalized() {
    assert_eq!(normalized_voice("Aria · 温暖女声"), "Aria");
    assert_eq!(normalized_voice("Aria"), "Aria");
    assert_eq!(normalized_voice(" · x"), "");
    assert_eq!(normalized_language("中文（普通话）"), "zh");
    assert_eq!(normalized_language("中文"), "zh");
    assert_eq!(normalized_language("English"), "en");
    assert_eq!(normalized_language("英语"), "en");
    assert_eq!(normalized_language("de"), "de");
    assert!(supported_format("mp3", &texts(&["MP3"])));
    assert!(!supported_format("mp3", &None));
    assert!(!supported_format("mp3", &Some(vec![None])));
}

fn image_request() -> ImageRequest {
    ImageRequest {
        gateway_profile_id: "mock-default".into(),
        model_id: "gpt-image-1".into(),
        prompt: "a paper crane".into(),
        count: 2,
        aspect_ratio: Some("1:1".into()),
        resolution: Some("1k".into()),
        quality: Some("standard".into()),
        reference_asset_ids: Vec::new(),
    }
}

fn image_capabilities() -> ModelCapabilities {
    ModelCapabilities {
        tts: None,
        stt: None,
        image: Some(ImageCapabilities {
            count_min: Some(1),
            count_max: Some(4),
            aspect_ratios: texts(&["1:1"]),
            resolutions: texts(&["1k"]),
            qualities: texts(&["standard"]),
            supports_edit: Some(true),
        }),
    }
}

#[test]
fn validates_supported_image_request() {
    assert!(validate_image_request(&image_request(), &image_capabilities()).is_ok());
}

#[test]
fn rejects_invalid_count_and_reference_capability() {
    let mut invalid = image_request();
    invalid.count = 5;
    assert!(validate_image_request(&invalid, &image_capabilities()).is_err());
    let mut unsupported = image_request();
    unsupported.reference_asset_ids = vec!["ref".into()];
    let mut caps = image_capabilities();
    caps.image.as_mut().unwrap().supports_edit = Some(false);
    assert!(validate_image_request(&unsupported, &caps).is_err());
}

#[test]
fn image_errors_name_the_failed_check() {
    let caps = image_capabilities();
    let mut r = image_request();
    r.prompt = " ".into();
    assert_eq!(validate_image_request(&r, &caps), Err("VALIDATION_FAILED: image prompt is empty".into()));
    let mut r = image_request();
    r.count = 0;
    assert_eq!(validate_image_request(&r, &caps), Err("VALIDATION_FAILED: image count is outside model limits".into()));
    let mut r = image_request();
    r.aspect_ratio = Some("16:9".into());
    assert_eq!(validate_image_request(&r, &caps), Err("VALIDATION_FAILED: aspect ratio is not supported by model".into()));
    let mut r = image_request();
    r.resolution = Some("2k".into());
    assert_eq!(validate_image_request(&r, &caps), Err("VALIDATION_FAILED: resolution is not supported by model".into()));
    let mut r = image_request();
    r.quality = Some("STANDARD".into());
    assert_eq!(validate_image_request(&r, &caps), Err("VALIDATION_FAILED: quality is not supported by model".into()));
    let mut r = image_request();
    r.reference_asset_ids = vec!["ref".into()];
    let mut no_edit = image_capabilities();
    no_edit.image.as_mut().unwrap().supports_edit = None;
    assert_eq!(validate_image_request(&r, &no_edit), Err("CAPABILITY_UNSUPPORTED: model does not support image references".into()));
    let none = ModelCapabilities { tts: None, stt: None, image: None };
    assert_eq!(validate_image_request(&image_request(), &none), Err("CAPABILITY_UNSUPPORTED: model does not support image generation".into()));
    let loose = ModelCapabilities {
        tts: None,
        stt: None,
        image: Some(ImageCapabilities {
            count_min: None,
            count_max: None,
            aspect_ratios: None,
            resolutions: None,
            qualities: None,
            supports_edit: None,
        }),
    };
    let mut one = image_request();
    one.count = 1;
    assert!(validate_image_request(&one, &loose).is_ok());
    assert!(validate_image_request(&image_request(), &loose).is_err());
}
