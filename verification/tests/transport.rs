use lingjing::http::{cancel_outcome, check_gateway_status, chat_completions_url, remote_video_url, decode_audio_payload, mock_speech, mock_transcript};
use lingjing::chat::{check_chat_content, error_code, is_done_marker, mock_reply, split_lines_exec, sse_data};
use lingjing::checks::{
    api_key_reference, asset_id_for, audio_extension, check_api_key, check_profile_enabled, check_image_input, check_stt_input,
    check_tts_input, image_asset_id, speech_mime, transcript_output, uuid_text,
};
use lingjing::domain::{AudioRequest, GatewayProfile, ImageRequest};
use lingjing::http::{
    download_status_error, gateway_url, image_size, is_mock_gateway, mock_model_list, models_url,
    image_result_source, status_error, usable_api_key, ImageSource,
};

fn profile(base_url: &str) -> GatewayProfile {
    GatewayProfile {
        id: "g".into(),
        name: "G".into(),
        base_url: base_url.into(),
        protocol: "newapi".into(),
        api_key_ref: "k".into(),
        enabled: true,
        is_default: false,
        created_at: None,
        updated_at: None,
    }
}

#[test]
fn urls_join_base_and_endpoint() {
    assert_eq!(models_url(&profile("https://x.test/v1//")), "https://x.test/v1/models");
    assert_eq!(gateway_url(&profile("https://x.test"), "videos/r1"), "https://x.test/videos/r1");
    assert!(is_mock_gateway(&profile("mock://local")));
    assert!(!is_mock_gateway(&profile("https://mock://")));
}

#[test]
fn status_errors_classify_the_status() {
    assert_eq!(status_error(500), "GATEWAY_5XX: HTTP 500");
    assert_eq!(status_error(503), "GATEWAY_5XX: HTTP 503");
    assert_eq!(status_error(429), "RATE_LIMITED: gateway rate limit");
    assert_eq!(status_error(404), "GATEWAY_HTTP: HTTP 404");
    assert_eq!(status_error(600), "GATEWAY_HTTP: HTTP 600");
    assert_eq!(download_status_error(403), "DOWNLOAD_FAILED: HTTP 403");
}

#[test]
fn request_terms() {
    assert_eq!(usable_api_key(Some("")), None);
    assert_eq!(usable_api_key(Some("k")), Some("k"));
    assert_eq!(usable_api_key(None), None);
    assert_eq!(image_size(&Some("16:9".into()), &None), "1792x1024");
    assert_eq!(image_size(&Some("9:16".into()), &Some("2k".into())), "1024x1792");
    assert_eq!(image_size(&Some("1:1".into()), &Some("2k".into())), "2048x2048");
    assert_eq!(image_size(&None, &None), "1024x1024");
    assert_eq!(mock_model_list(), vec!["gpt-4.1", "grok-imagine-image-2.0", "grok-imagine-video", "mock-audio"]);
}

#[test]
fn chat_reply_and_error_codes() {
    assert_eq!(
        mock_reply("  hello \n"),
        "已收到你的请求：**hello**\n\n这是 Rust Mock Gateway 的桌面流式响应。"
    );
    assert_eq!(check_chat_content(" \t"), Err("消息不能为空".into()));
    assert_eq!(check_chat_content("hi"), Ok(()));
    assert_eq!(error_code("CANCELED: chat stream stopped"), "CANCELED");
    assert_eq!(error_code(":no code"), "GATEWAY_ERROR");
    assert_eq!(error_code(""), "GATEWAY_ERROR");
    assert_eq!(error_code("plain"), "plain");
}

#[test]
fn event_stream_lines_are_split_and_read() {
    let (lines, rest) = split_lines_exec("data: {\"a\":1}\n\ndata: [DONE]\npartial");
    assert_eq!(lines, vec!["data: {\"a\":1}\n", "\n", "data: [DONE]\n"]);
    assert_eq!(rest, "partial");
    assert_eq!(lines.concat() + &rest, "data: {\"a\":1}\n\ndata: [DONE]\npartial");
    assert_eq!(sse_data(&lines[0]), Some("{\"a\":1}".into()));
    assert_eq!(sse_data(&lines[1]), None);
    assert_eq!(sse_data(": keep-alive\n"), None);
    let done = sse_data(&lines[2]).unwrap();
    assert!(is_done_marker(&done));
    assert!(!is_done_marker("[done]"));
    let (none, all) = split_lines_exec("no newline");
    assert!(none.is_empty());
    assert_eq!(all, "no newline");
}

fn audio(kind: &str) -> AudioRequest {
    AudioRequest {
        gateway_profile_id: "g".into(),
        model_id: "m".into(),
        kind: kind.into(),
        text: Some("hello".into()),
        source_file_name: Some("a.wav".into()),
        source_file_base64: None,
        voice: None,
        language: None,
        format: "mp3".into(),
        speed_bits: None,
    }
}

#[test]
fn command_inputs_are_checked() {
    assert!(check_tts_input(&audio("tts")).is_ok());
    assert_eq!(check_tts_input(&audio("stt")), Err("请输入需要合成的文本".into()));
    let mut blank = audio("tts");
    blank.text = Some("  ".into());
    assert_eq!(check_tts_input(&blank), Err("请输入需要合成的文本".into()));
    assert!(check_stt_input(&audio("stt")).is_ok());
    let mut no_file = audio("stt");
    no_file.source_file_name = None;
    assert_eq!(check_stt_input(&no_file), Err("请先选择音频或视频文件".into()));
    let mut image = ImageRequest {
        gateway_profile_id: "g".into(),
        model_id: "m".into(),
        prompt: "p".into(),
        count: 4,
        aspect_ratio: None,
        resolution: None,
        quality: None,
        reference_asset_ids: vec![],
    };
    assert!(check_image_input(&image).is_ok());
    image.count = 5;
    assert_eq!(check_image_input(&image), Err("图片数量必须在 1 到 4 张之间".into()));
    image.count = 0;
    assert_eq!(check_image_input(&image), Err("图片数量必须在 1 到 4 张之间".into()));
    image.prompt = "".into();
    assert_eq!(check_image_input(&image), Err("请输入图片描述".into()));
    assert_eq!(check_api_key(" "), Err("VALIDATION_FAILED: API key is empty".into()));
    assert_eq!(check_api_key("sk"), Ok(()));
    assert_eq!(api_key_reference("p1"), "system-keychain:p1");
}

#[test]
fn outputs_and_names() {
    assert_eq!(speech_mime("wav"), "audio/wav");
    assert_eq!(speech_mime("mp3"), "audio/mpeg");
    assert_eq!(transcript_output("json", "t".into(), "{}".into()), ("{}".to_string(), "application/json"));
    assert_eq!(transcript_output("json", "t".into(), "".into()), ("t".to_string(), "application/json"));
    assert_eq!(transcript_output("txt", "t".into(), "{}".into()), ("t".to_string(), "text/plain"));
    let id: u128 = 0x67e5_5044_10b1_426f_9247_bb68_0e5f_e0c8;
    assert_eq!(uuid_text(id), "67e55044-10b1-426f-9247-bb680e5fe0c8");
    assert_eq!(uuid_text(0), "00000000-0000-0000-0000-000000000000");
    assert_eq!(asset_id_for(id), "asset_67e55044-10b1-426f-9247-bb680e5fe0c8");
    assert_eq!(image_asset_id(id, 0), "asset_67e55044-10b1-426f-9247-bb680e5fe0c8_1");
    assert_eq!(image_asset_id(id, 9), "asset_67e55044-10b1-426f-9247-bb680e5fe0c8_10");
}

#[test]
fn gateway_answers_are_classified() {
    assert_eq!(check_gateway_status(200), Ok(()));
    assert_eq!(check_gateway_status(204), Ok(()));
    assert_eq!(check_gateway_status(401), Err("AUTH_INVALID: gateway rejected API key".into()));
    assert_eq!(check_gateway_status(429), Err("RATE_LIMITED: gateway rate limit".into()));
    assert_eq!(check_gateway_status(302), Err("GATEWAY_HTTP: HTTP 302".into()));
    assert_eq!(cancel_outcome(404), Ok(()));
    assert_eq!(cancel_outcome(202), Ok(()));
    assert_eq!(cancel_outcome(502), Err("GATEWAY_5XX: HTTP 502".into()));
}

#[test]
fn remote_urls_follow_the_adapter() {
    let newapi = profile("https://gw.test/");
    assert_eq!(chat_completions_url(&newapi), "https://gw.test/v1/chat/completions");
    assert_eq!(remote_video_url(&newapi, "kling", "r1", false), "https://gw.test/video/generations/r1");
    assert_eq!(remote_video_url(&newapi, "sora-2", "r1", true), "https://gw.test/videos/r1/content");
    let mut plain = profile("https://gw.test");
    plain.protocol = "openai-compatible".into();
    assert_eq!(chat_completions_url(&plain), "https://gw.test/chat/completions");
}

#[test]
fn mock_audio_and_payloads() {
    let mut r = audio("stt");
    assert_eq!(String::from_utf8(mock_speech(&r)).unwrap(), "Mock speech: hello");
    r.text = None;
    assert_eq!(mock_speech(&r), b"Mock speech: ".to_vec());
    assert_eq!(mock_transcript(&r), "Mock transcript for a.wav");
    r.source_file_name = None;
    assert_eq!(mock_transcript(&r), "Mock transcript for audio");
    assert_eq!(decode_audio_payload(&r), Err("VALIDATION_FAILED: audio file content is missing".into()));
    r.source_file_base64 = Some("aGk=".into());
    assert_eq!(decode_audio_payload(&r), Ok(b"hi".to_vec()));
    r.source_file_base64 = Some("a".into());
    assert!(decode_audio_payload(&r).unwrap_err().starts_with("VALIDATION_FAILED: invalid audio payload: "));
}

#[test]
fn image_results_come_inline_or_by_url() {
    let inline = image_result_source(&Some("aGk=".into()), &Some("https://x.test/a.png".into()));
    assert_eq!(inline, Ok(ImageSource::Inline(b"hi".to_vec())));
    let by_url = image_result_source(&None, &Some("https://x.test/a.png".into()));
    assert_eq!(by_url, Ok(ImageSource::Download("https://x.test/a.png".into())));
    assert_eq!(
        image_result_source(&None, &None),
        Err("GATEWAY_INVALID_RESPONSE: image result has no data".into())
    );
    let broken = image_result_source(&Some("a".into()), &None).unwrap_err();
    assert!(broken.starts_with("GATEWAY_INVALID_RESPONSE: "));
    assert!(broken.len() > "GATEWAY_INVALID_RESPONSE: ".len());
}

#[test]
fn disabled_profiles_take_no_requests() {
    let mut p = profile("https://x.test");
    assert_eq!(check_profile_enabled(&p), Ok(()));
    p.enabled = false;
    assert_eq!(
        check_profile_enabled(&p),
        Err("GATEWAY_DISABLED: gateway profile is disabled".into())
    );
}

#[test]
fn audio_outputs_use_the_lower_case_format() {
    let mut r = audio("tts");
    r.format = "MP3".into();
    assert_eq!(audio_extension(&r), "mp3");
    r.format = "Wav".into();
    assert_eq!(audio_extension(&r), "wav");
}

#[test]
fn mock_audio_adapters_return_deterministic_results() {
    let profile = GatewayProfile {
        id: "mock-default".into(),
        name: "Mock Gateway".into(),
        base_url: "mock://local".into(),
        protocol: "openai-compatible".into(),
        api_key_ref: "system-keychain:mock-default".into(),
        enabled: true,
        is_default: true,
        created_at: None,
        updated_at: None,
    };
    let tts = AudioRequest {
        gateway_profile_id: "mock-default".into(),
        model_id: "mock-audio".into(),
        kind: "tts".into(),
        text: Some("hello".into()),
        source_file_name: None,
        source_file_base64: None,
        voice: Some("Aria".into()),
        language: None,
        format: "MP3".into(),
        speed_bits: None,
    };
    let stt = AudioRequest {
        kind: "stt".into(),
        source_file_name: Some("clip.wav".into()),
        source_file_base64: Some("aGk=".into()),
        ..tts.clone()
    };
    // A mock gateway answers speech and transcripts without the network.
    assert!(is_mock_gateway(&profile));
    let speech = mock_speech(&tts);
    assert!(String::from_utf8(speech).unwrap().contains("hello"));
    assert!(decode_audio_payload(&stt).is_ok());
    let transcript = mock_transcript(&stt);
    assert!(transcript.contains("clip.wav"));
}
