use lingjing::chat::{
    append_chunk, chat_stream_events, mock_chunks, mock_reply, stream_step, ChatEvent, StreamAction,
    StreamInput,
};
use lingjing::http::transcript_text;

#[test]
fn stream_lines_become_deltas_until_done() {
    let buffer = "data: {\"choices\":[{\"delta\":{\"content\":\"Hi\"}}]}\n\
                  : keep-alive\n\
                  data: {\"choices\":[{\"delta\":{}}]}\n\
                  data: {\"choices\":[{\"delta\":{\"content\":\" there\"}}]}\n\
                  data: [DONE]\n\
                  data: {\"choices\":[{\"delta\":{\"content\":\"late\"}}]}\n\
                  data: {\"cho";
    let (events, rest) = chat_stream_events(buffer);
    assert_eq!(
        events,
        vec![ChatEvent::Delta("Hi".into()), ChatEvent::Delta(" there".into()), ChatEvent::Done]
    );
    assert_eq!(rest, "data: {\"cho");
}

#[test]
fn stream_lines_that_are_not_json_end_in_an_error() {
    let (events, rest) = chat_stream_events("data: {\"choices\":[{\"delta\":{\"content\":\"a\"}}]}\ndata: {oops\n");
    assert_eq!(events.len(), 2);
    assert_eq!(events[0], ChatEvent::Delta("a".into()));
    match &events[1] {
        ChatEvent::Failed(message) => {
            assert!(message.starts_with("GATEWAY_INVALID_RESPONSE: "));
            assert!(message.len() > "GATEWAY_INVALID_RESPONSE: ".len());
        }
        other => panic!("expected an error, got {other:?}"),
    }
    assert_eq!(rest, "");
}

#[test]
fn partial_lines_wait_in_the_buffer() {
    let (events, rest) = chat_stream_events("data: {\"choices\"");
    assert!(events.is_empty());
    assert_eq!(rest, "data: {\"choices\"");
    let joined = append_chunk(&rest, b":[{\"delta\":{\"content\":\"x\"}}]}\n");
    let (events, rest) = chat_stream_events(&joined);
    assert_eq!(events, vec![ChatEvent::Delta("x".into())]);
    assert_eq!(rest, "");
}

#[test]
fn chunks_are_read_with_invalid_bytes_replaced() {
    assert_eq!(append_chunk("a", b"b\xffc"), "ab\u{FFFD}c");
}

#[test]
fn the_mock_reply_streams_in_three_byte_pieces() {
    let reply = mock_reply("hello");
    let pieces = mock_chunks("hello");
    assert_eq!(pieces.len(), (reply.len() + 2) / 3);
    assert!(pieces.iter().any(|p| p == "**h"));
    assert!(pieces.concat().contains("hello"));
}

#[test]
fn mock_pieces_that_split_a_character_are_replaced() {
    let pieces = mock_chunks("你好");
    let reply = mock_reply("你好");
    let expected: Vec<String> =
        reply.as_bytes().chunks(3).map(|c| String::from_utf8_lossy(c).into_owned()).collect();
    assert_eq!(pieces, expected);
}

#[test]
fn transcripts_take_the_text_field_or_the_whole_answer() {
    assert_eq!(transcript_text("{\"text\":\"hello world\",\"x\":1}"), "hello world");
    assert_eq!(transcript_text("plain words"), "plain words");
    assert_eq!(transcript_text("{\"text\":3}"), "{\"text\":3}");
    assert_eq!(transcript_text("[1,2]"), "[1,2]");
}

#[test]
fn the_stop_signal_cancels_pieces_but_not_errors() {
    let delta = || StreamInput::Event(ChatEvent::Delta("hi".into()));
    assert_eq!(stream_step(delta(), false), StreamAction::Send("hi".into()));
    assert_eq!(stream_step(delta(), true), StreamAction::Fail("CANCELED: chat stream stopped".into()));
    assert_eq!(stream_step(StreamInput::Event(ChatEvent::Done), true), StreamAction::Finish);
    assert_eq!(
        stream_step(StreamInput::Event(ChatEvent::Failed("GATEWAY_INVALID_RESPONSE: x".into())), true),
        StreamAction::Fail("GATEWAY_INVALID_RESPONSE: x".into())
    );
    assert_eq!(
        stream_step(StreamInput::StopChanged { delivered: true }, true),
        StreamAction::Fail("CANCELED: chat stream stopped".into())
    );
    assert_eq!(stream_step(StreamInput::StopChanged { delivered: true }, false), StreamAction::Finish);
    assert_eq!(stream_step(StreamInput::StopChanged { delivered: false }, true), StreamAction::Finish);
    assert_eq!(stream_step(StreamInput::Ended, false), StreamAction::Finish);
}
