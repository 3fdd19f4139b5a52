//! Chat: the mock reply, the error codes reported to the window, and the
//! framing of a gateway's server-sent event stream.
use crate::outside::{json_string_at, json_text_at, lossy_text, utf8_lossy};
use crate::text::{
    chars_of, find_seq, find_spec, is_blank, join2, join3, owned, starts_with_seq, str_eq, str_is_blank,
    substring, trim, trim_seq,
};
use vstd::prelude::*;
use vstd::string::*;
use vstd::utf8::encode_utf8;

verus! {

broadcast use vstd::string::group_string_axioms;

/// The reply of the local mock gateway to a message.
pub open spec fn mock_reply_spec(content: Seq<char>) -> Seq<char> {
    "已收到你的请求：**"@ + trim_seq(content) + "**\n\n这是 Rust Mock Gateway 的桌面流式响应。"@
}

/// The reply of the local mock gateway to a message.
pub fn mock_reply(content: &str) -> (r: String)
    ensures
        r@ == mock_reply_spec(content@),
{
    let t = trim(content);
    join3("已收到你的请求：**", t.as_str(), "**\n\n这是 Rust Mock Gateway 的桌面流式响应。")
}

/// Checks that a chat message is not blank.
pub fn check_chat_content(content: &str) -> (r: Result<(), String>)
    ensures
        is_blank(content@) ==> (r matches Err(e) && e@ == "消息不能为空"@),
        !is_blank(content@) ==> r is Ok,
{
    if str_is_blank(content) {
        Err(owned("消息不能为空"))
    } else {
        Ok(())
    }
}

/// The code of an error message: the text before its first ':', or
/// "GATEWAY_ERROR" when that is empty.
pub open spec fn error_code_spec(error: Seq<char>) -> Seq<char> {
    let head = match find_spec(error, ":"@) {
        Some(i) => error.subrange(0, i),
        None => error,
    };
    if head.len() == 0 {
        "GATEWAY_ERROR"@
    } else {
        head
    }
}

/// The code of an error message.
pub fn error_code(error: &str) -> (r: String)
    ensures
        r@ == error_code_spec(error@),
{
    let cs = chars_of(error);
    let colon = chars_of(":");
    let head = match find_seq(&cs, &colon) {
        Some(i) => substring(&cs, 0, i),
        None => owned(error),
    };
    if head.as_str().unicode_len() == 0 {
        owned("GATEWAY_ERROR")
    } else {
        head
    }
}

/// The complete lines at the front of a stream buffer (each with its
/// '\n'), and what remains after them.
pub open spec fn split_lines(buffer: Seq<char>) -> (Seq<Seq<char>>, Seq<char>)
    decreases buffer.len(),
{
    match find_spec(buffer, "\n"@) {
        Some(i) => if 0 <= i < buffer.len() {
            let rest = split_lines(buffer.subrange(i + 1, buffer.len() as int));
            (seq![buffer.subrange(0, i + 1)] + rest.0, rest.1)
        } else {
            (Seq::empty(), buffer)
        },
        None => (Seq::empty(), buffer),
    }
}

/// Takes the complete lines off the front of a stream buffer.
pub fn split_lines_exec(buffer: &str) -> (r: (Vec<String>, String))
    ensures
        r.0@.map_values(|l: String| l@) == split_lines(buffer@).0,
        r.1@ == split_lines(buffer@).1,
{
    proof {
        reveal_strlit("\n");
    }
    let cs = chars_of(buffer);
    let nl = chars_of("\n");
    let n = cs.len();
    let mut lines: Vec<String> = Vec::new();
    let mut start: usize = 0;
    assert(cs@.subrange(0, n as int) == cs@);
    assert(lines@.map_values(|l: String| l@) + split_lines(buffer@).0 =~= split_lines(buffer@).0);
    while start <= n
        invariant
            n == cs@.len(),
            cs@ == buffer@,
            nl@ == "\n"@,
            nl@.len() == 1,
            start <= n,
            split_lines(buffer@).0 == lines@.map_values(|l: String| l@) + split_lines(
                cs@.subrange(start as int, n as int),
            ).0,
            split_lines(buffer@).1 == split_lines(cs@.subrange(start as int, n as int)).1,
        decreases n + 1 - start,
    {
        let tail = substring(&cs, start, n);
        let tcs = chars_of(tail.as_str());
        match find_seq(&tcs, &nl) {
            Some(i) => {
                let line = substring(&tcs, 0, i + 1);
                let ghost before = lines@;
                lines.push(line);
                proof {
                    let t = cs@.subrange(start as int, n as int);
                    assert(t.subrange(i as int + 1, t.len() as int) =~= cs@.subrange(
                        start + i + 1,
                        n as int,
                    ));
                    assert(lines@.map_values(|l: String| l@) =~= before.map_values(
                        |l: String| l@,
                    ).push(t.subrange(0, i as int + 1)));
                    assert(seq![t.subrange(0, i as int + 1)] + split_lines(
                        t.subrange(i as int + 1, t.len() as int),
                    ).0 =~= split_lines(t).0);
                    assert(lines@.map_values(|l: String| l@) + split_lines(
                        cs@.subrange(start + i + 1, n as int),
                    ).0 =~= before.map_values(|l: String| l@) + split_lines(t).0);
                }
                start = start + i + 1;
            },
            None => {
                proof {
                    let t = cs@.subrange(start as int, n as int);
                    assert(split_lines(t) == (Seq::<Seq<char>>::empty(), t));
                    assert(lines@.map_values(|l: String| l@) + Seq::<Seq<char>>::empty()
                        =~= lines@.map_values(|l: String| l@));
                }
                return (lines, tail);
            },
        }
    }
    proof {
        assert(false);
    }
    (lines, owned(""))
}

/// The data of a server-sent event line: the trimmed line's text after
/// "data:", trimmed; `None` for any other line.
pub open spec fn sse_data_spec(line: Seq<char>) -> Option<Seq<char>> {
    let t = trim_seq(line);
    if starts_with_seq(t, "data:"@) {
        Some(trim_seq(t.subrange(5, t.len() as int)))
    } else {
        None
    }
}

/// The data of a server-sent event line.
pub fn sse_data(line: &str) -> (r: Option<String>)
    ensures
        match sse_data_spec(line@) {
            Some(d) => r matches Some(s) && s@ == d,
            None => r is None,
        },
{
    proof {
        reveal_strlit("data:");
    }
    let t = trim(line);
    let tcs = chars_of(t.as_str());
    let prefix = chars_of("data:");
    if crate::text::occurs_at_exec(&tcs, &prefix, 0) {
        let rest = substring(&tcs, 5, tcs.len());
        Some(trim(rest.as_str()))
    } else {
        None
    }
}

/// Whether event data marks the end of the stream.
pub fn is_done_marker(data: &str) -> (r: bool)
    ensures
        r == (data@ == "[DONE]"@),
{
    str_eq(data, "[DONE]")
}

/// The `i`-th piece of at most three bytes of `bytes`.
pub open spec fn byte_chunk(bytes: Seq<u8>, i: int) -> Seq<u8> {
    bytes.subrange(
        3 * i,
        if 3 * i + 3 <= bytes.len() {
            3 * i + 3
        } else {
            bytes.len() as int
        },
    )
}

/// The pieces in which the local mock gateway streams its reply to
/// `content`: the reply's UTF-8 bytes cut into pieces of three, each read
/// back as text with invalid sequences replaced.
pub fn mock_chunks(content: &str) -> (r: Vec<String>)
    ensures
        ({
            let bytes = encode_utf8(mock_reply_spec(content@));
            &&& r@.len() == (bytes.len() + 2) / 3
            &&& forall|i: int| 0 <= i < r@.len() ==> #[trigger] r@[i]@ == utf8_lossy(byte_chunk(bytes, i))
        }),
{
    let reply = mock_reply(content);
    let bytes = reply.as_str().as_bytes();
    proof {
        assert(bytes@ == encode_utf8(mock_reply_spec(content@)));
    }
    let n = bytes.len();
    let mut out: Vec<String> = Vec::new();
    let mut start: usize = 0;
    while start < n
        invariant
            n == bytes@.len(),
            start <= n,
            3 * out@.len() < n + 3,
            start == (if 3 * out@.len() <= n { 3 * out@.len() as int } else { n as int }),
            forall|i: int| 0 <= i < out@.len() ==> #[trigger] out@[i]@ == utf8_lossy(byte_chunk(bytes@, i)),
        decreases n - start,
    {
        let end = if n - start >= 3 {
            start + 3
        } else {
            n
        };
        let piece = vstd::slice::slice_subrange(bytes, start, end);
        proof {
            assert(piece@ == byte_chunk(bytes@, out@.len() as int));
        }
        out.push(lossy_text(piece));
        start = end;
    }
    out
}

/// The stream buffer after a chunk of bytes arrives: the chunk is read as
/// UTF-8 text, with invalid sequences replaced, and appended.
pub fn append_chunk(buffer: &str, chunk: &[u8]) -> (r: String)
    ensures
        r@ == buffer@ + utf8_lossy(chunk@),
{
    let text = lossy_text(chunk);
    join2(buffer, text.as_str())
}

/// What one line of a chat completion stream brings.
#[derive(Clone, Debug, PartialEq)]
pub enum ChatEvent {
    /// A piece of the reply.
    Delta(String),
    /// The end of the stream.
    Done,
    /// An error that ends the stream.
    Failed(String),
}

/// What one line of a chat completion stream brings, over text views.
pub enum StreamStep {
    Delta(Seq<char>),
    Done,
    Failed(Seq<char>),
}

/// The view of an event.
pub open spec fn event_view(e: ChatEvent) -> StreamStep {
    match e {
        ChatEvent::Delta(t) => StreamStep::Delta(t@),
        ChatEvent::Done => StreamStep::Done,
        ChatEvent::Failed(m) => StreamStep::Failed(m@),
    }
}

/// What a stream line brings: nothing for a line that is not event data or
/// whose data holds no delta text; the end for the "[DONE]" marker; an
/// error for data that is not JSON; else the text at
/// `/choices/0/delta/content`.
pub open spec fn line_step(line: Seq<char>) -> Option<StreamStep> {
    match sse_data_spec(line) {
        None => None,
        Some(data) => if data == "[DONE]"@ {
            Some(StreamStep::Done)
        } else {
            match json_text_at(data, "/choices/0/delta/content"@) {
                Err(m) => Some(StreamStep::Failed("GATEWAY_INVALID_RESPONSE: "@ + m)),
                Ok(Some(t)) => Some(StreamStep::Delta(t)),
                Ok(None) => None,
            }
        },
    }
}

/// What a run of stream lines brings, in order, up to and including the
/// first end or error.
pub open spec fn stream_steps(lines: Seq<Seq<char>>) -> Seq<StreamStep>
    decreases lines.len(),
{
    if lines.len() == 0 {
        Seq::empty()
    } else {
        match line_step(lines[0]) {
            None => stream_steps(lines.drop_first()),
            Some(StreamStep::Delta(t)) => seq![StreamStep::Delta(t)] + stream_steps(
                lines.drop_first(),
            ),
            Some(step) => seq![step],
        }
    }
}

/// What a stream line brings.
fn line_event(line: &str) -> (r: Option<ChatEvent>)
    ensures
        match line_step(line@) {
            None => r is None,
            Some(step) => r matches Some(e) && event_view(e) == step,
        },
{
    match sse_data(line) {
        None => None,
        Some(data) => {
            if is_done_marker(data.as_str()) {
                Some(ChatEvent::Done)
            } else {
                match json_string_at(data.as_str(), "/choices/0/delta/content") {
                    Err(m) => Some(ChatEvent::Failed(join2("GATEWAY_INVALID_RESPONSE: ", m.as_str()))),
                    Ok(Some(t)) => Some(ChatEvent::Delta(t)),
                    Ok(None) => None,
                }
            }
        },
    }
}

/// Takes the complete lines off the front of a chat stream buffer and
/// gives what they bring, up to and including the first end or error,
/// together with what remains of the buffer.
pub fn chat_stream_events(buffer: &str) -> (r: (Vec<ChatEvent>, String))
    ensures
        r.0@.map_values(|e: ChatEvent| event_view(e)) == stream_steps(split_lines(buffer@).0),
        r.1@ == split_lines(buffer@).1,
{
    let (lines, rest) = split_lines_exec(buffer);
    let ghost lv = lines@.map_values(|l: String| l@);
    let n = lines.len();
    let mut events: Vec<ChatEvent> = Vec::new();
    let mut i: usize = 0;
    assert(lv.subrange(0, n as int) =~= lv);
    while i < n
        invariant
            n == lines@.len(),
            lv == lines@.map_values(|l: String| l@),
            lv == split_lines(buffer@).0,
            rest@ == split_lines(buffer@).1,
            i <= n,
            events@.map_values(|e: ChatEvent| event_view(e)) + stream_steps(
                lv.subrange(i as int, n as int),
            ) == stream_steps(lv),
        decreases n - i,
    {
        let ghost tail = lv.subrange(i as int, n as int);
        let ghost ev = events@.map_values(|e: ChatEvent| event_view(e));
        proof {
            assert(tail[0] == lines@[i as int]@);
            assert(tail.drop_first() =~= lv.subrange(i + 1, n as int));
        }
        match line_event(lines[i].as_str()) {
            None => {},
            Some(ChatEvent::Delta(t)) => {
                events.push(ChatEvent::Delta(t));
                proof {
                    assert(events@.map_values(|e: ChatEvent| event_view(e)) =~= ev.push(
                        stream_steps(tail)[0],
                    ));
                    assert(ev + stream_steps(tail) =~= ev.push(stream_steps(tail)[0])
                        + stream_steps(lv.subrange(i + 1, n as int)));
                }
            },
            Some(e) => {
                events.push(e);
                proof {
                    assert(ev + stream_steps(tail) =~= events@.map_values(
                        |e: ChatEvent| event_view(e),
                    ));
                }
                return (events, rest);
            },
        }
        i = i + 1;
    }
    proof {
        assert(events@.map_values(|e: ChatEvent| event_view(e)) + Seq::<StreamStep>::empty()
            =~= events@.map_values(|e: ChatEvent| event_view(e)));
    }
    (events, rest)
}

/// What wakes a chat stream that is being read.
#[derive(Clone, Debug, PartialEq)]
pub enum StreamInput {
    /// An event of the gateway's stream (or a piece of the mock reply).
    Event(ChatEvent),
    /// The stop signal changed; `delivered` is false when its sender is
    /// gone.
    StopChanged { delivered: bool },
    /// The gateway's stream ended.
    Ended,
}

/// What the reader of a chat stream does next.
#[derive(Clone, Debug, PartialEq)]
pub enum StreamAction {
    /// Hands this piece of the reply to the window and reads on.
    Send(String),
    /// Ends the stream as complete.
    Finish,
    /// Ends the stream with this error.
    Fail(String),
}

/// What the reader does on `input` when the stop signal reads `stopped`: a
/// piece of the reply is sent unless the stream was stopped; the end
/// marker, or the stream's end, finishes it; an error ends it; a change of
/// the stop signal cancels the stream when it was delivered and reads
/// stopped, and otherwise ends it as complete.
pub fn stream_step(input: StreamInput, stopped: bool) -> (r: StreamAction)
    ensures
        match input {
            StreamInput::Event(ChatEvent::Delta(t)) => if stopped {
                r matches StreamAction::Fail(m) && m@ == "CANCELED: chat stream stopped"@
            } else {
                r matches StreamAction::Send(s) && s@ == t@
            },
            StreamInput::Event(ChatEvent::Done) => r is Finish,
            StreamInput::Event(ChatEvent::Failed(e)) => r matches StreamAction::Fail(m) && m@ == e@,
            StreamInput::StopChanged { delivered } => if delivered && stopped {
                r matches StreamAction::Fail(m) && m@ == "CANCELED: chat stream stopped"@
            } else {
                r is Finish
            },
            StreamInput::Ended => r is Finish,
        },
{
    match input {
        StreamInput::Event(ChatEvent::Delta(t)) => {
            if stopped {
                StreamAction::Fail(owned("CANCELED: chat stream stopped"))
            } else {
                StreamAction::Send(t)
            }
        },
        StreamInput::Event(ChatEvent::Done) => StreamAction::Finish,
        StreamInput::Event(ChatEvent::Failed(e)) => StreamAction::Fail(e),
        StreamInput::StopChanged { delivered } => {
            if delivered && stopped {
                StreamAction::Fail(owned("CANCELED: chat stream stopped"))
            } else {
                StreamAction::Finish
            }
        },
        StreamInput::Ended => StreamAction::Finish,
    }
}

} // verus!
