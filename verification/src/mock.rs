//! The offline mock model: it echoes the last user message in three streamed
//! pieces, with fixed usage figures; it has no non-streamed completion.

use vstd::prelude::*;
use crate::text::concat_str;

verus! {

/// The mock model client.
pub struct MockClient;

impl MockClient {
    pub fn new() -> (c: Self)
        ensures
            c == MockClient,
    {
        MockClient
    }

    pub fn provider_id(&self) -> (s: &'static str)
        ensures
            s@ == "mock"@,
    {
        "mock"
    }

    pub fn supports_streaming_tools(&self) -> (b: bool)
        ensures
            b,
    {
        true
    }

    /// The pieces the mock streams for a request whose last user text is `last_user`.
    pub fn reply_chunks(&self, last_user: &str) -> (chunks: Vec<String>)
        ensures
            chunks@.len() == 3,
            chunks@[0]@ == "[mock] 收到："@,
            chunks@[1]@ == "「"@ + last_user@ + "」"@,
            chunks@[2]@ == " — 这是一条假回复。"@,
    {
        let mut chunks: Vec<String> = Vec::new();
        chunks.push("[mock] 收到：".to_string());
        let a = concat_str("「", last_user);
        chunks.push(concat_str(a.as_str(), "」"));
        chunks.push(" — 这是一条假回复。".to_string());
        chunks
    }

    /// The full reply: the pieces in order.
    pub fn full_reply(&self, last_user: &str) -> (s: String)
        ensures
            s@ == "[mock] 收到："@ + ("「"@ + last_user@ + "」"@) + " — 这是一条假回复。"@,
    {
        let a = concat_str("「", last_user);
        let b = concat_str(a.as_str(), "」");
        let c = concat_str("[mock] 收到：", b.as_str());
        concat_str(c.as_str(), " — 这是一条假回复。")
    }
}


/// Why a model run stopped.
#[derive(Debug, Clone, Copy, PartialEq, Eq, Structural)]
pub enum FinishReason {
    Stop,
}

/// Token usage a model reports.
#[derive(Debug, Clone, Copy, PartialEq, Eq, Structural)]
pub struct Usage {
    pub input_tokens: u64,
    pub output_tokens: u64,
    pub cache_read_tokens: u64,
    pub cache_creation_tokens: u64,
}

/// A finished model response.
#[derive(Debug, PartialEq, Eq)]
pub struct ModelDone {
    pub finish: FinishReason,
    pub text: String,
    pub reasoning: String,
    pub usage: Usage,
}

/// What a mock stream does: the text deltas it reports, in order, and how it ends.
#[derive(Debug, PartialEq, Eq)]
pub struct MockStream {
    pub deltas: Vec<String>,
    pub outcome: Result<ModelDone, String>,
}

/// The error a mock stream ends with when a mid-stream failure is asked for.
pub open spec fn stream_error_text() -> Seq<char> {
    "模型流式返回错误：{\"error\":{\"message\":\"upstream stream disconnected: unexpected EOF\",\"type\":\"stream_read_error\"},\"type\":\"error\"}"@
}

/// The text of the last user entry, or nothing when there is none; `entries`
/// holds each transcript entry's user text (`None` for other entries).
pub fn last_user_text(entries: &Vec<Option<String>>) -> (t: String)
    ensures
        (exists|i: int| 0 <= i < entries@.len() && entries@[i] is Some) ==> ({
            let k = choose|k: int| 0 <= k < entries@.len() && entries@[k] is Some
                && forall|j: int| k < j < entries@.len() ==> entries@[j] is None;
            entries@[k] == Some(t)
        }),
        (forall|i: int| 0 <= i < entries@.len() ==> entries@[i] is None) ==> t@.len() == 0,
{
    let mut i: usize = entries.len();
    while i > 0
        invariant
            i <= entries.len(),
            forall|j: int| i <= j < entries@.len() ==> entries@[j] is None,
        decreases i,
    {
        match &entries[i - 1] {
            Some(t) => {
                proof {
                    let k0 = (i - 1) as int;
                    assert(0 <= k0 < entries@.len() && entries@[k0] is Some
                        && forall|j: int| k0 < j < entries@.len() ==> entries@[j] is None);
                    let k = choose|k: int| 0 <= k < entries@.len() && entries@[k] is Some
                        && forall|j: int| k < j < entries@.len() ==> entries@[j] is None;
                    assert(k == k0) by {
                        if k < k0 {
                            assert(entries@[k0] is None);
                        } else if k > k0 {
                            assert(entries@[k] is None);
                        }
                    }
                }
                return t.clone();
            },
            None => {},
        }
        i -= 1;
    }
    String::new()
}

impl MockClient {
    /// A non-streamed completion: the mock has none.
    pub fn complete(&self) -> (r: Result<ModelDone, String>)
        ensures
            r matches Err(e) && e@ == "mock provider 仅支持 stream"@,
    {
        Err("mock provider 仅支持 stream".to_string())
    }

    /// What a stream does for the last user text `last_user`: the three pieces
    /// of `reply_chunks`, then a stop with their concatenation, no reasoning
    /// and usage 8 in, 4 out, none cached. When a mid-stream failure is asked
    /// for, the first piece is reported and the stream ends with that error.
    pub fn stream_plan(&self, last_user: &str, fail_mid_stream: bool) -> (r: MockStream)
        ensures
            !fail_mid_stream ==> r.deltas@.len() == 3
                && r.deltas@[0]@ == "[mock] 收到："@
                && r.deltas@[1]@ == "「"@ + last_user@ + "」"@
                && r.deltas@[2]@ == " — 这是一条假回复。"@
                && (r.outcome matches Ok(d) && d.finish == FinishReason::Stop
                    && d.text@ == r.deltas@[0]@ + r.deltas@[1]@ + r.deltas@[2]@
                    && d.reasoning@.len() == 0
                    && d.usage == (Usage { input_tokens: 8, output_tokens: 4, cache_read_tokens: 0, cache_creation_tokens: 0 })),
            fail_mid_stream ==> r.deltas@.len() == 1 && r.deltas@[0]@ == "[mock] 收到："@
                && (r.outcome matches Err(e) && e@ == stream_error_text()),
    {
        if fail_mid_stream {
            let mut deltas: Vec<String> = Vec::new();
            deltas.push("[mock] 收到：".to_string());
            let e = "模型流式返回错误：{\"error\":{\"message\":\"upstream stream disconnected: unexpected EOF\",\"type\":\"stream_read_error\"},\"type\":\"error\"}".to_string();
            return MockStream { deltas, outcome: Err(e) };
        }
        let deltas = self.reply_chunks(last_user);
        let text = self.full_reply(last_user);
        MockStream {
            deltas,
            outcome: Ok(ModelDone {
                finish: FinishReason::Stop,
                text,
                reasoning: String::new(),
                usage: Usage { input_tokens: 8, output_tokens: 4, cache_read_tokens: 0, cache_creation_tokens: 0 },
            }),
        }
    }
}

} // verus!
