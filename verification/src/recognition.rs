//! Speech recognition: choosing a provider, the mock provider and its
//! streaming transcript, and reading the replies of the HTTP and WebSocket
//! services.

use vstd::prelude::*;
use vstd::string::*;
use crate::config::SpeechApiConfig;
use crate::json::{
    JsonValue, as_text, field_text, get_field, is_success_status, json_of, parse_json,
    success_status, text_or_empty,
};
use crate::text::{chars_of, has_prefix, push_char, str_eq, str_starts_with};

verus! {

/// The mock transcript for Chinese speech.
pub const ZH_TRANSCRIPT: &'static str = "这是一段测试语音转录文本。";

/// The mock transcript for all other speech.
pub const EN_TRANSCRIPT: &'static str = "This is a test speech transcription.";

/// The concatenation of `parts`, in order.
pub open spec fn concat(parts: Seq<Seq<char>>) -> Seq<char>
    decreases parts.len(),
{
    if parts.len() == 0 {
        Seq::<char>::empty()
    } else {
        concat(parts.drop_last()) + parts.last()
    }
}

/// `s` cut into consecutive pieces of `size` characters; the last piece may
/// be shorter, and an empty `s` gives no pieces.
pub open spec fn chunks_of(s: Seq<char>, size: nat) -> Seq<Seq<char>>
    decreases s.len(),
{
    if s.len() == 0 || size == 0 {
        Seq::<Seq<char>>::empty()
    } else if s.len() <= size {
        seq![s]
    } else {
        seq![s.take(size as int)] + chunks_of(s.skip(size as int), size)
    }
}

/// The piece size for a text of `n` characters: about a third, at least one.
pub open spec fn chunk_size(n: nat) -> nat {
    if n / 3 >= 1 {
        n / 3
    } else {
        1
    }
}

proof fn lemma_concat_append(a: Seq<Seq<char>>, b: Seq<Seq<char>>)
    ensures
        concat(a + b) == concat(a) + concat(b),
    decreases b.len(),
{
    if b.len() == 0 {
        assert(a + b =~= a);
        assert(concat(a) + concat(b) =~= concat(a));
    } else {
        assert((a + b).drop_last() =~= a + b.drop_last());
        lemma_concat_append(a, b.drop_last());
        assert(concat(a) + concat(b) =~= concat(a) + concat(b.drop_last()) + b.last());
    }
}

/// Joining the pieces gives back the text, whatever the piece size.
pub proof fn lemma_chunks_reassemble(s: Seq<char>, size: nat)
    requires
        size >= 1,
    ensures
        concat(chunks_of(s, size)) == s,
        forall|i: int|
            0 <= i < chunks_of(s, size).len() ==> (#[trigger] chunks_of(s, size)[i]).len() > 0,
    decreases s.len(),
{
    if s.len() == 0 {
        assert(concat(Seq::<Seq<char>>::empty()) =~= s);
    } else if s.len() <= size {
        assert(seq![s].drop_last() =~= Seq::<Seq<char>>::empty());
        assert(concat(Seq::<Seq<char>>::empty()) =~= Seq::<char>::empty());
        assert(concat(seq![s]) =~= s);
    } else {
        let head = s.take(size as int);
        let rest = s.skip(size as int);
        lemma_chunks_reassemble(rest, size);
        lemma_concat_append(seq![head], chunks_of(rest, size));
        assert(seq![head].drop_last() =~= Seq::<Seq<char>>::empty());
        assert(concat(Seq::<Seq<char>>::empty()) =~= Seq::<char>::empty());
        assert(concat(seq![head]) =~= head);
        assert(head + rest =~= s);
        let c = chunks_of(s, size);
        assert forall|i: int| 0 <= i < c.len() implies (#[trigger] c[i]).len() > 0 by {
            if i > 0 {
                assert(c[i] == chunks_of(rest, size)[i - 1]);
            }
        }
    }
}

/// What the `k`-th poll of a stream over `chunks` gives is a prefix of what
/// `finish` gives, and a longer one for each later poll.
pub proof fn lemma_partials_grow(chunks: Seq<Seq<char>>, j: int, k: int)
    requires
        0 <= j <= k <= chunks.len(),
    ensures
        concat(chunks.take(k)).len() <= concat(chunks).len(),
        concat(chunks.take(k)) == concat(chunks).subrange(0, concat(chunks.take(k)).len() as int),
        concat(chunks.take(j)) == concat(chunks.take(k)).subrange(
            0,
            concat(chunks.take(j)).len() as int,
        ),
{
    lemma_concat_append(chunks.take(k), chunks.skip(k));
    assert(chunks.take(k) + chunks.skip(k) =~= chunks);
    let tk = chunks.take(k);
    lemma_concat_append(tk.take(j), tk.skip(j));
    assert(tk.take(j) + tk.skip(j) =~= tk);
    assert(tk.take(j) =~= chunks.take(j));
    let a = concat(chunks.take(k));
    let b = concat(chunks.skip(k));
    assert((a + b).subrange(0, a.len() as int) =~= a);
    let c = concat(chunks.take(j));
    let e = concat(tk.skip(j));
    assert((c + e).subrange(0, c.len() as int) =~= c);
}

/// The pieces of the mock stream join back into its text: polling until
/// nothing is left and then finishing gives the whole text.
pub proof fn lemma_mock_stream_full_text(text: Seq<char>)
    ensures
        concat(mock_chunks(text)) == text,
{
    lemma_chunks_reassemble(text, chunk_size(text.len()));
}

/// Polling a mock stream made for `text`: the poll that delivers piece `i`
/// (counting from 0) gives a prefix of `text` strictly longer than the poll
/// before it, and the poll that delivers the last piece gives `text` itself;
/// after that, polls give nothing (the contract of `poll_transcript`).
pub proof fn lemma_mock_polls(text: Seq<char>, i: int)
    requires
        0 <= i < mock_chunks(text).len(),
    ensures
        concat(mock_chunks(text).take(i)).len() < concat(mock_chunks(text).take(i + 1)).len(),
        concat(mock_chunks(text).take(i)) == concat(mock_chunks(text).take(i + 1)).subrange(
            0,
            concat(mock_chunks(text).take(i)).len() as int,
        ),
        concat(mock_chunks(text).take(i + 1)) == text.subrange(
            0,
            concat(mock_chunks(text).take(i + 1)).len() as int,
        ),
        i == mock_chunks(text).len() - 1 ==> concat(mock_chunks(text).take(i + 1)) == text,
{
    let c = mock_chunks(text);
    lemma_chunks_reassemble(text, chunk_size(text.len()));
    lemma_partials_grow(c, i, i + 1);
    assert(c.take(i + 1).drop_last() =~= c.take(i));
    assert(c.take(i + 1).last() == c[i]);
    assert(c[i].len() > 0);
    if i == c.len() - 1 {
        assert(c.take(i + 1) =~= c);
    }
}

/// The pieces in which the mock stream delivers `text`.
pub open spec fn mock_chunks(text: Seq<char>) -> Seq<Seq<char>> {
    chunks_of(text, chunk_size(text.len()))
}

/// A streaming session's state: its pieces and how many were delivered.
pub struct MockStreamView {
    pub chunks: Seq<Seq<char>>,
    pub index: nat,
}

/// A mock streaming session that delivers a fixed text in about three pieces.
pub struct MockStream {
    chunks: Vec<String>,
    index: usize,
}

impl View for MockStream {
    type V = MockStreamView;

    closed spec fn view(&self) -> MockStreamView {
        MockStreamView {
            chunks: self.chunks@.map_values(|s: String| s@),
            index: self.index as nat,
        }
    }
}

/// The characters `v[from..to]` as a string.
fn string_of_range(v: &Vec<char>, from: usize, to: usize) -> (s: String)
    requires
        from <= to <= v@.len(),
    ensures
        s@ == v@.subrange(from as int, to as int),
{
    let mut s = String::new();
    let mut j = from;
    while j < to
        invariant
            from <= j <= to <= v@.len(),
            s@ == v@.subrange(from as int, j as int),
        decreases to - j,
    {
        push_char(&mut s, v[j]);
        assert(v@.subrange(from as int, j + 1) =~= v@.subrange(from as int, j as int).push(
            v@[j as int],
        ));
        j = j + 1;
    }
    s
}

impl MockStream {
    /// No more pieces are delivered than there are.
    pub closed spec fn wf(&self) -> bool {
        self.index <= self.chunks@.len()
    }

    /// A session that delivers `text` in pieces of a third of its length.
    pub fn new(text: &str) -> (s: MockStream)
        ensures
            s.wf(),
            s@.chunks == mock_chunks(text@),
            s@.index == 0,
    {
        let chars = chars_of(text);
        let n = chars.len();
        let size = if n / 3 >= 1 {
            n / 3
        } else {
            1
        };
        let ghost sz = chunk_size(text@.len());
        assert(size == sz);
        let mut chunks: Vec<String> = Vec::new();
        let mut start: usize = 0;
        assert(text@.skip(0) =~= text@);
        assert(chunks@.map_values(|s: String| s@) =~= Seq::<Seq<char>>::empty());
        while start < n
            invariant
                chars@ == text@,
                n == chars@.len(),
                size == sz,
                size >= 1,
                start <= n,
                mock_chunks(text@) == chunks@.map_values(|s: String| s@) + chunks_of(
                    text@.skip(start as int),
                    sz,
                ),
            decreases n - start,
        {
            let ghost rest = text@.skip(start as int);
            let end = if n - start <= size {
                n
            } else {
                start + size
            };
            let piece = string_of_range(&chars, start, end);
            proof {
                if n - start <= size {
                    assert(chunks_of(rest, sz) == seq![rest]);
                    assert(text@.subrange(start as int, end as int) =~= rest);
                    assert(text@.skip(end as int) =~= Seq::<char>::empty());
                } else {
                    assert(chunks_of(rest, sz) == seq![rest.take(sz as int)] + chunks_of(
                        rest.skip(sz as int),
                        sz,
                    ));
                    assert(text@.subrange(start as int, end as int) =~= rest.take(sz as int));
                    assert(rest.skip(sz as int) =~= text@.skip(end as int));
                }
            }
            let ghost before = chunks@.map_values(|s: String| s@);
            chunks.push(piece);
            assert(chunks@.map_values(|s: String| s@) =~= before.push(piece@));
            proof {
                if n - start <= size {
                    assert(chunks_of(text@.skip(end as int), sz) =~= Seq::<Seq<char>>::empty());
                    assert(before + chunks_of(rest, sz) =~= before.push(piece@) + chunks_of(
                        text@.skip(end as int),
                        sz,
                    ));
                } else {
                    assert(before + chunks_of(rest, sz) =~= before.push(piece@) + chunks_of(
                        text@.skip(end as int),
                        sz,
                    ));
                }
            }
            start = end;
        }
        assert(text@.skip(n as int) =~= Seq::<char>::empty());
        assert(chunks@.map_values(|s: String| s@) + chunks_of(text@.skip(n as int), sz)
            =~= chunks@.map_values(|s: String| s@));
        MockStream { chunks, index: 0 }
    }

    /// The concatenation of the first `k` pieces.
    fn joined(&self, k: usize) -> (s: String)
        requires
            k <= self@.chunks.len(),
        ensures
            s@ == concat(self@.chunks.take(k as int)),
    {
        let mut s = String::new();
        let mut j: usize = 0;
        assert(self@.chunks.take(0) =~= Seq::<Seq<char>>::empty());
        while j < k
            invariant
                j <= k <= self@.chunks.len(),
                s@ == concat(self@.chunks.take(j as int)),
            decreases k - j,
        {
            let ghost cs = self@.chunks;
            assert(cs.take(j + 1).drop_last() =~= cs.take(j as int));
            assert(cs.take(j + 1).last() == self.chunks@[j as int]@);
            s.append(self.chunks[j].as_str());
            j = j + 1;
        }
        s
    }

    /// The transcript so far: each call delivers one more piece and gives
    /// all delivered pieces joined, until none is left.
    pub fn poll_transcript(&mut self) -> (r: Option<String>)
        requires
            old(self).wf(),
        ensures
            final(self).wf(),
            final(self)@.chunks == old(self)@.chunks,
            old(self)@.index < old(self)@.chunks.len() ==> final(self)@.index == old(self)@.index + 1
                && (r matches Some(p) && p@ == concat(old(self)@.chunks.take(old(self)@.index + 1 as int))),
            old(self)@.index >= old(self)@.chunks.len() ==> final(self)@.index == old(self)@.index
                && r is None,
    {
        if self.index < self.chunks.len() {
            let partial = self.joined(self.index + 1);
            self.index = self.index + 1;
            Some(partial)
        } else {
            None
        }
    }

    /// The final transcript: all pieces joined.
    pub fn finish(&mut self) -> (r: Result<String, RecognitionError>)
        ensures
            final(self)@ == old(self)@,
            r matches Ok(s) && s@ == concat(old(self)@.chunks),
    {
        let s = self.joined(self.chunks.len());
        assert(self@.chunks.take(self@.chunks.len() as int) =~= self@.chunks);
        Ok(s)
    }
}

/// Why a transcription failed.
#[derive(Debug, PartialEq, Eq)]
pub enum RecognitionError {
    /// The provider has no streaming mode.
    StreamingUnsupported,
    /// The service answered with an error status.
    Api { status: u16, body: String },
    /// The service's reply was not JSON.
    InvalidJson,
    /// The service's reply held no `text` string.
    MissingText,
}

/// The kinds of speech-recognition back-end.
#[derive(Clone, Copy, Debug, PartialEq, Eq, Structural)]
pub enum ProviderKind {
    OpenAiHttp,
    WebSocket,
    Mock,
}

/// The back-end that a provider name selects; unknown names select the mock.
pub open spec fn spec_provider_kind(name: Seq<char>) -> ProviderKind {
    if name == "openai_http"@ {
        ProviderKind::OpenAiHttp
    } else if name == "websocket"@ {
        ProviderKind::WebSocket
    } else {
        ProviderKind::Mock
    }
}

/// The back-end that `config.provider` selects.
pub fn provider_kind(config: &SpeechApiConfig) -> (k: ProviderKind)
    ensures
        k == spec_provider_kind(config.provider@),
{
    if str_eq(config.provider.as_str(), "openai_http") {
        ProviderKind::OpenAiHttp
    } else if str_eq(config.provider.as_str(), "websocket") {
        ProviderKind::WebSocket
    } else {
        ProviderKind::Mock
    }
}

/// The mock transcript for the configured speech language.
pub open spec fn mock_transcript(language: Seq<char>) -> Seq<char> {
    if has_prefix(language, "zh"@) {
        ZH_TRANSCRIPT@
    } else {
        EN_TRANSCRIPT@
    }
}

/// Every language code beginning with the letters `zh` (Chinese, in any
/// region) gets the Chinese transcript; every other code gets the English one.
pub proof fn lemma_mock_transcript_language(language: Seq<char>)
    ensures
        language.len() >= 2 && language[0] == 'z' && language[1] == 'h' ==> mock_transcript(language)
            == ZH_TRANSCRIPT@,
        !(language.len() >= 2 && language[0] == 'z' && language[1] == 'h') ==> mock_transcript(
            language,
        ) == EN_TRANSCRIPT@,
{
    reveal_strlit("zh");
    if language.len() >= 2 && language[0] == 'z' && language[1] == 'h' {
        assert(language.subrange(0, 2) =~= "zh"@);
    } else if has_prefix(language, "zh"@) {
        assert(language.subrange(0, 2)[0] == language[0]);
        assert(language.subrange(0, 2)[1] == language[1]);
    }
}

/// A provider that answers with a fixed transcript.
pub struct MockProvider;

impl MockProvider {
    fn transcript(config: &SpeechApiConfig) -> (t: &'static str)
        ensures
            t@ == mock_transcript(config.language@),
    {
        if str_starts_with(config.language.as_str(), "zh") {
            ZH_TRANSCRIPT
        } else {
            EN_TRANSCRIPT
        }
    }

    /// Transcribe a fully-recorded WAV file: the fixed transcript for the
    /// configured language, whatever the audio.
    pub fn transcribe_full(&self, audio_wav: Vec<u8>, config: &SpeechApiConfig) -> (r: Result<
        String,
        RecognitionError,
    >)
        ensures
            r matches Ok(s) && s@ == mock_transcript(config.language@),
    {
        Ok(String::from_str(Self::transcript(config)))
    }

    /// Open a streaming session that delivers the fixed transcript.
    pub fn start_stream(&self, config: &SpeechApiConfig) -> (r: Result<MockStream, RecognitionError>)
        ensures
            r matches Ok(s) && s.wf() && s@.index == 0 && s@.chunks == mock_chunks(
                mock_transcript(config.language@),
            ),
    {
        Ok(MockStream::new(Self::transcript(config)))
    }

    /// Whether this provider supports low-latency streaming.
    pub fn supports_streaming(&self) -> (b: bool)
        ensures
            b,
    {
        true
    }
}

/// The fields of a transcription upload.
pub struct TranscriptionForm {
    pub endpoint: String,
    pub file_name: String,
    pub mime_type: String,
    pub model: String,
    pub language: String,
    pub response_format: String,
    /// Sent as a bearer token when present.
    pub bearer_token: Option<String>,
}

/// What a successful transcription reply yields: a malformed reply, or the
/// reply's `text`.
pub open spec fn transcript_in(reply: Option<JsonValue>) -> Result<Seq<char>, RecognitionError> {
    match reply {
        None => Err(RecognitionError::InvalidJson),
        Some(v) => match as_text(get_field(v, "text"@)) {
            Some(t) => Ok(t),
            None => Err(RecognitionError::MissingText),
        },
    }
}

/// A provider that uploads the recording to an OpenAI-compatible
/// transcription endpoint.
pub struct OpenAiHttpProvider;

impl OpenAiHttpProvider {
    /// The upload for a recording under `config`.
    pub fn request_form(&self, config: &SpeechApiConfig) -> (f: TranscriptionForm)
        ensures
            f.endpoint@ == config.endpoint@,
            f.file_name@ == "audio.wav"@,
            f.mime_type@ == "audio/wav"@,
            f.model@ == config.model@,
            f.language@ == config.language@,
            f.response_format@ == "json"@,
            config.api_key@.len() == 0 ==> f.bearer_token is None,
            config.api_key@.len() > 0 ==> (f.bearer_token matches Some(b) && b@ == config.api_key@),
    {
        let bearer_token = if config.api_key.as_str().is_empty() {
            None
        } else {
            Some(config.api_key.clone())
        };
        TranscriptionForm {
            endpoint: config.endpoint.clone(),
            file_name: String::from_str("audio.wav"),
            mime_type: String::from_str("audio/wav"),
            model: config.model.clone(),
            language: config.language.clone(),
            response_format: String::from_str("json"),
            bearer_token,
        }
    }

    /// The transcript from the service's answer: `status` is the reply's
    /// HTTP status and `body` its text.
    pub fn transcription(&self, status: u16, body: String) -> (r: Result<String, RecognitionError>)
        ensures
            !success_status(status) ==> (r matches Err(RecognitionError::Api { status: s, body: b })
                && s == status && b@ == body@),
            success_status(status) ==> match (r, transcript_in(json_of(body@))) {
                (Ok(s), Ok(t)) => s@ == t,
                (Err(e), Err(f)) => e == f,
                _ => false,
            },
    {
        if !is_success_status(status) {
            return Err(RecognitionError::Api { status, body });
        }
        let reply = parse_json(body.as_str());
        self.transcription_from_json(true, status, body, reply)
    }

    /// The transcript from the service's answer: `success` and `status` are
    /// the reply's status, `body` its text and `reply` that text read as JSON
    /// (`None` when it is not JSON).
    pub fn transcription_from_json(
        &self,
        success: bool,
        status: u16,
        body: String,
        reply: Option<JsonValue>,
    ) -> (r: Result<String, RecognitionError>)
        ensures
            !success ==> (r matches Err(RecognitionError::Api { status: s, body: b }) && s == status
                && b@ == body@),
            success ==> match (r, transcript_in(reply)) {
                (Ok(s), Ok(t)) => s@ == t,
                (Err(e), Err(f)) => e == f,
                _ => false,
            },
    {
        if !success {
            return Err(RecognitionError::Api { status, body });
        }
        match reply {
            None => Err(RecognitionError::InvalidJson),
            Some(v) => match field_text(&v, "text") {
                Some(t) => Ok(t),
                None => Err(RecognitionError::MissingText),
            },
        }
    }

    /// Whether this provider supports low-latency streaming.
    pub fn supports_streaming(&self) -> (b: bool)
        ensures
            !b,
    {
        false
    }

    /// Streaming is refused.
    pub fn start_stream(&self, config: &SpeechApiConfig) -> (r: RecognitionError)
        ensures
            r == RecognitionError::StreamingUnsupported,
    {
        RecognitionError::StreamingUnsupported
    }
}

/// The text frame that ends the audio of a WebSocket session.
pub const WS_END_MESSAGE: &'static str = "{\"type\":\"end\"}";

/// A frame received from the WebSocket service.
pub enum WsIncoming {
    /// A text frame.
    Text(String),
    /// The service closed the session.
    Close,
    /// Any other frame.
    Other,
}

/// What to do after a frame.
#[derive(Debug, PartialEq, Eq)]
pub enum WsStep {
    /// Wait for the next frame.
    Continue,
    /// The session is over, with this final transcript.
    Done(String),
}

/// The step after a text frame read as `reply` (`None` when it is not
/// JSON): a `final` message gives its text, anything else waits for more.
pub open spec fn spec_text_step(reply: Option<JsonValue>) -> Option<Seq<char>> {
    match reply {
        Some(v) => if as_text(get_field(v, "type"@)) == Some("final"@) {
            Some(text_or_empty(v, "text"@))
        } else {
            None
        },
        None => None,
    }
}

/// The step after a frame: a `final` message gives its text, a close ends
/// with no text, anything else waits for more.
pub open spec fn spec_ws_step(frame: WsIncoming) -> Option<Seq<char>> {
    match frame {
        WsIncoming::Text(t) => spec_text_step(json_of(t@)),
        WsIncoming::Close => Some(Seq::<char>::empty()),
        WsIncoming::Other => None,
    }
}

/// A provider that streams the recording to a WebSocket service.
pub struct WebSocketProvider;

impl WebSocketProvider {
    /// The step to take after `frame`; `Done` carries the final transcript.
    pub fn on_frame(&self, frame: WsIncoming) -> (s: WsStep)
        ensures
            match spec_ws_step(frame) {
                Some(t) => s matches WsStep::Done(d) && d@ == t,
                None => s == WsStep::Continue,
            },
    {
        match frame {
            WsIncoming::Text(t) => self.on_text(parse_json(t.as_str())),
            WsIncoming::Close => WsStep::Done(String::new()),
            WsIncoming::Other => WsStep::Continue,
        }
    }

    /// The step to take after a text frame read as `reply` (`None` when it is
    /// not JSON).
    pub fn on_text(&self, reply: Option<JsonValue>) -> (s: WsStep)
        ensures
            match spec_text_step(reply) {
                Some(t) => s matches WsStep::Done(d) && d@ == t,
                None => s == WsStep::Continue,
            },
    {
        match reply {
            Some(v) => {
                let is_final = match field_text(&v, "type") {
                    Some(t) => str_eq(t.as_str(), "final"),
                    None => false,
                };
                if is_final {
                    match field_text(&v, "text") {
                        Some(t) => WsStep::Done(t),
                        None => WsStep::Done(String::new()),
                    }
                } else {
                    WsStep::Continue
                }
            },
            None => WsStep::Continue,
        }
    }

    /// Whether this provider supports low-latency streaming.
    pub fn supports_streaming(&self) -> (b: bool)
        ensures
            b,
    {
        true
    }
}

} // verus!
