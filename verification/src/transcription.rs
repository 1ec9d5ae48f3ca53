use vstd::prelude::*;
use vstd::string::*;

use crate::wav::{pcm_to_wav, wav_file, wav_fits};

verus! {

/// How long the stages of a local transcription took, in milliseconds.
#[derive(Debug, Clone, Copy, PartialEq, Eq, Structural)]
pub struct TranscriptionTiming {
    pub model_load_ms: u64,
    pub inference_ms: u64,
    pub segment_collect_ms: u64,
    pub total_transcription_ms: u64,
}

/// The characters with the Unicode `White_Space` property.
pub open spec fn is_white_space(c: char) -> bool {
    let x = c as u32;
    ||| 0x09 <= x <= 0x0d
    ||| x == 0x20
    ||| x == 0x85
    ||| x == 0xa0
    ||| x == 0x1680
    ||| 0x2000 <= x <= 0x200a
    ||| x == 0x2028
    ||| x == 0x2029
    ||| x == 0x202f
    ||| x == 0x205f
    ||| x == 0x3000
}

/// Among ASCII characters, exactly space, tab, line feed, vertical tab, form
/// feed and carriage return are white space; the no-break spaces and the
/// ideographic space are white space too.
pub proof fn lemma_white_space_ascii(c: char)
    ensures
        (c as u32) < 0x80 ==> (is_white_space(c) == (c == ' ' || c == '\t' || c == '\n' || c
            == '\r' || (c as u32) == 0x0b || (c as u32) == 0x0c)),
        (c as u32) == 0xa0 || (c as u32) == 0x202f || (c as u32) == 0x3000 ==> is_white_space(c),
{
}

/// `s` without its leading white space.
pub open spec fn trim_start_spec(s: Seq<char>) -> Seq<char>
    decreases s.len(),
{
    if s.len() > 0 && is_white_space(s[0]) {
        trim_start_spec(s.drop_first())
    } else {
        s
    }
}

/// `s` without its trailing white space.
pub open spec fn trim_end_spec(s: Seq<char>) -> Seq<char>
    decreases s.len(),
{
    if s.len() > 0 && is_white_space(s.last()) {
        trim_end_spec(s.drop_last())
    } else {
        s
    }
}

/// `s` without leading and trailing white space.
pub open spec fn trim_spec(s: Seq<char>) -> Seq<char> {
    trim_end_spec(trim_start_spec(s))
}

/// Calls `str::trim`, which removes leading and trailing characters with the
/// Unicode `White_Space` property, and copies the rest into a new string.
#[verifier::external_body]
fn trim_text(s: &str) -> (r: String)
    ensures
        r@ == trim_spec(s@),
{
    s.trim().to_string()
}

/// The strings of `parts` one after another.
pub open spec fn concat_all(parts: Seq<Seq<char>>) -> Seq<char>
    decreases parts.len(),
{
    if parts.len() == 0 {
        Seq::empty()
    } else {
        concat_all(parts.drop_last()) + parts.last()
    }
}

/// Strings as plain values.
pub open spec fn strings_view(v: Seq<String>) -> Seq<Seq<char>> {
    v.map_values(|s: String| s@)
}

/// Joining is plain concatenation: nothing joined is empty, and joining one
/// more part appends exactly that part, so every part appears, in order.
pub proof fn lemma_concat_all_appends(parts: Seq<Seq<char>>, x: Seq<char>)
    ensures
        concat_all(Seq::<Seq<char>>::empty()) == Seq::<char>::empty(),
        concat_all(parts.push(x)) == concat_all(parts) + x,
        concat_all(seq![x]) == x,
{
    assert(parts.push(x).drop_last() =~= parts);
    assert(seq![x].drop_last() =~= Seq::<Seq<char>>::empty());
    assert(Seq::<char>::empty() + x =~= x);
}

/// Joining two lists of parts one after the other is joining each and putting
/// the results side by side.
pub proof fn lemma_concat_all_split(a: Seq<Seq<char>>, b: Seq<Seq<char>>)
    ensures
        concat_all(a + b) == concat_all(a) + concat_all(b),
    decreases b.len(),
{
    if b.len() == 0 {
        assert(a + b =~= a);
        assert(concat_all(a) + Seq::<char>::empty() =~= concat_all(a));
    } else {
        lemma_concat_all_split(a, b.drop_last());
        assert((a + b).drop_last() =~= a + b.drop_last());
        assert((a + b).last() == b.last());
        assert(concat_all(a) + concat_all(b.drop_last()) + b.last() =~= concat_all(a) + (
        concat_all(b.drop_last()) + b.last()));
    }
}

/// The joined text is as long as all parts together and holds part `i` right
/// after the parts before it.
pub proof fn lemma_concat_all_holds_each_part(parts: Seq<Seq<char>>, i: int)
    requires
        0 <= i < parts.len(),
    ensures
        concat_all(parts) == concat_all(parts.take(i)) + parts[i] + concat_all(
            parts.skip(i + 1),
        ),
{
    lemma_concat_all_split(parts.take(i), parts.skip(i));
    assert(parts.take(i) + parts.skip(i) =~= parts);
    lemma_concat_all_split(seq![parts[i]], parts.skip(i + 1));
    assert(seq![parts[i]] + parts.skip(i + 1) =~= parts.skip(i));
    lemma_concat_all_appends(Seq::<Seq<char>>::empty(), parts[i]);
    assert(concat_all(parts.take(i)) + (parts[i] + concat_all(parts.skip(i + 1))) =~= concat_all(
        parts.take(i),
    ) + parts[i] + concat_all(parts.skip(i + 1)));
}

/// Viewing strings keeps each of them, in order.
pub proof fn lemma_strings_view(v: Seq<String>)
    ensures
        strings_view(v).len() == v.len(),
        forall|i: int| 0 <= i < v.len() ==> #[trigger] strings_view(v)[i] == v[i]@,
{
}

/// `s` with its leading white space removed: what is left starts at some
/// position `i`, everything before it is white space, and what is left does
/// not start with white space.
proof fn lemma_trim_start(s: Seq<char>) -> (i: int)
    ensures
        0 <= i <= s.len(),
        trim_start_spec(s) == s.skip(i),
        forall|k: int| 0 <= k < i ==> is_white_space(#[trigger] s[k]),
        trim_start_spec(s).len() > 0 ==> !is_white_space(trim_start_spec(s)[0]),
    decreases s.len(),
{
    if s.len() > 0 && is_white_space(s[0]) {
        let i0 = lemma_trim_start(s.drop_first());
        assert(s.drop_first().skip(i0) =~= s.skip(i0 + 1));
        assert forall|k: int| 0 <= k < i0 + 1 implies is_white_space(#[trigger] s[k]) by {
            if k > 0 {
                assert(s[k] == s.drop_first()[k - 1]);
            }
        }
        i0 + 1
    } else {
        assert(s.skip(0) =~= s);
        0
    }
}

/// `s` with its trailing white space removed: what is left ends at some
/// position `j`, everything from there on is white space, and what is left
/// does not end with white space.
proof fn lemma_trim_end(s: Seq<char>) -> (j: int)
    ensures
        0 <= j <= s.len(),
        trim_end_spec(s) == s.take(j),
        forall|k: int| j <= k < s.len() ==> is_white_space(#[trigger] s[k]),
        trim_end_spec(s).len() > 0 ==> !is_white_space(trim_end_spec(s).last()),
    decreases s.len(),
{
    if s.len() > 0 && is_white_space(s.last()) {
        let j0 = lemma_trim_end(s.drop_last());
        assert(s.drop_last().take(j0) =~= s.take(j0));
        assert forall|k: int| j0 <= k < s.len() implies is_white_space(#[trigger] s[k]) by {
            if k < s.len() - 1 {
                assert(s[k] == s.drop_last()[k]);
            }
        }
        j0
    } else {
        assert(s.take(s.len() as int) =~= s);
        s.len() as int
    }
}

/// Trimming removes white space from both ends and nothing else: the result
/// is a contiguous piece of the input, everything cut off is white space, and
/// a non-empty result neither starts nor ends with white space.
pub proof fn lemma_trim_cuts_only_outer_white_space(s: Seq<char>)
    ensures
        exists|i: int, j: int|
            0 <= i <= j <= s.len() && trim_spec(s) == s.subrange(i, j) && (forall|k: int|
                0 <= k < i ==> is_white_space(#[trigger] s[k])) && (forall|k: int|
                j <= k < s.len() ==> is_white_space(#[trigger] s[k])),
        trim_spec(s).len() > 0 ==> !is_white_space(trim_spec(s)[0]) && !is_white_space(
            trim_spec(s).last(),
        ),
{
    let i = lemma_trim_start(s);
    let t = s.skip(i);
    let j = lemma_trim_end(t);
    assert(t.take(j) =~= s.subrange(i, i + j));
    assert forall|k: int| i + j <= k < s.len() implies is_white_space(#[trigger] s[k]) by {
        assert(s[k] == t[k - i]);
    }
    if trim_spec(s).len() > 0 {
        assert(trim_spec(s)[0] == t[0]);
    }
    assert(0 <= i <= i + j <= s.len() && trim_spec(s) == s.subrange(i, i + j));
}

/// The text of a local transcription: the recognised segments joined without
/// separator, with surrounding white space removed.
pub fn collect_transcript(segments: &Vec<String>) -> (text: String)
    ensures
        text@ == trim_spec(concat_all(strings_view(segments@))),
{
    let mut joined = String::new();
    let ghost parts = strings_view(segments@);
    let mut i: usize = 0;
    assert(parts.take(0) =~= Seq::<Seq<char>>::empty());
    while i < segments.len()
        invariant
            i <= segments@.len(),
            parts == strings_view(segments@),
            joined@ == concat_all(parts.take(i as int)),
        decreases segments@.len() - i,
    {
        joined.append(segments[i].as_str());
        proof {
            assert(parts.take(i + 1).drop_last() =~= parts.take(i as int));
            assert(parts.take(i + 1).last() == segments@[i as int]@);
        }
        i = i + 1;
    }
    assert(parts.take(segments@.len() as int) =~= parts);
    trim_text(joined.as_str())
}


/// The sample rate of the audio sent for cloud transcription, in hertz.
pub const GROQ_SAMPLE_RATE: u32 = 16000;

/// A transcription request to the Groq service: a multipart form with the
/// WAV recording and the model and response-format fields, posted with a
/// bearer token.
pub struct GroqRequest {
    pub url: String,
    pub authorization: String,
    pub model: String,
    pub response_format: String,
    pub file_name: String,
    pub mime_type: String,
    pub wav: Vec<u8>,
}

/// The request for transcribing `samples` (16-bit, 16 kHz mono) with the
/// given API key; an empty key is refused with "Groq API key not set" before
/// anything is encoded.
pub fn groq_request(api_key: &str, samples: &[i16]) -> (r: Result<GroqRequest, String>)
    requires
        api_key@.len() > 0 ==> wav_fits(samples@.len(), GROQ_SAMPLE_RATE),
    ensures
        (r is Err) == (api_key@.len() == 0),
        r matches Err(e) ==> e@ == "Groq API key not set"@,
        r matches Ok(req) ==> {
            &&& req.url@ == "https://api.groq.com/openai/v1/audio/transcriptions"@
            &&& req.authorization@ == "Bearer "@ + api_key@
            &&& req.model@ == "whisper-large-v3-turbo"@
            &&& req.response_format@ == "json"@
            &&& req.file_name@ == "audio.wav"@
            &&& req.mime_type@ == "audio/wav"@
            &&& req.wav@ == wav_file(samples@, GROQ_SAMPLE_RATE)
        },
{
    if api_key.is_empty() {
        return Err(String::from_str("Groq API key not set"));
    }
    let wav = pcm_to_wav(samples, GROQ_SAMPLE_RATE);
    let mut authorization = String::from_str("Bearer ");
    authorization.append(api_key);
    Ok(GroqRequest {
        url: String::from_str("https://api.groq.com/openai/v1/audio/transcriptions"),
        authorization,
        model: String::from_str("whisper-large-v3-turbo"),
        response_format: String::from_str("json"),
        file_name: String::from_str("audio.wav"),
        mime_type: String::from_str("audio/wav"),
        wav,
    })
}

/// The error reported for a response whose status is not a success:
/// "Groq API error ", the status, ": " and the response body.
pub fn groq_error_message(status: &str, body: &str) -> (msg: String)
    ensures
        msg@ == "Groq API error "@ + status@ + ": "@ + body@,
{
    let mut msg = String::from_str("Groq API error ");
    msg.append(status);
    msg.append(": ");
    msg.append(body);
    msg
}

/// What `serde_json` finds in a JSON document under a key of its top-level
/// object: `None` when the bytes are not a JSON document, `Some(None)` when
/// the document is not an object, lacks the key, or holds a non-string there,
/// and `Some(Some(s))` when it holds the string `s` there.
pub uninterp spec fn json_string_member(body: Seq<u8>, key: Seq<char>) -> Option<Option<Seq<char>>>;

/// An optional member as a plain value.
pub open spec fn member_view(m: Option<Option<String>>) -> Option<Option<Seq<char>>> {
    match m {
        Some(Some(s)) => Some(Some(s@)),
        Some(None) => Some(None),
        None => None,
    }
}

/// Viewing an optional member keeps which of the three cases it is and the
/// characters of a found string.
pub proof fn lemma_member_view(m: Option<Option<String>>)
    ensures
        (member_view(m) is None) == (m is None),
        (member_view(m) == Some(None::<Seq<char>>)) == (m == Some(None::<String>)),
        m matches Some(Some(t)) ==> member_view(m) == Some(Some(t@)),
{
}

/// Calls `serde_json::from_slice` to parse `body` into a `serde_json::Value`,
/// then `Value::get` with `key` and `Value::as_str` on what it finds. The
/// contract only names the result (`json_string_member`); that it is a
/// function of the bytes and the key is all that is claimed.
#[verifier::external_body]
fn parse_json_string_member(body: &[u8], key: &str) -> (r: Option<Option<String>>)
    ensures
        member_view(r) == json_string_member(body@, key@),
{
    match serde_json::from_slice::<serde_json::Value>(body) {
        Ok(v) => Some(v.get(key).and_then(serde_json::Value::as_str).map(str::to_string)),
        Err(_) => None,
    }
}

/// The transcript carried by a successful response, given what the body holds
/// under "text": a body that is not JSON gives "error decoding response
/// body", one without a string under "text" gives "Unexpected Groq response
/// format", and otherwise the string with surrounding white space removed.
pub fn transcript_from_member(member: Option<Option<String>>) -> (r: Result<String, String>)
    ensures
        match member_view(member) {
            None => r matches Err(e) && e@ == "error decoding response body"@,
            Some(None) => r matches Err(e) && e@ == "Unexpected Groq response format"@,
            Some(Some(t)) => r matches Ok(text) && text@ == trim_spec(t),
        },
{
    match member {
        None => Err(String::from_str("error decoding response body")),
        Some(None) => Err(String::from_str("Unexpected Groq response format")),
        Some(Some(t)) => Ok(trim_text(t.as_str())),
    }
}

/// The transcript carried by the body of a successful Groq response.
pub fn groq_transcript(body: &[u8]) -> (r: Result<String, String>)
    ensures
        match json_string_member(body@, "text"@) {
            None => r matches Err(e) && e@ == "error decoding response body"@,
            Some(None) => r matches Err(e) && e@ == "Unexpected Groq response format"@,
            Some(Some(t)) => r matches Ok(text) && text@ == trim_spec(t),
        },
{
    let member = parse_json_string_member(body, "text");
    transcript_from_member(member)
}

} // verus!
