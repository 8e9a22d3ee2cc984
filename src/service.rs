use vstd::prelude::*;
use vstd::string::{StrSliceExecFns, StringExecFns};

verus! {

#[verifier::external_type_specification]
#[verifier::external_body]
pub struct ExJsonValue(serde_json::Value);

/// A failed call to the transcription or rewrite service.
pub enum ServiceError {
    /// The request could not be sent or its response not read.
    Request(String),
    /// The service answered with a non-success status.
    Status { code: u16, body: String },
    /// The response body is not JSON.
    MalformedBody(String),
}

/// A JSON document.
pub enum Json {
    Null,
    Bool(bool),
    /// A number, as its decimal text.
    Number(String),
    Text(String),
    Array(Vec<Json>),
    Object(Vec<JsonMember>),
}

/// One member of a JSON object.
pub struct JsonMember {
    pub key: String,
    pub value: Json,
}

/// `s` without the `/` characters at its end.
pub open spec fn trim_trailing_slashes(s: Seq<char>) -> Seq<char>
    decreases s.len(),
{
    if s.len() > 0 && s.last() == '/' {
        trim_trailing_slashes(s.drop_last())
    } else {
        s
    }
}

/// The service base URL as used to build endpoints: trailing slashes removed.
pub fn normalize_base_url(base_url: &str) -> (r: String)
    ensures
        r@ == trim_trailing_slashes(base_url@),
{
    let mut n: usize = base_url.unicode_len();
    assert(base_url@.subrange(0, n as int) =~= base_url@);
    while n > 0 && base_url.get_char(n - 1) == '/'
        invariant
            n <= base_url@.len(),
            trim_trailing_slashes(base_url@) == trim_trailing_slashes(base_url@.subrange(0, n as int)),
        decreases n,
    {
        assert(base_url@.subrange(0, n as int).drop_last() =~= base_url@.subrange(0, n - 1));
        n = n - 1;
    }
    String::from_str(base_url.substring_char(0, n))
}

/// The transcription endpoint under a normalized base URL.
pub fn transcriptions_url(base_url: &str) -> (r: String)
    ensures
        r@ == base_url@ + "/v1/audio/transcriptions"@,
{
    let mut s = String::from_str(base_url);
    s.append("/v1/audio/transcriptions");
    s
}

/// The rewrite endpoint under a normalized base URL.
pub fn responses_url(base_url: &str) -> (r: String)
    ensures
        r@ == base_url@ + "/v1/responses"@,
{
    let mut s = String::from_str(base_url);
    s.append("/v1/responses");
    s
}

/// Whether an HTTP status code is a success (2xx).
pub open spec fn is_success(code: u16) -> bool {
    200 <= code <= 299
}

/// The member value under `key` in the first member that has it.
pub open spec fn member_value(ms: Seq<JsonMember>, key: Seq<char>) -> Option<Json>
    decreases ms.len(),
{
    if ms.len() == 0 {
        None
    } else if ms[0].key@ == key {
        Some(ms[0].value)
    } else {
        member_value(ms.drop_first(), key)
    }
}

/// The value of field `key` of an object; `None` for a missing field or a
/// value that is not an object.
pub open spec fn field(v: Json, key: Seq<char>) -> Option<Json> {
    match v {
        Json::Object(ms) => member_value(ms@, key),
        _ => None,
    }
}

/// The string in field `key`, or `None` when absent or not a string.
pub open spec fn string_field(v: Json, key: Seq<char>) -> Option<Seq<char>> {
    match field(v, key) {
        Some(Json::Text(s)) => Some(s@),
        _ => None,
    }
}

/// The elements of the array in field `key`; empty when absent or not an array.
pub open spec fn array_field(v: Json, key: Seq<char>) -> Seq<Json> {
    match field(v, key) {
        Some(Json::Array(a)) => a@,
        _ => Seq::empty(),
    }
}

/// The transcript in a transcription response: its `text` string, or empty.
pub open spec fn transcript_of(v: Json) -> Seq<char> {
    match string_field(v, "text"@) {
        Some(s) => s,
        None => Seq::empty(),
    }
}

/// The `text` strings of content parts, concatenated in order.
pub open spec fn content_texts(parts: Seq<Json>) -> Seq<char>
    decreases parts.len(),
{
    if parts.len() == 0 {
        Seq::empty()
    } else {
        content_texts(parts.drop_last()) + match string_field(parts.last(), "text"@) {
            Some(s) => s,
            None => Seq::empty(),
        }
    }
}

/// The text of every output item's content parts, concatenated in order.
pub open spec fn output_texts(items: Seq<Json>) -> Seq<char>
    decreases items.len(),
{
    if items.len() == 0 {
        Seq::empty()
    } else {
        output_texts(items.drop_last()) + content_texts(array_field(items.last(), "content"@))
    }
}

/// The text in a rewrite response: its `output_text` string when present,
/// else the concatenated texts of `output[].content[]`.
pub open spec fn rewritten_of(v: Json) -> Seq<char> {
    match string_field(v, "output_text"@) {
        Some(s) => s,
        None => output_texts(array_field(v, "output"@)),
    }
}

/// A JSON text's document, or `None` when it does not parse.
pub uninterp spec fn parsed_json(text: Seq<char>) -> Option<Json>;

/// Relies on serde_json::from_str, read into a `serde_json::Value`: parses a
/// JSON text; the result depends on the text alone.
#[verifier::external_body]
fn parse_json(text: &str) -> (r: Result<Json, String>)
    ensures
        match r {
            Ok(v) => parsed_json(text@) == Some(v),
            Err(_) => parsed_json(text@) is None,
        },
{
    match serde_json::from_str::<serde_json::Value>(text) {
        Ok(v) => Ok(json_of_value(v)),
        Err(e) => Err(e.to_string()),
    }
}

/// Moves a `serde_json::Value` into a `Json`, variant for variant.
#[verifier::external_body]
fn json_of_value(v: serde_json::Value) -> Json {
    match v {
        serde_json::Value::Null => Json::Null,
        serde_json::Value::Bool(b) => Json::Bool(b),
        serde_json::Value::Number(n) => Json::Number(n.to_string()),
        serde_json::Value::String(s) => Json::Text(s),
        serde_json::Value::Array(a) => Json::Array(a.into_iter().map(json_of_value).collect()),
        serde_json::Value::Object(m) => Json::Object(
            m.into_iter().map(|(key, x)| JsonMember { key, value: json_of_value(x) }).collect(),
        ),
    }
}

fn get_field<'a>(v: &'a Json, key: &str) -> (r: Option<&'a Json>)
    ensures
        match r {
            Some(x) => field(*v, key@) == Some(*x),
            None => field(*v, key@) is None,
        },
{
    match v {
        Json::Object(ms) => {
            let k = String::from_str(key);
            let mut i: usize = 0;
            assert(ms@.skip(0) =~= ms@);
            while i < ms.len()
                invariant
                    0 <= i <= ms@.len(),
                    k@ == key@,
                    field(*v, key@) == member_value(ms@, key@),
                    member_value(ms@, key@) == member_value(ms@.skip(i as int), key@),
                decreases ms@.len() - i,
            {
                let ghost rest = ms@.skip(i as int);
                assert(rest[0] == ms@[i as int]);
                if ms[i].key == k {
                    return Some(&ms[i].value);
                }
                assert(rest.drop_first() =~= ms@.skip(i + 1));
                i = i + 1;
            }
            assert(ms@.skip(i as int) =~= Seq::<JsonMember>::empty());
            None
        },
        _ => None,
    }
}

fn get_string_field<'a>(v: &'a Json, key: &str) -> (r: Option<&'a String>)
    ensures
        match r {
            Some(s) => string_field(*v, key@) == Some(s@),
            None => string_field(*v, key@) is None,
        },
{
    match get_field(v, key) {
        Some(Json::Text(s)) => Some(s),
        _ => None,
    }
}

fn get_array_field<'a>(v: &'a Json, key: &str) -> (r: Option<&'a Vec<Json>>)
    ensures
        match r {
            Some(a) => array_field(*v, key@) == a@,
            None => array_field(*v, key@) == Seq::<Json>::empty(),
        },
{
    match get_field(v, key) {
        Some(Json::Array(a)) => Some(a),
        _ => None,
    }
}

/// The transcript in a parsed transcription response.
pub fn transcript_text(v: &Json) -> (r: String)
    ensures
        r@ == transcript_of(*v),
{
    match get_string_field(v, "text") {
        Some(s) => s.clone(),
        None => String::new(),
    }
}

fn append_content_texts(acc: &mut String, parts: &Vec<Json>)
    ensures
        final(acc)@ == old(acc)@ + content_texts(parts@),
{
    let mut i: usize = 0;
    assert(parts@.subrange(0, 0) =~= Seq::<Json>::empty());
    while i < parts.len()
        invariant
            0 <= i <= parts@.len(),
            acc@ == old(acc)@ + content_texts(parts@.subrange(0, i as int)),
        decreases parts@.len() - i,
    {
        let ghost before = acc@;
        match get_string_field(&parts[i], "text") {
            Some(t) => acc.append(t.as_str()),
            None => {},
        }
        proof {
            let sub = parts@.subrange(0, i + 1);
            assert(sub.drop_last() =~= parts@.subrange(0, i as int));
            assert(sub.last() == parts@[i as int]);
            assert(acc@ =~= old(acc)@ + content_texts(sub));
        }
        i = i + 1;
    }
    assert(parts@.subrange(0, i as int) =~= parts@);
}

/// The text in a parsed rewrite response.
pub fn rewritten_text(v: &Json) -> (r: String)
    ensures
        r@ == rewritten_of(*v),
{
    if let Some(s) = get_string_field(v, "output_text") {
        return s.clone();
    }
    let mut acc = String::new();
    if let Some(items) = get_array_field(v, "output") {
        let mut i: usize = 0;
        assert(items@.subrange(0, 0) =~= Seq::<Json>::empty());
        while i < items.len()
            invariant
                0 <= i <= items@.len(),
                acc@ == output_texts(items@.subrange(0, i as int)),
            decreases items@.len() - i,
        {
            match get_array_field(&items[i], "content") {
                Some(parts) => append_content_texts(&mut acc, parts),
                None => {},
            }
            proof {
                let sub = items@.subrange(0, i + 1);
                assert(sub.drop_last() =~= items@.subrange(0, i as int));
                assert(sub.last() == items@[i as int]);
                assert(acc@ =~= output_texts(sub));
            }
            i = i + 1;
        }
        assert(items@.subrange(0, i as int) =~= items@);
    }
    acc
}

/// What the transcription service's answer yields: a non-success status is
/// an error with the status and body, a body that is not JSON an error, and
/// otherwise the transcript (empty when the response has none).
pub fn transcript_from_response(status: u16, body: String) -> (r: Result<String, ServiceError>)
    ensures
        !is_success(status) ==> r == Err::<String, ServiceError>(
            ServiceError::Status { code: status, body },
        ),
        is_success(status) && parsed_json(body@) is None ==> r is Err && r->Err_0 is MalformedBody,
        is_success(status) && parsed_json(body@) is Some ==> r is Ok && r->Ok_0@ == transcript_of(
            parsed_json(body@)->Some_0,
        ),
{
    if status < 200 || status > 299 {
        return Err(ServiceError::Status { code: status, body });
    }
    match parse_json(body.as_str()) {
        Ok(v) => Ok(transcript_text(&v)),
        Err(msg) => Err(ServiceError::MalformedBody(msg)),
    }
}

/// What the rewrite service's answer yields, with the same failures as a
/// transcription.
pub fn rewrite_from_response(status: u16, body: String) -> (r: Result<String, ServiceError>)
    ensures
        !is_success(status) ==> r == Err::<String, ServiceError>(
            ServiceError::Status { code: status, body },
        ),
        is_success(status) && parsed_json(body@) is None ==> r is Err && r->Err_0 is MalformedBody,
        is_success(status) && parsed_json(body@) is Some ==> r is Ok && r->Ok_0@ == rewritten_of(
            parsed_json(body@)->Some_0,
        ),
{
    if status < 200 || status > 299 {
        return Err(ServiceError::Status { code: status, body });
    }
    match parse_json(body.as_str()) {
        Ok(v) => Ok(rewritten_text(&v)),
        Err(msg) => Err(ServiceError::MalformedBody(msg)),
    }
}

} // verus!
