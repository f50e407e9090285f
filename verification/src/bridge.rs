//! The RPC bridge: request encoding, the read state machine and response
//! decoding.
//!
//! One backend call runs Writing -> Reading -> Decoding, with no retries:
//! the serialized request goes out as one newline-terminated line, the
//! reply is accumulated until its first newline (a five-second silence on
//! the socket is a timeout failure, handled by the caller's clock), and the
//! line is decoded as a JSON-RPC response. Every failure is classified, so
//! the HTTP layer can answer with a status instead of aborting.

use vstd::prelude::*;

verus! {

use crate::jsonio::{
    array_of,
    field_of,
    get_field,
    is_null_of,
    json_ok,
    lossy_text,
    lossy_utf8,
    params_json,
    params_to_bytes,
    parse_value,
    parsed_doc,
    u64_of,
};
use crate::line::{first_newline, has_newline, LineReader};
use crate::wire::{
    build_request_line,
    head_bytes,
    lemma_request_line_framing,
    request_line_spec,
    NEWLINE,
};
use vstd::string::StringSliceAdditionalSpecFns;

/// Everything that can go wrong in one backend call, one variant per stage:
/// opening the connection, writing the request, reading the reply (a
/// socket error, or five seconds of silence), and decoding the reply.
/// Serialization has no failure of its own. `Connect` is never built by a
/// bridge stage here: the embedding opens the one shared connection at
/// startup and aborts on failure, as the service always did; the variant
/// names that failure for the taxonomy's completeness.
#[derive(Clone, Copy, Debug, PartialEq, Eq, Structural)]
pub enum BridgeError {
    Connect,
    Write,
    Read,
    Timeout,
    Parse,
}

/// A decoded JSON-RPC response: at most one of `result` and `error` is
/// expected to be present by convention, though that is not enforced. A
/// field that is missing or JSON `null` decodes as absent.
#[derive(Debug)]
pub struct RpcResponse {
    pub result: Option<serde_json::Value>,
    pub error: Option<serde_json::Value>,
    pub id: u64,
}

/// Serialize one call as its wire line:
/// `{"jsonrpc":"2.0","method":"<m>","params":[...],"id":1}` plus a newline.
/// The line is exactly the request framing over the method's escaped bytes
/// and the serialized parameter array of the given list; in particular it
/// ends with its only newline byte, so it is one complete line on the
/// wire. Serialization cannot fail, so neither can this.
pub fn encode_request(method: &str, params: &Vec<serde_json::Value>) -> (line: Vec<u8>)
    ensures
        line@ == request_line_spec(method.spec_bytes(), params_json(params@)),
        line@.len() > 0,
        line@.last() == NEWLINE,
        forall|i: int| 0 <= i < line@.len() - 1 ==> line@[i] != NEWLINE,
        line@.take(head_bytes().len() as int) == head_bytes(),
{
    let pbytes = params_to_bytes(params);
    let line = build_request_line(method.as_bytes(), pbytes.as_slice());
    proof {
        lemma_request_line_framing(method.spec_bytes(), pbytes@);
    }
    line
}

/// What the socket reported once while a reply was awaited: a burst of
/// bytes, a clean close, a read error, or five seconds of silence.
pub enum ReadEvent {
    Chunk(Vec<u8>),
    Eof,
    TimedOut,
    Failed,
}

/// Where the read phase stands after one event: still waiting, holding a
/// finished line to decode, or failed with a classified error.
pub enum ReadStep {
    Continue(LineReader),
    Finished(Vec<u8>),
    Abort(BridgeError),
}

/// Advance the read phase by one socket event. Silence past the deadline
/// aborts the call as a timeout — never blocking a caller for good — and a
/// read error aborts it as a read failure. A clean close ends the line as
/// it stands, and a burst of bytes either completes the line at its first
/// newline (discarding the rest of the burst) or extends the buffer.
pub fn read_step(reader: LineReader, event: ReadEvent) -> (r: ReadStep)
    requires
        reader.wf(),
        !reader.complete,
    ensures
        event is TimedOut ==> r == ReadStep::Abort(BridgeError::Timeout),
        event is Failed ==> r == ReadStep::Abort(BridgeError::Read),
        event is Eof ==> (r matches ReadStep::Finished(line) && line@ == reader.buf@),
        event matches ReadEvent::Chunk(c) ==> {
            if has_newline(reader.buf@ + c@) {
                r matches ReadStep::Finished(line) && line@ == (reader.buf@ + c@).take(
                    first_newline(reader.buf@ + c@) + 1,
                )
            } else {
                r matches ReadStep::Continue(next) && next.wf() && !next.complete && next.buf@
                    == reader.buf@ + c@
            }
        },
{
    match event {
        ReadEvent::Chunk(c) => {
            let mut next = reader;
            let done = next.feed(c.as_slice());
            if done {
                ReadStep::Finished(next.buf)
            } else {
                ReadStep::Continue(next)
            }
        },
        ReadEvent::Eof => ReadStep::Finished(reader.buf),
        ReadEvent::TimedOut => ReadStep::Abort(BridgeError::Timeout),
        ReadEvent::Failed => ReadStep::Abort(BridgeError::Read),
    }
}

/// The `id` a document decodes to: its `id` field read as an unsigned
/// integer, absent when the field is missing or not one.
pub open spec fn doc_id(doc: serde_json::Value) -> Option<u64> {
    match field_of(doc, "id"@) {
        Some(f) => u64_of(f),
        None => None,
    }
}

/// The optional value a named field decodes to: JSON `null` counts as
/// absent, as a derived optional-field decoder would have it.
pub open spec fn doc_field(doc: serde_json::Value, key: Seq<char>) -> Option<serde_json::Value> {
    match field_of(doc, key) {
        Some(f) => if is_null_of(f) {
            None
        } else {
            Some(f)
        },
        None => None,
    }
}

/// The named field of a parsed document, with JSON `null` mapped to absent.
fn field_value(v: &serde_json::Value, key: &str) -> (r: Option<serde_json::Value>)
    ensures
        r == doc_field(*v, key@),
{
    match get_field(v, key) {
        Some(f) => if f.is_null() {
            None
        } else {
            Some(f.clone())
        },
        None => None,
    }
}

/// Shape one parsed JSON document into a response record. The record is
/// returned exactly when the document carries an unsigned integer `id`;
/// `result` and `error` are its optional fields, with `null` meaning
/// absent. Any other shape is a decode failure, the only failure here.
pub fn response_of_value(v: serde_json::Value) -> (r: Result<RpcResponse, BridgeError>)
    ensures
        r is Ok <==> doc_id(v) is Some,
        r matches Ok(resp) ==> {
            &&& Some(resp.id) == doc_id(v)
            &&& resp.result == doc_field(v, "result"@)
            &&& resp.error == doc_field(v, "error"@)
        },
        r is Err ==> r == Err::<RpcResponse, BridgeError>(BridgeError::Parse),
{
    let id_field = match get_field(&v, "id") {
        Some(f) => f.as_u64(),
        None => None,
    };
    match id_field {
        Some(id) => {
            let result = field_value(&v, "result");
            let error = field_value(&v, "error");
            Ok(RpcResponse { result, error, id })
        },
        None => Err(BridgeError::Parse),
    }
}

/// Decode one accumulated line: the bytes are decoded as UTF-8 with lossy
/// replacement (never rejected for encoding alone), parsed as JSON, and
/// shaped into a response record. The call succeeds exactly when the lossy
/// text parses as a document carrying an unsigned `id`; the record then
/// holds that document's fields, and every failure is a parse failure.
pub fn decode_line(line: &Vec<u8>) -> (r: Result<RpcResponse, BridgeError>)
    ensures
        r is Ok <==> (parsed_doc(lossy_text(line@)) matches Some(doc) && doc_id(doc) is Some),
        r matches Ok(resp) ==> (parsed_doc(lossy_text(line@)) matches Some(doc) && {
            &&& Some(resp.id) == doc_id(doc)
            &&& resp.result == doc_field(doc, "result"@)
            &&& resp.error == doc_field(doc, "error"@)
        }),
        r is Err ==> r == Err::<RpcResponse, BridgeError>(BridgeError::Parse),
        !json_ok(lossy_text(line@)) ==> r is Err,
        line@.len() == 0 ==> r is Err,
{
    let text = lossy_utf8(line);
    match parse_value(text.as_str()) {
        Ok(v) => response_of_value(v),
        Err(_) => Err(BridgeError::Parse),
    }
}

} // verus!
