//! Framing of outbound JSON-RPC 2.0 requests.
//!
//! A request travels on the wire as one compact JSON document followed by a
//! single newline byte. The document always has the shape
//! `{"jsonrpc":"2.0","method":"<escaped method>","params":<params>,"id":1}`.
//! The method name is embedded as a JSON string, so its bytes are escaped
//! exactly as a JSON serializer would escape them; the parameter list is
//! spliced in as an already-serialized JSON array.

use vstd::prelude::*;

verus! {

/// The newline byte that terminates each message on the wire.
pub const NEWLINE: u8 = 10;

/// Lowercase hexadecimal digit for a value below 16.
pub open spec fn hex_digit(n: u8) -> u8 {
    if n < 10 {
        (48 + n) as u8
    } else {
        (87 + n) as u8
    }
}

/// How one byte of a method name appears inside a JSON string literal:
/// quote and backslash get a backslash escape, the named control bytes get
/// their short escapes, the remaining control bytes get `\u00xx`, and
/// everything else (including all bytes of multi-byte UTF-8 sequences)
/// passes through unchanged.
pub open spec fn escape_byte(b: u8) -> Seq<u8> {
    if b == 34 {
        seq![92u8, 34u8]
    } else if b == 92 {
        seq![92u8, 92u8]
    } else if b == 8 {
        seq![92u8, 98u8]
    } else if b == 9 {
        seq![92u8, 116u8]
    } else if b == 10 {
        seq![92u8, 110u8]
    } else if b == 12 {
        seq![92u8, 102u8]
    } else if b == 13 {
        seq![92u8, 114u8]
    } else if b < 32 {
        seq![92u8, 117u8, 48u8, 48u8, hex_digit(b / 16), hex_digit((b % 16) as u8)]
    } else {
        seq![b]
    }
}

/// A byte sequence escaped for inclusion in a JSON string literal.
pub open spec fn escape_bytes(s: Seq<u8>) -> Seq<u8>
    decreases s.len(),
{
    if s.len() == 0 {
        Seq::empty()
    } else {
        escape_bytes(s.drop_last()) + escape_byte(s.last())
    }
}

/// No single escaped byte ever contains a raw newline.
proof fn lemma_escape_byte_no_newline(b: u8)
    ensures
        forall|i: int| 0 <= i < escape_byte(b).len() ==> escape_byte(b)[i] != NEWLINE,
{
}

/// An escaped byte sequence never contains a raw newline: the newline
/// byte itself is rewritten to `\n`, and no escape introduces one.
pub proof fn lemma_escape_no_newline(s: Seq<u8>)
    ensures
        forall|i: int| 0 <= i < escape_bytes(s).len() ==> escape_bytes(s)[i] != NEWLINE,
    decreases s.len(),
{
    if s.len() > 0 {
        lemma_escape_no_newline(s.drop_last());
        lemma_escape_byte_no_newline(s.last());
        assert forall|i: int| 0 <= i < escape_bytes(s).len() implies escape_bytes(s)[i]
            != NEWLINE by {
            let head = escape_bytes(s.drop_last());
            let tail = escape_byte(s.last());
            assert(escape_bytes(s) == head + tail);
            if i < head.len() {
                assert(escape_bytes(s)[i] == head[i]);
            } else {
                assert(escape_bytes(s)[i] == tail[i - head.len()]);
            }
        }
    }
}

/// The bytes `{"jsonrpc":"2.0","method":"` that open every request.
pub open spec fn head_bytes() -> Seq<u8> {
    seq![
        123u8, 34u8, 106u8, 115u8, 111u8, 110u8, 114u8, 112u8, 99u8, 34u8, 58u8, 34u8, 50u8,
        46u8, 48u8, 34u8, 44u8, 34u8, 109u8, 101u8, 116u8, 104u8, 111u8, 100u8, 34u8, 58u8, 34u8,
    ]
}

/// The bytes `","params":` between the method name and the parameter array.
pub open spec fn mid_bytes() -> Seq<u8> {
    seq![34u8, 44u8, 34u8, 112u8, 97u8, 114u8, 97u8, 109u8, 115u8, 34u8, 58u8]
}

/// The bytes `,"id":1}` plus the terminating newline. Every request uses
/// the fixed id 1: calls are never pipelined, so no correlation is needed.
pub open spec fn tail_bytes() -> Seq<u8> {
    seq![44u8, 34u8, 105u8, 100u8, 34u8, 58u8, 49u8, 125u8, 10u8]
}

/// The full wire form of a request: header, escaped method name, separator,
/// serialized parameter array, id and terminating newline.
pub open spec fn request_line_spec(method: Seq<u8>, params: Seq<u8>) -> Seq<u8> {
    head_bytes() + escape_bytes(method) + mid_bytes() + params + tail_bytes()
}

fn hex_digit_byte(n: u8) -> (r: u8)
    requires
        n < 16,
    ensures
        r == hex_digit(n),
{
    if n < 10 {
        48 + n
    } else {
        87 + n
    }
}

/// Escape a method name's bytes for inclusion in a JSON string literal.
pub fn escape_json_bytes(s: &[u8]) -> (out: Vec<u8>)
    ensures
        out@ == escape_bytes(s@),
{
    let mut out: Vec<u8> = Vec::new();
    let mut i: usize = 0;
    while i < s.len()
        invariant
            0 <= i <= s@.len(),
            out@ == escape_bytes(s@.take(i as int)),
        decreases s@.len() - i,
    {
        let b = s[i];
        if b == 34 {
            out.push(92);
            out.push(34);
        } else if b == 92 {
            out.push(92);
            out.push(92);
        } else if b == 8 {
            out.push(92);
            out.push(98);
        } else if b == 9 {
            out.push(92);
            out.push(116);
        } else if b == 10 {
            out.push(92);
            out.push(110);
        } else if b == 12 {
            out.push(92);
            out.push(102);
        } else if b == 13 {
            out.push(92);
            out.push(114);
        } else if b < 32 {
            out.push(92);
            out.push(117);
            out.push(48);
            out.push(48);
            out.push(hex_digit_byte(b / 16));
            out.push(hex_digit_byte(b % 16));
        } else {
            out.push(b);
        }
        proof {
            assert(s@.take(i + 1).drop_last() =~= s@.take(i as int));
            assert(s@.take(i + 1).last() == s@[i as int]);
            assert(out@ =~= escape_bytes(s@.take(i + 1)));
        }
        i = i + 1;
    }
    proof {
        assert(s@.take(s@.len() as int) =~= s@);
    }
    out
}

fn push_head(out: &mut Vec<u8>)
    ensures
        final(out)@ == old(out)@ + head_bytes(),
{
    out.push(123);
    out.push(34);
    out.push(106);
    out.push(115);
    out.push(111);
    out.push(110);
    out.push(114);
    out.push(112);
    out.push(99);
    out.push(34);
    out.push(58);
    out.push(34);
    out.push(50);
    out.push(46);
    out.push(48);
    out.push(34);
    out.push(44);
    out.push(34);
    out.push(109);
    out.push(101);
    out.push(116);
    out.push(104);
    out.push(111);
    out.push(100);
    out.push(34);
    out.push(58);
    out.push(34);
    proof {
        assert(out@ =~= old(out)@ + head_bytes());
    }
}

fn push_mid(out: &mut Vec<u8>)
    ensures
        final(out)@ == old(out)@ + mid_bytes(),
{
    out.push(34);
    out.push(44);
    out.push(34);
    out.push(112);
    out.push(97);
    out.push(114);
    out.push(97);
    out.push(109);
    out.push(115);
    out.push(34);
    out.push(58);
    proof {
        assert(out@ =~= old(out)@ + mid_bytes());
    }
}

fn push_tail(out: &mut Vec<u8>)
    ensures
        final(out)@ == old(out)@ + tail_bytes(),
{
    out.push(44);
    out.push(34);
    out.push(105);
    out.push(100);
    out.push(34);
    out.push(58);
    out.push(49);
    out.push(125);
    out.push(10);
    proof {
        assert(out@ =~= old(out)@ + tail_bytes());
    }
}

/// Assemble the full wire form of a request from the raw method-name bytes
/// and an already-serialized JSON parameter array.
pub fn build_request_line(method: &[u8], params: &[u8]) -> (line: Vec<u8>)
    ensures
        line@ == request_line_spec(method@, params@),
{
    let mut line: Vec<u8> = Vec::new();
    push_head(&mut line);
    let mut escaped = escape_json_bytes(method);
    line.append(&mut escaped);
    push_mid(&mut line);
    let mut body = vstd::slice::slice_to_vec(params);
    line.append(&mut body);
    push_tail(&mut line);
    proof {
        assert(line@ =~= request_line_spec(method@, params@));
    }
    line
}

/// Framing of an outbound request: as long as the serialized parameter
/// array holds no raw newline byte, the request line ends with exactly one
/// newline — its last byte — and opens with the literal JSON-RPC 2.0 header,
/// so one request is always exactly one line on the wire.
pub proof fn lemma_request_line_framing(method: Seq<u8>, params: Seq<u8>)
    requires
        forall|i: int| 0 <= i < params.len() ==> params[i] != NEWLINE,
    ensures
        request_line_spec(method, params).len() > 0,
        request_line_spec(method, params).last() == NEWLINE,
        forall|i: int|
            0 <= i < request_line_spec(method, params).len() - 1 ==> request_line_spec(
                method,
                params,
            )[i] != NEWLINE,
        request_line_spec(method, params).take(head_bytes().len() as int) == head_bytes(),
{
    lemma_escape_no_newline(method);
    let line = request_line_spec(method, params);
    let h = head_bytes();
    let e = escape_bytes(method);
    let m = mid_bytes();
    let t = tail_bytes();
    assert(line.last() == NEWLINE);
    assert forall|i: int| 0 <= i < line.len() - 1 implies line[i] != NEWLINE by {
        if i < h.len() {
            assert(line[i] == h[i]);
        } else if i < h.len() + e.len() {
            assert(line[i] == e[i - h.len()]);
        } else if i < h.len() + e.len() + m.len() {
            assert(line[i] == m[i - h.len() - e.len()]);
        } else if i < h.len() + e.len() + m.len() + params.len() {
            assert(line[i] == params[i - h.len() - e.len() - m.len()]);
        } else {
            assert(line[i] == t[i - h.len() - e.len() - m.len() - params.len()]);
        }
    }
    assert(line.take(h.len() as int) =~= h);
}

} // verus!
