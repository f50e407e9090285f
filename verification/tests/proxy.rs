use electrumx_proxy::bridge::{
    decode_line, encode_request, read_step, BridgeError, ReadEvent, ReadStep, RpcResponse,
};
use electrumx_proxy::front::{
    health_probe, health_response, info_document, params_from_body, params_from_query,
    proxy_failure_body, proxy_status, proxy_success_body, request_params,
};
use electrumx_proxy::line::LineReader;
use serde_json::Value;

fn number(n: u64) -> Value {
    Value::Number(serde_json::Number::from(n))
}

#[test]
fn encoded_request_has_fixed_shape_and_one_trailing_newline() {
    let line = encode_request("server.version", &vec![]);
    assert_eq!(
        line,
        b"{\"jsonrpc\":\"2.0\",\"method\":\"server.version\",\"params\":[],\"id\":1}\n".to_vec()
    );
    assert_eq!(line.iter().filter(|&&b| b == b'\n').count(), 1);
    assert_eq!(*line.last().unwrap(), b'\n');
}

#[test]
fn encoded_request_escapes_method_exactly_as_the_json_serializer_does() {
    let method = "odd\"name\\with\nctrl\u{1}\u{1b}\tand\r\u{8}\u{c}end\u{7f}\u{e9}";
    let params = vec![number(7), Value::String("a\nb".to_string())];
    let line = encode_request(method, &params);
    let expected = format!(
        "{{\"jsonrpc\":\"2.0\",\"method\":{},\"params\":{},\"id\":1}}\n",
        serde_json::to_string(&Value::String(method.to_string())).unwrap(),
        serde_json::to_string(&params).unwrap(),
    );
    assert_eq!(String::from_utf8(line.clone()).unwrap(), expected);
    assert_eq!(line.iter().filter(|&&b| b == b'\n').count(), 1);
}

#[test]
fn encoded_request_is_valid_json_rpc() {
    let line = encode_request("blockchain.scripthash.get_balance", &vec![number(3)]);
    let text = String::from_utf8(line).unwrap();
    let doc: Value = serde_json::from_str(text.trim_end()).unwrap();
    assert_eq!(doc.get("jsonrpc").unwrap(), &Value::String("2.0".to_string()));
    assert_eq!(
        doc.get("method").unwrap(),
        &Value::String("blockchain.scripthash.get_balance".to_string())
    );
    assert_eq!(doc.get("params").unwrap(), &Value::Array(vec![number(3)]));
    assert_eq!(doc.get("id").unwrap(), &number(1));
}

#[test]
fn decodes_result_from_backend_line() {
    let line = b"{\"result\":42,\"error\":null,\"id\":1}\n".to_vec();
    let resp = decode_line(&line).unwrap();
    assert_eq!(resp.result, Some(number(42)));
    assert_eq!(resp.error, None);
    assert_eq!(resp.id, 1);
}

#[test]
fn decodes_error_field_when_populated() {
    let line = b"{\"result\":null,\"error\":{\"code\":-5},\"id\":9}\n".to_vec();
    let resp = decode_line(&line).unwrap();
    assert_eq!(resp.result, None);
    let err = resp.error.unwrap();
    assert_eq!(err.get("code").unwrap(), &Value::Number(serde_json::Number::from(-5)));
    assert_eq!(resp.id, 9);
}

#[test]
fn decode_rejects_malformed_json() {
    let line = b"{\"result\":42,".to_vec();
    assert_eq!(decode_line(&line).unwrap_err(), BridgeError::Parse);
}

#[test]
fn decode_rejects_missing_id() {
    let line = b"{\"result\":42,\"error\":null}\n".to_vec();
    assert_eq!(decode_line(&line).unwrap_err(), BridgeError::Parse);
}

#[test]
fn decode_replaces_invalid_utf8_instead_of_rejecting() {
    // A lone 0xFF inside the result string is not valid UTF-8; the decoder
    // must substitute it and still parse the line.
    let mut line = b"{\"result\":\"".to_vec();
    line.push(0xFF);
    line.extend_from_slice(b"\",\"error\":null,\"id\":2}\n");
    let resp = decode_line(&line).unwrap();
    assert_eq!(resp.result, Some(Value::String("\u{FFFD}".to_string())));
    assert_eq!(resp.id, 2);
}

#[test]
fn timeout_aborts_with_a_timeout_error() {
    let step = read_step(LineReader::new(), ReadEvent::TimedOut);
    assert!(matches!(step, ReadStep::Abort(BridgeError::Timeout)));
}

#[test]
fn read_failure_aborts_with_a_read_error() {
    let step = read_step(LineReader::new(), ReadEvent::Failed);
    assert!(matches!(step, ReadStep::Abort(BridgeError::Read)));
}

#[test]
fn only_first_line_of_a_two_line_burst_is_kept() {
    let burst = b"{\"result\":1,\"error\":null,\"id\":1}\n{\"result\":2,\"error\":null,\"id\":1}\n";
    let step = read_step(LineReader::new(), ReadEvent::Chunk(burst.to_vec()));
    match step {
        ReadStep::Finished(line) => {
            assert_eq!(line, b"{\"result\":1,\"error\":null,\"id\":1}\n".to_vec());
            let resp = decode_line(&line).unwrap();
            assert_eq!(resp.result, Some(number(1)));
        }
        _ => panic!("burst with a newline must finish the line"),
    }
}

#[test]
fn line_is_assembled_across_chunks() {
    let step = read_step(
        LineReader::new(),
        ReadEvent::Chunk(b"{\"result\":5,\"err".to_vec()),
    );
    let reader = match step {
        ReadStep::Continue(r) => r,
        _ => panic!("no newline yet, reading must continue"),
    };
    let step = read_step(reader, ReadEvent::Chunk(b"or\":null,\"id\":4}\n".to_vec()));
    match step {
        ReadStep::Finished(line) => {
            let resp = decode_line(&line).unwrap();
            assert_eq!(resp.result, Some(number(5)));
            assert_eq!(resp.id, 4);
        }
        _ => panic!("newline arrived, the line must be finished"),
    }
}

#[test]
fn clean_close_hands_over_what_arrived() {
    let step = read_step(
        LineReader::new(),
        ReadEvent::Chunk(b"{\"result\":8,\"error\":null,\"id\":6}".to_vec()),
    );
    let reader = match step {
        ReadStep::Continue(r) => r,
        _ => panic!("no newline yet, reading must continue"),
    };
    match read_step(reader, ReadEvent::Eof) {
        ReadStep::Finished(line) => {
            // A peer that closes without sending the newline is not an
            // error by itself: the accumulated bytes still decode.
            let resp = decode_line(&line).unwrap();
            assert_eq!(resp.result, Some(number(8)));
        }
        _ => panic!("a clean close must finish the line"),
    }
}

#[test]
fn health_statuses_are_200_or_503_and_nothing_else() {
    let (ok_status, ok_text) = health_response(true);
    assert_eq!(ok_status, 200);
    assert_eq!(ok_text, "ElectrumX is healthy");
    let (bad_status, bad_text) = health_response(false);
    assert_eq!(bad_status, 503);
    assert_eq!(bad_text, "ElectrumX is unreachable");
}

#[test]
fn info_document_is_valid_json() {
    let doc = info_document();
    let parsed: Value = serde_json::from_str(&doc).unwrap();
    assert_eq!(parsed.get("success").unwrap(), &Value::Bool(true));
    assert!(parsed.get("info").unwrap().get("usageInfo").is_some());
}

#[test]
fn success_envelope_wraps_the_result() {
    let resp = RpcResponse { result: Some(number(42)), error: None, id: 1 };
    let body = proxy_success_body(&resp);
    assert_eq!(body, "{\"success\":true,\"response\":42}");
    let parsed: Value = serde_json::from_str(&body).unwrap();
    assert_eq!(parsed.get("success").unwrap(), &Value::Bool(true));
    assert_eq!(parsed.get("response").unwrap(), &number(42));
}

#[test]
fn success_envelope_of_an_absent_result_is_null() {
    let resp = RpcResponse { result: None, error: None, id: 1 };
    let body = proxy_success_body(&resp);
    assert_eq!(body, "{\"success\":true,\"response\":null}");
}

#[test]
fn failure_envelope_is_structured_json_per_kind() {
    let kinds = [
        (BridgeError::Connect, "connect failure"),
        (BridgeError::Write, "write failure"),
        (BridgeError::Read, "read failure"),
        (BridgeError::Timeout, "read timeout"),
        (BridgeError::Parse, "malformed response"),
    ];
    for (kind, label) in kinds {
        let body = proxy_failure_body(kind);
        let parsed: Value = serde_json::from_str(&body).unwrap();
        assert_eq!(parsed.get("success").unwrap(), &Value::Bool(false));
        assert_eq!(parsed.get("error").unwrap(), &Value::String(label.to_string()));
    }
}

#[test]
fn proxy_statuses_cover_success_timeout_and_other_failures() {
    let ok = Ok(RpcResponse { result: None, error: None, id: 1 });
    assert_eq!(proxy_status(&ok), 200);
    assert_eq!(proxy_status(&Err(BridgeError::Timeout)), 504);
    assert_eq!(proxy_status(&Err(BridgeError::Read)), 502);
    assert_eq!(proxy_status(&Err(BridgeError::Parse)), 502);
}

#[test]
fn params_come_out_of_a_post_body() {
    let params = params_from_body("{\"params\":[1,\"x\"]}").unwrap();
    assert_eq!(params, vec![number(1), Value::String("x".to_string())]);
}

#[test]
fn params_come_out_of_a_query_argument() {
    let params = params_from_query("[true]").unwrap();
    assert_eq!(params, vec![Value::Bool(true)]);
}

#[test]
fn body_without_params_field_is_a_parse_failure() {
    assert_eq!(params_from_body("{\"other\":[]}").unwrap_err(), BridgeError::Parse);
    assert_eq!(params_from_body("not json").unwrap_err(), BridgeError::Parse);
    assert_eq!(params_from_body("{\"params\":3}").unwrap_err(), BridgeError::Parse);
}

#[test]
fn query_that_is_not_an_array_is_a_parse_failure() {
    assert_eq!(params_from_query("{\"a\":1}").unwrap_err(), BridgeError::Parse);
    assert_eq!(params_from_query("[1,").unwrap_err(), BridgeError::Parse);
}

#[test]
fn body_takes_precedence_over_query_and_absent_params_are_empty() {
    let query = "[\"q\"]".to_string();
    let from_body = request_params("{\"params\":[1]}", Some(&query)).unwrap();
    assert_eq!(from_body, vec![number(1)]);
    let from_query = request_params("", Some(&query)).unwrap();
    assert_eq!(from_query, vec![Value::String("q".to_string())]);
    let neither = request_params("", None).unwrap();
    assert_eq!(neither, Vec::<Value>::new());
    assert_eq!(request_params("not json", Some(&query)).unwrap_err(), BridgeError::Parse);
}

#[test]
fn health_probe_is_the_version_call_with_no_params() {
    let (method, params) = health_probe();
    assert_eq!(method, "server.version");
    assert_eq!(params, Vec::<Value>::new());
}
