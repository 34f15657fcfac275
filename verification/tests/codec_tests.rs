use otel_bridge::ids::{decode_span_id, decode_trace_id, encode_span_id, encode_trace_id};

#[test]
fn decode_valid_trace_id() {
    let bytes = decode_trace_id("4fb34cb4484029f7881399b149e41e98");
    assert_eq!(
        bytes,
        vec![
            0x4f, 0xb3, 0x4c, 0xb4, 0x48, 0x40, 0x29, 0xf7, 0x88, 0x13, 0x99, 0xb1, 0x49, 0xe4,
            0x1e, 0x98
        ]
    );
}

#[test]
fn decode_valid_span_id() {
    let bytes = decode_span_id("9ffd58d3cd4dd90b");
    assert_eq!(bytes, vec![0x9f, 0xfd, 0x58, 0xd3, 0xcd, 0x4d, 0xd9, 0x0b]);
}

#[test]
fn decode_uppercase_hex() {
    let bytes = decode_span_id("9FFD58D3CD4DD90B");
    assert_eq!(bytes, vec![0x9f, 0xfd, 0x58, 0xd3, 0xcd, 0x4d, 0xd9, 0x0b]);
}

#[test]
fn decode_wrong_length_gives_sentinel() {
    assert_eq!(decode_trace_id("abc"), vec![0u8; 16]);
    assert_eq!(decode_trace_id(""), vec![0u8; 16]);
    assert_eq!(decode_span_id("9ffd58d3cd4dd90b00"), vec![0u8; 8]);
}

#[test]
fn decode_non_hex_gives_sentinel() {
    assert_eq!(decode_trace_id("4fb34cb4484029f7881399b149e41e9z"), vec![0u8; 16]);
    assert_eq!(decode_span_id("9ffd58d3cd4dd90g"), vec![0u8; 8]);
}

#[test]
fn encode_is_lowercase_and_padded() {
    let id: Vec<u8> = vec![0, 0, 0, 0, 0, 0, 0, 0, 0, 0, 0, 0, 0, 0, 0, 42];
    assert_eq!(encode_trace_id(&id), "0000000000000000000000000000002a");
    let sid: Vec<u8> = vec![0x9f, 0xfd, 0x58, 0xd3, 0xcd, 0x4d, 0xd9, 0x0b];
    assert_eq!(encode_span_id(&sid), "9ffd58d3cd4dd90b");
}

#[test]
fn decode_then_encode_round_trip() {
    let text = "4fb34cb4484029f7881399b149e41e98";
    assert_eq!(encode_trace_id(&decode_trace_id(text)), text);
    let sid = "9ffd58d3cd4dd90b";
    assert_eq!(encode_span_id(&decode_span_id(sid)), sid);
}

#[test]
fn codec_agrees_with_host_sdk_ids() {
    let text = "4fb34cb4484029f7881399b149e41e98";
    let sdk = opentelemetry::trace::TraceId::from_hex(text).unwrap();
    assert_eq!(decode_trace_id(text), sdk.to_bytes().to_vec());
    assert_eq!(encode_trace_id(&sdk.to_bytes().to_vec()), format!("{:x}", sdk));
    let sid_text = "9ffd58d3cd4dd90b";
    let sdk_sid = opentelemetry::trace::SpanId::from_hex(sid_text).unwrap();
    assert_eq!(decode_span_id(sid_text), sdk_sid.to_bytes().to_vec());
    assert_eq!(encode_span_id(&sdk_sid.to_bytes().to_vec()), format!("{:x}", sdk_sid));
}
