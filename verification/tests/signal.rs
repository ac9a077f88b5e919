use media_relay::signal::{
    decode, decode_bytes, encode, encode_bytes, receive_request, routes_to_submit, status_code,
    text_from_bytes, Admission, DecodeFailure, Method,
};

#[test]
fn encode_test() {
    let str_encoded = encode("Hello world");
    assert_eq!(str_encoded, "SGVsbG8gd29ybGQ=");
}

#[test]
fn decode_test() {
    let str_decoded = decode("SGVsbG8gd29ybGQ=").unwrap();
    assert_eq!(str_decoded, "Hello world");
}

#[test]
fn round_trip_of_descriptions() {
    let samples = ["", "a", "ab", "abc", "{\"type\":\"offer\",\"sdp\":\"v=0\\r\\n\"}", "h\u{e9}llo \u{1F600}"];
    for sample in samples {
        let text = encode(sample);
        assert_eq!(decode(&text), Ok(sample.to_string()));
    }
}

#[test]
fn round_trip_of_arbitrary_bytes() {
    let all: Vec<u8> = (0..=255u8).collect();
    for end in [0usize, 1, 2, 3, 4, 5, 64, 255, 256] {
        let bytes = &all[..end];
        let text = encode_bytes(bytes);
        assert_eq!(decode_bytes(&text), Ok(bytes.to_vec()));
    }
}

#[test]
fn encode_bytes_pads_to_four() {
    assert_eq!(encode_bytes(b""), "");
    assert_eq!(encode_bytes(b"f"), "Zg==");
    assert_eq!(encode_bytes(b"fo"), "Zm8=");
    assert_eq!(encode_bytes(b"foo"), "Zm9v");
    assert_eq!(encode_bytes(&[0xff, 0xfe]), "//4=");
}

#[test]
fn decode_rejects_text_that_is_not_base64() {
    assert_eq!(decode("not base64!"), Err(DecodeFailure::InvalidBase64));
    assert_eq!(decode("SGVsbG8gd29ybGQ= "), Err(DecodeFailure::InvalidBase64));
    assert_eq!(decode("SGVsb"), Err(DecodeFailure::InvalidBase64));
    assert_eq!(decode("SGVsbG8gd29ybGQ=="), Err(DecodeFailure::InvalidBase64));
    assert_eq!(decode_bytes("****"), Err(DecodeFailure::InvalidBase64));
}

#[test]
fn decode_takes_text_without_padding() {
    assert_eq!(decode("SGVsbG8"), Ok("Hello".to_string()));
    assert_eq!(decode("SGVsbG8="), Ok("Hello".to_string()));
}

#[test]
fn decode_rejects_a_payload_that_is_not_utf8() {
    assert_eq!(decode_bytes("//4="), Ok(vec![0xff, 0xfe]));
    assert_eq!(decode("//4="), Err(DecodeFailure::InvalidUtf8));
}

#[test]
fn text_from_bytes_checks_utf8() {
    assert_eq!(text_from_bytes(b"Hello".to_vec()), Ok("Hello".to_string()));
    assert_eq!(text_from_bytes(vec![0xe2, 0x82, 0xac]), Ok("\u{20ac}".to_string()));
    assert_eq!(text_from_bytes(vec![0xe2, 0x82]), Err(DecodeFailure::InvalidUtf8));
    assert_eq!(text_from_bytes(vec![0x80]), Err(DecodeFailure::InvalidUtf8));
}

#[test]
fn only_post_sdp_is_the_endpoint() {
    assert!(routes_to_submit(Method::Post, "/sdp"));
    assert!(!routes_to_submit(Method::Get, "/sdp"));
    assert!(!routes_to_submit(Method::Put, "/sdp"));
    assert!(!routes_to_submit(Method::Other, "/sdp"));
    assert!(!routes_to_submit(Method::Post, "/"));
    assert!(!routes_to_submit(Method::Post, "/sdp/"));
    assert!(!routes_to_submit(Method::Post, "/SDP"));
    assert!(!routes_to_submit(Method::Post, "sdp"));
    assert!(!routes_to_submit(Method::Post, ""));
}

#[test]
fn accepted_submission_answers_200() {
    let admission = receive_request(Method::Post, "/sdp", b"SGVsbG8gd29ybGQ=".to_vec());
    assert_eq!(admission, Admission::Accepted("Hello world".to_string()));
    assert_eq!(status_code(&admission), 200);
}

#[test]
fn other_path_or_method_answers_404() {
    let wrong_method = receive_request(Method::Get, "/sdp", b"SGVsbG8gd29ybGQ=".to_vec());
    assert_eq!(wrong_method, Admission::NotFound);
    assert_eq!(status_code(&wrong_method), 404);
    let wrong_path = receive_request(Method::Post, "/offer", b"SGVsbG8gd29ybGQ=".to_vec());
    assert_eq!(wrong_path, Admission::NotFound);
    assert_eq!(status_code(&wrong_path), 404);
    let malformed_elsewhere = receive_request(Method::Post, "/other", vec![0xff]);
    assert_eq!(malformed_elsewhere, Admission::NotFound);
}

#[test]
fn malformed_body_is_rejected_at_the_boundary() {
    let not_utf8 = receive_request(Method::Post, "/sdp", vec![0xff, 0xfe]);
    assert_eq!(not_utf8, Admission::Malformed(DecodeFailure::InvalidUtf8));
    assert_eq!(status_code(&not_utf8), 400);
    let not_base64 = receive_request(Method::Post, "/sdp", b"{\"type\":\"offer\"}".to_vec());
    assert_eq!(not_base64, Admission::Malformed(DecodeFailure::InvalidBase64));
    let bad_payload = receive_request(Method::Post, "/sdp", b"//4=".to_vec());
    assert_eq!(bad_payload, Admission::Malformed(DecodeFailure::InvalidUtf8));
}
