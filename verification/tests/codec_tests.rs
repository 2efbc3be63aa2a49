use bili_relay::codec::decode_target_url;
use bili_relay::codec::encode_target_url;
use bili_relay::codec::percent_decode;
use bili_relay::codec::percent_encode;

#[test]
fn encode_keeps_unreserved_bytes() {
    let input = b"AZaz09-_.~".to_vec();
    assert_eq!(percent_encode(&input), b"AZaz09-_.~".to_vec());
}

#[test]
fn encode_escapes_reserved_bytes() {
    let input = b"https://example.com/a.m4a".to_vec();
    assert_eq!(
        percent_encode(&input),
        b"https%3A%2F%2Fexample.com%2Fa.m4a".to_vec()
    );
}

#[test]
fn encode_uses_uppercase_hex() {
    assert_eq!(percent_encode(&b" ".to_vec()), b"%20".to_vec());
    assert_eq!(percent_encode(&b"%".to_vec()), b"%25".to_vec());
    assert_eq!(percent_encode(&vec![0xFFu8]), b"%FF".to_vec());
}

#[test]
fn decode_inverts_encode() {
    let input = b"https://example.com/a.m4a?x=1&y=2".to_vec();
    let encoded = percent_encode(&input);
    assert_eq!(percent_decode(&encoded), Some(input));
}

#[test]
fn decode_accepts_lowercase_hex() {
    assert_eq!(percent_decode(&b"%2f".to_vec()), Some(b"/".to_vec()));
    assert_eq!(percent_decode(&b"%2F".to_vec()), Some(b"/".to_vec()));
}

#[test]
fn decode_rejects_bad_percent_sequences() {
    assert_eq!(percent_decode(&b"%zz".to_vec()), None);
    assert_eq!(percent_decode(&b"abc%2".to_vec()), None);
    assert_eq!(percent_decode(&b"abc%".to_vec()), None);
    assert_eq!(percent_decode(&b"%g0".to_vec()), None);
}

#[test]
fn decode_passes_plain_bytes_through() {
    assert_eq!(percent_decode(&b"plain".to_vec()), Some(b"plain".to_vec()));
    assert_eq!(percent_decode(&Vec::new()), Some(Vec::new()));
}

#[test]
fn target_url_round_trip_ascii() {
    let url = "https://example.com/a.m4a";
    let encoded = encode_target_url(url);
    assert_eq!(encoded, b"https%3A%2F%2Fexample.com%2Fa.m4a".to_vec());
    let encoded_str = String::from_utf8(encoded).unwrap();
    assert_eq!(decode_target_url(&encoded_str), Some(url.to_string()));
}

#[test]
fn target_url_round_trip_unicode() {
    let url = "https://example.com/\u{97f3}\u{4e50}.m4a";
    let encoded = encode_target_url(url);
    let encoded_str = String::from_utf8(encoded).unwrap();
    assert_eq!(decode_target_url(&encoded_str), Some(url.to_string()));
}

#[test]
fn decode_target_url_rejects_invalid_utf8() {
    assert_eq!(decode_target_url("%FF"), None);
}

#[test]
fn decode_target_url_rejects_bad_percent() {
    assert_eq!(decode_target_url("%zzvalid"), None);
    assert_eq!(decode_target_url("trailing%2"), None);
}

#[test]
fn awkward_urls_survive_the_round_trip() {
    for url in [
        "https://e.com/a b?c=%",
        "https://e.com/%2F",
        "a%zz",
        "100% legit",
    ] {
        let encoded = String::from_utf8(encode_target_url(url)).unwrap();
        assert_eq!(decode_target_url(&encoded), Some(url.to_string()));
    }
}
