use bee_api::{
    bytes_get_response, bytes_get_url, bytes_post_headers, bytes_post_response, bytes_post_url,
    get_addresses_response, get_addresses_url, get_tag_url, status_is_success, tag_post_url,
    tag_response, u32_to_dec, BeeConfig, BeeError, UploadConfig,
};

fn cfg(stamp: &str, pin: Option<bool>, tag: Option<u32>, deferred: Option<bool>) -> UploadConfig {
    UploadConfig { stamp: stamp.to_string(), pin, tag, deferred }
}

fn header_names(hs: &[(String, String)]) -> Vec<&str> {
    hs.iter().map(|(k, _)| k.as_str()).collect()
}

#[test]
fn config_carries_an_optional_upload_section() {
    let c = BeeConfig { upload: Some(cfg("deadbeef", Some(true), None, None)) };
    let hs = bytes_post_headers(&c.upload.unwrap());
    assert_eq!(hs[1], ("swarm-pin".to_string(), "true".to_string()));
    let none = BeeConfig { upload: None };
    assert!(none.upload.is_none());
}

#[test]
fn no_optional_headers_by_default() {
    let hs = bytes_post_headers(&cfg("deadbeef", None, None, None));
    assert_eq!(hs.len(), 1);
    assert_eq!(hs[0].0, "swarm-postage-batch-id");
    assert_eq!(hs[0].1, "deadbeef");
    assert!(!header_names(&hs).contains(&"swarm-pin"));
    assert!(!header_names(&hs).contains(&"swarm-deferred"));
}

#[test]
fn pin_false_emits_no_pin_header() {
    let hs = bytes_post_headers(&cfg("deadbeef", Some(false), None, None));
    assert!(!header_names(&hs).contains(&"swarm-pin"));
    assert_eq!(hs.len(), 1);
}

#[test]
fn deferred_true_emits_no_deferred_header() {
    let hs = bytes_post_headers(&cfg("deadbeef", None, None, Some(true)));
    assert!(!header_names(&hs).contains(&"swarm-deferred"));
    assert_eq!(hs.len(), 1);
}

#[test]
fn explicit_overrides_emit_headers() {
    let hs = bytes_post_headers(&cfg("00ff", Some(true), Some(1234), Some(false)));
    let expected = vec![
        ("swarm-postage-batch-id".to_string(), "00ff".to_string()),
        ("swarm-pin".to_string(), "true".to_string()),
        ("swarm-tag".to_string(), "1234".to_string()),
        ("swarm-deferred".to_string(), "false".to_string()),
    ];
    assert_eq!(hs, expected);
}

#[test]
fn decimal_rendering() {
    assert_eq!(u32_to_dec(0), "0");
    assert_eq!(u32_to_dec(7), "7");
    assert_eq!(u32_to_dec(42), "42");
    assert_eq!(u32_to_dec(1000), "1000");
    assert_eq!(u32_to_dec(u32::MAX), "4294967295");
}

#[test]
fn urls_are_built_verbatim() {
    assert_eq!(bytes_post_url("http://node:1633"), "http://node:1633/bytes");
    assert_eq!(bytes_get_url("http://node:1633", "abc123"), "http://node:1633/bytes/abc123");
    assert_eq!(tag_post_url("http://node:1633"), "http://node:1633/tags");
    assert_eq!(get_tag_url("http://node:1633", 77), "http://node:1633/tags/77");
    assert_eq!(get_addresses_url("http://node:1633"), "http://node:1633/addresses");
}

#[test]
fn success_statuses_are_the_2xx_range() {
    assert!(!status_is_success(199));
    assert!(status_is_success(200));
    assert!(status_is_success(201));
    assert!(status_is_success(299));
    assert!(!status_is_success(300));
    assert!(!status_is_success(404));
    assert!(!status_is_success(500));
}

#[test]
fn upload_response_decodes_reference() {
    let body = b"{\"reference\":\"abc123\"}".to_vec();
    let r = bytes_post_response(200, body).unwrap();
    assert_eq!(r.ref_, "abc123");
}

#[test]
fn upload_response_on_500_is_remote_error_not_decode_error() {
    let body = b"{\"reference\":\"abc123\"}".to_vec();
    match bytes_post_response(500, body.clone()) {
        Err(BeeError::RemoteError { status, body: b }) => {
            assert_eq!(status, 500);
            assert_eq!(b, body);
        }
        other => panic!("expected RemoteError, got {other:?}"),
    }
}

#[test]
fn upload_response_on_bad_json_is_decode_error() {
    assert!(matches!(bytes_post_response(200, b"not json".to_vec()), Err(BeeError::DecodeError)));
    assert!(matches!(bytes_post_response(200, b"{}".to_vec()), Err(BeeError::DecodeError)));
    assert!(matches!(
        bytes_post_response(200, b"{\"reference\":5}".to_vec()),
        Err(BeeError::DecodeError)
    ));
}

#[test]
fn download_response_returns_body_verbatim_and_defaults_content_type() {
    let body = vec![1u8, 2, 3, 0, 255];
    let (data, ct) = bytes_get_response(200, body.clone(), None).unwrap();
    assert_eq!(data, body);
    assert_eq!(ct, "application/octet-stream");

    let (_, ct) = bytes_get_response(200, vec![], Some("text/plain".to_string())).unwrap();
    assert_eq!(ct, "text/plain");

    match bytes_get_response(404, vec![9], None) {
        Err(BeeError::RemoteError { status, body }) => {
            assert_eq!(status, 404);
            assert_eq!(body, vec![9]);
        }
        other => panic!("expected RemoteError, got {other:?}"),
    }
}

#[test]
fn store_then_fetch_round_trips_through_an_echoing_node() {
    // A mock node: it keeps the posted payload and answers the upload with a
    // reference, then serves that payload back for the download.
    let data = b"hello swarm".to_vec();
    let config = cfg("deadbeef", None, None, None);

    let upload_url = bytes_post_url("http://node:1633");
    let _headers = bytes_post_headers(&config);
    assert_eq!(upload_url, "http://node:1633/bytes");
    let stored: Vec<u8> = data.clone(); // the node stores the body verbatim
    let reference = bytes_post_response(201, b"{\"reference\":\"feed\"}".to_vec()).unwrap();

    let download_url = bytes_get_url("http://node:1633", &reference.ref_);
    assert_eq!(download_url, "http://node:1633/bytes/feed");
    let (fetched, _) = bytes_get_response(200, stored, None).unwrap();
    assert_eq!(fetched, data);
}

#[test]
fn tag_response_decodes_full_tag() {
    let body =
        b"{\"uid\":42,\"startedAt\":\"2021-02-26T15:59:15Z\",\"total\":100,\"processed\":17,\"synced\":9}"
            .to_vec();
    let t = tag_response(200, body).unwrap();
    assert_eq!(t.uid, 42);
    assert_eq!(t.started_at, "2021-02-26T15:59:15Z");
    assert_eq!(t.total, 100);
    assert_eq!(t.processed, 17);
    assert_eq!(t.synced, 9);
}

#[test]
fn tag_response_on_invalid_json_is_decode_error() {
    assert!(matches!(tag_response(200, b"not json at all".to_vec()), Err(BeeError::DecodeError)));
}

#[test]
fn tag_response_rejects_uid_beyond_u32() {
    let body =
        b"{\"uid\":4294967296,\"startedAt\":\"x\",\"total\":0,\"processed\":0,\"synced\":0}".to_vec();
    assert!(matches!(tag_response(200, body), Err(BeeError::DecodeError)));
}

#[test]
fn tag_response_on_error_status_is_remote_error() {
    match tag_response(503, b"busy".to_vec()) {
        Err(BeeError::RemoteError { status, body }) => {
            assert_eq!(status, 503);
            assert_eq!(body, b"busy".to_vec());
        }
        other => panic!("expected RemoteError, got {other:?}"),
    }
}

#[test]
fn addresses_response_decodes_camel_case_keys() {
    let body = b"{\"overlay\":\"ov\",\"underlay\":[\"a\",\"b\"],\"ethereum\":\"0xe\",\"publicKey\":\"pk\",\"pssPublicKey\":\"ppk\"}"
        .to_vec();
    let a = get_addresses_response(body).unwrap();
    assert_eq!(a.overlay, "ov");
    assert_eq!(a.underlay, vec!["a".to_string(), "b".to_string()]);
    assert_eq!(a.ethereum, "0xe");
    assert_eq!(a.public_key, "pk");
    assert_eq!(a.pss_public_key, "ppk");
}

#[test]
fn addresses_response_accepts_snake_case_aliases() {
    let body = b"{\"overlay\":\"ov\",\"underlay\":[],\"ethereum\":\"0xe\",\"public_key\":\"pk\",\"pss_public_key\":\"ppk\"}"
        .to_vec();
    let a = get_addresses_response(body).unwrap();
    assert_eq!(a.public_key, "pk");
    assert_eq!(a.pss_public_key, "ppk");
    assert!(a.underlay.is_empty());
}

#[test]
fn addresses_response_on_missing_field_is_decode_error() {
    let body = b"{\"overlay\":\"ov\",\"underlay\":[],\"ethereum\":\"0xe\",\"publicKey\":\"pk\"}".to_vec();
    assert!(matches!(get_addresses_response(body), Err(BeeError::DecodeError)));
    assert!(matches!(get_addresses_response(b"[1,2,3]".to_vec()), Err(BeeError::DecodeError)));
}
