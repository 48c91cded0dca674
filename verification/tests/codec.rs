use teleton::proto::{FileRef, FileRefV1, UploadToken, UploadTokenV1};

fn sample_ref() -> FileRef {
    FileRef::V1(FileRefV1 {
        message_id: -12345,
        document_id: 0x1122334455667788,
        file_reference: vec![0, 1, 2, 254, 255, 42],
        access_hash: -9876543210,
        file_size: 2_000_000,
    })
}

#[test]
fn file_ref_round_trip() {
    let encoded = sample_ref().to_ref_string();
    let decoded = FileRef::from_ref_string(encoded).expect("fresh encoding must decode");
    let FileRef::V1(v) = decoded;
    assert_eq!(v.message_id, -12345);
    assert_eq!(v.document_id, 0x1122334455667788);
    assert_eq!(v.file_reference, vec![0, 1, 2, 254, 255, 42]);
    assert_eq!(v.access_hash, -9876543210);
    assert_eq!(v.file_size, 2_000_000);
}

#[test]
fn file_ref_round_trip_empty_capability() {
    let original = FileRef::V1(FileRefV1 {
        message_id: 0,
        document_id: 0,
        file_reference: vec![],
        access_hash: 0,
        file_size: 0,
    });
    let decoded = FileRef::from_ref_string(original.to_ref_string()).unwrap();
    let FileRef::V1(v) = decoded;
    assert_eq!(v.message_id, 0);
    assert_eq!(v.file_reference, Vec::<u8>::new());
}

#[test]
fn upload_token_round_trip() {
    let token = UploadToken::V1(UploadTokenV1 { file_id: 0x7fff_ffff_ffff_fffe, file_size: 1 });
    let decoded = UploadToken::from_api_string(token.to_api_string()).unwrap();
    assert_eq!(decoded, token);
}

#[test]
fn token_encoding_is_exactly_known_string() {
    let token = UploadToken::V1(UploadTokenV1 { file_id: 1, file_size: 2 });
    assert_eq!(token.to_api_string(), "AQEAAAAAAAAAAgAAAAAAAAA");
    assert_eq!(
        UploadToken::from_api_string("AQEAAAAAAAAAAgAAAAAAAAA".to_string()),
        Some(token)
    );
}

#[test]
fn ref_encoding_is_exactly_known_string() {
    let original = FileRef::V1(FileRefV1 {
        message_id: 7,
        document_id: 9,
        file_reference: vec![0xAA, 0xBB],
        access_hash: -1,
        file_size: 100,
    });
    assert_eq!(
        original.to_ref_string(),
        "AQcAAAAJAAAAAAAAAP__________ZAAAAAAAAAACAAAAAAAAAKq7"
    );
}

#[test]
fn encoded_strings_use_only_the_url_safe_alphabet() {
    let ref_str = sample_ref().to_ref_string();
    let token_str = UploadToken::V1(UploadTokenV1 { file_id: -3, file_size: -4 }).to_api_string();
    for c in ref_str.chars().chain(token_str.chars()) {
        assert!(
            c.is_ascii_alphanumeric() || c == '-' || c == '_',
            "unexpected character {:?}",
            c
        );
    }
}

#[test]
fn non_base64_is_rejected() {
    assert!(FileRef::from_ref_string("%%%not base64%%%".to_string()).is_none());
    assert!(UploadToken::from_api_string("!!!".to_string()).is_none());
    // the padded alphabet is refused by the padding-free decoder
    assert!(UploadToken::from_api_string("AQEAAAAAAAAAAgAAAAAAAAA=".to_string()).is_none());
}

#[test]
fn truncated_payload_is_rejected() {
    let token_str = UploadToken::V1(UploadTokenV1 { file_id: 5, file_size: 6 }).to_api_string();
    for cut in 0..token_str.len() {
        assert!(UploadToken::from_api_string(token_str[..cut].to_string()).is_none());
    }
    let ref_str = sample_ref().to_ref_string();
    for cut in 0..ref_str.len() {
        assert!(FileRef::from_ref_string(ref_str[..cut].to_string()).is_none());
    }
}

#[test]
fn wrong_version_is_rejected() {
    // a payload whose version tag is 2, otherwise shaped like a token
    let mut payload = vec![2u8];
    payload.extend_from_slice(&[0u8; 16]);
    let encoded = base64::Engine::encode(&base64::prelude::BASE64_URL_SAFE_NO_PAD, &payload);
    assert!(UploadToken::from_api_string(encoded.clone()).is_none());
    assert!(FileRef::from_ref_string(encoded).is_none());
}

#[test]
fn corrupted_or_padded_payload_is_rejected() {
    // flip the version byte of a valid token payload
    let token_str = UploadToken::V1(UploadTokenV1 { file_id: 5, file_size: 6 }).to_api_string();
    let mut payload =
        base64::Engine::decode(&base64::prelude::BASE64_URL_SAFE_NO_PAD, &token_str).unwrap();
    payload[0] = 0;
    let corrupted = base64::Engine::encode(&base64::prelude::BASE64_URL_SAFE_NO_PAD, &payload);
    assert!(UploadToken::from_api_string(corrupted).is_none());

    // append a trailing byte: the strict decoder refuses it
    payload[0] = 1;
    payload.push(0);
    let padded = base64::Engine::encode(&base64::prelude::BASE64_URL_SAFE_NO_PAD, &payload);
    assert!(UploadToken::from_api_string(padded).is_none());
}
