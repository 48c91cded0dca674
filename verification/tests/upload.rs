use teleton::proto::{UploadToken, UploadTokenV1};
use teleton::shared::{DocumentInfo, MediaInfo, MessageInfo};
use teleton::upload::{
    get_upload_limit, start_upload, upload_chunk, upload_chunk_outcome, upload_finalize,
    upload_finalize_outcome, AppConfigEntry, InputFilePlan, SavePartRequest, SaveOutcome,
    SendOutcome, StartUploadQueryParams, UploadChunkQueryParams, UploadError, UploadFinalizeBody,
    UploadFinalizeQueryParams,
};
use teleton::proto::{FileRef, FileRefV1};

#[test]
fn threshold_is_ten_mebibytes() {
    let below = UploadTokenV1 { file_id: 1, file_size: 10 * 1024 * 1024 - 1 };
    let at = UploadTokenV1 { file_id: 1, file_size: 10 * 1024 * 1024 };
    assert!(!below.should_use_big_upload());
    assert!(at.should_use_big_upload());
}

#[test]
fn total_parts_is_ceiling_division() {
    assert_eq!(UploadTokenV1 { file_id: 1, file_size: 1 }.total_parts(), 1);
    assert_eq!(UploadTokenV1 { file_id: 1, file_size: 524288 }.total_parts(), 1);
    assert_eq!(UploadTokenV1 { file_id: 1, file_size: 524289 }.total_parts(), 2);
    assert_eq!(UploadTokenV1 { file_id: 1, file_size: 0 }.total_parts(), 0);
    assert_eq!(UploadTokenV1 { file_id: 1, file_size: 2_000_000 }.total_parts(), 4);
}

#[test]
fn start_issues_decodable_token() {
    let resp = start_upload(StartUploadQueryParams { file_size: 12345 });
    assert_eq!(resp.chunk_size, 524288);
    let UploadToken::V1(t) = UploadToken::from_api_string(resp.token).expect("token must decode");
    assert_eq!(t.file_size, 12345);
    assert!(t.file_id >= 0);
}

#[test]
fn misaligned_chunk_offset_is_rejected_for_any_token() {
    let resp = start_upload(StartUploadQueryParams { file_size: 2_000_000 });
    let r = upload_chunk(
        UploadChunkQueryParams { token: resp.token, offset: 1 },
        vec![0u8; 10],
    );
    let err = r.err().expect("offset 1 must be rejected");
    assert_eq!(err.status(), 400);

    let r = upload_chunk(
        UploadChunkQueryParams { token: "not a token".to_string(), offset: 1 },
        vec![0u8; 10],
    );
    let err = r.err().expect("bad token must be rejected");
    assert_eq!(err.status(), 400);
}

#[test]
fn out_of_range_tokens_and_offsets_are_rejected() {
    let negative = UploadToken::V1(UploadTokenV1 { file_id: 1, file_size: -1 }).to_api_string();
    let r = upload_chunk(UploadChunkQueryParams { token: negative, offset: 0 }, vec![]);
    assert_eq!(r.err(), Some(UploadError::UnusableToken));

    let oversized = UploadToken::V1(UploadTokenV1 { file_id: 1, file_size: i64::MAX })
        .to_api_string();
    let r = upload_chunk(UploadChunkQueryParams { token: oversized, offset: 0 }, vec![]);
    assert_eq!(r.err(), Some(UploadError::UnusableToken));

    let resp = start_upload(StartUploadQueryParams { file_size: 1000 });
    let r = upload_chunk(
        UploadChunkQueryParams { token: resp.token, offset: 524288u64 * 0x8000_0000 },
        vec![],
    );
    assert_eq!(r.err(), Some(UploadError::OffsetTooLarge));
}

#[test]
fn small_upload_end_to_end() {
    let resp = start_upload(StartUploadQueryParams { file_size: 2_000_000 });
    assert_eq!(resp.chunk_size, 524288);

    let mut expected_file_id = None;
    for (i, (offset, len)) in [(0u64, 524288), (524288u64, 524288), (1048576u64, 951424)]
        .iter()
        .enumerate()
    {
        let r = upload_chunk(
            UploadChunkQueryParams { token: resp.token.clone(), offset: *offset },
            vec![7u8; *len],
        );
        match r.expect("aligned chunk must be accepted") {
            SavePartRequest::Small { file_id, file_part, bytes } => {
                assert_eq!(file_part, i as i32);
                assert_eq!(bytes.len(), *len);
                match expected_file_id {
                    None => expected_file_id = Some(file_id),
                    Some(prev) => assert_eq!(prev, file_id),
                }
            }
            SavePartRequest::Big { .. } => panic!("2 MB must use the small flow"),
        }
    }

    let plan = upload_finalize(
        UploadFinalizeQueryParams { token: resp.token },
        UploadFinalizeBody { md5: "d41d8cd98f00b204e9800998ecf8427e".to_string(), name: "a.bin".to_string() },
    )
    .expect("finalize of a valid token must plan a send");
    assert!(plan.to_self);
    assert!(plan.silent);
    assert!(plan.noforwards);
    assert_eq!(Some(plan.random_id), expected_file_id);
    match plan.file {
        InputFilePlan::Small { file_id, parts, name, md5 } => {
            assert_eq!(Some(file_id), expected_file_id);
            assert_eq!(parts, 4);
            assert_eq!(name, "a.bin");
            assert_eq!(md5, "d41d8cd98f00b204e9800998ecf8427e");
        }
        InputFilePlan::Big { .. } => panic!("2 MB must use the small flow"),
    }

    let outcome = upload_finalize_outcome(SendOutcome::Message(MessageInfo {
        id: 777,
        media: MediaInfo::Document(DocumentInfo {
            id: 42,
            access_hash: -5,
            file_reference: vec![9, 9, 9],
            size: 2_000_000,
        }),
    }))
    .expect("a stored document message must yield a reference");
    let FileRef::V1(v) =
        FileRef::from_ref_string(outcome.ref_string).expect("fresh reference must decode");
    assert_eq!(v.file_size, 2_000_000);
    assert_eq!(v.message_id, 777);
    assert_eq!(v.document_id, 42);
    assert_eq!(v.access_hash, -5);
    assert_eq!(v.file_reference, vec![9, 9, 9]);
}

#[test]
fn big_upload_carries_total_parts() {
    let resp = start_upload(StartUploadQueryParams { file_size: 20 * 1024 * 1024 });
    let r = upload_chunk(
        UploadChunkQueryParams { token: resp.token.clone(), offset: 524288 },
        vec![1u8; 524288],
    );
    match r.expect("aligned chunk must be accepted") {
        SavePartRequest::Big { file_part, file_total_parts, .. } => {
            assert_eq!(file_part, 1);
            assert_eq!(file_total_parts, 40);
        }
        SavePartRequest::Small { .. } => panic!("20 MB must use the big flow"),
    }
    let plan = upload_finalize(
        UploadFinalizeQueryParams { token: resp.token },
        UploadFinalizeBody { md5: "ignored".to_string(), name: "b.bin".to_string() },
    )
    .unwrap();
    assert!(plan.to_self && plan.silent && plan.noforwards);
    match plan.file {
        InputFilePlan::Big { file_id, parts, name } => {
            assert_eq!(file_id, plan.random_id);
            assert_eq!(parts, 40);
            assert_eq!(name, "b.bin");
        }
        InputFilePlan::Small { .. } => panic!("the big flow must omit the checksum"),
    }
}

#[test]
fn save_part_outcome_maps_to_statuses() {
    assert_eq!(upload_chunk_outcome(SaveOutcome::Saved), 204);
    assert_eq!(upload_chunk_outcome(SaveOutcome::Failed), 500);
}

#[test]
fn finalize_failures_map_to_statuses() {
    assert_eq!(
        upload_finalize_outcome(SendOutcome::CallFailed).err().unwrap().status(),
        500
    );
    assert_eq!(
        upload_finalize_outcome(SendOutcome::NotUpdates).err().unwrap().status(),
        500
    );
    assert_eq!(
        upload_finalize_outcome(SendOutcome::NoNewMessage).err().unwrap().status(),
        500
    );
    assert_eq!(
        upload_finalize_outcome(SendOutcome::NotMessage).err().unwrap().status(),
        500
    );
    assert_eq!(
        upload_finalize_outcome(SendOutcome::Message(MessageInfo {
            id: 1,
            media: MediaInfo::Missing,
        }))
        .err()
        .unwrap()
        .status(),
        500
    );
    let invalid = upload_finalize(
        UploadFinalizeQueryParams { token: "???".to_string() },
        UploadFinalizeBody { md5: String::new(), name: String::new() },
    );
    assert_eq!(invalid.err().unwrap().status(), 400);
}

#[test]
fn upload_limit_picks_the_account_key() {
    let entries = vec![
        AppConfigEntry { key: "upload_max_fileparts_default".to_string(), value: 4000 },
        AppConfigEntry { key: "upload_max_fileparts_premium".to_string(), value: 8000 },
    ];
    let default = get_upload_limit(false, &entries).unwrap();
    assert_eq!(default.file_size_limit, 4000 * 524288);
    let premium = get_upload_limit(true, &entries).unwrap();
    assert_eq!(premium.file_size_limit, 8000 * 524288);
    assert!(get_upload_limit(true, &Vec::new()).is_none());
    let negative = vec![AppConfigEntry {
        key: "upload_max_fileparts_default".to_string(),
        value: -1,
    }];
    assert!(get_upload_limit(false, &negative).is_none());
}
