use inmonea_backend::signatures::{
    all_required_signed, check_not_signed, final_pdf_path, original_pdf_path,
    requested_signature_type, signature_image_path, signing_link, status_after_signature,
    status_when_requested, RequestState, SignatureRepository, SignatureRequestStatus,
    SignatureService, SignatureType, SIGNING_LINK_DAYS,
};

const ABC_SHA256: &str = "ba7816bf8f01cfea414140de5dae2223b00361a396177a9cb410ff61f20015ad";

#[test]
fn content_hash_is_sha256_hex() {
    assert_eq!(SignatureService::hash_content(b"abc"), ABC_SHA256);
    assert_eq!(
        SignatureService::hash_content(b""),
        "e3b0c44298fc1c149afbf4c8996fb92427ae41e4649b934ca495991b7852b855"
    );
    assert_eq!(SignatureService::hash_token("abc"), ABC_SHA256);
}

#[test]
fn secure_token_and_its_hash() {
    let (token, hash) = SignatureService::generate_secure_token();
    assert_eq!(token.len(), 64);
    assert!(token.chars().all(|c| c.is_ascii_digit() || ('a'..='f').contains(&c)));
    assert_eq!(hash, SignatureService::hash_token(&token));
    assert_eq!(hash, SignatureService::hash_content(token.as_bytes()));
    assert_eq!(hash.len(), 64);
    assert!(hash.chars().all(|c| c.is_ascii_digit() || ('a'..='f').contains(&c)));
    let (token2, _) = SignatureService::generate_secure_token();
    assert_ne!(token, token2);
}

#[test]
fn verification_code_is_upper_hex() {
    let code = SignatureService::generate_verification_code();
    assert_eq!(code.len(), 8);
    assert!(code.chars().all(|c| c.is_ascii_digit() || ('A'..='F').contains(&c)));
}

#[test]
fn signature_images_are_decoded_from_base64() {
    assert_eq!(SignatureService::decode_signature("aGVsbG8=").unwrap(), b"hello".to_vec());
    assert_eq!(SignatureService::decode_signature("").unwrap(), Vec::<u8>::new());
    assert!(SignatureService::decode_signature("not base64!").is_err());
}

#[test]
fn storage_paths_and_link() {
    let t = 1u128;
    let c = 2u128;
    let r = 3u128;
    assert_eq!(
        signature_image_path(t, c, r),
        "00000000-0000-0000-0000-000000000001/00000000-0000-0000-0000-000000000002/signatures/00000000-0000-0000-0000-000000000003.png"
    );
    assert_eq!(
        original_pdf_path(t, c),
        "00000000-0000-0000-0000-000000000001/00000000-0000-0000-0000-000000000002/original.pdf"
    );
    assert_eq!(
        final_pdf_path(t, c),
        "00000000-0000-0000-0000-000000000001/00000000-0000-0000-0000-000000000002/final_signed.pdf"
    );
    assert_eq!(signing_link("tok"), "https://inmonea.agentech.ar/s/tok");
    assert_eq!(SIGNING_LINK_DAYS, 7);
}

#[test]
fn signature_type_defaults_to_handdrawn() {
    assert_eq!(requested_signature_type(None), SignatureType::Handdrawn);
    assert_eq!(requested_signature_type(Some(SignatureType::Otp)), SignatureType::Otp);
}

#[test]
fn signed_requests_cannot_be_signed_again() {
    assert_eq!(check_not_signed(SignatureRequestStatus::Signed), Err("Ya fue firmado".to_string()));
    assert_eq!(check_not_signed(SignatureRequestStatus::Pending), Ok(()));
    assert_eq!(check_not_signed(SignatureRequestStatus::Viewed), Ok(()));
}

#[test]
fn contract_completes_when_every_required_request_is_signed() {
    let req = |id: u128, required: bool, status: SignatureRequestStatus| RequestState {
        id,
        required_signature: required,
        status,
    };
    let reqs = vec![
        req(1, true, SignatureRequestStatus::Signed),
        req(2, true, SignatureRequestStatus::Pending),
        req(3, false, SignatureRequestStatus::Pending),
    ];
    assert!(all_required_signed(&reqs, 2));
    assert!(!all_required_signed(&reqs, 3));
    assert!(all_required_signed(&vec![], 9));
    assert_eq!(status_after_signature(true), "ACTIVE");
    assert_eq!(status_after_signature(false), "SIGNING");
    assert_eq!(status_when_requested("DRAFT"), Some("READY_FOR_SIGNATURE"));
    assert_eq!(status_when_requested("ACTIVE"), None);
    assert_eq!(status_when_requested("SIGNING"), None);
}

#[test]
fn status_codes_round_trip() {
    for s in [
        SignatureRequestStatus::Pending,
        SignatureRequestStatus::Opened,
        SignatureRequestStatus::Viewed,
        SignatureRequestStatus::Signed,
        SignatureRequestStatus::Rejected,
        SignatureRequestStatus::Expired,
        SignatureRequestStatus::Cancelled,
    ] {
        assert_eq!(SignatureRequestStatus::from_code(s.code()), Some(s));
    }
    assert_eq!(SignatureRequestStatus::from_code("signed"), None);
}

#[test]
fn request_status_statements() {
    assert_eq!(
        SignatureRepository::update_request_status_sql(SignatureRequestStatus::Signed),
        "UPDATE contract_signature_requests SET status = $1, updated_at = CURRENT_TIMESTAMP, signed_at = CURRENT_TIMESTAMP WHERE id = $2"
    );
    assert_eq!(
        SignatureRepository::update_request_status_sql(SignatureRequestStatus::Opened),
        "UPDATE contract_signature_requests SET status = $1, updated_at = CURRENT_TIMESTAMP, opened_at = COALESCE(opened_at, CURRENT_TIMESTAMP) WHERE id = $2"
    );
    assert_eq!(
        SignatureRepository::update_request_status_sql(SignatureRequestStatus::Rejected),
        "UPDATE contract_signature_requests SET status = $1, updated_at = CURRENT_TIMESTAMP WHERE id = $2"
    );
}

#[test]
fn signature_evidence_hash() {
    assert_eq!(SignatureService::signature_sha256("YWJj").unwrap(), ABC_SHA256);
    assert!(SignatureService::signature_sha256("%%%").is_err());
}

use inmonea_backend::signatures::{signing_step, SigningAction, SigningEvent, SigningStage, SigningState};

fn start() -> SigningState {
    SigningState { stage: SigningStage::LookingUp, tenant_id: 0, contract_id: 0, request_id: 0 }
}

#[test]
fn signing_sequence_completes_in_order() {
    let found = SigningEvent::RequestFound { tenant_id: 1, contract_id: 2, request_id: 3, status: SignatureRequestStatus::Viewed };
    let (s, a) = signing_step(start(), found);
    assert_eq!(s.stage, SigningStage::Uploading);
    match a {
        SigningAction::UploadImage { path } => assert_eq!(
            path,
            "00000000-0000-0000-0000-000000000001/00000000-0000-0000-0000-000000000002/signatures/00000000-0000-0000-0000-000000000003.png"
        ),
        _ => panic!("expected an upload"),
    }
    let (s, a) = signing_step(s, SigningEvent::Uploaded);
    assert_eq!(s.stage, SigningStage::Recording);
    assert!(matches!(a, SigningAction::RecordSignature { request_id: 3 }));
    let (s, a) = signing_step(s, SigningEvent::Recorded);
    assert_eq!(s.stage, SigningStage::Checking);
    assert!(matches!(a, SigningAction::LoadRequests { contract_id: 2 }));
    let reqs = vec![
        RequestState { id: 3, required_signature: true, status: SignatureRequestStatus::Viewed },
        RequestState { id: 4, required_signature: true, status: SignatureRequestStatus::Signed },
    ];
    let (s, a) = signing_step(s, SigningEvent::RequestsLoaded(reqs));
    assert_eq!(s.stage, SigningStage::Finishing);
    match a {
        SigningAction::CompleteContract { final_pdf_path } => assert!(final_pdf_path.ends_with("/final_signed.pdf")),
        _ => panic!("expected completion"),
    }
    let (s, a) = signing_step(s, SigningEvent::ContractUpdated);
    assert_eq!(s.stage, SigningStage::Done);
    match a {
        SigningAction::Respond(r) => assert!(r.success && r.message == "Firma registrada exitosamente"),
        _ => panic!("expected an answer"),
    }
}

#[test]
fn signing_sequence_refusals() {
    let signed = SigningEvent::RequestFound { tenant_id: 1, contract_id: 2, request_id: 3, status: SignatureRequestStatus::Signed };
    let (s, a) = signing_step(start(), signed);
    assert_eq!(s.stage, SigningStage::Failed);
    assert!(matches!(a, SigningAction::Fail(ref m) if m == "Ya fue firmado"));
    let (s2, a2) = signing_step(s, SigningEvent::Uploaded);
    assert_eq!(s2.stage, SigningStage::Failed);
    assert!(matches!(a2, SigningAction::Ignore));
    let (s3, a3) = signing_step(start(), SigningEvent::RequestMissing);
    assert_eq!(s3.stage, SigningStage::Failed);
    assert!(matches!(a3, SigningAction::Fail(ref m) if m == "Invalid or expired token"));
    let (s4, a4) = signing_step(start(), SigningEvent::Uploaded);
    assert_eq!(s4.stage, SigningStage::LookingUp);
    assert!(matches!(a4, SigningAction::Ignore));
}

#[test]
fn contract_marked_signing_when_others_remain() {
    let st = SigningState { stage: SigningStage::Checking, tenant_id: 1, contract_id: 2, request_id: 3 };
    let reqs = vec![RequestState { id: 4, required_signature: true, status: SignatureRequestStatus::Pending }];
    let (s, a) = signing_step(st, SigningEvent::RequestsLoaded(reqs));
    assert_eq!(s.stage, SigningStage::Finishing);
    assert!(matches!(a, SigningAction::MarkSigning));
}
