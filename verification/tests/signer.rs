use upload_signing::error::SdzApiError;
use upload_signing::signer::{
    sdz_first_token, sdz_sign_blob_url, sdz_sign_body, sdz_sign_payload, sdz_signature_from_blob,
    sdz_status_is_success, SdzRemoteSigner, SdzSignerAction, SdzSignerEvent, SdzSignerPhase,
    SDZ_METADATA_HEADER_NAME, SDZ_METADATA_HEADER_VALUE, SDZ_METADATA_TOKEN_URL,
};

const STRING_TO_SIGN: &str = "GOOG4-RSA-SHA256\n20240101T000000Z\n20240101/auto/storage/goog4_request\n9233ed115110bb856fb949ac33e0d6879a37b9b92d2e83a00989a80892338d0b";
const PAYLOAD: &str = "R09PRzQtUlNBLVNIQTI1NgoyMDI0MDEwMVQwMDAwMDBaCjIwMjQwMTAxL2F1dG8vc3RvcmFnZS9nb29nNF9yZXF1ZXN0CjkyMzNlZDExNTExMGJiODU2ZmI5NDlhYzMzZTBkNjg3OWEzN2I5YjkyZDJlODNhMDA5ODlhODA4OTIzMzhkMGI=";
const SIGN_URL: &str = "https://iamcredentials.googleapis.com/v1/projects/-/serviceAccounts/signer@example.iam.gserviceaccount.com:signBlob";

fn signer() -> SdzRemoteSigner {
    SdzRemoteSigner::new("signer@example.iam.gserviceaccount.com", STRING_TO_SIGN)
}

fn some(s: &str) -> Option<String> {
    Some(s.to_string())
}

fn expect_sign(action: SdzSignerAction, token: &str) {
    match action {
        SdzSignerAction::SignBlob { url, bearer_token, payload, body } => {
            assert_eq!(url, SIGN_URL);
            assert_eq!(bearer_token, token);
            assert_eq!(payload, PAYLOAD);
            assert_eq!(body, format!("{{\"payload\":\"{}\"}}", PAYLOAD));
        }
        other => panic!("expected a signing request, got {:?}", other),
    }
}

#[test]
fn metadata_endpoint_is_fixed() {
    assert_eq!(
        SDZ_METADATA_TOKEN_URL,
        "http://metadata.google.internal/computeMetadata/v1/instance/service-accounts/default/token"
    );
    assert_eq!(SDZ_METADATA_HEADER_NAME, "Metadata-Flavor");
    assert_eq!(SDZ_METADATA_HEADER_VALUE, "Google");
}

#[test]
fn sign_url_names_the_identity() {
    assert_eq!(sdz_sign_blob_url("signer@example.iam.gserviceaccount.com"), SIGN_URL);
}

#[test]
fn payload_is_base64_of_the_string_to_sign() {
    assert_eq!(sdz_sign_payload(STRING_TO_SIGN), PAYLOAD);
    assert_eq!(sdz_sign_payload("héllo"), "aMOpbGxv");
    assert_eq!(sdz_sign_payload(""), "");
}

#[test]
fn body_is_a_json_object_with_the_payload() {
    assert_eq!(sdz_sign_body("aMOpbGxv"), "{\"payload\":\"aMOpbGxv\"}");
    assert_eq!(sdz_sign_body(""), "{\"payload\":\"\"}");
}

#[test]
fn signature_is_the_hex_of_the_decoded_blob() {
    assert_eq!(sdz_signature_from_blob("3q2+7w==").unwrap(), "deadbeef");
    assert_eq!(sdz_signature_from_blob("q8Ej").unwrap(), "abc123");
    assert_eq!(sdz_signature_from_blob("").unwrap(), "");
}

#[test]
fn blob_that_is_no_base64_is_an_internal_error() {
    assert_eq!(sdz_signature_from_blob("not base64!").unwrap_err(), SdzApiError::Internal);
    assert_eq!(sdz_signature_from_blob("3q2+7w").unwrap_err(), SdzApiError::Internal);
}

#[test]
fn success_is_two_hundred_to_two_ninety_nine() {
    assert!(sdz_status_is_success(200));
    assert!(sdz_status_is_success(204));
    assert!(sdz_status_is_success(299));
    assert!(!sdz_status_is_success(199));
    assert!(!sdz_status_is_success(300));
    assert!(!sdz_status_is_success(403));
    assert!(!sdz_status_is_success(500));
    assert!(!sdz_status_is_success(0));
}

#[test]
fn first_token_that_is_not_empty_wins() {
    assert_eq!(sdz_first_token(&[some("a"), some("b")]), some("a"));
    assert_eq!(sdz_first_token(&[None, some("b")]), some("b"));
    assert_eq!(sdz_first_token(&[some(""), some("b")]), some("b"));
    assert_eq!(sdz_first_token(&[some(""), None, some("c"), some("d")]), some("c"));
    assert_eq!(sdz_first_token(&[None, None]), None);
    assert_eq!(sdz_first_token(&[some(""), some("")]), None);
    assert_eq!(sdz_first_token(&[]), None);
}

#[test]
fn signing_override_goes_straight_to_signing() {
    let mut s = signer();
    assert_eq!(s.current_phase(), SdzSignerPhase::Idle);
    let action = s.step(SdzSignerEvent::Started {
        signing_override: some("tok-1"),
        shared_override: some("tok-2"),
    });
    expect_sign(action, "tok-1");
    assert_eq!(s.current_phase(), SdzSignerPhase::AwaitingSignature);
}

#[test]
fn shared_override_is_second_in_line() {
    let mut s = signer();
    let action = s.step(SdzSignerEvent::Started {
        signing_override: None,
        shared_override: some("tok-2"),
    });
    expect_sign(action, "tok-2");
    let mut t = signer();
    let action = t.step(SdzSignerEvent::Started {
        signing_override: some(""),
        shared_override: some("tok-2"),
    });
    expect_sign(action, "tok-2");
}

#[test]
fn without_override_the_token_is_fetched_then_used() {
    let mut s = signer();
    let action = s.step(SdzSignerEvent::Started { signing_override: None, shared_override: None });
    match &action {
        SdzSignerAction::FetchToken { token_url, header_name, header_value } => {
            assert_eq!(token_url, SDZ_METADATA_TOKEN_URL);
            assert_eq!(header_name, "Metadata-Flavor");
            assert_eq!(header_value, "Google");
        }
        other => panic!("expected a request for a token, got {:?}", other),
    }
    assert!(action.outcome().is_none());
    assert_eq!(s.current_phase(), SdzSignerPhase::AwaitingToken);
    let action = s.step(SdzSignerEvent::TokenFetched { status: 200, access_token: some("meta") });
    expect_sign(action, "meta");
    assert_eq!(s.current_phase(), SdzSignerPhase::AwaitingSignature);
    let action = s.step(SdzSignerEvent::BlobSigned { status: 200, signed_blob: some("q8Ej") });
    assert_eq!(action.outcome(), Some(Ok("abc123".to_string())));
    assert_eq!(s.current_phase(), SdzSignerPhase::Closed);
}

#[test]
fn failed_token_fetch_is_an_internal_error() {
    for event in [
        SdzSignerEvent::TokenFetched { status: 500, access_token: some("meta") },
        SdzSignerEvent::TokenFetched { status: 404, access_token: None },
        SdzSignerEvent::TokenFetched { status: 200, access_token: None },
        SdzSignerEvent::TransportFailed,
    ] {
        let mut s = signer();
        s.step(SdzSignerEvent::Started { signing_override: None, shared_override: None });
        let action = s.step(event);
        assert_eq!(action.outcome(), Some(Err(SdzApiError::Internal)));
        assert_eq!(s.current_phase(), SdzSignerPhase::Closed);
    }
}

#[test]
fn failed_signing_is_an_internal_error() {
    for event in [
        SdzSignerEvent::BlobSigned { status: 403, signed_blob: some("q8Ej") },
        SdzSignerEvent::BlobSigned { status: 500, signed_blob: None },
        SdzSignerEvent::BlobSigned { status: 200, signed_blob: None },
        SdzSignerEvent::BlobSigned { status: 200, signed_blob: some("***") },
        SdzSignerEvent::TransportFailed,
    ] {
        let mut s = signer();
        s.step(SdzSignerEvent::Started { signing_override: some("tok"), shared_override: None });
        let action = s.step(event);
        assert_eq!(action.outcome(), Some(Err(SdzApiError::Internal)));
        assert_eq!(s.current_phase(), SdzSignerPhase::Closed);
    }
}

#[test]
fn events_out_of_turn_end_the_signing() {
    let mut s = signer();
    let action = s.step(SdzSignerEvent::BlobSigned { status: 200, signed_blob: some("q8Ej") });
    assert!(matches!(action, SdzSignerAction::Fail));
    assert_eq!(s.current_phase(), SdzSignerPhase::Closed);

    let mut t = signer();
    t.step(SdzSignerEvent::Started { signing_override: some("tok"), shared_override: None });
    let action = t.step(SdzSignerEvent::Started { signing_override: some("tok"), shared_override: None });
    assert!(matches!(action, SdzSignerAction::Fail));
}

#[test]
fn closed_signer_fails_every_event() {
    let mut s = signer();
    s.step(SdzSignerEvent::TransportFailed);
    assert_eq!(s.current_phase(), SdzSignerPhase::Closed);
    for event in [
        SdzSignerEvent::Started { signing_override: some("tok"), shared_override: None },
        SdzSignerEvent::TokenFetched { status: 200, access_token: some("meta") },
        SdzSignerEvent::BlobSigned { status: 200, signed_blob: some("q8Ej") },
        SdzSignerEvent::TransportFailed,
    ] {
        let action = s.step(event);
        assert!(matches!(action, SdzSignerAction::Fail));
        assert_eq!(s.current_phase(), SdzSignerPhase::Closed);
    }
}
