use gkr_service::codec::{dump_proof_and_claimed_v, ClaimedValue, CodecError, Proof};
use gkr_service::framing::{frame_verify_request, FrameError};
use gkr_service::service::{
    error_text, read_verify_request, ready_message, ready_message_at, verify_outcome_text,
    verify_status,
    RequestError, STATUS_BAD_REQUEST, STATUS_OK,
};

fn artifact(proof: &[u8], claimed: &[u8]) -> Vec<u8> {
    dump_proof_and_claimed_v(
        &Proof { bytes: proof.to_vec() },
        &ClaimedValue { bytes: claimed.to_vec() },
    )
}

#[test]
fn verify_request_is_read_in_full() {
    let body = frame_verify_request(&[1, 2, 3, 4], &artifact(&[5, 6], &[7, 8, 9]));
    let job = read_verify_request(&body, 3).unwrap();
    assert_eq!(job.witness, vec![1, 2, 3, 4]);
    assert_eq!(job.proof.bytes, vec![5, 6]);
    assert_eq!(job.claimed_v.bytes, vec![7, 8, 9]);
}

#[test]
fn verify_request_with_bad_framing_is_a_frame_error() {
    assert_eq!(
        read_verify_request(&[0u8; 3], 3).err(),
        Some(RequestError::Frame(FrameError::TruncatedHeader))
    );
    let mut body = frame_verify_request(&[1], &artifact(&[5, 6], &[7]));
    body.pop();
    assert_eq!(
        read_verify_request(&body, 1).err(),
        Some(RequestError::Frame(FrameError::LengthsExceedBody))
    );
}

#[test]
fn verify_request_with_a_bad_artifact_is_an_artifact_error() {
    let body = frame_verify_request(&[1], &[2, 0, 0]);
    assert_eq!(
        read_verify_request(&body, 1).err(),
        Some(RequestError::Artifact(CodecError::TruncatedProof))
    );
    let body = frame_verify_request(&[1], &artifact(&[5, 6], &[7]));
    assert_eq!(
        read_verify_request(&body, 2).err(),
        Some(RequestError::Artifact(CodecError::TruncatedClaimedValue))
    );
}

#[test]
fn artifact_is_read_from_the_proof_part_only() {
    let mut body = frame_verify_request(&[], &artifact(&[5], &[7]));
    body.extend_from_slice(&[1, 1, 1, 1]);
    assert_eq!(
        read_verify_request(&body, 2).err(),
        Some(RequestError::Artifact(CodecError::TruncatedClaimedValue))
    );
}

#[test]
fn outcome_is_a_word() {
    assert_eq!(verify_outcome_text(true), "success");
    assert_eq!(verify_outcome_text(false), "failure");
}

#[test]
fn ready_message_names_the_start() {
    assert_eq!(ready_message("2024-05-01T10:00:00Z"), "Ready since 2024-05-01T10:00:00Z");
    assert_eq!(ready_message(""), "Ready since ");
}

#[test]
fn read_requests_are_answered_with_ok() {
    let body = frame_verify_request(&[1], &artifact(&[5, 6], &[7]));
    assert_eq!(verify_status(&read_verify_request(&body, 1)), STATUS_OK);
    assert_eq!(STATUS_OK, 200);
}

#[test]
fn unread_requests_are_answered_with_bad_request() {
    assert_eq!(verify_status(&read_verify_request(&[], 1)), STATUS_BAD_REQUEST);
    assert_eq!(STATUS_BAD_REQUEST, 400);
}

#[test]
fn each_error_has_its_text() {
    assert_eq!(
        error_text(RequestError::Frame(FrameError::TruncatedHeader)),
        "request shorter than its header"
    );
    assert_eq!(
        error_text(RequestError::Frame(FrameError::LengthsExceedBody)),
        "lengths exceed request body"
    );
    assert_eq!(error_text(RequestError::Artifact(CodecError::TruncatedProof)), "proof truncated");
    assert_eq!(
        error_text(RequestError::Artifact(CodecError::TruncatedClaimedValue)),
        "claimed value truncated"
    );
}

#[test]
fn ready_message_at_the_start_of_1970() {
    assert_eq!(
        ready_message_at(0, 0),
        Some("Ready since 1970-01-01T00:00:00Z".to_string())
    );
}

#[test]
fn ready_message_prints_fractions_of_a_second() {
    assert_eq!(
        ready_message_at(1714557600, 500_000_000),
        Some("Ready since 2024-05-01T10:00:00.500Z".to_string())
    );
    assert_eq!(
        ready_message_at(1714557600, 1),
        Some("Ready since 2024-05-01T10:00:00.000000001Z".to_string())
    );
}

#[test]
fn ready_message_before_1970() {
    assert_eq!(
        ready_message_at(-1, 0),
        Some("Ready since 1969-12-31T23:59:59Z".to_string())
    );
}

#[test]
fn ready_message_of_an_instant_out_of_range_is_none() {
    assert_eq!(ready_message_at(i64::MAX, 0), None);
    assert_eq!(ready_message_at(i64::MIN, 0), None);
    assert_eq!(ready_message_at(0, 2_000_000_000), None);
}
