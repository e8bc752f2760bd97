//! What the service answers: the bodies and statuses of its replies, and
//! the reading of a verify request down to proof and claimed value.

use vstd::prelude::*;
use vstd::string::*;
use crate::codec::{decoded, load_proof_and_claimed_v, ClaimedValue, CodecError, Proof};
use crate::framing::{unframe_verify_request, unframed, FrameError};

verus! {

/// Status of every reply to a request that could be read.
pub const STATUS_OK: u16 = 200;

/// Status of the reply to a request that could not be read.
pub const STATUS_BAD_REQUEST: u16 = 400;

/// Why a verify request cannot be served.
#[derive(Clone, Copy, Debug, PartialEq, Eq, Structural)]
pub enum RequestError {
    /// The body is not framed as a verify request.
    Frame(FrameError),
    /// The proof part holds no proof and claimed value.
    Artifact(CodecError),
}

/// A verify request read in full.
#[derive(Clone, Debug)]
pub struct VerifyJob {
    pub witness: Vec<u8>,
    pub proof: Proof,
    pub claimed_v: ClaimedValue,
}

/// What reading a verify request yields when claimed values are `width`
/// bytes wide: witness, proof and claimed value. The framing is judged
/// first, the artifact inside it second.
pub open spec fn verify_job_of(body: Seq<u8>, width: nat) -> Result<
    (Seq<u8>, Seq<u8>, Seq<u8>),
    RequestError,
> {
    match unframed(body) {
        Err(e) => Err(RequestError::Frame(e)),
        Ok((witness, artifact)) => match decoded(artifact, width) {
            Err(e) => Err(RequestError::Artifact(e)),
            Ok((proof, claimed_v)) => Ok((witness, proof, claimed_v)),
        },
    }
}

/// Reads the body of a verify request: takes it apart, then reads proof and
/// claimed value from its proof part.
pub fn read_verify_request(body: &[u8], width: usize) -> (out: Result<VerifyJob, RequestError>)
    ensures
        match out {
            Ok(job) => verify_job_of(body@, width as nat) == Ok::<_, RequestError>(
                (job.witness@, job.proof@, job.claimed_v@),
            ),
            Err(e) => verify_job_of(body@, width as nat) == Err::<
                (Seq<u8>, Seq<u8>, Seq<u8>),
                _,
            >(e),
        },
{
    match unframe_verify_request(body) {
        Err(e) => Err(RequestError::Frame(e)),
        Ok(request) => match load_proof_and_claimed_v(request.proof.as_slice(), width) {
            Err(e) => Err(RequestError::Artifact(e)),
            Ok((proof, claimed_v)) => Ok(VerifyJob { witness: request.witness, proof, claimed_v }),
        },
    }
}

/// The body of the reply to a verify request: the outcome in a word. A proof
/// that does not verify is an answer, no error.
pub fn verify_outcome_text(verified: bool) -> (text: &'static str)
    ensures
        text@ == if verified {
            "success"@
        } else {
            "failure"@
        },
{
    if verified {
        "success"
    } else {
        "failure"
    }
}

/// The text chrono prints for the UTC instant `secs` seconds and `nanos`
/// nanoseconds after the start of 1970, where it can hold that instant.
pub uninterp spec fn utc_text(secs: i64, nanos: u32) -> Option<Seq<char>>;

/// Calls `chrono::DateTime::<Utc>::from_timestamp` and prints what it gives
/// with `{:?}`. The contract claims only that the outcome depends on the two
/// numbers alone: the instant is built from them, and the printing of a UTC
/// instant reads neither the clock nor the machine's time zone.
#[verifier::external_body]
fn utc_instant_text(secs: i64, nanos: u32) -> (text: Option<String>)
    ensures
        utc_text(secs, nanos) == match text {
            Some(t) => Some(t@),
            None => None,
        },
{
    match chrono::DateTime::<chrono::Utc>::from_timestamp(secs, nanos) {
        Some(instant) => Some(format!("{:?}", instant)),
        None => None,
    }
}

/// The body of the reply to a liveness check, given the time the service
/// came up as text.
pub fn ready_message(since: &str) -> (text: String)
    ensures
        text@ == "Ready since "@ + since@,
{
    String::from_str("Ready since ").concat(since)
}

/// The body of the reply to a liveness check of a service that came up
/// `secs` seconds and `nanos` nanoseconds after the start of 1970, UTC.
/// There is none for an instant that the calendar cannot hold.
pub fn ready_message_at(secs: i64, nanos: u32) -> (text: Option<String>)
    ensures
        match utc_text(secs, nanos) {
            Some(since) => text is Some && text->0@ == "Ready since "@ + since,
            None => text is None,
        },
{
    match utc_instant_text(secs, nanos) {
        Some(since) => Some(ready_message(since.as_str())),
        None => None,
    }
}

/// The status of the reply to a verify request: a request that was read is
/// answered with 200 whatever the outcome, one that was not with 400.
pub fn verify_status(read: &Result<VerifyJob, RequestError>) -> (status: u16)
    ensures
        status == if read is Ok {
            200u16
        } else {
            400u16
        },
{
    match read {
        Ok(_) => STATUS_OK,
        Err(_) => STATUS_BAD_REQUEST,
    }
}

/// The body of the reply to a request that could not be read.
pub fn error_text(error: RequestError) -> (text: &'static str)
    ensures
        text@ == match error {
            RequestError::Frame(FrameError::TruncatedHeader) => "request shorter than its header"@,
            RequestError::Frame(FrameError::LengthsExceedBody) => "lengths exceed request body"@,
            RequestError::Artifact(CodecError::TruncatedProof) => "proof truncated"@,
            RequestError::Artifact(CodecError::TruncatedClaimedValue) => "claimed value truncated"@,
        },
{
    match error {
        RequestError::Frame(FrameError::TruncatedHeader) => "request shorter than its header",
        RequestError::Frame(FrameError::LengthsExceedBody) => "lengths exceed request body",
        RequestError::Artifact(CodecError::TruncatedProof) => "proof truncated",
        RequestError::Artifact(CodecError::TruncatedClaimedValue) => "claimed value truncated",
    }
}

} // verus!
