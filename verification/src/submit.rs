//! Assembling a verification request and classifying the explorer's
//! response.

use vstd::prelude::*;

use crate::chain::{explorer_base, ChainTarget};
use crate::errors::VerifyError;
use crate::text::{contains_substring, has_substring, nth_token, spec_nth_token, str_eq};

verus! {

/// The compiler-version directive token a source line must contain.
pub open spec fn pragma_directive() -> Seq<char> {
    "pragma solidity"@
}

/// The verbatim explorer message that marks an already verified contract.
pub open spec fn already_verified_text() -> Seq<char> {
    "Contract source code already verified"@
}

/// Extracts the compiler version from the contract's source lines: on the
/// first line containing the compiler-version directive, the third
/// whitespace-separated token — the declared version, exactly as written.
/// No such line, or a directive line without a third token, fails with
/// `MissingCompilerVersion`: the verification service needs an exact
/// version string, and guessing one would make it report a spurious
/// mismatch against the real bytecode.
pub fn compiler_version_from_lines(lines: &Vec<String>) -> (r: Result<String, VerifyError>)
    ensures
        (forall|j: int|
            0 <= j < lines@.len() ==> !has_substring(lines@[j]@, pragma_directive())) ==> r
            == Err::<String, VerifyError>(VerifyError::MissingCompilerVersion),
        forall|k: int|
            (0 <= k < lines@.len() && has_substring(lines@[k]@, pragma_directive()) && (forall|
                j: int,
            |
                0 <= j < k ==> !has_substring(lines@[j]@, pragma_directive()))) ==> (match
                spec_nth_token(lines@[k]@, 2) {
                Some(t) => r matches Ok(v) && v@ == t,
                None => r == Err::<String, VerifyError>(VerifyError::MissingCompilerVersion),
            }),
{
    let n = lines.len();
    let mut k: usize = 0;
    while k < n
        invariant
            0 <= k <= n,
            n == lines@.len(),
            forall|j: int| 0 <= j < k ==> !has_substring(lines@[j]@, pragma_directive()),
        decreases n - k,
    {
        if contains_substring(lines[k].as_str(), "pragma solidity") {
            match nth_token(lines[k].as_str(), 2) {
                Some(v) => {
                    return Ok(v);
                },
                None => {
                    return Err(VerifyError::MissingCompilerVersion);
                },
            }
        }
        k = k + 1;
    }
    Err(VerifyError::MissingCompilerVersion)
}

/// A fully assembled verification request: constructed once, immutable,
/// submitted exactly once.
pub struct VerificationRequest {
    /// The deployed contract address, as the caller renders it.
    pub address: String,
    /// The source reference handed to the explorer, normally the contract's
    /// source path.
    pub source_ref: String,
    /// The compiler version declared by the source's directive line.
    pub compiler_version: String,
    /// The ABI-encoded constructor argument bytes; absent when the contract
    /// declares no constructor.
    pub constructor_args: Option<Vec<u8>>,
}

/// Assembles the verification request from its four ingredients.
pub fn build_request(
    address: String,
    source_ref: String,
    compiler_version: String,
    constructor_args: Option<Vec<u8>>,
) -> (r: VerificationRequest)
    ensures
        r == (VerificationRequest { address, source_ref, compiler_version, constructor_args }),
{
    VerificationRequest { address, source_ref, compiler_version, constructor_args }
}

/// A terminal success of the submission: either the explorer already held
/// a verified source for the address, or it accepted the request and
/// returned a tracking identifier.
pub enum SubmissionOutcome {
    /// The contract's source was verified before this run; the idempotent
    /// outcome is a success, not an error.
    AlreadyVerified,
    /// The explorer accepted the request.
    Accepted {
        /// The service's own message.
        message: String,
        /// The tracking identifier the service returned.
        tracking_id: String,
        /// The browsable explorer URL of the verified address.
        url: String,
    },
}

/// Classifies the explorer's structured `{status, message, result}`
/// response.
///
/// A failure status whose message says the source is already verified is
/// folded into the success path; every other failure status is
/// `VerificationRejected`, carrying the service's message and result
/// payload verbatim. A success status is `Accepted`, carrying the tracking
/// payload and the constructed explorer URL for the address.
pub fn classify_response(
    chain: ChainTarget,
    address: &str,
    status: &str,
    message: &str,
    result_payload: &str,
) -> (r: Result<SubmissionOutcome, VerifyError>)
    ensures
        status@ == "0"@ && message@ == already_verified_text() ==> r == Ok::<
            SubmissionOutcome,
            VerifyError,
        >(SubmissionOutcome::AlreadyVerified),
        status@ == "0"@ && message@ != already_verified_text() ==> (r matches Err(e)
            && e matches VerifyError::VerificationRejected { message: m, detail: d } && m@
            == message@ && d@ == result_payload@),
        status@ != "0"@ ==> (r matches Ok(o) && o matches SubmissionOutcome::Accepted {
            message: m,
            tracking_id: t,
            url: u,
        } && m@ == message@ && t@ == result_payload@ && u@ == explorer_base(chain) + address@),
{
    if str_eq(status, "0") {
        if str_eq(message, "Contract source code already verified") {
            Ok(SubmissionOutcome::AlreadyVerified)
        } else {
            Err(
                VerifyError::VerificationRejected {
                    message: message.to_owned(),
                    detail: result_payload.to_owned(),
                },
            )
        }
    } else {
        Ok(
            SubmissionOutcome::Accepted {
                message: message.to_owned(),
                tracking_id: result_payload.to_owned(),
                url: crate::chain::address_url(chain, address),
            },
        )
    }
}

} // verus!
