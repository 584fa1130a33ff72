//! The failure taxonomy of the verification pipeline.

use vstd::prelude::*;

use crate::text::{spec_decimal, u64_decimal};

verus! {

/// Every way the pipeline can fail, each carrying the context a caller
/// needs to act on it.
#[derive(Debug)]
pub enum VerifyError {
    /// The network reported a chain identifier outside the supported table.
    UnsupportedChain(u64),
    /// No compiled artifact matched the contract reference.
    ArtifactNotFound,
    /// A name-only lookup matched artifacts in more than one place; the
    /// caller must disambiguate with a source path.
    AmbiguousArtifact,
    /// A path-scoped lookup matched the same contract name more than once
    /// within a single source file.
    DuplicateContractInFile,
    /// The matched artifact carries no ABI; the payload names the contract.
    MissingAbi(String),
    /// The matched artifact carries no bytecode; the payload names the
    /// contract.
    MissingBytecode(String),
    /// The ABI declares no constructor, yet constructor arguments were
    /// supplied.
    UnexpectedConstructorArgs,
    /// The encoding capability rejected the arguments; `index` names the
    /// offending argument when known.
    ArgumentEncodingError { index: Option<usize>, detail: String },
    /// No line of the contract source declares a compiler version.
    MissingCompilerVersion,
    /// The submission never reached the explorer service.
    SubmissionTransportError(String),
    /// The explorer service rejected the verification; both its message and
    /// its result payload are preserved verbatim.
    VerificationRejected { message: String, detail: String },
}

impl VerifyError {
    /// The human-readable text of each failure, with the contract, index
    /// and service context embedded.
    pub open spec fn spec_message(&self) -> Seq<char> {
        match *self {
            VerifyError::UnsupportedChain(id) => "unexpected chain "@ + spec_decimal(id as nat),
            VerifyError::ArtifactNotFound => "could not find artifact"@,
            VerifyError::AmbiguousArtifact => "contract with duplicate name. pass path"@,
            VerifyError::DuplicateContractInFile => (
            "duplicate contract name in the same source file"@),
            VerifyError::MissingAbi(ref name) => "abi not found for "@ + name@,
            VerifyError::MissingBytecode(ref name) => "bytecode not found for "@ + name@,
            VerifyError::UnexpectedConstructorArgs => (
            "No constructor found but contract arguments provided"@),
            VerifyError::ArgumentEncodingError { ref index, ref detail } => match *index {
                Some(i) => "could not encode constructor argument "@ + spec_decimal(i as nat)
                    + ": "@ + detail@,
                None => "could not encode constructor arguments: "@ + detail@,
            },
            VerifyError::MissingCompilerVersion => (
            "no compiler version pragma found in the contract source"@),
            VerifyError::SubmissionTransportError(ref detail) => (
            "Failed to submit contract verification: "@ + detail@),
            VerifyError::VerificationRejected { ref message, ref detail } => (
            "Encountered an error verifying this contract:\nResponse: `"@ + message@
                + "`\nDetails: `"@ + detail@ + "`"@),
        }
    }

    /// Renders the failure for the caller; see [`Self::spec_message`].
    pub fn message(&self) -> (r: String)
        ensures
            r@ == self.spec_message(),
    {
        match self {
            VerifyError::UnsupportedChain(id) => {
                let mut s = String::from_str("unexpected chain ");
                let rendered = u64_decimal(*id);
                s.append(rendered.as_str());
                s
            },
            VerifyError::ArtifactNotFound => String::from_str("could not find artifact"),
            VerifyError::AmbiguousArtifact => String::from_str(
                "contract with duplicate name. pass path",
            ),
            VerifyError::DuplicateContractInFile => String::from_str(
                "duplicate contract name in the same source file",
            ),
            VerifyError::MissingAbi(name) => {
                let mut s = String::from_str("abi not found for ");
                s.append(name.as_str());
                s
            },
            VerifyError::MissingBytecode(name) => {
                let mut s = String::from_str("bytecode not found for ");
                s.append(name.as_str());
                s
            },
            VerifyError::UnexpectedConstructorArgs => String::from_str(
                "No constructor found but contract arguments provided",
            ),
            VerifyError::ArgumentEncodingError { index, detail } => match index {
                Some(i) => {
                    let mut s = String::from_str("could not encode constructor argument ");
                    let rendered = u64_decimal(*i as u64);
                    s.append(rendered.as_str());
                    s.append(": ");
                    s.append(detail.as_str());
                    s
                },
                None => {
                    let mut s = String::from_str("could not encode constructor arguments: ");
                    s.append(detail.as_str());
                    s
                },
            },
            VerifyError::MissingCompilerVersion => String::from_str(
                "no compiler version pragma found in the contract source",
            ),
            VerifyError::SubmissionTransportError(detail) => {
                let mut s = String::from_str("Failed to submit contract verification: ");
                s.append(detail.as_str());
                s
            },
            VerifyError::VerificationRejected { message, detail } => {
                let mut s = String::from_str(
                    "Encountered an error verifying this contract:\nResponse: `",
                );
                s.append(message.as_str());
                s.append("`\nDetails: `");
                s.append(detail.as_str());
                s.append("`");
                s
            },
        }
    }
}

} // verus!
