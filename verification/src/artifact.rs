//! Locating exactly one compiled artifact for a contract reference.

use vstd::prelude::*;

use crate::errors::VerifyError;
use crate::text::{qualified_parts, split_qualified, str_eq};

verus! {

/// One ABI parameter: its declared name and its canonical type, such as
/// `uint256` or `string`.
pub struct Param {
    pub name: String,
    pub param_type: String,
}

/// The constructor descriptor of an ABI: its input parameter list.
pub struct ConstructorAbi {
    pub inputs: Vec<Param>,
}

/// An ordered contract ABI, reduced to what the pipeline reads: whether a
/// constructor is declared and, if so, its inputs.
pub struct Abi {
    pub constructor: Option<ConstructorAbi>,
}

/// One compiled artifact as the build output records it: a qualified
/// `file:Contract` name, and the ABI and bytecode when the compiler
/// produced them.
pub struct ArtifactRecord {
    pub qualified_name: String,
    pub abi: Option<Abi>,
    pub bytecode: Option<String>,
}

/// A contract reference: either a bare contract name, or a source path
/// together with a contract name.
pub enum ContractQuery {
    ByName { name: String },
    ByPathAndName { path: String, name: String },
}

/// The contract name a query asks for.
pub open spec fn query_name(q: ContractQuery) -> Seq<char> {
    match q {
        ContractQuery::ByName { name } => name@,
        ContractQuery::ByPathAndName { path, name } => name@,
    }
}

/// Whether an artifact answers a query: its qualified name must split into
/// `(file, contract)` components, the contract component must equal the
/// queried name, and — for a path-scoped query — the file component must
/// equal the queried path.
pub open spec fn query_matches(q: ContractQuery, a: ArtifactRecord) -> bool {
    match qualified_parts(a.qualified_name@) {
        None => false,
        Some(parts) => match q {
            ContractQuery::ByName { name } => parts.1 == name@,
            ContractQuery::ByPathAndName { path, name } => parts.0 == path@ && parts.1 == name@,
        },
    }
}

/// No artifact in the set answers the query.
pub open spec fn no_match(q: ContractQuery, s: Seq<ArtifactRecord>) -> bool {
    forall|j: int| 0 <= j < s.len() ==> !query_matches(q, s[j])
}

/// At least two artifacts in the set answer the query.
pub open spec fn multi_match(q: ContractQuery, s: Seq<ArtifactRecord>) -> bool {
    exists|i: int, j: int|
        0 <= i < j < s.len() && query_matches(q, s[i]) && query_matches(q, s[j])
}

/// The artifact at `i` is the single one answering the query.
pub open spec fn unique_match_at(q: ContractQuery, s: Seq<ArtifactRecord>, i: int) -> bool {
    0 <= i < s.len() && query_matches(q, s[i]) && (forall|j: int|
        0 <= j < s.len() && j != i ==> !query_matches(q, s[j]))
}

proof fn lemma_multi_excludes(q: ContractQuery, s: Seq<ArtifactRecord>)
    requires
        multi_match(q, s),
    ensures
        !no_match(q, s),
        forall|i: int| !unique_match_at(q, s, i),
{
    let (a, b) = choose|a: int, b: int|
        0 <= a < b < s.len() && query_matches(q, s[a]) && query_matches(q, s[b]);
    assert(query_matches(q, s[a]));
    assert forall|i: int| !unique_match_at(q, s, i) by {
        if unique_match_at(q, s, i) {
            if i != a {
                assert(!query_matches(q, s[a]));
            } else {
                assert(!query_matches(q, s[b]));
            }
        }
    }
}

/// Decides whether the artifact at `idx` answers the query.
fn matches_query(q: &ContractQuery, a: &ArtifactRecord) -> (r: bool)
    ensures
        r == query_matches(*q, *a),
{
    match split_qualified(a.qualified_name.as_str()) {
        None => false,
        Some((file, contract)) => match q {
            ContractQuery::ByName { name } => str_eq(contract.as_str(), name.as_str()),
            ContractQuery::ByPathAndName { path, name } => {
                let file_ok = str_eq(file.as_str(), path.as_str());
                let name_ok = str_eq(contract.as_str(), name.as_str());
                file_ok && name_ok
            },
        },
    }
}

/// Finds the index of the single artifact answering the query.
///
/// A name-only query that matches more than one artifact fails with
/// `AmbiguousArtifact` — the caller must disambiguate with a path — while a
/// path-scoped query that matches more than one fails with
/// `DuplicateContractInFile`, a compiler-cache inconsistency that is
/// reported rather than arbitrarily resolved. Zero matches fail with
/// `ArtifactNotFound`. The single matched artifact must carry both an ABI
/// and bytecode; a missing half is reported as `MissingAbi` or
/// `MissingBytecode` naming the contract.
pub fn locate_artifact(q: &ContractQuery, artifacts: &Vec<ArtifactRecord>) -> (r: Result<
    usize,
    VerifyError,
>)
    ensures
        (r == Err::<usize, VerifyError>(VerifyError::ArtifactNotFound)) <==> no_match(
            *q,
            artifacts@,
        ),
        (r == Err::<usize, VerifyError>(VerifyError::AmbiguousArtifact)) <==> (q is ByName
            && multi_match(*q, artifacts@)),
        (r == Err::<usize, VerifyError>(VerifyError::DuplicateContractInFile)) <==> (
        q is ByPathAndName && multi_match(*q, artifacts@)),
        forall|i: int|
            unique_match_at(*q, artifacts@, i) && artifacts@[i].abi is None ==> (r matches Err(e)
                && e matches VerifyError::MissingAbi(n) && n@ == query_name(*q)),
        forall|i: int|
            unique_match_at(*q, artifacts@, i) && artifacts@[i].abi is Some
                && artifacts@[i].bytecode is None ==> (r matches Err(e)
                && e matches VerifyError::MissingBytecode(n) && n@ == query_name(*q)),
        forall|i: int|
            unique_match_at(*q, artifacts@, i) && artifacts@[i].abi is Some
                && artifacts@[i].bytecode is Some ==> r == Ok::<usize, VerifyError>(i as usize),
        r matches Ok(u) ==> unique_match_at(*q, artifacts@, u as int) && artifacts@[
            u as int
        ].abi is Some && artifacts@[u as int].bytecode is Some,
{
    let n = artifacts.len();
    let mut found: Option<usize> = None;
    let mut idx: usize = 0;
    while idx < n
        invariant
            0 <= idx <= n,
            n == artifacts@.len(),
            match found {
                None => forall|j: int| 0 <= j < idx ==> !query_matches(*q, artifacts@[j]),
                Some(u) => u < idx && query_matches(*q, artifacts@[u as int]) && (forall|j: int|
                    0 <= j < idx && j != u ==> !query_matches(*q, artifacts@[j])),
            },
        decreases n - idx,
    {
        if matches_query(q, &artifacts[idx]) {
            match found {
                None => {
                    found = Some(idx);
                },
                Some(u) => {
                    proof {
                        assert(multi_match(*q, artifacts@));
                        lemma_multi_excludes(*q, artifacts@);
                    }
                    return match q {
                        ContractQuery::ByName { .. } => Err(VerifyError::AmbiguousArtifact),
                        ContractQuery::ByPathAndName { .. } => Err(
                            VerifyError::DuplicateContractInFile,
                        ),
                    };
                },
            }
        }
        idx = idx + 1;
    }
    match found {
        None => {
            proof {
                assert(!multi_match(*q, artifacts@)) by {
                    if multi_match(*q, artifacts@) {
                        lemma_multi_excludes(*q, artifacts@);
                    }
                }
            }
            Err(VerifyError::ArtifactNotFound)
        },
        Some(u) => {
            proof {
                assert(unique_match_at(*q, artifacts@, u as int));
                assert(!multi_match(*q, artifacts@)) by {
                    if multi_match(*q, artifacts@) {
                        lemma_multi_excludes(*q, artifacts@);
                    }
                }
                assert(!no_match(*q, artifacts@));
            }
            let name = match q {
                ContractQuery::ByName { name } => name,
                ContractQuery::ByPathAndName { name, .. } => name,
            };
            match &artifacts[u].abi {
                None => Err(VerifyError::MissingAbi(name.clone())),
                Some(_) => match &artifacts[u].bytecode {
                    None => Err(VerifyError::MissingBytecode(name.clone())),
                    Some(_) => Ok(u),
                },
            }
        },
    }
}

/// The source-file component of an artifact's qualified name, when the name
/// is qualified at all. A caller uses it to find the file whose compiler
/// version pragma must be read when the query gave no path.
pub fn artifact_source_file(a: &ArtifactRecord) -> (r: Option<String>)
    ensures
        match qualified_parts(a.qualified_name@) {
            Some(p) => r matches Some(f) && f@ == p.0,
            None => r is None,
        },
{
    match split_qualified(a.qualified_name.as_str()) {
        None => None,
        Some((file, _)) => Some(file),
    }
}

} // verus!
