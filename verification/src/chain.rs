//! Mapping from a numeric chain identifier to a known explorer target.

use vstd::prelude::*;

use crate::errors::VerifyError;

verus! {

/// The network a verification request is addressed to. The mapping from a
/// numeric chain identifier is total over the supported identifiers and
/// fails explicitly for every other one: submitting to the wrong explorer
/// instance would silently corrupt the verification.
#[derive(Clone, Copy, Debug, PartialEq, Eq, Structural)]
pub enum ChainTarget {
    Mainnet,
    Ropsten,
    Rinkeby,
    Goerli,
    Kovan,
    XDai,
}

/// The fixed identifier table: `1` is mainnet, `3`/`4`/`5`/`42` the named
/// test networks, `100` the xDai sidechain; everything else is unsupported.
pub open spec fn chain_of(id: u64) -> Option<ChainTarget> {
    if id == 1 {
        Some(ChainTarget::Mainnet)
    } else if id == 3 {
        Some(ChainTarget::Ropsten)
    } else if id == 4 {
        Some(ChainTarget::Rinkeby)
    } else if id == 5 {
        Some(ChainTarget::Goerli)
    } else if id == 42 {
        Some(ChainTarget::Kovan)
    } else if id == 100 {
        Some(ChainTarget::XDai)
    } else {
        None
    }
}

/// Resolves a chain identifier to its explorer target, failing — never
/// defaulting — on an unsupported identifier.
pub fn resolve_chain(id: u64) -> (r: Result<ChainTarget, VerifyError>)
    ensures
        chain_of(id) matches Some(t) ==> r == Ok::<ChainTarget, VerifyError>(t),
        chain_of(id) is None ==> r == Err::<ChainTarget, VerifyError>(
            VerifyError::UnsupportedChain(id),
        ),
{
    match id {
        1 => Ok(ChainTarget::Mainnet),
        3 => Ok(ChainTarget::Ropsten),
        4 => Ok(ChainTarget::Rinkeby),
        5 => Ok(ChainTarget::Goerli),
        42 => Ok(ChainTarget::Kovan),
        100 => Ok(ChainTarget::XDai),
        _ => Err(VerifyError::UnsupportedChain(id)),
    }
}

/// The browsable address prefix of each target's explorer instance.
pub open spec fn explorer_base(chain: ChainTarget) -> Seq<char> {
    match chain {
        ChainTarget::Mainnet => "https://etherscan.io/address/"@,
        ChainTarget::Ropsten => "https://ropsten.etherscan.io/address/"@,
        ChainTarget::Rinkeby => "https://rinkeby.etherscan.io/address/"@,
        ChainTarget::Goerli => "https://goerli.etherscan.io/address/"@,
        ChainTarget::Kovan => "https://kovan.etherscan.io/address/"@,
        ChainTarget::XDai => "https://blockscout.com/poa/xdai/address/"@,
    }
}

/// Builds the browsable explorer URL for a deployed address on the given
/// target.
pub fn address_url(chain: ChainTarget, address: &str) -> (r: String)
    ensures
        r@ == explorer_base(chain) + address@,
{
    let mut url = match chain {
        ChainTarget::Mainnet => String::from_str("https://etherscan.io/address/"),
        ChainTarget::Ropsten => String::from_str("https://ropsten.etherscan.io/address/"),
        ChainTarget::Rinkeby => String::from_str("https://rinkeby.etherscan.io/address/"),
        ChainTarget::Goerli => String::from_str("https://goerli.etherscan.io/address/"),
        ChainTarget::Kovan => String::from_str("https://kovan.etherscan.io/address/"),
        ChainTarget::XDai => String::from_str("https://blockscout.com/poa/xdai/address/"),
    };
    url.append(address);
    url
}

} // verus!
