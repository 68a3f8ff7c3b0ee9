//! Addresses, token assets and token deployments.

use vstd::prelude::*;

use crate::network::Network;

verus! {

/// A 20-byte EVM account address.
#[derive(Debug, Clone, Copy, PartialEq, Eq)]
pub struct EvmAddress(pub [u8; 20]);

/// A 32-byte Solana account address (a public key).
#[derive(Debug, Clone, Copy, PartialEq, Eq)]
pub struct SolanaAddress(pub [u8; 32]);

/// An address on either kind of chain.
#[derive(Debug, Clone, Copy, PartialEq, Eq)]
pub enum MixedAddress {
    /// An EVM address.
    Evm(EvmAddress),
    /// A Solana address.
    Solana(SolanaAddress),
}

/// A token contract (or mint) on a given network.
#[derive(Debug, Clone, Copy, PartialEq, Eq)]
pub struct TokenAsset {
    /// Where the token lives.
    pub address: MixedAddress,
    /// The network it lives on.
    pub network: Network,
}

/// The EIP-712 domain fields (name and version) of a token.
#[derive(Debug, PartialEq, Eq)]
pub struct TokenDeploymentEip712 {
    /// The domain name.
    pub name: String,
    /// The domain version.
    pub version: String,
}

impl Clone for TokenDeploymentEip712 {
    fn clone(&self) -> (r: Self)
        ensures
            r == *self,
    {
        TokenDeploymentEip712 { name: self.name.clone(), version: self.version.clone() }
    }
}

/// The domain fields as character sequences: name, then version.
pub open spec fn eip712_fields(e: Option<TokenDeploymentEip712>) -> Option<(Seq<char>, Seq<char>)> {
    match e {
        Some(d) => Some((d.name@, d.version@)),
        None => None,
    }
}

/// A token asset together with its decimals and EIP-712 domain, if any.
#[derive(Debug, PartialEq, Eq)]
pub struct TokenDeployment {
    /// The token asset.
    pub asset: TokenAsset,
    /// The number of decimals of the token.
    pub decimals: u8,
    /// The EIP-712 domain fields, where they are known.
    pub eip712: Option<TokenDeploymentEip712>,
}

impl Clone for TokenDeployment {
    fn clone(&self) -> (r: Self)
        ensures
            r == *self,
    {
        let eip712 = match &self.eip712 {
            Some(e) => Some(e.clone()),
            None => None,
        };
        TokenDeployment { asset: self.asset, decimals: self.decimals, eip712 }
    }
}

} // verus!
