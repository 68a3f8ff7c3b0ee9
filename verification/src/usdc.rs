//! The statically known USDC deployment on every supported network.

use vstd::prelude::*;

use crate::network::{family, Network, NetworkFamily};
use crate::types::{
    eip712_fields, EvmAddress, MixedAddress, SolanaAddress, TokenAsset, TokenDeployment,
    TokenDeploymentEip712,
};

verus! {

/// The number of decimals of USDC on every network.
pub const USDC_DECIMALS: u8 = 6;

/// `0x036CbD53842c5426634e7929541eC2318f3dCF7e`
pub const USDC_BASE_SEPOLIA_ADDRESS: [u8; 20] = [
    0x03, 0x6c, 0xbd, 0x53, 0x84, 0x2c, 0x54, 0x26, 0x63, 0x4e,
    0x79, 0x29, 0x54, 0x1e, 0xc2, 0x31, 0x8f, 0x3d, 0xcf, 0x7e,
];

/// `0x833589fCD6eDb6E08f4c7C32D4f71b54bdA02913`
pub const USDC_BASE_ADDRESS: [u8; 20] = [
    0x83, 0x35, 0x89, 0xfc, 0xd6, 0xed, 0xb6, 0xe0, 0x8f, 0x4c,
    0x7c, 0x32, 0xd4, 0xf7, 0x1b, 0x54, 0xbd, 0xa0, 0x29, 0x13,
];

/// `0x2A8E898b6242355c290E1f4Fc966b8788729A4D4`
pub const USDC_XDC_ADDRESS: [u8; 20] = [
    0x2a, 0x8e, 0x89, 0x8b, 0x62, 0x42, 0x35, 0x5c, 0x29, 0x0e,
    0x1f, 0x4f, 0xc9, 0x66, 0xb8, 0x78, 0x87, 0x29, 0xa4, 0xd4,
];

/// `0x5425890298aed601595a70AB815c96711a31Bc65`
pub const USDC_AVALANCHE_FUJI_ADDRESS: [u8; 20] = [
    0x54, 0x25, 0x89, 0x02, 0x98, 0xae, 0xd6, 0x01, 0x59, 0x5a,
    0x70, 0xab, 0x81, 0x5c, 0x96, 0x71, 0x1a, 0x31, 0xbc, 0x65,
];

/// `0xB97EF9Ef8734C71904D8002F8b6Bc66Dd9c48a6E`
pub const USDC_AVALANCHE_ADDRESS: [u8; 20] = [
    0xb9, 0x7e, 0xf9, 0xef, 0x87, 0x34, 0xc7, 0x19, 0x04, 0xd8,
    0x00, 0x2f, 0x8b, 0x6b, 0xc6, 0x6d, 0xd9, 0xc4, 0x8a, 0x6e,
];

/// `0xDaF4556169c4F3f2231d8ab7BC8772Ddb7D4c84C`
pub const USDC_XRPL_EVM_ADDRESS: [u8; 20] = [
    0xda, 0xf4, 0x55, 0x61, 0x69, 0xc4, 0xf3, 0xf2, 0x23, 0x1d,
    0x8a, 0xb7, 0xbc, 0x87, 0x72, 0xdd, 0xb7, 0xd4, 0xc8, 0x4c,
];

/// `0x41E94Eb019C0762f9Bfcf9Fb1E58725BfB0e7582`
pub const USDC_POLYGON_AMOY_ADDRESS: [u8; 20] = [
    0x41, 0xe9, 0x4e, 0xb0, 0x19, 0xc0, 0x76, 0x2f, 0x9b, 0xfc,
    0xf9, 0xfb, 0x1e, 0x58, 0x72, 0x5b, 0xfb, 0x0e, 0x75, 0x82,
];

/// `0x3c499c542cEF5E3811e1192ce70d8cC03d5c3359`
pub const USDC_POLYGON_ADDRESS: [u8; 20] = [
    0x3c, 0x49, 0x9c, 0x54, 0x2c, 0xef, 0x5e, 0x38, 0x11, 0xe1,
    0x19, 0x2c, 0xe7, 0x0d, 0x8c, 0xc0, 0x3d, 0x5c, 0x33, 0x59,
];

/// `0xe15fC38F6D8c56aF07bbCBe3BAf5708A2Bf42392`
pub const USDC_SEI_ADDRESS: [u8; 20] = [
    0xe1, 0x5f, 0xc3, 0x8f, 0x6d, 0x8c, 0x56, 0xaf, 0x07, 0xbb,
    0xcb, 0xe3, 0xba, 0xf5, 0x70, 0x8a, 0x2b, 0xf4, 0x23, 0x92,
];

/// `0x4fCF1784B31630811181f670Aea7A7bEF803eaED`
pub const USDC_SEI_TESTNET_ADDRESS: [u8; 20] = [
    0x4f, 0xcf, 0x17, 0x84, 0xb3, 0x16, 0x30, 0x81, 0x11, 0x81,
    0xf6, 0x70, 0xae, 0xa7, 0xa7, 0xbe, 0xf8, 0x03, 0xea, 0xed,
];

/// `0x0000000000000000000000000000000000000000`
pub const USDC_BESU_PRIVATE_ADDRESS: [u8; 20] = [
    0x00, 0x00, 0x00, 0x00, 0x00, 0x00, 0x00, 0x00, 0x00, 0x00,
    0x00, 0x00, 0x00, 0x00, 0x00, 0x00, 0x00, 0x00, 0x00, 0x00,
];

/// The base58 text of the USDC mint on Solana mainnet.
pub const USDC_SOLANA_MINT: &'static str = "EPjFWdd5AufqSSqeM2qN1xzybapC8G4wEGGkZwyTDt1v";

/// The base58 text of the USDC mint on Solana devnet.
pub const USDC_SOLANA_DEVNET_MINT: &'static str = "4zMMC9srt5Ri5X14GAgXhaHii3GnPAEERYPJgZJDncDU";

/// The 32 bytes that `solana_sdk::pubkey::Pubkey::from_str` decodes from a
/// base58 text, or `None` where it rejects the text.
pub uninterp spec fn solana_pubkey_parse(text: Seq<char>) -> Option<Seq<u8>>;

/// Decodes a base58 text with `solana_sdk::pubkey::Pubkey::from_str` and
/// hands back the key's bytes. Trusted, not proved: the outcome is
/// `solana_pubkey_parse` of the text, with `None` for a rejected text.
#[verifier::external_body]
fn parse_pubkey(text: &str) -> (r: Option<[u8; 32]>)
    ensures
        match r {
            Some(key) => solana_pubkey_parse(text@) == Some(key@),
            None => solana_pubkey_parse(text@) is None,
        },
{
    match <solana_sdk::pubkey::Pubkey as core::str::FromStr>::from_str(text) {
        Ok(key) => Some(key.to_bytes()),
        Err(_) => None,
    }
}

/// The USDC contract address on an EVM network.
pub open spec fn usdc_evm_address(n: Network) -> Option<[u8; 20]> {
    match n {
        Network::BaseSepolia => Some(USDC_BASE_SEPOLIA_ADDRESS),
        Network::Base => Some(USDC_BASE_ADDRESS),
        Network::XdcMainnet => Some(USDC_XDC_ADDRESS),
        Network::AvalancheFuji => Some(USDC_AVALANCHE_FUJI_ADDRESS),
        Network::Avalanche => Some(USDC_AVALANCHE_ADDRESS),
        Network::XrplEvm => Some(USDC_XRPL_EVM_ADDRESS),
        Network::PolygonAmoy => Some(USDC_POLYGON_AMOY_ADDRESS),
        Network::Polygon => Some(USDC_POLYGON_ADDRESS),
        Network::Sei => Some(USDC_SEI_ADDRESS),
        Network::SeiTestnet => Some(USDC_SEI_TESTNET_ADDRESS),
        Network::BesuPrivate => Some(USDC_BESU_PRIVATE_ADDRESS),
        Network::Solana | Network::SolanaDevnet => None,
    }
}

/// The base58 text of the USDC mint on a Solana network.
pub open spec fn usdc_solana_mint(n: Network) -> Option<Seq<char>> {
    match n {
        Network::Solana => Some(USDC_SOLANA_MINT@),
        Network::SolanaDevnet => Some(USDC_SOLANA_DEVNET_MINT@),
        _ => None,
    }
}

/// The EIP-712 domain (name, version) of USDC on a network, where it is
/// known statically.
pub open spec fn usdc_eip712(n: Network) -> Option<(Seq<char>, Seq<char>)> {
    match n {
        Network::BaseSepolia => Some(("USDC"@, "2"@)),
        Network::Base => Some(("USD Coin"@, "2"@)),
        Network::XdcMainnet => Some(("Bridged USDC(XDC)"@, "2"@)),
        Network::AvalancheFuji => Some(("USD Coin"@, "2"@)),
        Network::Avalanche => Some(("USD Coin"@, "2"@)),
        Network::PolygonAmoy => Some(("USDC"@, "2"@)),
        Network::Polygon => Some(("USDC"@, "2"@)),
        Network::Sei => Some(("USDC"@, "2"@)),
        Network::SeiTestnet => Some(("USDC"@, "2"@)),
        Network::XrplEvm | Network::Solana | Network::SolanaDevnet | Network::BesuPrivate => None,
    }
}

/// Whether the USDC mint text of a network, where it has one, decodes to a
/// Solana key.
pub open spec fn usdc_mint_decodes(n: Network) -> bool {
    match usdc_solana_mint(n) {
        Some(text) => solana_pubkey_parse(text) is Some,
        None => true,
    }
}

/// Whether `d` is the USDC deployment on `n`: an asset on `n` at the USDC
/// address there, with six decimals and the known EIP-712 domain.
pub open spec fn is_usdc_deployment(d: TokenDeployment, n: Network) -> bool {
    &&& d.asset.network == n
    &&& d.decimals == USDC_DECIMALS
    &&& eip712_fields(d.eip712) == usdc_eip712(n)
    &&& match d.asset.address {
        MixedAddress::Evm(a) => usdc_evm_address(n) == Some(a.0),
        MixedAddress::Solana(k) => match usdc_solana_mint(n) {
            Some(text) => solana_pubkey_parse(text) == Some(k.0@),
            None => false,
        },
    }
}

/// The USDC mint text of a Solana network.
fn solana_mint_text(n: Network) -> (r: Option<&'static str>)
    ensures
        match r {
            Some(t) => usdc_solana_mint(n) == Some(t@),
            None => usdc_solana_mint(n) is None,
        },
{
    match n {
        Network::Solana => Some(USDC_SOLANA_MINT),
        Network::SolanaDevnet => Some(USDC_SOLANA_DEVNET_MINT),
        _ => None,
    }
}

/// The Solana address that a mint text decodes to.
fn decoded_mint(text: &str) -> (r: MixedAddress)
    requires
        solana_pubkey_parse(text@) is Some,
    ensures
        match r {
            MixedAddress::Solana(k) => solana_pubkey_parse(text@) == Some(k.0@),
            MixedAddress::Evm(_) => false,
        },
{
    match parse_pubkey(text) {
        Some(key) => MixedAddress::Solana(SolanaAddress(key)),
        None => {
            assert(false);
            MixedAddress::Solana(SolanaAddress([0u8; 32]))
        },
    }
}

/// EIP-712 domain fields from a name and a version.
fn eip712(name: &str, version: &str) -> (r: Option<TokenDeploymentEip712>)
    ensures
        eip712_fields(r) == Some((name@, version@)),
{
    Some(TokenDeploymentEip712 { name: String::from_str(name), version: String::from_str(version) })
}

/// A known USDC deployment, as a wrapper around [`TokenDeployment`].
#[derive(Debug)]
pub struct USDCDeployment(pub TokenDeployment);

impl Clone for USDCDeployment {
    fn clone(&self) -> (r: Self)
        ensures
            r == *self,
    {
        USDCDeployment(self.0.clone())
    }
}

impl USDCDeployment {
    /// The USDC deployment on the given network.
    ///
    /// On a Solana network the mint address is decoded from its base58 text,
    /// which must therefore decode.
    pub fn by_network(network: Network) -> (r: USDCDeployment)
        requires
            usdc_mint_decodes(network),
        ensures
            is_usdc_deployment(r.0, network),
            r.0.asset.address is Solana <==> family(network) == NetworkFamily::Solana,
    {
        let address = match network {
            Network::BaseSepolia => MixedAddress::Evm(EvmAddress(USDC_BASE_SEPOLIA_ADDRESS)),
            Network::Base => MixedAddress::Evm(EvmAddress(USDC_BASE_ADDRESS)),
            Network::XdcMainnet => MixedAddress::Evm(EvmAddress(USDC_XDC_ADDRESS)),
            Network::AvalancheFuji => MixedAddress::Evm(EvmAddress(USDC_AVALANCHE_FUJI_ADDRESS)),
            Network::Avalanche => MixedAddress::Evm(EvmAddress(USDC_AVALANCHE_ADDRESS)),
            Network::XrplEvm => MixedAddress::Evm(EvmAddress(USDC_XRPL_EVM_ADDRESS)),
            Network::PolygonAmoy => MixedAddress::Evm(EvmAddress(USDC_POLYGON_AMOY_ADDRESS)),
            Network::Polygon => MixedAddress::Evm(EvmAddress(USDC_POLYGON_ADDRESS)),
            Network::Sei => MixedAddress::Evm(EvmAddress(USDC_SEI_ADDRESS)),
            Network::SeiTestnet => MixedAddress::Evm(EvmAddress(USDC_SEI_TESTNET_ADDRESS)),
            Network::BesuPrivate => MixedAddress::Evm(EvmAddress(USDC_BESU_PRIVATE_ADDRESS)),
            Network::Solana => decoded_mint(USDC_SOLANA_MINT),
            Network::SolanaDevnet => decoded_mint(USDC_SOLANA_DEVNET_MINT),
        };
        let eip712 = match network {
            Network::BaseSepolia => eip712("USDC", "2"),
            Network::Base => eip712("USD Coin", "2"),
            Network::XdcMainnet => eip712("Bridged USDC(XDC)", "2"),
            Network::AvalancheFuji => eip712("USD Coin", "2"),
            Network::Avalanche => eip712("USD Coin", "2"),
            Network::PolygonAmoy => eip712("USDC", "2"),
            Network::Polygon => eip712("USDC", "2"),
            Network::Sei => eip712("USDC", "2"),
            Network::SeiTestnet => eip712("USDC", "2"),
            Network::XrplEvm | Network::Solana | Network::SolanaDevnet | Network::BesuPrivate => None,
        };
        USDCDeployment(
            TokenDeployment {
                asset: TokenAsset { address, network },
                decimals: USDC_DECIMALS,
                eip712,
            },
        )
    }

    /// The token assets of this deployment: its one asset.
    pub fn assets(&self) -> (r: Vec<TokenAsset>)
        ensures
            r@ == seq![self.0.asset],
    {
        let mut r: Vec<TokenAsset> = Vec::new();
        r.push(self.0.asset);
        r
    }

    /// The USDC deployment on the given network, or `None` where the network's
    /// mint text does not decode to a Solana key.
    pub fn try_by_network(network: Network) -> (r: Option<USDCDeployment>)
        ensures
            match r {
                Some(d) => usdc_mint_decodes(network) && is_usdc_deployment(d.0, network),
                None => !usdc_mint_decodes(network),
            },
    {
        if let Some(text) = solana_mint_text(network) {
            if parse_pubkey(text).is_none() {
                return None;
            }
        }
        Some(USDCDeployment::by_network(network))
    }
}

impl core::ops::Deref for USDCDeployment {
    type Target = TokenDeployment;

    fn deref(&self) -> (r: &TokenDeployment)
        ensures
            *r == self.0,
    {
        &self.0
    }
}

impl<'a> From<&'a USDCDeployment> for TokenDeployment {
    fn from(deployment: &'a USDCDeployment) -> (r: TokenDeployment) {
        deployment.0.clone()
    }
}

impl<'a> vstd::std_specs::convert::FromSpecImpl<&'a USDCDeployment> for TokenDeployment {
    open spec fn obeys_from_spec() -> bool {
        true
    }

    open spec fn from_spec(v: &'a USDCDeployment) -> TokenDeployment {
        v.0
    }
}

impl From<USDCDeployment> for Vec<TokenAsset> {
    fn from(deployment: USDCDeployment) -> (r: Vec<TokenAsset>)
        ensures
            r@ == seq![deployment.0.asset],
    {
        deployment.assets()
    }
}

/// A vector is pinned down here through its view only, so the result of the
/// conversion is stated on `from` itself, as a sequence, rather than as
/// equality with one spec value.
impl vstd::std_specs::convert::FromSpecImpl<USDCDeployment> for Vec<TokenAsset> {
    open spec fn obeys_from_spec() -> bool {
        false
    }

    open spec fn from_spec(v: USDCDeployment) -> Vec<TokenAsset> {
        choose|r: Vec<TokenAsset>| r@ == seq![v.0.asset]
    }
}

impl<'a> From<&'a USDCDeployment> for Vec<TokenAsset> {
    fn from(deployment: &'a USDCDeployment) -> (r: Vec<TokenAsset>)
        ensures
            r@ == seq![deployment.0.asset],
    {
        deployment.assets()
    }
}

/// As for the owned deployment, the result is stated on `from` itself.
impl<'a> vstd::std_specs::convert::FromSpecImpl<&'a USDCDeployment> for Vec<TokenAsset> {
    open spec fn obeys_from_spec() -> bool {
        false
    }

    open spec fn from_spec(v: &'a USDCDeployment) -> Vec<TokenAsset> {
        choose|r: Vec<TokenAsset>| r@ == seq![v.0.asset]
    }
}

/// For every network, a USDC deployment on it is on a Solana address exactly
/// when the network belongs to the Solana family, and on an EVM address
/// otherwise.
pub proof fn lemma_usdc_address_matches_family(d: TokenDeployment, n: Network)
    ensures
        is_usdc_deployment(d, n) ==> (d.asset.address is Solana <==> family(n)
            == NetworkFamily::Solana),
        is_usdc_deployment(d, n) ==> (d.asset.address is Evm <==> family(n)
            == NetworkFamily::Evm),
{
}

/// Only the Solana networks need a mint text to decode; on every other
/// network the USDC deployment is always available.
pub proof fn lemma_evm_deployment_available(n: Network)
    requires
        family(n) == NetworkFamily::Evm,
    ensures
        usdc_mint_decodes(n),
        usdc_evm_address(n) is Some,
{
}

} // verus!
