use x402_network::network::{Network, NetworkFamily};
use x402_network::types::{MixedAddress, TokenDeployment};
use x402_network::usdc::{USDCDeployment, USDC_DECIMALS};

fn hex20(s: &str) -> [u8; 20] {
    let s = s.trim_start_matches("0x");
    let mut out = [0u8; 20];
    for i in 0..20 {
        out[i] = u8::from_str_radix(&s[2 * i..2 * i + 2], 16).unwrap();
    }
    out
}

fn evm(network: Network) -> [u8; 20] {
    match USDCDeployment::by_network(network).0.asset.address {
        MixedAddress::Evm(a) => a.0,
        MixedAddress::Solana(_) => panic!("expected an EVM address"),
    }
}

fn solana(network: Network) -> [u8; 32] {
    match USDCDeployment::by_network(network).0.asset.address {
        MixedAddress::Solana(k) => k.0,
        MixedAddress::Evm(_) => panic!("expected a Solana address"),
    }
}

fn eip712(network: Network) -> Option<(String, String)> {
    USDCDeployment::by_network(network)
        .0
        .eip712
        .map(|e| (e.name, e.version))
}

const ALL: [Network; 13] = [
    Network::BaseSepolia,
    Network::Base,
    Network::XdcMainnet,
    Network::AvalancheFuji,
    Network::Avalanche,
    Network::XrplEvm,
    Network::Solana,
    Network::SolanaDevnet,
    Network::PolygonAmoy,
    Network::Polygon,
    Network::Sei,
    Network::SeiTestnet,
    Network::BesuPrivate,
];

#[test]
fn evm_addresses() {
    assert_eq!(evm(Network::BaseSepolia), hex20("0x036CbD53842c5426634e7929541eC2318f3dCF7e"));
    assert_eq!(evm(Network::Base), hex20("0x833589fCD6eDb6E08f4c7C32D4f71b54bdA02913"));
    assert_eq!(evm(Network::XdcMainnet), hex20("0x2A8E898b6242355c290E1f4Fc966b8788729A4D4"));
    assert_eq!(evm(Network::AvalancheFuji), hex20("0x5425890298aed601595a70AB815c96711a31Bc65"));
    assert_eq!(evm(Network::Avalanche), hex20("0xB97EF9Ef8734C71904D8002F8b6Bc66Dd9c48a6E"));
    assert_eq!(evm(Network::XrplEvm), hex20("0xDaF4556169c4F3f2231d8ab7BC8772Ddb7D4c84C"));
    assert_eq!(evm(Network::PolygonAmoy), hex20("0x41E94Eb019C0762f9Bfcf9Fb1E58725BfB0e7582"));
    assert_eq!(evm(Network::Polygon), hex20("0x3c499c542cEF5E3811e1192ce70d8cC03d5c3359"));
    assert_eq!(evm(Network::Sei), hex20("0xe15fC38F6D8c56aF07bbCBe3BAf5708A2Bf42392"));
    assert_eq!(evm(Network::SeiTestnet), hex20("0x4fCF1784B31630811181f670Aea7A7bEF803eaED"));
    assert_eq!(evm(Network::BesuPrivate), [0u8; 20]);
}

#[test]
fn solana_mints_are_decoded_from_base58() {
    assert_eq!(
        solana(Network::Solana),
        [
            0xc6, 0xfa, 0x7a, 0xf3, 0xbe, 0xdb, 0xad, 0x3a, 0x3d, 0x65, 0xf3, 0x6a, 0xab, 0xc9,
            0x74, 0x31, 0xb1, 0xbb, 0xe4, 0xc2, 0xd2, 0xf6, 0xe0, 0xe4, 0x7c, 0xa6, 0x02, 0x03,
            0x45, 0x2f, 0x5d, 0x61,
        ]
    );
    assert_eq!(
        solana(Network::SolanaDevnet),
        [
            0x3b, 0x44, 0x2c, 0xb3, 0x91, 0x21, 0x57, 0xf1, 0x3a, 0x93, 0x3d, 0x01, 0x34, 0x28,
            0x2d, 0x03, 0x2b, 0x5f, 0xfe, 0xcd, 0x01, 0xa2, 0xdb, 0xf1, 0xb7, 0x79, 0x06, 0x08,
            0xdf, 0x00, 0x2e, 0xa7,
        ]
    );
}

#[test]
fn eip712_domains() {
    let d = |name: &str| Some((name.to_string(), "2".to_string()));
    assert_eq!(eip712(Network::BaseSepolia), d("USDC"));
    assert_eq!(eip712(Network::Base), d("USD Coin"));
    assert_eq!(eip712(Network::XdcMainnet), d("Bridged USDC(XDC)"));
    assert_eq!(eip712(Network::AvalancheFuji), d("USD Coin"));
    assert_eq!(eip712(Network::Avalanche), d("USD Coin"));
    assert_eq!(eip712(Network::XrplEvm), None);
    assert_eq!(eip712(Network::Solana), None);
    assert_eq!(eip712(Network::SolanaDevnet), None);
    assert_eq!(eip712(Network::PolygonAmoy), d("USDC"));
    assert_eq!(eip712(Network::Polygon), d("USDC"));
    assert_eq!(eip712(Network::Sei), d("USDC"));
    assert_eq!(eip712(Network::SeiTestnet), d("USDC"));
    assert_eq!(eip712(Network::BesuPrivate), None);
}

#[test]
fn every_deployment_is_on_its_network_with_six_decimals() {
    for n in ALL.iter() {
        let d = USDCDeployment::by_network(*n);
        assert_eq!(d.0.asset.network, *n);
        assert_eq!(d.0.decimals, 6);
        assert_eq!(USDC_DECIMALS, 6);
    }
}

#[test]
fn address_kind_follows_family() {
    for n in ALL.iter() {
        let d = USDCDeployment::by_network(*n);
        let is_solana = matches!(d.0.asset.address, MixedAddress::Solana(_));
        assert_eq!(is_solana, NetworkFamily::from(*n) == NetworkFamily::Solana);
    }
}

#[test]
fn try_by_network_succeeds_everywhere() {
    for n in ALL.iter() {
        let d = USDCDeployment::try_by_network(*n).expect("known deployment");
        assert_eq!(d.0, USDCDeployment::by_network(*n).0);
    }
}

#[test]
fn deref_and_conversions() {
    let d = USDCDeployment::by_network(Network::Polygon);
    assert_eq!(d.decimals, 6);
    assert_eq!(d.asset.network, Network::Polygon);
    let t: TokenDeployment = TokenDeployment::from(&d);
    assert_eq!(t, d.0);
    assert_eq!(d.assets(), vec![d.0.asset]);
    assert_eq!(d.clone().0, d.0);
}

#[test]
fn deployment_converts_into_one_asset() {
    let d = USDCDeployment::by_network(Network::Solana);
    let from_ref: Vec<x402_network::types::TokenAsset> = Vec::from(&d);
    assert_eq!(from_ref, vec![d.0.asset]);
    let asset = d.0.asset;
    let from_owned: Vec<x402_network::types::TokenAsset> = d.into();
    assert_eq!(from_owned, vec![asset]);
}
