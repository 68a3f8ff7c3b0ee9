use x402_network::network::{Network, NetworkFamily};
use x402_network::text::{join_strs, str_eq};

const ALL: [Network; 13] = [
    Network::BaseSepolia,
    Network::Base,
    Network::XdcMainnet,
    Network::AvalancheFuji,
    Network::Avalanche,
    Network::XrplEvm,
    Network::Solana,
    Network::SolanaDevnet,
    Network::PolygonAmoy,
    Network::Polygon,
    Network::Sei,
    Network::SeiTestnet,
    Network::BesuPrivate,
];

const LEGACY: [&str; 13] = [
    "base-sepolia",
    "base",
    "xdc",
    "avalanche-fuji",
    "avalanche",
    "xrpl-evm",
    "solana",
    "solana-devnet",
    "polygon-amoy",
    "polygon",
    "sei",
    "sei-testnet",
    "besu-private",
];

const CAIP2: [&str; 11] = [
    "eip155:84532",
    "eip155:8453",
    "eip155:50",
    "eip155:43113",
    "eip155:43114",
    "eip155:1440000",
    "eip155:80002",
    "eip155:137",
    "eip155:1329",
    "eip155:1328",
    "eip155:1337",
];

#[test]
fn variants_lists_every_network_once_in_order() {
    assert_eq!(Network::variants(), &ALL[..]);
    for (i, a) in ALL.iter().enumerate() {
        for (j, b) in ALL.iter().enumerate() {
            assert_eq!(i == j, a == b);
        }
    }
}

#[test]
fn legacy_names() {
    for (n, name) in ALL.iter().zip(LEGACY.iter()) {
        assert_eq!(n.as_legacy(), *name);
    }
}

#[test]
fn caip2_ids() {
    assert_eq!(Network::BaseSepolia.as_caip2(), Some("eip155:84532"));
    assert_eq!(Network::Base.as_caip2(), Some("eip155:8453"));
    assert_eq!(Network::XdcMainnet.as_caip2(), Some("eip155:50"));
    assert_eq!(Network::AvalancheFuji.as_caip2(), Some("eip155:43113"));
    assert_eq!(Network::Avalanche.as_caip2(), Some("eip155:43114"));
    assert_eq!(Network::XrplEvm.as_caip2(), Some("eip155:1440000"));
    assert_eq!(Network::Solana.as_caip2(), None);
    assert_eq!(Network::SolanaDevnet.as_caip2(), None);
    assert_eq!(Network::PolygonAmoy.as_caip2(), Some("eip155:80002"));
    assert_eq!(Network::Polygon.as_caip2(), Some("eip155:137"));
    assert_eq!(Network::Sei.as_caip2(), Some("eip155:1329"));
    assert_eq!(Network::SeiTestnet.as_caip2(), Some("eip155:1328"));
    assert_eq!(Network::BesuPrivate.as_caip2(), Some("eip155:1337"));
}

#[test]
fn legacy_variants_lists_all_legacy_names() {
    assert_eq!(Network::legacy_variants(), LEGACY.to_vec());
}

#[test]
fn caip2_variants_skips_solana() {
    assert_eq!(Network::caip2_variants(), CAIP2.to_vec());
}

#[test]
fn display_name_prefers_caip2() {
    assert_eq!(Network::Base.as_str(), "eip155:8453");
    assert_eq!(Network::Solana.as_str(), "solana");
    assert_eq!(Network::SolanaDevnet.as_str(), "solana-devnet");
    assert_eq!(Network::BesuPrivate.to_string(), "eip155:1337");
    assert_eq!(Network::Polygon.to_string(), String::from("eip155:137"));
}

#[test]
fn display_name_parses_back() {
    for n in ALL.iter() {
        assert_eq!(Network::from_str_any(n.as_str()), Some(*n));
        assert_eq!(Network::from_str_any(&n.to_string()), Some(*n));
    }
}

#[test]
fn legacy_name_parses_back() {
    for n in ALL.iter() {
        assert_eq!(Network::from_str_any(n.as_legacy()), Some(*n));
    }
}

#[test]
fn caip2_id_parses_back() {
    for n in ALL.iter() {
        if let Some(id) = n.as_caip2() {
            assert_eq!(Network::from_str_any(id), Some(*n));
        }
    }
}

#[test]
fn solana_caip2_aliases_are_accepted() {
    assert_eq!(Network::from_str_any("solana:mainnet"), Some(Network::Solana));
    assert_eq!(Network::from_str_any("solana:devnet"), Some(Network::SolanaDevnet));
}

#[test]
fn unknown_names_are_rejected() {
    assert_eq!(Network::from_str_any(""), None);
    assert_eq!(Network::from_str_any("Base"), None);
    assert_eq!(Network::from_str_any("base "), None);
    assert_eq!(Network::from_str_any("eip155:1"), None);
    assert_eq!(Network::from_str_any("eip155:845320"), None);
    assert_eq!(Network::from_str_any("solana:testnet"), None);
    assert_eq!(Network::from_str_any("ethereum"), None);
}

#[test]
fn parse_str_accepts_names() {
    assert_eq!(Network::parse_str("eip155:43114"), Ok(Network::Avalanche));
    assert_eq!(Network::parse_str("xrpl-evm"), Ok(Network::XrplEvm));
}

#[test]
fn parse_str_reports_unknown_network() {
    let expected = format!(
        "Unknown network '{}'. Supported legacy: {}; supported CAIP-2: {}",
        "mainnet",
        LEGACY.join(", "),
        CAIP2.join(", ")
    );
    assert_eq!(Network::parse_str("mainnet"), Err(expected));
}

#[test]
fn parse_str_message_exact_text() {
    let msg = Network::parse_str("x").unwrap_err();
    assert_eq!(
        msg,
        "Unknown network 'x'. Supported legacy: base-sepolia, base, xdc, avalanche-fuji, \
         avalanche, xrpl-evm, solana, solana-devnet, polygon-amoy, polygon, sei, sei-testnet, \
         besu-private; supported CAIP-2: eip155:84532, eip155:8453, eip155:50, eip155:43113, \
         eip155:43114, eip155:1440000, eip155:80002, eip155:137, eip155:1329, eip155:1328, \
         eip155:1337"
    );
}

#[test]
fn network_family() {
    for n in ALL.iter() {
        let expected = match n {
            Network::Solana | Network::SolanaDevnet => NetworkFamily::Solana,
            _ => NetworkFamily::Evm,
        };
        assert_eq!(NetworkFamily::from(*n), expected);
        assert_eq!(n.as_caip2().is_none(), expected == NetworkFamily::Solana);
    }
}

#[test]
fn str_eq_compares_characters() {
    assert!(str_eq("", ""));
    assert!(str_eq("héllo", "héllo"));
    assert!(!str_eq("héllo", "hello"));
    assert!(!str_eq("abc", "abcd"));
    assert!(!str_eq("abd", "abc"));
}

#[test]
fn join_strs_puts_separator_between() {
    assert_eq!(join_strs(&vec![], ", "), "");
    assert_eq!(join_strs(&vec!["a"], ", "), "a");
    assert_eq!(join_strs(&vec!["a", "b", "c"], ", "), "a, b, c");
    assert_eq!(join_strs(&vec!["", ""], "-"), "-");
}
