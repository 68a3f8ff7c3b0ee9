//! Networks, their legacy names and CAIP-2 identifiers.

use vstd::prelude::*;

use vstd::string::*;

use crate::text::{join_strs, seq_join, str_eq};

verus! {

/// Supported Ethereum-compatible and Solana networks.
#[derive(Debug, Hash, Clone, Copy, PartialEq, Eq, Structural)]
pub enum Network {
    /// Base Sepolia testnet (chain ID 84532).
    BaseSepolia,
    /// Base mainnet (chain ID 8453).
    Base,
    /// XDC mainnet (chain ID 50).
    XdcMainnet,
    /// Avalanche Fuji testnet (chain ID 43113).
    AvalancheFuji,
    /// Avalanche mainnet (chain ID 43114).
    Avalanche,
    /// XRPL EVM mainnet (chain ID 1440000).
    XrplEvm,
    /// Solana mainnet.
    Solana,
    /// Solana devnet.
    SolanaDevnet,
    /// Polygon Amoy testnet (chain ID 80002).
    PolygonAmoy,
    /// Polygon mainnet (chain ID 137).
    Polygon,
    /// Sei mainnet (chain ID 1329).
    Sei,
    /// Sei testnet (chain ID 1328).
    SeiTestnet,
    /// Besu private network (chain ID 1337).
    BesuPrivate,
}

/// The legacy (kebab-case) name of a network.
pub open spec fn legacy_name(n: Network) -> Seq<char> {
    match n {
        Network::BaseSepolia => "base-sepolia"@,
        Network::Base => "base"@,
        Network::XdcMainnet => "xdc"@,
        Network::AvalancheFuji => "avalanche-fuji"@,
        Network::Avalanche => "avalanche"@,
        Network::XrplEvm => "xrpl-evm"@,
        Network::Solana => "solana"@,
        Network::SolanaDevnet => "solana-devnet"@,
        Network::PolygonAmoy => "polygon-amoy"@,
        Network::Polygon => "polygon"@,
        Network::Sei => "sei"@,
        Network::SeiTestnet => "sei-testnet"@,
        Network::BesuPrivate => "besu-private"@,
    }
}

/// The CAIP-2 identifier of a network, where it has one.
pub open spec fn caip2_id(n: Network) -> Option<Seq<char>> {
    match n {
        Network::BaseSepolia => Some("eip155:84532"@),
        Network::Base => Some("eip155:8453"@),
        Network::XdcMainnet => Some("eip155:50"@),
        Network::AvalancheFuji => Some("eip155:43113"@),
        Network::Avalanche => Some("eip155:43114"@),
        Network::XrplEvm => Some("eip155:1440000"@),
        Network::PolygonAmoy => Some("eip155:80002"@),
        Network::Polygon => Some("eip155:137"@),
        Network::Sei => Some("eip155:1329"@),
        Network::SeiTestnet => Some("eip155:1328"@),
        Network::Solana => None,
        Network::SolanaDevnet => None,
        Network::BesuPrivate => Some("eip155:1337"@),
    }
}

/// The CAIP-2 style identifier under which a network is recognised when
/// parsing: its CAIP-2 identifier, or for the Solana networks, which have
/// none, `solana:mainnet` and `solana:devnet`.
pub open spec fn caip2_alias(n: Network) -> Seq<char> {
    match n {
        Network::Solana => "solana:mainnet"@,
        Network::SolanaDevnet => "solana:devnet"@,
        _ => caip2_id(n).unwrap(),
    }
}

/// The network that a string names: the one whose CAIP-2 style identifier it
/// is, otherwise the one whose legacy name it is, otherwise none.
pub open spec fn parse_any(s: Seq<char>) -> Option<Network> {
    if exists|n: Network| caip2_alias(n) == s {
        Some(choose|n: Network| caip2_alias(n) == s)
    } else if exists|n: Network| legacy_name(n) == s {
        Some(choose|n: Network| legacy_name(n) == s)
    } else {
        None
    }
}

/// The name under which a network is displayed and serialised: its CAIP-2
/// identifier where it has one, otherwise its legacy name.
pub open spec fn display_name(n: Network) -> Seq<char> {
    match caip2_id(n) {
        Some(id) => id,
        None => legacy_name(n),
    }
}

/// The message that reports a string that names no network, listing the
/// accepted names.
pub open spec fn unknown_network_message(s: Seq<char>) -> Seq<char> {
    "Unknown network '"@ + s + "'. Supported legacy: "@
        + seq_join(all_networks().map_values(|n: Network| legacy_name(n)), ", "@)
        + "; supported CAIP-2: "@
        + seq_join(all_networks().filter_map(|n: Network| caip2_id(n)), ", "@)
}

/// The kind of chain a network belongs to.
#[derive(Debug, Clone, Copy, PartialEq, Eq, Structural)]
pub enum NetworkFamily {
    /// Ethereum-compatible chains.
    Evm,
    /// Solana clusters.
    Solana,
}

/// The family of a network: Solana for the two Solana networks, EVM otherwise.
pub open spec fn family(n: Network) -> NetworkFamily {
    match n {
        Network::Solana | Network::SolanaDevnet => NetworkFamily::Solana,
        _ => NetworkFamily::Evm,
    }
}

impl From<Network> for NetworkFamily {
    fn from(value: Network) -> (r: NetworkFamily) {
        match value {
            Network::BaseSepolia => NetworkFamily::Evm,
            Network::Base => NetworkFamily::Evm,
            Network::XdcMainnet => NetworkFamily::Evm,
            Network::AvalancheFuji => NetworkFamily::Evm,
            Network::Avalanche => NetworkFamily::Evm,
            Network::XrplEvm => NetworkFamily::Evm,
            Network::Solana => NetworkFamily::Solana,
            Network::SolanaDevnet => NetworkFamily::Solana,
            Network::PolygonAmoy => NetworkFamily::Evm,
            Network::Polygon => NetworkFamily::Evm,
            Network::Sei => NetworkFamily::Evm,
            Network::SeiTestnet => NetworkFamily::Evm,
            Network::BesuPrivate => NetworkFamily::Evm,
        }
    }
}

impl vstd::std_specs::convert::FromSpecImpl<Network> for NetworkFamily {
    open spec fn obeys_from_spec() -> bool {
        true
    }

    open spec fn from_spec(v: Network) -> NetworkFamily {
        family(v)
    }
}

/// Every known network, in declaration order.
pub open spec fn all_networks() -> Seq<Network> {
    seq![
        Network::BaseSepolia,
        Network::Base,
        Network::XdcMainnet,
        Network::AvalancheFuji,
        Network::Avalanche,
        Network::XrplEvm,
        Network::Solana,
        Network::SolanaDevnet,
        Network::PolygonAmoy,
        Network::Polygon,
        Network::Sei,
        Network::SeiTestnet,
        Network::BesuPrivate,
    ]
}

/// A few characters of a name, enough to tell every known name apart.
spec fn name_key(s: Seq<char>) -> (nat, char, char, char, char, char) {
    (
        s.len(),
        s[0],
        s[s.len() - 1],
        s[s.len() - 2],
        s[s.len() - 3],
        if s.len() > 6 { s[6] } else { ' ' },
    )
}

spec fn caip2_alias_key(n: Network) -> (nat, char, char, char, char, char) {
    match n {
        Network::BaseSepolia => (12nat, 'e', '2', '3', '5', ':'),
        Network::Base => (11nat, 'e', '3', '5', '4', ':'),
        Network::XdcMainnet => (9nat, 'e', '0', '5', ':', ':'),
        Network::AvalancheFuji => (12nat, 'e', '3', '1', '1', ':'),
        Network::Avalanche => (12nat, 'e', '4', '1', '1', ':'),
        Network::XrplEvm => (14nat, 'e', '0', '0', '0', ':'),
        Network::Solana => (14nat, 's', 't', 'e', 'n', ':'),
        Network::SolanaDevnet => (13nat, 's', 't', 'e', 'n', ':'),
        Network::PolygonAmoy => (12nat, 'e', '2', '0', '0', ':'),
        Network::Polygon => (10nat, 'e', '7', '3', '1', ':'),
        Network::Sei => (11nat, 'e', '9', '2', '3', ':'),
        Network::SeiTestnet => (11nat, 'e', '8', '2', '3', ':'),
        Network::BesuPrivate => (11nat, 'e', '7', '3', '3', ':'),
    }
}

spec fn legacy_key(n: Network) -> (nat, char, char, char, char, char) {
    match n {
        Network::BaseSepolia => (12nat, 'b', 'a', 'i', 'l', 'e'),
        Network::Base => (4nat, 'b', 'e', 's', 'a', ' '),
        Network::XdcMainnet => (3nat, 'x', 'c', 'd', 'x', ' '),
        Network::AvalancheFuji => (14nat, 'a', 'i', 'j', 'u', 'c'),
        Network::Avalanche => (9nat, 'a', 'e', 'h', 'c', 'c'),
        Network::XrplEvm => (8nat, 'x', 'm', 'v', 'e', 'v'),
        Network::Solana => (6nat, 's', 'a', 'n', 'a', ' '),
        Network::SolanaDevnet => (13nat, 's', 't', 'e', 'n', '-'),
        Network::PolygonAmoy => (12nat, 'p', 'y', 'o', 'm', 'n'),
        Network::Polygon => (7nat, 'p', 'n', 'o', 'g', 'n'),
        Network::Sei => (3nat, 's', 'i', 'e', 's', ' '),
        Network::SeiTestnet => (11nat, 's', 't', 'e', 'n', 's'),
        Network::BesuPrivate => (12nat, 'b', 'e', 't', 'a', 'r'),
    }
}

proof fn lemma_caip2_alias_keys(n: Network)
    ensures
        name_key(caip2_alias(n)) == caip2_alias_key(n),
{
    reveal_strlit("eip155:84532");
    reveal_strlit("eip155:8453");
    reveal_strlit("eip155:50");
    reveal_strlit("eip155:43113");
    reveal_strlit("eip155:43114");
    reveal_strlit("eip155:1440000");
    reveal_strlit("solana:mainnet");
    reveal_strlit("solana:devnet");
    reveal_strlit("eip155:80002");
    reveal_strlit("eip155:137");
    reveal_strlit("eip155:1329");
    reveal_strlit("eip155:1328");
    reveal_strlit("eip155:1337");
}

proof fn lemma_legacy_keys(n: Network)
    ensures
        name_key(legacy_name(n)) == legacy_key(n),
{
    reveal_strlit("base-sepolia");
    reveal_strlit("base");
    reveal_strlit("xdc");
    reveal_strlit("avalanche-fuji");
    reveal_strlit("avalanche");
    reveal_strlit("xrpl-evm");
    reveal_strlit("solana");
    reveal_strlit("solana-devnet");
    reveal_strlit("polygon-amoy");
    reveal_strlit("polygon");
    reveal_strlit("sei");
    reveal_strlit("sei-testnet");
    reveal_strlit("besu-private");
}

/// No two networks share a legacy name or a CAIP-2 style identifier, and no
/// legacy name is a CAIP-2 style identifier.
pub proof fn lemma_names_distinct(a: Network, b: Network)
    ensures
        legacy_name(a) == legacy_name(b) ==> a == b,
        caip2_alias(a) == caip2_alias(b) ==> a == b,
        legacy_name(a) != caip2_alias(b),
{
    lemma_caip2_alias_keys(a);
    lemma_caip2_alias_keys(b);
    lemma_legacy_keys(a);
    lemma_legacy_keys(b);
}

impl Network {
    /// The legacy name of this network, such as `"base-sepolia"`.
    pub fn as_legacy(&self) -> (r: &'static str)
        ensures
            r@ == legacy_name(*self),
    {
        match self {
            Network::BaseSepolia => "base-sepolia",
            Network::Base => "base",
            Network::XdcMainnet => "xdc",
            Network::AvalancheFuji => "avalanche-fuji",
            Network::Avalanche => "avalanche",
            Network::XrplEvm => "xrpl-evm",
            Network::Solana => "solana",
            Network::SolanaDevnet => "solana-devnet",
            Network::PolygonAmoy => "polygon-amoy",
            Network::Polygon => "polygon",
            Network::Sei => "sei",
            Network::SeiTestnet => "sei-testnet",
            Network::BesuPrivate => "besu-private",
        }
    }

    /// The name under which this network is displayed and serialised: its
    /// CAIP-2 identifier where it has one, otherwise its legacy name.
    pub fn as_str(&self) -> (r: &'static str)
        ensures
            r@ == display_name(*self),
            match caip2_id(*self) {
                Some(id) => r@ == id,
                None => r@ == legacy_name(*self),
            },
    {
        self.as_caip2().unwrap_or(self.as_legacy())
    }

    /// The displayed name of this network as an owned string.
    pub fn to_string(&self) -> (r: String)
        ensures
            r@ == display_name(*self),
            match caip2_id(*self) {
                Some(id) => r@ == id,
                None => r@ == legacy_name(*self),
            },
    {
        String::from_str(self.as_str())
    }

    /// Every known network, each once, in declaration order.
    pub fn variants() -> (r: &'static [Network])
        ensures
            r@ == all_networks(),
    {
        &[
            Network::BaseSepolia,
            Network::Base,
            Network::XdcMainnet,
            Network::AvalancheFuji,
            Network::Avalanche,
            Network::XrplEvm,
            Network::Solana,
            Network::SolanaDevnet,
            Network::PolygonAmoy,
            Network::Polygon,
            Network::Sei,
            Network::SeiTestnet,
            Network::BesuPrivate,
        ]
    }

    /// The CAIP-2 identifier of this network, such as `"eip155:84532"`;
    /// `None` for the Solana networks.
    pub fn as_caip2(&self) -> (r: Option<&'static str>)
        ensures
            match r {
                Some(id) => caip2_id(*self) == Some(id@),
                None => caip2_id(*self) is None,
            },
    {
        match self {
            Network::BaseSepolia => Some("eip155:84532"),
            Network::Base => Some("eip155:8453"),
            Network::XdcMainnet => Some("eip155:50"),
            Network::AvalancheFuji => Some("eip155:43113"),
            Network::Avalanche => Some("eip155:43114"),
            Network::XrplEvm => Some("eip155:1440000"),
            Network::PolygonAmoy => Some("eip155:80002"),
            Network::Polygon => Some("eip155:137"),
            Network::Sei => Some("eip155:1329"),
            Network::SeiTestnet => Some("eip155:1328"),
            Network::Solana | Network::SolanaDevnet => None,
            Network::BesuPrivate => Some("eip155:1337"),
        }
    }

    /// The legacy names of all networks, in the order of [`Network::variants`].
    pub fn legacy_variants() -> (r: Vec<&'static str>)
        ensures
            r@.map_values(|x: &'static str| x@) == all_networks().map_values(|n: Network| legacy_name(n)),
    {
        let all = Network::variants();
        let mut r: Vec<&'static str> = Vec::new();
        let mut i: usize = 0;
        while i < all.len()
            invariant
                all@ == all_networks(),
                i <= all@.len(),
                r@.len() == i,
                forall|j: int| 0 <= j < i ==> #[trigger] r@[j]@ == legacy_name(all@[j]),
            decreases all@.len() - i,
        {
            r.push(all[i].as_legacy());
            i = i + 1;
        }
        assert(r@.map_values(|x: &'static str| x@) =~= all_networks().map_values(|n: Network| legacy_name(n)));
        r
    }

    /// The CAIP-2 identifiers of the networks that have one, in the order of
    /// [`Network::variants`].
    pub fn caip2_variants() -> (r: Vec<&'static str>)
        ensures
            r@.map_values(|x: &'static str| x@) == all_networks().filter_map(|n: Network| caip2_id(n)),
    {
        let all = Network::variants();
        let mut r: Vec<&'static str> = Vec::new();
        let mut i: usize = 0;
        while i < all.len()
            invariant
                all@ == all_networks(),
                i <= all@.len(),
                r@.map_values(|x: &'static str| x@) == all@.take(i as int).filter_map(|n: Network| caip2_id(n)),
            decreases all@.len() - i,
        {
            let ghost prev = r@;
            assert(all@.take(i + 1).drop_last() =~= all@.take(i as int));
            match all[i].as_caip2() {
                Some(id) => {
                    r.push(id);
                    assert(r@.map_values(|x: &'static str| x@) =~= prev.map_values(|x: &'static str| x@) + seq![id@]);
                },
                None => {},
            }
            i = i + 1;
        }
        assert(all@.take(all@.len() as int) =~= all@);
        r
    }

    /// Reads a network from the text it is serialised as: any name that
    /// [`Network::from_str_any`] accepts, or else an error message that lists
    /// the supported names.
    pub fn parse_str(s: &str) -> (r: Result<Network, String>)
        ensures
            match r {
                Ok(n) => parse_any(s@) == Some(n),
                Err(msg) => parse_any(s@) is None && msg@ == unknown_network_message(s@),
            },
    {
        match Network::from_str_any(s) {
            Some(n) => Ok(n),
            None => {
                let mut msg = String::from_str("Unknown network '");
                msg.append(s);
                msg.append("'. Supported legacy: ");
                let legacy = Network::legacy_variants();
                let legacy_joined = join_strs(&legacy, ", ");
                msg.append(legacy_joined.as_str());
                msg.append("; supported CAIP-2: ");
                let caip2 = Network::caip2_variants();
                let caip2_joined = join_strs(&caip2, ", ");
                msg.append(caip2_joined.as_str());
                Err(msg)
            },
        }
    }

    /// Parses a network from its CAIP-2 style identifier or, failing that,
    /// from its legacy name.
    pub fn from_str_any(s: &str) -> (r: Option<Network>)
        ensures
            r == parse_any(s@),
    {
        let matched = if str_eq(s, "eip155:84532") {
            Some(Network::BaseSepolia)
        } else if str_eq(s, "eip155:8453") {
            Some(Network::Base)
        } else if str_eq(s, "eip155:50") {
            Some(Network::XdcMainnet)
        } else if str_eq(s, "eip155:43113") {
            Some(Network::AvalancheFuji)
        } else if str_eq(s, "eip155:43114") {
            Some(Network::Avalanche)
        } else if str_eq(s, "eip155:1440000") {
            Some(Network::XrplEvm)
        } else if str_eq(s, "eip155:80002") {
            Some(Network::PolygonAmoy)
        } else if str_eq(s, "eip155:137") {
            Some(Network::Polygon)
        } else if str_eq(s, "eip155:1329") {
            Some(Network::Sei)
        } else if str_eq(s, "eip155:1328") {
            Some(Network::SeiTestnet)
        } else if str_eq(s, "eip155:1337") {
            Some(Network::BesuPrivate)
        } else if str_eq(s, "solana:mainnet") {
            Some(Network::Solana)
        } else if str_eq(s, "solana:devnet") {
            Some(Network::SolanaDevnet)
        } else {
            None
        };
        if let Some(n) = matched {
            proof {
                assert(caip2_alias(n) == s@);
                lemma_parse_caip2_alias(n);
            }
            return matched;
        }
        assert(forall|n: Network| caip2_alias(n) != s@);
        let legacy = if str_eq(s, "base-sepolia") {
            Some(Network::BaseSepolia)
        } else if str_eq(s, "base") {
            Some(Network::Base)
        } else if str_eq(s, "xdc") {
            Some(Network::XdcMainnet)
        } else if str_eq(s, "avalanche-fuji") {
            Some(Network::AvalancheFuji)
        } else if str_eq(s, "avalanche") {
            Some(Network::Avalanche)
        } else if str_eq(s, "xrpl-evm") {
            Some(Network::XrplEvm)
        } else if str_eq(s, "solana") {
            Some(Network::Solana)
        } else if str_eq(s, "solana-devnet") {
            Some(Network::SolanaDevnet)
        } else if str_eq(s, "polygon-amoy") {
            Some(Network::PolygonAmoy)
        } else if str_eq(s, "polygon") {
            Some(Network::Polygon)
        } else if str_eq(s, "sei") {
            Some(Network::Sei)
        } else if str_eq(s, "sei-testnet") {
            Some(Network::SeiTestnet)
        } else if str_eq(s, "besu-private") {
            Some(Network::BesuPrivate)
        } else {
            None
        };
        if let Some(n) = legacy {
            proof {
                assert(legacy_name(n) == s@);
                lemma_parse_legacy_name(n);
            }
        } else {
            assert(forall|n: Network| legacy_name(n) != s@);
        }
        legacy
    }
}

/// Every network is parsed back from its CAIP-2 style identifier.
pub proof fn lemma_parse_caip2_alias(n: Network)
    ensures
        parse_any(caip2_alias(n)) == Some(n),
{
    let s = caip2_alias(n);
    assert(exists|m: Network| caip2_alias(m) == s);
    let m = choose|m: Network| caip2_alias(m) == s;
    lemma_names_distinct(m, n);
}

/// Every network is parsed back from its legacy name.
pub proof fn lemma_parse_legacy_name(n: Network)
    ensures
        parse_any(legacy_name(n)) == Some(n),
{
    let s = legacy_name(n);
    assert forall|m: Network| caip2_alias(m) != s by {
        lemma_names_distinct(n, m);
    }
    assert(exists|m: Network| legacy_name(m) == s);
    let m = choose|m: Network| legacy_name(m) == s;
    lemma_names_distinct(m, n);
}

/// `Network::variants` lists every network, and none twice.
pub proof fn lemma_variants_complete(n: Network)
    ensures
        all_networks().contains(n),
        all_networks().no_duplicates(),
{
    let all = all_networks();
    let i: int = match n {
        Network::BaseSepolia => 0,
        Network::Base => 1,
        Network::XdcMainnet => 2,
        Network::AvalancheFuji => 3,
        Network::Avalanche => 4,
        Network::XrplEvm => 5,
        Network::Solana => 6,
        Network::SolanaDevnet => 7,
        Network::PolygonAmoy => 8,
        Network::Polygon => 9,
        Network::Sei => 10,
        Network::SeiTestnet => 11,
        Network::BesuPrivate => 12,
    };
    assert(all[i] == n);
}

/// What a network is displayed and serialised as parses back to that network.
pub proof fn lemma_display_name_parses_back(n: Network)
    ensures
        parse_any(display_name(n)) == Some(n),
{
    match n {
        Network::Solana | Network::SolanaDevnet => lemma_parse_legacy_name(n),
        _ => lemma_parse_caip2_alias(n),
    }
}

/// No two networks are displayed under the same name.
pub proof fn lemma_display_name_injective(a: Network, b: Network)
    ensures
        display_name(a) == display_name(b) ==> a == b,
{
    lemma_display_name_parses_back(a);
    lemma_display_name_parses_back(b);
}

/// A string is parsed as a network only if it is that network's CAIP-2 style
/// identifier or its legacy name.
pub proof fn lemma_parse_any_sound(s: Seq<char>, n: Network)
    requires
        parse_any(s) == Some(n),
    ensures
        s == caip2_alias(n) || s == legacy_name(n),
{
}

/// Exactly the Solana networks have no CAIP-2 identifier.
pub proof fn lemma_caip2_absent_iff_solana(n: Network)
    ensures
        caip2_id(n) is None <==> family(n) == NetworkFamily::Solana,
{
}

/// A network is displayed and serialised under its CAIP-2 identifier whenever
/// it has one, and under its legacy name only when it has none.
pub proof fn lemma_display_name_prefers_caip2(n: Network)
    ensures
        forall|id: Seq<char>| caip2_id(n) == Some(id) ==> display_name(n) == id,
        display_name(n) == legacy_name(n) <==> caip2_id(n) is None,
{
    lemma_names_distinct(n, n);
}

} // verus!
