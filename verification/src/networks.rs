//! Known network deployments of the two registries.
//!
//! The registry contracts are deployed deterministically, so every
//! mainnet shares one address pair and every testnet shares another.
//! Addresses are modelled as their hexadecimal string form.

use vstd::prelude::*;

use vstd::string::StringExecFns;

use crate::cursor::dec_digits;

verus! {

/// Contract addresses for one network deployment, in hexadecimal
/// string form.
pub struct NetworkAddresses {
    /// The Identity Registry contract address.
    pub identity: String,
    /// The Reputation Registry contract address.
    pub reputation: String,
}

/// Pre-defined network deployments.
#[derive(Debug, Clone, Copy, PartialEq, Eq, Hash, Structural)]
pub enum Network {
    /// Ethereum Mainnet (chain ID 1).
    EthereumMainnet,
    /// Ethereum Sepolia testnet (chain ID 11155111).
    EthereumSepolia,
    /// Base Mainnet (chain ID 8453).
    BaseMainnet,
    /// Base Sepolia testnet (chain ID 84532).
    BaseSepolia,
    /// Polygon Mainnet (chain ID 137).
    PolygonMainnet,
    /// Polygon Amoy testnet (chain ID 80002).
    PolygonAmoy,
    /// Arbitrum One Mainnet (chain ID 42161).
    ArbitrumMainnet,
    /// Arbitrum Sepolia testnet (chain ID 421614).
    ArbitrumSepolia,
    /// Celo Mainnet (chain ID 42220).
    CeloMainnet,
    /// Celo Alfajores testnet (chain ID 44787).
    CeloAlfajores,
    /// Gnosis Mainnet (chain ID 100).
    GnosisMainnet,
    /// Scroll Mainnet (chain ID 534352).
    ScrollMainnet,
    /// Scroll Sepolia testnet (chain ID 534351).
    ScrollSepolia,
    /// Taiko Mainnet (chain ID 167000).
    TaikoMainnet,
    /// Monad Mainnet (chain ID 143).
    MonadMainnet,
    /// Monad Testnet (chain ID 10143).
    MonadTestnet,
    /// BNB Smart Chain Mainnet (chain ID 56).
    BscMainnet,
    /// BNB Smart Chain Testnet (chain ID 97).
    BscTestnet,
}

impl Network {
    /// The EIP-155 chain ID of each network.
    pub open spec fn chain_id_spec(self) -> u64 {
        match self {
            Network::EthereumMainnet => 1,
            Network::EthereumSepolia => 11_155_111,
            Network::BaseMainnet => 8453,
            Network::BaseSepolia => 84532,
            Network::PolygonMainnet => 137,
            Network::PolygonAmoy => 80002,
            Network::ArbitrumMainnet => 42161,
            Network::ArbitrumSepolia => 421_614,
            Network::CeloMainnet => 42220,
            Network::CeloAlfajores => 44787,
            Network::GnosisMainnet => 100,
            Network::ScrollMainnet => 534_352,
            Network::ScrollSepolia => 534_351,
            Network::TaikoMainnet => 167_000,
            Network::MonadMainnet => 143,
            Network::MonadTestnet => 10143,
            Network::BscMainnet => 56,
            Network::BscTestnet => 97,
        }
    }

    /// Whether this network is a mainnet deployment (and so uses the
    /// mainnet address pair).
    pub open spec fn is_mainnet(self) -> bool {
        match self {
            Network::EthereumMainnet | Network::BaseMainnet | Network::PolygonMainnet
            | Network::ArbitrumMainnet | Network::CeloMainnet | Network::GnosisMainnet
            | Network::ScrollMainnet | Network::TaikoMainnet | Network::MonadMainnet
            | Network::BscMainnet => true,
            _ => false,
        }
    }

    /// Returns the EIP-155 chain ID for this network.
    pub fn chain_id(self) -> (r: u64)
        ensures
            r == self.chain_id_spec(),
    {
        match self {
            Network::EthereumMainnet => 1,
            Network::EthereumSepolia => 11_155_111,
            Network::BaseMainnet => 8453,
            Network::BaseSepolia => 84532,
            Network::PolygonMainnet => 137,
            Network::PolygonAmoy => 80002,
            Network::ArbitrumMainnet => 42161,
            Network::ArbitrumSepolia => 421_614,
            Network::CeloMainnet => 42220,
            Network::CeloAlfajores => 44787,
            Network::GnosisMainnet => 100,
            Network::ScrollMainnet => 534_352,
            Network::ScrollSepolia => 534_351,
            Network::TaikoMainnet => 167_000,
            Network::MonadMainnet => 143,
            Network::MonadTestnet => 10143,
            Network::BscMainnet => 56,
            Network::BscTestnet => 97,
        }
    }

    /// Returns the known contract addresses for this network: the
    /// shared mainnet pair or the shared testnet pair.
    pub fn addresses(self) -> (r: NetworkAddresses)
        ensures
            self.is_mainnet() ==> r.identity@ == mainnet_identity_chars()
                && r.reputation@ == mainnet_reputation_chars(),
            !self.is_mainnet() ==> r.identity@ == testnet_identity_chars()
                && r.reputation@ == testnet_reputation_chars(),
    {
        let mainnet = match self {
            Network::EthereumMainnet | Network::BaseMainnet | Network::PolygonMainnet
            | Network::ArbitrumMainnet | Network::CeloMainnet | Network::GnosisMainnet
            | Network::ScrollMainnet | Network::TaikoMainnet | Network::MonadMainnet
            | Network::BscMainnet => true,
            _ => false,
        };
        if mainnet {
            NetworkAddresses {
                identity: String::from_str("0x8004A169FB4a3325136EB29fA0ceB6D2e539a432"),
                reputation: String::from_str("0x8004BAa17C55a88189AE136b182e5fdA19dE9b63"),
            }
        } else {
            NetworkAddresses {
                identity: String::from_str("0x8004A818BFB912233c491871b3d84c89A494BD9e"),
                reputation: String::from_str("0x8004B663056A597Dffe9eCcC1965A193B7388713"),
            }
        }
    }

    /// All known network variants.
    pub fn all() -> (r: Vec<Network>)
        ensures
            r@ == network_order(),
    {
        let mut v: Vec<Network> = Vec::new();
        v.push(Network::EthereumMainnet);
        v.push(Network::EthereumSepolia);
        v.push(Network::BaseMainnet);
        v.push(Network::BaseSepolia);
        v.push(Network::PolygonMainnet);
        v.push(Network::PolygonAmoy);
        v.push(Network::ArbitrumMainnet);
        v.push(Network::ArbitrumSepolia);
        v.push(Network::CeloMainnet);
        v.push(Network::CeloAlfajores);
        v.push(Network::GnosisMainnet);
        v.push(Network::ScrollMainnet);
        v.push(Network::ScrollSepolia);
        v.push(Network::TaikoMainnet);
        v.push(Network::MonadMainnet);
        v.push(Network::MonadTestnet);
        v.push(Network::BscMainnet);
        v.push(Network::BscTestnet);
        proof {
            assert(v@ =~= network_order());
        }
        v
    }

    /// Look up a network by its EIP-155 chain ID; `None` when no
    /// known deployment has that ID.
    pub fn from_chain_id(chain_id: u64) -> (r: Option<Network>)
        ensures
            match r {
                Some(n) => n.chain_id_spec() == chain_id,
                None => forall|n: Network| #[trigger] n.chain_id_spec() != chain_id,
            },
    {
        if chain_id == 1 {
            Some(Network::EthereumMainnet)
        } else if chain_id == 11_155_111 {
            Some(Network::EthereumSepolia)
        } else if chain_id == 8453 {
            Some(Network::BaseMainnet)
        } else if chain_id == 84532 {
            Some(Network::BaseSepolia)
        } else if chain_id == 137 {
            Some(Network::PolygonMainnet)
        } else if chain_id == 80002 {
            Some(Network::PolygonAmoy)
        } else if chain_id == 42161 {
            Some(Network::ArbitrumMainnet)
        } else if chain_id == 421_614 {
            Some(Network::ArbitrumSepolia)
        } else if chain_id == 42220 {
            Some(Network::CeloMainnet)
        } else if chain_id == 44787 {
            Some(Network::CeloAlfajores)
        } else if chain_id == 100 {
            Some(Network::GnosisMainnet)
        } else if chain_id == 534_352 {
            Some(Network::ScrollMainnet)
        } else if chain_id == 534_351 {
            Some(Network::ScrollSepolia)
        } else if chain_id == 167_000 {
            Some(Network::TaikoMainnet)
        } else if chain_id == 143 {
            Some(Network::MonadMainnet)
        } else if chain_id == 10143 {
            Some(Network::MonadTestnet)
        } else if chain_id == 56 {
            Some(Network::BscMainnet)
        } else if chain_id == 97 {
            Some(Network::BscTestnet)
        } else {
            None
        }
    }

    /// Returns the `eip155:{chainId}:{identityRegistry}` namespace
    /// prefix for agent registry identifiers.
    pub fn agent_registry_prefix(self) -> (r: String)
        ensures
            r@ == registry_prefix_head_chars(self.chain_id_spec()) + (if self.is_mainnet() {
                mainnet_identity_chars()
            } else {
                testnet_identity_chars()
            }),
    {
        let mut b: Vec<u8> = Vec::new();
        b.push(101);
        b.push(105);
        b.push(112);
        b.push(49);
        b.push(53);
        b.push(53);
        b.push(58);
        let mut d = crate::cursor::u64_to_dec(self.chain_id());
        b.append(&mut d);
        b.push(58);
        proof {
            assert(b@ =~= registry_prefix_head_bytes(self.chain_id_spec()));
            crate::cursor::lemma_dec_digits_digits(self.chain_id_spec() as nat);
        }
        let mut s = ascii_bytes_to_string(b);
        proof {
            assert(s@ =~= registry_prefix_head_chars(self.chain_id_spec()));
        }
        let addrs = self.addresses();
        s.append(addrs.identity.as_str());
        s
    }
}

/// The characters of the shared mainnet Identity Registry address.
pub open spec fn mainnet_identity_chars() -> Seq<char> {
    "0x8004A169FB4a3325136EB29fA0ceB6D2e539a432"@
}

/// The characters of the shared mainnet Reputation Registry address.
pub open spec fn mainnet_reputation_chars() -> Seq<char> {
    "0x8004BAa17C55a88189AE136b182e5fdA19dE9b63"@
}

/// The characters of the shared testnet Identity Registry address.
pub open spec fn testnet_identity_chars() -> Seq<char> {
    "0x8004A818BFB912233c491871b3d84c89A494BD9e"@
}

/// The characters of the shared testnet Reputation Registry address.
pub open spec fn testnet_reputation_chars() -> Seq<char> {
    "0x8004B663056A597Dffe9eCcC1965A193B7388713"@
}

/// The bytes of `eip155:<id>:`, the head of a registry prefix.
pub open spec fn registry_prefix_head_bytes(id: u64) -> Seq<u8> {
    seq![101u8, 105, 112, 49, 53, 53, 58] + dec_digits(id as nat) + seq![58u8]
}

/// The characters of `eip155:<id>:`.
pub open spec fn registry_prefix_head_chars(id: u64) -> Seq<char> {
    registry_prefix_head_bytes(id).map_values(|b: u8| b as char)
}

/// The fixed order in which the known networks are listed.
pub open spec fn network_order() -> Seq<Network> {
    seq![
        Network::EthereumMainnet,
        Network::EthereumSepolia,
        Network::BaseMainnet,
        Network::BaseSepolia,
        Network::PolygonMainnet,
        Network::PolygonAmoy,
        Network::ArbitrumMainnet,
        Network::ArbitrumSepolia,
        Network::CeloMainnet,
        Network::CeloAlfajores,
        Network::GnosisMainnet,
        Network::ScrollMainnet,
        Network::ScrollSepolia,
        Network::TaikoMainnet,
        Network::MonadMainnet,
        Network::MonadTestnet,
        Network::BscMainnet,
        Network::BscTestnet,
    ]
}

/// ASCII bytes, decoded as a string of the same characters.
///
/// Relies on `String::from_utf8`: bytes below 128 are valid UTF-8 and
/// decode to the characters with the same code points.
#[verifier::external_body]
fn ascii_bytes_to_string(v: Vec<u8>) -> (r: String)
    requires
        forall|i: int| 0 <= i < v@.len() ==> v@[i] < 128,
    ensures
        r@.len() == v@.len(),
        forall|i: int| 0 <= i < r@.len() ==> r@[i] == v@[i] as char,
{
    String::from_utf8(v).unwrap_or_default()
}

} // verus!
