//! Static configuration of all known chain deployments.
//!
//! Each entry pairs a [`Network`] with operational metadata — the
//! block the registries were deployed at, an optional first-event
//! hint, a default public RPC endpoint — that the network definitions
//! themselves do not track.

use vstd::prelude::*;

use vstd::string::StringExecFns;

use crate::networks::Network;

verus! {

/// Operational metadata for a single chain deployment.
pub struct ChainConfig {
    /// The network (provides chain ID and contract addresses).
    pub network: Network,
    /// Block at which the Identity Registry contract was deployed.
    pub deployment_block: u64,
    /// Block of the first registry event on this chain, when known;
    /// syncing starts here instead of `deployment_block`, skipping
    /// empty blocks.
    pub first_event_block: Option<u64>,
    /// Suggested public RPC endpoint.
    pub default_rpc: String,
    /// Whether this is a testnet deployment.
    pub is_testnet: bool,
}

/// The deployment block recorded for each network.
pub open spec fn deployment_block_spec(n: Network) -> u64 {
    match n {
        Network::BaseMainnet => 41_663_783,
        Network::EthereumMainnet => 24_339_871,
        Network::PolygonMainnet => 73_019_847,
        Network::ArbitrumMainnet => 327_832_400,
        Network::CeloMainnet => 32_479_428,
        Network::GnosisMainnet => 39_025_823,
        Network::ScrollMainnet => 15_577_120,
        Network::TaikoMainnet => 871_920,
        Network::BscMainnet => 49_143_533,
        Network::MonadMainnet => 56_017_606,
        Network::BaseSepolia => 24_899_933,
        Network::EthereumSepolia => 8_067_632,
        Network::PolygonAmoy => 20_965_364,
        Network::ArbitrumSepolia => 159_589_032,
        Network::CeloAlfajores => 31_382_416,
        Network::ScrollSepolia => 14_050_456,
        Network::BscTestnet => 51_893_896,
        Network::MonadTestnet => 10_400_000,
    }
}

/// The first-event hint recorded for each network; none of the known
/// deployments records one.
pub open spec fn first_event_block_spec(n: Network) -> Option<u64> {
    None
}

/// The characters of the default RPC endpoint recorded for each
/// network.
pub open spec fn default_rpc_chars(n: Network) -> Seq<char> {
    match n {
        Network::BaseMainnet => "https://mainnet.base.org"@,
        Network::EthereumMainnet => "https://ethereum-rpc.publicnode.com"@,
        Network::PolygonMainnet => "https://polygon-rpc.com"@,
        Network::ArbitrumMainnet => "https://arb1.arbitrum.io/rpc"@,
        Network::CeloMainnet => "https://forno.celo.org"@,
        Network::GnosisMainnet => "https://rpc.gnosischain.com"@,
        Network::ScrollMainnet => "https://rpc.scroll.io"@,
        Network::TaikoMainnet => "https://rpc.mainnet.taiko.xyz"@,
        Network::BscMainnet => "https://bsc-rpc.publicnode.com"@,
        Network::MonadMainnet => "https://rpc.monad.xyz"@,
        Network::BaseSepolia => "https://sepolia.base.org"@,
        Network::EthereumSepolia => "https://ethereum-sepolia-rpc.publicnode.com"@,
        Network::PolygonAmoy => "https://rpc-amoy.polygon.technology"@,
        Network::ArbitrumSepolia => "https://sepolia-rollup.arbitrum.io/rpc"@,
        Network::CeloAlfajores => "https://alfajores-forno.celo-testnet.org"@,
        Network::ScrollSepolia => "https://sepolia-rpc.scroll.io"@,
        Network::BscTestnet => "https://bsc-testnet-rpc.publicnode.com"@,
        Network::MonadTestnet => "https://testnet-rpc.monad.xyz"@,
    }
}

/// A configuration entry agrees with the recorded table: every field
/// is the one recorded for its network.
pub open spec fn config_wf(c: ChainConfig) -> bool {
    &&& c.deployment_block == deployment_block_spec(c.network)
    &&& c.first_event_block == first_event_block_spec(c.network)
    &&& c.default_rpc@ == default_rpc_chars(c.network)
    &&& c.is_testnet == !c.network.is_mainnet()
}

/// The fixed order of the table: mainnets first, then testnets.
pub open spec fn chain_table_order() -> Seq<Network> {
    seq![
        Network::BaseMainnet,
        Network::EthereumMainnet,
        Network::PolygonMainnet,
        Network::ArbitrumMainnet,
        Network::CeloMainnet,
        Network::GnosisMainnet,
        Network::ScrollMainnet,
        Network::TaikoMainnet,
        Network::BscMainnet,
        Network::MonadMainnet,
        Network::BaseSepolia,
        Network::EthereumSepolia,
        Network::PolygonAmoy,
        Network::ArbitrumSepolia,
        Network::CeloAlfajores,
        Network::ScrollSepolia,
        Network::BscTestnet,
        Network::MonadTestnet,
    ]
}

impl Clone for ChainConfig {
    /// An equal copy of the entry.
    fn clone(&self) -> (r: Self)
        ensures
            r == *self,
    {
        let rpc = self.default_rpc.clone();
        ChainConfig {
            network: self.network,
            deployment_block: self.deployment_block,
            first_event_block: match self.first_event_block {
                Some(b) => Some(b),
                None => None,
            },
            default_rpc: rpc,
            is_testnet: self.is_testnet,
        }
    }
}

impl ChainConfig {
    /// The effective starting block for a fresh sync: the first-event
    /// hint when one is recorded, else the deployment block.
    pub open spec fn sync_start_block_spec(self) -> u64 {
        match self.first_event_block {
            Some(b) => b,
            None => self.deployment_block,
        }
    }

    /// Returns the effective starting block for a fresh sync.
    pub fn sync_start_block(&self) -> (r: u64)
        ensures
            r == self.sync_start_block_spec(),
    {
        match self.first_event_block {
            Some(b) => b,
            None => self.deployment_block,
        }
    }

    /// Convenience: the EIP-155 chain ID.
    pub fn chain_id(&self) -> (r: u64)
        ensures
            r == self.network.chain_id_spec(),
    {
        self.network.chain_id()
    }
}

/// The table entry for one network.
fn config_for(n: Network) -> (r: ChainConfig)
    ensures
        r.network == n,
        config_wf(r),
{
    let rpc = match n {
        Network::BaseMainnet => String::from_str("https://mainnet.base.org"),
        Network::EthereumMainnet => String::from_str("https://ethereum-rpc.publicnode.com"),
        Network::PolygonMainnet => String::from_str("https://polygon-rpc.com"),
        Network::ArbitrumMainnet => String::from_str("https://arb1.arbitrum.io/rpc"),
        Network::CeloMainnet => String::from_str("https://forno.celo.org"),
        Network::GnosisMainnet => String::from_str("https://rpc.gnosischain.com"),
        Network::ScrollMainnet => String::from_str("https://rpc.scroll.io"),
        Network::TaikoMainnet => String::from_str("https://rpc.mainnet.taiko.xyz"),
        Network::BscMainnet => String::from_str("https://bsc-rpc.publicnode.com"),
        Network::MonadMainnet => String::from_str("https://rpc.monad.xyz"),
        Network::BaseSepolia => String::from_str("https://sepolia.base.org"),
        Network::EthereumSepolia => String::from_str("https://ethereum-sepolia-rpc.publicnode.com"),
        Network::PolygonAmoy => String::from_str("https://rpc-amoy.polygon.technology"),
        Network::ArbitrumSepolia => String::from_str("https://sepolia-rollup.arbitrum.io/rpc"),
        Network::CeloAlfajores => String::from_str("https://alfajores-forno.celo-testnet.org"),
        Network::ScrollSepolia => String::from_str("https://sepolia-rpc.scroll.io"),
        Network::BscTestnet => String::from_str("https://bsc-testnet-rpc.publicnode.com"),
        Network::MonadTestnet => String::from_str("https://testnet-rpc.monad.xyz"),
    };
    let deployment_block = match n {
        Network::BaseMainnet => 41_663_783,
        Network::EthereumMainnet => 24_339_871,
        Network::PolygonMainnet => 73_019_847,
        Network::ArbitrumMainnet => 327_832_400,
        Network::CeloMainnet => 32_479_428,
        Network::GnosisMainnet => 39_025_823,
        Network::ScrollMainnet => 15_577_120,
        Network::TaikoMainnet => 871_920,
        Network::BscMainnet => 49_143_533,
        Network::MonadMainnet => 56_017_606,
        Network::BaseSepolia => 24_899_933,
        Network::EthereumSepolia => 8_067_632,
        Network::PolygonAmoy => 20_965_364,
        Network::ArbitrumSepolia => 159_589_032,
        Network::CeloAlfajores => 31_382_416,
        Network::ScrollSepolia => 14_050_456,
        Network::BscTestnet => 51_893_896,
        Network::MonadTestnet => 10_400_000,
    };
    let is_testnet = match n {
        Network::BaseSepolia | Network::EthereumSepolia | Network::PolygonAmoy
        | Network::ArbitrumSepolia | Network::CeloAlfajores | Network::ScrollSepolia
        | Network::BscTestnet | Network::MonadTestnet => true,
        _ => false,
    };
    ChainConfig { network: n, deployment_block, first_event_block: None, default_rpc: rpc, is_testnet }
}

/// All known chain configurations, in table order.
pub fn all_chains() -> (r: Vec<ChainConfig>)
    ensures
        r@.len() == chain_table_order().len(),
        forall|i: int|
            0 <= i < r@.len() ==> (#[trigger] r@[i]).network == chain_table_order()[i]
                && config_wf(r@[i]),
{
    let networks = vec![
        Network::BaseMainnet,
        Network::EthereumMainnet,
        Network::PolygonMainnet,
        Network::ArbitrumMainnet,
        Network::CeloMainnet,
        Network::GnosisMainnet,
        Network::ScrollMainnet,
        Network::TaikoMainnet,
        Network::BscMainnet,
        Network::MonadMainnet,
        Network::BaseSepolia,
        Network::EthereumSepolia,
        Network::PolygonAmoy,
        Network::ArbitrumSepolia,
        Network::CeloAlfajores,
        Network::ScrollSepolia,
        Network::BscTestnet,
        Network::MonadTestnet,
    ];
    proof {
        assert(networks@ =~= chain_table_order());
    }
    let mut out: Vec<ChainConfig> = Vec::new();
    let mut i: usize = 0;
    while i < networks.len()
        invariant
            i <= networks@.len(),
            networks@ == chain_table_order(),
            out@.len() == i,
            forall|k: int|
                0 <= k < i ==> (#[trigger] out@[k]).network == chain_table_order()[k]
                    && config_wf(out@[k]),
        decreases networks@.len() - i,
    {
        out.push(config_for(networks[i]));
        i = i + 1;
    }
    out
}

/// Look up a chain configuration by chain ID; `None` when no known
/// deployment has that ID.
pub fn by_chain_id(chain_id: u64) -> (r: Option<ChainConfig>)
    ensures
        match r {
            Some(c) => config_wf(c) && c.network.chain_id_spec() == chain_id,
            None => forall|n: Network| #[trigger] n.chain_id_spec() != chain_id,
        },
{
    match Network::from_chain_id(chain_id) {
        Some(n) => Some(config_for(n)),
        None => None,
    }
}

} // verus!
