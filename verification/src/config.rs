//! What the operator sets up: servers to follow the chains with, and wallets to fund swaps from.

use crate::chain::Network;
use vstd::prelude::*;

verus! {

/// The servers that the syncers of a network talk to.
#[derive(PartialEq, Eq, Debug)]
pub struct SyncerServers {
    pub electrum_server: String,
    pub monero_daemon: String,
    pub monero_rpc_wallet: String,
}

/// The wallets that swaps on a network are funded from.
#[derive(PartialEq, Eq, Debug)]
pub struct AutoFundingServers {
    pub bitcoin_cookie_path: String,
    pub bitcoin_rpc: String,
    pub monero_rpc_wallet: String,
}

/// What is set for each network.
#[derive(PartialEq, Eq, Debug)]
pub struct PerNetwork<T> {
    pub mainnet: Option<T>,
    pub testnet: Option<T>,
    pub local: Option<T>,
}

/// The configuration.
#[derive(PartialEq, Eq, Debug)]
pub struct Config {
    /// Whether swaps are funded without asking.
    pub auto_funding: bool,
    pub funding_servers: PerNetwork<AutoFundingServers>,
    pub syncer_servers: PerNetwork<SyncerServers>,
}

impl<T> PerNetwork<T> {
    /// What is set for a network.
    pub open spec fn of(self, network: Network) -> Option<T> {
        match network {
            Network::Mainnet => self.mainnet,
            Network::Testnet => self.testnet,
            Network::Local => self.local,
        }
    }

    /// What is set for a network.
    pub fn get(&self, network: Network) -> (r: Option<&T>)
        ensures
            match r {
                Some(t) => self.of(network) == Some(*t),
                None => self.of(network) is None,
            },
    {
        match network {
            Network::Mainnet => self.mainnet.as_ref(),
            Network::Testnet => self.testnet.as_ref(),
            Network::Local => self.local.as_ref(),
        }
    }
}

impl Config {
    /// The wallets that swaps on a network are funded from without asking.
    pub open spec fn funding_for(self, network: Network) -> Option<AutoFundingServers> {
        if self.auto_funding {
            self.funding_servers.of(network)
        } else {
            None
        }
    }

    /// Whether swaps are funded without asking.
    pub fn is_auto_funding_enable(&self) -> (r: bool)
        ensures
            r == self.auto_funding,
    {
        self.auto_funding
    }

    /// The wallets that swaps on a network are funded from without asking.
    pub fn get_auto_funding_config(&self, network: Network) -> (r: Option<&AutoFundingServers>)
        ensures
            match r {
                Some(servers) => self.funding_for(network) == Some(*servers),
                None => self.funding_for(network) is None,
            },
    {
        if self.auto_funding {
            self.funding_servers.get(network)
        } else {
            None
        }
    }

    /// The servers that the syncers of a network talk to.
    pub fn get_syncer_servers(&self, network: Network) -> (r: Option<&SyncerServers>)
        ensures
            match r {
                Some(servers) => self.syncer_servers.of(network) == Some(*servers),
                None => self.syncer_servers.of(network) is None,
            },
    {
        self.syncer_servers.get(network)
    }
}

} // verus!
