use crate::account::{AccountSet, BitcoinAccount, EthereumAccount};
use vstd::prelude::*;

verus! {

/// Handle to a started Bitcoin regtest node. Every field is mandatory, so
/// a handle cannot exist in partial form: whoever holds one holds the RPC
/// endpoint, the peer-to-peer URI and both pre-associated accounts.
pub struct BitcoindInstance {
    pub http_endpoint: String,
    pub p2p_uri: String,
    pub account_0: BitcoinAccount,
    pub account_1: BitcoinAccount,
}

/// Handle to a started Ethereum dev node, with the token contract address
/// that its startup deployed and both pre-associated accounts. As with the
/// Bitcoin handle, no field is optional.
pub struct ParityInstance {
    pub http_endpoint: String,
    pub erc20_contract_address: [u8; 20],
    pub account_0: EthereumAccount,
    pub account_1: EthereumAccount,
}

/// Handle to one started protocol-daemon container: its HTTP endpoint and
/// the instance index that disambiguates the two daemons.
pub struct CndInstance {
    pub http_endpoint: String,
    pub index: u8,
}

impl BitcoindInstance {
    /// A usable handle names a reachable endpoint and a peer URI.
    pub open spec fn wf(&self) -> bool {
        &&& self.http_endpoint@.len() > 0
        &&& self.p2p_uri@.len() > 0
    }

    /// The handle carries the run's two Bitcoin accounts.
    pub open spec fn carries_accounts(&self, accounts: AccountSet) -> bool {
        &&& self.account_0 == accounts.bitcoin_0
        &&& self.account_1 == accounts.bitcoin_1
    }
}

impl ParityInstance {
    /// A usable handle names a reachable endpoint; the contract address is
    /// complete by construction.
    pub open spec fn wf(&self) -> bool {
        self.http_endpoint@.len() > 0
    }

    /// The handle carries the run's two Ethereum accounts.
    pub open spec fn carries_accounts(&self, accounts: AccountSet) -> bool {
        &&& self.account_0 == accounts.ethereum_0
        &&& self.account_1 == accounts.ethereum_1
    }
}

/// The terminal successful output of a run: the isolated network's
/// identifier and the handles to every started resource. Owned by the
/// caller once returned and never mutated after construction.
pub struct Environment {
    pub docker_network_id: String,
    pub bitcoind: BitcoindInstance,
    pub parity: ParityInstance,
    pub cnd_0: CndInstance,
    pub cnd_1: CndInstance,
}

impl Environment {
    /// Every handle is fully populated and all persisted key material is
    /// non-empty text.
    pub open spec fn wf(&self) -> bool {
        &&& self.docker_network_id@.len() > 0
        &&& self.bitcoind.wf()
        &&& self.parity.wf()
        &&& self.cnd_0.wf(0)
        &&& self.cnd_1.wf(1)
        &&& self.bitcoind.account_0.text_complete()
        &&& self.bitcoind.account_1.text_complete()
    }
}

impl CndInstance {
    /// A usable handle names a reachable endpoint and its instance index.
    pub open spec fn wf(&self, index: u8) -> bool {
        &&& self.http_endpoint@.len() > 0
        &&& self.index == index
    }
}

} // verus!
