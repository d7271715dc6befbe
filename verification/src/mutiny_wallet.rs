//! The UTXO-explorer wallet collaborator's data model, and the balance
//! arithmetic over it.
//!
//! The HTTP calls that fill these records live outside the library; the
//! balance a wallet reports is computed here, verified.

use vstd::prelude::*;

verus! {

#[derive(Debug, Clone)]
pub struct AddressInfo {
    pub address: String,
    pub chain_stats: ChainStats,
    pub mempool_stats: MempoolStats,
}

#[derive(Debug, Clone, Copy)]
pub struct ChainStats {
    pub funded_txo_count: u64,
    pub funded_txo_sum: u64,
    pub spent_txo_count: u64,
    pub spent_txo_sum: u64,
    pub tx_count: u64,
}

#[derive(Debug, Clone, Copy)]
pub struct MempoolStats {
    pub funded_txo_count: u64,
    pub funded_txo_sum: u64,
    pub spent_txo_count: u64,
    pub spent_txo_sum: u64,
    pub tx_count: u64,
}

#[derive(Debug, Clone)]
pub struct Utxo {
    pub txid: String,
    pub vout: u32,
    pub status: UtxoStatus,
    pub value: u64,
}

#[derive(Debug, Clone)]
pub struct UtxoStatus {
    pub confirmed: bool,
    pub block_height: Option<u64>,
    pub block_hash: Option<String>,
    pub block_time: Option<u64>,
}

#[derive(Debug, Clone)]
pub struct Transaction {
    pub txid: String,
    pub version: u32,
    pub locktime: u32,
    pub vin: Vec<Vin>,
    pub vout: Vec<Vout>,
    pub size: u32,
    pub weight: u32,
    pub fee: u64,
    pub status: TxStatus,
}

#[derive(Debug, Clone)]
pub struct Vin {
    pub txid: String,
    pub vout: u32,
    pub prevout: Option<Prevout>,
    pub scriptsig: String,
    pub scriptsig_asm: String,
    pub witness: Option<Vec<String>>,
    pub is_coinbase: bool,
    pub sequence: u64,
}

#[derive(Debug, Clone)]
pub struct Prevout {
    pub scriptpubkey: String,
    pub scriptpubkey_asm: String,
    pub scriptpubkey_type: String,
    pub scriptpubkey_address: Option<String>,
    pub value: u64,
}

#[derive(Debug, Clone)]
pub struct Vout {
    pub scriptpubkey: String,
    pub scriptpubkey_asm: String,
    pub scriptpubkey_type: String,
    pub scriptpubkey_address: Option<String>,
    pub value: u64,
}

#[derive(Debug, Clone)]
pub struct TxStatus {
    pub confirmed: bool,
    pub block_height: Option<u64>,
    pub block_hash: Option<String>,
    pub block_time: Option<u64>,
}

#[derive(Debug, Clone)]
pub struct WalletBalance {
    pub address: String,
    pub confirmed_balance: u64,
    pub unconfirmed_balance: u64,
    pub total_balance: u64,
    pub confirmed_utxo_count: u64,
    pub unconfirmed_utxo_count: u64,
    pub total_utxo_count: u64,
}

#[derive(Debug, Clone, Copy, PartialEq, Eq, Structural)]
pub enum Network {
    Mainnet,
    Testnet,
    Signet,
}

impl Network {
    pub open spec fn spec_name(self) -> Seq<char> {
        match self {
            Network::Mainnet => "mainnet"@,
            Network::Testnet => "testnet"@,
            Network::Signet => "signet"@,
        }
    }

    pub fn name(&self) -> (r: &'static str)
        ensures
            r@ == self.spec_name(),
    {
        match self {
            Network::Mainnet => "mainnet",
            Network::Testnet => "testnet",
            Network::Signet => "signet",
        }
    }

    /// The explorer base URL the wallet uses on this network.
    pub open spec fn spec_default_base_url(self) -> Seq<char> {
        match self {
            Network::Mainnet => "https://mutiny.mempool.space/api"@,
            Network::Testnet => "https://mutinynet.com/api"@,
            Network::Signet => "https://mutinynet.com/api"@,
        }
    }

    pub fn default_base_url(&self) -> (r: &'static str)
        ensures
            r@ == self.spec_default_base_url(),
    {
        match self {
            Network::Mainnet => "https://mutiny.mempool.space/api",
            Network::Testnet => "https://mutinynet.com/api",
            Network::Signet => "https://mutinynet.com/api",
        }
    }
}

/// Number of confirmed UTXOs in a listing.
pub open spec fn spec_confirmed_count(utxos: Seq<Utxo>) -> int
    decreases utxos.len(),
{
    if utxos.len() == 0 {
        0
    } else {
        spec_confirmed_count(utxos.drop_last()) + if utxos.last().status.confirmed {
            1int
        } else {
            0int
        }
    }
}

pub proof fn lemma_confirmed_count_bounds(utxos: Seq<Utxo>)
    ensures
        0 <= spec_confirmed_count(utxos) <= utxos.len(),
    decreases utxos.len(),
{
    if utxos.len() > 0 {
        lemma_confirmed_count_bounds(utxos.drop_last());
    }
}

/// The balance an address-info record and a UTXO listing report together:
/// funded less spent on chain and in the mempool, and the confirmed /
/// unconfirmed split of the UTXO count.
pub fn compute_wallet_balance(address: String, info: &AddressInfo, utxos: &Vec<Utxo>) -> (r:
    WalletBalance)
    requires
        info.chain_stats.spent_txo_sum <= info.chain_stats.funded_txo_sum,
        info.mempool_stats.spent_txo_sum <= info.mempool_stats.funded_txo_sum,
        (info.chain_stats.funded_txo_sum - info.chain_stats.spent_txo_sum) + (
        info.mempool_stats.funded_txo_sum - info.mempool_stats.spent_txo_sum) <= u64::MAX,
    ensures
        r.address@ == address@,
        r.confirmed_balance == info.chain_stats.funded_txo_sum - info.chain_stats.spent_txo_sum,
        r.unconfirmed_balance == info.mempool_stats.funded_txo_sum
            - info.mempool_stats.spent_txo_sum,
        r.total_balance == r.confirmed_balance + r.unconfirmed_balance,
        r.confirmed_utxo_count == spec_confirmed_count(utxos@),
        r.unconfirmed_utxo_count == utxos@.len() - spec_confirmed_count(utxos@),
        r.total_utxo_count == utxos@.len(),
{
    let confirmed_balance = info.chain_stats.funded_txo_sum - info.chain_stats.spent_txo_sum;
    let unconfirmed_balance = info.mempool_stats.funded_txo_sum - info.mempool_stats.spent_txo_sum;
    let total_balance = confirmed_balance + unconfirmed_balance;
    let n = utxos.len();
    let mut confirmed: usize = 0;
    let mut i: usize = 0;
    while i < n
        invariant
            n == utxos@.len(),
            i <= n,
            confirmed == spec_confirmed_count(utxos@.take(i as int)),
            confirmed <= i,
        decreases n - i,
    {
        proof {
            assert(utxos@.take(i + 1).drop_last() =~= utxos@.take(i as int));
            assert(utxos@.take(i + 1).last() == utxos@[i as int]);
        }
        if utxos[i].status.confirmed {
            confirmed += 1;
        }
        i += 1;
    }
    proof {
        assert(utxos@.take(n as int) =~= utxos@);
        lemma_confirmed_count_bounds(utxos@);
    }
    WalletBalance {
        address,
        confirmed_balance,
        unconfirmed_balance,
        total_balance,
        confirmed_utxo_count: confirmed as u64,
        unconfirmed_utxo_count: (n - confirmed) as u64,
        total_utxo_count: n as u64,
    }
}

} // verus!
