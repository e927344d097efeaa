//! The data the indexer works on: timestamps, balance tables, transactions
//! and the transfer records produced from them.

use vstd::prelude::*;

verus! {

/// A point in time: whole seconds since the Unix epoch and the nanoseconds
/// past that second. Two timestamps are ordered by their seconds first and
/// by their nanoseconds second.
#[derive(Clone, Copy, Debug, PartialEq, Eq, Structural)]
pub struct Timestamp {
    pub secs: i64,
    pub nanos: u32,
}

impl Timestamp {
    /// `self` is not later than `other`.
    pub open spec fn at_or_before(self, other: Timestamp) -> bool {
        self.secs < other.secs || (self.secs == other.secs && self.nanos <= other.nanos)
    }

    /// `self` lies in the closed interval from `start` to `end`.
    pub open spec fn within(self, start: Timestamp, end: Timestamp) -> bool {
        start.at_or_before(self) && self.at_or_before(end)
    }

    /// The timestamp of a whole second.
    pub open spec fn of_seconds(secs: i64) -> Timestamp {
        Timestamp { secs, nanos: 0 }
    }

    /// Whether `self` is not later than `other`.
    pub fn le(&self, other: &Timestamp) -> (r: bool)
        ensures
            r == self.at_or_before(*other),
    {
        self.secs < other.secs || (self.secs == other.secs && self.nanos <= other.nanos)
    }
}

/// The side of a transfer that the indexed wallet is on.
#[derive(Clone, Copy, Debug, PartialEq, Eq, Structural)]
pub enum Direction {
    Sent,
    Received,
}

/// One directional movement of tokens attributed to the indexed wallet.
///
/// `amount` counts base units of the mint; the quantity in whole tokens is
/// `amount / 10^decimals`.
#[derive(Clone, Debug, PartialEq, Eq)]
pub struct TransferRecord {
    pub signature: String,
    pub timestamp: Timestamp,
    pub direction: Direction,
    pub amount: u64,
    pub decimals: u8,
}

/// What a [`TransferRecord`] holds, as mathematical values.
pub struct TransferRecordView {
    pub signature: Seq<char>,
    pub timestamp: Timestamp,
    pub direction: Direction,
    pub amount: u64,
    pub decimals: u8,
}

impl View for TransferRecord {
    type V = TransferRecordView;

    open spec fn view(&self) -> TransferRecordView {
        TransferRecordView {
            signature: self.signature@,
            timestamp: self.timestamp,
            direction: self.direction,
            amount: self.amount,
            decimals: self.decimals,
        }
    }
}

/// The views of a sequence of records, in order.
pub open spec fn record_views(records: Seq<TransferRecord>) -> Seq<TransferRecordView> {
    records.map_values(|r: TransferRecord| r@)
}

/// One row of a transaction's token-balance table: the balance of the token
/// account at `account_index`, before or after the transaction ran.
///
/// `amount` counts base units of the mint and is `None` where the ledger
/// reported no amount; `owner` is `None` where it reported no owner.
#[derive(Clone, Debug, PartialEq, Eq)]
pub struct TokenBalance {
    pub account_index: u8,
    pub mint: String,
    pub owner: Option<String>,
    pub amount: Option<u64>,
    pub decimals: u8,
}

impl TokenBalance {
    /// The balance in base units, an absent amount counting as zero.
    pub open spec fn units(self) -> u64 {
        match self.amount {
            Some(a) => a,
            None => 0,
        }
    }

    /// This row is the balance of account `index` in `mint`.
    pub open spec fn is_for(self, index: u8, mint: Seq<char>) -> bool {
        self.account_index == index && self.mint@ == mint
    }

    /// This row names `wallet` as the owner of its account.
    pub open spec fn owned_by(self, wallet: Seq<char>) -> bool {
        match self.owner {
            Some(o) => o@ == wallet,
            None => false,
        }
    }
}

/// An account that a transaction names, and whether it signed.
#[derive(Clone, Debug, PartialEq, Eq)]
pub struct AccountKey {
    pub pubkey: String,
    pub signer: bool,
}

/// The token-balance tables of a transaction, before and after it ran.
#[derive(Clone, Debug, PartialEq, Eq)]
pub struct TransactionMeta {
    pub pre_token_balances: Vec<TokenBalance>,
    pub post_token_balances: Vec<TokenBalance>,
}

/// A decoded transaction, reduced to what reconciliation reads.
#[derive(Clone, Debug, PartialEq, Eq)]
pub struct Transaction {
    pub account_keys: Vec<AccountKey>,
    pub meta: Option<TransactionMeta>,
}

/// One entry of a wallet's signature list.
#[derive(Clone, Debug, PartialEq, Eq)]
pub struct SignatureInfo {
    pub signature: String,
    pub block_time: Option<i64>,
}

/// Why an indexing run ends without a result.
#[derive(Clone, Copy, Debug, PartialEq, Eq, Structural)]
pub enum IndexError {
    /// The wallet or the mint is not a valid address.
    InvalidAddress,
    /// An entry of the signature list does not hold a valid signature.
    InvalidSignature,
    /// An entry of the signature list holds a block time that is no valid instant.
    InvalidBlockTime,
}

} // verus!
