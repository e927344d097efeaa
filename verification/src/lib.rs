//! Token-transfer indexing for a single wallet.
//!
//! Given a wallet, a token mint and a closed time window, the library decides
//! which transactions of the wallet's history have to be fetched and turns the
//! token-balance tables of each fetched transaction into directional transfer
//! records. It performs no I/O itself.
//!
//! A run begins with [`index_usdc_transfers`] and goes on step by step: each
//! [`Progress`] either asks for the wallet's signature list, asks for one
//! transaction, or ends the run with its records or its error. The caller
//! fetches what is asked for and hands it back through [`Query::scan`] or
//! [`Pending::resume`].
//!
//! Amounts are whole numbers of base units of the mint, and each record
//! carries the mint's decimals beside its amount.

pub mod codec;
pub mod driver;
pub mod model;
pub mod reconcile;
pub mod window;

pub use codec::{address_text, parse_address, parse_signature, signature_text, Address, Signature};
pub use driver::{
    index_usdc_transfers, ListRequest, Pending, Progress, Query, SIGNATURE_LIMIT,
};
pub use model::{
    AccountKey, Direction, IndexError, SignatureInfo, Timestamp, TokenBalance, Transaction,
    TransactionMeta, TransferRecord,
};
pub use reconcile::{process_transaction, reconcile, NEGLIGIBLE_UNITS};
pub use window::{
    in_range, resolve_block_time, screen, screen_entry, BlockTime, Screening, SkipReason,
};
