//! Reconciliation: from the token-balance tables of one transaction to the
//! transfers of the indexed wallet.
//!
//! Every row of the table after the transaction that is in the requested
//! mint is joined, by account index and mint, with the row of the same
//! account before the transaction. The difference of the two balances is the
//! transfer; it is recorded where it is not negligible and the wallet is
//! attributable to it.

use vstd::prelude::*;
use crate::codec::{
    address_encoding, address_text, signature_encoding, signature_text, Address, Signature,
};
use crate::model::{
    record_views, AccountKey, Direction, Timestamp, TokenBalance, Transaction, TransferRecord,
    TransferRecordView,
};

verus! {

/// A change of balance below this many base units leaves no record.
/// Balances are whole numbers of base units, so only no change at all is
/// below it.
pub const NEGLIGIBLE_UNITS: u64 = 1;

/// The balance, in base units, of account `index` in `mint` according to the
/// table `pre`: that of the first row for this account and mint, and zero
/// where the table has no such row.
pub open spec fn balance_before(pre: Seq<TokenBalance>, index: u8, mint: Seq<char>) -> u64
    decreases pre.len(),
{
    if pre.len() == 0 {
        0
    } else if pre[0].is_for(index, mint) {
        pre[0].units()
    } else {
        balance_before(pre.drop_first(), index, mint)
    }
}

/// `key` is `wallet`, and it signed.
pub open spec fn signs_as(key: AccountKey, wallet: Seq<char>) -> bool {
    key.signer && key.pubkey@ == wallet
}

/// `wallet` is among `keys` as a signer.
pub open spec fn is_signer(keys: Seq<AccountKey>, wallet: Seq<char>) -> bool {
    exists|k: int| 0 <= k < keys.len() && #[trigger] signs_as(keys[k], wallet)
}

/// The change of the balance that `entry` reports, against the table `pre`:
/// positive where the account gained tokens.
pub open spec fn delta(entry: TokenBalance, pre: Seq<TokenBalance>) -> int {
    entry.units() - balance_before(pre, entry.account_index, entry.mint@)
}

/// The size of a change, whatever its sign.
pub open spec fn magnitude(change: int) -> int {
    if change >= 0 {
        change
    } else {
        -change
    }
}

/// `wallet` is attributable to a change of `entry`: it owns the account
/// after the transaction, or it signed the transaction.
pub open spec fn attributable(entry: TokenBalance, signer: bool, wallet: Seq<char>) -> bool {
    signer || entry.owned_by(wallet)
}

/// The record that the row `entry` of the table after the transaction
/// yields, if it yields one: the row is in `mint`, its change is not
/// negligible, and `wallet` is attributable to it.
pub open spec fn record_of(
    entry: TokenBalance,
    pre: Seq<TokenBalance>,
    signer: bool,
    wallet: Seq<char>,
    mint: Seq<char>,
    time: Timestamp,
    signature: Seq<char>,
) -> Option<TransferRecordView> {
    let change = delta(entry, pre);
    if entry.mint@ == mint && magnitude(change) >= NEGLIGIBLE_UNITS && attributable(
        entry,
        signer,
        wallet,
    ) {
        Some(
            TransferRecordView {
                signature,
                timestamp: time,
                direction: if change > 0 {
                    Direction::Received
                } else {
                    Direction::Sent
                },
                amount: magnitude(change) as u64,
                decimals: entry.decimals,
            },
        )
    } else {
        None
    }
}

/// [`record_of`] as a function of the row, for one transaction.
pub open spec fn recording(
    tx: Transaction,
    wallet: Seq<char>,
    mint: Seq<char>,
    time: Timestamp,
    signature: Seq<char>,
) -> spec_fn(TokenBalance) -> Option<TransferRecordView> {
    |entry: TokenBalance|
        record_of(
            entry,
            tx.meta->Some_0.pre_token_balances@,
            is_signer(tx.account_keys@, wallet),
            wallet,
            mint,
            time,
            signature,
        )
}

/// The records of one transaction: those of the rows of its table after the
/// transaction, in the order of the table; none where the transaction
/// carries no tables.
pub open spec fn reconciled(
    tx: Transaction,
    wallet: Seq<char>,
    mint: Seq<char>,
    time: Timestamp,
    signature: Seq<char>,
) -> Seq<TransferRecordView> {
    match tx.meta {
        None => Seq::empty(),
        Some(meta) => meta.post_token_balances@.filter_map(
            recording(tx, wallet, mint, time, signature),
        ),
    }
}

/// Looks up the balance of account `index` in `mint` in the table `pre`.
fn lookup_balance_before(pre: &Vec<TokenBalance>, index: u8, mint: &String) -> (r: u64)
    ensures
        r == balance_before(pre@, index, mint@),
{
    let mut j: usize = 0;
    assert(pre@.skip(0) == pre@);
    while j < pre.len()
        invariant
            j <= pre.len(),
            balance_before(pre@, index, mint@) == balance_before(pre@.skip(j as int), index, mint@),
        decreases pre.len() - j,
    {
        let row = &pre[j];
        proof {
            assert(pre@.skip(j as int)[0] == pre@[j as int]);
            assert(pre@.skip(j as int).drop_first() == pre@.skip(j as int + 1));
        }
        if row.account_index == index && row.mint == *mint {
            return match row.amount {
                Some(a) => a,
                None => 0,
            };
        }
        j += 1;
    }
    0
}

/// Whether `wallet` is among `keys` as a signer.
fn find_signer(keys: &Vec<AccountKey>, wallet: &String) -> (r: bool)
    ensures
        r == is_signer(keys@, wallet@),
{
    let mut k: usize = 0;
    while k < keys.len()
        invariant
            k <= keys.len(),
            forall|i: int| 0 <= i < k ==> !#[trigger] signs_as(keys@[i], wallet@),
        decreases keys.len() - k,
    {
        if keys[k].signer && keys[k].pubkey == *wallet {
            assert(signs_as(keys@[k as int], wallet@));
            return true;
        }
        k += 1;
    }
    false
}

/// Whether the row names `wallet` as the owner of its account.
fn is_owned_by(entry: &TokenBalance, wallet: &String) -> (r: bool)
    ensures
        r == entry.owned_by(wallet@),
{
    match &entry.owner {
        Some(owner) => *owner == *wallet,
        None => false,
    }
}

/// Reconciles one transaction: the transfers of `mint` that it made for
/// `wallet`, each stamped with `time` and `signature`.
///
/// `wallet` and `mint` are addresses in their base58 text, as the balance
/// tables write them. A transaction without tables yields no record. Every
/// record moves at least one base unit.
pub fn reconcile(
    tx: &Transaction,
    wallet: &String,
    mint: &String,
    time: Timestamp,
    signature: &String,
) -> (records: Vec<TransferRecord>)
    ensures
        record_views(records@) == reconciled(*tx, wallet@, mint@, time, signature@),
        forall|i: int|
            0 <= i < records@.len() ==> {
                let record = #[trigger] records@[i];
                &&& record.amount > 0
                &&& record.timestamp == time
                &&& record.signature@ == signature@
            },
{
    let mut records: Vec<TransferRecord> = Vec::new();
    match &tx.meta {
        None => {
            assert(record_views(records@) =~= Seq::empty());
        },
        Some(meta) => {
            let signer = find_signer(&tx.account_keys, wallet);
            let post = &meta.post_token_balances;
            let ghost yields = recording(*tx, wallet@, mint@, time, signature@);
            let mut i: usize = 0;
            assert(record_views(records@) =~= post@.take(0).filter_map(yields));
            while i < post.len()
                invariant
                    i <= post.len(),
                    tx.meta == Some(*meta),
                    post == &meta.post_token_balances,
                    signer == is_signer(tx.account_keys@, wallet@),
                    yields == recording(*tx, wallet@, mint@, time, signature@),
                    record_views(records@) == post@.take(i as int).filter_map(yields),
                decreases post.len() - i,
            {
                let entry = &post[i];
                let ghost before = record_views(records@);
                proof {
                    post@.lemma_filter_map_take_succ(yields, i as int);
                }
                if entry.mint == *mint {
                    let pre_amount = lookup_balance_before(
                        &meta.pre_token_balances,
                        entry.account_index,
                        &entry.mint,
                    );
                    let post_amount = match entry.amount {
                        Some(a) => a,
                        None => 0,
                    };
                    let (amount, direction) = if post_amount > pre_amount {
                        (post_amount - pre_amount, Direction::Received)
                    } else {
                        (pre_amount - post_amount, Direction::Sent)
                    };
                    if amount >= NEGLIGIBLE_UNITS && (signer || is_owned_by(entry, wallet)) {
                        let record = TransferRecord {
                            signature: signature.clone(),
                            timestamp: time,
                            direction,
                            amount,
                            decimals: entry.decimals,
                        };
                        records.push(record);
                        assert(record_views(records@) =~= before + seq![record@]);
                    }
                }
                i += 1;
            }
            assert(post@.take(post.len() as int) == post@);
        },
    }
    proof {
        lemma_reconciled_records(*tx, wallet@, mint@, time, signature@);
        assert forall|i: int| 0 <= i < records@.len() implies {
            let record = #[trigger] records@[i];
            &&& record.amount > 0
            &&& record.timestamp == time
            &&& record.signature@ == signature@
        } by {
            assert(record_views(records@)[i] == records@[i]@);
        }
    }
    records
}

/// Reconciles one fetched transaction for a wallet and a mint given as
/// addresses, and a signature given by its bytes: their base58 texts are
/// taken, and the tables are reconciled against those.
pub fn process_transaction(
    tx: &Transaction,
    wallet: &Address,
    mint: &Address,
    tx_time: Timestamp,
    signature: &Signature,
) -> (records: Vec<TransferRecord>)
    ensures
        record_views(records@) == reconciled(
            *tx,
            address_encoding(wallet.bytes@),
            address_encoding(mint.bytes@),
            tx_time,
            signature_encoding(signature.bytes@),
        ),
{
    let wallet_text = address_text(wallet);
    let mint_text = address_text(mint);
    let signature_text = signature_text(signature);
    reconcile(tx, &wallet_text, &mint_text, tx_time, &signature_text)
}

/// Every record of a transaction stands for a row of its table after the
/// transaction: a row of the requested mint, to which the wallet is
/// attributable, and whose change is what the record says.
pub proof fn lemma_record_has_a_row(
    tx: Transaction,
    wallet: Seq<char>,
    mint: Seq<char>,
    time: Timestamp,
    signature: Seq<char>,
    i: int,
) -> (row: int)
    requires
        0 <= i < reconciled(tx, wallet, mint, time, signature).len(),
    ensures
        tx.meta is Some,
        0 <= row < tx.meta->Some_0.post_token_balances@.len(),
        ({
            let meta = tx.meta->Some_0;
            let entry = meta.post_token_balances@[row];
            let record = reconciled(tx, wallet, mint, time, signature)[i];
            &&& recording(tx, wallet, mint, time, signature)(entry) == Some(record)
            &&& entry.mint@ == mint
            &&& attributable(entry, is_signer(tx.account_keys@, wallet), wallet)
            &&& record.amount == magnitude(delta(entry, meta.pre_token_balances@))
            &&& record.direction == Direction::Received <==> delta(entry, meta.pre_token_balances@)
                > 0
        }),
{
    let records = reconciled(tx, wallet, mint, time, signature);
    let post = tx.meta->Some_0.post_token_balances@;
    let yields = recording(tx, wallet, mint, time, signature);
    assert(records.contains(records[i]));
    post.lemma_filter_map_contains(yields, records[i]);
    let entry = choose|entry: TokenBalance| #[trigger]
        post.contains(entry) && yields(entry) == Some(records[i]);
    choose|row: int| 0 <= row < post.len() && post[row] == entry
}

/// Every record of a transaction carries the given time and signature and
/// moves at least one base unit.
pub proof fn lemma_reconciled_records(
    tx: Transaction,
    wallet: Seq<char>,
    mint: Seq<char>,
    time: Timestamp,
    signature: Seq<char>,
)
    ensures
        forall|i: int|
            0 <= i < reconciled(tx, wallet, mint, time, signature).len() ==> {
                let record = #[trigger] reconciled(tx, wallet, mint, time, signature)[i];
                &&& record.timestamp == time
                &&& record.signature == signature
                &&& record.amount > 0
            },
{
    let records = reconciled(tx, wallet, mint, time, signature);
    assert forall|i: int| 0 <= i < records.len() implies {
        let record = #[trigger] records[i];
        &&& record.timestamp == time
        &&& record.signature == signature
        &&& record.amount > 0
    } by {
        let row = lemma_record_has_a_row(tx, wallet, mint, time, signature, i);
    }
}

/// A transaction in which no balance of the mint changes yields no record:
/// where every row of the mint after the transaction reports the balance
/// that the table before it has for the same account, nothing is recorded.
pub proof fn lemma_unchanged_balances_yield_nothing(
    tx: Transaction,
    wallet: Seq<char>,
    mint: Seq<char>,
    time: Timestamp,
    signature: Seq<char>,
)
    requires
        tx.meta matches Some(meta) ==> forall|row: int|
            0 <= row < meta.post_token_balances@.len() && (
            #[trigger] meta.post_token_balances@[row]).mint@ == mint ==> delta(
                meta.post_token_balances@[row],
                meta.pre_token_balances@,
            ) == 0,
    ensures
        reconciled(tx, wallet, mint, time, signature).len() == 0,
{
    if reconciled(tx, wallet, mint, time, signature).len() > 0 {
        let row = lemma_record_has_a_row(tx, wallet, mint, time, signature, 0);
        assert(tx.meta->Some_0.post_token_balances@[row].mint@ == mint);
    }
}

/// An account that the table before the transaction does not list in the
/// mint counts from zero: the change of a row for it is its whole balance.
pub proof fn lemma_unlisted_account_counts_from_zero(entry: TokenBalance, pre: Seq<TokenBalance>)
    requires
        forall|j: int|
            0 <= j < pre.len() ==> !(#[trigger] pre[j]).is_for(entry.account_index, entry.mint@),
    ensures
        balance_before(pre, entry.account_index, entry.mint@) == 0,
        delta(entry, pre) == entry.units(),
    decreases pre.len(),
{
    if pre.len() > 0 {
        assert(!pre[0].is_for(entry.account_index, entry.mint@));
        assert forall|j: int| 0 <= j < pre.drop_first().len() implies !(
        #[trigger] pre.drop_first()[j]).is_for(entry.account_index, entry.mint@) by {
            assert(pre.drop_first()[j] == pre[j + 1]);
        }
        lemma_unlisted_account_counts_from_zero(entry, pre.drop_first());
    }
}

/// The attribution rule at its boundary: a change in the mint on an account
/// that the wallet does not own is recorded where the wallet signed the
/// transaction, and is not recorded where it did not.
pub proof fn lemma_signer_is_attributed_without_ownership(
    entry: TokenBalance,
    pre: Seq<TokenBalance>,
    wallet: Seq<char>,
    mint: Seq<char>,
    time: Timestamp,
    signature: Seq<char>,
)
    requires
        entry.mint@ == mint,
        delta(entry, pre) != 0,
        !entry.owned_by(wallet),
    ensures
        record_of(entry, pre, true, wallet, mint, time, signature) is Some,
        record_of(entry, pre, false, wallet, mint, time, signature) is None,
{
}

/// A transaction whose table after it holds two rows of the mint, both on
/// accounts of the wallet, the first with a gain and the second with a loss,
/// yields exactly two records: one received and one sent, each of the size
/// of its change.
pub proof fn lemma_gain_and_loss_yield_two_records(
    tx: Transaction,
    wallet: Seq<char>,
    mint: Seq<char>,
    time: Timestamp,
    signature: Seq<char>,
)
    requires
        tx.meta is Some,
        tx.meta->Some_0.post_token_balances@.len() == 2,
        tx.meta->Some_0.post_token_balances@[0].mint@ == mint,
        tx.meta->Some_0.post_token_balances@[1].mint@ == mint,
        tx.meta->Some_0.post_token_balances@[0].owned_by(wallet),
        tx.meta->Some_0.post_token_balances@[1].owned_by(wallet),
        delta(tx.meta->Some_0.post_token_balances@[0], tx.meta->Some_0.pre_token_balances@) > 0,
        delta(tx.meta->Some_0.post_token_balances@[1], tx.meta->Some_0.pre_token_balances@) < 0,
    ensures
        ({
            let meta = tx.meta->Some_0;
            let gain = meta.post_token_balances@[0];
            let loss = meta.post_token_balances@[1];
            reconciled(tx, wallet, mint, time, signature) == seq![
                TransferRecordView {
                    signature,
                    timestamp: time,
                    direction: Direction::Received,
                    amount: delta(gain, meta.pre_token_balances@) as u64,
                    decimals: gain.decimals,
                },
                TransferRecordView {
                    signature,
                    timestamp: time,
                    direction: Direction::Sent,
                    amount: (-delta(loss, meta.pre_token_balances@)) as u64,
                    decimals: loss.decimals,
                },
            ]
        }),
{
    let post = tx.meta->Some_0.post_token_balances@;
    let yields = recording(tx, wallet, mint, time, signature);
    post.lemma_filter_map_take_succ(yields, 0);
    post.lemma_filter_map_take_succ(yields, 1);
    assert(post.take(0).filter_map(yields) =~= Seq::empty());
    assert(post.take(2) == post);
}

} // verus!
