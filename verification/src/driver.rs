//! The indexing run, as a machine that the caller drives.
//!
//! A run needs two things from the ledger: the signature list of the wallet,
//! and the transaction behind each signature that passes the window. The
//! library fetches neither itself. [`index_usdc_transfers`] validates the
//! inputs and begins the run; from then on each [`Progress`] either names
//! the one thing to fetch next, to be handed to [`Query::scan`] or to
//! [`Pending::resume`], or ends the run. Entries outside the window are
//! passed over without a fetch.

use vstd::prelude::*;
use crate::codec::{
    address_decoding, address_encoding, parse_address, signature_encoding, Address, Signature,
};
use crate::model::{
    record_views, IndexError, SignatureInfo, Timestamp, Transaction, TransferRecord,
    TransferRecordView,
};
use crate::reconcile::{lemma_reconciled_records, process_transaction, reconciled};
use crate::window::{entry_screening, screen_entry, Screening};

verus! {

/// The most signatures that a run asks the ledger for. A longer history is
/// cut to its most recent entries by the ledger.
pub const SIGNATURE_LIMIT: usize = 5000;

/// The validated inputs of a run.
#[derive(Clone, Copy, Debug, PartialEq, Eq)]
pub struct Query {
    pub wallet: Address,
    pub mint: Address,
    pub start_time: Timestamp,
    pub end_time: Timestamp,
}

/// The signature list that a run needs: the most recent `limit` signatures
/// of `address`, most recent first.
#[derive(Clone, Copy, Debug, PartialEq, Eq)]
pub struct ListRequest {
    pub address: Address,
    pub limit: usize,
}

/// Every record lies in the window from `start` to `end`.
pub open spec fn all_within(
    records: Seq<TransferRecordView>,
    start: Timestamp,
    end: Timestamp,
) -> bool {
    forall|i: int| 0 <= i < records.len() ==> (#[trigger] records[i]).timestamp.within(start, end)
}

/// Every record moves at least one base unit.
pub open spec fn all_positive(records: Seq<TransferRecordView>) -> bool {
    forall|i: int| 0 <= i < records.len() ==> (#[trigger] records[i]).amount > 0
}

/// Where a scan of a signature list comes to a halt.
pub enum Halt {
    /// Every remaining entry is passed over.
    Exhausted,
    /// The entry at `position` is the next to be fetched.
    Candidate { position: int, signature: Signature, time: Timestamp },
    /// A malformed entry fails the run.
    Rejected(IndexError),
}

/// The halt of a scan of `signatures` that starts at position `from`: the
/// first entry from there on that is not passed over decides.
pub open spec fn next_halt(
    signatures: Seq<SignatureInfo>,
    from: int,
    start: Timestamp,
    end: Timestamp,
) -> Halt
    decreases signatures.len() - from,
{
    if from < 0 || from >= signatures.len() {
        Halt::Exhausted
    } else {
        match entry_screening(signatures[from], start, end) {
            Screening::Skip(_) => next_halt(signatures, from + 1, start, end),
            Screening::Fetch { signature, time } => Halt::Candidate {
                position: from,
                signature,
                time,
            },
            Screening::Reject(e) => Halt::Rejected(e),
        }
    }
}

/// A run that waits for one transaction.
#[derive(Debug)]
pub struct Pending {
    query: Query,
    signatures: Vec<SignatureInfo>,
    position: usize,
    signature: Signature,
    time: Timestamp,
    transfers: Vec<TransferRecord>,
}

/// What a [`Pending`] run holds, as mathematical values.
pub struct PendingView {
    /// The inputs of the run.
    pub query: Query,
    /// The signature list, as delivered.
    pub signatures: Seq<SignatureInfo>,
    /// The position in the list of the entry whose transaction is awaited.
    pub position: int,
    /// The signature of that entry.
    pub signature: Signature,
    /// The block time of that entry.
    pub time: Timestamp,
    /// The records of the transactions reconciled so far.
    pub transfers: Seq<TransferRecordView>,
}

impl PendingView {
    /// The awaited entry is one of the list and passed the screening, and
    /// the records so far lie in the window and move at least one unit.
    pub open spec fn well_formed(self) -> bool {
        &&& 0 <= self.position < self.signatures.len()
        &&& entry_screening(
            self.signatures[self.position],
            self.query.start_time,
            self.query.end_time,
        ) == (Screening::Fetch { signature: self.signature, time: self.time })
        &&& all_within(self.transfers, self.query.start_time, self.query.end_time)
        &&& all_positive(self.transfers)
    }
}

impl View for Pending {
    type V = PendingView;

    closed spec fn view(&self) -> PendingView {
        PendingView {
            query: self.query,
            signatures: self.signatures@,
            position: self.position as int,
            signature: self.signature,
            time: self.time,
            transfers: record_views(self.transfers@),
        }
    }
}

/// Where a run stands after a step.
#[derive(Debug)]
pub enum Progress {
    /// The signature list that [`Query::listing`] describes is to be fetched
    /// and handed to [`Query::scan`].
    List(Query),
    /// The transaction of the pending entry is to be fetched and handed to
    /// [`Pending::resume`].
    Fetch(Pending),
    /// The run is complete; these are its records, in the order of the
    /// signature list, and within a transaction in the order of its table.
    Done(Vec<TransferRecord>),
    /// The run has failed.
    Failed(IndexError),
}

/// What a [`Progress`] holds, as mathematical values.
pub enum ProgressView {
    /// The signature list is awaited.
    List(Query),
    /// One transaction is awaited.
    Fetch(PendingView),
    /// The run is complete, with these records.
    Done(Seq<TransferRecordView>),
    /// The run has failed.
    Failed(IndexError),
}

impl View for Progress {
    type V = ProgressView;

    open spec fn view(&self) -> ProgressView {
        match self {
            Progress::List(query) => ProgressView::List(*query),
            Progress::Fetch(pending) => ProgressView::Fetch(pending@),
            Progress::Done(records) => ProgressView::Done(record_views(records@)),
            Progress::Failed(e) => ProgressView::Failed(*e),
        }
    }
}

impl ProgressView {
    /// The step belongs to a run of `query`; a pending run is well formed;
    /// and the records of a complete run lie in the window and move at
    /// least one unit each.
    pub open spec fn sound_for(self, query: Query) -> bool {
        match self {
            ProgressView::List(listed) => listed == query,
            ProgressView::Fetch(pending) => pending.query == query && pending.well_formed(),
            ProgressView::Done(records) => all_within(records, query.start_time, query.end_time)
                && all_positive(records),
            ProgressView::Failed(_) => true,
        }
    }
}

/// Where a run of `query` over `signatures` stands once the entries before
/// `from` are dealt with and `transfers` are the records so far.
pub open spec fn progress_from(
    query: Query,
    signatures: Seq<SignatureInfo>,
    transfers: Seq<TransferRecordView>,
    from: int,
) -> ProgressView {
    match next_halt(signatures, from, query.start_time, query.end_time) {
        Halt::Exhausted => ProgressView::Done(transfers),
        Halt::Candidate { position, signature, time } => ProgressView::Fetch(
            PendingView { query, signatures, position, signature, time, transfers },
        ),
        Halt::Rejected(e) => ProgressView::Failed(e),
    }
}

/// The records that the transaction `tx`, fetched for `signature` at `time`,
/// adds to a run of `query`.
pub open spec fn records_for(
    query: Query,
    tx: Transaction,
    signature: Signature,
    time: Timestamp,
) -> Seq<TransferRecordView> {
    reconciled(
        tx,
        address_encoding(query.wallet.bytes@),
        address_encoding(query.mint.bytes@),
        time,
        signature_encoding(signature.bytes@),
    )
}

/// Where the pending run stands once `tx` has been delivered for its entry.
pub open spec fn resumed(pending: PendingView, tx: Transaction) -> ProgressView {
    progress_from(
        pending.query,
        pending.signatures,
        pending.transfers + records_for(pending.query, tx, pending.signature, pending.time),
        pending.position + 1,
    )
}

impl Query {
    /// Validates the inputs of a run. The wallet and the mint are given in
    /// base58 text.
    ///
    /// Fails with [`IndexError::InvalidAddress`] exactly where one of the
    /// two does not decode; the bounds of the window are taken as they are.
    pub fn new(wallet: &str, usdc_mint: &str, start_time: Timestamp, end_time: Timestamp) -> (r:
        Result<Query, IndexError>)
        ensures
            match r {
                Ok(query) => {
                    &&& address_decoding(wallet@) == Some(query.wallet.bytes@)
                    &&& address_decoding(usdc_mint@) == Some(query.mint.bytes@)
                    &&& query.start_time == start_time
                    &&& query.end_time == end_time
                },
                Err(e) => {
                    &&& e == IndexError::InvalidAddress
                    &&& (address_decoding(wallet@) is None || address_decoding(usdc_mint@) is None)
                },
            },
    {
        let wallet = match parse_address(wallet) {
            Ok(address) => address,
            Err(e) => {
                return Err(e);
            },
        };
        let mint = match parse_address(usdc_mint) {
            Ok(address) => address,
            Err(e) => {
                return Err(e);
            },
        };
        Ok(Query { wallet, mint, start_time, end_time })
    }

    /// The signature list that the run needs.
    pub fn listing(&self) -> (r: ListRequest)
        ensures
            r.address == self.wallet,
            r.limit == SIGNATURE_LIMIT,
    {
        ListRequest { address: self.wallet, limit: SIGNATURE_LIMIT }
    }

    /// Takes the signature list and goes through it up to the first entry
    /// that is to be fetched.
    pub fn scan(self, signatures: Vec<SignatureInfo>) -> (r: Progress)
        ensures
            r@ == progress_from(self, signatures@, Seq::empty(), 0),
            r@.sound_for(self),
    {
        let transfers: Vec<TransferRecord> = Vec::new();
        assert(record_views(transfers@) =~= Seq::empty());
        advance(self, signatures, transfers, 0)
    }
}

/// Begins the indexing of the transfers of `usdc_mint` that `wallet` made or
/// received between `start_time` and `end_time`, both ends counted in. The
/// wallet and the mint are given in base58 text.
///
/// Where both decode, the run stands at the listing of the wallet's
/// signatures; where one does not, it has failed with
/// [`IndexError::InvalidAddress`] before anything is asked of the ledger.
pub fn index_usdc_transfers(
    wallet: &str,
    usdc_mint: &str,
    start_time: Timestamp,
    end_time: Timestamp,
) -> (r: Progress)
    ensures
        match r@ {
            ProgressView::List(query) => {
                &&& address_decoding(wallet@) == Some(query.wallet.bytes@)
                &&& address_decoding(usdc_mint@) == Some(query.mint.bytes@)
                &&& query.start_time == start_time
                &&& query.end_time == end_time
            },
            ProgressView::Failed(e) => {
                &&& e == IndexError::InvalidAddress
                &&& (address_decoding(wallet@) is None || address_decoding(usdc_mint@) is None)
            },
            _ => false,
        },
{
    match Query::new(wallet, usdc_mint, start_time, end_time) {
        Ok(query) => Progress::List(query),
        Err(e) => Progress::Failed(e),
    }
}

impl Pending {
    #[verifier::type_invariant]
    closed spec fn inv(&self) -> bool {
        self@.well_formed()
    }

    /// The signature of the transaction that the run waits for.
    pub fn signature(&self) -> (r: Signature)
        ensures
            r == self@.signature,
    {
        self.signature
    }

    /// The block time of the transaction that the run waits for.
    pub fn time(&self) -> (r: Timestamp)
        ensures
            r == self@.time,
            r.within(self@.query.start_time, self@.query.end_time),
    {
        proof {
            use_type_invariant(self);
        }
        self.time
    }

    /// Takes the fetched transaction, adds its records to those of the run,
    /// and goes on through the signature list up to the next entry that is
    /// to be fetched.
    pub fn resume(self, tx: &Transaction) -> (r: Progress)
        ensures
            r@ == resumed(self@, *tx),
            r@.sound_for(self@.query),
    {
        proof {
            use_type_invariant(&self);
        }
        let Pending { query, signatures, position, signature, time, transfers } = self;
        assert(position < signatures.len());
        let next: usize = position + 1;
        let mut transfers = transfers;
        let ghost before = record_views(transfers@);
        let mut found = process_transaction(tx, &query.wallet, &query.mint, time, &signature);
        let ghost added = record_views(found@);
        proof {
            lemma_reconciled_records(
                *tx,
                address_encoding(query.wallet.bytes@),
                address_encoding(query.mint.bytes@),
                time,
                signature_encoding(signature.bytes@),
            );
        }
        transfers.append(&mut found);
        assert(record_views(transfers@) =~= before + added);
        advance(query, signatures, transfers, next)
    }
}

/// Goes through `signatures` from position `from` up to the first entry that
/// is not passed over.
fn advance(
    query: Query,
    signatures: Vec<SignatureInfo>,
    transfers: Vec<TransferRecord>,
    from: usize,
) -> (r: Progress)
    requires
        from <= signatures.len(),
        all_within(record_views(transfers@), query.start_time, query.end_time),
        all_positive(record_views(transfers@)),
    ensures
        r@ == progress_from(query, signatures@, record_views(transfers@), from as int),
        r@.sound_for(query),
{
    let mut i: usize = from;
    while i < signatures.len()
        invariant
            from <= i <= signatures.len(),
            next_halt(signatures@, from as int, query.start_time, query.end_time) == next_halt(
                signatures@,
                i as int,
                query.start_time,
                query.end_time,
            ),
            all_within(record_views(transfers@), query.start_time, query.end_time),
            all_positive(record_views(transfers@)),
        decreases signatures.len() - i,
    {
        match screen_entry(&signatures[i], query.start_time, query.end_time) {
            Screening::Skip(_) => {
                i += 1;
            },
            Screening::Fetch { signature, time } => {
                return Progress::Fetch(
                    Pending { query, signatures, position: i, signature, time, transfers },
                );
            },
            Screening::Reject(e) => {
                return Progress::Failed(e);
            },
        }
    }
    Progress::Done(transfers)
}

/// What a scan halts at, said without recursion: every entry from `from` up
/// to the halt is passed over, and the entry at the halt is the first that
/// is not. A candidate lies in the window, so no transaction outside the
/// window is ever asked for.
pub proof fn lemma_next_halt(
    signatures: Seq<SignatureInfo>,
    from: int,
    start: Timestamp,
    end: Timestamp,
)
    requires
        0 <= from,
    ensures
        match next_halt(signatures, from, start, end) {
            Halt::Exhausted => forall|k: int|
                from <= k < signatures.len() ==> #[trigger] entry_screening(
                    signatures[k],
                    start,
                    end,
                ) is Skip,
            Halt::Candidate { position, signature, time } => {
                &&& from <= position < signatures.len()
                &&& entry_screening(signatures[position], start, end) == (Screening::Fetch {
                    signature,
                    time,
                })
                &&& time.within(start, end)
                &&& forall|k: int|
                    from <= k < position ==> #[trigger] entry_screening(
                        signatures[k],
                        start,
                        end,
                    ) is Skip
            },
            Halt::Rejected(e) => exists|position: int|
                {
                    &&& from <= position < signatures.len()
                    &&& #[trigger] entry_screening(signatures[position], start, end)
                        == Screening::Reject(e)
                    &&& forall|k: int|
                        from <= k < position ==> #[trigger] entry_screening(
                            signatures[k],
                            start,
                            end,
                        ) is Skip
                },
        },
    decreases signatures.len() - from,
{
    if from < signatures.len() {
        match entry_screening(signatures[from], start, end) {
            Screening::Skip(_) => {
                lemma_next_halt(signatures, from + 1, start, end);
                match next_halt(signatures, from + 1, start, end) {
                    Halt::Rejected(e) => {
                        let position = choose|position: int|
                            {
                                &&& from + 1 <= position < signatures.len()
                                &&& #[trigger] entry_screening(signatures[position], start, end)
                                    == Screening::Reject(e)
                                &&& forall|k: int|
                                    from + 1 <= k < position ==> #[trigger] entry_screening(
                                        signatures[k],
                                        start,
                                        end,
                                    ) is Skip
                            };
                        assert(entry_screening(signatures[position], start, end)
                            == Screening::Reject(e));
                    },
                    _ => {},
                }
            },
            Screening::Fetch { .. } => {},
            Screening::Reject(e) => {
                assert(entry_screening(signatures[from], start, end) == Screening::Reject(e));
            },
        }
    }
}

/// The result of a run of `query` over the entries of `signatures` from
/// position `from` on, with `ledger` as the transaction behind each
/// signature and `transfers` as the records so far: the records of the
/// entries inside the window are appended in the order of the list, and the
/// first malformed entry fails the run.
pub open spec fn indexed_from(
    query: Query,
    signatures: Seq<SignatureInfo>,
    ledger: spec_fn(Signature) -> Transaction,
    transfers: Seq<TransferRecordView>,
    from: int,
) -> Result<Seq<TransferRecordView>, IndexError>
    decreases signatures.len() - from,
{
    if from < 0 || from >= signatures.len() {
        Ok(transfers)
    } else {
        match entry_screening(signatures[from], query.start_time, query.end_time) {
            Screening::Skip(_) => indexed_from(query, signatures, ledger, transfers, from + 1),
            Screening::Fetch { signature, time } => indexed_from(
                query,
                signatures,
                ledger,
                transfers + records_for(query, ledger(signature), signature, time),
                from + 1,
            ),
            Screening::Reject(e) => Err(e),
        }
    }
}

/// The result of a whole run of `query` over `signatures` against `ledger`.
pub open spec fn indexed(
    query: Query,
    signatures: Seq<SignatureInfo>,
    ledger: spec_fn(Signature) -> Transaction,
) -> Result<Seq<TransferRecordView>, IndexError> {
    indexed_from(query, signatures, ledger, Seq::empty(), 0)
}

/// The result that a run ends with from where it stands, if the listing is
/// answered with `signatures` and every fetch of a transaction from
/// `ledger`.
pub open spec fn outcome(
    progress: ProgressView,
    signatures: Seq<SignatureInfo>,
    ledger: spec_fn(Signature) -> Transaction,
) -> Result<Seq<TransferRecordView>, IndexError> {
    match progress {
        ProgressView::List(query) => indexed(query, signatures, ledger),
        ProgressView::Fetch(pending) => indexed_from(
            pending.query,
            pending.signatures,
            ledger,
            pending.transfers + records_for(
                pending.query,
                ledger(pending.signature),
                pending.signature,
                pending.time,
            ),
            pending.position + 1,
        ),
        ProgressView::Done(records) => Ok(records),
        ProgressView::Failed(e) => Err(e),
    }
}

/// Going through the list up to the next halt does not change the result.
proof fn lemma_progress_outcome(
    query: Query,
    signatures: Seq<SignatureInfo>,
    ledger: spec_fn(Signature) -> Transaction,
    transfers: Seq<TransferRecordView>,
    from: int,
)
    ensures
        outcome(progress_from(query, signatures, transfers, from), signatures, ledger)
            == indexed_from(query, signatures, ledger, transfers, from),
    decreases signatures.len() - from,
{
    if 0 <= from < signatures.len() {
        match entry_screening(signatures[from], query.start_time, query.end_time) {
            Screening::Skip(_) => {
                lemma_progress_outcome(query, signatures, ledger, transfers, from + 1);
            },
            _ => {},
        }
    }
}

/// A run is determined by its inputs and the ledger: each time a fetch is
/// answered from the ledger, the result that the run ends with stays what it
/// was. That holds of the step that takes the signature list, and of every
/// step that takes a transaction. So two runs of one query against one
/// ledger end with the same records in the same order, or with the same
/// error.
pub proof fn lemma_run_determined_by_ledger(
    query: Query,
    signatures: Seq<SignatureInfo>,
    ledger: spec_fn(Signature) -> Transaction,
    pending: PendingView,
)
    ensures
        outcome(progress_from(query, signatures, Seq::empty(), 0), signatures, ledger) == outcome(
            ProgressView::List(query),
            signatures,
            ledger,
        ),
        outcome(resumed(pending, ledger(pending.signature)), pending.signatures, ledger)
            == outcome(ProgressView::Fetch(pending), pending.signatures, ledger),
{
    lemma_progress_outcome(query, signatures, ledger, Seq::empty(), 0);
    lemma_progress_outcome(
        pending.query,
        pending.signatures,
        ledger,
        pending.transfers + records_for(
            pending.query,
            ledger(pending.signature),
            pending.signature,
            pending.time,
        ),
        pending.position + 1,
    );
}

/// Records within the window stay within it, and records that move at least
/// one unit stay so, whatever the rest of the list adds to them.
proof fn lemma_indexed_from_within_window(
    query: Query,
    signatures: Seq<SignatureInfo>,
    ledger: spec_fn(Signature) -> Transaction,
    transfers: Seq<TransferRecordView>,
    from: int,
)
    requires
        all_within(transfers, query.start_time, query.end_time),
        all_positive(transfers),
    ensures
        indexed_from(query, signatures, ledger, transfers, from) matches Ok(records) ==> all_within(
            records,
            query.start_time,
            query.end_time,
        ) && all_positive(records),
    decreases signatures.len() - from,
{
    if 0 <= from < signatures.len() {
        match entry_screening(signatures[from], query.start_time, query.end_time) {
            Screening::Skip(_) => {
                lemma_indexed_from_within_window(query, signatures, ledger, transfers, from + 1);
            },
            Screening::Fetch { signature, time } => {
                lemma_reconciled_records(
                    ledger(signature),
                    address_encoding(query.wallet.bytes@),
                    address_encoding(query.mint.bytes@),
                    time,
                    signature_encoding(signature.bytes@),
                );
                lemma_indexed_from_within_window(
                    query,
                    signatures,
                    ledger,
                    transfers + records_for(query, ledger(signature), signature, time),
                    from + 1,
                );
            },
            Screening::Reject(_) => {},
        }
    }
}

/// Every record of a whole run lies in the closed window of the query, and
/// moves at least one base unit.
pub proof fn lemma_indexed_within_window(
    query: Query,
    signatures: Seq<SignatureInfo>,
    ledger: spec_fn(Signature) -> Transaction,
)
    ensures
        indexed(query, signatures, ledger) matches Ok(records) ==> all_within(
            records,
            query.start_time,
            query.end_time,
        ) && all_positive(records),
{
    lemma_indexed_from_within_window(query, signatures, ledger, Seq::empty(), 0);
}

} // verus!
