use crate::digest::{hex_upper, implicit_address, sha256_of, tx_hash_hex};
use crate::types::{
    DecryptedTx, ErrorCodes, ProcessProposal, ProposalStatus, Tx, TxInQueue, TxResult, TxType,
    WrapperTx,
};
use vstd::prelude::*;
use vstd::string::StringExecFns;

verus! {

/// The balance that `owner` holds of `token`.
#[derive(Clone, Debug)]
pub struct Balance {
    pub token: Vec<u8>,
    pub owner: Vec<u8>,
    pub amount: u64,
}

/// The committed state that a proposal is validated against.
#[derive(Clone, Debug)]
pub struct Shell {
    /// The decryption order fixed by the previous block.
    pub tx_queue: Vec<TxInQueue>,
    /// Committed balances; an owner with no entry for a token holds none of it.
    pub balances: Vec<Balance>,
    /// The fee that every wrapper transaction must be able to pay.
    pub wrapper_tx_fee: u64,
    /// The sentinel public key of shielded-pool transactions.
    pub masp_tx_pk: Vec<u8>,
    /// The address of the shielded pool, which pays for sentinel-keyed wrappers.
    pub masp_address: Vec<u8>,
    /// On a production network no proof-of-work may stand in for the fee.
    pub mainnet: bool,
}

/// The balance found at the first entry from index `i` on that matches
/// `token` and `owner`; zero when there is none.
pub open spec fn balance_from(b: Seq<Balance>, i: int, token: Seq<u8>, owner: Seq<u8>) -> u64
    decreases b.len() - i,
{
    if i < 0 || i >= b.len() {
        0
    } else if b[i].token@ == token && b[i].owner@ == owner {
        b[i].amount
    } else {
        balance_from(b, i + 1, token, owner)
    }
}

/// Who pays a wrapper's fee: the shielded pool for the sentinel key, else
/// the implicit address of the declared key.
pub open spec fn fee_payer_of(shell: Shell, w: WrapperTx) -> Seq<u8> {
    if w.pk@ == shell.masp_tx_pk@ {
        shell.masp_address@
    } else {
        sha256_of(w.pk@).subrange(0, 20)
    }
}

/// A decrypted transaction is labelled correctly when it claims to have been
/// opened exactly when the queued ciphertext opens.
pub open spec fn decrypted_correctly(d: DecryptedTx, entry: TxInQueue) -> bool {
    (d is Decrypted) == entry.decryptable
}

/// Whether the transaction is one that takes its place in the decryption
/// order: decoded, with a sound header, of the decrypted variant.
pub open spec fn is_checked_decrypted(tx: Option<Tx>) -> bool {
    match tx {
        Some(t) => t.header_error is None && t.header is Decrypted,
        None => false,
    }
}

pub open spec fn msg_not_deserializable() -> Seq<char> {
    "The submitted transaction was not deserializable"@
}

pub open spec fn msg_raw() -> Seq<char> {
    "Transaction rejected: Non-encrypted transactions are not supported"@
}

pub open spec fn msg_protocol() -> Seq<char> {
    "Protocol transactions are a fun new feature that is coming soon to a blockchain near you. Patience."@
}

pub open spec fn msg_invalid_order() -> Seq<char> {
    "Process proposal rejected a decrypted transaction that violated the tx order determined in the previous block"@
}

pub open spec fn msg_decrypted_accepted() -> Seq<char> {
    "Process Proposal accepted this transaction"@
}

pub open spec fn msg_mislabelled() -> Seq<char> {
    "The encrypted payload of tx was incorrectly marked as un-decryptable"@
}

pub open spec fn msg_extra() -> Seq<char> {
    "Received more decrypted txs than expected"@
}

pub open spec fn msg_bad_ciphertext(bytes: Seq<u8>) -> Seq<char> {
    "The ciphertext of the wrapped tx "@ + hex_upper(sha256_of(bytes)) + " is invalid"@
}

pub open spec fn msg_wrapper_accepted() -> Seq<char> {
    "Process proposal accepted this transaction"@
}

pub open spec fn msg_insufficient() -> Seq<char> {
    "The address given does not have sufficient balance to pay fee"@
}

/// The code and message of a decrypted transaction matched against the
/// queue entry at `cursor`.
pub open spec fn classify_decrypted(shell: Shell, d: DecryptedTx, cursor: nat) -> (u32, Seq<char>) {
    if cursor < shell.tx_queue@.len() {
        let entry = shell.tx_queue@[cursor as int];
        if entry.inner_tx_hash@ != d.spec_hash_commitment() {
            (4, msg_invalid_order())
        } else if decrypted_correctly(d, entry) {
            (0, msg_decrypted_accepted())
        } else {
            (1, msg_mislabelled())
        }
    } else {
        (5, msg_extra())
    }
}

/// The code and message of a wrapper transaction `t` with header `w`.
pub open spec fn classify_wrapper(shell: Shell, t: Tx, w: WrapperTx) -> (u32, Seq<char>) {
    if !t.ciphertext_valid {
        (1, msg_bad_ciphertext(t.bytes@))
    } else if (!shell.mainnet && t.has_valid_pow) || shell.wrapper_tx_fee <= balance_from(
        shell.balances@,
        0,
        w.fee_token@,
        fee_payer_of(shell, w),
    ) {
        (0, msg_wrapper_accepted())
    } else {
        (1, msg_insufficient())
    }
}

/// The code and message of one transaction, when the decryption order has
/// been consumed up to `cursor`.
pub open spec fn classify(shell: Shell, tx: Option<Tx>, cursor: nat) -> (u32, Seq<char>) {
    match tx {
        None => (1, msg_not_deserializable()),
        Some(t) => match t.header_error {
            Some(e) => (2, e@),
            None => match t.header {
                TxType::Raw => (1, msg_raw()),
                TxType::Protocol => (1, msg_protocol()),
                TxType::Decrypted(d) => classify_decrypted(shell, d, cursor),
                TxType::Wrapper(w) => classify_wrapper(shell, t, w),
            },
        },
    }
}

/// The cursor after one transaction: it moves past one queue entry for each
/// checked decrypted transaction, and never past the end of the queue.
pub open spec fn step_cursor(shell: Shell, tx: Option<Tx>, cursor: nat) -> nat {
    if is_checked_decrypted(tx) && cursor < shell.tx_queue@.len() {
        cursor + 1
    } else {
        cursor
    }
}

/// The cursor after the first `n` transactions of a proposal.
pub open spec fn cursor_after(shell: Shell, txs: Seq<Option<Tx>>, n: nat) -> nat
    decreases n,
{
    if n == 0 || n > txs.len() {
        0
    } else {
        step_cursor(shell, txs[n - 1], cursor_after(shell, txs, (n - 1) as nat))
    }
}

/// How many checked decrypted transactions stand among the first `n`.
pub open spec fn decrypted_before(txs: Seq<Option<Tx>>, n: nat) -> nat
    decreases n,
{
    if n == 0 || n > txs.len() {
        0
    } else {
        decrypted_before(txs, (n - 1) as nat) + if is_checked_decrypted(txs[n - 1]) {
            1nat
        } else {
            0nat
        }
    }
}

/// `rs` holds, in order, one result per transaction of `txs`, each the
/// classification of that transaction against the cursor its predecessors
/// left.
pub open spec fn results_match(shell: Shell, txs: Seq<Option<Tx>>, rs: Seq<TxResult>) -> bool {
    &&& rs.len() == txs.len()
    &&& forall|i: int|
        0 <= i < rs.len() ==> {
            let c = classify(shell, #[trigger] txs[i], cursor_after(shell, txs, i as nat));
            rs[i].code == c.0 && rs[i].info@ == c.1
        }
}

fn bytes_eq(a: &Vec<u8>, b: &Vec<u8>) -> (r: bool)
    ensures
        r == (a@ == b@),
{
    if a.len() != b.len() {
        return false;
    }
    let mut i: usize = 0;
    while i < a.len()
        invariant
            a@.len() == b@.len(),
            i <= a.len(),
            forall|j: int| 0 <= j < i ==> a@[j] == b@[j],
        decreases a.len() - i,
    {
        if a[i] != b[i] {
            return false;
        }
        i = i + 1;
    }
    assert(a@ =~= b@);
    true
}

fn tx_result(code: ErrorCodes, info: &str) -> (r: TxResult)
    ensures
        r.code == code.spec_code(),
        r.info@ == info@,
{
    TxResult { code: code.code(), info: String::from_str(info) }
}

impl Shell {
    /// The balance that `owner` holds of `token`.
    pub fn get_balance(&self, token: &Vec<u8>, owner: &Vec<u8>) -> (r: u64)
        ensures
            r == balance_from(self.balances@, 0, token@, owner@),
    {
        let mut i: usize = 0;
        while i < self.balances.len()
            invariant
                i <= self.balances@.len(),
                balance_from(self.balances@, 0, token@, owner@) == balance_from(
                    self.balances@,
                    i as int,
                    token@,
                    owner@,
                ),
            decreases self.balances.len() - i,
        {
            let entry = &self.balances[i];
            if bytes_eq(&entry.token, token) && bytes_eq(&entry.owner, owner) {
                return entry.amount;
            }
            i = i + 1;
        }
        0
    }

    /// The address that pays a wrapper's fee.
    pub fn fee_payer(&self, w: &WrapperTx) -> (r: Vec<u8>)
        ensures
            r@ == fee_payer_of(*self, *w),
    {
        if bytes_eq(&w.pk, &self.masp_tx_pk) {
            self.masp_address.clone()
        } else {
            implicit_address(&w.pk)
        }
    }

    fn check_decrypted(&self, d: &DecryptedTx, cursor: &mut usize) -> (r: TxResult)
        ensures
            ({
                let c = classify_decrypted(*self, *d, *old(cursor) as nat);
                r.code == c.0 && r.info@ == c.1
            }),
            *final(cursor) == if *old(cursor) < self.tx_queue@.len() {
                *old(cursor) + 1
            } else {
                *old(cursor) as int
            },
    {
        if *cursor < self.tx_queue.len() {
            let entry = &self.tx_queue[*cursor];
            *cursor = *cursor + 1;
            if !bytes_eq(&entry.inner_tx_hash, d.hash_commitment()) {
                tx_result(
                    ErrorCodes::InvalidOrder,
                    "Process proposal rejected a decrypted transaction that violated the tx order determined in the previous block",
                )
            } else if matches!(d, DecryptedTx::Decrypted { .. }) == entry.decryptable {
                tx_result(ErrorCodes::Accepted, "Process Proposal accepted this transaction")
            } else {
                tx_result(
                    ErrorCodes::InvalidTx,
                    "The encrypted payload of tx was incorrectly marked as un-decryptable",
                )
            }
        } else {
            tx_result(ErrorCodes::ExtraTxs, "Received more decrypted txs than expected")
        }
    }
    fn check_wrapper(&self, t: &Tx, w: &WrapperTx) -> (r: TxResult)
        ensures
            ({
                let c = classify_wrapper(*self, *t, *w);
                r.code == c.0 && r.info@ == c.1
            }),
    {
        if !t.ciphertext_valid {
            let mut info = String::from_str("The ciphertext of the wrapped tx ");
            let hash = tx_hash_hex(&t.bytes);
            info.append(hash.as_str());
            info.append(" is invalid");
            TxResult { code: ErrorCodes::InvalidTx.code(), info }
        } else {
            let payer = self.fee_payer(w);
            let balance = self.get_balance(&w.fee_token, &payer);
            // Off a production network a valid proof-of-work stands in for the fee.
            let has_valid_pow = !self.mainnet && t.has_valid_pow;
            if has_valid_pow || self.wrapper_tx_fee <= balance {
                tx_result(ErrorCodes::Accepted, "Process proposal accepted this transaction")
            } else {
                tx_result(
                    ErrorCodes::InvalidTx,
                    "The address given does not have sufficient balance to pay fee",
                )
            }
        }
    }

    /// Classifies one transaction of a proposal; `None` stands for bytes
    /// that did not decode. `cursor` is the position in the decryption
    /// order, shared by all transactions of the proposal: a checked
    /// decrypted transaction consumes the entry it stands at.
    pub fn process_single_tx(&self, tx: &Option<Tx>, cursor: &mut usize) -> (r: TxResult)
        ensures
            ({
                let c = classify(*self, *tx, *old(cursor) as nat);
                r.code == c.0 && r.info@ == c.1
            }),
            *final(cursor) == step_cursor(*self, *tx, *old(cursor) as nat),
    {
        match tx {
            None => tx_result(ErrorCodes::InvalidTx, "The submitted transaction was not deserializable"),
            Some(t) => match &t.header_error {
                Some(e) => TxResult { code: ErrorCodes::InvalidSig.code(), info: e.clone() },
                None => match &t.header {
                    TxType::Raw => tx_result(
                        ErrorCodes::InvalidTx,
                        "Transaction rejected: Non-encrypted transactions are not supported",
                    ),
                    TxType::Protocol => tx_result(
                        ErrorCodes::InvalidTx,
                        "Protocol transactions are a fun new feature that is coming soon to a blockchain near you. Patience.",
                    ),
                    TxType::Decrypted(d) => self.check_decrypted(d, cursor),
                    TxType::Wrapper(w) => self.check_wrapper(t, w),
                },
            },
        }
    }

    /// Classifies every transaction of a proposal, in order, against the
    /// whole decryption order.
    pub fn process_txs(&self, txs: &Vec<Option<Tx>>) -> (r: Vec<TxResult>)
        ensures
            results_match(*self, txs@, r@),
    {
        let mut results: Vec<TxResult> = Vec::new();
        let mut cursor: usize = 0;
        let mut i: usize = 0;
        while i < txs.len()
            invariant
                i <= txs@.len(),
                cursor == cursor_after(*self, txs@, i as nat),
                results@.len() == i,
                forall|j: int|
                    0 <= j < i ==> {
                        let c = classify(*self, #[trigger] txs@[j], cursor_after(*self, txs@, j as nat));
                        results@[j].code == c.0 && results@[j].info@ == c.1
                    },
            decreases txs.len() - i,
        {
            let r = self.process_single_tx(&txs[i], &mut cursor);
            results.push(r);
            i = i + 1;
        }
        results
    }

    /// Checks all transactions of a proposal and decides on the block: it is
    /// rejected exactly when some transaction breaks the decryption order or
    /// overruns it.
    pub fn process_proposal(&self, txs: &Vec<Option<Tx>>) -> (r: ProcessProposal)
        ensures
            results_match(*self, txs@, r.tx_results@),
            (r.status == ProposalStatus::Reject) <==> exists|i: int|
                0 <= i < r.tx_results@.len() && ((#[trigger] r.tx_results@[i]).code == 4
                    || r.tx_results@[i].code == 5),
    {
        let tx_results = self.process_txs(txs);
        proof {
            assert forall|i: int| 0 <= i < tx_results@.len() implies (#[trigger] tx_results@[i]).code
                <= 5 by {
                let c = classify(*self, txs@[i], cursor_after(*self, txs@, i as nat));
                assert(tx_results@[i].code == c.0);
            }
        }
        let status = aggregate(&tx_results);
        let r = ProcessProposal { status, tx_results };
        assert(r.tx_results@ == tx_results@);
        r
    }

    /// The stateless pre-check of a block header: it reads no state and
    /// rejects nothing.
    pub fn verify_header(&self) -> (r: bool)
        ensures
            r,
    {
        true
    }

    /// Called when the wider protocol rejects a proposal. Classification
    /// changes no state, so there is nothing to undo.
    pub fn revert_proposal(&mut self)
        ensures
            *final(self) == *old(self),
    {
    }

    /// Appends an entry to the decryption order.
    pub fn enqueue_tx(&mut self, entry: TxInQueue)
        ensures
            final(self).tx_queue@ == old(self).tx_queue@.push(entry),
            final(self).balances == old(self).balances,
            final(self).wrapper_tx_fee == old(self).wrapper_tx_fee,
            final(self).masp_tx_pk == old(self).masp_tx_pk,
            final(self).masp_address == old(self).masp_address,
            final(self).mainnet == old(self).mainnet,
    {
        self.tx_queue.push(entry);
    }
}

/// The verdict on a block: `Reject` exactly when some result carries a code
/// above 3.
pub fn aggregate(results: &Vec<TxResult>) -> (r: ProposalStatus)
    ensures
        (r == ProposalStatus::Reject) <==> exists|i: int|
            0 <= i < results@.len() && (#[trigger] results@[i]).code > 3,
{
    let mut i: usize = 0;
    while i < results.len()
        invariant
            i <= results@.len(),
            forall|j: int| 0 <= j < i ==> (#[trigger] results@[j]).code <= 3,
        decreases results.len() - i,
    {
        if results[i].code > 3 {
            return ProposalStatus::Reject;
        }
        i = i + 1;
    }
    ProposalStatus::Accept
}

/// A raw transaction whose header checks out is always rejected as invalid,
/// whatever its sections hold, and leaves the decryption order untouched.
pub proof fn raw_always_invalid(shell: Shell, t: Tx, cursor: nat)
    requires
        t.header is Raw,
        t.header_error is None,
    ensures
        classify(shell, Some(t), cursor) == (1u32, msg_raw()),
        step_cursor(shell, Some(t), cursor) == cursor,
{
}

/// A decrypted transaction whose hash commitment differs from that of the
/// next unconsumed queue entry breaks the order, and still consumes that entry.
pub proof fn invalid_order_advances(shell: Shell, t: Tx, cursor: nat)
    requires
        t.header_error is None,
        t.header is Decrypted,
        cursor < shell.tx_queue@.len(),
        shell.tx_queue@[cursor as int].inner_tx_hash@ != t.header->Decrypted_0.spec_hash_commitment(),
    ensures
        classify(shell, Some(t), cursor) == (4u32, msg_invalid_order()),
        step_cursor(shell, Some(t), cursor) == cursor + 1,
{
}

proof fn lemma_cursor_counts_decrypted(shell: Shell, txs: Seq<Option<Tx>>, n: nat)
    requires
        n <= txs.len(),
    ensures
        cursor_after(shell, txs, n) == if decrypted_before(txs, n) < shell.tx_queue@.len() {
            decrypted_before(txs, n)
        } else {
            shell.tx_queue@.len()
        },
    decreases n,
{
    if n > 0 {
        lemma_cursor_counts_decrypted(shell, txs, (n - 1) as nat);
    }
}

/// Once the checked decrypted transactions before it have used up the
/// queue, every further checked decrypted transaction is an extra one.
pub proof fn extra_decrypted_rejected(shell: Shell, txs: Seq<Option<Tx>>, i: int)
    requires
        0 <= i < txs.len(),
        is_checked_decrypted(txs[i]),
        decrypted_before(txs, i as nat) >= shell.tx_queue@.len(),
    ensures
        classify(shell, txs[i], cursor_after(shell, txs, i as nat)) == (5u32, msg_extra()),
{
    lemma_cursor_counts_decrypted(shell, txs, i as nat);
}

/// A sound wrapper without a usable proof-of-work whose payer holds less
/// than the fee is rejected for want of balance; the same wrapper against a
/// state that differs only in balances, where the payer holds at least the
/// fee, is accepted.
pub proof fn insufficient_balance_rejected(shell: Shell, richer: Shell, t: Tx, cursor: nat)
    requires
        t.header_error is None,
        t.header is Wrapper,
        t.ciphertext_valid,
        shell.mainnet || !t.has_valid_pow,
        balance_from(
            shell.balances@,
            0,
            t.header->Wrapper_0.fee_token@,
            fee_payer_of(shell, t.header->Wrapper_0),
        ) < shell.wrapper_tx_fee,
        richer.tx_queue@ == shell.tx_queue@,
        richer.wrapper_tx_fee == shell.wrapper_tx_fee,
        richer.masp_tx_pk@ == shell.masp_tx_pk@,
        richer.masp_address@ == shell.masp_address@,
        richer.mainnet == shell.mainnet,
        balance_from(
            richer.balances@,
            0,
            t.header->Wrapper_0.fee_token@,
            fee_payer_of(shell, t.header->Wrapper_0),
        ) >= shell.wrapper_tx_fee,
    ensures
        classify(shell, Some(t), cursor) == (1u32, msg_insufficient()),
        classify(richer, Some(t), cursor) == (0u32, msg_wrapper_accepted()),
{
}

/// Classifying the same proposal twice, each time against the unconsumed
/// decryption order of the same state, gives identical results.
pub proof fn rerun_identical(
    shell: Shell,
    txs: Seq<Option<Tx>>,
    first: Seq<TxResult>,
    second: Seq<TxResult>,
)
    requires
        results_match(shell, txs, first),
        results_match(shell, txs, second),
    ensures
        first.len() == second.len(),
        forall|i: int|
            0 <= i < first.len() ==> (#[trigger] first[i]).code == second[i].code
                && first[i].info@ == second[i].info@,
{
    assert forall|i: int| 0 <= i < first.len() implies (#[trigger] first[i]).code == second[i].code
        && first[i].info@ == second[i].info@ by {
        // brings index i of both result lists into view
        assert(txs[i] == txs[i]);
    }
}

} // verus!
