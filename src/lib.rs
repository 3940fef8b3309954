//! Validation of proposed blocks: every transaction of a proposal is
//! classified against the decryption order fixed by the previous block and
//! against the fee payer's balance, and the per-transaction outcomes are
//! folded into a single accept/reject verdict.

mod digest;
mod shell;
mod types;

pub use digest::{hex_char, hex_upper, implicit_address, sha256_of, tx_hash_hex};
pub use shell::{
    aggregate, balance_from, classify, classify_decrypted, classify_wrapper, cursor_after,
    decrypted_before, decrypted_correctly, extra_decrypted_rejected, fee_payer_of,
    insufficient_balance_rejected, invalid_order_advances, is_checked_decrypted, msg_bad_ciphertext,
    msg_decrypted_accepted, msg_extra, msg_insufficient, msg_invalid_order, msg_mislabelled,
    msg_not_deserializable, msg_protocol, msg_raw, msg_wrapper_accepted, raw_always_invalid,
    rerun_identical, results_match, step_cursor, Balance, Shell,
};
pub use types::{
    DecryptedTx, ErrorCodes, ProcessProposal, ProposalStatus, Tx, TxInQueue, TxResult, TxType,
    WrapperTx,
};
