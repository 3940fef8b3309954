use vstd::prelude::*;

verus! {

/// The outcome codes of transaction validation, ordered by severity.
#[derive(Clone, Copy, Debug, PartialEq, Eq, Structural)]
pub enum ErrorCodes {
    Accepted,
    InvalidTx,
    InvalidSig,
    WasmRuntimeError,
    InvalidOrder,
    ExtraTxs,
}

impl ErrorCodes {
    /// The numeric code carried on the wire.
    pub open spec fn spec_code(self) -> u32 {
        match self {
            ErrorCodes::Accepted => 0,
            ErrorCodes::InvalidTx => 1,
            ErrorCodes::InvalidSig => 2,
            ErrorCodes::WasmRuntimeError => 3,
            ErrorCodes::InvalidOrder => 4,
            ErrorCodes::ExtraTxs => 5,
        }
    }

    pub fn code(&self) -> (r: u32)
        ensures
            r == self.spec_code(),
    {
        match self {
            ErrorCodes::Accepted => 0,
            ErrorCodes::InvalidTx => 1,
            ErrorCodes::InvalidSig => 2,
            ErrorCodes::WasmRuntimeError => 3,
            ErrorCodes::InvalidOrder => 4,
            ErrorCodes::ExtraTxs => 5,
        }
    }
}

impl From<ErrorCodes> for u32 {
    fn from(e: ErrorCodes) -> (r: u32) {
        e.code()
    }
}

impl vstd::std_specs::convert::FromSpecImpl<ErrorCodes> for u32 {
    open spec fn obeys_from_spec() -> bool {
        true
    }

    open spec fn from_spec(e: ErrorCodes) -> u32 {
        e.spec_code()
    }
}

/// The outcome of validating one transaction.
#[derive(Clone, Debug)]
pub struct TxResult {
    pub code: u32,
    pub info: String,
}

/// The block-level verdict.
#[derive(Clone, Copy, Debug, PartialEq, Eq, Structural)]
pub enum ProposalStatus {
    Accept,
    Reject,
}

/// The answer to a block proposal: the verdict and one result per transaction.
#[derive(Clone, Debug)]
pub struct ProcessProposal {
    pub status: ProposalStatus,
    pub tx_results: Vec<TxResult>,
}

/// An encrypted transaction together with its fee specification.
#[derive(Clone, Debug)]
pub struct WrapperTx {
    /// The token in which the fee is paid.
    pub fee_token: Vec<u8>,
    /// The fee amount that the wrapper declares.
    pub fee_amount: u64,
    /// The public key of the party paying the fee.
    pub pk: Vec<u8>,
    pub epoch: u64,
    pub gas_limit: u64,
}

/// The revealed form of a wrapped transaction.
#[derive(Clone, Debug)]
pub enum DecryptedTx {
    /// Successfully opened; commits to the header hash of the revealed transaction.
    Decrypted { header_hash: Vec<u8> },
    /// Marked as having failed to open; commits to the wrapped transaction's header hash.
    Undecryptable { header_hash: Vec<u8> },
}

impl DecryptedTx {
    pub open spec fn spec_hash_commitment(&self) -> Seq<u8> {
        match self {
            DecryptedTx::Decrypted { header_hash } => header_hash@,
            DecryptedTx::Undecryptable { header_hash } => header_hash@,
        }
    }

    /// The header hash this transaction claims to reveal.
    pub fn hash_commitment(&self) -> (r: &Vec<u8>)
        ensures
            r@ == self.spec_hash_commitment(),
    {
        match self {
            DecryptedTx::Decrypted { header_hash } => header_hash,
            DecryptedTx::Undecryptable { header_hash } => header_hash,
        }
    }
}

/// The header variant of a transaction.
#[derive(Clone, Debug)]
pub enum TxType {
    Raw,
    Protocol,
    Wrapper(WrapperTx),
    Decrypted(DecryptedTx),
}

/// A decoded transaction, with the outcomes of the cryptographic checks that
/// are made on it outside this library.
#[derive(Clone, Debug)]
pub struct Tx {
    pub header: TxType,
    /// `None` when the header's signature and commitments check out, else
    /// the description of the failure.
    pub header_error: Option<String>,
    /// Whether the ciphertext of a wrapper is well formed.
    pub ciphertext_valid: bool,
    /// Whether the transaction carries a valid proof-of-work solution.
    pub has_valid_pow: bool,
    /// The wire bytes the transaction was decoded from.
    pub bytes: Vec<u8>,
}

/// An entry of the decryption order fixed by the previous block.
#[derive(Clone, Debug)]
pub struct TxInQueue {
    pub wrapper: WrapperTx,
    /// The header hash of the wrapped inner transaction.
    pub inner_tx_hash: Vec<u8>,
    /// Whether the wrapped ciphertext opens with the block's decryption key.
    pub decryptable: bool,
    pub has_valid_pow: bool,
}

} // verus!
