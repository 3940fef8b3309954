use process_proposal::{
    implicit_address, Balance, DecryptedTx, ErrorCodes, ProposalStatus,
    Shell, Tx, TxInQueue, TxResult, TxType, WrapperTx,
};

const NATIVE_TOKEN: &[u8] = b"nam";
const SIGNATURE_ERROR: &str = "WrapperTx signature verification failed: Transaction doesn't have any data with a signature.";
const INSUFFICIENT: &str = "The address given does not have sufficient balance to pay fee";

fn new_shell() -> Shell {
    Shell {
        tx_queue: Vec::new(),
        balances: Vec::new(),
        wrapper_tx_fee: 100,
        masp_tx_pk: vec![0xAA; 33],
        masp_address: b"masp".to_vec(),
        mainnet: false,
    }
}

fn wrapper(fee: u64, pk: Vec<u8>) -> WrapperTx {
    WrapperTx { fee_token: NATIVE_TOKEN.to_vec(), fee_amount: fee, pk, epoch: 0, gas_limit: 0 }
}

fn wrapper_tx(w: WrapperTx, header_error: Option<String>) -> Tx {
    Tx {
        header: TxType::Wrapper(w),
        header_error,
        ciphertext_valid: true,
        has_valid_pow: false,
        bytes: b"wrapped tx bytes".to_vec(),
    }
}

fn decrypted_tx(d: DecryptedTx) -> Tx {
    Tx {
        header: TxType::Decrypted(d),
        header_error: None,
        ciphertext_valid: true,
        has_valid_pow: false,
        bytes: b"transaction data".to_vec(),
    }
}

fn queue_entry(fee: u64, inner_hash: Vec<u8>, decryptable: bool) -> TxInQueue {
    TxInQueue { wrapper: wrapper(fee, vec![1; 33]), inner_tx_hash: inner_hash, decryptable, has_valid_pow: false }
}

fn single(shell: &Shell, tx: Tx) -> (ProposalStatus, TxResult) {
    let response = shell.process_proposal(&vec![Some(tx)]);
    assert_eq!(response.tx_results.len(), 1);
    (response.status, response.tx_results[0].clone())
}

#[test]
fn test_unsigned_wrapper_rejected() {
    let shell = new_shell();
    let tx = wrapper_tx(wrapper(0, vec![1; 33]), Some(SIGNATURE_ERROR.to_string()));
    let (_, result) = single(&shell, tx);
    assert_eq!(result.code, u32::from(ErrorCodes::InvalidSig));
    assert_eq!(result.info, String::from(SIGNATURE_ERROR));
}

#[test]
fn test_wrapper_bad_signature_rejected() {
    let shell = new_shell();
    // the fee was lowered after signing, so the signature no longer covers the header
    let tx = wrapper_tx(wrapper(0, vec![1; 33]), Some(SIGNATURE_ERROR.to_string()));
    let (_, result) = single(&shell, tx);
    assert_eq!(result.code, u32::from(ErrorCodes::InvalidSig));
    assert!(
        result.info.contains(SIGNATURE_ERROR),
        "Result info {} doesn't contain the expected error {}",
        result.info,
        SIGNATURE_ERROR
    );
}

#[test]
fn test_wrapper_unknown_address() {
    let shell = new_shell();
    let tx = wrapper_tx(wrapper(1, vec![2; 33]), None);
    let (status, result) = single(&shell, tx);
    assert_eq!(result.code, u32::from(ErrorCodes::InvalidTx));
    assert_eq!(result.info, INSUFFICIENT.to_string());
    assert_eq!(status, ProposalStatus::Accept);
}

#[test]
fn test_wrapper_insufficient_balance_address() {
    let mut shell = new_shell();
    let pk = vec![3; 33];
    shell.balances.push(Balance { token: NATIVE_TOKEN.to_vec(), owner: implicit_address(&pk), amount: 99 });
    let tx = wrapper_tx(wrapper(100, pk), None);
    let (_, result) = single(&shell, tx);
    assert_eq!(result.code, u32::from(ErrorCodes::InvalidTx));
    assert_eq!(result.info, String::from(INSUFFICIENT));
}

#[test]
fn test_decrypted_txs_out_of_order() {
    let mut shell = new_shell();
    let mut txs = vec![];
    for i in 0..3u8 {
        let inner_hash = vec![i; 32];
        shell.enqueue_tx(queue_entry(i as u64, inner_hash.clone(), true));
        txs.push(decrypted_tx(DecryptedTx::Decrypted { header_hash: inner_hash }));
    }
    let (status_1, response_1) = single(&shell, txs[0].clone());
    assert_eq!(response_1.code, u32::from(ErrorCodes::Accepted));
    assert_eq!(status_1, ProposalStatus::Accept);

    let (status_2, response_2) = single(&shell, txs[2].clone());
    assert_eq!(status_2, ProposalStatus::Reject);
    assert_eq!(response_2.code, u32::from(ErrorCodes::InvalidOrder));
    assert_eq!(
        response_2.info,
        String::from(
            "Process proposal rejected a decrypted transaction that \
             violated the tx order determined in the previous block"
        ),
    );
}

#[test]
fn test_incorrectly_labelled_as_undecryptable() {
    let mut shell = new_shell();
    let inner_hash = vec![9; 32];
    shell.enqueue_tx(queue_entry(0, inner_hash.clone(), true));
    let tx = decrypted_tx(DecryptedTx::Undecryptable { header_hash: inner_hash });
    let (_, result) = single(&shell, tx);
    assert_eq!(result.code, u32::from(ErrorCodes::InvalidTx));
    assert_eq!(
        result.info,
        String::from("The encrypted payload of tx was incorrectly marked as un-decryptable"),
    )
}

#[test]
fn test_invalid_hash_commitment() {
    let mut shell = new_shell();
    let inner_hash = vec![0; 32];
    // the wrapped payload does not open, so marking it undecryptable is right
    shell.enqueue_tx(queue_entry(0, inner_hash.clone(), false));
    let tx = decrypted_tx(DecryptedTx::Undecryptable { header_hash: inner_hash });
    let (_, result) = single(&shell, tx);
    assert_eq!(result.code, u32::from(ErrorCodes::Accepted));
}

#[test]
fn test_too_many_decrypted_txs() {
    let shell = new_shell();
    let tx = decrypted_tx(DecryptedTx::Decrypted { header_hash: vec![0; 32] });
    let (status, result) = single(&shell, tx);
    assert_eq!(status, ProposalStatus::Reject);
    assert_eq!(result.code, u32::from(ErrorCodes::ExtraTxs));
    assert_eq!(result.info, String::from("Received more decrypted txs than expected"));
}

#[test]
fn test_raw_tx_rejected() {
    let shell = new_shell();
    let tx = Tx {
        header: TxType::Raw,
        header_error: None,
        ciphertext_valid: true,
        has_valid_pow: false,
        bytes: b"wasm_code transaction data".to_vec(),
    };
    let (_, result) = single(&shell, tx);
    assert_eq!(result.code, u32::from(ErrorCodes::InvalidTx));
    assert_eq!(
        result.info,
        String::from("Transaction rejected: Non-encrypted transactions are not supported"),
    );
}
