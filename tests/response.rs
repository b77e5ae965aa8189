use hyperfuel_node::response::{
    Block, LogContext, LogResponse, QueryResponseTyped, Receipt, Transaction, WireBlock,
    WireLogContext, WireLogResponse, WireQueryResponse, WireReceipt, WireResponseData,
    WireTransaction,
};

#[test]
fn receipt_amount_max_is_exact() {
    let w = WireReceipt {
        amount: Some(u64::MAX),
        tx_id: vec![0xde, 0xad],
        receipt_index: u64::MAX,
        pc: Some(u64::MAX),
        ra: Some(1),
        ..WireReceipt::default()
    };
    let r = Receipt::from_wire(&w);
    let amount = r.amount.unwrap();
    assert!(!amount.sign_bit);
    assert_eq!(amount.words, vec![18446744073709551615u64]);
    assert_eq!(r.receipt_index, -1);
    assert_eq!(r.tx_id, "dead");
    assert_eq!(r.pc, Some("18446744073709551615".to_string()));
    assert_eq!(r.ra.unwrap().words, vec![1]);
    assert!(r.rb.is_none());
    assert!(r.digest.is_none());
}

#[test]
fn block_fields_follow_their_policies() {
    let w = WireBlock {
        id: vec![0xAB; 32],
        height: 42,
        time: 1 << 63,
        transactions_count: vec![0x01, 0x00],
        ..WireBlock::default()
    };
    let b = Block::from_wire(&w);
    assert_eq!(b.id, "ab".repeat(32));
    assert_eq!(b.height, 42);
    assert_eq!(b.time, i64::MIN);
    assert_eq!(b.transactions_count, "0100");
    assert_eq!(b.prev_root, "");
}

#[test]
fn transaction_optional_fields_stay_absent() {
    let w = WireTransaction {
        id: vec![1, 2, 3],
        input_asset_ids: Some(vec![vec![0xff], vec![0x00, 0x10]]),
        mint_amount: Some(5),
        mint_gas_price: Some(9),
        reason: Some("out of gas".to_string()),
        tx_type: 2,
        status: 1,
        ..WireTransaction::default()
    };
    let t = Transaction::from_wire(&w);
    assert_eq!(t.id, "010203");
    assert_eq!(t.input_asset_ids, Some(vec!["ff".to_string(), "0010".to_string()]));
    assert_eq!(t.input_contracts, None);
    assert_eq!(t.mint_amount, Some(5));
    assert_eq!(t.mint_gas_price, Some(9));
    assert_eq!(t.reason, Some("out of gas".to_string()));
    assert_eq!(t.tx_type, 2);
    assert_eq!(t.status, 1);
    assert_eq!(t.salt, None);
}

#[test]
fn absent_height_stays_absent() {
    let w = WireQueryResponse {
        archive_height: None,
        next_block: 77,
        total_execution_time: 3,
        data: WireResponseData { blocks: vec![WireBlock::default()], ..WireResponseData::default() },
    };
    let r = QueryResponseTyped::from_wire(&w).unwrap();
    assert_eq!(r.archive_height, None);
    assert_eq!(r.next_block, 77);
    assert_eq!(r.total_execution_time, 3);
    assert_eq!(r.data.blocks.len(), 1);
    assert!(r.data.receipts.is_empty());
    let w = WireQueryResponse { archive_height: Some(u64::MAX), ..WireQueryResponse::default() };
    assert_eq!(QueryResponseTyped::from_wire(&w).unwrap().archive_height, Some(-1));
}

#[test]
fn log_context_widens_each_present_register() {
    let c = WireLogContext {
        block_height: 9,
        tx_id: vec![0x0a],
        receipt_type: 6,
        ra: Some(u64::MAX),
        rc: Some(4),
        data: Some(vec![0xbe, 0xef]),
        ..WireLogContext::default()
    };
    let w = WireLogResponse { archive_height: Some(10), next_block: 11, total_execution_time: 1, data: vec![c] };
    let r = LogResponse::from_wire(&w).unwrap();
    let l: &LogContext = &r.data[0];
    assert_eq!(r.archive_height, Some(10));
    assert_eq!(l.block_height, 9);
    assert_eq!(l.tx_id, "0a");
    assert_eq!(l.receipt_type, 6);
    assert_eq!(l.ra, Some(-1));
    assert_eq!(l.rb, None);
    assert_eq!(l.rc, Some(4));
    assert_eq!(l.pc, None);
    assert_eq!(l.data, Some("beef".to_string()));
}

#[test]
fn byte_fields_are_checked_before_rendering() {
    let w = WireTransaction { input_asset_ids: Some(vec![vec![1], vec![2, 3]]), ..WireTransaction::default() };
    assert!(w.check_hex_fits());
    assert!(WireBlock::default().check_hex_fits());
}
