use hyperfuel_node::query::{
    deserialize, serialize, FieldSelection, InputSelection, MalformedQuery, NetQuery,
    OutputSelection, Query, ReceiptSelection,
};

fn hash_text(byte: &str) -> String {
    format!("0x{}", byte.repeat(32))
}

fn register_selection() -> ReceiptSelection {
    ReceiptSelection {
        root_contract_id: None,
        to_address: None,
        asset_id: None,
        receipt_type: None,
        sender: None,
        recipient: None,
        contract_id: None,
        ra: Some(vec!["1234".into()]),
        rb: Some(vec!["21".into(), "9999999999".into()]),
        rc: Some(vec![format!("{}", u64::MAX)]),
        rd: None,
    }
}

#[test]
fn test_serialization_of_receipt_selection() {
    let selection = register_selection();

    let ra = deserialize(&serialize(&selection.ra));
    let rb = deserialize(&serialize(&selection.rb));
    let rc = deserialize(&serialize(&selection.rc));
    let rd = deserialize(&serialize(&selection.rd));

    assert_eq!(ra, Some(vec!["1234".into()]));
    assert_eq!(rb, Some(vec!["21".into(), "9999999999".into()]));
    assert_eq!(rc, Some(vec![format!("{}", u64::MAX)]));
    assert_eq!(rd, None);
}

#[test]
fn test_serialization_into_net_types() {
    let selection = register_selection();

    let net_type = selection.to_net().unwrap();

    assert_eq!(net_type.ra, vec![1234]);
    assert_eq!(net_type.rb, vec![21, 9999999999]);
    assert_eq!(net_type.rc, vec![u64::MAX]);
}

#[test]
fn unreadable_register_values_become_zero() {
    let v = Some(vec!["abc".to_string(), "".to_string(), "18446744073709551616".to_string(), "+12".to_string(), "-1".to_string()]);
    assert_eq!(serialize(&v), Some(vec![0, 0, 0, 12, 0]));
}

#[test]
fn register_max_survives_normalize_and_echo() {
    let mut selection = ReceiptSelection::default();
    selection.ra = Some(vec!["18446744073709551615".to_string()]);
    let q = Query { receipts: Some(vec![selection]), ..Query::default() };
    let net = q.try_convert().unwrap();
    assert_eq!(net.receipts[0].ra, vec![u64::MAX]);
    let back = Query::try_from(&net).unwrap();
    let ra = back.receipts.unwrap()[0].ra.clone();
    assert_eq!(ra, Some(vec!["18446744073709551615".to_string()]));
}

#[test]
fn open_range_normalizes_without_upper_bound() {
    let q = Query { from_block: 7, to_block: None, ..Query::default() };
    let net = q.try_convert().unwrap();
    assert_eq!(net.from_block, 7);
    assert_eq!(net.to_block, None);
    assert!(!net.include_all_blocks);
}

#[test]
fn full_query_normalizes_field_by_field() {
    let q = Query {
        from_block: 10,
        to_block: Some(20),
        receipts: None,
        inputs: Some(vec![InputSelection {
            owner: Some(vec![hash_text("ab")]),
            input_type: Some(vec![1, 2]),
            ..InputSelection::default()
        }]),
        outputs: Some(vec![OutputSelection {
            asset_id: Some(vec![hash_text("0F")]),
            ..OutputSelection::default()
        }]),
        include_all_blocks: Some(true),
        field_selection: FieldSelection {
            block: Some(vec!["height".to_string(), "id".to_string()]),
            ..FieldSelection::default()
        },
        max_num_blocks: Some(100),
        max_num_transactions: None,
    };
    let net = q.try_convert().unwrap();
    assert_eq!(net.to_block, Some(20));
    assert!(net.receipts.is_empty());
    assert_eq!(net.inputs[0].owner, vec![[0xab; 32]]);
    assert_eq!(net.inputs[0].input_type, vec![1, 2]);
    assert!(net.inputs[0].asset_id.is_empty());
    assert_eq!(net.outputs[0].asset_id, vec![[0x0f; 32]]);
    assert!(net.include_all_blocks);
    assert_eq!(net.field_selection.block, vec!["height".to_string(), "id".to_string()]);
    assert!(net.field_selection.transaction.is_empty());
    assert_eq!(net.max_num_blocks, Some(100));
    assert_eq!(net.max_num_transactions, None);
}

#[test]
fn negative_numbers_are_malformed() {
    let q = Query { from_block: -1, ..Query::default() };
    assert_eq!(q.try_convert().unwrap_err(), MalformedQuery);
    let q = Query { to_block: Some(-5), ..Query::default() };
    assert_eq!(q.try_convert().unwrap_err(), MalformedQuery);
    let q = Query { max_num_transactions: Some(-2), ..Query::default() };
    assert_eq!(q.try_convert().unwrap_err(), MalformedQuery);
}

#[test]
fn hash_without_prefix_or_wrong_length_is_malformed() {
    let mut s = ReceiptSelection::default();
    s.contract_id = Some(vec!["ab".repeat(32)]);
    assert!(s.to_net().is_none());
    s.contract_id = Some(vec!["0xabcd".to_string()]);
    assert!(s.to_net().is_none());
    s.contract_id = Some(vec![format!("0x{}g", "a".repeat(63))]);
    let q = Query { receipts: Some(vec![s]), ..Query::default() };
    assert_eq!(q.try_convert().unwrap_err(), MalformedQuery);
}

#[test]
fn echo_shows_hashes_with_prefix() {
    let mut s = ReceiptSelection::default();
    s.sender = Some(vec![hash_text("AB")]);
    let net = s.to_net().unwrap();
    let back = net.to_caller();
    assert_eq!(back.sender, Some(vec![hash_text("ab")]));
    assert_eq!(back.rd, Some(vec![]));
}

#[test]
fn echo_refuses_numbers_above_i64_max() {
    let net = NetQuery { from_block: u64::MAX, ..NetQuery::default() };
    assert_eq!(Query::try_from(&net).unwrap_err(), MalformedQuery);
    let net = NetQuery { from_block: 3, max_num_blocks: Some(1 << 63), ..NetQuery::default() };
    assert!(Query::try_from(&net).is_err());
    let net = NetQuery { from_block: 3, to_block: Some(9), ..NetQuery::default() };
    let q = Query::try_from(&net).unwrap();
    assert_eq!(q.from_block, 3);
    assert_eq!(q.to_block, Some(9));
    assert_eq!(q.include_all_blocks, Some(false));
}
