use hyperfuel_node::address::{hex_str_address_to_byte_array, validate_address, AddressFault};
use hyperfuel_node::logs::{preset_query_get_logs_args, InvalidAddress};

#[test]
fn address_with_and_without_prefix() {
    let body = format!("{}{}", "00".repeat(31), "Af");
    let mut expect = [0u8; 32];
    expect[31] = 0xaf;
    assert_eq!(validate_address(&body), Ok(expect));
    assert_eq!(validate_address(&format!("0x{}", body)), Ok(expect));
    let mixed = "0123456789abcdefABCDEF".repeat(3);
    let a = validate_address(&mixed[..64]).unwrap();
    assert_eq!(a[0], 0x01);
    assert_eq!(a[5], 0xab);
}

#[test]
fn short_address_fails() {
    assert_eq!(validate_address("0xAB"), Err(AddressFault::WrongLength));
    assert_eq!(validate_address(""), Err(AddressFault::WrongLength));
    assert_eq!(validate_address("0"), Err(AddressFault::WrongLength));
    assert_eq!(validate_address(&"a".repeat(66)), Err(AddressFault::WrongLength));
}

#[test]
fn non_hex_character_fails_with_decode_error() {
    let bad = format!("{}g", "0".repeat(63));
    assert_eq!(validate_address(&bad), Err(AddressFault::NotHex));
    assert_eq!(hex_str_address_to_byte_array(bad.as_bytes()), Err(AddressFault::NotHex));
}

#[test]
fn log_args_validate_every_address() {
    let good = format!("0x{}", "11".repeat(32));
    let args = preset_query_get_logs_args(&vec![good.clone(), "22".repeat(32)], 5, Some(-1)).unwrap();
    assert_eq!(args.addresses, vec![[0x11; 32], [0x22; 32]]);
    assert_eq!(args.from_block, 5);
    assert_eq!(args.to_block, Some(u64::MAX));
    let args = preset_query_get_logs_args(&vec![], 0, None).unwrap();
    assert!(args.addresses.is_empty());
    assert_eq!(args.to_block, None);
}

#[test]
fn log_args_report_first_invalid_address() {
    let good = format!("0x{}", "11".repeat(32));
    let list = vec![good, "0xAB".to_string(), "zz".repeat(32)];
    let e = preset_query_get_logs_args(&list, 0, None).unwrap_err();
    assert_eq!(e, InvalidAddress { address: "0xAB".to_string(), fault: AddressFault::WrongLength });
}
