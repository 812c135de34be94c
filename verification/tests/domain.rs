use eth_explorer::eth::{Account, Address, Contract, Errors};

fn addr() -> Address {
    Address::try_from("0xa0b86991c6218b36c1d19d4a2e9eb0ce3606eb48".to_string()).unwrap()
}

#[test]
fn address_rejects_unprefixed() {
    match Address::try_from("abc".to_string()) {
        Err(Errors::AddressNotPrefixed(s)) => assert_eq!(s, "abc"),
        _ => panic!("expected AddressNotPrefixed"),
    }
}

#[test]
fn address_rejects_empty() {
    match Address::try_from(String::new()) {
        Err(Errors::AddressNotPrefixed(s)) => assert_eq!(s, ""),
        _ => panic!("expected AddressNotPrefixed"),
    }
}

#[test]
fn address_rejects_wrong_prefix_even_at_right_length() {
    let s = format!("1x{}", "a".repeat(40));
    match Address::try_from(s.clone()) {
        Err(Errors::AddressNotPrefixed(t)) => assert_eq!(t, s),
        _ => panic!("expected AddressNotPrefixed"),
    }
}

#[test]
fn address_rejects_too_short() {
    match Address::try_from("0x123".to_string()) {
        Err(Errors::AddressIncorrectLength(s, n)) => {
            assert_eq!(s, "0x123");
            assert_eq!(n, 5);
        }
        _ => panic!("expected AddressIncorrectLength"),
    }
}

#[test]
fn address_rejects_too_long() {
    let s = format!("0x{}", "a".repeat(41));
    match Address::try_from(s.clone()) {
        Err(Errors::AddressIncorrectLength(t, n)) => {
            assert_eq!(t, s);
            assert_eq!(n, 43);
        }
        _ => panic!("expected AddressIncorrectLength"),
    }
}

#[test]
fn address_accepts_non_hex_body() {
    let s = format!("0x{}", "Z".repeat(40));
    let a = Address::try_from(s.clone()).unwrap();
    assert_eq!(a.as_str(), s);
}

#[test]
fn address_round_trip() {
    let s = "0xa0b86991c6218b36c1d19d4a2e9eb0ce3606eb48";
    let a = Address::try_from(s.to_string()).unwrap();
    assert_eq!(a.as_str(), s);
}

#[test]
fn eoa_iff_code_empty() {
    let a = Account::new(addr(), 0, 0, vec![]);
    assert!(a.is_eoa());
    let b = Account::new(addr(), 0, 0, vec![0x60]);
    assert!(!b.is_eoa());
}

#[test]
fn display_eoa_scales_balance() {
    let a = Account::new(addr(), 1, 800_000_000, vec![]);
    assert_eq!(
        a.display_string(),
        "EOA @ 0xa0b86991c6218b36c1d19d4a2e9eb0ce3606eb48 (8 ETH)"
    );
}

#[test]
fn display_contract_rounds_down() {
    let a = Account::new(addr(), 1, 99_999_999, vec![1]);
    assert_eq!(
        a.display_string(),
        "Contract @ 0xa0b86991c6218b36c1d19d4a2e9eb0ce3606eb48 (0 ETH)"
    );
}

#[test]
fn display_zero_balance() {
    let a = Account::new(addr(), 0, 0, vec![]);
    assert_eq!(
        a.display_string(),
        "EOA @ 0xa0b86991c6218b36c1d19d4a2e9eb0ce3606eb48 (0 ETH)"
    );
}

#[test]
fn display_large_balance() {
    let a = Account::new(addr(), 0, 123_456_789_000, vec![]);
    assert_eq!(
        a.display_string(),
        "EOA @ 0xa0b86991c6218b36c1d19d4a2e9eb0ce3606eb48 (1234 ETH)"
    );
}

#[test]
fn contract_rejects_empty_bytecode() {
    let a = Account::new(addr(), 0, 800_000_000, vec![]);
    let rendered = a.display_string();
    match Contract::new(a, String::new(), None, None, None) {
        Err(Errors::NotAContract(d)) => assert_eq!(d, rendered),
        _ => panic!("expected NotAContract"),
    }
}

#[test]
fn contract_rejects_empty_bytecode_even_with_account_code() {
    let a = Account::new(addr(), 0, 0, vec![0x60, 0x01]);
    match Contract::new(a, String::new(), None, None, None) {
        Err(Errors::NotAContract(_)) => {}
        _ => panic!("expected NotAContract"),
    }
}

#[test]
fn contract_accepts_account_with_code_and_bytecode() {
    let a = Account::new(addr(), 7, 1, vec![0x60, 0x01]);
    let c = Contract::new(a, "0x6001".to_string(), None, None, None).unwrap();
    assert_eq!(c.account.nonce, 7);
    assert_eq!(c.bytecode, "0x6001");
}

#[test]
fn contract_accepts_eoa_account_with_bytecode() {
    let a = Account::new(addr(), 0, 0, vec![]);
    let c = Contract::new(
        a,
        "0x6001".to_string(),
        Some("contract Foo {}".to_string()),
        None,
        Some("Foo".to_string()),
    )
    .unwrap();
    assert_eq!(c.bytecode, "0x6001");
    assert_eq!(c.name, Some("Foo".to_string()));
    assert_eq!(c.source, Some("contract Foo {}".to_string()));
    assert_eq!(c.abi, None);
}
