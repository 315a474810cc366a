use clmm_client::address::Address;
use solana_sdk::pubkey::Pubkey;

fn with_byte(index: usize, value: u8) -> Address {
    let mut bytes = [7u8; 32];
    bytes[index] = value;
    Address { bytes }
}

#[test]
fn zero_address_is_the_default_key() {
    assert_eq!(Address::zero().bytes, Pubkey::default().to_bytes());
    assert!(Address::zero().is_zero());
    assert!(!with_byte(31, 1).is_zero());
    let mut first_set = [0u8; 32];
    first_set[0] = 1;
    assert!(!Address { bytes: first_set }.is_zero());
}

#[test]
fn equality_is_byte_wise() {
    assert!(with_byte(3, 9).same_as(&with_byte(3, 9)));
    assert!(!with_byte(3, 9).same_as(&with_byte(3, 8)));
    assert!(!with_byte(0, 9).same_as(&with_byte(31, 9)));
}

#[test]
fn order_is_that_of_keys() {
    let samples = [
        Address::zero(),
        with_byte(0, 0),
        with_byte(0, 255),
        with_byte(15, 6),
        with_byte(15, 8),
        with_byte(31, 6),
        with_byte(31, 8),
        Address { bytes: [7; 32] },
        Address { bytes: [255; 32] },
    ];
    for a in samples.iter() {
        for b in samples.iter() {
            let expected = Pubkey::new_from_array(a.bytes) < Pubkey::new_from_array(b.bytes);
            assert_eq!(a.precedes(b), expected);
        }
    }
}

#[test]
fn the_first_differing_byte_decides() {
    let mut low = [9u8; 32];
    low[4] = 1;
    low[5] = 200;
    let mut high = [9u8; 32];
    high[4] = 2;
    high[5] = 0;
    assert!(Address { bytes: low }.precedes(&Address { bytes: high }));
    assert!(!Address { bytes: high }.precedes(&Address { bytes: low }));
    assert!(!Address { bytes: low }.precedes(&Address { bytes: low }));
}
