use pda_pinocchio_mapping::address::{self, same_address};
use pda_pinocchio_mapping::mapping::Mapping;

const PROGRAM: [u8; 32] = [7u8; 32];

fn counting_key() -> [u8; 32] {
    let mut key = [0u8; 32];
    for (i, b) in key.iter_mut().enumerate() {
        *b = i as u8;
    }
    key
}

#[test]
fn derive_gives_the_digest_of_the_seeds() {
    let address = address::derive(b"escrow", &counting_key(), 254, &PROGRAM);
    assert_eq!(
        address,
        [
            33, 156, 254, 58, 46, 139, 151, 115, 57, 79, 54, 214, 133, 60, 225, 247, 187, 17, 52,
            143, 212, 28, 30, 91, 62, 46, 160, 38, 46, 250, 25, 10
        ]
    );
    let address = address::derive(b"shares", &[9u8; 32], 255, &PROGRAM);
    assert_eq!(
        address,
        [
            151, 246, 12, 65, 160, 4, 98, 52, 154, 252, 253, 235, 213, 141, 194, 184, 47, 205,
            187, 30, 139, 146, 229, 250, 203, 152, 146, 64, 6, 240, 39, 41
        ]
    );
}

#[test]
fn derive_is_deterministic() {
    let key = counting_key();
    let first = address::derive(b"escrow", &key, 254, &PROGRAM);
    let _between = address::derive(b"shares", &key, 1, &PROGRAM);
    let second = address::derive(b"escrow", &key, 254, &PROGRAM);
    assert_eq!(first, second);
    assert!(same_address(&first, &second));
}

#[test]
fn derive_depends_on_each_input() {
    let key = counting_key();
    let base = address::derive(b"escrow", &key, 254, &PROGRAM);
    assert_ne!(base, key);
    assert_ne!(base, PROGRAM);
    assert_ne!(base, address::derive(b"escrow", &key, 253, &PROGRAM));
    assert_eq!(
        address::derive(b"escrow", &key, 253, &PROGRAM),
        [
            13, 142, 217, 84, 104, 224, 200, 18, 176, 41, 61, 41, 158, 107, 59, 130, 237, 228,
            137, 70, 29, 254, 245, 116, 233, 96, 63, 244, 251, 222, 181, 180
        ]
    );
    assert_ne!(base, address::derive(b"shares", &key, 254, &PROGRAM));
    assert_ne!(base, address::derive(b"escrow", &[9u8; 32], 254, &PROGRAM));
    assert_ne!(base, address::derive(b"escrow", &key, 254, &[8u8; 32]));
}

#[test]
fn same_address_compares_every_byte() {
    let a = [1u8; 32];
    let mut b = [1u8; 32];
    assert!(same_address(&a, &b));
    b[31] = 2;
    assert!(!same_address(&a, &b));
    b[31] = 1;
    b[0] = 0;
    assert!(!same_address(&a, &b));
}

#[test]
fn mapping_address_is_the_derived_address() {
    let key = counting_key();
    let mapping = Mapping::new(&PROGRAM, b"escrow");
    assert_eq!(mapping.program_id, &PROGRAM);
    assert_eq!(mapping.name, b"escrow");
    assert_eq!(mapping.address_of(&key, 254), address::derive(b"escrow", &key, 254, &PROGRAM));
}
