use wrapped_btc::encoding::{put_bytes, put_i64, put_text, put_u64};
use wrapped_btc::factory::state::{RequestAccount, RequestStatus, RequestType};
use wrapped_btc::identity::{same_bytes, Identity};
use wrapped_btc::members::{contains_identity, MembersStore, Role};
use wrapped_btc::seeds::{controller_seed_bytes, make_controller_signer_seeds};

fn id(byte: u8) -> Identity {
    Identity::new([byte; 32])
}

fn burn_request() -> RequestAccount {
    RequestAccount::open(
        RequestType::Burn,
        0,
        id(7),
        1000,
        "bc1q...abc".to_string(),
        String::new(),
        1_700_000_000,
        255,
    )
}

fn mint_request() -> RequestAccount {
    RequestAccount::open(
        RequestType::Mint,
        3,
        id(9),
        250_000,
        "bc1qcustody".to_string(),
        "f00dfeed".to_string(),
        -1,
        254,
    )
}

#[test]
fn preimage_of_a_burn_request_lists_its_fixed_values() {
    let expected: Vec<u8> = vec![
        1, 0, 0, 0, 0, 0, 0, 0, 0, 7, 7, 7, 7, 7, 7, 7, 7, 7, 7, 7, 7, 7, 7, 7, 7, 7, 7, 7, 7, 7, 7,
        7, 7, 7, 7, 7, 7, 7, 7, 7, 7, 232, 3, 0, 0, 0, 0, 0, 0, 10, 0, 0, 0, 0, 0, 0, 0, 98, 99, 49,
        113, 46, 46, 46, 97, 98, 99, 0, 0, 0, 0, 0, 0, 0, 0, 0, 241, 83, 101, 0, 0, 0, 0, 255,
    ];
    assert_eq!(burn_request().preimage(), expected);
}

#[test]
fn preimage_of_a_mint_request_holds_its_txid() {
    let expected: Vec<u8> = vec![
        0, 3, 0, 0, 0, 0, 0, 0, 0, 9, 9, 9, 9, 9, 9, 9, 9, 9, 9, 9, 9, 9, 9, 9, 9, 9, 9, 9, 9, 9, 9,
        9, 9, 9, 9, 9, 9, 9, 9, 9, 9, 144, 208, 3, 0, 0, 0, 0, 0, 11, 0, 0, 0, 0, 0, 0, 0, 98, 99,
        49, 113, 99, 117, 115, 116, 111, 100, 121, 8, 0, 0, 0, 0, 0, 0, 0, 102, 48, 48, 100, 102,
        101, 101, 100, 255, 255, 255, 255, 255, 255, 255, 255, 254,
    ];
    assert_eq!(mint_request().preimage(), expected);
}

#[test]
fn hash_of_a_burn_request_is_the_sha256_of_its_preimage() {
    let request = burn_request();
    let expected = [
        29, 117, 125, 8, 64, 174, 138, 90, 210, 239, 86, 214, 19, 117, 174, 63, 236, 223, 203, 117,
        40, 27, 129, 170, 108, 237, 136, 239, 63, 221, 131, 199,
    ];
    assert_eq!(request.hash, expected);
    assert_eq!(request.calculate_hash(), expected);
    assert!(request.verify_hash());
}

#[test]
fn hash_of_a_mint_request_is_the_sha256_of_its_preimage() {
    let request = mint_request();
    let expected = [
        103, 72, 0, 66, 214, 184, 215, 207, 9, 121, 56, 210, 69, 51, 177, 88, 118, 38, 159, 214,
        224, 215, 141, 73, 53, 119, 3, 51, 55, 228, 119, 196,
    ];
    assert_eq!(request.hash, expected);
    assert!(request.verify_hash());
}

#[test]
fn hash_covers_an_address_that_is_not_ascii() {
    let request = RequestAccount::open(
        RequestType::Burn,
        0,
        id(7),
        1000,
        "bc1q\u{e9}".to_string(),
        String::new(),
        1_700_000_000,
        255,
    );
    let expected = [
        94, 199, 64, 210, 241, 26, 221, 12, 223, 144, 193, 225, 55, 128, 112, 6, 43, 122, 208, 171,
        12, 114, 215, 168, 66, 240, 198, 99, 69, 125, 90, 3,
    ];
    assert_eq!(request.hash, expected);
}

#[test]
fn a_new_request_is_pending_and_sealed() {
    let request = mint_request();
    assert_eq!(request.request_type, RequestType::Mint);
    assert_eq!(request.nonce, 3);
    assert_eq!(request.requester, id(9));
    assert_eq!(request.amount, 250_000);
    assert_eq!(request.btc_deposit_address, "bc1qcustody");
    assert_eq!(request.btc_txid, "f00dfeed");
    assert_eq!(request.timestamp, -1);
    assert_eq!(request.status, RequestStatus::Pending);
    assert_eq!(request.bump, 254);
    assert!(request.verify_hash());
}

#[test]
fn hash_of_a_burn_request_ignores_status_and_txid() {
    let mut request = burn_request();
    let hash = request.hash;
    request.status = RequestStatus::Approved;
    request.btc_txid = "abcd1234".to_string();
    assert_eq!(request.calculate_hash(), hash);
    assert!(request.verify_hash());
}

#[test]
fn hash_of_a_mint_request_ignores_status_but_not_txid() {
    let mut request = mint_request();
    let hash = request.hash;
    request.status = RequestStatus::Rejected;
    assert_eq!(request.calculate_hash(), hash);
    request.btc_txid = "f00dfeee".to_string();
    assert_ne!(request.calculate_hash(), hash);
    assert!(!request.verify_hash());
}

#[test]
fn hash_changes_with_every_fixed_value() {
    let base = burn_request();
    let hash = base.hash;

    let mut changed = base.clone();
    changed.request_type = RequestType::Mint;
    assert_ne!(changed.calculate_hash(), hash);

    let mut changed = base.clone();
    changed.nonce = 1;
    assert_ne!(changed.calculate_hash(), hash);

    let mut changed = base.clone();
    changed.requester = id(8);
    assert_ne!(changed.calculate_hash(), hash);

    let mut changed = base.clone();
    changed.amount = 1001;
    assert_ne!(changed.calculate_hash(), hash);

    let mut changed = base.clone();
    changed.btc_deposit_address = "bc1q...abd".to_string();
    assert_ne!(changed.calculate_hash(), hash);

    let mut changed = base.clone();
    changed.timestamp = 1_700_000_001;
    assert_ne!(changed.calculate_hash(), hash);

    let mut changed = base.clone();
    changed.bump = 254;
    assert_ne!(changed.calculate_hash(), hash);

    let mut changed = base.clone();
    changed.hash = [0; 32];
    assert_eq!(changed.calculate_hash(), hash);
    assert!(!changed.verify_hash());
}

#[test]
fn a_copy_of_a_request_equals_it() {
    let mut request = mint_request();
    request.status = RequestStatus::Rejected;
    let copy = request.duplicate();
    assert_eq!(copy, request);
    assert_eq!(copy.btc_txid, "f00dfeed");
    assert_eq!(copy.status, RequestStatus::Rejected);
    assert_eq!(burn_request().duplicate(), burn_request());
}

#[test]
fn numbers_are_written_little_endian() {
    let mut buf = vec![9u8];
    put_u64(&mut buf, 0x0102_0304_0506_0708);
    assert_eq!(buf, vec![9, 8, 7, 6, 5, 4, 3, 2, 1]);

    let mut buf = Vec::new();
    put_i64(&mut buf, -2);
    assert_eq!(buf, vec![254, 255, 255, 255, 255, 255, 255, 255]);

    let mut buf = Vec::new();
    put_i64(&mut buf, i64::MIN);
    assert_eq!(buf, vec![0, 0, 0, 0, 0, 0, 0, 128]);
}

#[test]
fn texts_are_written_behind_their_length() {
    let mut buf = vec![1u8];
    put_text(&mut buf, "ab");
    assert_eq!(buf, vec![1, 2, 0, 0, 0, 0, 0, 0, 0, 97, 98]);

    let mut buf = Vec::new();
    put_text(&mut buf, "");
    assert_eq!(buf, vec![0, 0, 0, 0, 0, 0, 0, 0]);

    let mut buf = Vec::new();
    put_text(&mut buf, "\u{e9}");
    assert_eq!(buf, vec![2, 0, 0, 0, 0, 0, 0, 0, 195, 169]);
}

#[test]
fn bytes_are_appended_as_they_are() {
    let mut buf = vec![1u8, 2];
    put_bytes(&mut buf, &[3, 4, 5]);
    assert_eq!(buf, vec![1, 2, 3, 4, 5]);
    put_bytes(&mut buf, &[]);
    assert_eq!(buf, vec![1, 2, 3, 4, 5]);
}

#[test]
fn signer_seeds_are_the_fixed_seed_and_the_bump() {
    assert_eq!(controller_seed_bytes(), b"controller".to_vec());
    assert_eq!(make_controller_signer_seeds(254), vec![b"controller".to_vec(), vec![254u8]]);
    assert_eq!(make_controller_signer_seeds(0), vec![b"controller".to_vec(), vec![0u8]]);
}

#[test]
fn identities_compare_by_their_bytes() {
    let mut bytes = [5u8; 32];
    let a = Identity::new(bytes);
    assert_eq!(a, id(5));
    assert_eq!(a.to_bytes(), bytes);
    bytes[17] = 6;
    let b = Identity::new(bytes);
    assert_ne!(a, b);
    assert!(same_bytes(&a.bytes, &[5u8; 32]));
    assert!(!same_bytes(&a.bytes, &b.bytes));
    assert!(Identity::zero().is_default());
    assert_eq!(Identity::zero(), id(0));
    assert!(!b.is_default());
    let mut last = [0u8; 32];
    last[31] = 1;
    assert!(!Identity::new(last).is_default());
}

#[test]
fn the_registry_knows_who_holds_which_role() {
    let members = MembersStore { custodians: vec![id(41), id(42)], merchants: vec![id(7)], bump: 1 };
    assert!(members.is_custodian(&id(41)));
    assert!(members.is_custodian(&id(42)));
    assert!(!members.is_custodian(&id(7)));
    assert!(!members.is_custodian(&id(0)));
    assert!(members.is_merchant(&id(7)));
    assert!(!members.is_merchant(&id(42)));
    assert!(members.has_role(&id(42), Role::Custodian));
    assert!(!members.has_role(&id(42), Role::Merchant));
    assert!(members.has_role(&id(7), Role::Merchant));
    assert!(contains_identity(&members.custodians, &id(42)));
    assert!(!contains_identity(&Vec::new(), &id(42)));
}
