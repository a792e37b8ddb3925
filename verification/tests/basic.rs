use minimal_importer::add;
use minimal_importer::iid::{IUnknownUUID, IID};

#[test]
fn it_works() {
    let result = add(2, 2);
    assert_eq!(result, 4);
}

#[test]
fn add_reaches_the_largest_sum() {
    assert_eq!(add(u64::MAX - 1, 1), u64::MAX);
    assert_eq!(add(0, 0), 0);
}

#[test]
fn identities_compare_by_all_sixteen_bytes() {
    let a = IID([7; 16]);
    let b = IID::from_bytes([7; 16]);
    assert!(a == b);
    let mut bytes = [7u8; 16];
    bytes[15] = 8;
    assert!(a != IID(bytes));
    let mut first = [7u8; 16];
    first[0] = 0;
    assert!(a != IID(first));
    assert_eq!(b.bytes(), [7u8; 16]);
}

#[test]
fn base_identity_has_its_bytes() {
    let base = IUnknownUUID();
    assert_eq!(
        base.bytes(),
        [0, 0, 0, 0, 0, 0, 0, 0, 0xC0, 0, 0, 0, 0, 0, 0, 0x46]
    );
}
