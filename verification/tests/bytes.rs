use nostr_client::base16::{same_bytes, to_array};

#[test]
fn to_array_copies_every_byte() {
    let bytes = vec![1u8, 2, 3, 250];
    let array: [u8; 4] = to_array(&bytes);
    assert_eq!(array, [1, 2, 3, 250]);
    let none: [u8; 0] = to_array(&Vec::new());
    assert_eq!(none.len(), 0);
}

#[test]
fn same_bytes_compares_length_and_content() {
    assert!(same_bytes(&[], &[]));
    assert!(same_bytes(&[1, 2, 3], &[1, 2, 3]));
    assert!(!same_bytes(&[1, 2, 3], &[1, 2, 4]));
    assert!(!same_bytes(&[1, 2, 3], &[1, 2]));
    assert!(!same_bytes(&[], &[0]));
}
