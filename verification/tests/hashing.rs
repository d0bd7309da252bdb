use quantified_core::collectors::utils::{
    hash_text, key_of_digest, make_hash, make_hash_from_strs, make_hash_from_values,
};

#[test]
fn test_make_hash() {
    let parts = vec![
        Some("value1".to_string()),
        Some("value2".to_string()),
        Some("value3".to_string()),
    ];
    let hash = make_hash(&parts);
    assert_eq!(hash.len(), 32);
}

#[test]
fn test_make_hash_with_none() {
    let parts = vec![Some("value1".to_string()), None, Some("value3".to_string())];
    let hash = make_hash(&parts);
    assert_eq!(hash.len(), 32);
}

#[test]
fn test_make_hash_consistency() {
    let parts1 = vec![Some("a".to_string()), Some("b".to_string())];
    let parts2 = vec![Some("a".to_string()), Some("b".to_string())];
    assert_eq!(make_hash(&parts1), make_hash(&parts2));
}

#[test]
fn test_make_hash_from_strs() {
    let hash = make_hash_from_strs(&["hello", "world"]);
    assert_eq!(hash.len(), 32);
}

#[test]
fn test_make_hash_from_values_mixed() {
    let s1 = String::from("hello");
    let s2 = "world";
    let hash = make_hash_from_values(&[s1.as_str(), s2]);
    assert_eq!(hash.len(), 32);
}

#[test]
fn differing_parts_give_differing_hashes() {
    assert_ne!(make_hash_from_strs(&["a", "b"]), make_hash_from_strs(&["a", "c"]));
}

#[test]
fn known_digests() {
    // SHA-256 of the empty text begins e3b0c44298fc1c149afbf4c8996fb924.
    assert_eq!(hash_text(""), "e3b0c44298fc1c149afbf4c8996fb924");
    assert_eq!(make_hash(&[]), "e3b0c44298fc1c149afbf4c8996fb924");
    // SHA-256 of "abc" begins ba7816bf8f01cfea414140de5dae2223.
    assert_eq!(hash_text("abc"), "ba7816bf8f01cfea414140de5dae2223");
    assert_eq!(make_hash_from_strs(&["abc"]), "ba7816bf8f01cfea414140de5dae2223");
}

#[test]
fn parts_are_joined_with_a_bar() {
    assert_eq!(make_hash_from_strs(&["a", "b"]), hash_text("a|b"));
    assert_eq!(make_hash_from_values(&["x", "", "z"]), hash_text("x||z"));
    let parts = vec![Some("x".to_string()), None, Some("z".to_string())];
    assert_eq!(make_hash(&parts), hash_text("x||z"));
    assert_eq!(make_hash(&[None]), hash_text(""));
}

#[test]
fn every_way_of_hashing_agrees() {
    let parts = vec![Some("hello".to_string()), Some("world".to_string())];
    assert_eq!(make_hash(&parts), make_hash_from_strs(&["hello", "world"]));
    assert_eq!(make_hash(&parts), make_hash_from_values(&["hello", "world"]));
}

#[test]
fn keys_are_lowercase_hexadecimal() {
    assert_eq!(key_of_digest(&[0x00, 0x0f, 0xa5, 0xff]), "000fa5ff");
    assert_eq!(key_of_digest(&[]), "");
    let long: Vec<u8> = (0u8..32).collect();
    assert_eq!(key_of_digest(&long), "000102030405060708090a0b0c0d0e0f");
}
