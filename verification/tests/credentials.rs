use gearxchange::credentials::{hash, hex_encode, salt};
use gearxchange::text::same_text;

#[test]
fn hash_of_the_first_fixture_user() {
    assert_eq!(
        hash("gearXchange", "password1", "john_doe"),
        "552a43829e1276aa549ad0225c49f9b8e99871bcfa4aa2a7feb7cb2bbc528ec6"
    );
}

#[test]
fn hash_joins_salt_password_and_username_in_that_order() {
    assert_eq!(
        hash("salt", "pw", "user"),
        "3b3fe4b529c31e14d7e1e1fc1d4d75693e03f428f6138155f79229d91c309deb"
    );
    assert_eq!(hash("saltpw", "", "user"), hash("salt", "pw", "user"));
    assert_ne!(hash("user", "pw", "salt"), hash("salt", "pw", "user"));
}

#[test]
fn hash_of_empty_parts_is_the_digest_of_nothing() {
    assert_eq!(
        hash("", "", ""),
        "e3b0c44298fc1c149afbf4c8996fb92427ae41e4649b934ca495991b7852b855"
    );
    assert_eq!(
        hash("a", "b", "c"),
        "ba7816bf8f01cfea414140de5dae2223b00361a396177a9cb410ff61f20015ad"
    );
}

#[test]
fn hash_of_empty_password_and_username_with_the_shared_salt() {
    assert_eq!(
        hash(salt(), "", ""),
        "691e51af7f716e44d66b8ed8c5b221d990775628446e99b09143acceca31db7e"
    );
}

#[test]
fn hash_takes_text_as_utf8() {
    assert_eq!(
        hash(salt(), "pässwörd", "jürgen"),
        "4085f44e080e4fe5bb8240359ebdb46eded3b453d75c76852ff0553c621c0475"
    );
}

#[test]
fn equal_passwords_of_different_users_hash_differently() {
    let john = hash(salt(), "password1", "john_doe");
    let sarah = hash(salt(), "password1", "sarah_smith");
    assert_eq!(
        sarah,
        "8e604bd4c25770b5270786675a88d3d10737e97f7121d71b5b9a7aa3a2149265"
    );
    assert_ne!(john, sarah);
}

#[test]
fn hash_is_not_its_input() {
    let digest = hash(salt(), "password1", "john_doe");
    assert_ne!(digest, "gearXchangepassword1john_doe");
    assert_eq!(digest.len(), 64);
    assert!(digest
        .chars()
        .all(|c| c.is_ascii_digit() || ('a'..='f').contains(&c)));
}

#[test]
fn the_shared_salt() {
    assert_eq!(salt(), "gearXchange");
}

#[test]
fn hex_encode_writes_two_lowercase_digits_per_byte() {
    assert_eq!(hex_encode(&[0x00, 0x0f, 0xa5, 0xff]), "000fa5ff");
    assert_eq!(hex_encode(&[0x10]), "10");
    assert_eq!(hex_encode(&[0x01]), "01");
    assert_eq!(hex_encode(&[0xab, 0xcd, 0xef]), "abcdef");
}

#[test]
fn hex_encode_of_nothing_is_empty() {
    assert_eq!(hex_encode(&[]), "");
}

#[test]
fn hex_encode_of_every_byte_value() {
    let bytes: Vec<u8> = (0u16..256).map(|b| b as u8).collect();
    let text = hex_encode(&bytes);
    assert_eq!(text.len(), 512);
    for (i, b) in bytes.iter().enumerate() {
        assert_eq!(&text[2 * i..2 * i + 2], format!("{:02x}", b));
    }
}

#[test]
fn same_text_compares_characters() {
    assert!(same_text("fixed", "fixed"));
    assert!(same_text("", ""));
    assert!(!same_text("fixed", "Fixed"));
    assert!(!same_text("fixed", "fixed "));
    assert!(!same_text("", "a"));
    assert!(!same_text("abc", "abd"));
    assert!(same_text("jürgen", "jürgen"));
    assert!(!same_text("jürgen", "jurgen"));
}
