use cargo_mini_repo::checksum::{checksum, digest_hex};

#[test]
fn checksum_is_sha256_hex() {
    assert_eq!(
        checksum(b"DATA"),
        "c97c29c7a71b392b437ee03fd17f09bb10b75e879466fc0eb757b2c4a78ac938"
    );
    assert_eq!(
        checksum(b""),
        "e3b0c44298fc1c149afbf4c8996fb92427ae41e4649b934ca495991b7852b855"
    );
}

#[test]
fn checksum_changes_with_one_byte() {
    let a = checksum(b"DATA");
    let b = checksum(b"DATB");
    assert_eq!(b, "0701c8e45cdf9b0bb3c4fae6c298c66a2094e0ee2f372fa24997a94e059d1c16");
    assert_ne!(a, b);
}

#[test]
fn checksum_is_deterministic() {
    assert_eq!(checksum(b"some archive"), checksum(b"some archive"));
    assert_eq!(checksum(b"some archive").len(), 64);
}

#[test]
fn digest_hex_is_lowercase_high_nibble_first() {
    assert_eq!(digest_hex(&[0x00, 0x0f, 0xa5, 0xff]), "000fa5ff");
    assert_eq!(digest_hex(&[]), "");
}
