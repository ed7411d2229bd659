use filescope::digest::{
    fuzzy_field, human_label, md5_hex, sha1_hex, sha256_digest, sha384_hex, sniff_type,
    type_label,
};

#[test]
fn known_digests_of_abc() {
    let b = b"abc";
    assert_eq!(md5_hex(b), "900150983cd24fb0d6963f7d28e17f72");
    assert_eq!(sha1_hex(b), "a9993e364706816aba3e25717850c26c9cd0d89d");
    assert_eq!(
        sha256_digest(b),
        "ba7816bf8f01cfea414140de5dae2223b00361a396177a9cb410ff61f20015ad"
    );
    assert_eq!(
        sha384_hex(b),
        "cb00753f45a35e8bb5a03d699ac65007272c32ab0eded1631a8b605a43ff5bed8086072ba1e7cc2358baeca134c825a7"
    );
}

#[test]
fn digest_of_empty_content() {
    assert_eq!(md5_hex(b""), "d41d8cd98f00b204e9800998ecf8427e");
}

#[test]
fn digests_are_deterministic() {
    let a = vec![1u8, 2, 3, 4, 5];
    let b = a.clone();
    assert_eq!(md5_hex(&a), md5_hex(&b));
    assert_eq!(sha256_digest(&a), sha256_digest(&b));
    assert_eq!(human_label(&a), human_label(&b));
    assert_eq!(sniff_type(&a), sniff_type(&b));
}

#[test]
fn one_byte_change_changes_digests_and_label() {
    let a = b"hello world".to_vec();
    let mut b = a.clone();
    b[0] = b'H';
    assert_ne!(md5_hex(&a), md5_hex(&b));
    assert_ne!(sha1_hex(&a), sha1_hex(&b));
    assert_ne!(sha256_digest(&a), sha256_digest(&b));
    assert_ne!(sha384_hex(&a), sha384_hex(&b));
    assert_ne!(human_label(&a), human_label(&b));
}

#[test]
fn human_label_has_four_words() {
    let label = human_label(b"some content");
    assert_eq!(label.split('-').count(), 4);
}

#[test]
fn sniffing_png_and_unknown() {
    let png = [0x89u8, 0x50, 0x4E, 0x47, 0x0D, 0x0A, 0x1A, 0x0A, 0, 0, 0, 0];
    assert_eq!(sniff_type(&png), "image/png");
    assert_eq!(sniff_type(b"plain words"), "unknown");
}

#[test]
fn labels_and_sentinels() {
    assert_eq!(type_label(None), "unknown");
    assert_eq!(type_label(Some("text/plain".to_string())), "text/plain");
    assert_eq!(fuzzy_field(None), "N/A");
    assert_eq!(fuzzy_field(Some("3:abc:def".to_string())), "3:abc:def");
}
