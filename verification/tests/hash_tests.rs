use odt2pdf::hash::{md5sum, sha1sum};

#[test]
fn md5sum_of_empty_data_is_the_md5_of_nothing() {
    assert_eq!(md5sum(&[]), "d41d8cd98f00b204e9800998ecf8427e");
}

#[test]
fn md5sum_known_values() {
    assert_eq!(md5sum(b"abc"), "900150983cd24fb0d6963f7d28e17f72");
    assert_eq!(
        md5sum(b"The quick brown fox jumps over the lazy dog"),
        "9e107d9d372bb6826bd81d3542a419d6"
    );
}

#[test]
fn sha1sum_of_empty_data_is_empty() {
    assert_eq!(sha1sum(&[]), "");
}

#[test]
fn sha1sum_known_values() {
    assert_eq!(sha1sum(b"abc"), "a9993e364706816aba3e25717850c26c9cd0d89d");
    assert_eq!(
        sha1sum(b"The quick brown fox jumps over the lazy dog"),
        "2fd4e1c67a2d28fced849ee1bb76e7391b93eb12"
    );
}

#[test]
fn digests_are_lowercase_hex_of_fixed_length() {
    let data: Vec<u8> = (0u8..=255).collect();
    let m = md5sum(&data);
    let s = sha1sum(&data);
    assert_eq!(m.len(), 32);
    assert_eq!(s.len(), 40);
    assert!(m.chars().chain(s.chars()).all(|c| c.is_ascii_digit() || ('a'..='f').contains(&c)));
}
