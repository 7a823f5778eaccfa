use osma::hashing::digest_with_salt;

#[test]
fn digest_matches_known_vector() {
    // SHA3-256("abc"), salt empty.
    assert_eq!(
        digest_with_salt("abc", ""),
        "3a985da74fe225b2045c172d6bd390bd855f086e3e9d525b46bfe24511431532"
    );
}

#[test]
fn digest_of_empty_input_and_salt() {
    // SHA3-256("").
    assert_eq!(
        digest_with_salt("", ""),
        "a7ffc6f8bf1ed76651c14756a061d662f580ff4de43b49fa82d80a4b80f8434a"
    );
}

#[test]
fn digest_is_over_input_then_salt() {
    // The digest runs over the concatenation: "ab" + "c" == "abc" + "".
    assert_eq!(digest_with_salt("ab", "c"), digest_with_salt("abc", ""));
}

#[test]
fn digest_is_deterministic() {
    assert_eq!(
        digest_with_salt("swordfish", "pepper"),
        digest_with_salt("swordfish", "pepper")
    );
}

#[test]
fn digest_changes_with_input() {
    assert_ne!(
        digest_with_salt("swordfish", "pepper"),
        digest_with_salt("sardine", "pepper")
    );
}

#[test]
fn digest_changes_with_salt() {
    assert_ne!(
        digest_with_salt("swordfish", "pepper"),
        digest_with_salt("swordfish", "salt")
    );
}

#[test]
fn digest_is_sixty_four_hex_digits() {
    let d = digest_with_salt("swordfish", "pepper");
    assert_eq!(d.len(), 64);
    assert!(d.chars().all(|c| c.is_ascii_hexdigit() && !c.is_ascii_uppercase()));
}
