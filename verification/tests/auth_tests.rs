use binge_watch_me::auth::generate_token;

#[test]
fn token_is_two_padded_lowercase_hex_values() {
    assert_eq!(
        generate_token(0xdead_beef, 1),
        "00000000deadbeef0000000000000001"
    );
    assert_eq!(
        generate_token(u64::MAX, 0),
        "ffffffffffffffff0000000000000000"
    );
}

#[test]
fn token_matches_std_formatting() {
    let values = [0u64, 9, 10, 15, 16, 255, 0x0123_4567_89ab_cdef, u64::MAX - 1];
    for &a in values.iter() {
        for &b in values.iter() {
            assert_eq!(generate_token(a, b), format!("{:016x}{:016x}", a, b));
        }
    }
}

#[test]
fn token_is_32_hex_characters() {
    let t = generate_token(0x1234, 0xabcdef);
    assert_eq!(t.len(), 32);
    assert!(t.chars().all(|c| c.is_ascii_hexdigit() && !c.is_ascii_uppercase()));
}

#[test]
fn token_decodes_to_its_values() {
    let t = generate_token(0x0fed_cba9_8765_4321, 42);
    assert_eq!(u64::from_str_radix(&t[..16], 16).unwrap(), 0x0fed_cba9_8765_4321);
    assert_eq!(u64::from_str_radix(&t[16..], 16).unwrap(), 42);
}
