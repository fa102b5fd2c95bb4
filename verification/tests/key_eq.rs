use solana_pubkey_compare::bytes_eq;
use solana_pubkey_compare::fast_eq;
use solana_pubkey_compare::words::load_word;
use solana_pubkey_compare::words::words_eq;

#[test]
fn equal_filled_keys() {
    let a = [1u8; 32];
    let b = [1u8; 32];
    assert!(fast_eq(&a, &b));
}

#[test]
fn different_filled_keys() {
    let a = [1u8; 32];
    let b = [2u8; 32];
    assert!(!fast_eq(&a, &b));
}

#[test]
fn last_word_replaced() {
    let a = [1u8; 32];
    let mut b = [1u8; 32];
    b[24..32].copy_from_slice(&[9u8; 8]);
    assert!(!fast_eq(&a, &b));
}

#[test]
fn independent_zero_keys() {
    let a = [0u8; 32];
    let b = [0u8; 32];
    assert!(fast_eq(&a, &b));
}

#[test]
fn key_equals_itself() {
    let mut a = [0u8; 32];
    for i in 0..32 {
        a[i] = i as u8;
    }
    assert!(fast_eq(&a, &a));
}

#[test]
fn independently_built_equal_keys() {
    let mut a = [0u8; 32];
    let mut b = [0u8; 32];
    for i in 0..32 {
        a[i] = (i * 3 + 1) as u8;
        b[i] = (i * 3 + 1) as u8;
    }
    assert!(fast_eq(&a, &b));
}

#[test]
fn first_byte_differs() {
    let a = [7u8; 32];
    let mut b = [7u8; 32];
    b[0] = 8;
    assert!(!fast_eq(&a, &b));
}

#[test]
fn last_byte_differs() {
    let a = [7u8; 32];
    let mut b = [7u8; 32];
    b[31] = 8;
    assert!(!fast_eq(&a, &b));
}

#[test]
fn bytes_beside_each_word_boundary_differ() {
    for &i in &[7usize, 8, 15, 16, 23, 24] {
        let a = [5u8; 32];
        let mut b = [5u8; 32];
        b[i] = 6;
        assert!(!fast_eq(&a, &b));
    }
}

#[test]
fn first_three_words_equal_fourth_differs() {
    let a = [3u8; 32];
    let mut b = [3u8; 32];
    b[28] = 4;
    assert!(!fast_eq(&a, &b));
    assert!(!words_eq(&a, &b));
}

#[test]
fn only_first_word_differs() {
    let a = [3u8; 32];
    let mut b = [3u8; 32];
    b[3] = 4;
    assert!(!fast_eq(&a, &b));
    assert!(!words_eq(&a, &b));
}

#[test]
fn word_and_byte_paths_agree() {
    let mut pairs: Vec<([u8; 32], [u8; 32])> = Vec::new();
    pairs.push(([0u8; 32], [0u8; 32]));
    pairs.push(([1u8; 32], [1u8; 32]));
    pairs.push(([1u8; 32], [2u8; 32]));
    let mut c = [0u8; 32];
    for i in 0..32 {
        c[i] = (255 - i) as u8;
    }
    pairs.push((c, c));
    for i in 0..32 {
        let mut d = c;
        d[i] = d[i].wrapping_add(1);
        pairs.push((c, d));
    }
    for (l, r) in pairs {
        assert_eq!(words_eq(&l, &r), bytes_eq(&l, &r));
        assert_eq!(fast_eq(&l, &r), bytes_eq(&l, &r));
    }
}

#[test]
fn comparison_mutates_neither_operand() {
    let mut a = [0u8; 32];
    for i in 0..32 {
        a[i] = i as u8;
    }
    let mut b = a;
    b[17] = 99;
    let a_before = a;
    let b_before = b;
    let _ = fast_eq(&a, &b);
    let _ = bytes_eq(&a, &b);
    let _ = words_eq(&a, &b);
    assert_eq!(a, a_before);
    assert_eq!(b, b_before);
}

#[test]
fn load_word_reads_little_endian() {
    let mut k = [0u8; 32];
    for i in 0..32 {
        k[i] = i as u8;
    }
    assert_eq!(load_word(&k, 0), u64::from_le_bytes([0, 1, 2, 3, 4, 5, 6, 7]));
    assert_eq!(
        load_word(&k, 3),
        u64::from_le_bytes([24, 25, 26, 27, 28, 29, 30, 31])
    );
    assert_eq!(load_word(&k, 1), 0x0f0e0d0c0b0a0908u64);
}
