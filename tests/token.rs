use chatoy::records::UserStatus;
use chatoy::token::{generate_token, hex_char, token_from_digits, TOKEN_LEN};

#[test]
fn hex_chars() {
    assert_eq!(hex_char(0), "0");
    assert_eq!(hex_char(9), "9");
    assert_eq!(hex_char(10), "a");
    assert_eq!(hex_char(15), "f");
}

#[test]
fn token_spelled_from_digits() {
    assert_eq!(token_from_digits(&vec![0, 15, 10, 3]), "0fa3");
    assert_eq!(token_from_digits(&vec![]), "");
}

#[test]
fn generated_tokens_are_hex() {
    for _ in 0..200 {
        let t = generate_token();
        assert_eq!(t.len(), TOKEN_LEN);
        assert!(t.chars().all(|c| "0123456789abcdef".contains(c)));
    }
}

#[test]
fn generated_tokens_spread_evenly() {
    let rounds = 2000;
    let mut counts = vec![[0u32; 16]; TOKEN_LEN];
    for _ in 0..rounds {
        for (pos, c) in generate_token().chars().enumerate() {
            counts[pos][c.to_digit(16).unwrap() as usize] += 1;
        }
    }
    for pos in counts {
        for n in pos {
            assert!(n > 60 && n < 190, "count {} far from {}", n, rounds / 16);
        }
    }
}

#[test]
fn status_codes() {
    assert_eq!(UserStatus::Active.code(), 0);
    assert_eq!(UserStatus::Banned.code(), 2);
    assert_eq!(UserStatus::from_code(1), Some(UserStatus::Pending));
    assert_eq!(UserStatus::from_code(3), None);
    assert_eq!(UserStatus::from_code(-1), None);
}
