use toy_blockchain::chain::Chain;
use toy_blockchain::pow::meets_difficulty;
use toy_blockchain::records::Blockheader;

fn header(difficulty: u32, nonce: u64) -> Blockheader {
    Blockheader {
        timestamp: 1_700_000_000_000,
        previous_hash: "0".repeat(64),
        nonce,
        merkle: "0".repeat(64),
        difficulty,
    }
}

#[test]
fn meets_difficulty_compares_the_leading_characters() {
    assert!(meets_difficulty("000abc", 3));
    assert!(meets_difficulty("000abc", 2));
    assert!(!meets_difficulty("000abc", 4));
    assert!(!meets_difficulty("a00000", 1));
    assert!(!meets_difficulty("0a0000", 2));
}

#[test]
fn meets_difficulty_zero_is_always_met() {
    assert!(meets_difficulty("ffff", 0));
    assert!(meets_difficulty("", 0));
}

#[test]
fn meets_difficulty_beyond_the_digest_is_never_met() {
    assert!(!meets_difficulty("0", 2));
    assert!(!meets_difficulty("", 1));
    assert!(meets_difficulty("00", 2));
    assert!(!meets_difficulty(&"0".repeat(64), 65));
    assert!(meets_difficulty(&"0".repeat(64), 64));
}

#[test]
fn meets_difficulty_takes_letters_as_not_zero() {
    assert!(!meets_difficulty("0f00", 2));
    assert!(!meets_difficulty("e000", 1));
}

#[test]
fn proof_of_work_at_difficulty_zero_keeps_nonce_zero() {
    let mut h = header(0, 0);
    assert!(Chain::proof_of_work(&mut h));
    assert_eq!(h.nonce, 0);
}

#[test]
fn proof_of_work_finds_the_least_nonce() {
    let mut h = header(2, 0);
    assert!(Chain::proof_of_work(&mut h));
    assert_eq!(h.nonce, 190);
    assert_eq!(
        Chain::hash(&h),
        "008bd9b0a9a56c2dc08f5fff6824bba2e33e44267ba8005bbacf99effe07d809"
    );
    for nonce in 0..h.nonce {
        let earlier = header(2, nonce);
        assert!(!meets_difficulty(&Chain::hash(&earlier), 2));
    }
}

#[test]
fn proof_of_work_at_difficulty_one() {
    let mut h = header(1, 0);
    assert!(Chain::proof_of_work(&mut h));
    assert_eq!(h.nonce, 14);
    assert_eq!(
        Chain::hash(&h),
        "084564cbf3c0240e3fa8faac266d95574682a9fe0faad920ce32e0678b2d22ed"
    );
}

#[test]
fn proof_of_work_starts_the_search_at_zero() {
    let mut h = header(2, 5_000);
    assert!(Chain::proof_of_work(&mut h));
    assert_eq!(h.nonce, 190);
}

#[test]
fn proof_of_work_changes_the_nonce_alone() {
    let mut h = header(1, 3);
    assert!(Chain::proof_of_work(&mut h));
    assert_eq!(h.timestamp, 1_700_000_000_000);
    assert_eq!(h.previous_hash, "0".repeat(64));
    assert_eq!(h.merkle, "0".repeat(64));
    assert_eq!(h.difficulty, 1);
}

#[test]
fn proof_of_work_at_difficulty_three() {
    let mut h = header(3, 0);
    assert!(Chain::proof_of_work(&mut h));
    assert_eq!(h.nonce, 14330);
    assert!(Chain::hash(&h).starts_with("000"));
}
