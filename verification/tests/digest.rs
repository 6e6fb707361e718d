use toy_blockchain::canonical::{frame_header, frame_transaction};
use toy_blockchain::chain::Chain;
use toy_blockchain::digest::Canonical;
use toy_blockchain::hex::hex_digit;
use toy_blockchain::records::{Amount, Blockheader, Transaction};

const ZEROS: &str = "0000000000000000000000000000000000000000000000000000000000000000";

fn amount(value: f64) -> Amount {
    Amount { bits: value.to_bits() }
}

fn transfer(sender: &str, receiver: &str, value: f64) -> Transaction {
    Transaction { sender: sender.to_string(), receiver: receiver.to_string(), amount: amount(value) }
}

#[test]
fn hex_digits_are_lowercase() {
    let digits: Vec<&str> = (0u8..16).map(hex_digit).collect();
    assert_eq!(digits.concat(), "0123456789abcdef");
}

#[test]
fn hex_to_string_keeps_leading_zero_of_each_byte() {
    assert_eq!(Chain::hex_to_string(&[0x00, 0x01, 0x0a, 0xab, 0xff]), "00010aabff");
}

#[test]
fn hex_to_string_of_no_bytes_is_empty() {
    assert_eq!(Chain::hex_to_string(&[]), "");
}

#[test]
fn hex_to_string_of_thirty_two_bytes_has_sixty_four_digits() {
    let bytes = [7u8; 32];
    let text = Chain::hex_to_string(&bytes);
    assert_eq!(text.len(), 64);
    assert_eq!(text, "07".repeat(32));
}

#[test]
fn hash_of_a_string_is_the_sha256_of_its_json_text() {
    let digest = Chain::hash(&"abc".to_string());
    assert_eq!(digest, "6cc43f858fbb763301637b5af970e2a46b46f461f27e5a0f41e009c59b827b25");
}

#[test]
fn hash_escapes_quotes_in_strings() {
    let digest = Chain::hash(&"a\"b".to_string());
    assert_eq!(digest, "8bbcb681750af483258c5ca72e83c5c397bf66aa01e7c7787c0d212fc1f6fa1d");
}

#[test]
fn hash_takes_the_utf8_bytes_of_the_text() {
    let digest = Chain::hash(&"h\u{e9}\n".to_string());
    assert_eq!(digest, "3ed9b0011684aba2f9b25460fe147639f3d3c69c5ef71112d86264401e0ba9ca");
}

#[test]
fn hash_is_the_same_on_every_call() {
    let first = Chain::hash(&transfer("A", "B", 10.0));
    let second = Chain::hash(&transfer("A", "B", 10.0));
    assert_eq!(first, second);
    assert_eq!(first.len(), 64);
    assert!(first.chars().all(|c| c.is_ascii_digit() || ('a'..='f').contains(&c)));
}

#[test]
fn hash_tells_different_values_apart() {
    let base = Chain::hash(&transfer("A", "B", 10.0));
    assert_ne!(base, Chain::hash(&transfer("B", "A", 10.0)));
    assert_ne!(base, Chain::hash(&transfer("A", "B", 10.5)));
    assert_ne!(base, Chain::hash(&transfer("A", "C", 10.0)));
}

#[test]
fn string_is_serialised_between_quotes() {
    assert_eq!("abc".to_string().canonical(), "\"abc\"");
    assert_eq!("a\\b\tc".to_string().canonical(), "\"a\\\\b\\tc\"");
}

#[test]
fn transaction_is_serialised_in_field_order() {
    let text = transfer("A", "B", 10.0).canonical();
    assert_eq!(text, "{\"sender\":\"A\",\"receiver\":\"B\",\"amount\":4621819117588971520}");
}

#[test]
fn transaction_digest_is_the_digest_of_its_text() {
    let digest = Chain::hash(&transfer("A", "B", 10.0));
    assert_eq!(digest, "6eeaeba7da87b6ea07bf314768b6adee9f4b620d9169715211679d971416e804");
}

#[test]
fn negative_amount_is_serialised_by_its_bits() {
    let text = transfer("A", "B", -1.5).canonical();
    assert_eq!(text, "{\"sender\":\"A\",\"receiver\":\"B\",\"amount\":13832806255468478464}");
}

#[test]
fn header_is_serialised_in_field_order() {
    let header = Blockheader {
        timestamp: -5,
        previous_hash: ZEROS.to_string(),
        nonce: 7,
        merkle: ZEROS.to_string(),
        difficulty: 3,
    };
    let expected = format!(
        "{{\"timestamp\":-5,\"previous_hash\":\"{}\",\"nonce\":7,\"merkle\":\"{}\",\"difficulty\":3}}",
        ZEROS, ZEROS
    );
    assert_eq!(header.canonical(), expected);
    assert_eq!(
        Chain::hash(&header),
        "cb66e68d938995e487410bcc23ef3422a3227887e6e960e4248db07a4a986ed0"
    );
}

#[test]
fn header_serialises_the_largest_numbers() {
    let header = Blockheader {
        timestamp: i64::MIN,
        previous_hash: String::new(),
        nonce: u64::MAX,
        merkle: String::new(),
        difficulty: u32::MAX,
    };
    assert_eq!(
        header.canonical(),
        "{\"timestamp\":-9223372036854775808,\"previous_hash\":\"\",\"nonce\":18446744073709551615,\"merkle\":\"\",\"difficulty\":4294967295}"
    );
}

#[test]
fn frame_transaction_joins_the_members() {
    assert_eq!(
        frame_transaction("S", "R", "1"),
        "{\"sender\":S,\"receiver\":R,\"amount\":1}"
    );
}

#[test]
fn frame_header_joins_the_members() {
    assert_eq!(
        frame_header("1", "P", "2", "M", "3"),
        "{\"timestamp\":1,\"previous_hash\":P,\"nonce\":2,\"merkle\":M,\"difficulty\":3}"
    );
}
