//! The canonical text of transactions and headers: a JSON object whose
//! members stand in the order of the record's fields.

use crate::digest::{digest_of, Canonical};
use crate::json::{integer_text, json_integer, json_string, json_string_text};
use crate::records::{Blockheader, BlockheaderView, Transaction, TransactionView};
use vstd::prelude::*;
use vstd::string::StringExecFns;

verus! {

/// A transaction's object, around the texts of its three members.
pub open spec fn transaction_frame(
    sender: Seq<char>,
    receiver: Seq<char>,
    amount: Seq<char>,
) -> Seq<char> {
    "{\"sender\":"@ + sender + ",\"receiver\":"@ + receiver + ",\"amount\":"@ + amount + "}"@
}

/// The canonical text of a transaction. Sender and receiver are JSON strings;
/// the amount is the integer that encodes it.
pub open spec fn transaction_text(t: TransactionView) -> Seq<char> {
    transaction_frame(
        json_string_text(t.sender),
        json_string_text(t.receiver),
        integer_text(t.amount as int),
    )
}

/// The digest of a transaction: its leaf in the Merkle tree.
pub open spec fn transaction_digest(t: TransactionView) -> Seq<char> {
    digest_of(transaction_text(t))
}

/// A header's object, around the texts of its five members.
pub open spec fn header_frame(
    timestamp: Seq<char>,
    previous_hash: Seq<char>,
    nonce: Seq<char>,
    merkle: Seq<char>,
    difficulty: Seq<char>,
) -> Seq<char> {
    "{\"timestamp\":"@ + timestamp + ",\"previous_hash\":"@ + previous_hash + ",\"nonce\":"@
        + nonce + ",\"merkle\":"@ + merkle + ",\"difficulty\":"@ + difficulty + "}"@
}

/// The canonical text of a header.
pub open spec fn header_text(h: BlockheaderView) -> Seq<char> {
    header_frame(
        integer_text(h.timestamp as int),
        json_string_text(h.previous_hash),
        integer_text(h.nonce as int),
        json_string_text(h.merkle),
        integer_text(h.difficulty as int),
    )
}

/// The digest of a header.
pub open spec fn header_digest(h: BlockheaderView) -> Seq<char> {
    digest_of(header_text(h))
}

/// Puts a transaction's object together from the texts of its members.
pub fn frame_transaction(sender: &str, receiver: &str, amount: &str) -> (text: String)
    ensures
        text@ == transaction_frame(sender@, receiver@, amount@),
{
    let mut text = String::from_str("{\"sender\":");
    text.append(sender);
    text.append(",\"receiver\":");
    text.append(receiver);
    text.append(",\"amount\":");
    text.append(amount);
    text.append("}");
    text
}

/// Puts a header's object together from the texts of its members.
pub fn frame_header(
    timestamp: &str,
    previous_hash: &str,
    nonce: &str,
    merkle: &str,
    difficulty: &str,
) -> (text: String)
    ensures
        text@ == header_frame(timestamp@, previous_hash@, nonce@, merkle@, difficulty@),
{
    let mut text = String::from_str("{\"timestamp\":");
    text.append(timestamp);
    text.append(",\"previous_hash\":");
    text.append(previous_hash);
    text.append(",\"nonce\":");
    text.append(nonce);
    text.append(",\"merkle\":");
    text.append(merkle);
    text.append(",\"difficulty\":");
    text.append(difficulty);
    text.append("}");
    text
}

impl Canonical for Transaction {
    open spec fn canonical_text(&self) -> Seq<char> {
        transaction_text(self@)
    }

    fn canonical(&self) -> (text: String) {
        let sender = json_string(self.sender.as_str());
        let receiver = json_string(self.receiver.as_str());
        let amount = json_integer(self.amount.bits as i128);
        frame_transaction(sender.as_str(), receiver.as_str(), amount.as_str())
    }
}

impl Canonical for Blockheader {
    open spec fn canonical_text(&self) -> Seq<char> {
        header_text(self@)
    }

    fn canonical(&self) -> (text: String) {
        let timestamp = json_integer(self.timestamp as i128);
        let previous_hash = json_string(self.previous_hash.as_str());
        let nonce = json_integer(self.nonce as i128);
        let merkle = json_string(self.merkle.as_str());
        let difficulty = json_integer(self.difficulty as i128);
        frame_header(
            timestamp.as_str(),
            previous_hash.as_str(),
            nonce.as_str(),
            merkle.as_str(),
            difficulty.as_str(),
        )
    }
}

} // verus!
