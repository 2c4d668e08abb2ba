use serde::ser::{Serialize, SerializeStruct, Serializer};
use sha2::{Digest, Sha256};
use simple_blockchain::block::Block;
use simple_blockchain::mining::random_target;
use simple_blockchain::timestamp::Timestamp;
use simple_blockchain::transaction::Transaction;
use std::time::{Duration, SystemTime, UNIX_EPOCH};

fn system_time(t: Timestamp) -> SystemTime {
    UNIX_EPOCH + Duration::new(t.secs_since_epoch, t.nanos_since_epoch)
}

struct TransactionShape<'a>(&'a Transaction);

impl<'a> Serialize for TransactionShape<'a> {
    fn serialize<S: Serializer>(&self, serializer: S) -> Result<S::Ok, S::Error> {
        let mut state = serializer.serialize_struct("Transaction", 4)?;
        state.serialize_field("from", &self.0.from)?;
        state.serialize_field("to", &self.0.to)?;
        state.serialize_field("time", &system_time(self.0.time))?;
        state.serialize_field("amount", &self.0.amount)?;
        state.end()
    }
}

struct UnhashedBlockShape<'a>(&'a Block);

impl<'a> Serialize for UnhashedBlockShape<'a> {
    fn serialize<S: Serializer>(&self, serializer: S) -> Result<S::Ok, S::Error> {
        let transactions: Vec<TransactionShape> =
            self.0.transactions.iter().map(TransactionShape).collect();
        let mut state = serializer.serialize_struct("Block", 5)?;
        state.serialize_field("hash", "")?;
        state.serialize_field("prev_hash", &self.0.prev_hash)?;
        state.serialize_field("transactions", &transactions)?;
        state.serialize_field("time", &system_time(self.0.time))?;
        state.serialize_field("nonce", &self.0.nonce)?;
        state.end()
    }
}

fn sample_blocks() -> Vec<Block> {
    let t0 = Timestamp { secs_since_epoch: 0, nanos_since_epoch: 0 };
    let t1 = Timestamp { secs_since_epoch: 1_700_000_123, nanos_since_epoch: 999_999_999 };
    let plain = Transaction { from: String::from("Alice"), to: String::from("Bob"), time: t1, amount: 32 };
    let odd = Transaction {
        from: String::from("q\"uote\\slash\n"),
        to: String::from("\u{1}\u{1f}\u{7f} \u{e9}\u{1f600}"),
        time: t0,
        amount: i32::MIN,
    };
    vec![
        Block::new(String::new(), vec![], 0, t0),
        Block::new(String::from("abc123"), vec![plain.clone()], 7, t1),
        Block::new(String::from("tab\there"), vec![plain.clone(), odd, plain], u64::MAX, t1),
    ]
}

#[test]
fn canonical_text_is_the_json_of_the_unhashed_block() {
    for block in sample_blocks() {
        let expected = serde_json::to_string(&UnhashedBlockShape(&block)).unwrap();
        assert_eq!(block.canonical_text(), expected);
    }
}

#[test]
fn hash_is_the_sha256_of_the_canonical_text() {
    for mut block in sample_blocks() {
        let text = block.canonical_text();
        let expected = format!("{:x}", Sha256::new().chain_update(text).finalize());
        assert_eq!(block.generate_hash(), expected);
        assert_eq!(block.hash, expected);
    }
}

#[test]
fn random_targets_vary() {
    let mut seen: Vec<char> = vec![];
    for _ in 0..8 {
        for c in random_target(64).chars() {
            if !seen.contains(&c) {
                seen.push(c);
            }
        }
    }
    assert!(seen.len() > 1);
    assert!(seen.len() <= 16);
}
