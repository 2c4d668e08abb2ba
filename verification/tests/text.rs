use simple_blockchain::digest::{digest_of_text, to_hex};
use simple_blockchain::encoding::{
    hex_digit_of, push_decimal, push_escaped_char, push_quoted, push_signed_decimal,
    push_timestamp,
};
use simple_blockchain::mining::{
    alphabet_char_at, random_target, round_nonces, search_round, starts_with, try_candidate,
};
use simple_blockchain::timestamp::Timestamp;
use simple_blockchain::transaction::{clone_transactions, push_transactions, Transaction};

fn tx(from: &str, to: &str, amount: i32) -> Transaction {
    Transaction {
        from: String::from(from),
        to: String::from(to),
        time: Timestamp { secs_since_epoch: 12, nanos_since_epoch: 34 },
        amount,
    }
}

#[test]
fn decimal_numerals() {
    for n in [0u64, 7, 10, 99, 100, 1_700_000_000, u64::MAX] {
        let mut out = String::from("x");
        push_decimal(&mut out, n);
        assert_eq!(out, format!("x{}", n));
    }
    for v in [0i32, 32, -1, -10, i32::MAX, i32::MIN] {
        let mut out = String::new();
        push_signed_decimal(&mut out, v);
        assert_eq!(out, format!("{}", v));
    }
}

#[test]
fn hex_digits() {
    let all: String = (0u8..16).map(hex_digit_of).collect();
    assert_eq!(all, "0123456789abcdef");
    assert_eq!(to_hex(&vec![0x00, 0x0f, 0xa5, 0xff]), "000fa5ff");
    assert_eq!(to_hex(&vec![]), "");
}

#[test]
fn escaping_agrees_with_serde_json() {
    let mut samples: Vec<String> = vec![
        String::from(""),
        String::from("Alice"),
        String::from("a\"b\\c/d"),
        String::from("line\nfeed\rtab\t"),
        String::from("\u{8}\u{c}\u{7f}\u{1f}\u{0}"),
        String::from("h\u{e9}llo \u{4e16}\u{754c} \u{1f600}"),
    ];
    let controls: String = (0u8..0x20).map(|b| b as char).collect();
    samples.push(controls);
    for s in samples {
        let mut out = String::new();
        push_quoted(&mut out, &s);
        assert_eq!(out, serde_json::to_string(&s).unwrap());
    }
}

#[test]
fn escaped_characters() {
    let mut out = String::new();
    push_escaped_char(&mut out, '\u{1}');
    push_escaped_char(&mut out, '"');
    push_escaped_char(&mut out, 'z');
    assert_eq!(out, "\\u0001\\\"z");
}

#[test]
fn timestamp_object() {
    let mut out = String::new();
    push_timestamp(&mut out, Timestamp { secs_since_epoch: 12, nanos_since_epoch: 999_999_999 });
    assert_eq!(out, "{\"secs_since_epoch\":12,\"nanos_since_epoch\":999999999}");
}

#[test]
fn transaction_texts() {
    let t = tx("Alice", "Bob", 32);
    assert_eq!(t.to_text(), "from Alice to Bob amt 32");
    assert_eq!(tx("a", "b", -5).to_text(), "from a to b amt -5");
    let mut out = String::new();
    t.push_text(&mut out);
    assert_eq!(
        out,
        "{\"from\":\"Alice\",\"to\":\"Bob\",\"time\":{\"secs_since_epoch\":12,\"nanos_since_epoch\":34},\"amount\":32}"
    );
    let mut list = String::new();
    push_transactions(&mut list, &vec![t.clone(), t.clone()]);
    assert_eq!(list, format!("{},{}", out, out));
    let mut none = String::new();
    push_transactions(&mut none, &vec![]);
    assert_eq!(none, "");
    assert!(clone_transactions(&vec![t.clone()]) == vec![t]);
}

#[test]
fn digest_of_known_text() {
    assert_eq!(
        digest_of_text(&String::from("abc")),
        "ba7816bf8f01cfea414140de5dae2223b00361a396177a9cb410ff61f20015ad"
    );
}

#[test]
fn target_alphabet() {
    let all: String = (0usize..16).map(alphabet_char_at).collect();
    assert_eq!(all, "abcdef0123456789");
}

#[test]
fn random_targets_are_admissible() {
    for difficulty in [0usize, 1, 5, 64] {
        let target = random_target(difficulty);
        assert_eq!(target.chars().count(), difficulty);
        assert!(target.chars().all(|c| matches!(c, '0'..='9' | 'a'..='f')));
    }
}

#[test]
fn prefix_test() {
    assert!(starts_with(&String::from("abcdef"), &String::from("abc")));
    assert!(starts_with(&String::from("abc"), &String::from("")));
    assert!(starts_with(&String::from("abc"), &String::from("abc")));
    assert!(!starts_with(&String::from("abc"), &String::from("abd")));
    assert!(!starts_with(&String::from("ab"), &String::from("abc")));
}

#[test]
fn nonces_of_a_round() {
    assert_eq!(round_nonces(5, 3), vec![5, 6, 7]);
    assert_eq!(round_nonces(5, 0), Vec::<u64>::new());
    assert_eq!(round_nonces(u64::MAX - 1, 1), vec![u64::MAX - 1]);
}

#[test]
fn candidate_is_kept_only_on_a_match() {
    let time = Timestamp { secs_since_epoch: 1, nanos_since_epoch: 2 };
    let txs = vec![tx("a", "b", 1)];
    let prev = String::from("prev");
    let block = try_candidate(&prev, &txs, 3, time, &String::new()).unwrap();
    assert_eq!(block.nonce, 3);
    assert_eq!(block.prev_hash, "prev");
    assert_eq!(block.hash.len(), 64);
    let first: String = block.hash.chars().take(2).collect();
    assert!(try_candidate(&prev, &txs, 3, time, &first).is_some());
    assert!(try_candidate(&prev, &txs, 3, time, &String::from("zz")).is_none());
}

#[test]
fn round_finds_the_matching_nonce() {
    let time = Timestamp { secs_since_epoch: 1, nanos_since_epoch: 2 };
    let txs = vec![tx("a", "b", 1)];
    let prev = String::from("prev");
    let wanted = try_candidate(&prev, &txs, 13, time, &String::new()).unwrap();
    let found = search_round(&prev, &txs, 10, 8, time, &wanted.hash).unwrap();
    assert!(found == wanted);
    assert!(search_round(&prev, &txs, 14, 8, time, &wanted.hash).is_none());
    assert!(search_round(&prev, &txs, 10, 0, time, &String::new()).is_none());
    assert!(search_round(&prev, &txs, 10, 8, time, &String::from("not hex")).is_none());
}
