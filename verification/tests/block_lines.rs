use eth_handlers::block::{jsonl_out, render_header, Block, BlockHeader, HandlerError, Lines};
use eth_handlers::time::Timestamp;

fn sample_block() -> Block {
    Block {
        hash: vec![0xa1, 0xc3],
        number: 123,
        header: Some(BlockHeader {
            parent_hash: vec![0x00, 0xff],
            timestamp: Some(Timestamp { seconds: 1_672_531_200, nanos: 0 }),
        }),
    }
}

#[test]
fn block_yields_one_line_with_sorted_keys() {
    let lines = jsonl_out(&sample_block()).unwrap();
    assert_eq!(
        lines.lines,
        vec![String::from(
            "{\"hash\":\"a1c3\",\"number\":123,\"parent_hash\":\"00ff\",\"timestamp\":\"2023-01-01T00:00:00Z\"}"
        )]
    );
}

#[test]
fn block_without_header_is_refused() {
    let mut block = sample_block();
    block.header = None;
    assert_eq!(jsonl_out(&block), Err(HandlerError::MissingHeader));
}

#[test]
fn header_without_timestamp_is_refused() {
    let mut block = sample_block();
    block.header = Some(BlockHeader { parent_hash: vec![1, 2, 3], timestamp: None });
    assert_eq!(jsonl_out(&block), Err(HandlerError::MissingTimestamp));
}

#[test]
fn line_parses_back_to_the_four_fields() {
    let block = Block {
        hash: vec![0xde, 0xad, 0xbe, 0xef],
        number: u64::MAX,
        header: Some(BlockHeader {
            parent_hash: vec![],
            timestamp: Some(Timestamp { seconds: 1_700_000_000, nanos: 123_000_000 }),
        }),
    };
    let lines = jsonl_out(&block).unwrap();
    assert_eq!(lines.lines.len(), 1);
    let value: serde_json::Value = serde_json::from_str(&lines.lines[0]).unwrap();
    let object = value.as_object().unwrap();
    assert_eq!(object.len(), 4);
    assert_eq!(object["number"].as_u64(), Some(u64::MAX));
    assert_eq!(object["hash"].as_str(), Some("deadbeef"));
    assert_eq!(object["parent_hash"].as_str(), Some(""));
    assert_eq!(object["timestamp"].as_str(), Some("2023-11-14T22:13:20.123Z"));
}

#[test]
fn render_header_escapes_text_members() {
    let text = render_header(7, String::from("a\"b"), String::from("c\\d"), String::from("e\nf"));
    assert_eq!(
        text,
        "{\"hash\":\"a\\\"b\",\"number\":7,\"parent_hash\":\"c\\\\d\",\"timestamp\":\"e\\nf\"}"
    );
}

#[test]
fn single_holds_the_line() {
    assert_eq!(Lines::single(String::from("x")), Lines { lines: vec![String::from("x")] });
}

#[test]
fn hash_is_written_in_lower_case_hexadecimal() {
    let every_byte: Vec<u8> = (0..=255u8).collect();
    let block = Block {
        hash: every_byte.clone(),
        number: 0,
        header: Some(BlockHeader {
            parent_hash: vec![0xAB, 0xCD, 0xEF],
            timestamp: Some(Timestamp { seconds: 0, nanos: 0 }),
        }),
    };
    let lines = jsonl_out(&block).unwrap();
    let value: serde_json::Value = serde_json::from_str(&lines.lines[0]).unwrap();
    let mut expected = String::new();
    for byte in every_byte {
        expected.push_str(&format!("{:02x}", byte));
    }
    assert_eq!(value["hash"].as_str(), Some(expected.as_str()));
    assert_eq!(value["parent_hash"].as_str(), Some("abcdef"));
    assert_eq!(value["number"].as_u64(), Some(0));
    assert_eq!(value["timestamp"].as_str(), Some("1970-01-01T00:00:00Z"));
}

#[test]
fn line_has_no_line_break() {
    let lines = jsonl_out(&sample_block()).unwrap();
    assert!(!lines.lines[0].contains('\n'));
}
