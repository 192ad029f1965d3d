use grim::node::mine_block::BlockFees;
use grin_keychain::{ExtKeychain, Identifier, Keychain};

fn read(text: &str) -> (u64, u64, Option<Identifier>) {
    let block_fees = BlockFees::from_json(text).expect("fees");
    (block_fees.fees, block_fees.height, block_fees.key_id)
}

#[test]
fn fees_as_text_and_as_number_are_the_same_value() {
    let quoted = read("{\"fees\":\"123\",\"height\":\"7\",\"key_id\":null}");
    let bare = read("{\"fees\":123,\"height\":7,\"key_id\":null}");
    assert_eq!(quoted, (123, 7, None));
    assert_eq!(bare, (123, 7, None));
    assert_eq!(quoted, bare);
}

#[test]
fn text_and_number_can_be_mixed() {
    assert_eq!(read("{\"fees\":\"0\",\"height\":18446744073709551615}").0, 0);
    assert_eq!(read("{\"fees\":\"0\",\"height\":18446744073709551615}").1, u64::MAX);
    assert_eq!(read("{\"height\":\"18446744073709551615\",\"fees\":5}").1, u64::MAX);
}

#[test]
fn the_key_is_read_from_its_hexadecimal_digits() {
    let key = ExtKeychain::derive_key_id(3, 1, 2, 3, 0);
    let text = format!("{{\"fees\":1,\"height\":2,\"key_id\":\"{}\"}}", key);
    assert_eq!(read(&text), (1, 2, Some(key)));
}

#[test]
fn a_missing_key_is_no_key() {
    assert_eq!(read("{\"fees\":1,\"height\":2}"), (1, 2, None));
}

#[test]
fn what_is_no_number_is_refused() {
    assert!(BlockFees::from_json("{\"fees\":\"12a\",\"height\":7,\"key_id\":null}").is_none());
    assert!(BlockFees::from_json("{\"fees\":-1,\"height\":7,\"key_id\":null}").is_none());
    assert!(BlockFees::from_json("{\"fees\":1.5,\"height\":7,\"key_id\":null}").is_none());
    assert!(BlockFees::from_json("{\"fees\":\"\",\"height\":7,\"key_id\":null}").is_none());
    assert!(BlockFees::from_json("{\"fees\":\"18446744073709551616\",\"height\":7}").is_none());
    assert!(BlockFees::from_json("{\"fees\":1}").is_none());
    assert!(BlockFees::from_json("{\"height\":1}").is_none());
    assert!(BlockFees::from_json("{\"fees\":1,\"height\":2,\"key_id\":5}").is_none());
    assert!(BlockFees::from_json("[1,2,null]").is_none());
    assert!(BlockFees::from_json("no json").is_none());
}

#[test]
fn fields_make_fees_only_together() {
    let made = BlockFees::from_fields(Some(4), Some(9), Ok(None)).expect("fees");
    assert_eq!((made.fees, made.height, made.key_id), (4, 9, None));
    assert!(BlockFees::from_fields(None, Some(9), Ok(None)).is_none());
    assert!(BlockFees::from_fields(Some(4), None, Ok(None)).is_none());
    assert!(BlockFees::from_fields(Some(4), Some(9), Err("bad".to_string())).is_none());
}

fn with_key(key: &str) -> Option<BlockFees> {
    BlockFees::from_json(&format!("{{\"fees\":1,\"height\":2,\"key_id\":{}}}", key))
}

#[test]
fn a_key_that_spells_no_bytes_is_refused() {
    assert!(with_key("\"zz\"").is_none());
    assert!(with_key("\"0a0\"").is_none());
    assert!(with_key("\"0a 0b\"").is_none());
    assert!(with_key("\"-1\"").is_none());
    assert!(with_key("\"a\\u00e9a\"").is_none());
    assert!(with_key("\"\\u00e9\\u00e9\"").is_none());
    assert!(with_key("true").is_none());
    assert!(with_key("[\"0a\"]").is_none());
    assert!(with_key("{}").is_none());
}

#[test]
fn a_key_is_read_as_the_keychain_reads_it() {
    let texts = [
        "",
        "0a",
        "0300000001000000020000000300000000",
        "0x0300000001000000020000000300000000",
        "  0300000001000000020000000300000000\n",
        "\u{3000}0a0b\u{3000}",
        "0A0b",
        "ffffffffffffffffffffffffffffffffffffffffffff",
    ];
    for text in texts {
        let json = serde_json::to_string(text).unwrap();
        let read = with_key(&json).expect("fees").key_id;
        assert_eq!(read, Some(Identifier::from_hex(text).unwrap()), "{:?}", text);
        let by_serde: Option<Identifier> = serde_json::from_str(&json).unwrap();
        assert_eq!(read, by_serde, "{:?}", text);
    }
}

#[test]
fn no_key_is_read_from_null_only() {
    assert_eq!(with_key("null").expect("fees").key_id, None);
    assert_eq!(with_key("\"\"").expect("fees").key_id, Some(Identifier::zero()));
    assert_eq!(with_key("\"null\"").map(|read| read.fees), None);
}

fn written(number: u64) -> String {
    let value =
        grin_core::libtx::secp_ser::string_or_u64::serialize(&number, serde_json::value::Serializer)
            .unwrap();
    value.to_string()
}

#[test]
fn fees_that_are_written_are_read_back() {
    let keys = [None, Some(ExtKeychain::derive_key_id(3, 1, 2, 3, 0)), Some(Identifier::zero())];
    for fees in [0, 1, 123, 60_000_000_000, u64::MAX] {
        for height in [0, 7, u64::MAX] {
            for key_id in &keys {
                let text = format!(
                    "{{\"fees\":{},\"height\":{},\"key_id\":{}}}",
                    written(fees),
                    written(height),
                    serde_json::to_string(key_id).unwrap()
                );
                assert_eq!(read(&text), (fees, height, key_id.clone()), "{}", text);
                let bare = format!(
                    "{{\"fees\":{},\"height\":{},\"key_id\":{}}}",
                    fees,
                    height,
                    serde_json::to_string(key_id).unwrap()
                );
                assert_eq!(read(&bare), read(&text), "{}", bare);
            }
        }
    }
    assert_eq!(written(123), "\"123\"");
}
