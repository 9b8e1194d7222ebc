use blog_backend::oid::{id_to_hex, parse_object_id, PostId};

#[test]
fn parse_all_zero() {
    let id = parse_object_id("000000000000000000000000").unwrap();
    assert_eq!(id, PostId { hi: 0, lo: 0 });
}

#[test]
fn parse_exact_value() {
    let id = parse_object_id("0000000000000001000000ff").unwrap();
    assert_eq!(id, PostId { hi: 1, lo: 255 });
}

#[test]
fn parse_mixed_case() {
    let id = parse_object_id("AbCdEf0123456789aBcDeF01").unwrap();
    assert_eq!(
        id,
        PostId {
            hi: 0xabcdef0123456789,
            lo: 0xabcdef01,
        }
    );
}

#[test]
fn parse_rejects_short() {
    assert!(parse_object_id("abc").is_none());
    assert!(parse_object_id("").is_none());
    assert!(parse_object_id("00000000000000000000000").is_none());
}

#[test]
fn parse_rejects_long() {
    assert!(parse_object_id("0000000000000000000000000").is_none());
}

#[test]
fn parse_rejects_non_hex() {
    assert!(parse_object_id("g0000000000000000000000z").is_none());
    assert!(parse_object_id("0000000000000000000000 0").is_none());
}

#[test]
fn print_all_zero() {
    let s = id_to_hex(&PostId { hi: 0, lo: 0 });
    assert_eq!(s, "000000000000000000000000");
}

#[test]
fn print_exact_value() {
    let s = id_to_hex(&PostId {
        hi: 0x0123456789abcdef,
        lo: 0xdeadbeef,
    });
    assert_eq!(s, "0123456789abcdefdeadbeef");
}

#[test]
fn hex_round_trip() {
    let id = PostId {
        hi: 0xfedcba9876543210,
        lo: 0x89abcdef,
    };
    let s = id_to_hex(&id);
    assert_eq!(parse_object_id(&s), Some(id));
}
