use swayipc_core::json::{parse, Binary64, Json, JsonNumber};

fn unsigned(n: u64) -> Json {
    Json::Number(JsonNumber {
        unsigned: Some(n),
        signed: if n <= i64::MAX as u64 { Some(n as i64) } else { None },
        real: Some(Binary64 { bits: (n as f64).to_bits() }),
    })
}

fn real_of(j: &Json) -> Option<f64> {
    j.as_real().map(|r| f64::from_bits(r.bits))
}

#[test]
fn parse_reads_an_array_of_strings() {
    let j = parse(b"[\"bar-0\",\"bar-1\"]").unwrap();
    match j {
        Json::Array(items) => {
            assert_eq!(items.len(), 2);
            assert_eq!(items[0].as_str(), Some("bar-0"));
            assert_eq!(items[1].as_str(), Some("bar-1"));
        }
        _ => panic!("expected an array"),
    }
}

#[test]
fn parse_reads_the_literals() {
    assert!(parse(b"null").unwrap().is_null());
    assert_eq!(parse(b"true").unwrap().as_bool(), Some(true));
    assert_eq!(parse(b"false").unwrap().as_bool(), Some(false));
    assert_eq!(parse(b" \"a\\u00e9\\n\" ").unwrap().as_str(), Some("a\u{e9}\n"));
}

#[test]
fn parse_refuses_what_is_no_json() {
    assert!(parse(b"").is_none());
    assert!(parse(b"{").is_none());
    assert!(parse(b"[1,]").is_none());
    assert!(parse(b"{\"a\":1} x").is_none());
    assert!(parse(b"nul").is_none());
    assert!(parse(b"'a'").is_none());
    assert!(parse(&[0xff, 0xfe]).is_none());
    assert!(parse(b"\"\xff\"").is_none());
}

#[test]
fn parse_reads_small_unsigned_numbers_three_ways() {
    let j = parse(b"42").unwrap();
    assert_eq!(j.as_u64(), Some(42));
    assert_eq!(j.as_i64(), Some(42));
    assert_eq!(real_of(&j), Some(42.0));
}

#[test]
fn parse_reads_negative_numbers_as_signed_only() {
    let j = parse(b"-42").unwrap();
    assert_eq!(j.as_u64(), None);
    assert_eq!(j.as_i64(), Some(-42));
    assert_eq!(real_of(&j), Some(-42.0));
    let least = parse(b"-9223372036854775808").unwrap();
    assert_eq!(least.as_i64(), Some(i64::MIN));
}

#[test]
fn parse_reads_large_numbers_as_unsigned_only() {
    let j = parse(b"18446744073709551615").unwrap();
    assert_eq!(j.as_u64(), Some(u64::MAX));
    assert_eq!(j.as_i64(), None);
    let edge = parse(b"9223372036854775807").unwrap();
    assert_eq!(edge.as_i64(), Some(i64::MAX));
    assert_eq!(edge.as_u64(), Some(i64::MAX as u64));
    let over = parse(b"9223372036854775808").unwrap();
    assert_eq!(over.as_i64(), None);
    assert_eq!(over.as_u64(), Some(1u64 << 63));
}

#[test]
fn parse_reads_fractions_as_real_only() {
    let j = parse(b"0.5").unwrap();
    assert_eq!(j.as_u64(), None);
    assert_eq!(j.as_i64(), None);
    assert_eq!(real_of(&j), Some(0.5));
    let whole = parse(b"1.0").unwrap();
    assert_eq!(whole.as_u64(), None);
    assert_eq!(real_of(&whole), Some(1.0));
    let exponent = parse(b"-1e3").unwrap();
    assert_eq!(exponent.as_i64(), None);
    assert_eq!(real_of(&exponent), Some(-1000.0));
}

#[test]
fn parse_keeps_the_nesting() {
    let j = parse(b"{\"a\":{\"b\":[1,[2,3],{\"c\":null}]}}").unwrap();
    let b = j.get("a").unwrap().get("b").unwrap().as_array().unwrap();
    assert_eq!(b.len(), 3);
    assert_eq!(b[0].as_u64(), Some(1));
    let inner = b[1].as_array().unwrap();
    assert_eq!(inner.len(), 2);
    assert_eq!(inner[1].as_u64(), Some(3));
    assert!(b[2].get("c").unwrap().is_null());
    assert!(b[2].get("d").is_none());
}

#[test]
fn parse_keeps_every_member_of_an_object() {
    let j = parse(b"{\"zeta\":1,\"alpha\":2,\"mid\":3}").unwrap();
    match &j {
        Json::Object(members) => assert_eq!(members.len(), 3),
        _ => panic!("expected an object"),
    }
    assert_eq!(j.get("zeta").unwrap().as_u64(), Some(1));
    assert_eq!(j.get("alpha").unwrap().as_u64(), Some(2));
    assert_eq!(j.get("mid").unwrap().as_u64(), Some(3));
}

#[test]
fn get_finds_the_first_member_of_a_name() {
    let j = Json::Object(vec![
        ("a".to_string(), unsigned(1)),
        ("b".to_string(), unsigned(2)),
        ("a".to_string(), unsigned(3)),
    ]);
    assert_eq!(j.get("a").unwrap().as_u64(), Some(1));
    assert_eq!(j.get("b").unwrap().as_u64(), Some(2));
    assert!(j.get("c").is_none());
    assert!(j.get("").is_none());
}

#[test]
fn get_tells_names_apart_exactly() {
    let j = Json::Object(vec![
        ("node".to_string(), unsigned(1)),
        ("nodes".to_string(), unsigned(2)),
        ("Nodes".to_string(), unsigned(3)),
        ("n\u{f6}des".to_string(), unsigned(4)),
    ]);
    assert_eq!(j.get("nodes").unwrap().as_u64(), Some(2));
    assert_eq!(j.get("node").unwrap().as_u64(), Some(1));
    assert_eq!(j.get("Nodes").unwrap().as_u64(), Some(3));
    assert_eq!(j.get("n\u{f6}des").unwrap().as_u64(), Some(4));
    assert!(j.get("nod").is_none());
    assert!(j.get("nodess").is_none());
}

#[test]
fn get_on_what_is_no_object_finds_nothing() {
    assert!(Json::Null.get("a").is_none());
    assert!(Json::Array(vec![unsigned(1)]).get("0").is_none());
    assert!(Json::String("a".to_string()).get("a").is_none());
}

#[test]
fn readings_of_the_wrong_kind_are_none() {
    let text = Json::String("1".to_string());
    assert_eq!(text.as_u64(), None);
    assert_eq!(text.as_i64(), None);
    assert_eq!(text.as_bool(), None);
    assert!(text.as_real().is_none());
    assert!(text.as_array().is_none());
    assert!(!text.is_null());
    assert!(!text.is_object());
    let number = unsigned(1);
    assert_eq!(number.as_str(), None);
    assert_eq!(number.as_bool(), None);
    assert!(Json::Object(Vec::new()).is_object());
    assert!(Json::Object(Vec::new()).as_array().is_none());
}
