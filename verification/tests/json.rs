use weather::json::{
    parse, read_decimal, read_flag, read_list, read_low16, read_low32, read_low8, read_object,
    read_signed, read_text, read_truth, read_unsigned, step, step_at, Json, Real,
};

fn double(x: f64) -> Option<Real> {
    Some(Real { bits: x.to_bits() })
}

#[test]
fn a_document_is_read_node_by_node() {
    let doc = parse("{\"a\":{\"b\":[1,-2,2.5,\"x\",true,null]},\"c\":18446744073709551615}").unwrap();
    let list = step(doc.get("a"), "b");
    assert_eq!(read_signed(step_at(list, 0)), Some(1));
    assert_eq!(read_unsigned(step_at(list, 0)), Some(1));
    assert_eq!(read_decimal(step_at(list, 0)), double(1.0));
    assert_eq!(read_signed(step_at(list, 1)), Some(-2));
    assert_eq!(read_unsigned(step_at(list, 1)), None);
    assert_eq!(read_decimal(step_at(list, 1)), double(-2.0));
    assert_eq!(read_signed(step_at(list, 2)), None);
    assert_eq!(read_unsigned(step_at(list, 2)), None);
    assert_eq!(read_decimal(step_at(list, 2)), double(2.5));
    assert_eq!(read_text(step_at(list, 3)), Some("x".to_owned()));
    assert_eq!(read_decimal(step_at(list, 3)), None);
    assert_eq!(read_truth(step_at(list, 4)), Some(true));
    assert_eq!(read_text(step_at(list, 4)), None);
    assert_eq!(read_truth(step_at(list, 5)), None);
    assert!(step_at(list, 5).is_some());
    assert!(step_at(list, 6).is_none());
    assert_eq!(read_unsigned(doc.get("c")), Some(u64::MAX));
    assert_eq!(read_signed(doc.get("c")), None);
    assert!(doc.get("d").is_none());
    assert!(doc.at(0).is_none());
    assert!(step(list, "b").is_none());
    assert_eq!(read_list(list).map(|l| l.len()), Some(6));
    assert!(read_list(doc.get("a")).is_none());
    assert!(read_object(doc.get("a")).is_some());
    assert!(read_object(list).is_none());
}

#[test]
fn a_text_that_is_no_document_is_not_read() {
    assert!(parse("").is_none());
    assert!(parse("{").is_none());
    assert!(parse("{\"a\":1,}").is_none());
    assert!(parse("[1 2]").is_none());
    assert!(parse("{} x").is_none());
    assert!(matches!(parse("null"), Some(Json::Null)));
    assert!(matches!(parse(" [ ] "), Some(Json::List(_))));
    assert!(matches!(parse("\"a\\u0041\""), Some(Json::Text(_))));
}

#[test]
fn of_a_repeated_key_the_last_value_counts() {
    let doc = parse("{\"a\":1,\"a\":2}").unwrap();
    assert_eq!(read_signed(doc.get("a")), Some(2));
}

#[test]
fn numbers_are_cut_down_to_the_low_bits() {
    let doc = parse("{\"a\":300,\"b\":65537,\"c\":4294967298,\"d\":1,\"e\":0,\"f\":2,\"g\":-1}").unwrap();
    assert_eq!(read_low8(doc.get("a")), Some(44));
    assert_eq!(read_low16(doc.get("a")), Some(300));
    assert_eq!(read_low16(doc.get("b")), Some(1));
    assert_eq!(read_low32(doc.get("b")), Some(65537));
    assert_eq!(read_low32(doc.get("c")), Some(2));
    assert_eq!(read_low8(doc.get("g")), None);
    assert_eq!(read_low16(doc.get("g")), None);
    assert_eq!(read_low32(doc.get("g")), None);
    assert_eq!(read_flag(doc.get("d")), Some(true));
    assert_eq!(read_flag(doc.get("e")), Some(false));
    assert_eq!(read_flag(doc.get("f")), Some(false));
    assert_eq!(read_flag(doc.get("g")), None);
    assert_eq!(read_flag(doc.get("h")), None);
}
