use koutendb::error::{Error, ErrorKind};
use koutendb::id::{empty_id, finish_id, parse_id_text, KoutenId};

/// Reads an id as the driver does: the library reads the integer fields,
/// the float of the write time is read here.
fn parse(value: &str) -> Result<KoutenId, Error> {
    let text = parse_id_text(value)?;
    let t = text.t_write.clone();
    let bits = t.parse::<f64>().map(f64::to_bits).map_err(|e| e.to_string());
    finish_id(value, text, bits)
}

fn show(id: &KoutenId) -> String {
    id.format_with(&f64::from_bits(id.t_write_bits).to_string())
}

#[test]
fn id_parse_reports_invalid_input() {
    let parsed = parse("1:2:3:4.5").unwrap();
    assert_eq!(parsed, KoutenId::new(1, 2, 3, 4.5f64.to_bits()));
    assert_eq!(show(&parsed), "1:2:3:4.5");
    assert_eq!(parse("1:2:3:4.5").unwrap(), parsed);

    let err = parse("1:2:3").unwrap_err();
    assert_eq!(err.kind(), ErrorKind::InvalidId);
    assert!(err.message().contains("missing"));

    let err = parse("1:2:3:4:5").unwrap_err();
    assert_eq!(err.kind(), ErrorKind::InvalidId);
    assert!(err.message().contains("too many"));
}

#[test]
fn id_parse_messages_name_the_field() {
    let e = parse("").unwrap_err();
    assert_eq!(e.message(), "invalid KoutenDB id field 'parent': cannot parse integer from empty string");
    let e = parse("1:x:3:4").unwrap_err();
    assert_eq!(e.message(), "invalid KoutenDB id field 'epoch': invalid digit found in string");
    let e = parse("1:2:4294967296:4").unwrap_err();
    assert_eq!(e.message(), "invalid KoutenDB id field 'seq': number too large to fit in target type");
    let e = parse("1").unwrap_err();
    assert_eq!(e.message(), "invalid KoutenDB id: missing epoch");
    let e = parse("1:2").unwrap_err();
    assert_eq!(e.message(), "invalid KoutenDB id: missing seq");
    let e = parse("1:2:3").unwrap_err();
    assert_eq!(e.message(), "invalid KoutenDB id: missing t_write");
    let e = parse("1:2:3:4:5").unwrap_err();
    assert_eq!(e.message(), "invalid KoutenDB id '1:2:3:4:5': too many fields");
    assert_eq!(e.kind(), ErrorKind::InvalidId);
}

#[test]
fn id_parse_write_time_error_comes_before_extra_fields() {
    let e = parse("1:2:3:abc:5").unwrap_err();
    assert_eq!(e.kind(), ErrorKind::InvalidId);
    assert_eq!(e.message(), "invalid KoutenDB id field 't_write': invalid float literal");
}

#[test]
fn id_parse_integer_rules() {
    let id = parse("+18446744073709551615:+4294967295:0:0").unwrap();
    assert_eq!(id.parent, u64::MAX);
    assert_eq!(id.epoch, u32::MAX);
    assert_eq!(id.seq, 0);
    assert!(parse("18446744073709551616:1:1:1").is_err());
    assert!(parse("-1:1:1:1").is_err());
    assert!(parse("+:1:1:1").is_err());
    let text = parse_id_text("7:8:9:1e3").unwrap();
    assert_eq!(text.parent, 7);
    assert_eq!(text.epoch, 8);
    assert_eq!(text.seq, 9);
    assert_eq!(text.t_write, "1e3");
    assert!(!text.extra_fields);
    assert!(parse_id_text("7:8:9:1:2").unwrap().extra_fields);
}

#[test]
fn id_text_roundtrips() {
    for id in [
        KoutenId::new(u64::MAX, u32::MAX, 0, 0.1f64.to_bits()),
        KoutenId::new(0, 0, 0, 0),
        KoutenId::new(42, 7, 1, (-3.25f64).to_bits()),
        KoutenId::new(10, 100, 1000, 1.0e300f64.to_bits()),
    ] {
        let text = show(&id);
        assert_eq!(parse(&text).unwrap(), id);
    }
}

#[test]
fn id_format_with_write_time_text() {
    let id = KoutenId::new(12, 0, 305, 0);
    assert_eq!(id.format_with("9.75"), "12:0:305:9.75");
}

#[test]
fn id_emptiness_and_equality_follow_the_float() {
    assert!(empty_id().is_empty());
    assert!(KoutenId::new(0, 0, 0, (-0.0f64).to_bits()).is_empty());
    assert!(!KoutenId::new(0, 0, 0, 1.0f64.to_bits()).is_empty());
    assert!(!KoutenId::new(0, 1, 0, 0).is_empty());
    assert_eq!(KoutenId::new(1, 2, 3, 0.0f64.to_bits()), KoutenId::new(1, 2, 3, (-0.0f64).to_bits()));
    let nan = KoutenId::new(1, 2, 3, f64::NAN.to_bits());
    assert_ne!(nan, nan);
    assert_ne!(KoutenId::new(1, 2, 3, 0), KoutenId::new(1, 2, 4, 0));
}
