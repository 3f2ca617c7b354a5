use koutendb::codec::{string_from_utf8, EncodedPayload, PayloadCodec};
use koutendb::error::ErrorKind;

#[test]
fn codec_numbers_roundtrip() {
    for c in [PayloadCodec::Raw, PayloadCodec::Json, PayloadCodec::Nif, PayloadCodec::Bif] {
        assert_eq!(PayloadCodec::from_c(c.as_c()).unwrap(), c);
    }
    assert_eq!(PayloadCodec::Raw.as_c(), 0);
    assert_eq!(PayloadCodec::Json.as_c(), 1);
    assert_eq!(PayloadCodec::Nif.as_c(), 2);
    assert_eq!(PayloadCodec::Bif.as_c(), 3);
}

#[test]
fn unknown_codec_is_an_abi_error() {
    let e = PayloadCodec::from_c(4).unwrap_err();
    assert_eq!(e.kind(), ErrorKind::Abi);
    assert_eq!(e.message(), "invalid KoutenDB payload codec 4");
    let e = PayloadCodec::from_c(-1).unwrap_err();
    assert_eq!(e.message(), "invalid KoutenDB payload codec -1");
}

#[test]
fn encoded_payload_constructors_set_codec() {
    assert_eq!(EncodedPayload::raw(vec![1]).codec, PayloadCodec::Raw);
    assert_eq!(EncodedPayload::json(b"{}".to_vec()).codec, PayloadCodec::Json);
    assert_eq!(EncodedPayload::nif(vec![]).codec, PayloadCodec::Nif);
    let b = EncodedPayload::bif(vec![1, 2, 3, 4]);
    assert_eq!(b.codec, PayloadCodec::Bif);
    assert_eq!(b.data, vec![1, 2, 3, 4]);
    assert_eq!(EncodedPayload::new(vec![9], PayloadCodec::Json), EncodedPayload::json(vec![9]));
    let p = EncodedPayload::from_abi(vec![5], 3).unwrap();
    assert_eq!(p, EncodedPayload::bif(vec![5]));
    assert_eq!(EncodedPayload::from_abi(vec![5], 9).unwrap_err().kind(), ErrorKind::Abi);
}

#[test]
fn payload_text_is_checked_utf8() {
    let p = EncodedPayload::json(br#"{"title":"hello rust","lang":"rust"}"#.to_vec());
    assert_eq!(p.as_utf8().unwrap(), r#"{"title":"hello rust","lang":"rust"}"#);
    let bad = EncodedPayload::raw(vec![b'a', 0xff]);
    let e = bad.as_utf8().unwrap_err();
    assert_eq!(e.kind(), ErrorKind::Utf8);
    assert_eq!(e.message(), std::str::from_utf8(&[b'a', 0xff]).unwrap_err().to_string());
    assert_eq!(e.message(), "invalid utf-8 sequence of 1 bytes from index 1");
    assert_eq!(string_from_utf8("héllo".as_bytes().to_vec()).unwrap(), "héllo");
    assert_eq!(string_from_utf8(vec![0xe2, 0x82]).unwrap_err().kind(), ErrorKind::Utf8);
}
