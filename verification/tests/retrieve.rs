use koutendb::error::ErrorKind;
use koutendb::id::KoutenId;
use koutendb::retrieve::{Hit, RetrieveResult, RetrieveStats};

fn stats() -> RetrieveStats {
    RetrieveStats {
        total_vectors: 2,
        scanned: 1,
        skipped_vectors: 0,
        returned: 1,
        rings_touched: 1,
        payload_bytes: 5,
        estimated_tokens: 2,
        fanout_nodes: 1,
        candidate_reduction_bits: 0.5f64.to_bits(),
    }
}

fn hit(seq: u32, payload: &[u8]) -> Hit {
    Hit { id: KoutenId::new(1, 1, seq, 0), score_bits: 0.9f64.to_bits(), payload: payload.to_vec() }
}

#[test]
fn empty_result_has_no_first_hit() {
    let r = RetrieveResult { hits: vec![], stats: stats() };
    assert!(r.is_empty());
    assert_eq!(r.len(), 0);
    assert!(r.first().is_none());
    assert!(r.payloads().is_empty());
    assert_eq!(r.payload_strings().unwrap(), Vec::<&str>::new());
}

#[test]
fn result_accessors_follow_hits() {
    let payload = br#"{"title":"hello rust","lang":"rust"}"#;
    let r = RetrieveResult { hits: vec![hit(1, payload), hit(2, b"second")], stats: stats() };
    assert!(!r.is_empty());
    assert_eq!(r.len(), 2);
    assert_eq!(r.first().unwrap().id.seq, 1);
    assert_eq!(r.payloads(), vec![payload.as_slice(), b"second".as_slice()]);
    assert_eq!(
        r.payload_strings().unwrap(),
        vec![r#"{"title":"hello rust","lang":"rust"}"#, "second"]
    );
    assert_eq!(r.hits[0].payload_utf8().unwrap(), r#"{"title":"hello rust","lang":"rust"}"#);
    assert_eq!(r.stats.scanned, 1);
}

#[test]
fn payload_strings_stop_at_first_bad_payload() {
    let r = RetrieveResult {
        hits: vec![hit(1, b"ok"), hit(2, &[0xc3]), hit(3, &[0xff, 0xfe])],
        stats: stats(),
    };
    let e = r.payload_strings().unwrap_err();
    assert_eq!(e.kind(), ErrorKind::Utf8);
    assert_eq!(e.message(), "incomplete utf-8 byte sequence from index 0");
}

#[test]
fn stats_compare_candidate_reduction_as_floats() {
    let a = RetrieveStats { candidate_reduction_bits: 0.0f64.to_bits(), ..stats() };
    let b = RetrieveStats { candidate_reduction_bits: (-0.0f64).to_bits(), ..stats() };
    assert_eq!(a, b);
    let n = RetrieveStats { candidate_reduction_bits: f64::NAN.to_bits(), ..stats() };
    assert_ne!(n, n.clone());
    assert_ne!(a, RetrieveStats { scanned: 9, ..a.clone() });
    assert_eq!(stats(), stats());
}
