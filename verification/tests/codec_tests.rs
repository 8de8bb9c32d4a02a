use tote::Codec;
use tote::GetStep;
use tote::Record;
use tote::Tote;

#[test]
fn encode_exact_payload() {
    let rec = Record {
        name: "Test".to_owned(),
        value: 50,
    };
    assert_eq!(rec.encode().as_str(), "050Test");

    let rec = Record {
        name: String::new(),
        value: 255,
    };
    assert_eq!(rec.encode().as_str(), "255");

    let rec = Record {
        name: "0".to_owned(),
        value: 0,
    };
    assert_eq!(rec.encode().as_str(), "0000");
}

#[test]
fn decode_inverts_encode() {
    let cases = vec![
        Record {
            name: "Test".to_owned(),
            value: 50,
        },
        Record {
            name: String::new(),
            value: 0,
        },
        Record {
            name: "255255".to_owned(),
            value: 255,
        },
        Record {
            name: "névé ❄".to_owned(),
            value: 7,
        },
    ];
    for rec in cases {
        let decoded = Record::decode(rec.encode().as_str()).unwrap();
        assert_eq!(decoded, rec);
    }
}

#[test]
fn decode_rejects_malformed_payloads() {
    // too short
    assert!(Record::decode("").is_none());
    assert!(Record::decode("05").is_none());
    // not digits where the value belongs
    assert!(Record::decode("05x").is_none());
    assert!(Record::decode("abcTest").is_none());
    // a three-digit number that does not fit in the value's range
    assert!(Record::decode("256").is_none());
    assert!(Record::decode("999Test").is_none());
    // the boundary value itself is accepted
    let rec = Record::decode("255").unwrap();
    assert_eq!(rec.value, 255);
    assert_eq!(rec.name, "");
}

#[test]
fn fetched_value_is_staged_verbatim() {
    // The event-driven fetch path, as a suspending host would drive it: the
    // host performs the fetch itself and hands the outcome back.
    let cache: Tote<Record> = Tote::new("test.cache".to_owned(), 300);
    let fetched = Record {
        name: "Test".to_owned(),
        value: 50,
    };
    match cache.on_fetched(Ok(fetched.clone())) {
        GetStep::WriteFile { payload, value } => {
            assert_eq!(value, fetched);
            assert_eq!(payload.as_str(), "050Test");
        }
        _ => panic!("a fetched value must be staged as a write"),
    }
}
