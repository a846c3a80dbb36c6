use std::collections::HashMap;

use warc_header::WarcHeader;

fn known() -> Vec<(WarcHeader, &'static str)> {
    vec![
        (WarcHeader::ContentLength, "Content-Length"),
        (WarcHeader::ContentType, "Content-Type"),
        (WarcHeader::BlockDigest, "WARC-Block-Digest"),
        (WarcHeader::ConcurrentTo, "WARC-Concurrent-To"),
        (WarcHeader::Date, "WARC-Date"),
        (WarcHeader::Filename, "WARC-Filename"),
        (WarcHeader::IdentifiedPayloadType, "WARC-Identified-Payload-Type"),
        (WarcHeader::IPAddress, "WARC-IP-Address"),
        (WarcHeader::PayloadDigest, "WARC-Payload-Digest"),
        (WarcHeader::Profile, "WARC-Profile"),
        (WarcHeader::RecordID, "WARC-Record-ID"),
        (WarcHeader::RefersTo, "WARC-Refers-To"),
        (WarcHeader::SegmentNumber, "WARC-Segment-Number"),
        (WarcHeader::SegmentOriginID, "WARC-Segment-Origin-ID"),
        (WarcHeader::SegmentTotalLength, "WARC-Segment-Total-Length"),
        (WarcHeader::TargetURI, "WARC-Target-URI"),
        (WarcHeader::Truncated, "WARC-Truncated"),
        (WarcHeader::WarcType, "WARC-Type"),
        (WarcHeader::WarcInfoID, "WARC-Warcinfo-ID"),
        (WarcHeader::ArchiveFormat, "LCC-Archive-Format"),
        (WarcHeader::Title, "LCC-Title"),
        (WarcHeader::CanonicalURI, "LCC-Canonical-URI"),
        (WarcHeader::PredictedLanguage, "LCC-Predicted-Language"),
        (WarcHeader::AcquisitionDate, "LCC-Acquisition-Date"),
    ]
}

fn alternate_case(s: &str) -> String {
    s.chars()
        .enumerate()
        .map(|(i, c)| if i % 2 == 0 { c.to_ascii_uppercase() } else { c.to_ascii_lowercase() })
        .collect()
}

#[test]
fn renders_canonical_names() {
    for (h, name) in known() {
        assert_eq!(h.as_str(), name);
        assert_eq!(h.to_string(), name);
        assert_eq!(String::from(h), name);
    }
}

#[test]
fn round_trip_known() {
    for (h, _) in known() {
        assert_eq!(WarcHeader::parse(&h.to_string()), h);
    }
}

#[test]
fn parse_ignores_case() {
    for (h, name) in known() {
        assert_eq!(WarcHeader::parse(&name.to_uppercase()), h);
        assert_eq!(WarcHeader::parse(&name.to_lowercase()), h);
        assert_eq!(WarcHeader::parse(&alternate_case(name)), h);
    }
}

#[test]
fn unknown_keeps_lowercase_text() {
    let h = WarcHeader::parse("X-Vendor-Thing");
    assert_eq!(h, WarcHeader::Unknown("x-vendor-thing".to_string()));
    assert_eq!(h.as_str(), "x-vendor-thing");
}

#[test]
fn unknown_lowercases_non_ascii() {
    let h = WarcHeader::parse("X-ÄÖÜ");
    assert_eq!(h, WarcHeader::Unknown("x-äöü".to_string()));
    assert_eq!(h.to_string(), "x-äöü");
}

#[test]
fn renders_are_distinct() {
    let all = known();
    for (i, (_, a)) in all.iter().enumerate() {
        for (_, b) in all.iter().skip(i + 1) {
            assert_ne!(a, b);
        }
    }
}

#[test]
fn normalization_is_idempotent() {
    let inputs = ["WARC-Type", "warc-DATE", "X-Custom-Header", "", "lcc-title", "Content-length "];
    for t in inputs {
        let once = WarcHeader::parse(t);
        let twice = WarcHeader::parse(&once.to_string());
        assert_eq!(once, twice);
    }
}

#[test]
fn scenario_warc_type() {
    let h = WarcHeader::parse("WARC-Type");
    assert_eq!(h, WarcHeader::WarcType);
    assert_eq!(h.to_string(), "WARC-Type");
}

#[test]
fn scenario_content_length() {
    let h = WarcHeader::parse("content-length");
    assert_eq!(h, WarcHeader::ContentLength);
    assert_eq!(h.to_string(), "Content-Length");
}

#[test]
fn scenario_custom_header() {
    let h = WarcHeader::parse("X-Custom-Header");
    assert_eq!(h, WarcHeader::Unknown("x-custom-header".to_string()));
    assert_eq!(h.to_string(), "x-custom-header");
}

#[test]
fn scenario_empty() {
    let h = WarcHeader::parse("");
    assert_eq!(h, WarcHeader::Unknown(String::new()));
    assert_eq!(h.to_string(), "");
}

#[test]
fn extension_names_parse() {
    assert_eq!(WarcHeader::parse("lcc-archive-format"), WarcHeader::ArchiveFormat);
    assert_eq!(WarcHeader::parse("LCC-PREDICTED-LANGUAGE"), WarcHeader::PredictedLanguage);
    assert_eq!(WarcHeader::parse("LCC-"), WarcHeader::Unknown("lcc-".to_string()));
}

#[test]
fn near_misses_are_unknown() {
    assert_eq!(WarcHeader::parse("WARC-Typ"), WarcHeader::Unknown("warc-typ".to_string()));
    assert_eq!(WarcHeader::parse(" WARC-Type"), WarcHeader::Unknown(" warc-type".to_string()));
    assert_eq!(WarcHeader::parse("WARC_Type"), WarcHeader::Unknown("warc_type".to_string()));
}

#[test]
fn from_lowered_matches_exactly() {
    assert_eq!(WarcHeader::from_lowered("warc-record-id".to_string()), WarcHeader::RecordID);
    assert_eq!(
        WarcHeader::from_lowered("WARC-Record-ID".to_string()),
        WarcHeader::Unknown("WARC-Record-ID".to_string())
    );
}

#[test]
fn from_conversions_parse() {
    assert_eq!(WarcHeader::from("Warc-Target-Uri"), WarcHeader::TargetURI);
    assert_eq!(WarcHeader::from("WARC-IP-ADDRESS".to_string()), WarcHeader::IPAddress);
    assert_eq!(WarcHeader::from("Other"), WarcHeader::Unknown("other".to_string()));
}

#[test]
fn usable_as_map_key() {
    let mut map: HashMap<WarcHeader, &str> = HashMap::new();
    map.insert(WarcHeader::parse("warc-type"), "response");
    map.insert(WarcHeader::parse("X-A"), "1");
    assert_eq!(map.get(&WarcHeader::WarcType), Some(&"response"));
    assert_eq!(map.get(&WarcHeader::Unknown("x-a".to_string())), Some(&"1"));
    assert_eq!(map.get(&WarcHeader::Unknown("X-A".to_string())), None);
}

#[test]
fn from_text_scenarios() {
    assert_eq!(WarcHeader::from("WARC-Type"), WarcHeader::WarcType);
    assert_eq!(WarcHeader::from("warc-type"), WarcHeader::WarcType);
    assert_eq!(WarcHeader::from("WARC-TYPE"), WarcHeader::WarcType);
    assert_eq!(WarcHeader::from("Warc-Type"), WarcHeader::WarcType);
    assert_eq!(WarcHeader::from("content-length"), WarcHeader::ContentLength);
    assert_eq!(WarcHeader::from("CONTENT-LENGTH"), WarcHeader::ContentLength);
    assert_eq!(
        WarcHeader::from("X-Custom-Header"),
        WarcHeader::Unknown("x-custom-header".to_string())
    );
    assert_eq!(WarcHeader::from(""), WarcHeader::Unknown(String::new()));
    assert_eq!(WarcHeader::from("lcc-archive-format"), WarcHeader::ArchiveFormat);
    assert_eq!(WarcHeader::from("LCC-Title"), WarcHeader::Title);
    assert_eq!(WarcHeader::from("LCC-ACQUISITION-DATE".to_string()), WarcHeader::AcquisitionDate);
}

#[test]
fn from_round_trip_and_idempotent() {
    for (h, _) in known() {
        assert_eq!(WarcHeader::from(String::from(h.clone())), h);
    }
    for t in ["WARC-Type", "X-Custom-Header", "", "X-ÄÖÜ", "Ärger"] {
        let once = WarcHeader::from(t);
        let twice = WarcHeader::from(String::from(once.clone()));
        assert_eq!(once, twice);
    }
}
