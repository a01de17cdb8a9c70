use secmon::clock::{format_in_zone, timestamp_utc, Zone};
use secmon::models::node::Timestamp;
use secmon::numbers::{parse_u16, parse_u64};
use secmon::text::{decimal_string, owned};

#[test]
fn decimal_round_trip() {
    for n in [0u64, 7, 10, 12345, u64::MAX] {
        let s = decimal_string(n);
        assert_eq!(s, n.to_string());
        assert_eq!(parse_u64(&s), Ok(n));
    }
}

#[test]
fn number_parsing_errors() {
    assert_eq!(parse_u64(""), Err("cannot parse integer from empty string".to_string()));
    assert_eq!(parse_u16("70000"), Err("number too large to fit in target type".to_string()));
    assert_eq!(parse_u16("+22"), Ok(22));
}

#[test]
fn timestamps() {
    assert_eq!(Timestamp::new(-62135596801, 0).unwrap().secs(), -62135596801);
    assert!(Timestamp::new(i64::MIN, 999_999_999).is_some());
    assert_eq!(Timestamp::carried(5, 1_000_000_001), Timestamp::new(6, 1));
    assert_eq!(Timestamp::carried(i64::MAX, 1_000_000_001), None);
    assert_eq!(Timestamp::carried(5, 2_000_000_000), None);
    assert!(Timestamp::new(8210266876799, 0).unwrap().is_renderable());
    assert!(!Timestamp::new(8210266876800, 0).unwrap().is_renderable());
    assert!(Timestamp::new(-8334601315200, 0).unwrap().is_renderable());
    assert!(!Timestamp::new(-8334601315201, 0).unwrap().is_renderable());
    assert!(Timestamp::new(0, 1_000_000_000).is_none());
    let t = Timestamp::new(86399, 5).unwrap();
    assert_eq!(t.secs(), 86399);
    assert_eq!(t.nanos(), 5);
    assert!(t.is_after(&Timestamp::epoch()));
    assert_eq!(timestamp_utc(&Timestamp::new(86399, 0).unwrap()), "1970-01-01 23:59:59 UTC");
}

#[test]
fn zones() {
    assert_eq!(format_in_zone("Asia/Tokyo", 0, 0, "%H:%M"), Some("09:00".to_string()));
    assert_eq!(format_in_zone("Nowhere/City", 0, 0, "%H:%M"), None);
    let z = Zone::parse("America/New_York").unwrap();
    assert_eq!(z.render(&Timestamp::epoch(), "%F %T"), "1969-12-31 19:00:00");
    assert_eq!(owned("x"), "x");
}
