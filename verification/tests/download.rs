use dv4lua::error::Error;
use dv4lua::multi::dl::{
    few_digits, read_expire, CacheEntry, DlStep, Download, DIGIT_LIMIT,
};
use dv4lua::multi::once::RecordKey;
use dv4lua::value::ScriptValue;

fn text(s: &str) -> ScriptValue {
    ScriptValue::Text(s.to_string())
}

fn entry(content: &str, fetched_at: u64) -> CacheEntry {
    CacheEntry { content: content.to_string(), fetched_at }
}

#[test]
fn expire_is_read_as_a_duration() {
    assert_eq!(read_expire(None), Ok(None));
    assert_eq!(read_expire(Some(&text("1h 30min"))), Ok(Some(5400)));
    assert_eq!(read_expire(Some(&text("2days"))), Ok(Some(172_800)));
    assert_eq!(read_expire(Some(&text("0"))), Ok(Some(0)));
    assert_eq!(read_expire(Some(&text("0s"))), Ok(Some(0)));
    assert_eq!(read_expire(Some(&text("1500ms"))), Ok(Some(1)));
    assert_eq!(read_expire(Some(&text("90"))).is_err(), true);
}

#[test]
fn expire_refuses_what_is_no_duration() {
    let expected = Error::ConversionError {
        from: "value".to_string(),
        to: "duration".to_string(),
        message: Some("expected a duration such as 1h 30min".to_string()),
    };
    assert_eq!(read_expire(Some(&text("soon"))), Err(expected.clone()));
    assert_eq!(read_expire(Some(&text(""))), Err(expected.clone()));
    assert_eq!(read_expire(Some(&ScriptValue::Boolean(true))), Err(expected.clone()));
    assert_eq!(read_expire(Some(&ScriptValue::Nil)), Err(expected.clone()));
    assert_eq!(read_expire(Some(&ScriptValue::Other)), Err(expected));
}

#[test]
fn expire_of_many_digits_is_refused() {
    let expected = Error::ConversionError {
        from: "value".to_string(),
        to: "duration".to_string(),
        message: Some("expected a duration such as 1h 30min".to_string()),
    };
    assert_eq!(DIGIT_LIMIT, 11);
    assert!(few_digits(""));
    assert!(few_digits("no digit at all"));
    assert!(few_digits("12345678901"));
    assert!(few_digits("1h 2min 3s 45678901ns"));
    assert!(!few_digits("123456789012"));
    assert!(!few_digits("1h 2min 3s 456789012ns"));
    assert_eq!(read_expire(Some(&text("12345678901s"))), Ok(Some(12_345_678_901)));
    assert_eq!(read_expire(Some(&text("99999999999y"))), Ok(Some(3_155_759_999_968_442_400)));
    assert_eq!(read_expire(Some(&text("123456789012s"))), Err(expected.clone()));
    assert_eq!(
        read_expire(Some(&text("18446744073709551615s 1000ms"))),
        Err(expected.clone())
    );
    assert_eq!(read_expire(Some(&text("1s 1000ms"))), Ok(Some(2)));
    assert_eq!(read_expire(Some(&text("999ms 1ms"))), Ok(Some(1)));
    assert_eq!(read_expire(Some(&text("9999999s 1000ms"))), Ok(Some(10_000_000)));
    assert_eq!(read_expire(Some(&text("99999999999s 1000ms"))), Err(expected));
}

#[test]
fn cached_body_is_used_while_fresh() {
    let forever = Download::new("https://example.org/a", None);
    assert_eq!(forever.plan(None, 100), DlStep::Fetch);
    assert_eq!(forever.plan(Some(entry("body", 0)), u64::MAX), DlStep::Cached("body".to_string()));

    let hour = Download::new("https://example.org/a", Some(3600));
    assert_eq!(hour.plan(Some(entry("body", 1000)), 1000), DlStep::Cached("body".to_string()));
    assert_eq!(hour.plan(Some(entry("body", 1000)), 4600), DlStep::Cached("body".to_string()));
    assert_eq!(hour.plan(Some(entry("body", 1000)), 4601), DlStep::Fetch);
    assert_eq!(hour.plan(None, 4601), DlStep::Fetch);
    // A body from the future is as young as can be.
    assert_eq!(hour.plan(Some(entry("body", 5000)), 1000), DlStep::Cached("body".to_string()));
}

#[test]
fn zero_expire_always_fetches() {
    let now = Download::new("https://example.org/a", Some(0));
    assert_eq!(now.plan(Some(entry("body", 1000)), 1000), DlStep::Fetch);
    assert_eq!(now.plan(Some(entry("body", 1000)), 999), DlStep::Fetch);
    assert_eq!(now.plan(None, 0), DlStep::Fetch);
}

#[test]
fn fetched_body_is_kept_with_its_time() {
    let download = Download::new("https://example.org/a", Some(10));
    let kept = download.fetched("fresh".to_string(), 77);
    assert_eq!(kept, entry("fresh", 77));
    assert_eq!(download.plan(Some(kept), 80), DlStep::Cached("fresh".to_string()));
    assert_eq!(
        download.record(),
        RecordKey::Download { url: "https://example.org/a".to_string() }
    );
}
