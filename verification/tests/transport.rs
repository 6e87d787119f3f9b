use armature_siem::transport::retry_after_header_to_ms;

#[test]
fn converts_seconds_to_milliseconds() {
    assert_eq!(retry_after_header_to_ms(Some("30")), 30_000);
}

#[test]
fn missing_header_falls_back_to_one_second() {
    assert_eq!(retry_after_header_to_ms(None), 1000);
}

#[test]
fn non_numeric_http_date_falls_back_to_one_second() {
    assert_eq!(retry_after_header_to_ms(Some("Wed, 21 Oct 2015 07:28:00 GMT")), 1000);
}
