use hoyo_signin::api::{parse_date, ApiResponse, ApiResponseError};

fn envelope(retcode: i32, message: &str, data: Option<u32>) -> ApiResponse<u32> {
    ApiResponse { retcode, message: message.to_string(), data }
}

#[test]
fn extract_returns_payload_on_success() {
    assert!(matches!(envelope(0, "OK", Some(7)).extract(), Ok(7)));
}

#[test]
fn extract_without_payload_is_malformed() {
    assert!(matches!(envelope(0, "OK", None).extract(), Err(ApiResponseError::Malformed)));
}

#[test]
fn extract_forwards_provider_message() {
    match envelope(-5003, "already checked in", Some(1)).extract() {
        Err(ApiResponseError::Provider(m)) => assert_eq!(m, "already checked in"),
        other => panic!("unexpected {:?}", other),
    }
    match envelope(10, "", None).extract() {
        Err(ApiResponseError::Provider(m)) => assert_eq!(m, ""),
        other => panic!("unexpected {:?}", other),
    }
}

#[test]
fn parse_date_reads_year_month_day() {
    let d = parse_date("2021-03-14").unwrap();
    assert_eq!((d.year(), d.month(), d.day()), (2021, 3, 14));
    assert_eq!(d.day0(), 13);
    assert_eq!(parse_date("2021-03-01").unwrap().day0(), 0);
}

#[test]
fn parse_date_rejects_bad_dates() {
    assert!(parse_date("2021-02-30").is_none());
    assert!(parse_date("yesterday").is_none());
    assert!(parse_date("").is_none());
}
