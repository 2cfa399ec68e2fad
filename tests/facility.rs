use facilities::{
    CalendarDate, Facility, FacilityError, Latitude, LatitudeBoundsError, Longitude,
    LongitudeBoundsError, PayloadError,
};

fn date(year: i32, month: u32, day: u32) -> CalendarDate {
    CalendarDate::from_ymd(year, month, day).unwrap()
}

fn payload_facility(json: &str) -> Result<Facility, PayloadError> {
    let v: serde_json::Value = serde_json::from_str(json).unwrap();
    Facility::from_payload(
        v["uid"].as_str().unwrap().to_string(),
        v["company"].as_str().unwrap().to_string(),
        v["segment"].as_str().unwrap().to_string(),
        v["technology"].as_str().unwrap().to_string(),
        (v["latitude"].as_f64().unwrap() as f32).to_bits(),
        (v["longitude"].as_f64().unwrap() as f32).to_bits(),
        v["announcement_date"].as_str().unwrap(),
        v["estimated_investment"].as_i64(),
    )
}

#[test]
fn bad_latitude_error() {
    let facility_result = Facility::new(
        String::from("a_uid"),
        String::from("fancy company"),
        String::from("some sector"),
        String::from("fancy tech"),
        10000.0f32.to_bits(),
        150.0f32.to_bits(),
        date(2024, 12, 24),
        Some(123),
    );
    assert_eq!(facility_result, Err(FacilityError::LatitudeBounds));
}

#[test]
fn bad_longitude_error() {
    let facility_result = Facility::new(
        String::from("a_uid"),
        String::from("fancy company"),
        String::from("some sector"),
        String::from("fancy tech"),
        80.5f32.to_bits(),
        10000.0f32.to_bits(),
        date(2024, 12, 24),
        Some(123),
    );
    assert_eq!(facility_result, Err(FacilityError::LongitudeBounds));
}

#[test]
fn deserialize_json_facility_with_investment() {
    let expected = Facility {
        uid: String::from("a_uid"),
        company: String::from("fancy company"),
        segment: String::from("some sector"),
        technology: String::from("fancy tech"),
        latitude: Latitude::try_from_bits(80.5f32.to_bits()).unwrap(),
        longitude: Longitude::try_from_bits((-120.0f32).to_bits()).unwrap(),
        announcement_date: date(2024, 12, 24),
        estimated_investment: Some(123),
    };
    let actual = payload_facility(
        r#"{
            "uid": "a_uid",
            "company": "fancy company",
            "segment": "some sector",
            "technology": "fancy tech",
            "latitude": 80.5,
            "longitude": -120.0,
            "announcement_date": "2024-12-24",
            "estimated_investment": 123
        }"#,
    )
    .unwrap();
    assert_eq!(actual, expected);
}

#[test]
fn deserialize_json_facility_without_investment() {
    let expected = Facility {
        uid: String::from("a_uid"),
        company: String::from("fancy company"),
        segment: String::from("some sector"),
        technology: String::from("fancy tech"),
        latitude: Latitude::try_from_bits(80.5f32.to_bits()).unwrap(),
        longitude: Longitude::try_from_bits((-120.0f32).to_bits()).unwrap(),
        announcement_date: date(2024, 12, 24),
        estimated_investment: None,
    };
    let actual = payload_facility(
        r#"{
            "uid": "a_uid",
            "company": "fancy company",
            "segment": "some sector",
            "technology": "fancy tech",
            "latitude": 80.5,
            "longitude": -120.0,
            "announcement_date": "2024-12-24",
            "estimated_investment": null
        }"#,
    )
    .unwrap();
    assert_eq!(actual, expected);
}

#[test]
fn payload_with_bad_latitude_is_refused() {
    let r = payload_facility(
        r#"{"uid": "u", "company": "c", "segment": "s", "technology": "t",
            "latitude": 91.0, "longitude": 0.0, "announcement_date": "2024-12-24",
            "estimated_investment": null}"#,
    );
    assert_eq!(r, Err(PayloadError::Coordinates(FacilityError::LatitudeBounds)));
}

#[test]
fn payload_with_bad_longitude_is_refused() {
    let r = payload_facility(
        r#"{"uid": "u", "company": "c", "segment": "s", "technology": "t",
            "latitude": 0.0, "longitude": -180.5, "announcement_date": "2024-12-24",
            "estimated_investment": 5}"#,
    );
    assert_eq!(r, Err(PayloadError::Coordinates(FacilityError::LongitudeBounds)));
}

#[test]
fn payload_with_bad_date_is_refused() {
    let r = payload_facility(
        r#"{"uid": "u", "company": "c", "segment": "s", "technology": "t",
            "latitude": 0.0, "longitude": 0.0, "announcement_date": "2024-02-30",
            "estimated_investment": 5}"#,
    );
    assert_eq!(r, Err(PayloadError::AnnouncementDate));
}

#[test]
fn both_coordinates_bad_reports_latitude() {
    let r = Facility::new(
        String::from("u"),
        String::from("c"),
        String::from("s"),
        String::from("t"),
        10000.0f32.to_bits(),
        10000.0f32.to_bits(),
        date(2024, 12, 24),
        None,
    );
    assert_eq!(r, Err(FacilityError::LatitudeBounds));
}

#[test]
fn valid_facility_keeps_its_fields() {
    let f = Facility::new(
        String::from("u"),
        String::from("c"),
        String::from("s"),
        String::from("t"),
        (-90.0f32).to_bits(),
        180.0f32.to_bits(),
        date(2000, 2, 29),
        Some(-7),
    )
    .unwrap();
    assert_eq!(f.uid, "u");
    assert_eq!(f32::from_bits(f.latitude.to_bits()), -90.0);
    assert_eq!(f32::from_bits(f.longitude.to_bits()), 180.0);
    assert_eq!(f.announcement_date, date(2000, 2, 29));
    assert_eq!(f.estimated_investment, Some(-7));
}

#[test]
fn latitude_in_range_round_trips() {
    for v in [-90.0f32, -89.999, -0.0, 0.0, 1e-30, 45.25, 80.5, 90.0] {
        let lat = Latitude::try_from_bits(v.to_bits()).unwrap();
        assert_eq!(lat.to_bits(), v.to_bits());
    }
}

#[test]
fn latitude_out_of_range_fails() {
    let just_above = f32::from_bits(90.0f32.to_bits() + 1);
    for v in [-90.001f32, 90.001, just_above, -just_above, 10000.0, f32::INFINITY, f32::NEG_INFINITY, f32::NAN] {
        assert_eq!(Latitude::try_from_bits(v.to_bits()), Err(LatitudeBoundsError));
    }
}

#[test]
fn longitude_in_range_round_trips() {
    for v in [-180.0f32, -120.0, -0.0, 0.0, 90.5, 179.99, 180.0] {
        let lon = Longitude::try_from_bits(v.to_bits()).unwrap();
        assert_eq!(lon.to_bits(), v.to_bits());
    }
}

#[test]
fn longitude_out_of_range_fails() {
    let just_above = f32::from_bits(180.0f32.to_bits() + 1);
    for v in [-180.001f32, 180.001, just_above, -just_above, 10000.0, f32::INFINITY, f32::NAN] {
        assert_eq!(Longitude::try_from_bits(v.to_bits()), Err(LongitudeBoundsError));
    }
}

#[test]
fn bound_messages() {
    assert_eq!(LatitudeBoundsError.message(), "outside of [-90.0, 90.0]");
    assert_eq!(LongitudeBoundsError.message(), "outside of [-180.0, 180.0]");
}

#[test]
fn calendar_dates() {
    assert!(CalendarDate::from_ymd(2024, 2, 29).is_some());
    assert!(CalendarDate::from_ymd(2000, 2, 29).is_some());
    assert!(CalendarDate::from_ymd(1900, 2, 29).is_none());
    assert!(CalendarDate::from_ymd(2023, 2, 29).is_none());
    assert!(CalendarDate::from_ymd(2024, 4, 31).is_none());
    assert!(CalendarDate::from_ymd(2024, 13, 1).is_none());
    assert!(CalendarDate::from_ymd(2024, 1, 0).is_none());
    assert!(CalendarDate::from_ymd(262142, 12, 31).is_some());
    assert!(CalendarDate::from_ymd(262143, 1, 1).is_none());
    assert!(CalendarDate::from_ymd(-262143, 1, 1).is_some());
    assert!(CalendarDate::from_ymd(-262144, 12, 31).is_none());
    let d = date(2024, 12, 24);
    assert_eq!((d.year(), d.month(), d.day()), (2024, 12, 24));
}

#[test]
fn calendar_date_parsing() {
    assert_eq!(CalendarDate::parse("2024-12-24"), Some(date(2024, 12, 24)));
    assert_eq!(CalendarDate::parse("1999-01-02"), Some(date(1999, 1, 2)));
    assert_eq!(CalendarDate::parse("2023-02-29"), None);
    assert_eq!(CalendarDate::parse("not-a-date"), None);
    assert_eq!(CalendarDate::parse(""), None);
}
