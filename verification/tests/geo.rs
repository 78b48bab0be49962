use master_time::geo::{geo_from_members, geo_from_response, GeoText, JsonMember};

#[test]
fn successful_reply_gives_the_location_fields() {
    let reply = r#"{"status":"success","country":"New Zealand","regionName":"Auckland","city":"Auckland","lat":-36.8485,"lon":174.763,"isp":"Example ISP","query":"203.0.113.7"}"#;
    assert_eq!(
        geo_from_response(reply),
        Some(GeoText {
            city: "Auckland".to_string(),
            region: "Auckland".to_string(),
            country: "New Zealand".to_string(),
            lat: "-36.8485".to_string(),
            lon: "174.763".to_string(),
            isp: "Example ISP".to_string(),
        })
    );
}

#[test]
fn missing_or_mistyped_fields_are_empty() {
    let reply = r#"{"status":"success","city":null,"country":"Japan","lat":"35.6","lon":139}"#;
    let geo = geo_from_response(reply).unwrap();
    assert_eq!(geo.city, "");
    assert_eq!(geo.region, "");
    assert_eq!(geo.country, "Japan");
    assert_eq!(geo.lat, "");
    assert_eq!(geo.lon, "139");
    assert_eq!(geo.isp, "");
}

#[test]
fn escaped_strings_are_unescaped() {
    let reply = r#"{"status":"success","city":"Z\u00fcrich \"Nord\""}"#;
    assert_eq!(geo_from_response(reply).unwrap().city, "Zürich \"Nord\"");
}

#[test]
fn failed_or_unreadable_replies_give_none() {
    assert_eq!(geo_from_response(r#"{"status":"fail","message":"private range"}"#), None);
    assert_eq!(geo_from_response(r#"{"city":"Paris"}"#), None);
    assert_eq!(geo_from_response(r#"{"status":1}"#), None);
    assert_eq!(geo_from_response("[]"), None);
    assert_eq!(geo_from_response("not json"), None);
    assert_eq!(geo_from_response(""), None);
}

#[test]
fn members_give_the_location_only_for_a_success_status() {
    let text = |s: &str| JsonMember::Str(s.to_string());
    let geo = geo_from_members(
        text("success"),
        text("Oslo"),
        JsonMember::Absent,
        text("Norway"),
        JsonMember::Num("59.91".to_string()),
        text("10.75"),
        JsonMember::Other,
    )
    .unwrap();
    assert_eq!(
        geo,
        GeoText {
            city: "Oslo".to_string(),
            region: String::new(),
            country: "Norway".to_string(),
            lat: "59.91".to_string(),
            lon: String::new(),
            isp: String::new(),
        }
    );
    for status in [text("fail"), text("Success"), JsonMember::Unparsed, JsonMember::Absent, JsonMember::Other] {
        assert_eq!(
            geo_from_members(
                status,
                text("Oslo"),
                JsonMember::Absent,
                JsonMember::Absent,
                JsonMember::Absent,
                JsonMember::Absent,
                JsonMember::Absent,
            ),
            None
        );
    }
}
