use ipdata::handle_response;

fn full_body() -> String {
    r#"{
        "ip": "1.2.3.4",
        "is_eu": false,
        "city": "Sydney",
        "region": "New South Wales",
        "region_code": "NSW",
        "country_name": "Australia",
        "country_code": "AU",
        "continent_name": "Oceania",
        "latitude": -33.86,
        "longitude": 151.2,
        "asn": "AS13335",
        "organisation": "Cloudflare, Inc.",
        "postal": "2000",
        "calling_code": "61",
        "flag": "https://ipdata.co/flags/au.png",
        "emoji_flag": "flag",
        "emoji_unicode": "U+1F1E6",
        "languages": [
            {"name": "English", "native": "English"},
            {"name": "Yolngu", "native": "Yolngu Matha"}
        ],
        "currency": {
            "name": "Australian Dollar",
            "code": "AUD",
            "symbol": "AU$",
            "native": "$",
            "plural": "Australian dollars"
        },
        "time_zone": {
            "name": "Australia/Sydney",
            "abbr": "AEDT",
            "offset": "+1100",
            "is_dst": ""
        },
        "threat": {
            "is_tor": false,
            "is_proxy": true,
            "is_anonymous": true,
            "is_known_attacker": false,
            "is_known_abuser": false,
            "is_threat": false,
            "is_bogon": false
        },
        "count": "825",
        "carrier": {"name": "Telstra", "mcc": "505", "mnc": "01"}
    }"#
        .to_string()
}

#[test]
fn decode_full_body() {
    let data = handle_response(200, &full_body()).unwrap();
    assert_eq!(data.ip().unwrap(), ipdata::IpAddr::V4(1, 2, 3, 4));
    assert_eq!(data.ip_raw().as_str(), "1.2.3.4");
    assert!(!data.is_eu());
    assert_eq!(data.city().as_str(), "Sydney");
    assert_eq!(data.region().as_str(), "New South Wales");
    assert_eq!(data.region_code().as_str(), "NSW");
    assert_eq!(data.country_name().as_str(), "Australia");
    assert_eq!(data.country_code().as_str(), "AU");
    assert_eq!(data.continent_name().as_str(), "Oceania");
    assert_eq!(data.latitude().as_str(), "-33.86");
    assert_eq!(data.longitude().as_str(), "151.2");
    assert_eq!(data.asn().as_str(), "AS13335");
    assert_eq!(data.organization().as_str(), "Cloudflare, Inc.");
    assert_eq!(data.postal().as_str(), "2000");
    assert_eq!(data.calling_code().as_str(), "61");
    assert_eq!(data.flag().as_str(), "https://ipdata.co/flags/au.png");
    assert_eq!(data.emoji_flag().as_str(), "flag");
    assert_eq!(data.emoji_unicode().as_str(), "U+1F1E6");
    assert_eq!(data.languages().len(), 2);
    assert_eq!(data.languages()[0].name().as_str(), "English");
    assert_eq!(data.languages()[1].native().as_str(), "Yolngu Matha");
    assert_eq!(data.currency().name().as_str(), "Australian Dollar");
    assert_eq!(data.currency().code().as_str(), "AUD");
    assert_eq!(data.currency().symbol().as_str(), "AU$");
    assert_eq!(data.currency().native().as_str(), "$");
    assert_eq!(data.currency().plural().as_str(), "Australian dollars");
    assert_eq!(data.time_zone().name().as_str(), "Australia/Sydney");
    assert_eq!(data.time_zone().abbr().as_str(), "AEDT");
    assert_eq!(data.time_zone().offset().as_str(), "+1100");
    assert!(!data.threat().is_tor());
    assert!(data.threat().is_proxy());
    assert!(data.threat().is_anonymous());
    assert!(!data.threat().is_known_attacker());
    assert!(!data.threat().is_known_abuser());
    assert!(!data.threat().is_threat());
    assert!(!data.threat().is_bogon());
    assert_eq!(data.count(), 825);
    let carrier = data.carrier().as_ref().unwrap();
    assert_eq!(carrier.name().as_str(), "Telstra");
    assert_eq!(carrier.mcc().as_str(), "505");
    assert_eq!(carrier.mnc().as_str(), "01");
}

#[test]
fn missing_string_field_defaults_empty() {
    let body = full_body().replace(r#""city": "Sydney","#, "");
    let data = handle_response(200, &body).unwrap();
    assert_eq!(data.city().as_str(), "");
}

#[test]
fn count_non_numeric_yields_zero() {
    let body = full_body().replace(r#""count": "825""#, r#""count": "not a number""#);
    let data = handle_response(200, &body).unwrap();
    assert_eq!(data.count(), 0);
}

#[test]
fn count_absent_yields_zero() {
    let body = full_body().replace(r#""count": "825","#, "");
    let data = handle_response(200, &body).unwrap();
    assert_eq!(data.count(), 0);
}

#[test]
fn count_with_plus_sign_parses() {
    let body = full_body().replace(r#""count": "825""#, r#""count": "+42""#);
    let data = handle_response(200, &body).unwrap();
    assert_eq!(data.count(), 42);
}

#[test]
fn count_overflow_yields_zero() {
    let body = full_body().replace(
        r#""count": "825""#,
        r#""count": "99999999999999999999999""#,
    );
    let data = handle_response(200, &body).unwrap();
    assert_eq!(data.count(), 0);
}

#[test]
fn carrier_absent_decodes_none() {
    let body = full_body().replace(
        r#""carrier": {"name": "Telstra", "mcc": "505", "mnc": "01"}"#,
        r#""some_unknown_member": 1"#,
    );
    let data = handle_response(200, &body).unwrap();
    assert!(data.carrier().is_none());
}

#[test]
fn carrier_null_decodes_none() {
    let body = full_body().replace(
        r#""carrier": {"name": "Telstra", "mcc": "505", "mnc": "01"}"#,
        r#""carrier": null"#,
    );
    let data = handle_response(200, &body).unwrap();
    assert!(data.carrier().is_none());
}

#[test]
fn carrier_present_decodes_record() {
    let data = handle_response(200, &full_body()).unwrap();
    let carrier = data.carrier().as_ref().unwrap();
    assert_eq!(carrier.name().as_str(), "Telstra");
}

#[test]
fn missing_required_bool_fails() {
    let body = full_body().replace(r#""is_eu": false,"#, "");
    let err = handle_response(200, &body).unwrap_err();
    assert_eq!(
        err.message().as_str(),
        "failed to decode response: unexpected shape"
    );
}

#[test]
fn string_field_type_mismatch_fails() {
    let body = full_body().replace(r#""city": "Sydney""#, r#""city": 7"#);
    let err = handle_response(200, &body).unwrap_err();
    assert_eq!(
        err.message().as_str(),
        "failed to decode response: unexpected shape"
    );
}

#[test]
fn bad_language_element_fails() {
    let body = full_body().replace(r#"{"name": "English", "native": "English"}"#, r#""English""#);
    let err = handle_response(200, &body).unwrap_err();
    assert_eq!(
        err.message().as_str(),
        "failed to decode response: unexpected shape"
    );
}

#[test]
fn top_level_non_object_fails() {
    let err = handle_response(200, "[1, 2, 3]").unwrap_err();
    assert_eq!(
        err.message().as_str(),
        "failed to decode response: unexpected shape"
    );
}
