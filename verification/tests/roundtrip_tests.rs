use ipdata::decode_ipdata;
use ipdata::parse_json;
use ipdata::render_json;

fn body_with(city: &str, carrier: &str) -> String {
    let head = r#"{"ip":"8.8.8.8","is_eu":true,"city":"#;
    let mid = r#","region":"","region_code":"CA","country_name":"United States",
        "country_code":"US","continent_name":"North America","latitude":37.386,
        "longitude":-122.0838,"asn":"AS15169","organisation":"Google LLC","postal":"94035",
        "calling_code":"1","flag":"https://ipdata.co/flags/us.png","emoji_flag":"",
        "emoji_unicode":"","languages":[{"name":"English","native":"English"}],
        "currency":{"name":"US Dollar","code":"USD","symbol":"$","native":"$","plural":"US dollars"},
        "time_zone":{"name":"America/Los_Angeles","abbr":"PDT","offset":"-0700"},
        "threat":{"is_tor":false,"is_proxy":false,"is_anonymous":false,"is_known_attacker":false,
        "is_known_abuser":false,"is_threat":false,"is_bogon":false},"count":"7","carrier":"#;
    format!("{}{}{}{}{}", head, city, mid, carrier, "}")
}

#[test]
fn decode_then_reserialize_preserves_every_field() {
    let body = body_with(r#""Mountain View""#, r#"{"name":"AT&T","mcc":"310","mnc":"410"}"#);
    let tree = parse_json(&body).expect("valid JSON");
    let data = decode_ipdata(&tree).expect("decodes");
    let text = render_json(&data.to_json());
    let tree2 = parse_json(&text).expect("re-rendered text is valid JSON");
    let again = decode_ipdata(&tree2).expect("re-decodes");
    assert_eq!(again.ip().unwrap(), data.ip().unwrap());
    assert_eq!(again.ip_raw().as_str(), data.ip_raw().as_str());
    assert_eq!(again.is_eu(), data.is_eu());
    assert_eq!(again.city().as_str(), data.city().as_str());
    assert_eq!(again.region().as_str(), data.region().as_str());
    assert_eq!(again.region_code().as_str(), data.region_code().as_str());
    assert_eq!(again.country_name().as_str(), data.country_name().as_str());
    assert_eq!(again.country_code().as_str(), data.country_code().as_str());
    assert_eq!(
        again.continent_name().as_str(),
        data.continent_name().as_str()
    );
    assert_eq!(again.latitude().as_str(), data.latitude().as_str());
    assert_eq!(again.longitude().as_str(), data.longitude().as_str());
    assert_eq!(again.asn().as_str(), data.asn().as_str());
    assert_eq!(again.organization().as_str(), data.organization().as_str());
    assert_eq!(again.postal().as_str(), data.postal().as_str());
    assert_eq!(again.calling_code().as_str(), data.calling_code().as_str());
    assert_eq!(again.flag().as_str(), data.flag().as_str());
    assert_eq!(again.emoji_flag().as_str(), data.emoji_flag().as_str());
    assert_eq!(
        again.emoji_unicode().as_str(),
        data.emoji_unicode().as_str()
    );
    assert_eq!(again.languages().len(), data.languages().len());
    assert_eq!(
        again.languages()[0].name().as_str(),
        data.languages()[0].name().as_str()
    );
    assert_eq!(again.currency().code().as_str(), data.currency().code().as_str());
    assert_eq!(
        again.time_zone().offset().as_str(),
        data.time_zone().offset().as_str()
    );
    assert_eq!(again.threat().is_proxy(), data.threat().is_proxy());
    assert_eq!(again.count(), data.count());
    assert_eq!(
        again.carrier().as_ref().unwrap().mnc().as_str(),
        data.carrier().as_ref().unwrap().mnc().as_str()
    );
    assert_eq!(data.latitude().as_str(), "37.386");
    assert_eq!(data.count(), 7);
}

#[test]
fn roundtrip_escapes_special_characters() {
    let city = r#""a\"b\\c\nd\te""#;
    let body = body_with(city, "null");
    let tree = parse_json(&body).expect("valid JSON");
    let data = decode_ipdata(&tree).expect("decodes");
    assert_eq!(data.city().as_str(), "a\"b\\c\nd\te");
    let text = render_json(&data.to_json());
    let tree2 = parse_json(&text).expect("escaped text parses");
    let again = decode_ipdata(&tree2).expect("re-decodes");
    assert_eq!(again.city().as_str(), "a\"b\\c\nd\te");
    assert!(again.carrier().is_none());
}

#[test]
fn roundtrip_keeps_absent_carrier_absent() {
    let body = body_with(r#""X""#, "null");
    let tree = parse_json(&body).expect("valid JSON");
    let data = decode_ipdata(&tree).expect("decodes");
    assert!(data.carrier().is_none());
    let text = render_json(&data.to_json());
    let again = decode_ipdata(&parse_json(&text).unwrap()).unwrap();
    assert!(again.carrier().is_none());
}

#[test]
fn control_character_escapes_use_unicode_form() {
    let body = body_with(r#""a\u0001b""#, "null");
    let tree = parse_json(&body).expect("valid JSON");
    let data = decode_ipdata(&tree).expect("decodes");
    assert_eq!(data.city().as_str(), "a\u{1}b");
    let text = render_json(&data.to_json());
    assert!(text.contains("\\u0001"));
    let again = decode_ipdata(&parse_json(&text).unwrap()).unwrap();
    assert_eq!(again.city().as_str(), "a\u{1}b");
}
