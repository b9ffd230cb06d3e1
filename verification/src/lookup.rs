use vstd::prelude::*;

use crate::carrier::Carrier;
use crate::carrier::CarrierV;
use crate::currency::Currency;
use crate::currency::CurrencyV;
use crate::decode::bool_field;
use crate::decode::decode_carrier;
use crate::decode::decode_carrier_spec;
use crate::decode::decode_currency;
use crate::decode::decode_currency_spec;
use crate::decode::decode_languages;
use crate::decode::decode_languages_spec;
use crate::decode::decode_threat;
use crate::decode::decode_threat_spec;
use crate::decode::decode_timezone;
use crate::decode::decode_timezone_spec;
use crate::decode::num_field;
use crate::decode::str_field;
use crate::error::IpDataError;
use crate::ipaddr::IpAddr;
use crate::ipparse::parse_ip;
use crate::ipparse::parse_ip_spec;
use crate::json::Json;
use crate::json::get_field;
use crate::json::obj_get;
use crate::language::Language;
use crate::language::LanguageV;
use crate::numtext::parse_u64_or_zero;
use crate::numtext::parse_u64_spec;
use crate::threat::Threat;
use crate::timezone::TimeZone;
use crate::timezone::TimeZoneV;

verus! {

/// The decoded response for one looked-up address. Latitude and longitude are
/// held as the decoder's decimal rendering of the numbers, so that no floating
/// point stands in the library; `count` is held as the text the service sent,
/// which `count()` reads as a number.
#[derive(Clone, Debug)]
pub struct IpData {
    pub ip: String,
    pub is_eu: bool,
    pub city: String,
    pub region: String,
    pub region_code: String,
    pub country_name: String,
    pub country_code: String,
    pub continent_name: String,
    pub latitude: String,
    pub longitude: String,
    pub asn: String,
    pub organisation: String,
    pub postal: String,
    pub calling_code: String,
    pub flag: String,
    pub emoji_flag: String,
    pub emoji_unicode: String,
    pub languages: Vec<Language>,
    pub currency: Currency,
    pub time_zone: TimeZone,
    pub threat: Threat,
    pub count: String,
    pub carrier: Option<Carrier>,
}

/// The mathematical value of an `IpData`.
pub struct IpDataV {
    pub ip: Seq<char>,
    pub is_eu: bool,
    pub city: Seq<char>,
    pub region: Seq<char>,
    pub region_code: Seq<char>,
    pub country_name: Seq<char>,
    pub country_code: Seq<char>,
    pub continent_name: Seq<char>,
    pub latitude: Seq<char>,
    pub longitude: Seq<char>,
    pub asn: Seq<char>,
    pub organisation: Seq<char>,
    pub postal: Seq<char>,
    pub calling_code: Seq<char>,
    pub flag: Seq<char>,
    pub emoji_flag: Seq<char>,
    pub emoji_unicode: Seq<char>,
    pub languages: Seq<LanguageV>,
    pub currency: CurrencyV,
    pub time_zone: TimeZoneV,
    pub threat: Threat,
    pub count: Seq<char>,
    pub carrier: Option<CarrierV>,
}

impl View for IpData {
    type V = IpDataV;

    open spec fn view(&self) -> IpDataV {
        IpDataV {
            ip: self.ip@,
            is_eu: self.is_eu,
            city: self.city@,
            region: self.region@,
            region_code: self.region_code@,
            country_name: self.country_name@,
            country_code: self.country_code@,
            continent_name: self.continent_name@,
            latitude: self.latitude@,
            longitude: self.longitude@,
            asn: self.asn@,
            organisation: self.organisation@,
            postal: self.postal@,
            calling_code: self.calling_code@,
            flag: self.flag@,
            emoji_flag: self.emoji_flag@,
            emoji_unicode: self.emoji_unicode@,
            languages: self.languages.deep_view(),
            currency: self.currency@,
            time_zone: self.time_zone@,
            threat: self.threat,
            count: self.count@,
            carrier: match self.carrier {
                Some(c) => Some(c@),
                None => None,
            },
        }
    }
}

/// The language list of a response object: a required array whose every
/// element must decode.
pub open spec fn languages_field(f: Seq<(String, Json)>) -> Option<Seq<LanguageV>> {
    match obj_get(f, "languages"@) {
        Some(Json::Arr(items)) => decode_languages_spec(items@),
        _ => None,
    }
}

/// The required currency record of a response object.
pub open spec fn currency_field(f: Seq<(String, Json)>) -> Option<CurrencyV> {
    match obj_get(f, "currency"@) {
        Some(t) => decode_currency_spec(t),
        None => None,
    }
}

/// The required time-zone record of a response object.
pub open spec fn timezone_field(f: Seq<(String, Json)>) -> Option<TimeZoneV> {
    match obj_get(f, "time_zone"@) {
        Some(t) => decode_timezone_spec(t),
        None => None,
    }
}

/// The required threat record of a response object.
pub open spec fn threat_field(f: Seq<(String, Json)>) -> Option<Threat> {
    match obj_get(f, "threat"@) {
        Some(t) => decode_threat_spec(t),
        None => None,
    }
}

/// The optional carrier record of a response object: a missing or null member
/// decodes as absent; a present record must decode.
pub open spec fn carrier_field(f: Seq<(String, Json)>) -> Option<Option<CarrierV>> {
    match obj_get(f, "carrier"@) {
        None => Some(None),
        Some(Json::Null) => Some(None),
        Some(t) => match decode_carrier_spec(t) {
            Some(c) => Some(Some(c)),
            None => None,
        },
    }
}

/// Decodes a full response from an object's member list. Every string member
/// defaults to the empty string when absent; `is_eu`, the two coordinates and
/// the four nested records are required; `carrier` alone is optional.
pub open spec fn decode_ipdata_fields(f: Seq<(String, Json)>) -> Option<IpDataV> {
    if str_field(f, "ip"@) is None || bool_field(f, "is_eu"@) is None || str_field(f, "city"@)
        is None || str_field(f, "region"@) is None || str_field(f, "region_code"@) is None
        || str_field(f, "country_name"@) is None || str_field(f, "country_code"@) is None
        || str_field(f, "continent_name"@) is None || num_field(f, "latitude"@) is None
        || num_field(f, "longitude"@) is None || str_field(f, "asn"@) is None || str_field(
        f,
        "organisation"@,
    ) is None || str_field(f, "postal"@) is None || str_field(f, "calling_code"@) is None
        || str_field(f, "flag"@) is None || str_field(f, "emoji_flag"@) is None || str_field(
        f,
        "emoji_unicode"@,
    ) is None || languages_field(f) is None || currency_field(f) is None || timezone_field(f)
        is None || threat_field(f) is None || str_field(f, "count"@) is None || carrier_field(f)
        is None {
        None
    } else {
        Some(
            IpDataV {
                ip: str_field(f, "ip"@)->0,
                is_eu: bool_field(f, "is_eu"@)->0,
                city: str_field(f, "city"@)->0,
                region: str_field(f, "region"@)->0,
                region_code: str_field(f, "region_code"@)->0,
                country_name: str_field(f, "country_name"@)->0,
                country_code: str_field(f, "country_code"@)->0,
                continent_name: str_field(f, "continent_name"@)->0,
                latitude: num_field(f, "latitude"@)->0,
                longitude: num_field(f, "longitude"@)->0,
                asn: str_field(f, "asn"@)->0,
                organisation: str_field(f, "organisation"@)->0,
                postal: str_field(f, "postal"@)->0,
                calling_code: str_field(f, "calling_code"@)->0,
                flag: str_field(f, "flag"@)->0,
                emoji_flag: str_field(f, "emoji_flag"@)->0,
                emoji_unicode: str_field(f, "emoji_unicode"@)->0,
                languages: languages_field(f)->0,
                currency: currency_field(f)->0,
                time_zone: timezone_field(f)->0,
                threat: threat_field(f)->0,
                count: str_field(f, "count"@)->0,
                carrier: carrier_field(f)->0,
            },
        )
    }
}

/// Decodes a full response from a JSON tree: the tree must be an object.
pub open spec fn decode_ipdata_spec(t: Json) -> Option<IpDataV> {
    match t {
        Json::Obj(fields) => decode_ipdata_fields(fields@),
        _ => None,
    }
}

/// Decodes a success-status response body's JSON tree into a result record.
pub fn decode_ipdata(t: &Json) -> (r: Option<IpData>)
    ensures
        match r {
            Some(d) => decode_ipdata_spec(*t) == Some(d@),
            None => decode_ipdata_spec(*t) is None,
        },
{
    let fields = match t {
        Json::Obj(fields) => fields,
        _ => { return None },
    };
    let ip = match crate::decode::get_str_field(fields, "ip") {
        Some(s) => s,
        None => { return None },
    };
    let is_eu = match crate::decode::get_bool_field(fields, "is_eu") {
        Some(b) => b,
        None => { return None },
    };
    let city = match crate::decode::get_str_field(fields, "city") {
        Some(s) => s,
        None => { return None },
    };
    let region = match crate::decode::get_str_field(fields, "region") {
        Some(s) => s,
        None => { return None },
    };
    let region_code = match crate::decode::get_str_field(fields, "region_code") {
        Some(s) => s,
        None => { return None },
    };
    let country_name = match crate::decode::get_str_field(fields, "country_name") {
        Some(s) => s,
        None => { return None },
    };
    let country_code = match crate::decode::get_str_field(fields, "country_code") {
        Some(s) => s,
        None => { return None },
    };
    let continent_name = match crate::decode::get_str_field(fields, "continent_name") {
        Some(s) => s,
        None => { return None },
    };
    let latitude = match crate::decode::get_num_field(fields, "latitude") {
        Some(s) => s,
        None => { return None },
    };
    let longitude = match crate::decode::get_num_field(fields, "longitude") {
        Some(s) => s,
        None => { return None },
    };
    let asn = match crate::decode::get_str_field(fields, "asn") {
        Some(s) => s,
        None => { return None },
    };
    let organisation = match crate::decode::get_str_field(fields, "organisation") {
        Some(s) => s,
        None => { return None },
    };
    let postal = match crate::decode::get_str_field(fields, "postal") {
        Some(s) => s,
        None => { return None },
    };
    let calling_code = match crate::decode::get_str_field(fields, "calling_code") {
        Some(s) => s,
        None => { return None },
    };
    let flag = match crate::decode::get_str_field(fields, "flag") {
        Some(s) => s,
        None => { return None },
    };
    let emoji_flag = match crate::decode::get_str_field(fields, "emoji_flag") {
        Some(s) => s,
        None => { return None },
    };
    let emoji_unicode = match crate::decode::get_str_field(fields, "emoji_unicode") {
        Some(s) => s,
        None => { return None },
    };
    let languages = match get_field(fields, "languages") {
        Some(t) => match t {
            Json::Arr(items) => match decode_languages(items) {
                Some(v) => v,
                None => { return None },
            },
            _ => { return None },
        },
        None => { return None },
    };
    let currency = match get_field(fields, "currency") {
        Some(t) => match decode_currency(t) {
            Some(c) => c,
            None => { return None },
        },
        None => { return None },
    };
    let time_zone = match get_field(fields, "time_zone") {
        Some(t) => match decode_timezone(t) {
            Some(z) => z,
            None => { return None },
        },
        None => { return None },
    };
    let threat = match get_field(fields, "threat") {
        Some(t) => match decode_threat(t) {
            Some(th) => th,
            None => { return None },
        },
        None => { return None },
    };
    let count = match crate::decode::get_str_field(fields, "count") {
        Some(s) => s,
        None => { return None },
    };
    let carrier = match get_field(fields, "carrier") {
        None => None,
        Some(t) => match t {
            Json::Null => None,
            _ => match decode_carrier(t) {
                Some(c) => Some(c),
                None => { return None },
            },
        },
    };
    Some(
        IpData {
            ip,
            is_eu,
            city,
            region,
            region_code,
            country_name,
            country_code,
            continent_name,
            latitude,
            longitude,
            asn,
            organisation,
            postal,
            calling_code,
            flag,
            emoji_flag,
            emoji_unicode,
            languages,
            currency,
            time_zone,
            threat,
            count,
            carrier,
        },
    )
}

impl IpData {
    /// Returns the IP address that was looked up, read from the text the
    /// service sent.
    pub fn ip(&self) -> (r: Result<IpAddr, IpDataError>)
        ensures
            match r {
                Ok(a) => parse_ip_spec(self@.ip) == Some(a),
                Err(e) => parse_ip_spec(self@.ip) is None && e.message@ == "invalid ip address"@,
            },
    {
        match parse_ip(self.ip.as_str()) {
            Some(a) => Ok(a),
            None => Err(IpDataError::new("invalid ip address")),
        }
    }

    /// Returns the IP address text exactly as the service sent it.
    pub fn ip_raw(&self) -> (r: &String)
        ensures
            r@ == self@.ip,
    {
        &self.ip
    }

    /// Returns true or false depending on whether the country is a recognized
    /// member of the European Union.
    pub fn is_eu(&self) -> (r: bool)
        ensures
            r == self@.is_eu,
    {
        self.is_eu
    }

    /// Returns the name of the city where the IP Address is located.
    pub fn city(&self) -> (r: &String)
        ensures
            r@ == self@.city,
    {
        &self.city
    }

    /// Returns the name of the region where the IP address is located.
    pub fn region(&self) -> (r: &String)
        ensures
            r@ == self@.region,
    {
        &self.region
    }

    /// Returns the ISO 3166-2 region code for the IP address.
    pub fn region_code(&self) -> (r: &String)
        ensures
            r@ == self@.region_code,
    {
        &self.region_code
    }

    /// Returns the country name where the IP address is located.
    pub fn country_name(&self) -> (r: &String)
        ensures
            r@ == self@.country_name,
    {
        &self.country_name
    }

    /// Returns the 2 letter ISO 3166-1 alpha-2 code for the country where the
    /// IP address is located.
    pub fn country_code(&self) -> (r: &String)
        ensures
            r@ == self@.country_code,
    {
        &self.country_code
    }

    /// Returns the name of the continent where the IP Address is located.
    pub fn continent_name(&self) -> (r: &String)
        ensures
            r@ == self@.continent_name,
    {
        &self.continent_name
    }

    /// Returns the approximate latitude of the IP Address, as the decimal
    /// text the service sent. Often near the center of population.
    pub fn latitude(&self) -> (r: &String)
        ensures
            r@ == self@.latitude,
    {
        &self.latitude
    }

    /// Returns the approximate longitude of the IP Address, as the decimal
    /// text the service sent. Often near the center of population.
    pub fn longitude(&self) -> (r: &String)
        ensures
            r@ == self@.longitude,
    {
        &self.longitude
    }

    /// Returns the Autonomous System Number that references the IP Address's
    /// owning organization.
    pub fn asn(&self) -> (r: &String)
        ensures
            r@ == self@.asn,
    {
        &self.asn
    }

    /// Returns the name of the Organisation that owns the IP Address. This
    /// will default to the ISP name if the organisation is not available.
    pub fn organization(&self) -> (r: &String)
        ensures
            r@ == self@.organisation,
    {
        &self.organisation
    }

    /// Returns the postal code where the IP address is located.
    pub fn postal(&self) -> (r: &String)
        ensures
            r@ == self@.postal,
    {
        &self.postal
    }

    /// Returns the international calling code where the IP adress is located.
    pub fn calling_code(&self) -> (r: &String)
        ensures
            r@ == self@.calling_code,
    {
        &self.calling_code
    }

    /// Returns a URL to a PNG image with the flag of the country where the IP
    /// address is located.
    pub fn flag(&self) -> (r: &String)
        ensures
            r@ == self@.flag,
    {
        &self.flag
    }

    /// Returns an emoji version of the flag of the country where the IP
    /// address is located.
    pub fn emoji_flag(&self) -> (r: &String)
        ensures
            r@ == self@.emoji_flag,
    {
        &self.emoji_flag
    }

    /// Returns the country flag emoji in unicode.
    pub fn emoji_unicode(&self) -> (r: &String)
        ensures
            r@ == self@.emoji_unicode,
    {
        &self.emoji_unicode
    }

    /// Returns the location's languages.
    pub fn languages(&self) -> (r: &Vec<Language>)
        ensures
            r.deep_view() == self@.languages,
    {
        &self.languages
    }

    /// Returns the location's local currency.
    pub fn currency(&self) -> (r: &Currency)
        ensures
            r@ == self@.currency,
    {
        &self.currency
    }

    /// Returns the locations local time zone.
    pub fn time_zone(&self) -> (r: &TimeZone)
        ensures
            r@ == self@.time_zone,
    {
        &self.time_zone
    }

    /// Returns known threat data about the IP.
    pub fn threat(&self) -> (r: &Threat)
        ensures
            *r == self@.threat,
    {
        &self.threat
    }

    /// The total number of requests made by your API key in the last 24 hrs.
    /// A count the service sent that does not read as a decimal number yields
    /// zero rather than an error.
    pub fn count(&self) -> (r: u64)
        ensures
            r == (match parse_u64_spec(self@.count) {
                Some(n) => n,
                None => 0u64,
            }),
    {
        parse_u64_or_zero(self.count.as_str())
    }

    /// Returns details of the IP Addresses's mobile carrier, if available.
    pub fn carrier(&self) -> (r: &Option<Carrier>)
        ensures
            match r {
                Some(c) => self@.carrier == Some(c@),
                None => self@.carrier is None,
            },
    {
        &self.carrier
    }
}

/// A response object without a "carrier" member decodes to a result without a
/// carrier.
pub proof fn lemma_carrier_absent(f: Seq<(String, Json)>, d: IpDataV)
    requires
        decode_ipdata_fields(f) == Some(d),
        obj_get(f, "carrier"@) is None,
    ensures
        d.carrier is None,
{
}

/// A response object carrying a non-null "carrier" member decodes to a result
/// whose carrier is exactly the decoded nested record.
pub proof fn lemma_carrier_present(f: Seq<(String, Json)>, d: IpDataV, t: Json)
    requires
        decode_ipdata_fields(f) == Some(d),
        obj_get(f, "carrier"@) == Some(t),
        !(t is Null),
    ensures
        decode_carrier_spec(t) is Some,
        d.carrier == decode_carrier_spec(t),
{
}

/// A response object without a "count" member decodes to a result whose count
/// text is empty, which no reading turns into a number: `count` yields zero.
pub proof fn lemma_absent_count_reads_zero(f: Seq<(String, Json)>, d: IpDataV)
    requires
        decode_ipdata_fields(f) == Some(d),
        obj_get(f, "count"@) is None,
    ensures
        d.count =~= Seq::<char>::empty(),
        parse_u64_spec(d.count) is None,
{
}

} // verus!
