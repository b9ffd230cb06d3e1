use vstd::prelude::*;
use vstd::string::StringExecFns;

use crate::carrier::Carrier;
use crate::currency::Currency;
use crate::decode::decode_carrier_spec;
use crate::decode::decode_currency_spec;
use crate::decode::decode_language_spec;
use crate::decode::decode_languages_spec;
use crate::decode::decode_threat_spec;
use crate::decode::decode_timezone_spec;
use crate::decode::str_field;
use crate::json::Json;
use crate::json::lemma_obj_get_scan;
use crate::json::obj_get_from;
use crate::language::Language;
use crate::lookup::IpData;
use crate::lookup::decode_ipdata_spec;
use crate::threat::Threat;
use crate::timezone::TimeZone;

verus! {

/// Encodes a carrier as the object its decoding reads back.
pub fn carrier_to_json(c: &Carrier) -> (r: Json)
    ensures
        decode_carrier_spec(r) == Some(c@),
{
    let mut f: Vec<(String, Json)> = Vec::new();
    f.push((String::from_str("name"), Json::Str(c.name.clone())));
    f.push((String::from_str("mcc"), Json::Str(c.mcc.clone())));
    f.push((String::from_str("mnc"), Json::Str(c.mnc.clone())));
    let r = Json::Obj(f);
    proof {
        reveal_with_fuel(obj_get_from, 5);
        reveal_strlit("name");
        reveal_strlit("mcc");
        reveal_strlit("mnc");
        assert(f@[0].0@ == "name"@);
        assert(f@[1].0@ == "mcc"@);
        assert(f@[2].0@ == "mnc"@);
        assert("mcc"@[1] != "mnc"@[1]);
        assert(decode_carrier_spec(r) == Some(c@));
    }
    r
}

/// Encodes a language as the object its decoding reads back.
pub fn language_to_json(l: &Language) -> (r: Json)
    ensures
        decode_language_spec(r) == Some(l@),
{
    let mut f: Vec<(String, Json)> = Vec::new();
    f.push((String::from_str("name"), Json::Str(l.name.clone())));
    f.push((String::from_str("native"), Json::Str(l.native.clone())));
    let r = Json::Obj(f);
    proof {
        reveal_with_fuel(obj_get_from, 4);
        reveal_strlit("name");
        reveal_strlit("native");
        assert(f@[0].0@ == "name"@);
        assert(f@[1].0@ == "native"@);
        assert(decode_language_spec(r) == Some(l@));
    }
    r
}

/// Encodes a currency as the object its decoding reads back.
pub fn currency_to_json(c: &Currency) -> (r: Json)
    ensures
        decode_currency_spec(r) == Some(c@),
{
    let mut f: Vec<(String, Json)> = Vec::new();
    f.push((String::from_str("name"), Json::Str(c.name.clone())));
    f.push((String::from_str("code"), Json::Str(c.code.clone())));
    f.push((String::from_str("symbol"), Json::Str(c.symbol.clone())));
    f.push((String::from_str("native"), Json::Str(c.native.clone())));
    f.push((String::from_str("plural"), Json::Str(c.plural.clone())));
    let r = Json::Obj(f);
    proof {
        reveal_with_fuel(obj_get_from, 7);
        reveal_strlit("name");
        reveal_strlit("code");
        reveal_strlit("symbol");
        reveal_strlit("native");
        reveal_strlit("plural");
        assert(f@[0].0@ == "name"@);
        assert(f@[1].0@ == "code"@);
        assert(f@[2].0@ == "symbol"@);
        assert(f@[3].0@ == "native"@);
        assert(f@[4].0@ == "plural"@);
        assert("name"@[0] != "code"@[0]);
        assert("symbol"@[0] != "native"@[0]);
        assert("symbol"@[0] != "plural"@[0]);
        assert("native"@[0] != "plural"@[0]);
        assert(decode_currency_spec(r) == Some(c@));
    }
    r
}

/// Encodes a time zone as the object its decoding reads back.
pub fn timezone_to_json(z: &TimeZone) -> (r: Json)
    ensures
        decode_timezone_spec(r) == Some(z@),
{
    let mut f: Vec<(String, Json)> = Vec::new();
    f.push((String::from_str("name"), Json::Str(z.name.clone())));
    f.push((String::from_str("abbr"), Json::Str(z.abbr.clone())));
    f.push((String::from_str("offset"), Json::Str(z.offset.clone())));
    let r = Json::Obj(f);
    proof {
        reveal_with_fuel(obj_get_from, 5);
        reveal_strlit("name");
        reveal_strlit("abbr");
        reveal_strlit("offset");
        assert(f@[0].0@ == "name"@);
        assert(f@[1].0@ == "abbr"@);
        assert(f@[2].0@ == "offset"@);
        assert("name"@[0] != "abbr"@[0]);
        assert(decode_timezone_spec(r) == Some(z@));
    }
    r
}

/// Encodes the threat signals as the object their decoding reads back.
pub fn threat_to_json(t: &Threat) -> (r: Json)
    ensures
        decode_threat_spec(r) == Some(*t),
{
    let mut f: Vec<(String, Json)> = Vec::new();
    f.push((String::from_str("is_tor"), Json::Bool(t.is_tor)));
    f.push((String::from_str("is_proxy"), Json::Bool(t.is_proxy)));
    f.push((String::from_str("is_anonymous"), Json::Bool(t.is_anonymous)));
    f.push((String::from_str("is_known_attacker"), Json::Bool(t.is_known_attacker)));
    f.push((String::from_str("is_known_abuser"), Json::Bool(t.is_known_abuser)));
    f.push((String::from_str("is_threat"), Json::Bool(t.is_threat)));
    f.push((String::from_str("is_bogon"), Json::Bool(t.is_bogon)));
    let r = Json::Obj(f);
    proof {
        reveal_with_fuel(obj_get_from, 9);
        reveal_strlit("is_tor");
        reveal_strlit("is_proxy");
        reveal_strlit("is_anonymous");
        reveal_strlit("is_known_attacker");
        reveal_strlit("is_known_abuser");
        reveal_strlit("is_threat");
        reveal_strlit("is_bogon");
        assert(f@[0].0@ == "is_tor"@);
        assert(f@[1].0@ == "is_proxy"@);
        assert(f@[2].0@ == "is_anonymous"@);
        assert(f@[3].0@ == "is_known_attacker"@);
        assert(f@[4].0@ == "is_known_abuser"@);
        assert(f@[5].0@ == "is_threat"@);
        assert(f@[6].0@ == "is_bogon"@);
        assert("is_proxy"@[3] != "is_bogon"@[3]);
        assert(decode_threat_spec(r) == Some(*t));
    }
    r
}

/// Encodes a language list as the array its decoding reads back.
pub fn languages_to_json(v: &Vec<Language>) -> (r: Vec<Json>)
    ensures
        decode_languages_spec(r@) == Some(v.deep_view()),
{
    let mut out: Vec<Json> = Vec::new();
    let mut i: usize = 0;
    proof {
        assert(v.deep_view().take(0) =~= Seq::<crate::language::LanguageV>::empty());
    }
    while i < v.len()
        invariant
            i <= v@.len(),
            out@.len() == i,
            decode_languages_spec(out@) == Some(v.deep_view().take(i as int)),
        decreases v@.len() - i,
    {
        let ghost prev = out@;
        let t = language_to_json(&v[i]);
        out.push(t);
        proof {
            assert(out@.drop_last() =~= prev);
            assert(out@.last() == t);
            assert(v.deep_view().take(i as int + 1) =~= v.deep_view().take(i as int).push(
                v@[i as int]@));
        }
        i += 1;
    }
    proof {
        assert(v.deep_view().take(v@.len() as int) =~= v.deep_view());
    }
    out
}

impl IpData {
    /// Encodes the result as a JSON tree over the documented field set; an
    /// absent carrier stands as a null member. The contract is the round
    /// trip: decoding the encoded tree reads back exactly this value, so a
    /// decode/encode cycle loses no field.
    #[verifier::rlimit(100)]
    pub fn to_json(&self) -> (r: Json)
        ensures
            decode_ipdata_spec(r) == Some(self@),
    {
        let mut f: Vec<(String, Json)> = Vec::new();
        f.push((String::from_str("ip"), Json::Str(self.ip.clone())));
        f.push((String::from_str("is_eu"), Json::Bool(self.is_eu)));
        f.push((String::from_str("city"), Json::Str(self.city.clone())));
        f.push((String::from_str("region"), Json::Str(self.region.clone())));
        f.push((String::from_str("region_code"), Json::Str(self.region_code.clone())));
        f.push((String::from_str("country_name"), Json::Str(self.country_name.clone())));
        f.push((String::from_str("country_code"), Json::Str(self.country_code.clone())));
        f.push((String::from_str("continent_name"), Json::Str(self.continent_name.clone())));
        f.push((String::from_str("latitude"), Json::Num(self.latitude.clone())));
        f.push((String::from_str("longitude"), Json::Num(self.longitude.clone())));
        f.push((String::from_str("asn"), Json::Str(self.asn.clone())));
        f.push((String::from_str("organisation"), Json::Str(self.organisation.clone())));
        f.push((String::from_str("postal"), Json::Str(self.postal.clone())));
        f.push((String::from_str("calling_code"), Json::Str(self.calling_code.clone())));
        f.push((String::from_str("flag"), Json::Str(self.flag.clone())));
        f.push((String::from_str("emoji_flag"), Json::Str(self.emoji_flag.clone())));
        f.push((String::from_str("emoji_unicode"), Json::Str(self.emoji_unicode.clone())));
        f.push((String::from_str("languages"), Json::Arr(languages_to_json(&self.languages))));
        f.push((String::from_str("currency"), currency_to_json(&self.currency)));
        f.push((String::from_str("time_zone"), timezone_to_json(&self.time_zone)));
        f.push((String::from_str("threat"), threat_to_json(&self.threat)));
        f.push((String::from_str("count"), Json::Str(self.count.clone())));
        let carrier = match &self.carrier {
            Some(c) => carrier_to_json(c),
            None => Json::Null,
        };
        f.push((String::from_str("carrier"), carrier));
        let r = Json::Obj(f);
        proof {
            reveal_with_fuel(obj_get_from, 3);
            reveal_strlit("ip");
            reveal_strlit("is_eu");
            reveal_strlit("city");
            reveal_strlit("region");
            reveal_strlit("region_code");
            reveal_strlit("country_name");
            reveal_strlit("country_code");
            reveal_strlit("continent_name");
            reveal_strlit("latitude");
            reveal_strlit("longitude");
            reveal_strlit("asn");
            reveal_strlit("organisation");
            reveal_strlit("postal");
            reveal_strlit("calling_code");
            reveal_strlit("flag");
            reveal_strlit("emoji_flag");
            reveal_strlit("emoji_unicode");
            reveal_strlit("languages");
            reveal_strlit("currency");
            reveal_strlit("time_zone");
            reveal_strlit("threat");
            reveal_strlit("count");
            reveal_strlit("carrier");
            assert(f@[0].0@ == "ip"@);
            assert(f@[1].0@ == "is_eu"@);
            assert(f@[2].0@ == "city"@);
            assert(f@[3].0@ == "region"@);
            assert(f@[4].0@ == "region_code"@);
            assert(f@[5].0@ == "country_name"@);
            assert(f@[6].0@ == "country_code"@);
            assert(f@[7].0@ == "continent_name"@);
            assert(f@[8].0@ == "latitude"@);
            assert(f@[9].0@ == "longitude"@);
            assert(f@[10].0@ == "asn"@);
            assert(f@[11].0@ == "organisation"@);
            assert(f@[12].0@ == "postal"@);
            assert(f@[13].0@ == "calling_code"@);
            assert(f@[14].0@ == "flag"@);
            assert(f@[15].0@ == "emoji_flag"@);
            assert(f@[16].0@ == "emoji_unicode"@);
            assert(f@[17].0@ == "languages"@);
            assert(f@[18].0@ == "currency"@);
            assert(f@[19].0@ == "time_zone"@);
            assert(f@[20].0@ == "threat"@);
            assert(f@[21].0@ == "count"@);
            assert(f@[22].0@ == "carrier"@);
            assert("city"@[0] != "flag"@[0]);
            assert("is_eu"@[0] != "count"@[0]);
            assert("region"@[0] != "postal"@[0]);
            assert("region"@[0] != "threat"@[0]);
            assert("postal"@[0] != "threat"@[0]);
            assert("latitude"@[0] != "currency"@[0]);
            assert("longitude"@[1] != "languages"@[1]);
            assert("longitude"@[0] != "time_zone"@[0]);
            assert("languages"@[0] != "time_zone"@[0]);
            assert("country_name"@[8] != "country_code"@[8]);
            assert("country_name"@[0] != "organisation"@[0]);
            assert("country_code"@[0] != "organisation"@[0]);
            assert("country_name"@[1] != "calling_code"@[1]);
            assert("country_code"@[1] != "calling_code"@[1]);
            assert("organisation"@[0] != "calling_code"@[0]);
            lemma_obj_get_scan(f@, "is_eu"@, 0, 1);
            lemma_obj_get_scan(f@, "city"@, 0, 2);
            lemma_obj_get_scan(f@, "region"@, 0, 3);
            lemma_obj_get_scan(f@, "region_code"@, 0, 4);
            lemma_obj_get_scan(f@, "country_name"@, 0, 5);
            lemma_obj_get_scan(f@, "country_code"@, 0, 6);
            lemma_obj_get_scan(f@, "continent_name"@, 0, 7);
            lemma_obj_get_scan(f@, "latitude"@, 0, 8);
            lemma_obj_get_scan(f@, "longitude"@, 0, 9);
            lemma_obj_get_scan(f@, "asn"@, 0, 10);
            lemma_obj_get_scan(f@, "organisation"@, 0, 11);
            lemma_obj_get_scan(f@, "postal"@, 0, 12);
            lemma_obj_get_scan(f@, "calling_code"@, 0, 13);
            lemma_obj_get_scan(f@, "flag"@, 0, 14);
            lemma_obj_get_scan(f@, "emoji_flag"@, 0, 15);
            lemma_obj_get_scan(f@, "emoji_unicode"@, 0, 16);
            lemma_obj_get_scan(f@, "languages"@, 0, 17);
            lemma_obj_get_scan(f@, "currency"@, 0, 18);
            lemma_obj_get_scan(f@, "time_zone"@, 0, 19);
            lemma_obj_get_scan(f@, "threat"@, 0, 20);
            lemma_obj_get_scan(f@, "count"@, 0, 21);
            lemma_obj_get_scan(f@, "carrier"@, 0, 22);
            assert(str_field(f@, "ip"@) == Some(self@.ip));
            assert(crate::decode::bool_field(f@, "is_eu"@) == Some(self@.is_eu));
            assert(str_field(f@, "city"@) == Some(self@.city));
            assert(str_field(f@, "region"@) == Some(self@.region));
            assert(str_field(f@, "region_code"@) == Some(self@.region_code));
            assert(str_field(f@, "country_name"@) == Some(self@.country_name));
            assert(str_field(f@, "country_code"@) == Some(self@.country_code));
            assert(str_field(f@, "continent_name"@) == Some(self@.continent_name));
            assert(crate::decode::num_field(f@, "latitude"@) == Some(self@.latitude));
            assert(crate::decode::num_field(f@, "longitude"@) == Some(self@.longitude));
            assert(str_field(f@, "asn"@) == Some(self@.asn));
            assert(str_field(f@, "organisation"@) == Some(self@.organisation));
            assert(str_field(f@, "postal"@) == Some(self@.postal));
            assert(str_field(f@, "calling_code"@) == Some(self@.calling_code));
            assert(str_field(f@, "flag"@) == Some(self@.flag));
            assert(str_field(f@, "emoji_flag"@) == Some(self@.emoji_flag));
            assert(str_field(f@, "emoji_unicode"@) == Some(self@.emoji_unicode));
            assert(crate::lookup::languages_field(f@) == Some(self@.languages));
            assert(crate::lookup::currency_field(f@) == Some(self@.currency));
            assert(crate::lookup::timezone_field(f@) == Some(self@.time_zone));
            assert(crate::lookup::threat_field(f@) == Some(self@.threat));
            assert(str_field(f@, "count"@) == Some(self@.count));
            assert(crate::lookup::carrier_field(f@) == Some(self@.carrier));
            assert(decode_ipdata_spec(r) == Some(self@));
        }
        r
    }
}

} // verus!
