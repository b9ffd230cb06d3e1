use vstd::prelude::*;

use crate::carrier::Carrier;
use crate::carrier::CarrierV;
use crate::currency::Currency;
use crate::currency::CurrencyV;
use crate::json::Json;
use crate::json::get_field;
use crate::json::obj_get;
use crate::language::Language;
use crate::language::LanguageV;
use crate::threat::Threat;
use crate::timezone::TimeZone;
use crate::timezone::TimeZoneV;

verus! {

/// A string member of an object. A missing key decodes as the empty string;
/// a present member of another type is a mismatch.
pub open spec fn str_field(fields: Seq<(String, Json)>, key: Seq<char>) -> Option<Seq<char>> {
    match obj_get(fields, key) {
        None => Some(Seq::empty()),
        Some(Json::Str(s)) => Some(s@),
        Some(_) => None,
    }
}

/// A required boolean member of an object.
pub open spec fn bool_field(fields: Seq<(String, Json)>, key: Seq<char>) -> Option<bool> {
    match obj_get(fields, key) {
        Some(Json::Bool(b)) => Some(b),
        _ => None,
    }
}

/// A required numeric member of an object, kept as the decoder's decimal
/// rendering of the number.
pub open spec fn num_field(fields: Seq<(String, Json)>, key: Seq<char>) -> Option<Seq<char>> {
    match obj_get(fields, key) {
        Some(Json::Num(s)) => Some(s@),
        _ => None,
    }
}

/// Decodes a carrier record from a JSON tree.
pub open spec fn decode_carrier_spec(t: Json) -> Option<CarrierV> {
    match t {
        Json::Obj(fields) => {
            let f = fields@;
            if str_field(f, "name"@) is None || str_field(f, "mcc"@) is None || str_field(
                f,
                "mnc"@,
            ) is None {
                None
            } else {
                Some(
                    CarrierV {
                        name: str_field(f, "name"@)->0,
                        mcc: str_field(f, "mcc"@)->0,
                        mnc: str_field(f, "mnc"@)->0,
                    },
                )
            }
        },
        _ => None,
    }
}

/// Decodes a language record from a JSON tree.
pub open spec fn decode_language_spec(t: Json) -> Option<LanguageV> {
    match t {
        Json::Obj(fields) => {
            let f = fields@;
            if str_field(f, "name"@) is None || str_field(f, "native"@) is None {
                None
            } else {
                Some(
                    LanguageV { name: str_field(f, "name"@)->0, native: str_field(f, "native"@)->0 },
                )
            }
        },
        _ => None,
    }
}

/// Decodes a currency record from a JSON tree.
pub open spec fn decode_currency_spec(t: Json) -> Option<CurrencyV> {
    match t {
        Json::Obj(fields) => {
            let f = fields@;
            if str_field(f, "name"@) is None || str_field(f, "code"@) is None || str_field(
                f,
                "symbol"@,
            ) is None || str_field(f, "native"@) is None || str_field(f, "plural"@) is None {
                None
            } else {
                Some(
                    CurrencyV {
                        name: str_field(f, "name"@)->0,
                        code: str_field(f, "code"@)->0,
                        symbol: str_field(f, "symbol"@)->0,
                        native: str_field(f, "native"@)->0,
                        plural: str_field(f, "plural"@)->0,
                    },
                )
            }
        },
        _ => None,
    }
}

/// Decodes a time-zone record from a JSON tree. No daylight-saving flag is
/// read: the service sometimes sends an empty string in its place.
pub open spec fn decode_timezone_spec(t: Json) -> Option<TimeZoneV> {
    match t {
        Json::Obj(fields) => {
            let f = fields@;
            if str_field(f, "name"@) is None || str_field(f, "abbr"@) is None || str_field(
                f,
                "offset"@,
            ) is None {
                None
            } else {
                Some(
                    TimeZoneV {
                        name: str_field(f, "name"@)->0,
                        abbr: str_field(f, "abbr"@)->0,
                        offset: str_field(f, "offset"@)->0,
                    },
                )
            }
        },
        _ => None,
    }
}

/// Decodes the threat-signal record from a JSON tree. All seven flags are
/// required booleans.
pub open spec fn decode_threat_spec(t: Json) -> Option<Threat> {
    match t {
        Json::Obj(fields) => {
            let f = fields@;
            if bool_field(f, "is_tor"@) is None || bool_field(f, "is_proxy"@) is None
                || bool_field(f, "is_anonymous"@) is None || bool_field(f, "is_known_attacker"@)
                is None || bool_field(f, "is_known_abuser"@) is None || bool_field(f, "is_threat"@)
                is None || bool_field(f, "is_bogon"@) is None {
                None
            } else {
                Some(
                    Threat {
                        is_tor: bool_field(f, "is_tor"@)->0,
                        is_proxy: bool_field(f, "is_proxy"@)->0,
                        is_anonymous: bool_field(f, "is_anonymous"@)->0,
                        is_known_attacker: bool_field(f, "is_known_attacker"@)->0,
                        is_known_abuser: bool_field(f, "is_known_abuser"@)->0,
                        is_threat: bool_field(f, "is_threat"@)->0,
                        is_bogon: bool_field(f, "is_bogon"@)->0,
                    },
                )
            }
        },
        _ => None,
    }
}

/// Decodes a list of language records, failing if any element fails.
pub open spec fn decode_languages_spec(items: Seq<Json>) -> Option<Seq<LanguageV>>
    decreases items.len(),
{
    if items.len() == 0 {
        Some(Seq::empty())
    } else {
        match (decode_languages_spec(items.drop_last()), decode_language_spec(items.last())) {
            (Some(rest), Some(l)) => Some(rest.push(l)),
            _ => None,
        }
    }
}

proof fn lemma_languages_fail(items: Seq<Json>, i: int)
    requires
        0 <= i < items.len(),
        decode_language_spec(items[i]) is None,
    ensures
        decode_languages_spec(items) is None,
    decreases items.len(),
{
    if i < items.len() - 1 {
        assert(items.drop_last()[i] == items[i]);
        lemma_languages_fail(items.drop_last(), i);
    }
}

/// Extracts a string member, handing the empty string back for a missing key.
pub fn get_str_field(fields: &Vec<(String, Json)>, key: &str) -> (r: Option<String>)
    ensures
        match r {
            Some(s) => str_field(fields@, key@) == Some(s@),
            None => str_field(fields@, key@) is None,
        },
{
    match get_field(fields, key) {
        None => {
            let empty = String::new();
            proof {
                assert(empty@ =~= Seq::<char>::empty());
            }
            Some(empty)
        },
        Some(t) => match t {
            Json::Str(s) => Some(s.clone()),
            _ => None,
        },
    }
}

/// Extracts a required boolean member.
pub fn get_bool_field(fields: &Vec<(String, Json)>, key: &str) -> (r: Option<bool>)
    ensures
        r == bool_field(fields@, key@),
{
    match get_field(fields, key) {
        Some(t) => match t {
            Json::Bool(b) => Some(*b),
            _ => None,
        },
        None => None,
    }
}

/// Extracts a required numeric member as its decimal text.
pub fn get_num_field(fields: &Vec<(String, Json)>, key: &str) -> (r: Option<String>)
    ensures
        match r {
            Some(s) => num_field(fields@, key@) == Some(s@),
            None => num_field(fields@, key@) is None,
        },
{
    match get_field(fields, key) {
        Some(t) => match t {
            Json::Num(s) => Some(s.clone()),
            _ => None,
        },
        None => None,
    }
}

/// Decodes a carrier record.
pub fn decode_carrier(t: &Json) -> (r: Option<Carrier>)
    ensures
        match r {
            Some(c) => decode_carrier_spec(*t) == Some(c@),
            None => decode_carrier_spec(*t) is None,
        },
{
    let fields = match t {
        Json::Obj(fields) => fields,
        _ => { return None },
    };
    let name = match get_str_field(fields, "name") {
        Some(s) => s,
        None => { return None },
    };
    let mcc = match get_str_field(fields, "mcc") {
        Some(s) => s,
        None => { return None },
    };
    let mnc = match get_str_field(fields, "mnc") {
        Some(s) => s,
        None => { return None },
    };
    Some(Carrier { name, mcc, mnc })
}

/// Decodes a language record.
pub fn decode_language(t: &Json) -> (r: Option<Language>)
    ensures
        match r {
            Some(l) => decode_language_spec(*t) == Some(l@),
            None => decode_language_spec(*t) is None,
        },
{
    let fields = match t {
        Json::Obj(fields) => fields,
        _ => { return None },
    };
    let name = match get_str_field(fields, "name") {
        Some(s) => s,
        None => { return None },
    };
    let native = match get_str_field(fields, "native") {
        Some(s) => s,
        None => { return None },
    };
    Some(Language { name, native })
}

/// Decodes a currency record.
pub fn decode_currency(t: &Json) -> (r: Option<Currency>)
    ensures
        match r {
            Some(c) => decode_currency_spec(*t) == Some(c@),
            None => decode_currency_spec(*t) is None,
        },
{
    let fields = match t {
        Json::Obj(fields) => fields,
        _ => { return None },
    };
    let name = match get_str_field(fields, "name") {
        Some(s) => s,
        None => { return None },
    };
    let code = match get_str_field(fields, "code") {
        Some(s) => s,
        None => { return None },
    };
    let symbol = match get_str_field(fields, "symbol") {
        Some(s) => s,
        None => { return None },
    };
    let native = match get_str_field(fields, "native") {
        Some(s) => s,
        None => { return None },
    };
    let plural = match get_str_field(fields, "plural") {
        Some(s) => s,
        None => { return None },
    };
    Some(Currency { name, code, symbol, native, plural })
}

/// Decodes a time-zone record.
pub fn decode_timezone(t: &Json) -> (r: Option<TimeZone>)
    ensures
        match r {
            Some(z) => decode_timezone_spec(*t) == Some(z@),
            None => decode_timezone_spec(*t) is None,
        },
{
    let fields = match t {
        Json::Obj(fields) => fields,
        _ => { return None },
    };
    let name = match get_str_field(fields, "name") {
        Some(s) => s,
        None => { return None },
    };
    let abbr = match get_str_field(fields, "abbr") {
        Some(s) => s,
        None => { return None },
    };
    let offset = match get_str_field(fields, "offset") {
        Some(s) => s,
        None => { return None },
    };
    Some(TimeZone { name, abbr, offset })
}

/// Decodes the threat-signal record.
pub fn decode_threat(t: &Json) -> (r: Option<Threat>)
    ensures
        r == decode_threat_spec(*t),
{
    let fields = match t {
        Json::Obj(fields) => fields,
        _ => { return None },
    };
    let is_tor = match get_bool_field(fields, "is_tor") {
        Some(b) => b,
        None => { return None },
    };
    let is_proxy = match get_bool_field(fields, "is_proxy") {
        Some(b) => b,
        None => { return None },
    };
    let is_anonymous = match get_bool_field(fields, "is_anonymous") {
        Some(b) => b,
        None => { return None },
    };
    let is_known_attacker = match get_bool_field(fields, "is_known_attacker") {
        Some(b) => b,
        None => { return None },
    };
    let is_known_abuser = match get_bool_field(fields, "is_known_abuser") {
        Some(b) => b,
        None => { return None },
    };
    let is_threat = match get_bool_field(fields, "is_threat") {
        Some(b) => b,
        None => { return None },
    };
    let is_bogon = match get_bool_field(fields, "is_bogon") {
        Some(b) => b,
        None => { return None },
    };
    Some(
        Threat {
            is_tor,
            is_proxy,
            is_anonymous,
            is_known_attacker,
            is_known_abuser,
            is_threat,
            is_bogon,
        },
    )
}

/// Decodes a list of language records, failing if any element fails.
pub fn decode_languages(items: &Vec<Json>) -> (r: Option<Vec<Language>>)
    ensures
        match r {
            Some(v) => decode_languages_spec(items@) == Some(v.deep_view()),
            None => decode_languages_spec(items@) is None,
        },
{
    let mut out: Vec<Language> = Vec::new();
    let mut i: usize = 0;
    proof {
        assert(items@.take(0) =~= Seq::<Json>::empty());
        assert(out.deep_view() =~= Seq::<LanguageV>::empty());
    }
    while i < items.len()
        invariant
            i <= items@.len(),
            out@.len() == i,
            decode_languages_spec(items@.take(i as int)) == Some(out.deep_view()),
        decreases items@.len() - i,
    {
        let ghost prev = out.deep_view();
        match decode_language(&items[i]) {
            Some(l) => {
                out.push(l);
                proof {
                    assert(items@.take(i as int + 1).drop_last() =~= items@.take(i as int));
                    assert(items@.take(i as int + 1).last() == items@[i as int]);
                    assert(out.deep_view() =~= prev.push(out@[i as int]@));
                }
            },
            None => {
                proof {
                    lemma_languages_fail(items@, i as int);
                }
                return None;
            },
        }
        i += 1;
    }
    proof {
        assert(items@.take(items@.len() as int) =~= items@);
    }
    Some(out)
}

} // verus!
