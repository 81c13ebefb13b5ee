//! The schema layer: between the JSON tree and the typed model.
//!
//! For each record of the model there is a reading (`..._of_json`) and a
//! writing (`..._to_json`) at the specification level, an executable
//! parser and serializer proved equal to them, and a proof that writing
//! then reading gives the record back unchanged.
//!
//! Reading fails (`SchemaMismatch`) exactly when a required field is
//! absent or has the wrong shape.  An optional field may be absent or
//! `null`; both read as "absent".  Unknown extra fields are ignored.

use crate::dec::Dec;
use crate::json::arr_view;
use crate::json::fields_view;
use crate::json::lemma_arr_view;
use crate::json::lemma_obj_get_app;
use crate::json::lemma_obj_get_at;
use crate::json::lemma_obj_get_none;
use crate::json::lemma_obj_view;
use crate::json::obj_find;
use crate::json::obj_get;
use crate::json::Json;
use crate::json::JsonV;
use crate::model::Alert;
use crate::model::AlertV;
use crate::model::alerts_view;
use crate::model::ForecastError;
use crate::model::DailySeries;
use crate::model::DailySeriesV;
use crate::model::DarkskyResult;
use crate::model::DarkskyResultV;
use crate::model::Flags;
use crate::model::HourlySeries;
use crate::model::HourlySeriesV;
use crate::model::MinutelySeries;
use crate::model::MinutelySeriesV;
use crate::model::DailyWeather;
use crate::model::DailyWeatherV;
use crate::model::dailies_view;
use crate::model::Weather;
use crate::model::WeatherV;
use crate::model::weathers_view;
use crate::model::FlagsV;
use crate::model::Precipitation;
use crate::model::PrecipitationV;
use crate::model::precips_view;
use crate::model::strs_view;
use vstd::prelude::*;
use vstd::string::StringExecFns;

verus! {

/// The bindings of one JSON object, in wire order.
pub type FieldsV = Seq<(Seq<char>, JsonV)>;

// ---------------------------------------------------------------------
// Reading single fields out of an object.
// ---------------------------------------------------------------------

/// A required number field, kept exact.
pub open spec fn jf_dec(fs: FieldsV, key: Seq<char>) -> Option<Dec> {
    match obj_get(fs, key) {
        Some(JsonV::Num(d)) => Some(d),
        _ => None,
    }
}

/// A required whole unsigned number field.
pub open spec fn jf_u64(fs: FieldsV, key: Seq<char>) -> Option<u64> {
    match jf_dec(fs, key) {
        Some(d) => d.spec_as_u64(),
        None => None,
    }
}

pub open spec fn jf_u16(fs: FieldsV, key: Seq<char>) -> Option<u16> {
    match jf_dec(fs, key) {
        Some(d) => d.spec_as_u16(),
        None => None,
    }
}

pub open spec fn jf_u8(fs: FieldsV, key: Seq<char>) -> Option<u8> {
    match jf_dec(fs, key) {
        Some(d) => d.spec_as_u8(),
        None => None,
    }
}

pub open spec fn jf_i8(fs: FieldsV, key: Seq<char>) -> Option<i8> {
    match jf_dec(fs, key) {
        Some(d) => d.spec_as_i8(),
        None => None,
    }
}

/// A required string field.
pub open spec fn jf_str(fs: FieldsV, key: Seq<char>) -> Option<Seq<char>> {
    match obj_get(fs, key) {
        Some(JsonV::Str(s)) => Some(s),
        _ => None,
    }
}

/// A required array field.
pub open spec fn jf_arr(fs: FieldsV, key: Seq<char>) -> Option<Seq<JsonV>> {
    match obj_get(fs, key) {
        Some(JsonV::Arr(elems)) => Some(elems),
        _ => None,
    }
}

/// A required object field.
pub open spec fn jf_obj(fs: FieldsV, key: Seq<char>) -> Option<FieldsV> {
    match obj_get(fs, key) {
        Some(JsonV::Obj(inner)) => Some(inner),
        _ => None,
    }
}

/// An optional number field: absent or `null` reads as `None`; any
/// other non-number shape is a mismatch.
pub open spec fn jf_opt_dec(fs: FieldsV, key: Seq<char>) -> Option<Option<Dec>> {
    match obj_get(fs, key) {
        None => Some(None),
        Some(JsonV::Null) => Some(None),
        Some(JsonV::Num(d)) => Some(Some(d)),
        Some(_) => None,
    }
}

pub open spec fn jf_opt_u64(fs: FieldsV, key: Seq<char>) -> Option<Option<u64>> {
    match jf_opt_dec(fs, key) {
        Some(Some(d)) => match d.spec_as_u64() {
            Some(n) => Some(Some(n)),
            None => None,
        },
        Some(None) => Some(None),
        None => None,
    }
}

pub open spec fn jf_opt_u16(fs: FieldsV, key: Seq<char>) -> Option<Option<u16>> {
    match jf_opt_dec(fs, key) {
        Some(Some(d)) => match d.spec_as_u16() {
            Some(n) => Some(Some(n)),
            None => None,
        },
        Some(None) => Some(None),
        None => None,
    }
}

/// An optional string field: absent or `null` reads as `None`.
pub open spec fn jf_opt_str(fs: FieldsV, key: Seq<char>) -> Option<Option<Seq<char>>> {
    match obj_get(fs, key) {
        None => Some(None),
        Some(JsonV::Null) => Some(None),
        Some(JsonV::Str(s)) => Some(Some(s)),
        Some(_) => None,
    }
}

pub fn get_dec(fields: &Vec<(String, Json)>, key: &str) -> (r: Option<Dec>)
    ensures
        r == jf_dec(fields_view(fields@), key@),
{
    match obj_find(fields, key) {
        Some(Json::Num(d)) => Some(*d),
        _ => None,
    }
}

pub fn get_u64(fields: &Vec<(String, Json)>, key: &str) -> (r: Option<u64>)
    ensures
        r == jf_u64(fields_view(fields@), key@),
{
    match get_dec(fields, key) {
        Some(d) => d.as_u64(),
        None => None,
    }
}

pub fn get_u16(fields: &Vec<(String, Json)>, key: &str) -> (r: Option<u16>)
    ensures
        r == jf_u16(fields_view(fields@), key@),
{
    match get_dec(fields, key) {
        Some(d) => d.as_u16(),
        None => None,
    }
}

pub fn get_u8(fields: &Vec<(String, Json)>, key: &str) -> (r: Option<u8>)
    ensures
        r == jf_u8(fields_view(fields@), key@),
{
    match get_dec(fields, key) {
        Some(d) => d.as_u8(),
        None => None,
    }
}

pub fn get_i8(fields: &Vec<(String, Json)>, key: &str) -> (r: Option<i8>)
    ensures
        r == jf_i8(fields_view(fields@), key@),
{
    match get_dec(fields, key) {
        Some(d) => d.as_i8(),
        None => None,
    }
}

pub fn get_str(fields: &Vec<(String, Json)>, key: &str) -> (r: Option<String>)
    ensures
        match r {
            Some(s) => jf_str(fields_view(fields@), key@) == Some(s@),
            None => jf_str(fields_view(fields@), key@) is None,
        },
{
    match obj_find(fields, key) {
        Some(Json::Str(s)) => Some(s.clone()),
        _ => None,
    }
}

pub fn get_arr<'a>(fields: &'a Vec<(String, Json)>, key: &str) -> (r: Option<&'a Vec<Json>>)
    ensures
        match r {
            Some(v) => jf_arr(fields_view(fields@), key@) == Some(arr_view(v@)),
            None => jf_arr(fields_view(fields@), key@) is None,
        },
{
    match obj_find(fields, key) {
        Some(j) => match j {
            Json::Arr(v) => {
                proof {
                    lemma_arr_view(*v);
                }
                Some(v)
            },
            _ => None,
        },
        None => None,
    }
}

pub fn get_obj<'a>(fields: &'a Vec<(String, Json)>, key: &str) -> (r: Option<
    &'a Vec<(String, Json)>,
>)
    ensures
        match r {
            Some(v) => jf_obj(fields_view(fields@), key@) == Some(fields_view(v@)),
            None => jf_obj(fields_view(fields@), key@) is None,
        },
{
    match obj_find(fields, key) {
        Some(j) => match j {
            Json::Obj(v) => {
                proof {
                    lemma_obj_view(*v);
                }
                Some(v)
            },
            _ => None,
        },
        None => None,
    }
}

pub fn get_opt_dec(fields: &Vec<(String, Json)>, key: &str) -> (r: Result<
    Option<Dec>,
    ForecastError,
>)
    ensures
        match r {
            Ok(o) => jf_opt_dec(fields_view(fields@), key@) == Some(o),
            Err(e) => jf_opt_dec(fields_view(fields@), key@) is None && e
                == ForecastError::SchemaMismatch,
        },
{
    match obj_find(fields, key) {
        None => Ok(None),
        Some(Json::Null) => Ok(None),
        Some(Json::Num(d)) => Ok(Some(*d)),
        Some(_) => Err(ForecastError::SchemaMismatch),
    }
}

pub fn get_opt_u64(fields: &Vec<(String, Json)>, key: &str) -> (r: Result<
    Option<u64>,
    ForecastError,
>)
    ensures
        match r {
            Ok(o) => jf_opt_u64(fields_view(fields@), key@) == Some(o),
            Err(e) => jf_opt_u64(fields_view(fields@), key@) is None && e
                == ForecastError::SchemaMismatch,
        },
{
    match get_opt_dec(fields, key) {
        Ok(Some(d)) => match d.as_u64() {
            Some(n) => Ok(Some(n)),
            None => Err(ForecastError::SchemaMismatch),
        },
        Ok(None) => Ok(None),
        Err(e) => Err(e),
    }
}

pub fn get_opt_u16(fields: &Vec<(String, Json)>, key: &str) -> (r: Result<
    Option<u16>,
    ForecastError,
>)
    ensures
        match r {
            Ok(o) => jf_opt_u16(fields_view(fields@), key@) == Some(o),
            Err(e) => jf_opt_u16(fields_view(fields@), key@) is None && e
                == ForecastError::SchemaMismatch,
        },
{
    match get_opt_dec(fields, key) {
        Ok(Some(d)) => match d.as_u16() {
            Some(n) => Ok(Some(n)),
            None => Err(ForecastError::SchemaMismatch),
        },
        Ok(None) => Ok(None),
        Err(e) => Err(e),
    }
}

pub fn get_opt_str(fields: &Vec<(String, Json)>, key: &str) -> (r: Result<
    Option<String>,
    ForecastError,
>)
    ensures
        match r {
            Ok(Some(s)) => jf_opt_str(fields_view(fields@), key@) == Some(Some(s@)),
            Ok(None) => jf_opt_str(fields_view(fields@), key@) == Some(
                Option::<Seq<char>>::None,
            ),
            Err(e) => jf_opt_str(fields_view(fields@), key@) is None && e
                == ForecastError::SchemaMismatch,
        },
{
    match obj_find(fields, key) {
        None => Ok(None),
        Some(Json::Null) => Ok(None),
        Some(Json::Str(s)) => Ok(Some(s.clone())),
        Some(_) => Err(ForecastError::SchemaMismatch),
    }
}

// ---------------------------------------------------------------------
// Optional field segments of a serialized object.
// ---------------------------------------------------------------------

/// One binding when the value is present, nothing when it is absent.
pub open spec fn opt_json_field(key: Seq<char>, o: Option<JsonV>) -> FieldsV {
    match o {
        Some(j) => seq![(key, j)],
        None => Seq::empty(),
    }
}

pub open spec fn opt_num(o: Option<Dec>) -> Option<JsonV> {
    match o {
        Some(d) => Some(JsonV::Num(d)),
        None => None,
    }
}

pub open spec fn opt_num_u64(o: Option<u64>) -> Option<JsonV> {
    match o {
        Some(n) => Some(JsonV::Num(Dec { neg: false, mant: n, scale: 0 })),
        None => None,
    }
}

pub open spec fn opt_num_u16(o: Option<u16>) -> Option<JsonV> {
    match o {
        Some(n) => Some(JsonV::Num(Dec { neg: false, mant: n as u64, scale: 0 })),
        None => None,
    }
}

pub open spec fn opt_text(o: Option<Seq<char>>) -> Option<JsonV> {
    match o {
        Some(s) => Some(JsonV::Str(s)),
        None => None,
    }
}

/// What a lookup sees of an optional segment: its own key when present,
/// nothing otherwise, and never any other key.
pub proof fn lemma_opt_field_get(key: Seq<char>, o: Option<JsonV>, other: Seq<char>)
    ensures
        obj_get(opt_json_field(key, o), key) == o,
        other != key ==> obj_get(opt_json_field(key, o), other) is None,
{
    match o {
        Some(j) => {
            let seg = opt_json_field(key, o);
            assert(seg[0].0 == key);
            assert(seg[0].1 == j);
            lemma_obj_get_at(seg, key, 0);
            if other != key {
                assert(seg.drop_first().len() == 0);
                assert(obj_get(seg.drop_first(), other) is None);
            }
        },
        None => {},
    }
}

// ---------------------------------------------------------------------
// Precipitation points (the minutely series elements).
// ---------------------------------------------------------------------

pub open spec fn precip_of_fields(fs: FieldsV) -> Option<PrecipitationV> {
    match jf_u64(fs, "time"@) {
        None => None,
        Some(time) => match jf_dec(fs, "precipIntensity"@) {
            None => None,
            Some(precip_intensity) => match jf_dec(fs, "precipProbability"@) {
                None => None,
                Some(precip_probability) => Some(
                    PrecipitationV { time, precip_intensity, precip_probability },
                ),
            },
        },
    }
}

pub open spec fn precip_of_json(j: JsonV) -> Option<PrecipitationV> {
    match j {
        JsonV::Obj(fs) => precip_of_fields(fs),
        _ => None,
    }
}

pub open spec fn precip_to_json(p: PrecipitationV) -> JsonV {
    JsonV::Obj(
        seq![
            ("time"@, JsonV::Num(Dec { neg: false, mant: p.time, scale: 0 })),
            ("precipIntensity"@, JsonV::Num(p.precip_intensity)),
            ("precipProbability"@, JsonV::Num(p.precip_probability)),
        ],
    )
}

pub fn parse_precip(j: &Json) -> (r: Result<Precipitation, ForecastError>)
    ensures
        match r {
            Ok(p) => precip_of_json(j@) == Some(p@),
            Err(e) => precip_of_json(j@) is None && e == ForecastError::SchemaMismatch,
        },
{
    let fields = match j {
        Json::Obj(fs) => fs,
        _ => {
            return Err(ForecastError::SchemaMismatch);
        },
    };
    proof {
        lemma_obj_view(*fields);
    }
    let time = match get_u64(fields, "time") {
        Some(n) => n,
        None => {
            return Err(ForecastError::SchemaMismatch);
        },
    };
    let precip_intensity = match get_dec(fields, "precipIntensity") {
        Some(d) => d,
        None => {
            return Err(ForecastError::SchemaMismatch);
        },
    };
    let precip_probability = match get_dec(fields, "precipProbability") {
        Some(d) => d,
        None => {
            return Err(ForecastError::SchemaMismatch);
        },
    };
    Ok(Precipitation { time, precip_intensity, precip_probability })
}

pub fn json_of_precip(p: &Precipitation) -> (j: Json)
    ensures
        j@ == precip_to_json(p@),
{
    let mut fields: Vec<(String, Json)> = Vec::new();
    fields.push((String::from_str("time"), Json::Num(Dec { neg: false, mant: p.time, scale: 0 })));
    fields.push((String::from_str("precipIntensity"), Json::Num(p.precip_intensity)));
    fields.push((String::from_str("precipProbability"), Json::Num(p.precip_probability)));
    proof {
        lemma_obj_view(fields);
        assert(fields_view(fields@) =~= precip_to_json(p@)->Obj_0);
    }
    Json::Obj(fields)
}

/// Writing a precipitation point and reading it back gives it unchanged.
pub proof fn lemma_precip_round_trip(p: PrecipitationV)
    ensures
        precip_of_json(precip_to_json(p)) == Some(p),
{
    reveal_strlit("time");
    reveal_strlit("precipIntensity");
    reveal_strlit("precipProbability");
    let fs = precip_to_json(p)->Obj_0;
    assert(fs[0].0 == "time"@);
    assert(fs[1].0 == "precipIntensity"@);
    assert(fs[2].0 == "precipProbability"@);
    lemma_obj_get_at(fs, "time"@, 0);
    lemma_obj_get_at(fs, "precipIntensity"@, 1);
    lemma_obj_get_at(fs, "precipProbability"@, 2);
    assert(precip_of_json(precip_to_json(p)) == Some(p));
}

// ---------------------------------------------------------------------
// Arrays of precipitation points.
// ---------------------------------------------------------------------

pub open spec fn precips_of(elems: Seq<JsonV>) -> Option<Seq<PrecipitationV>>
    decreases elems.len(),
{
    if elems.len() == 0 {
        Some(Seq::empty())
    } else {
        match (precips_of(elems.drop_last()), precip_of_json(elems.last())) {
            (Some(init), Some(p)) => Some(init.push(p)),
            _ => None,
        }
    }
}

pub open spec fn precips_to_json(ps: Seq<PrecipitationV>) -> Seq<JsonV> {
    Seq::new(ps.len(), |i: int| precip_to_json(ps[i]))
}

pub proof fn lemma_precips_of_bad(elems: Seq<JsonV>, i: int)
    requires
        0 <= i < elems.len(),
        precip_of_json(elems[i]) is None,
    ensures
        precips_of(elems) is None,
    decreases elems.len(),
{
    if i < elems.len() - 1 {
        lemma_precips_of_bad(elems.drop_last(), i);
    }
}

pub fn parse_precips(v: &Vec<Json>) -> (r: Result<Vec<Precipitation>, ForecastError>)
    ensures
        match r {
            Ok(ps) => precips_of(arr_view(v@)) == Some(precips_view(ps@)),
            Err(e) => precips_of(arr_view(v@)) is None && e == ForecastError::SchemaMismatch,
        },
{
    let ghost av = arr_view(v@);
    let mut out: Vec<Precipitation> = Vec::new();
    let mut i: usize = 0;
    while i < v.len()
        invariant
            av == arr_view(v@),
            i <= v.len(),
            precips_of(av.take(i as int)) == Some(precips_view(out@)),
        decreases v.len() - i,
    {
        let ghost pre = precips_view(out@);
        match parse_precip(&v[i]) {
            Ok(p) => {
                out.push(p);
                proof {
                    assert(av.take(i + 1 as int).drop_last() =~= av.take(i as int));
                    assert(precips_view(out@) =~= pre.push(p@));
                }
            },
            Err(e) => {
                proof {
                    lemma_precips_of_bad(av, i as int);
                }
                return Err(e);
            },
        }
        i = i + 1;
    }
    proof {
        assert(av.take(v@.len() as int) =~= av);
    }
    Ok(out)
}

pub fn json_of_precips(ps: &Vec<Precipitation>) -> (v: Vec<Json>)
    ensures
        arr_view(v@) == precips_to_json(precips_view(ps@)),
{
    let mut out: Vec<Json> = Vec::new();
    let mut i: usize = 0;
    while i < ps.len()
        invariant
            i <= ps.len(),
            out@.len() == i,
            forall|k: int| 0 <= k < i ==> out@[k]@ == precip_to_json(ps@[k]@),
        decreases ps.len() - i,
    {
        out.push(json_of_precip(&ps[i]));
        i = i + 1;
    }
    proof {
        assert(arr_view(out@) =~= precips_to_json(precips_view(ps@)));
    }
    out
}

/// Writing a sequence of precipitation points and reading it back gives
/// the sequence unchanged.
pub proof fn lemma_precips_round_trip(ps: Seq<PrecipitationV>)
    ensures
        precips_of(precips_to_json(ps)) == Some(ps),
    decreases ps.len(),
{
    if ps.len() == 0 {
        assert(precips_to_json(ps) =~= Seq::<JsonV>::empty());
    } else {
        lemma_precips_round_trip(ps.drop_last());
        lemma_precip_round_trip(ps.last());
        assert(precips_to_json(ps).drop_last() =~= precips_to_json(ps.drop_last()));
        assert(precips_of(precips_to_json(ps))->Some_0 =~= ps);
    }
}

// ---------------------------------------------------------------------
// Arrays of strings (the data-source names).
// ---------------------------------------------------------------------

pub open spec fn strings_of(elems: Seq<JsonV>) -> Option<Seq<Seq<char>>>
    decreases elems.len(),
{
    if elems.len() == 0 {
        Some(Seq::empty())
    } else {
        match (strings_of(elems.drop_last()), elems.last()) {
            (Some(init), JsonV::Str(s)) => Some(init.push(s)),
            _ => None,
        }
    }
}

pub open spec fn strings_to_json(ss: Seq<Seq<char>>) -> Seq<JsonV> {
    Seq::new(ss.len(), |i: int| JsonV::Str(ss[i]))
}

pub proof fn lemma_strings_of_bad(elems: Seq<JsonV>, i: int)
    requires
        0 <= i < elems.len(),
        !(elems[i] is Str),
    ensures
        strings_of(elems) is None,
    decreases elems.len(),
{
    if i < elems.len() - 1 {
        lemma_strings_of_bad(elems.drop_last(), i);
    }
}

pub fn parse_strings(v: &Vec<Json>) -> (r: Result<Vec<String>, ForecastError>)
    ensures
        match r {
            Ok(ss) => strings_of(arr_view(v@)) == Some(strs_view(ss@)),
            Err(e) => strings_of(arr_view(v@)) is None && e == ForecastError::SchemaMismatch,
        },
{
    let ghost av = arr_view(v@);
    let mut out: Vec<String> = Vec::new();
    let mut i: usize = 0;
    while i < v.len()
        invariant
            av == arr_view(v@),
            i <= v.len(),
            strings_of(av.take(i as int)) == Some(strs_view(out@)),
        decreases v.len() - i,
    {
        let ghost pre = strs_view(out@);
        match &v[i] {
            Json::Str(s) => {
                out.push(s.clone());
                proof {
                    assert(av.take(i + 1 as int).drop_last() =~= av.take(i as int));
                    assert(strs_view(out@) =~= pre.push(v@[i as int]@->Str_0));
                }
            },
            _ => {
                proof {
                    lemma_strings_of_bad(av, i as int);
                }
                return Err(ForecastError::SchemaMismatch);
            },
        }
        i = i + 1;
    }
    proof {
        assert(av.take(v@.len() as int) =~= av);
    }
    Ok(out)
}

pub fn json_of_strings(ss: &Vec<String>) -> (v: Vec<Json>)
    ensures
        arr_view(v@) == strings_to_json(strs_view(ss@)),
{
    let mut out: Vec<Json> = Vec::new();
    let mut i: usize = 0;
    while i < ss.len()
        invariant
            i <= ss.len(),
            out@.len() == i,
            forall|k: int| 0 <= k < i ==> out@[k]@ == JsonV::Str(ss@[k]@),
        decreases ss.len() - i,
    {
        out.push(Json::Str(ss[i].clone()));
        i = i + 1;
    }
    proof {
        assert(arr_view(out@) =~= strings_to_json(strs_view(ss@)));
    }
    out
}

/// Writing a sequence of strings and reading it back gives it unchanged.
pub proof fn lemma_strings_round_trip(ss: Seq<Seq<char>>)
    ensures
        strings_of(strings_to_json(ss)) == Some(ss),
    decreases ss.len(),
{
    if ss.len() == 0 {
        assert(strings_to_json(ss) =~= Seq::<JsonV>::empty());
    } else {
        lemma_strings_round_trip(ss.drop_last());
        assert(strings_to_json(ss).drop_last() =~= strings_to_json(ss.drop_last()));
        assert(strings_of(strings_to_json(ss))->Some_0 =~= ss);
    }
}

// ---------------------------------------------------------------------
// Response metadata.  Wire keys here use dash-style naming.
// ---------------------------------------------------------------------

pub open spec fn flags_of_fields(fs: FieldsV) -> Option<FlagsV> {
    match jf_arr(fs, "sources"@) {
        None => None,
        Some(elems) => match strings_of(elems) {
            None => None,
            Some(sources) => match jf_dec(fs, "nearest-station"@) {
                None => None,
                Some(nearest_station) => match jf_str(fs, "units"@) {
                    None => None,
                    Some(units) => Some(FlagsV { sources, nearest_station, units }),
                },
            },
        },
    }
}

pub open spec fn flags_of_json(j: JsonV) -> Option<FlagsV> {
    match j {
        JsonV::Obj(fs) => flags_of_fields(fs),
        _ => None,
    }
}

pub open spec fn flags_to_json(f: FlagsV) -> JsonV {
    JsonV::Obj(
        seq![
            ("sources"@, JsonV::Arr(strings_to_json(f.sources))),
            ("nearest-station"@, JsonV::Num(f.nearest_station)),
            ("units"@, JsonV::Str(f.units)),
        ],
    )
}

pub fn parse_flags(j: &Json) -> (r: Result<Flags, ForecastError>)
    ensures
        match r {
            Ok(f) => flags_of_json(j@) == Some(f@),
            Err(e) => flags_of_json(j@) is None && e == ForecastError::SchemaMismatch,
        },
{
    let fields = match j {
        Json::Obj(fs) => fs,
        _ => {
            return Err(ForecastError::SchemaMismatch);
        },
    };
    proof {
        lemma_obj_view(*fields);
    }
    let sources_arr = match get_arr(fields, "sources") {
        Some(v) => v,
        None => {
            return Err(ForecastError::SchemaMismatch);
        },
    };
    let sources = match parse_strings(sources_arr) {
        Ok(ss) => ss,
        Err(e) => {
            return Err(e);
        },
    };
    let nearest_station = match get_dec(fields, "nearest-station") {
        Some(d) => d,
        None => {
            return Err(ForecastError::SchemaMismatch);
        },
    };
    let units = match get_str(fields, "units") {
        Some(s) => s,
        None => {
            return Err(ForecastError::SchemaMismatch);
        },
    };
    Ok(Flags { sources, nearest_station, units })
}

pub fn json_of_flags(f: &Flags) -> (j: Json)
    ensures
        j@ == flags_to_json(f@),
{
    let sources = json_of_strings(&f.sources);
    proof {
        lemma_arr_view(sources);
    }
    let mut fields: Vec<(String, Json)> = Vec::new();
    fields.push((String::from_str("sources"), Json::Arr(sources)));
    fields.push((String::from_str("nearest-station"), Json::Num(f.nearest_station)));
    fields.push((String::from_str("units"), Json::Str(f.units.clone())));
    proof {
        lemma_obj_view(fields);
        assert(fields_view(fields@) =~= flags_to_json(f@)->Obj_0);
    }
    Json::Obj(fields)
}

/// Writing the metadata record and reading it back gives it unchanged.
pub proof fn lemma_flags_round_trip(f: FlagsV)
    ensures
        flags_of_json(flags_to_json(f)) == Some(f),
{
    reveal_strlit("sources");
    reveal_strlit("nearest-station");
    reveal_strlit("units");
    let fs = flags_to_json(f)->Obj_0;
    assert(fs[0].0 == "sources"@);
    assert(fs[1].0 == "nearest-station"@);
    assert(fs[2].0 == "units"@);
    lemma_obj_get_at(fs, "sources"@, 0);
    lemma_obj_get_at(fs, "nearest-station"@, 1);
    lemma_obj_get_at(fs, "units"@, 2);
    lemma_strings_round_trip(f.sources);
    assert(flags_of_json(flags_to_json(f)) == Some(f));
}

// ---------------------------------------------------------------------
// Serializing optional fields.
// ---------------------------------------------------------------------

pub fn push_opt_dec(fields: &mut Vec<(String, Json)>, key: &str, o: &Option<Dec>)
    ensures
        fields_view(final(fields)@) == fields_view(old(fields)@) + opt_json_field(
            key@,
            opt_num(*o),
        ),
{
    match o {
        Some(d) => {
            fields.push((String::from_str(key), Json::Num(*d)));
        },
        None => {},
    }
    proof {
        assert(fields_view(fields@) =~= fields_view(old(fields)@) + opt_json_field(
            key@,
            opt_num(*o),
        ));
    }
}

pub fn push_opt_u64(fields: &mut Vec<(String, Json)>, key: &str, o: &Option<u64>)
    ensures
        fields_view(final(fields)@) == fields_view(old(fields)@) + opt_json_field(
            key@,
            opt_num_u64(*o),
        ),
{
    match o {
        Some(n) => {
            fields.push((String::from_str(key), Json::Num(Dec { neg: false, mant: *n, scale: 0 })));
        },
        None => {},
    }
    proof {
        assert(fields_view(fields@) =~= fields_view(old(fields)@) + opt_json_field(
            key@,
            opt_num_u64(*o),
        ));
    }
}

pub fn push_opt_u16(fields: &mut Vec<(String, Json)>, key: &str, o: &Option<u16>)
    ensures
        fields_view(final(fields)@) == fields_view(old(fields)@) + opt_json_field(
            key@,
            opt_num_u16(*o),
        ),
{
    match o {
        Some(n) => {
            fields.push(
                (String::from_str(key), Json::Num(Dec { neg: false, mant: *n as u64, scale: 0 })),
            );
        },
        None => {},
    }
    proof {
        assert(fields_view(fields@) =~= fields_view(old(fields)@) + opt_json_field(
            key@,
            opt_num_u16(*o),
        ));
    }
}

pub fn push_opt_str(fields: &mut Vec<(String, Json)>, key: &str, o: &Option<String>)
    ensures
        fields_view(final(fields)@) == fields_view(old(fields)@) + opt_json_field(
            key@,
            opt_text(crate::model::opt_str_view(*o)),
        ),
{
    match o {
        Some(s) => {
            fields.push((String::from_str(key), Json::Str(s.clone())));
        },
        None => {},
    }
    proof {
        assert(fields_view(fields@) =~= fields_view(old(fields)@) + opt_json_field(
            key@,
            opt_text(crate::model::opt_str_view(*o)),
        ));
    }
}

// ---------------------------------------------------------------------
// Point-in-time conditions.
// ---------------------------------------------------------------------

pub open spec fn weather_of_fields(fs: FieldsV) -> Option<WeatherV> {
    if jf_u64(fs, "time"@) is None {
        None
    } else if jf_str(fs, "summary"@) is None {
        None
    } else if jf_str(fs, "icon"@) is None {
        None
    } else if jf_opt_dec(fs, "nearestStormDistance"@) is None {
        None
    } else if jf_opt_u16(fs, "nearestStormBearing"@) is None {
        None
    } else if jf_dec(fs, "precipIntensity"@) is None {
        None
    } else if jf_dec(fs, "precipProbability"@) is None {
        None
    } else if jf_opt_str(fs, "precipType"@) is None {
        None
    } else if jf_dec(fs, "temperature"@) is None {
        None
    } else if jf_dec(fs, "apparentTemperature"@) is None {
        None
    } else if jf_dec(fs, "dewPoint"@) is None {
        None
    } else if jf_dec(fs, "humidity"@) is None {
        None
    } else if jf_dec(fs, "pressure"@) is None {
        None
    } else if jf_dec(fs, "windSpeed"@) is None {
        None
    } else if jf_dec(fs, "windGust"@) is None {
        None
    } else if jf_u16(fs, "windBearing"@) is None {
        None
    } else if jf_dec(fs, "cloudCover"@) is None {
        None
    } else if jf_u8(fs, "uvIndex"@) is None {
        None
    } else if jf_dec(fs, "visibility"@) is None {
        None
    } else if jf_dec(fs, "ozone"@) is None {
        None
    } else {
        Some(
            WeatherV {
                time: jf_u64(fs, "time"@)->Some_0,
                summary: jf_str(fs, "summary"@)->Some_0,
                icon: jf_str(fs, "icon"@)->Some_0,
                nearest_storm_distance: jf_opt_dec(fs, "nearestStormDistance"@)->Some_0,
                nearest_storm_bearing: jf_opt_u16(fs, "nearestStormBearing"@)->Some_0,
                precip_intensity: jf_dec(fs, "precipIntensity"@)->Some_0,
                precip_probability: jf_dec(fs, "precipProbability"@)->Some_0,
                precip_type: jf_opt_str(fs, "precipType"@)->Some_0,
                temperature: jf_dec(fs, "temperature"@)->Some_0,
                apparent_temperature: jf_dec(fs, "apparentTemperature"@)->Some_0,
                dew_point: jf_dec(fs, "dewPoint"@)->Some_0,
                humidity: jf_dec(fs, "humidity"@)->Some_0,
                pressure: jf_dec(fs, "pressure"@)->Some_0,
                wind_speed: jf_dec(fs, "windSpeed"@)->Some_0,
                wind_gust: jf_dec(fs, "windGust"@)->Some_0,
                wind_bearing: jf_u16(fs, "windBearing"@)->Some_0,
                cloud_cover: jf_dec(fs, "cloudCover"@)->Some_0,
                uv_index: jf_u8(fs, "uvIndex"@)->Some_0,
                visibility: jf_dec(fs, "visibility"@)->Some_0,
                ozone: jf_dec(fs, "ozone"@)->Some_0,
            },
        )
    }
}

pub open spec fn weather_of_json(j: JsonV) -> Option<WeatherV> {
    match j {
        JsonV::Obj(fs) => weather_of_fields(fs),
        _ => None,
    }
}

/// The required fields of a serialized weather point, in wire order.
pub open spec fn weather_req_fields(w: WeatherV) -> FieldsV {
    seq![
        ("time"@, JsonV::Num(Dec { neg: false, mant: w.time, scale: 0 })),
        ("summary"@, JsonV::Str(w.summary)),
        ("icon"@, JsonV::Str(w.icon)),
        ("precipIntensity"@, JsonV::Num(w.precip_intensity)),
        ("precipProbability"@, JsonV::Num(w.precip_probability)),
        ("temperature"@, JsonV::Num(w.temperature)),
        ("apparentTemperature"@, JsonV::Num(w.apparent_temperature)),
        ("dewPoint"@, JsonV::Num(w.dew_point)),
        ("humidity"@, JsonV::Num(w.humidity)),
        ("pressure"@, JsonV::Num(w.pressure)),
        ("windSpeed"@, JsonV::Num(w.wind_speed)),
        ("windGust"@, JsonV::Num(w.wind_gust)),
        ("windBearing"@, JsonV::Num(Dec { neg: false, mant: w.wind_bearing as u64, scale: 0 })),
        ("cloudCover"@, JsonV::Num(w.cloud_cover)),
        ("uvIndex"@, JsonV::Num(Dec { neg: false, mant: w.uv_index as u64, scale: 0 })),
        ("visibility"@, JsonV::Num(w.visibility)),
        ("ozone"@, JsonV::Num(w.ozone)),
    ]
}

pub open spec fn weather_to_json(w: WeatherV) -> JsonV {
    JsonV::Obj(
        weather_req_fields(w) + opt_json_field(
            "nearestStormDistance"@,
            opt_num(w.nearest_storm_distance),
        ) + opt_json_field("nearestStormBearing"@, opt_num_u16(w.nearest_storm_bearing))
            + opt_json_field("precipType"@, opt_text(w.precip_type)),
    )
}

pub fn parse_weather(j: &Json) -> (r: Result<Weather, ForecastError>)
    ensures
        match r {
            Ok(w) => weather_of_json(j@) == Some(w@),
            Err(e) => weather_of_json(j@) is None && e == ForecastError::SchemaMismatch,
        },
{
    let fields = match j {
        Json::Obj(fs) => fs,
        _ => {
            return Err(ForecastError::SchemaMismatch);
        },
    };
    proof {
        lemma_obj_view(*fields);
    }
    let time = match get_u64(fields, "time") {
        Some(x) => x,
        None => {
            return Err(ForecastError::SchemaMismatch);
        },
    };
    let summary = match get_str(fields, "summary") {
        Some(x) => x,
        None => {
            return Err(ForecastError::SchemaMismatch);
        },
    };
    let icon = match get_str(fields, "icon") {
        Some(x) => x,
        None => {
            return Err(ForecastError::SchemaMismatch);
        },
    };
    let nearest_storm_distance = match get_opt_dec(fields, "nearestStormDistance") {
        Ok(x) => x,
        Err(e) => {
            return Err(e);
        },
    };
    let nearest_storm_bearing = match get_opt_u16(fields, "nearestStormBearing") {
        Ok(x) => x,
        Err(e) => {
            return Err(e);
        },
    };
    let precip_intensity = match get_dec(fields, "precipIntensity") {
        Some(x) => x,
        None => {
            return Err(ForecastError::SchemaMismatch);
        },
    };
    let precip_probability = match get_dec(fields, "precipProbability") {
        Some(x) => x,
        None => {
            return Err(ForecastError::SchemaMismatch);
        },
    };
    let precip_type = match get_opt_str(fields, "precipType") {
        Ok(x) => x,
        Err(e) => {
            return Err(e);
        },
    };
    let temperature = match get_dec(fields, "temperature") {
        Some(x) => x,
        None => {
            return Err(ForecastError::SchemaMismatch);
        },
    };
    let apparent_temperature = match get_dec(fields, "apparentTemperature") {
        Some(x) => x,
        None => {
            return Err(ForecastError::SchemaMismatch);
        },
    };
    let dew_point = match get_dec(fields, "dewPoint") {
        Some(x) => x,
        None => {
            return Err(ForecastError::SchemaMismatch);
        },
    };
    let humidity = match get_dec(fields, "humidity") {
        Some(x) => x,
        None => {
            return Err(ForecastError::SchemaMismatch);
        },
    };
    let pressure = match get_dec(fields, "pressure") {
        Some(x) => x,
        None => {
            return Err(ForecastError::SchemaMismatch);
        },
    };
    let wind_speed = match get_dec(fields, "windSpeed") {
        Some(x) => x,
        None => {
            return Err(ForecastError::SchemaMismatch);
        },
    };
    let wind_gust = match get_dec(fields, "windGust") {
        Some(x) => x,
        None => {
            return Err(ForecastError::SchemaMismatch);
        },
    };
    let wind_bearing = match get_u16(fields, "windBearing") {
        Some(x) => x,
        None => {
            return Err(ForecastError::SchemaMismatch);
        },
    };
    let cloud_cover = match get_dec(fields, "cloudCover") {
        Some(x) => x,
        None => {
            return Err(ForecastError::SchemaMismatch);
        },
    };
    let uv_index = match get_u8(fields, "uvIndex") {
        Some(x) => x,
        None => {
            return Err(ForecastError::SchemaMismatch);
        },
    };
    let visibility = match get_dec(fields, "visibility") {
        Some(x) => x,
        None => {
            return Err(ForecastError::SchemaMismatch);
        },
    };
    let ozone = match get_dec(fields, "ozone") {
        Some(x) => x,
        None => {
            return Err(ForecastError::SchemaMismatch);
        },
    };
    Ok(
        Weather {
            time,
            summary,
            icon,
            nearest_storm_distance,
            nearest_storm_bearing,
            precip_intensity,
            precip_probability,
            precip_type,
            temperature,
            apparent_temperature,
            dew_point,
            humidity,
            pressure,
            wind_speed,
            wind_gust,
            wind_bearing,
            cloud_cover,
            uv_index,
            visibility,
            ozone,
        },
    )
}

pub fn json_of_weather(w: &Weather) -> (j: Json)
    ensures
        j@ == weather_to_json(w@),
{
    let mut fields: Vec<(String, Json)> = Vec::new();
    fields.push((String::from_str("time"), Json::Num(Dec { neg: false, mant: w.time, scale: 0 })));
    fields.push((String::from_str("summary"), Json::Str(w.summary.clone())));
    fields.push((String::from_str("icon"), Json::Str(w.icon.clone())));
    fields.push((String::from_str("precipIntensity"), Json::Num(w.precip_intensity)));
    fields.push((String::from_str("precipProbability"), Json::Num(w.precip_probability)));
    fields.push((String::from_str("temperature"), Json::Num(w.temperature)));
    fields.push((String::from_str("apparentTemperature"), Json::Num(w.apparent_temperature)));
    fields.push((String::from_str("dewPoint"), Json::Num(w.dew_point)));
    fields.push((String::from_str("humidity"), Json::Num(w.humidity)));
    fields.push((String::from_str("pressure"), Json::Num(w.pressure)));
    fields.push((String::from_str("windSpeed"), Json::Num(w.wind_speed)));
    fields.push((String::from_str("windGust"), Json::Num(w.wind_gust)));
    fields.push(
        (
            String::from_str("windBearing"),
            Json::Num(Dec { neg: false, mant: w.wind_bearing as u64, scale: 0 }),
        ),
    );
    fields.push((String::from_str("cloudCover"), Json::Num(w.cloud_cover)));
    fields.push(
        (
            String::from_str("uvIndex"),
            Json::Num(Dec { neg: false, mant: w.uv_index as u64, scale: 0 }),
        ),
    );
    fields.push((String::from_str("visibility"), Json::Num(w.visibility)));
    fields.push((String::from_str("ozone"), Json::Num(w.ozone)));
    proof {
        assert(fields_view(fields@) =~= weather_req_fields(w@));
    }
    push_opt_dec(&mut fields, "nearestStormDistance", &w.nearest_storm_distance);
    push_opt_u16(&mut fields, "nearestStormBearing", &w.nearest_storm_bearing);
    push_opt_str(&mut fields, "precipType", &w.precip_type);
    proof {
        lemma_obj_view(fields);
        assert(fields_view(fields@) =~= weather_to_json(w@)->Obj_0);
    }
    Json::Obj(fields)
}

/// Writing a weather point and reading it back gives it unchanged.
#[verifier::rlimit(50)]
pub proof fn lemma_weather_round_trip(w: WeatherV)
    ensures
        weather_of_json(weather_to_json(w)) == Some(w),
{
    reveal_strlit("time");
    reveal_strlit("summary");
    reveal_strlit("icon");
    reveal_strlit("nearestStormDistance");
    reveal_strlit("nearestStormBearing");
    reveal_strlit("precipIntensity");
    reveal_strlit("precipProbability");
    reveal_strlit("precipType");
    reveal_strlit("temperature");
    reveal_strlit("apparentTemperature");
    reveal_strlit("dewPoint");
    reveal_strlit("humidity");
    reveal_strlit("pressure");
    reveal_strlit("windSpeed");
    reveal_strlit("windGust");
    reveal_strlit("windBearing");
    reveal_strlit("cloudCover");
    reveal_strlit("uvIndex");
    reveal_strlit("visibility");
    reveal_strlit("ozone");
    assert("time"@[0] == 't');
    assert("icon"@[0] == 'i');
    assert("summary"@[0] == 's');
    assert("uvIndex"@[0] == 'u');
    assert("dewPoint"@[0] == 'd');
    assert("humidity"@[0] == 'h');
    assert("pressure"@[0] == 'p');
    assert("windGust"@[0] == 'w');
    assert("temperature"@[0] == 't');
    assert("windBearing"@[0] == 'w');
    assert("cloudCover"@[0] == 'c');
    assert("visibility"@[0] == 'v');
    assert("precipType"@[0] == 'p');
    assert("apparentTemperature"@[0] == 'a');
    assert("nearestStormBearing"@[0] == 'n');
    assert("time"@ != "icon"@);
    assert("summary"@ != "uvIndex"@);
    assert("dewPoint"@ != "humidity"@);
    assert("dewPoint"@ != "pressure"@);
    assert("dewPoint"@ != "windGust"@);
    assert("humidity"@ != "pressure"@);
    assert("humidity"@ != "windGust"@);
    assert("pressure"@ != "windGust"@);
    assert("temperature"@ != "windBearing"@);
    assert("cloudCover"@ != "visibility"@);
    assert("cloudCover"@ != "precipType"@);
    assert("visibility"@ != "precipType"@);
    assert("apparentTemperature"@ != "nearestStormBearing"@);
    assert("nearestStormDistance"@.len() == 20);
    assert("nearestStormBearing"@.len() == 19);
    assert("precipType"@.len() == 10);
    assert("nearestStormDistance"@ != "nearestStormBearing"@);
    assert("nearestStormDistance"@ != "precipType"@);
    assert("nearestStormBearing"@ != "precipType"@);
    let req = weather_req_fields(w);
    let o1 = opt_json_field("nearestStormDistance"@, opt_num(w.nearest_storm_distance));
    let o2 = opt_json_field("nearestStormBearing"@, opt_num_u16(w.nearest_storm_bearing));
    let o3 = opt_json_field("precipType"@, opt_text(w.precip_type));
    let s1 = req + o1;
    let s2 = s1 + o2;
    let fs = s2 + o3;
    assert(weather_to_json(w)->Obj_0 == fs);
    assert(req[0].0 == "time"@);
    assert(req[1].0 == "summary"@);
    assert(req[2].0 == "icon"@);
    assert(req[3].0 == "precipIntensity"@);
    assert(req[4].0 == "precipProbability"@);
    assert(req[5].0 == "temperature"@);
    assert(req[6].0 == "apparentTemperature"@);
    assert(req[7].0 == "dewPoint"@);
    assert(req[8].0 == "humidity"@);
    assert(req[9].0 == "pressure"@);
    assert(req[10].0 == "windSpeed"@);
    assert(req[11].0 == "windGust"@);
    assert(req[12].0 == "windBearing"@);
    assert(req[13].0 == "cloudCover"@);
    assert(req[14].0 == "uvIndex"@);
    assert(req[15].0 == "visibility"@);
    assert(req[16].0 == "ozone"@);
    lemma_obj_get_at(req, "time"@, 0);
    lemma_obj_get_at(req, "summary"@, 1);
    lemma_obj_get_at(req, "icon"@, 2);
    lemma_obj_get_at(req, "precipIntensity"@, 3);
    lemma_obj_get_at(req, "precipProbability"@, 4);
    lemma_obj_get_at(req, "temperature"@, 5);
    lemma_obj_get_at(req, "apparentTemperature"@, 6);
    lemma_obj_get_at(req, "dewPoint"@, 7);
    lemma_obj_get_at(req, "humidity"@, 8);
    lemma_obj_get_at(req, "pressure"@, 9);
    lemma_obj_get_at(req, "windSpeed"@, 10);
    lemma_obj_get_at(req, "windGust"@, 11);
    lemma_obj_get_at(req, "windBearing"@, 12);
    lemma_obj_get_at(req, "cloudCover"@, 13);
    lemma_obj_get_at(req, "uvIndex"@, 14);
    lemma_obj_get_at(req, "visibility"@, 15);
    lemma_obj_get_at(req, "ozone"@, 16);
    lemma_obj_get_none(req, "nearestStormDistance"@);
    lemma_obj_get_none(req, "nearestStormBearing"@);
    lemma_obj_get_none(req, "precipType"@);
    lemma_opt_field_get("nearestStormDistance"@, opt_num(w.nearest_storm_distance), "nearestStormBearing"@);
    lemma_opt_field_get("nearestStormDistance"@, opt_num(w.nearest_storm_distance), "precipType"@);
    lemma_opt_field_get("nearestStormBearing"@, opt_num_u16(w.nearest_storm_bearing), "nearestStormDistance"@);
    lemma_opt_field_get("nearestStormBearing"@, opt_num_u16(w.nearest_storm_bearing), "precipType"@);
    lemma_opt_field_get("precipType"@, opt_text(w.precip_type), "nearestStormDistance"@);
    lemma_opt_field_get("precipType"@, opt_text(w.precip_type), "nearestStormBearing"@);
    lemma_obj_get_app(req, o1, "time"@);
    lemma_obj_get_app(s1, o2, "time"@);
    lemma_obj_get_app(s2, o3, "time"@);
    lemma_obj_get_app(req, o1, "summary"@);
    lemma_obj_get_app(s1, o2, "summary"@);
    lemma_obj_get_app(s2, o3, "summary"@);
    lemma_obj_get_app(req, o1, "icon"@);
    lemma_obj_get_app(s1, o2, "icon"@);
    lemma_obj_get_app(s2, o3, "icon"@);
    lemma_obj_get_app(req, o1, "precipIntensity"@);
    lemma_obj_get_app(s1, o2, "precipIntensity"@);
    lemma_obj_get_app(s2, o3, "precipIntensity"@);
    lemma_obj_get_app(req, o1, "precipProbability"@);
    lemma_obj_get_app(s1, o2, "precipProbability"@);
    lemma_obj_get_app(s2, o3, "precipProbability"@);
    lemma_obj_get_app(req, o1, "temperature"@);
    lemma_obj_get_app(s1, o2, "temperature"@);
    lemma_obj_get_app(s2, o3, "temperature"@);
    lemma_obj_get_app(req, o1, "apparentTemperature"@);
    lemma_obj_get_app(s1, o2, "apparentTemperature"@);
    lemma_obj_get_app(s2, o3, "apparentTemperature"@);
    lemma_obj_get_app(req, o1, "dewPoint"@);
    lemma_obj_get_app(s1, o2, "dewPoint"@);
    lemma_obj_get_app(s2, o3, "dewPoint"@);
    lemma_obj_get_app(req, o1, "humidity"@);
    lemma_obj_get_app(s1, o2, "humidity"@);
    lemma_obj_get_app(s2, o3, "humidity"@);
    lemma_obj_get_app(req, o1, "pressure"@);
    lemma_obj_get_app(s1, o2, "pressure"@);
    lemma_obj_get_app(s2, o3, "pressure"@);
    lemma_obj_get_app(req, o1, "windSpeed"@);
    lemma_obj_get_app(s1, o2, "windSpeed"@);
    lemma_obj_get_app(s2, o3, "windSpeed"@);
    lemma_obj_get_app(req, o1, "windGust"@);
    lemma_obj_get_app(s1, o2, "windGust"@);
    lemma_obj_get_app(s2, o3, "windGust"@);
    lemma_obj_get_app(req, o1, "windBearing"@);
    lemma_obj_get_app(s1, o2, "windBearing"@);
    lemma_obj_get_app(s2, o3, "windBearing"@);
    lemma_obj_get_app(req, o1, "cloudCover"@);
    lemma_obj_get_app(s1, o2, "cloudCover"@);
    lemma_obj_get_app(s2, o3, "cloudCover"@);
    lemma_obj_get_app(req, o1, "uvIndex"@);
    lemma_obj_get_app(s1, o2, "uvIndex"@);
    lemma_obj_get_app(s2, o3, "uvIndex"@);
    lemma_obj_get_app(req, o1, "visibility"@);
    lemma_obj_get_app(s1, o2, "visibility"@);
    lemma_obj_get_app(s2, o3, "visibility"@);
    lemma_obj_get_app(req, o1, "ozone"@);
    lemma_obj_get_app(s1, o2, "ozone"@);
    lemma_obj_get_app(s2, o3, "ozone"@);
    lemma_obj_get_app(req, o1, "nearestStormDistance"@);
    lemma_obj_get_app(s1, o2, "nearestStormDistance"@);
    lemma_obj_get_app(s2, o3, "nearestStormDistance"@);
    lemma_obj_get_app(req, o1, "nearestStormBearing"@);
    lemma_obj_get_app(s1, o2, "nearestStormBearing"@);
    lemma_obj_get_app(s2, o3, "nearestStormBearing"@);
    lemma_obj_get_app(req, o1, "precipType"@);
    lemma_obj_get_app(s1, o2, "precipType"@);
    lemma_obj_get_app(s2, o3, "precipType"@);
    assert((w.wind_bearing as u64) as u16 == w.wind_bearing);
    assert((w.uv_index as u64) as u8 == w.uv_index);
    if w.nearest_storm_bearing is Some {
        let n = w.nearest_storm_bearing->Some_0;
        assert((n as u64) as u16 == n);
    }
    assert(jf_u64(fs, "time"@) == Some(w.time));
    assert(jf_str(fs, "summary"@) == Some(w.summary));
    assert(jf_str(fs, "icon"@) == Some(w.icon));
    match w.nearest_storm_distance {
        Some(d) => {
            assert(obj_get(fs, "nearestStormDistance"@) == Some(JsonV::Num(d)));
            assert(jf_opt_dec(fs, "nearestStormDistance"@) == Some(w.nearest_storm_distance));
        },
        None => {
            assert(obj_get(fs, "nearestStormDistance"@) is None);
            assert(jf_opt_dec(fs, "nearestStormDistance"@) == Some(w.nearest_storm_distance));
        },
    }
    match w.nearest_storm_bearing {
        Some(n) => {
            assert(obj_get(fs, "nearestStormBearing"@) == Some(
                JsonV::Num(Dec { neg: false, mant: n as u64, scale: 0 }),
            ));
            assert(jf_opt_u16(fs, "nearestStormBearing"@) == Some(w.nearest_storm_bearing));
        },
        None => {
            assert(obj_get(fs, "nearestStormBearing"@) is None);
            assert(jf_opt_u16(fs, "nearestStormBearing"@) == Some(w.nearest_storm_bearing));
        },
    }
    match w.precip_type {
        Some(s) => {
            assert(obj_get(fs, "precipType"@) == Some(JsonV::Str(s)));
            assert(jf_opt_str(fs, "precipType"@) == Some(w.precip_type));
        },
        None => {
            assert(obj_get(fs, "precipType"@) is None);
            assert(jf_opt_str(fs, "precipType"@) == Some(w.precip_type));
        },
    }
    assert(jf_dec(fs, "precipIntensity"@) == Some(w.precip_intensity));
    assert(jf_dec(fs, "precipProbability"@) == Some(w.precip_probability));
    assert(jf_opt_str(fs, "precipType"@) == Some(w.precip_type));
    assert(jf_dec(fs, "temperature"@) == Some(w.temperature));
    assert(jf_dec(fs, "apparentTemperature"@) == Some(w.apparent_temperature));
    assert(jf_dec(fs, "dewPoint"@) == Some(w.dew_point));
    assert(jf_dec(fs, "humidity"@) == Some(w.humidity));
    assert(jf_dec(fs, "pressure"@) == Some(w.pressure));
    assert(jf_dec(fs, "windSpeed"@) == Some(w.wind_speed));
    assert(jf_dec(fs, "windGust"@) == Some(w.wind_gust));
    assert(jf_u16(fs, "windBearing"@) == Some(w.wind_bearing));
    assert(jf_dec(fs, "cloudCover"@) == Some(w.cloud_cover));
    assert(jf_u8(fs, "uvIndex"@) == Some(w.uv_index));
    assert(jf_dec(fs, "visibility"@) == Some(w.visibility));
    assert(jf_dec(fs, "ozone"@) == Some(w.ozone));
    assert(weather_of_fields(fs) == Some(w));
}

// ---------------------------------------------------------------------
// Arrays of weather points.
// ---------------------------------------------------------------------

pub open spec fn weathers_of(elems: Seq<JsonV>) -> Option<Seq<WeatherV>>
    decreases elems.len(),
{
    if elems.len() == 0 {
        Some(Seq::empty())
    } else {
        match (weathers_of(elems.drop_last()), weather_of_json(elems.last())) {
            (Some(init), Some(w)) => Some(init.push(w)),
            _ => None,
        }
    }
}

pub open spec fn weathers_to_json(ws: Seq<WeatherV>) -> Seq<JsonV> {
    Seq::new(ws.len(), |i: int| weather_to_json(ws[i]))
}

pub proof fn lemma_weathers_of_bad(elems: Seq<JsonV>, i: int)
    requires
        0 <= i < elems.len(),
        weather_of_json(elems[i]) is None,
    ensures
        weathers_of(elems) is None,
    decreases elems.len(),
{
    if i < elems.len() - 1 {
        lemma_weathers_of_bad(elems.drop_last(), i);
    }
}

pub fn parse_weathers(v: &Vec<Json>) -> (r: Result<Vec<Weather>, ForecastError>)
    ensures
        match r {
            Ok(ws) => weathers_of(arr_view(v@)) == Some(weathers_view(ws@)),
            Err(e) => weathers_of(arr_view(v@)) is None && e == ForecastError::SchemaMismatch,
        },
{
    let ghost av = arr_view(v@);
    let mut out: Vec<Weather> = Vec::new();
    let mut i: usize = 0;
    while i < v.len()
        invariant
            av == arr_view(v@),
            i <= v.len(),
            weathers_of(av.take(i as int)) == Some(weathers_view(out@)),
        decreases v.len() - i,
    {
        let ghost pre = weathers_view(out@);
        match parse_weather(&v[i]) {
            Ok(w) => {
                out.push(w);
                proof {
                    assert(av.take(i + 1 as int).drop_last() =~= av.take(i as int));
                    assert(weathers_view(out@) =~= pre.push(w@));
                }
            },
            Err(e) => {
                proof {
                    lemma_weathers_of_bad(av, i as int);
                }
                return Err(e);
            },
        }
        i = i + 1;
    }
    proof {
        assert(av.take(v@.len() as int) =~= av);
    }
    Ok(out)
}

pub fn json_of_weathers(ws: &Vec<Weather>) -> (v: Vec<Json>)
    ensures
        arr_view(v@) == weathers_to_json(weathers_view(ws@)),
{
    let mut out: Vec<Json> = Vec::new();
    let mut i: usize = 0;
    while i < ws.len()
        invariant
            i <= ws.len(),
            out@.len() == i,
            forall|k: int| 0 <= k < i ==> out@[k]@ == weather_to_json(ws@[k]@),
        decreases ws.len() - i,
    {
        out.push(json_of_weather(&ws[i]));
        i = i + 1;
    }
    proof {
        assert(arr_view(out@) =~= weathers_to_json(weathers_view(ws@)));
    }
    out
}

/// Writing a sequence of weather points and reading it back gives the
/// sequence unchanged.
pub proof fn lemma_weathers_round_trip(ws: Seq<WeatherV>)
    ensures
        weathers_of(weathers_to_json(ws)) == Some(ws),
    decreases ws.len(),
{
    if ws.len() == 0 {
        assert(weathers_to_json(ws) =~= Seq::<JsonV>::empty());
    } else {
        lemma_weathers_round_trip(ws.drop_last());
        lemma_weather_round_trip(ws.last());
        assert(weathers_to_json(ws).drop_last() =~= weathers_to_json(ws.drop_last()));
        assert(weathers_of(weathers_to_json(ws))->Some_0 =~= ws);
    }
}

// ---------------------------------------------------------------------
// One day's forecast.
// ---------------------------------------------------------------------

pub open spec fn daily_of_fields(fs: FieldsV) -> Option<DailyWeatherV> {
    if jf_u64(fs, "time"@) is None {
        None
    } else
    if jf_str(fs, "summary"@) is None {
        None
    } else
    if jf_str(fs, "icon"@) is None {
        None
    } else
    if jf_u64(fs, "sunriseTime"@) is None {
        None
    } else
    if jf_u64(fs, "sunsetTime"@) is None {
        None
    } else
    if jf_dec(fs, "moonPhase"@) is None {
        None
    } else
    if jf_dec(fs, "precipIntensity"@) is None {
        None
    } else
    if jf_dec(fs, "precipIntensityMax"@) is None {
        None
    } else
    if jf_opt_u64(fs, "precipIntensityMaxTime"@) is None {
        None
    } else
    if jf_dec(fs, "precipProbability"@) is None {
        None
    } else
    if jf_opt_str(fs, "precipType"@) is None {
        None
    } else
    if jf_dec(fs, "temperatureHigh"@) is None {
        None
    } else
    if jf_u64(fs, "temperatureHighTime"@) is None {
        None
    } else
    if jf_dec(fs, "temperatureLow"@) is None {
        None
    } else
    if jf_u64(fs, "temperatureLowTime"@) is None {
        None
    } else
    if jf_dec(fs, "apparentTemperatureHigh"@) is None {
        None
    } else
    if jf_u64(fs, "apparentTemperatureHighTime"@) is None {
        None
    } else
    if jf_dec(fs, "apparentTemperatureLow"@) is None {
        None
    } else
    if jf_u64(fs, "apparentTemperatureLowTime"@) is None {
        None
    } else
    if jf_dec(fs, "dewPoint"@) is None {
        None
    } else
    if jf_dec(fs, "humidity"@) is None {
        None
    } else
    if jf_dec(fs, "pressure"@) is None {
        None
    } else
    if jf_dec(fs, "windSpeed"@) is None {
        None
    } else
    if jf_dec(fs, "windGust"@) is None {
        None
    } else
    if jf_u64(fs, "windGustTime"@) is None {
        None
    } else
    if jf_u16(fs, "windBearing"@) is None {
        None
    } else
    if jf_dec(fs, "cloudCover"@) is None {
        None
    } else
    if jf_u8(fs, "uvIndex"@) is None {
        None
    } else
    if jf_u64(fs, "uvIndexTime"@) is None {
        None
    } else
    if jf_dec(fs, "visibility"@) is None {
        None
    } else
    if jf_dec(fs, "ozone"@) is None {
        None
    } else {
        Some(
            DailyWeatherV {
                time: jf_u64(fs, "time"@)->Some_0,
                summary: jf_str(fs, "summary"@)->Some_0,
                icon: jf_str(fs, "icon"@)->Some_0,
                sunrise_time: jf_u64(fs, "sunriseTime"@)->Some_0,
                sunset_time: jf_u64(fs, "sunsetTime"@)->Some_0,
                moon_phase: jf_dec(fs, "moonPhase"@)->Some_0,
                precip_intensity: jf_dec(fs, "precipIntensity"@)->Some_0,
                precip_intensity_max: jf_dec(fs, "precipIntensityMax"@)->Some_0,
                precip_intensity_max_time: jf_opt_u64(fs, "precipIntensityMaxTime"@)->Some_0,
                precip_probability: jf_dec(fs, "precipProbability"@)->Some_0,
                precip_type: jf_opt_str(fs, "precipType"@)->Some_0,
                temperature_high: jf_dec(fs, "temperatureHigh"@)->Some_0,
                temperature_high_time: jf_u64(fs, "temperatureHighTime"@)->Some_0,
                temperature_low: jf_dec(fs, "temperatureLow"@)->Some_0,
                temperature_low_time: jf_u64(fs, "temperatureLowTime"@)->Some_0,
                apparent_temperature_high: jf_dec(fs, "apparentTemperatureHigh"@)->Some_0,
                apparent_temperature_high_time: jf_u64(fs, "apparentTemperatureHighTime"@)->Some_0,
                apparent_temperature_low: jf_dec(fs, "apparentTemperatureLow"@)->Some_0,
                apparent_temperature_low_time: jf_u64(fs, "apparentTemperatureLowTime"@)->Some_0,
                dew_point: jf_dec(fs, "dewPoint"@)->Some_0,
                humidity: jf_dec(fs, "humidity"@)->Some_0,
                pressure: jf_dec(fs, "pressure"@)->Some_0,
                wind_speed: jf_dec(fs, "windSpeed"@)->Some_0,
                wind_gust: jf_dec(fs, "windGust"@)->Some_0,
                wind_gust_time: jf_u64(fs, "windGustTime"@)->Some_0,
                wind_bearing: jf_u16(fs, "windBearing"@)->Some_0,
                cloud_cover: jf_dec(fs, "cloudCover"@)->Some_0,
                uv_index: jf_u8(fs, "uvIndex"@)->Some_0,
                uv_index_time: jf_u64(fs, "uvIndexTime"@)->Some_0,
                visibility: jf_dec(fs, "visibility"@)->Some_0,
                ozone: jf_dec(fs, "ozone"@)->Some_0,
            },
        )
    }
}

pub open spec fn daily_of_json(j: JsonV) -> Option<DailyWeatherV> {
    match j {
        JsonV::Obj(fs) => daily_of_fields(fs),
        _ => None,
    }
}

/// The required fields of a serialized day record, in wire order.
pub open spec fn daily_req_fields(d: DailyWeatherV) -> FieldsV {
    seq![
        ("time"@, JsonV::Num(Dec { neg: false, mant: d.time, scale: 0 })),
        ("summary"@, JsonV::Str(d.summary)),
        ("icon"@, JsonV::Str(d.icon)),
        ("sunriseTime"@, JsonV::Num(Dec { neg: false, mant: d.sunrise_time, scale: 0 })),
        ("sunsetTime"@, JsonV::Num(Dec { neg: false, mant: d.sunset_time, scale: 0 })),
        ("moonPhase"@, JsonV::Num(d.moon_phase)),
        ("precipIntensity"@, JsonV::Num(d.precip_intensity)),
        ("precipIntensityMax"@, JsonV::Num(d.precip_intensity_max)),
        ("precipProbability"@, JsonV::Num(d.precip_probability)),
        ("temperatureHigh"@, JsonV::Num(d.temperature_high)),
        ("temperatureHighTime"@, JsonV::Num(Dec { neg: false, mant: d.temperature_high_time, scale: 0 })),
        ("temperatureLow"@, JsonV::Num(d.temperature_low)),
        ("temperatureLowTime"@, JsonV::Num(Dec { neg: false, mant: d.temperature_low_time, scale: 0 })),
        ("apparentTemperatureHigh"@, JsonV::Num(d.apparent_temperature_high)),
        ("apparentTemperatureHighTime"@, JsonV::Num(Dec { neg: false, mant: d.apparent_temperature_high_time, scale: 0 })),
        ("apparentTemperatureLow"@, JsonV::Num(d.apparent_temperature_low)),
        ("apparentTemperatureLowTime"@, JsonV::Num(Dec { neg: false, mant: d.apparent_temperature_low_time, scale: 0 })),
        ("dewPoint"@, JsonV::Num(d.dew_point)),
        ("humidity"@, JsonV::Num(d.humidity)),
        ("pressure"@, JsonV::Num(d.pressure)),
        ("windSpeed"@, JsonV::Num(d.wind_speed)),
        ("windGust"@, JsonV::Num(d.wind_gust)),
        ("windGustTime"@, JsonV::Num(Dec { neg: false, mant: d.wind_gust_time, scale: 0 })),
        ("windBearing"@, JsonV::Num(Dec { neg: false, mant: d.wind_bearing as u64, scale: 0 })),
        ("cloudCover"@, JsonV::Num(d.cloud_cover)),
        ("uvIndex"@, JsonV::Num(Dec { neg: false, mant: d.uv_index as u64, scale: 0 })),
        ("uvIndexTime"@, JsonV::Num(Dec { neg: false, mant: d.uv_index_time, scale: 0 })),
        ("visibility"@, JsonV::Num(d.visibility)),
        ("ozone"@, JsonV::Num(d.ozone)),
    ]
}

pub open spec fn daily_to_json(d: DailyWeatherV) -> JsonV {
    JsonV::Obj(
        daily_req_fields(d) + opt_json_field(
            "precipIntensityMaxTime"@,
            opt_num_u64(d.precip_intensity_max_time),
        ) + opt_json_field("precipType"@, opt_text(d.precip_type)),
    )
}

pub fn parse_daily(j: &Json) -> (r: Result<DailyWeather, ForecastError>)
    ensures
        match r {
            Ok(d) => daily_of_json(j@) == Some(d@),
            Err(e) => daily_of_json(j@) is None && e == ForecastError::SchemaMismatch,
        },
{
    let fields = match j {
        Json::Obj(fs) => fs,
        _ => {
            return Err(ForecastError::SchemaMismatch);
        },
    };
    proof {
        lemma_obj_view(*fields);
    }
    let time = match get_u64(fields, "time") {
        Some(x) => x,
        None => {
            return Err(ForecastError::SchemaMismatch);
        },
    };
    let summary = match get_str(fields, "summary") {
        Some(x) => x,
        None => {
            return Err(ForecastError::SchemaMismatch);
        },
    };
    let icon = match get_str(fields, "icon") {
        Some(x) => x,
        None => {
            return Err(ForecastError::SchemaMismatch);
        },
    };
    let sunrise_time = match get_u64(fields, "sunriseTime") {
        Some(x) => x,
        None => {
            return Err(ForecastError::SchemaMismatch);
        },
    };
    let sunset_time = match get_u64(fields, "sunsetTime") {
        Some(x) => x,
        None => {
            return Err(ForecastError::SchemaMismatch);
        },
    };
    let moon_phase = match get_dec(fields, "moonPhase") {
        Some(x) => x,
        None => {
            return Err(ForecastError::SchemaMismatch);
        },
    };
    let precip_intensity = match get_dec(fields, "precipIntensity") {
        Some(x) => x,
        None => {
            return Err(ForecastError::SchemaMismatch);
        },
    };
    let precip_intensity_max = match get_dec(fields, "precipIntensityMax") {
        Some(x) => x,
        None => {
            return Err(ForecastError::SchemaMismatch);
        },
    };
    let precip_intensity_max_time = match get_opt_u64(fields, "precipIntensityMaxTime") {
        Ok(x) => x,
        Err(e) => {
            return Err(e);
        },
    };
    let precip_probability = match get_dec(fields, "precipProbability") {
        Some(x) => x,
        None => {
            return Err(ForecastError::SchemaMismatch);
        },
    };
    let precip_type = match get_opt_str(fields, "precipType") {
        Ok(x) => x,
        Err(e) => {
            return Err(e);
        },
    };
    let temperature_high = match get_dec(fields, "temperatureHigh") {
        Some(x) => x,
        None => {
            return Err(ForecastError::SchemaMismatch);
        },
    };
    let temperature_high_time = match get_u64(fields, "temperatureHighTime") {
        Some(x) => x,
        None => {
            return Err(ForecastError::SchemaMismatch);
        },
    };
    let temperature_low = match get_dec(fields, "temperatureLow") {
        Some(x) => x,
        None => {
            return Err(ForecastError::SchemaMismatch);
        },
    };
    let temperature_low_time = match get_u64(fields, "temperatureLowTime") {
        Some(x) => x,
        None => {
            return Err(ForecastError::SchemaMismatch);
        },
    };
    let apparent_temperature_high = match get_dec(fields, "apparentTemperatureHigh") {
        Some(x) => x,
        None => {
            return Err(ForecastError::SchemaMismatch);
        },
    };
    let apparent_temperature_high_time = match get_u64(fields, "apparentTemperatureHighTime") {
        Some(x) => x,
        None => {
            return Err(ForecastError::SchemaMismatch);
        },
    };
    let apparent_temperature_low = match get_dec(fields, "apparentTemperatureLow") {
        Some(x) => x,
        None => {
            return Err(ForecastError::SchemaMismatch);
        },
    };
    let apparent_temperature_low_time = match get_u64(fields, "apparentTemperatureLowTime") {
        Some(x) => x,
        None => {
            return Err(ForecastError::SchemaMismatch);
        },
    };
    let dew_point = match get_dec(fields, "dewPoint") {
        Some(x) => x,
        None => {
            return Err(ForecastError::SchemaMismatch);
        },
    };
    let humidity = match get_dec(fields, "humidity") {
        Some(x) => x,
        None => {
            return Err(ForecastError::SchemaMismatch);
        },
    };
    let pressure = match get_dec(fields, "pressure") {
        Some(x) => x,
        None => {
            return Err(ForecastError::SchemaMismatch);
        },
    };
    let wind_speed = match get_dec(fields, "windSpeed") {
        Some(x) => x,
        None => {
            return Err(ForecastError::SchemaMismatch);
        },
    };
    let wind_gust = match get_dec(fields, "windGust") {
        Some(x) => x,
        None => {
            return Err(ForecastError::SchemaMismatch);
        },
    };
    let wind_gust_time = match get_u64(fields, "windGustTime") {
        Some(x) => x,
        None => {
            return Err(ForecastError::SchemaMismatch);
        },
    };
    let wind_bearing = match get_u16(fields, "windBearing") {
        Some(x) => x,
        None => {
            return Err(ForecastError::SchemaMismatch);
        },
    };
    let cloud_cover = match get_dec(fields, "cloudCover") {
        Some(x) => x,
        None => {
            return Err(ForecastError::SchemaMismatch);
        },
    };
    let uv_index = match get_u8(fields, "uvIndex") {
        Some(x) => x,
        None => {
            return Err(ForecastError::SchemaMismatch);
        },
    };
    let uv_index_time = match get_u64(fields, "uvIndexTime") {
        Some(x) => x,
        None => {
            return Err(ForecastError::SchemaMismatch);
        },
    };
    let visibility = match get_dec(fields, "visibility") {
        Some(x) => x,
        None => {
            return Err(ForecastError::SchemaMismatch);
        },
    };
    let ozone = match get_dec(fields, "ozone") {
        Some(x) => x,
        None => {
            return Err(ForecastError::SchemaMismatch);
        },
    };
    Ok(
        DailyWeather {
            time,
            summary,
            icon,
            sunrise_time,
            sunset_time,
            moon_phase,
            precip_intensity,
            precip_intensity_max,
            precip_intensity_max_time,
            precip_probability,
            precip_type,
            temperature_high,
            temperature_high_time,
            temperature_low,
            temperature_low_time,
            apparent_temperature_high,
            apparent_temperature_high_time,
            apparent_temperature_low,
            apparent_temperature_low_time,
            dew_point,
            humidity,
            pressure,
            wind_speed,
            wind_gust,
            wind_gust_time,
            wind_bearing,
            cloud_cover,
            uv_index,
            uv_index_time,
            visibility,
            ozone,
        },
    )
}

pub fn json_of_daily(d: &DailyWeather) -> (j: Json)
    ensures
        j@ == daily_to_json(d@),
{
    let mut fields: Vec<(String, Json)> = Vec::new();
    fields.push(
        (String::from_str("time"), Json::Num(Dec { neg: false, mant: d.time, scale: 0 })),
    );
    fields.push((String::from_str("summary"), Json::Str(d.summary.clone())));
    fields.push((String::from_str("icon"), Json::Str(d.icon.clone())));
    fields.push(
        (String::from_str("sunriseTime"), Json::Num(Dec { neg: false, mant: d.sunrise_time, scale: 0 })),
    );
    fields.push(
        (String::from_str("sunsetTime"), Json::Num(Dec { neg: false, mant: d.sunset_time, scale: 0 })),
    );
    fields.push((String::from_str("moonPhase"), Json::Num(d.moon_phase)));
    fields.push((String::from_str("precipIntensity"), Json::Num(d.precip_intensity)));
    fields.push((String::from_str("precipIntensityMax"), Json::Num(d.precip_intensity_max)));
    fields.push((String::from_str("precipProbability"), Json::Num(d.precip_probability)));
    fields.push((String::from_str("temperatureHigh"), Json::Num(d.temperature_high)));
    fields.push(
        (String::from_str("temperatureHighTime"), Json::Num(Dec { neg: false, mant: d.temperature_high_time, scale: 0 })),
    );
    fields.push((String::from_str("temperatureLow"), Json::Num(d.temperature_low)));
    fields.push(
        (String::from_str("temperatureLowTime"), Json::Num(Dec { neg: false, mant: d.temperature_low_time, scale: 0 })),
    );
    fields.push((String::from_str("apparentTemperatureHigh"), Json::Num(d.apparent_temperature_high)));
    fields.push(
        (String::from_str("apparentTemperatureHighTime"), Json::Num(Dec { neg: false, mant: d.apparent_temperature_high_time, scale: 0 })),
    );
    fields.push((String::from_str("apparentTemperatureLow"), Json::Num(d.apparent_temperature_low)));
    fields.push(
        (String::from_str("apparentTemperatureLowTime"), Json::Num(Dec { neg: false, mant: d.apparent_temperature_low_time, scale: 0 })),
    );
    fields.push((String::from_str("dewPoint"), Json::Num(d.dew_point)));
    fields.push((String::from_str("humidity"), Json::Num(d.humidity)));
    fields.push((String::from_str("pressure"), Json::Num(d.pressure)));
    fields.push((String::from_str("windSpeed"), Json::Num(d.wind_speed)));
    fields.push((String::from_str("windGust"), Json::Num(d.wind_gust)));
    fields.push(
        (String::from_str("windGustTime"), Json::Num(Dec { neg: false, mant: d.wind_gust_time, scale: 0 })),
    );
    fields.push(
        (
            String::from_str("windBearing"),
            Json::Num(Dec { neg: false, mant: d.wind_bearing as u64, scale: 0 }),
        ),
    );
    fields.push((String::from_str("cloudCover"), Json::Num(d.cloud_cover)));
    fields.push(
        (
            String::from_str("uvIndex"),
            Json::Num(Dec { neg: false, mant: d.uv_index as u64, scale: 0 }),
        ),
    );
    fields.push(
        (String::from_str("uvIndexTime"), Json::Num(Dec { neg: false, mant: d.uv_index_time, scale: 0 })),
    );
    fields.push((String::from_str("visibility"), Json::Num(d.visibility)));
    fields.push((String::from_str("ozone"), Json::Num(d.ozone)));
    proof {
        assert(fields_view(fields@) =~= daily_req_fields(d@));
    }
    push_opt_u64(&mut fields, "precipIntensityMaxTime", &d.precip_intensity_max_time);
    push_opt_str(&mut fields, "precipType", &d.precip_type);
    proof {
        lemma_obj_view(fields);
        assert(fields_view(fields@) =~= daily_to_json(d@)->Obj_0);
    }
    Json::Obj(fields)
}

/// Writing a day record and reading it back gives it unchanged.
#[verifier::rlimit(80)]
pub proof fn lemma_daily_round_trip(d: DailyWeatherV)
    ensures
        daily_of_json(daily_to_json(d)) == Some(d),
{
    reveal_strlit("time");
    reveal_strlit("summary");
    reveal_strlit("icon");
    reveal_strlit("sunriseTime");
    reveal_strlit("sunsetTime");
    reveal_strlit("moonPhase");
    reveal_strlit("precipIntensity");
    reveal_strlit("precipIntensityMax");
    reveal_strlit("precipIntensityMaxTime");
    reveal_strlit("precipProbability");
    reveal_strlit("precipType");
    reveal_strlit("temperatureHigh");
    reveal_strlit("temperatureHighTime");
    reveal_strlit("temperatureLow");
    reveal_strlit("temperatureLowTime");
    reveal_strlit("apparentTemperatureHigh");
    reveal_strlit("apparentTemperatureHighTime");
    reveal_strlit("apparentTemperatureLow");
    reveal_strlit("apparentTemperatureLowTime");
    reveal_strlit("dewPoint");
    reveal_strlit("humidity");
    reveal_strlit("pressure");
    reveal_strlit("windSpeed");
    reveal_strlit("windGust");
    reveal_strlit("windGustTime");
    reveal_strlit("windBearing");
    reveal_strlit("cloudCover");
    reveal_strlit("uvIndex");
    reveal_strlit("uvIndexTime");
    reveal_strlit("visibility");
    reveal_strlit("ozone");
    assert("apparentTemperatureLow"@[0] == 'a');
    assert("cloudCover"@[0] == 'c');
    assert("dewPoint"@[0] == 'd');
    assert("humidity"@[0] == 'h');
    assert("icon"@[0] == 'i');
    assert("moonPhase"@[0] == 'm');
    assert("precipIntensity"@[0] == 'p');
    assert("precipIntensityMax"@[0] == 'p');
    assert("precipIntensityMaxTime"@[0] == 'p');
    assert("precipType"@[0] == 'p');
    assert("pressure"@[0] == 'p');
    assert("summary"@[0] == 's');
    assert("sunriseTime"@[0] == 's');
    assert("sunsetTime"@[0] == 's');
    assert("temperatureHigh"@[0] == 't');
    assert("temperatureLowTime"@[0] == 't');
    assert("time"@[0] == 't');
    assert("uvIndex"@[0] == 'u');
    assert("uvIndexTime"@[0] == 'u');
    assert("visibility"@[0] == 'v');
    assert("windBearing"@[0] == 'w');
    assert("windGust"@[0] == 'w');
    assert("windSpeed"@[0] == 'w');
    assert("time"@ != "icon"@);
    assert("summary"@ != "uvIndex"@);
    assert("dewPoint"@ != "humidity"@);
    assert("dewPoint"@ != "pressure"@);
    assert("dewPoint"@ != "windGust"@);
    assert("humidity"@ != "pressure"@);
    assert("humidity"@ != "windGust"@);
    assert("pressure"@ != "windGust"@);
    assert("moonPhase"@ != "windSpeed"@);
    assert("sunsetTime"@ != "precipType"@);
    assert("sunsetTime"@ != "cloudCover"@);
    assert("sunsetTime"@ != "visibility"@);
    assert("precipType"@ != "cloudCover"@);
    assert("precipType"@ != "visibility"@);
    assert("cloudCover"@ != "visibility"@);
    assert("sunriseTime"@ != "windBearing"@);
    assert("sunriseTime"@ != "uvIndexTime"@);
    assert("windBearing"@ != "uvIndexTime"@);
    assert("precipIntensity"@ != "temperatureHigh"@);
    assert("precipIntensityMax"@ != "temperatureLowTime"@);
    assert("precipIntensityMaxTime"@ != "apparentTemperatureLow"@);
    assert("precipIntensityMaxTime"@.len() == 22);
    assert("precipType"@.len() == 10);
    assert("precipIntensityMaxTime"@ != "precipType"@);
    let req = daily_req_fields(d);
    let o1 = opt_json_field("precipIntensityMaxTime"@, opt_num_u64(d.precip_intensity_max_time));
    let o2 = opt_json_field("precipType"@, opt_text(d.precip_type));
    let s1 = req + o1;
    let fs = s1 + o2;
    assert(daily_to_json(d)->Obj_0 == fs);
    assert(req[0].0 == "time"@);
    assert(req[1].0 == "summary"@);
    assert(req[2].0 == "icon"@);
    assert(req[3].0 == "sunriseTime"@);
    assert(req[4].0 == "sunsetTime"@);
    assert(req[5].0 == "moonPhase"@);
    assert(req[6].0 == "precipIntensity"@);
    assert(req[7].0 == "precipIntensityMax"@);
    assert(req[8].0 == "precipProbability"@);
    assert(req[9].0 == "temperatureHigh"@);
    assert(req[10].0 == "temperatureHighTime"@);
    assert(req[11].0 == "temperatureLow"@);
    assert(req[12].0 == "temperatureLowTime"@);
    assert(req[13].0 == "apparentTemperatureHigh"@);
    assert(req[14].0 == "apparentTemperatureHighTime"@);
    assert(req[15].0 == "apparentTemperatureLow"@);
    assert(req[16].0 == "apparentTemperatureLowTime"@);
    assert(req[17].0 == "dewPoint"@);
    assert(req[18].0 == "humidity"@);
    assert(req[19].0 == "pressure"@);
    assert(req[20].0 == "windSpeed"@);
    assert(req[21].0 == "windGust"@);
    assert(req[22].0 == "windGustTime"@);
    assert(req[23].0 == "windBearing"@);
    assert(req[24].0 == "cloudCover"@);
    assert(req[25].0 == "uvIndex"@);
    assert(req[26].0 == "uvIndexTime"@);
    assert(req[27].0 == "visibility"@);
    assert(req[28].0 == "ozone"@);
    lemma_obj_get_at(req, "time"@, 0);
    lemma_obj_get_at(req, "summary"@, 1);
    lemma_obj_get_at(req, "icon"@, 2);
    lemma_obj_get_at(req, "sunriseTime"@, 3);
    lemma_obj_get_at(req, "sunsetTime"@, 4);
    lemma_obj_get_at(req, "moonPhase"@, 5);
    lemma_obj_get_at(req, "precipIntensity"@, 6);
    lemma_obj_get_at(req, "precipIntensityMax"@, 7);
    lemma_obj_get_at(req, "precipProbability"@, 8);
    lemma_obj_get_at(req, "temperatureHigh"@, 9);
    lemma_obj_get_at(req, "temperatureHighTime"@, 10);
    lemma_obj_get_at(req, "temperatureLow"@, 11);
    lemma_obj_get_at(req, "temperatureLowTime"@, 12);
    lemma_obj_get_at(req, "apparentTemperatureHigh"@, 13);
    lemma_obj_get_at(req, "apparentTemperatureHighTime"@, 14);
    lemma_obj_get_at(req, "apparentTemperatureLow"@, 15);
    lemma_obj_get_at(req, "apparentTemperatureLowTime"@, 16);
    lemma_obj_get_at(req, "dewPoint"@, 17);
    lemma_obj_get_at(req, "humidity"@, 18);
    lemma_obj_get_at(req, "pressure"@, 19);
    lemma_obj_get_at(req, "windSpeed"@, 20);
    lemma_obj_get_at(req, "windGust"@, 21);
    lemma_obj_get_at(req, "windGustTime"@, 22);
    lemma_obj_get_at(req, "windBearing"@, 23);
    lemma_obj_get_at(req, "cloudCover"@, 24);
    lemma_obj_get_at(req, "uvIndex"@, 25);
    lemma_obj_get_at(req, "uvIndexTime"@, 26);
    lemma_obj_get_at(req, "visibility"@, 27);
    lemma_obj_get_at(req, "ozone"@, 28);
    lemma_obj_get_none(req, "precipIntensityMaxTime"@);
    lemma_obj_get_none(req, "precipType"@);
    lemma_opt_field_get(
        "precipIntensityMaxTime"@,
        opt_num_u64(d.precip_intensity_max_time),
        "precipType"@,
    );
    lemma_opt_field_get("precipType"@, opt_text(d.precip_type), "precipIntensityMaxTime"@);
    lemma_obj_get_app(req, o1, "time"@);
    lemma_obj_get_app(s1, o2, "time"@);
    lemma_obj_get_app(req, o1, "summary"@);
    lemma_obj_get_app(s1, o2, "summary"@);
    lemma_obj_get_app(req, o1, "icon"@);
    lemma_obj_get_app(s1, o2, "icon"@);
    lemma_obj_get_app(req, o1, "sunriseTime"@);
    lemma_obj_get_app(s1, o2, "sunriseTime"@);
    lemma_obj_get_app(req, o1, "sunsetTime"@);
    lemma_obj_get_app(s1, o2, "sunsetTime"@);
    lemma_obj_get_app(req, o1, "moonPhase"@);
    lemma_obj_get_app(s1, o2, "moonPhase"@);
    lemma_obj_get_app(req, o1, "precipIntensity"@);
    lemma_obj_get_app(s1, o2, "precipIntensity"@);
    lemma_obj_get_app(req, o1, "precipIntensityMax"@);
    lemma_obj_get_app(s1, o2, "precipIntensityMax"@);
    lemma_obj_get_app(req, o1, "precipIntensityMaxTime"@);
    lemma_obj_get_app(s1, o2, "precipIntensityMaxTime"@);
    lemma_obj_get_app(req, o1, "precipProbability"@);
    lemma_obj_get_app(s1, o2, "precipProbability"@);
    lemma_obj_get_app(req, o1, "precipType"@);
    lemma_obj_get_app(s1, o2, "precipType"@);
    lemma_obj_get_app(req, o1, "temperatureHigh"@);
    lemma_obj_get_app(s1, o2, "temperatureHigh"@);
    lemma_obj_get_app(req, o1, "temperatureHighTime"@);
    lemma_obj_get_app(s1, o2, "temperatureHighTime"@);
    lemma_obj_get_app(req, o1, "temperatureLow"@);
    lemma_obj_get_app(s1, o2, "temperatureLow"@);
    lemma_obj_get_app(req, o1, "temperatureLowTime"@);
    lemma_obj_get_app(s1, o2, "temperatureLowTime"@);
    lemma_obj_get_app(req, o1, "apparentTemperatureHigh"@);
    lemma_obj_get_app(s1, o2, "apparentTemperatureHigh"@);
    lemma_obj_get_app(req, o1, "apparentTemperatureHighTime"@);
    lemma_obj_get_app(s1, o2, "apparentTemperatureHighTime"@);
    lemma_obj_get_app(req, o1, "apparentTemperatureLow"@);
    lemma_obj_get_app(s1, o2, "apparentTemperatureLow"@);
    lemma_obj_get_app(req, o1, "apparentTemperatureLowTime"@);
    lemma_obj_get_app(s1, o2, "apparentTemperatureLowTime"@);
    lemma_obj_get_app(req, o1, "dewPoint"@);
    lemma_obj_get_app(s1, o2, "dewPoint"@);
    lemma_obj_get_app(req, o1, "humidity"@);
    lemma_obj_get_app(s1, o2, "humidity"@);
    lemma_obj_get_app(req, o1, "pressure"@);
    lemma_obj_get_app(s1, o2, "pressure"@);
    lemma_obj_get_app(req, o1, "windSpeed"@);
    lemma_obj_get_app(s1, o2, "windSpeed"@);
    lemma_obj_get_app(req, o1, "windGust"@);
    lemma_obj_get_app(s1, o2, "windGust"@);
    lemma_obj_get_app(req, o1, "windGustTime"@);
    lemma_obj_get_app(s1, o2, "windGustTime"@);
    lemma_obj_get_app(req, o1, "windBearing"@);
    lemma_obj_get_app(s1, o2, "windBearing"@);
    lemma_obj_get_app(req, o1, "cloudCover"@);
    lemma_obj_get_app(s1, o2, "cloudCover"@);
    lemma_obj_get_app(req, o1, "uvIndex"@);
    lemma_obj_get_app(s1, o2, "uvIndex"@);
    lemma_obj_get_app(req, o1, "uvIndexTime"@);
    lemma_obj_get_app(s1, o2, "uvIndexTime"@);
    lemma_obj_get_app(req, o1, "visibility"@);
    lemma_obj_get_app(s1, o2, "visibility"@);
    lemma_obj_get_app(req, o1, "ozone"@);
    lemma_obj_get_app(s1, o2, "ozone"@);
    assert((d.wind_bearing as u64) as u16 == d.wind_bearing);
    assert((d.uv_index as u64) as u8 == d.uv_index);
    assert(jf_u64(fs, "time"@) == Some(d.time));
    assert(jf_str(fs, "summary"@) == Some(d.summary));
    assert(jf_str(fs, "icon"@) == Some(d.icon));
    assert(jf_u64(fs, "sunriseTime"@) == Some(d.sunrise_time));
    assert(jf_u64(fs, "sunsetTime"@) == Some(d.sunset_time));
    assert(jf_dec(fs, "moonPhase"@) == Some(d.moon_phase));
    assert(jf_dec(fs, "precipIntensity"@) == Some(d.precip_intensity));
    assert(jf_dec(fs, "precipIntensityMax"@) == Some(d.precip_intensity_max));
    assert(jf_dec(fs, "precipProbability"@) == Some(d.precip_probability));
    assert(jf_dec(fs, "temperatureHigh"@) == Some(d.temperature_high));
    assert(jf_u64(fs, "temperatureHighTime"@) == Some(d.temperature_high_time));
    assert(jf_dec(fs, "temperatureLow"@) == Some(d.temperature_low));
    assert(jf_u64(fs, "temperatureLowTime"@) == Some(d.temperature_low_time));
    assert(jf_dec(fs, "apparentTemperatureHigh"@) == Some(d.apparent_temperature_high));
    assert(jf_u64(fs, "apparentTemperatureHighTime"@) == Some(d.apparent_temperature_high_time));
    assert(jf_dec(fs, "apparentTemperatureLow"@) == Some(d.apparent_temperature_low));
    assert(jf_u64(fs, "apparentTemperatureLowTime"@) == Some(d.apparent_temperature_low_time));
    assert(jf_dec(fs, "dewPoint"@) == Some(d.dew_point));
    assert(jf_dec(fs, "humidity"@) == Some(d.humidity));
    assert(jf_dec(fs, "pressure"@) == Some(d.pressure));
    assert(jf_dec(fs, "windSpeed"@) == Some(d.wind_speed));
    assert(jf_dec(fs, "windGust"@) == Some(d.wind_gust));
    assert(jf_u64(fs, "windGustTime"@) == Some(d.wind_gust_time));
    assert(jf_u16(fs, "windBearing"@) == Some(d.wind_bearing));
    assert(jf_dec(fs, "cloudCover"@) == Some(d.cloud_cover));
    assert(jf_u8(fs, "uvIndex"@) == Some(d.uv_index));
    assert(jf_u64(fs, "uvIndexTime"@) == Some(d.uv_index_time));
    assert(jf_dec(fs, "visibility"@) == Some(d.visibility));
    assert(jf_dec(fs, "ozone"@) == Some(d.ozone));
    match d.precip_intensity_max_time {
        Some(n) => {
            assert(obj_get(fs, "precipIntensityMaxTime"@) == Some(
                JsonV::Num(Dec { neg: false, mant: n, scale: 0 }),
            ));
            assert(jf_opt_u64(fs, "precipIntensityMaxTime"@) == Some(
                d.precip_intensity_max_time,
            ));
        },
        None => {
            assert(obj_get(fs, "precipIntensityMaxTime"@) is None);
            assert(jf_opt_u64(fs, "precipIntensityMaxTime"@) == Some(
                d.precip_intensity_max_time,
            ));
        },
    }
    match d.precip_type {
        Some(s) => {
            assert(obj_get(fs, "precipType"@) == Some(JsonV::Str(s)));
            assert(jf_opt_str(fs, "precipType"@) == Some(d.precip_type));
        },
        None => {
            assert(obj_get(fs, "precipType"@) is None);
            assert(jf_opt_str(fs, "precipType"@) == Some(d.precip_type));
        },
    }
    assert(daily_of_fields(fs) == Some(d));
}

// ---------------------------------------------------------------------
// Arrays of day records.
// ---------------------------------------------------------------------

pub open spec fn dailies_of(elems: Seq<JsonV>) -> Option<Seq<DailyWeatherV>>
    decreases elems.len(),
{
    if elems.len() == 0 {
        Some(Seq::empty())
    } else {
        match (dailies_of(elems.drop_last()), daily_of_json(elems.last())) {
            (Some(init), Some(d)) => Some(init.push(d)),
            _ => None,
        }
    }
}

pub open spec fn dailies_to_json(ds: Seq<DailyWeatherV>) -> Seq<JsonV> {
    Seq::new(ds.len(), |i: int| daily_to_json(ds[i]))
}

pub proof fn lemma_dailies_of_bad(elems: Seq<JsonV>, i: int)
    requires
        0 <= i < elems.len(),
        daily_of_json(elems[i]) is None,
    ensures
        dailies_of(elems) is None,
    decreases elems.len(),
{
    if i < elems.len() - 1 {
        lemma_dailies_of_bad(elems.drop_last(), i);
    }
}

pub fn parse_dailies(v: &Vec<Json>) -> (r: Result<Vec<DailyWeather>, ForecastError>)
    ensures
        match r {
            Ok(ds) => dailies_of(arr_view(v@)) == Some(dailies_view(ds@)),
            Err(e) => dailies_of(arr_view(v@)) is None && e == ForecastError::SchemaMismatch,
        },
{
    let ghost av = arr_view(v@);
    let mut out: Vec<DailyWeather> = Vec::new();
    let mut i: usize = 0;
    while i < v.len()
        invariant
            av == arr_view(v@),
            i <= v.len(),
            dailies_of(av.take(i as int)) == Some(dailies_view(out@)),
        decreases v.len() - i,
    {
        let ghost pre = dailies_view(out@);
        match parse_daily(&v[i]) {
            Ok(d) => {
                out.push(d);
                proof {
                    assert(av.take(i + 1 as int).drop_last() =~= av.take(i as int));
                    assert(dailies_view(out@) =~= pre.push(d@));
                }
            },
            Err(e) => {
                proof {
                    lemma_dailies_of_bad(av, i as int);
                }
                return Err(e);
            },
        }
        i = i + 1;
    }
    proof {
        assert(av.take(v@.len() as int) =~= av);
    }
    Ok(out)
}

pub fn json_of_dailies(ds: &Vec<DailyWeather>) -> (v: Vec<Json>)
    ensures
        arr_view(v@) == dailies_to_json(dailies_view(ds@)),
{
    let mut out: Vec<Json> = Vec::new();
    let mut i: usize = 0;
    while i < ds.len()
        invariant
            i <= ds.len(),
            out@.len() == i,
            forall|k: int| 0 <= k < i ==> out@[k]@ == daily_to_json(ds@[k]@),
        decreases ds.len() - i,
    {
        out.push(json_of_daily(&ds[i]));
        i = i + 1;
    }
    proof {
        assert(arr_view(out@) =~= dailies_to_json(dailies_view(ds@)));
    }
    out
}

/// Writing a sequence of day records and reading it back gives the
/// sequence unchanged.
pub proof fn lemma_dailies_round_trip(ds: Seq<DailyWeatherV>)
    ensures
        dailies_of(dailies_to_json(ds)) == Some(ds),
    decreases ds.len(),
{
    if ds.len() == 0 {
        assert(dailies_to_json(ds) =~= Seq::<JsonV>::empty());
    } else {
        lemma_dailies_round_trip(ds.drop_last());
        lemma_daily_round_trip(ds.last());
        assert(dailies_to_json(ds).drop_last() =~= dailies_to_json(ds.drop_last()));
        assert(dailies_of(dailies_to_json(ds))->Some_0 =~= ds);
    }
}

// ---------------------------------------------------------------------
// Alerts.
// ---------------------------------------------------------------------

pub open spec fn alert_of_fields(fs: FieldsV) -> Option<AlertV> {
    match jf_str(fs, "title"@) {
        None => None,
        Some(title) => match jf_u64(fs, "time"@) {
            None => None,
            Some(time) => match jf_u64(fs, "expires"@) {
                None => None,
                Some(expires) => match jf_str(fs, "description"@) {
                    None => None,
                    Some(description) => match jf_str(fs, "uri"@) {
                        None => None,
                        Some(uri) => Some(
                            AlertV { title, time, expires, description, uri },
                        ),
                    },
                },
            },
        },
    }
}

pub open spec fn alert_of_json(j: JsonV) -> Option<AlertV> {
    match j {
        JsonV::Obj(fs) => alert_of_fields(fs),
        _ => None,
    }
}

pub open spec fn alert_to_json(a: AlertV) -> JsonV {
    JsonV::Obj(
        seq![
            ("title"@, JsonV::Str(a.title)),
            ("time"@, JsonV::Num(Dec { neg: false, mant: a.time, scale: 0 })),
            ("expires"@, JsonV::Num(Dec { neg: false, mant: a.expires, scale: 0 })),
            ("description"@, JsonV::Str(a.description)),
            ("uri"@, JsonV::Str(a.uri)),
        ],
    )
}

pub fn parse_alert(j: &Json) -> (r: Result<Alert, ForecastError>)
    ensures
        match r {
            Ok(a) => alert_of_json(j@) == Some(a@),
            Err(e) => alert_of_json(j@) is None && e == ForecastError::SchemaMismatch,
        },
{
    let fields = match j {
        Json::Obj(fs) => fs,
        _ => {
            return Err(ForecastError::SchemaMismatch);
        },
    };
    proof {
        lemma_obj_view(*fields);
    }
    let title = match get_str(fields, "title") {
        Some(s) => s,
        None => {
            return Err(ForecastError::SchemaMismatch);
        },
    };
    let time = match get_u64(fields, "time") {
        Some(n) => n,
        None => {
            return Err(ForecastError::SchemaMismatch);
        },
    };
    let expires = match get_u64(fields, "expires") {
        Some(n) => n,
        None => {
            return Err(ForecastError::SchemaMismatch);
        },
    };
    let description = match get_str(fields, "description") {
        Some(s) => s,
        None => {
            return Err(ForecastError::SchemaMismatch);
        },
    };
    let uri = match get_str(fields, "uri") {
        Some(s) => s,
        None => {
            return Err(ForecastError::SchemaMismatch);
        },
    };
    Ok(Alert { title, time, expires, description, uri })
}

pub fn json_of_alert(a: &Alert) -> (j: Json)
    ensures
        j@ == alert_to_json(a@),
{
    let mut fields: Vec<(String, Json)> = Vec::new();
    fields.push((String::from_str("title"), Json::Str(a.title.clone())));
    fields.push((String::from_str("time"), Json::Num(Dec { neg: false, mant: a.time, scale: 0 })));
    fields.push(
        (String::from_str("expires"), Json::Num(Dec { neg: false, mant: a.expires, scale: 0 })),
    );
    fields.push((String::from_str("description"), Json::Str(a.description.clone())));
    fields.push((String::from_str("uri"), Json::Str(a.uri.clone())));
    proof {
        lemma_obj_view(fields);
        assert(fields_view(fields@) =~= alert_to_json(a@)->Obj_0);
    }
    Json::Obj(fields)
}

/// Writing an alert and reading it back gives the alert unchanged.
pub proof fn lemma_alert_round_trip(a: AlertV)
    ensures
        alert_of_json(alert_to_json(a)) == Some(a),
{
    reveal_strlit("title");
    reveal_strlit("time");
    reveal_strlit("expires");
    reveal_strlit("description");
    reveal_strlit("uri");
    let fs = alert_to_json(a)->Obj_0;
    assert(fs[0].0 == "title"@);
    assert(fs[1].0 == "time"@);
    assert(fs[2].0 == "expires"@);
    assert(fs[3].0 == "description"@);
    assert(fs[4].0 == "uri"@);
    lemma_obj_get_at(fs, "title"@, 0);
    lemma_obj_get_at(fs, "time"@, 1);
    lemma_obj_get_at(fs, "expires"@, 2);
    lemma_obj_get_at(fs, "description"@, 3);
    lemma_obj_get_at(fs, "uri"@, 4);
    assert(alert_of_json(alert_to_json(a)) == Some(a));
}

// ---------------------------------------------------------------------
// Arrays of alerts.
// ---------------------------------------------------------------------

pub open spec fn alerts_of(elems: Seq<JsonV>) -> Option<Seq<AlertV>>
    decreases elems.len(),
{
    if elems.len() == 0 {
        Some(Seq::empty())
    } else {
        match (alerts_of(elems.drop_last()), alert_of_json(elems.last())) {
            (Some(init), Some(a)) => Some(init.push(a)),
            _ => None,
        }
    }
}

pub open spec fn alerts_to_json(alerts: Seq<AlertV>) -> Seq<JsonV> {
    Seq::new(alerts.len(), |i: int| alert_to_json(alerts[i]))
}

pub proof fn lemma_alerts_of_bad(elems: Seq<JsonV>, i: int)
    requires
        0 <= i < elems.len(),
        alert_of_json(elems[i]) is None,
    ensures
        alerts_of(elems) is None,
    decreases elems.len(),
{
    if i < elems.len() - 1 {
        lemma_alerts_of_bad(elems.drop_last(), i);
    }
}

pub fn parse_alerts(v: &Vec<Json>) -> (r: Result<Vec<Alert>, ForecastError>)
    ensures
        match r {
            Ok(alerts) => alerts_of(arr_view(v@)) == Some(alerts_view(alerts@)),
            Err(e) => alerts_of(arr_view(v@)) is None && e == ForecastError::SchemaMismatch,
        },
{
    let ghost av = arr_view(v@);
    let mut out: Vec<Alert> = Vec::new();
    let mut i: usize = 0;
    while i < v.len()
        invariant
            av == arr_view(v@),
            i <= v.len(),
            alerts_of(av.take(i as int)) == Some(alerts_view(out@)),
        decreases v.len() - i,
    {
        let ghost pre = alerts_view(out@);
        match parse_alert(&v[i]) {
            Ok(a) => {
                out.push(a);
                proof {
                    assert(av.take(i + 1 as int).drop_last() =~= av.take(i as int));
                    assert(alerts_view(out@) =~= pre.push(a@));
                }
            },
            Err(e) => {
                proof {
                    lemma_alerts_of_bad(av, i as int);
                }
                return Err(e);
            },
        }
        i = i + 1;
    }
    proof {
        assert(av.take(v@.len() as int) =~= av);
    }
    Ok(out)
}

pub fn json_of_alerts(alerts: &Vec<Alert>) -> (v: Vec<Json>)
    ensures
        arr_view(v@) == alerts_to_json(alerts_view(alerts@)),
{
    let mut out: Vec<Json> = Vec::new();
    let mut i: usize = 0;
    while i < alerts.len()
        invariant
            i <= alerts.len(),
            out@.len() == i,
            forall|k: int| 0 <= k < i ==> out@[k]@ == alert_to_json(alerts@[k]@),
        decreases alerts.len() - i,
    {
        out.push(json_of_alert(&alerts[i]));
        i = i + 1;
    }
    proof {
        assert(arr_view(out@) =~= alerts_to_json(alerts_view(alerts@)));
    }
    out
}

/// Writing a sequence of alerts and reading it back gives it unchanged.
pub proof fn lemma_alerts_round_trip(alerts: Seq<AlertV>)
    ensures
        alerts_of(alerts_to_json(alerts)) == Some(alerts),
    decreases alerts.len(),
{
    if alerts.len() == 0 {
        assert(alerts_to_json(alerts) =~= Seq::<JsonV>::empty());
    } else {
        lemma_alerts_round_trip(alerts.drop_last());
        lemma_alert_round_trip(alerts.last());
        assert(alerts_to_json(alerts).drop_last() =~= alerts_to_json(alerts.drop_last()));
        assert(alerts_of(alerts_to_json(alerts))->Some_0 =~= alerts);
    }
}

// ---------------------------------------------------------------------
// The MinutelySeries record.
// ---------------------------------------------------------------------

pub open spec fn minutely_of_fields(fs: FieldsV) -> Option<MinutelySeriesV> {
    if jf_str(fs, "summary"@) is None {
        None
    } else if jf_str(fs, "icon"@) is None {
        None
    } else {
        match jf_arr(fs, "data"@) {
            None => None,
            Some(elems) => match precips_of(elems) {
                None => None,
                Some(data) => Some(
                    MinutelySeriesV {
                        summary: jf_str(fs, "summary"@)->Some_0,
                        icon: jf_str(fs, "icon"@)->Some_0,
                        data,
                    },
                ),
            },
        }
    }
}

pub open spec fn minutely_of_json(j: JsonV) -> Option<MinutelySeriesV> {
    match j {
        JsonV::Obj(fs) => minutely_of_fields(fs),
        _ => None,
    }
}

pub open spec fn minutely_to_json(s: MinutelySeriesV) -> JsonV {
    JsonV::Obj(
        seq![
            ("summary"@, JsonV::Str(s.summary)),
            ("icon"@, JsonV::Str(s.icon)),
            ("data"@, JsonV::Arr(precips_to_json(s.data))),
        ],
    )
}

pub fn parse_minutely(j: &Json) -> (r: Result<MinutelySeries, ForecastError>)
    ensures
        match r {
            Ok(s) => minutely_of_json(j@) == Some(s@),
            Err(e) => minutely_of_json(j@) is None && e == ForecastError::SchemaMismatch,
        },
{
    let fields = match j {
        Json::Obj(fs) => fs,
        _ => {
            return Err(ForecastError::SchemaMismatch);
        },
    };
    proof {
        lemma_obj_view(*fields);
    }
    let summary = match get_str(fields, "summary") {
        Some(x) => x,
        None => {
            return Err(ForecastError::SchemaMismatch);
        },
    };
    let icon = match get_str(fields, "icon") {
        Some(x) => x,
        None => {
            return Err(ForecastError::SchemaMismatch);
        },
    };
    let data_arr = match get_arr(fields, "data") {
        Some(v) => v,
        None => {
            return Err(ForecastError::SchemaMismatch);
        },
    };
    let data = match parse_precips(data_arr) {
        Ok(x) => x,
        Err(e) => {
            return Err(e);
        },
    };
    Ok(MinutelySeries { summary, icon, data })
}

pub fn json_of_minutely(s: &MinutelySeries) -> (j: Json)
    ensures
        j@ == minutely_to_json(s@),
{
    let data = json_of_precips(&s.data);
    proof {
        lemma_arr_view(data);
    }
    let mut fields: Vec<(String, Json)> = Vec::new();
    fields.push((String::from_str("summary"), Json::Str(s.summary.clone())));
    fields.push((String::from_str("icon"), Json::Str(s.icon.clone())));
    fields.push((String::from_str("data"), Json::Arr(data)));
    proof {
        lemma_obj_view(fields);
        assert(fields_view(fields@) =~= minutely_to_json(s@)->Obj_0);
    }
    Json::Obj(fields)
}

/// Writing the series record and reading it back gives it unchanged.
pub proof fn lemma_minutely_round_trip(s: MinutelySeriesV)
    ensures
        minutely_of_json(minutely_to_json(s)) == Some(s),
{
    reveal_strlit("summary");
    reveal_strlit("icon");
    reveal_strlit("data");
    assert("icon"@[0] == 'i');
    assert("data"@[0] == 'd');
    assert("icon"@ != "data"@);
    let fs = minutely_to_json(s)->Obj_0;
    assert(fs[0].0 == "summary"@);
    assert(fs[1].0 == "icon"@);
    assert(fs[2].0 == "data"@);
    lemma_obj_get_at(fs, "summary"@, 0);
    lemma_obj_get_at(fs, "icon"@, 1);
    lemma_obj_get_at(fs, "data"@, 2);
    lemma_precips_round_trip(s.data);
    assert(minutely_of_json(minutely_to_json(s)) == Some(s));
}

// ---------------------------------------------------------------------
// The HourlySeries record.
// ---------------------------------------------------------------------

pub open spec fn hourly_of_fields(fs: FieldsV) -> Option<HourlySeriesV> {
    if jf_str(fs, "summary"@) is None {
        None
    } else if jf_str(fs, "icon"@) is None {
        None
    } else {
        match jf_arr(fs, "data"@) {
            None => None,
            Some(elems) => match weathers_of(elems) {
                None => None,
                Some(data) => Some(
                    HourlySeriesV {
                        summary: jf_str(fs, "summary"@)->Some_0,
                        icon: jf_str(fs, "icon"@)->Some_0,
                        data,
                    },
                ),
            },
        }
    }
}

pub open spec fn hourly_of_json(j: JsonV) -> Option<HourlySeriesV> {
    match j {
        JsonV::Obj(fs) => hourly_of_fields(fs),
        _ => None,
    }
}

pub open spec fn hourly_to_json(s: HourlySeriesV) -> JsonV {
    JsonV::Obj(
        seq![
            ("summary"@, JsonV::Str(s.summary)),
            ("icon"@, JsonV::Str(s.icon)),
            ("data"@, JsonV::Arr(weathers_to_json(s.data))),
        ],
    )
}

pub fn parse_hourly(j: &Json) -> (r: Result<HourlySeries, ForecastError>)
    ensures
        match r {
            Ok(s) => hourly_of_json(j@) == Some(s@),
            Err(e) => hourly_of_json(j@) is None && e == ForecastError::SchemaMismatch,
        },
{
    let fields = match j {
        Json::Obj(fs) => fs,
        _ => {
            return Err(ForecastError::SchemaMismatch);
        },
    };
    proof {
        lemma_obj_view(*fields);
    }
    let summary = match get_str(fields, "summary") {
        Some(x) => x,
        None => {
            return Err(ForecastError::SchemaMismatch);
        },
    };
    let icon = match get_str(fields, "icon") {
        Some(x) => x,
        None => {
            return Err(ForecastError::SchemaMismatch);
        },
    };
    let data_arr = match get_arr(fields, "data") {
        Some(v) => v,
        None => {
            return Err(ForecastError::SchemaMismatch);
        },
    };
    let data = match parse_weathers(data_arr) {
        Ok(x) => x,
        Err(e) => {
            return Err(e);
        },
    };
    Ok(HourlySeries { summary, icon, data })
}

pub fn json_of_hourly(s: &HourlySeries) -> (j: Json)
    ensures
        j@ == hourly_to_json(s@),
{
    let data = json_of_weathers(&s.data);
    proof {
        lemma_arr_view(data);
    }
    let mut fields: Vec<(String, Json)> = Vec::new();
    fields.push((String::from_str("summary"), Json::Str(s.summary.clone())));
    fields.push((String::from_str("icon"), Json::Str(s.icon.clone())));
    fields.push((String::from_str("data"), Json::Arr(data)));
    proof {
        lemma_obj_view(fields);
        assert(fields_view(fields@) =~= hourly_to_json(s@)->Obj_0);
    }
    Json::Obj(fields)
}

/// Writing the series record and reading it back gives it unchanged.
pub proof fn lemma_hourly_round_trip(s: HourlySeriesV)
    ensures
        hourly_of_json(hourly_to_json(s)) == Some(s),
{
    reveal_strlit("summary");
    reveal_strlit("icon");
    reveal_strlit("data");
    assert("icon"@[0] == 'i');
    assert("data"@[0] == 'd');
    assert("icon"@ != "data"@);
    let fs = hourly_to_json(s)->Obj_0;
    assert(fs[0].0 == "summary"@);
    assert(fs[1].0 == "icon"@);
    assert(fs[2].0 == "data"@);
    lemma_obj_get_at(fs, "summary"@, 0);
    lemma_obj_get_at(fs, "icon"@, 1);
    lemma_obj_get_at(fs, "data"@, 2);
    lemma_weathers_round_trip(s.data);
    assert(hourly_of_json(hourly_to_json(s)) == Some(s));
}

// ---------------------------------------------------------------------
// The DailySeries record.
// ---------------------------------------------------------------------

pub open spec fn daily_series_of_fields(fs: FieldsV) -> Option<DailySeriesV> {
    if jf_str(fs, "summary"@) is None {
        None
    } else if jf_str(fs, "icon"@) is None {
        None
    } else {
        match jf_arr(fs, "data"@) {
            None => None,
            Some(elems) => match dailies_of(elems) {
                None => None,
                Some(data) => Some(
                    DailySeriesV {
                        summary: jf_str(fs, "summary"@)->Some_0,
                        icon: jf_str(fs, "icon"@)->Some_0,
                        data,
                    },
                ),
            },
        }
    }
}

pub open spec fn daily_series_of_json(j: JsonV) -> Option<DailySeriesV> {
    match j {
        JsonV::Obj(fs) => daily_series_of_fields(fs),
        _ => None,
    }
}

pub open spec fn daily_series_to_json(s: DailySeriesV) -> JsonV {
    JsonV::Obj(
        seq![
            ("summary"@, JsonV::Str(s.summary)),
            ("icon"@, JsonV::Str(s.icon)),
            ("data"@, JsonV::Arr(dailies_to_json(s.data))),
        ],
    )
}

pub fn parse_daily_series(j: &Json) -> (r: Result<DailySeries, ForecastError>)
    ensures
        match r {
            Ok(s) => daily_series_of_json(j@) == Some(s@),
            Err(e) => daily_series_of_json(j@) is None && e == ForecastError::SchemaMismatch,
        },
{
    let fields = match j {
        Json::Obj(fs) => fs,
        _ => {
            return Err(ForecastError::SchemaMismatch);
        },
    };
    proof {
        lemma_obj_view(*fields);
    }
    let summary = match get_str(fields, "summary") {
        Some(x) => x,
        None => {
            return Err(ForecastError::SchemaMismatch);
        },
    };
    let icon = match get_str(fields, "icon") {
        Some(x) => x,
        None => {
            return Err(ForecastError::SchemaMismatch);
        },
    };
    let data_arr = match get_arr(fields, "data") {
        Some(v) => v,
        None => {
            return Err(ForecastError::SchemaMismatch);
        },
    };
    let data = match parse_dailies(data_arr) {
        Ok(x) => x,
        Err(e) => {
            return Err(e);
        },
    };
    Ok(DailySeries { summary, icon, data })
}

pub fn json_of_daily_series(s: &DailySeries) -> (j: Json)
    ensures
        j@ == daily_series_to_json(s@),
{
    let data = json_of_dailies(&s.data);
    proof {
        lemma_arr_view(data);
    }
    let mut fields: Vec<(String, Json)> = Vec::new();
    fields.push((String::from_str("summary"), Json::Str(s.summary.clone())));
    fields.push((String::from_str("icon"), Json::Str(s.icon.clone())));
    fields.push((String::from_str("data"), Json::Arr(data)));
    proof {
        lemma_obj_view(fields);
        assert(fields_view(fields@) =~= daily_series_to_json(s@)->Obj_0);
    }
    Json::Obj(fields)
}

/// Writing the series record and reading it back gives it unchanged.
pub proof fn lemma_daily_series_round_trip(s: DailySeriesV)
    ensures
        daily_series_of_json(daily_series_to_json(s)) == Some(s),
{
    reveal_strlit("summary");
    reveal_strlit("icon");
    reveal_strlit("data");
    assert("icon"@[0] == 'i');
    assert("data"@[0] == 'd');
    assert("icon"@ != "data"@);
    let fs = daily_series_to_json(s)->Obj_0;
    assert(fs[0].0 == "summary"@);
    assert(fs[1].0 == "icon"@);
    assert(fs[2].0 == "data"@);
    lemma_obj_get_at(fs, "summary"@, 0);
    lemma_obj_get_at(fs, "icon"@, 1);
    lemma_obj_get_at(fs, "data"@, 2);
    lemma_dailies_round_trip(s.data);
    assert(daily_series_of_json(daily_series_to_json(s)) == Some(s));
}

// ---------------------------------------------------------------------
// The top-level response.
// ---------------------------------------------------------------------

/// The exact decimal standing for a signed whole number of hours.
pub open spec fn dec_of_i8(v: i8) -> Dec {
    if v < 0 {
        Dec { neg: true, mant: (-(v as int)) as u64, scale: 0 }
    } else {
        Dec { neg: false, mant: v as u64, scale: 0 }
    }
}

pub fn dec_from_i8(v: i8) -> (d: Dec)
    ensures
        d == dec_of_i8(v),
{
    if v < 0 {
        let m = -(v as i64);
        Dec { neg: true, mant: m as u64, scale: 0 }
    } else {
        Dec { neg: false, mant: v as u64, scale: 0 }
    }
}

pub open spec fn jf_currently(fs: FieldsV) -> Option<WeatherV> {
    match obj_get(fs, "currently"@) {
        Some(j) => weather_of_json(j),
        None => None,
    }
}

pub open spec fn jf_minutely(fs: FieldsV) -> Option<Option<MinutelySeriesV>> {
    match obj_get(fs, "minutely"@) {
        None => Some(None),
        Some(JsonV::Null) => Some(None),
        Some(j) => match minutely_of_json(j) {
            Some(m) => Some(Some(m)),
            None => None,
        },
    }
}

pub open spec fn jf_hourly(fs: FieldsV) -> Option<HourlySeriesV> {
    match obj_get(fs, "hourly"@) {
        Some(j) => hourly_of_json(j),
        None => None,
    }
}

pub open spec fn jf_daily_series(fs: FieldsV) -> Option<DailySeriesV> {
    match obj_get(fs, "daily"@) {
        Some(j) => daily_series_of_json(j),
        None => None,
    }
}

pub open spec fn jf_alerts(fs: FieldsV) -> Option<Option<Seq<AlertV>>> {
    match obj_get(fs, "alerts"@) {
        None => Some(None),
        Some(JsonV::Null) => Some(None),
        Some(JsonV::Arr(elems)) => match alerts_of(elems) {
            Some(alerts) => Some(Some(alerts)),
            None => None,
        },
        Some(_) => None,
    }
}

pub open spec fn jf_flags(fs: FieldsV) -> Option<FlagsV> {
    match obj_get(fs, "flags"@) {
        Some(j) => flags_of_json(j),
        None => None,
    }
}

pub open spec fn darksky_of_fields(fs: FieldsV) -> Option<DarkskyResultV> {
    if jf_dec(fs, "latitude"@) is None {
        None
    } else if jf_dec(fs, "longitude"@) is None {
        None
    } else if jf_str(fs, "timezone"@) is None {
        None
    } else if jf_currently(fs) is None {
        None
    } else if jf_minutely(fs) is None {
        None
    } else if jf_hourly(fs) is None {
        None
    } else if jf_daily_series(fs) is None {
        None
    } else if jf_alerts(fs) is None {
        None
    } else if jf_flags(fs) is None {
        None
    } else if jf_i8(fs, "offset"@) is None {
        None
    } else {
        Some(
            DarkskyResultV {
                latitude: jf_dec(fs, "latitude"@)->Some_0,
                longitude: jf_dec(fs, "longitude"@)->Some_0,
                timezone: jf_str(fs, "timezone"@)->Some_0,
                currently: jf_currently(fs)->Some_0,
                minutely: jf_minutely(fs)->Some_0,
                hourly: jf_hourly(fs)->Some_0,
                daily: jf_daily_series(fs)->Some_0,
                alerts: jf_alerts(fs)->Some_0,
                flags: jf_flags(fs)->Some_0,
                offset: jf_i8(fs, "offset"@)->Some_0,
            },
        )
    }
}

pub open spec fn darksky_of_json(j: JsonV) -> Option<DarkskyResultV> {
    match j {
        JsonV::Obj(fs) => darksky_of_fields(fs),
        _ => None,
    }
}

pub open spec fn opt_minutely(o: Option<MinutelySeriesV>) -> Option<JsonV> {
    match o {
        Some(m) => Some(minutely_to_json(m)),
        None => None,
    }
}

pub open spec fn opt_alerts(o: Option<Seq<AlertV>>) -> Option<JsonV> {
    match o {
        Some(alerts) => Some(JsonV::Arr(alerts_to_json(alerts))),
        None => None,
    }
}

/// The required fields of a serialized response, in wire order.
pub open spec fn darksky_req_fields(m: DarkskyResultV) -> FieldsV {
    seq![
        ("latitude"@, JsonV::Num(m.latitude)),
        ("longitude"@, JsonV::Num(m.longitude)),
        ("timezone"@, JsonV::Str(m.timezone)),
        ("currently"@, weather_to_json(m.currently)),
        ("hourly"@, hourly_to_json(m.hourly)),
        ("daily"@, daily_series_to_json(m.daily)),
        ("flags"@, flags_to_json(m.flags)),
        ("offset"@, JsonV::Num(dec_of_i8(m.offset))),
    ]
}

pub open spec fn darksky_to_json(m: DarkskyResultV) -> JsonV {
    JsonV::Obj(
        darksky_req_fields(m) + opt_json_field("minutely"@, opt_minutely(m.minutely))
            + opt_json_field("alerts"@, opt_alerts(m.alerts)),
    )
}

pub fn parse_darksky(j: &Json) -> (r: Result<DarkskyResult, ForecastError>)
    ensures
        match r {
            Ok(m) => darksky_of_json(j@) == Some(m@),
            Err(e) => darksky_of_json(j@) is None && e == ForecastError::SchemaMismatch,
        },
{
    let fields = match j {
        Json::Obj(fs) => fs,
        _ => {
            return Err(ForecastError::SchemaMismatch);
        },
    };
    proof {
        lemma_obj_view(*fields);
    }
    let latitude = match get_dec(fields, "latitude") {
        Some(x) => x,
        None => {
            return Err(ForecastError::SchemaMismatch);
        },
    };
    let longitude = match get_dec(fields, "longitude") {
        Some(x) => x,
        None => {
            return Err(ForecastError::SchemaMismatch);
        },
    };
    let timezone = match get_str(fields, "timezone") {
        Some(x) => x,
        None => {
            return Err(ForecastError::SchemaMismatch);
        },
    };
    let currently = match obj_find(fields, "currently") {
        Some(jc) => match parse_weather(jc) {
            Ok(w) => w,
            Err(e) => {
                return Err(e);
            },
        },
        None => {
            return Err(ForecastError::SchemaMismatch);
        },
    };
    let minutely = match obj_find(fields, "minutely") {
        None => None,
        Some(Json::Null) => None,
        Some(jm) => match parse_minutely(jm) {
            Ok(m) => Some(m),
            Err(e) => {
                return Err(e);
            },
        },
    };
    let hourly = match obj_find(fields, "hourly") {
        Some(jh) => match parse_hourly(jh) {
            Ok(h) => h,
            Err(e) => {
                return Err(e);
            },
        },
        None => {
            return Err(ForecastError::SchemaMismatch);
        },
    };
    let daily = match obj_find(fields, "daily") {
        Some(jd) => match parse_daily_series(jd) {
            Ok(d) => d,
            Err(e) => {
                return Err(e);
            },
        },
        None => {
            return Err(ForecastError::SchemaMismatch);
        },
    };
    let alerts = match obj_find(fields, "alerts") {
        None => None,
        Some(Json::Null) => None,
        Some(ja) => match ja {
            Json::Arr(v) => {
                proof {
                    lemma_arr_view(*v);
                }
                match parse_alerts(v) {
                    Ok(alerts) => Some(alerts),
                    Err(e) => {
                        return Err(e);
                    },
                }
            },
            _ => {
                return Err(ForecastError::SchemaMismatch);
            },
        },
    };
    let flags = match obj_find(fields, "flags") {
        Some(jf) => match parse_flags(jf) {
            Ok(f) => f,
            Err(e) => {
                return Err(e);
            },
        },
        None => {
            return Err(ForecastError::SchemaMismatch);
        },
    };
    let offset = match get_i8(fields, "offset") {
        Some(x) => x,
        None => {
            return Err(ForecastError::SchemaMismatch);
        },
    };
    Ok(
        DarkskyResult {
            latitude,
            longitude,
            timezone,
            currently,
            minutely,
            hourly,
            daily,
            alerts,
            flags,
            offset,
        },
    )
}

pub fn json_of_darksky(m: &DarkskyResult) -> (j: Json)
    ensures
        j@ == darksky_to_json(m@),
{
    let mut fields: Vec<(String, Json)> = Vec::new();
    fields.push((String::from_str("latitude"), Json::Num(m.latitude)));
    fields.push((String::from_str("longitude"), Json::Num(m.longitude)));
    fields.push((String::from_str("timezone"), Json::Str(m.timezone.clone())));
    fields.push((String::from_str("currently"), json_of_weather(&m.currently)));
    fields.push((String::from_str("hourly"), json_of_hourly(&m.hourly)));
    fields.push((String::from_str("daily"), json_of_daily_series(&m.daily)));
    fields.push((String::from_str("flags"), json_of_flags(&m.flags)));
    fields.push((String::from_str("offset"), Json::Num(dec_from_i8(m.offset))));
    proof {
        assert(fields_view(fields@) =~= darksky_req_fields(m@));
    }
    let ghost g0 = fields_view(fields@);
    match &m.minutely {
        Some(ms) => {
            let jm = json_of_minutely(ms);
            fields.push((String::from_str("minutely"), jm));
            proof {
                assert(fields_view(fields@) =~= g0 + opt_json_field(
                    "minutely"@,
                    opt_minutely(m@.minutely),
                ));
            }
        },
        None => {
            proof {
                assert(fields_view(fields@) =~= g0 + opt_json_field(
                    "minutely"@,
                    opt_minutely(m@.minutely),
                ));
            }
        },
    }
    let ghost g1 = fields_view(fields@);
    match &m.alerts {
        Some(alerts) => {
            let ja = json_of_alerts(alerts);
            proof {
                lemma_arr_view(ja);
            }
            fields.push((String::from_str("alerts"), Json::Arr(ja)));
            proof {
                assert(fields_view(fields@) =~= g1 + opt_json_field(
                    "alerts"@,
                    opt_alerts(m@.alerts),
                ));
            }
        },
        None => {
            proof {
                assert(fields_view(fields@) =~= g1 + opt_json_field(
                    "alerts"@,
                    opt_alerts(m@.alerts),
                ));
            }
        },
    }
    proof {
        lemma_obj_view(fields);
        assert(fields_view(fields@) =~= darksky_to_json(m@)->Obj_0);
    }
    Json::Obj(fields)
}

/// Writing a whole response and reading it back gives it unchanged:
/// every required field, and every optional field that is present,
/// round-trips value for value, and absent optional fields stay absent.
#[verifier::rlimit(80)]
pub proof fn lemma_darksky_round_trip(m: DarkskyResultV)
    ensures
        darksky_of_json(darksky_to_json(m)) == Some(m),
{
    reveal_strlit("latitude");
    reveal_strlit("longitude");
    reveal_strlit("timezone");
    reveal_strlit("currently");
    reveal_strlit("minutely");
    reveal_strlit("hourly");
    reveal_strlit("daily");
    reveal_strlit("alerts");
    reveal_strlit("flags");
    reveal_strlit("offset");
    assert("latitude"@[0] == 'l');
    assert("timezone"@[0] == 't');
    assert("minutely"@[0] == 'm');
    assert("longitude"@[0] == 'l');
    assert("currently"@[0] == 'c');
    assert("hourly"@[0] == 'h');
    assert("alerts"@[0] == 'a');
    assert("offset"@[0] == 'o');
    assert("daily"@[0] == 'd');
    assert("flags"@[0] == 'f');
    assert("latitude"@ != "timezone"@);
    assert("latitude"@ != "minutely"@);
    assert("timezone"@ != "minutely"@);
    assert("longitude"@ != "currently"@);
    assert("hourly"@ != "alerts"@);
    assert("hourly"@ != "offset"@);
    assert("alerts"@ != "offset"@);
    assert("daily"@ != "flags"@);
    assert("minutely"@.len() == 8);
    assert("alerts"@.len() == 6);
    assert("minutely"@ != "alerts"@);
    let req = darksky_req_fields(m);
    let o1 = opt_json_field("minutely"@, opt_minutely(m.minutely));
    let o2 = opt_json_field("alerts"@, opt_alerts(m.alerts));
    let s1 = req + o1;
    let fs = s1 + o2;
    assert(darksky_to_json(m)->Obj_0 == fs);
    assert(req[0].0 == "latitude"@);
    assert(req[1].0 == "longitude"@);
    assert(req[2].0 == "timezone"@);
    assert(req[3].0 == "currently"@);
    assert(req[4].0 == "hourly"@);
    assert(req[5].0 == "daily"@);
    assert(req[6].0 == "flags"@);
    assert(req[7].0 == "offset"@);
    lemma_obj_get_at(req, "latitude"@, 0);
    lemma_obj_get_at(req, "longitude"@, 1);
    lemma_obj_get_at(req, "timezone"@, 2);
    lemma_obj_get_at(req, "currently"@, 3);
    lemma_obj_get_at(req, "hourly"@, 4);
    lemma_obj_get_at(req, "daily"@, 5);
    lemma_obj_get_at(req, "flags"@, 6);
    lemma_obj_get_at(req, "offset"@, 7);
    lemma_obj_get_none(req, "minutely"@);
    lemma_obj_get_none(req, "alerts"@);
    lemma_opt_field_get("minutely"@, opt_minutely(m.minutely), "alerts"@);
    lemma_opt_field_get("alerts"@, opt_alerts(m.alerts), "minutely"@);
    lemma_obj_get_app(req, o1, "latitude"@);
    lemma_obj_get_app(s1, o2, "latitude"@);
    lemma_obj_get_app(req, o1, "longitude"@);
    lemma_obj_get_app(s1, o2, "longitude"@);
    lemma_obj_get_app(req, o1, "timezone"@);
    lemma_obj_get_app(s1, o2, "timezone"@);
    lemma_obj_get_app(req, o1, "currently"@);
    lemma_obj_get_app(s1, o2, "currently"@);
    lemma_obj_get_app(req, o1, "hourly"@);
    lemma_obj_get_app(s1, o2, "hourly"@);
    lemma_obj_get_app(req, o1, "daily"@);
    lemma_obj_get_app(s1, o2, "daily"@);
    lemma_obj_get_app(req, o1, "flags"@);
    lemma_obj_get_app(s1, o2, "flags"@);
    lemma_obj_get_app(req, o1, "offset"@);
    lemma_obj_get_app(s1, o2, "offset"@);
    lemma_obj_get_app(req, o1, "minutely"@);
    lemma_obj_get_app(s1, o2, "minutely"@);
    lemma_obj_get_app(req, o1, "alerts"@);
    lemma_obj_get_app(s1, o2, "alerts"@);
    lemma_weather_round_trip(m.currently);
    lemma_hourly_round_trip(m.hourly);
    lemma_daily_series_round_trip(m.daily);
    lemma_flags_round_trip(m.flags);
    assert(jf_dec(fs, "latitude"@) == Some(m.latitude));
    assert(jf_dec(fs, "longitude"@) == Some(m.longitude));
    assert(jf_str(fs, "timezone"@) == Some(m.timezone));
    assert(jf_currently(fs) == Some(m.currently));
    assert(jf_hourly(fs) == Some(m.hourly));
    assert(jf_daily_series(fs) == Some(m.daily));
    assert(jf_flags(fs) == Some(m.flags));
    if m.offset < 0 {
        assert(((-(m.offset as int)) as u64) <= 128);
        assert(jf_i8(fs, "offset"@) == Some(m.offset));
    } else {
        assert(jf_i8(fs, "offset"@) == Some(m.offset));
    }
    match m.minutely {
        Some(ms) => {
            lemma_minutely_round_trip(ms);
            assert(obj_get(fs, "minutely"@) == Some(minutely_to_json(ms)));
            assert(jf_minutely(fs) == Some(m.minutely));
        },
        None => {
            assert(obj_get(fs, "minutely"@) is None);
            assert(jf_minutely(fs) == Some(m.minutely));
        },
    }
    match m.alerts {
        Some(alerts) => {
            lemma_alerts_round_trip(alerts);
            assert(obj_get(fs, "alerts"@) == Some(JsonV::Arr(alerts_to_json(alerts))));
            assert(jf_alerts(fs) == Some(m.alerts));
        },
        None => {
            assert(obj_get(fs, "alerts"@) is None);
            assert(jf_alerts(fs) == Some(m.alerts));
        },
    }
    assert(darksky_of_fields(fs) == Some(m));
}

} // verus!
