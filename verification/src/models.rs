//! The feature-collection envelope, the raw per-record attributes, and the
//! normalized statistical records, with the mapping between them.

use vstd::prelude::*;

use crate::dates::now_epoch_ms;
use crate::dates::timestamp_string;
use crate::dates::timestamp_to_date_at;
use crate::errors::InaError;
use crate::json::clone_json;
use crate::json::json_eq;
use crate::json::get_member;
use crate::json::is_object;
use crate::json::json_model;
use crate::json::json_model_of;
use crate::json::obj_member;
use crate::json::JsonValue;

verus! {

/// Raw per-record fields from upstream; every field may be absent. A
/// percentage arrives as an arbitrary JSON number and is carried as its
/// decimal text.
#[derive(Debug, Clone)]
pub struct Attributes {
    pub fid: Option<i64>,
    pub kode_provi: Option<i64>,
    pub provinsi: Option<String>,
    pub kasus_posi: Option<i64>,
    pub kasus_semb: Option<i64>,
    pub kasus_meni: Option<i64>,
    pub value: Option<i64>,
    pub hari_ke: Option<i64>,
    pub tanggal: Option<i64>,
    pub jumlah_kasus_baru_per_hari: Option<i64>,
    pub jumlah_kasus_kumulatif: Option<i64>,
    pub jumlah_pasien_dalam_perawatan: Option<i64>,
    pub persentase_pasien_dalam_perawatan: Option<String>,
    pub jumlah_pasien_sembuh: Option<i64>,
    pub persentase_pasien_sembuh: Option<String>,
    pub jumlah_pasien_meninggal: Option<i64>,
    pub persentase_pasien_meninggal: Option<String>,
    pub jumlah_kasus_sembuh_per_hari: Option<i64>,
    pub jumlah_kasus_meninggal_per_hari: Option<i64>,
    pub jumlah_kasus_dirawat_per_hari: Option<i64>,
    pub kasus_sedang_investigasi_lapangan: Option<i64>,
    pub pembaruan_terakhir: Option<i64>,
}

/// One entry of the feature list.
#[derive(Debug, Clone)]
pub struct Feature {
    pub attributes: Option<Attributes>,
}

/// The field schema entries of the envelope; parsed, not used downstream.
#[derive(Debug)]
pub struct Field {
    pub name: Option<String>,
    pub field_type: Option<String>,
    pub alias: Option<String>,
    pub sql_type: Option<String>,
    pub domain: Option<JsonValue>,
    pub default_value: Option<JsonValue>,
    pub length: Option<i64>,
}

/// The spatial reference of the envelope; parsed, not used downstream.
#[derive(Debug, Clone)]
pub struct SpatialReference {
    pub wkid: Option<i64>,
    pub latest_wkid: Option<i64>,
}

/// The unique-id descriptor of the envelope; parsed, not used downstream.
#[derive(Debug, Clone)]
pub struct UniqueIdField {
    pub name: Option<String>,
    pub is_system_maintained: Option<bool>,
}

/// The upstream response envelope.
#[derive(Debug)]
pub struct InaCovid {
    pub object_id_field_name: Option<String>,
    pub unique_id_field: Option<UniqueIdField>,
    pub global_id_field_name: Option<String>,
    pub geometry_type: Option<String>,
    pub spatial_reference: Option<SpatialReference>,
    pub fields: Option<Vec<Field>>,
    pub features: Option<Vec<Feature>>,
}

impl InaCovid {
    /// The feature list; a missing `features` array is an empty sequence,
    /// never an error.
    pub fn get_features(self) -> (r: Vec<Feature>)
        ensures
            r@ == match self.features {
                Some(f) => f@,
                None => Seq::<Feature>::empty(),
            },
    {
        match self.features {
            None => Vec::new(),
            Some(x) => x,
        }
    }
}

/// The timestamp text a record carries: the epoch-millisecond source field
/// converted to `YYYY-MM-DD HH:MM:SS`, or the conversion of `now_ms` when
/// the source field is absent.
pub open spec fn converted_timestamp(ts: Option<i64>, now_ms: int) -> Seq<char> {
    match ts {
        Some(t) => timestamp_string(t as int),
        None => timestamp_string(now_ms),
    }
}

/// The canonical output record; a field absent upstream stays absent here.
#[derive(Debug, Clone)]
pub struct IndoCovidStats {
    pub province_id: Option<i64>,
    pub day: Option<i64>,
    pub date: Option<String>,
    pub new_cases_per_day: Option<i64>,
    pub cumulative_cases: Option<i64>,
    pub under_investigation: Option<i64>,
    pub under_treatment: Option<i64>,
    pub under_treatment_percentage: Option<String>,
    pub recovered: Option<i64>,
    pub recovered_percentage: Option<String>,
    pub deaths: Option<i64>,
    pub deaths_percentage: Option<String>,
    pub recovered_per_day: Option<i64>,
    pub deaths_per_day: Option<i64>,
    pub under_treatment_per_day: Option<i64>,
    pub latest_update: Option<String>,
    pub provinsi: Option<String>,
    pub positif: Option<i64>,
    pub sembuh: Option<i64>,
    pub meninggal: Option<i64>,
}

/// `r` is the normalization of `attr` as of instant `now_ms`: a direct
/// field-by-field projection, except that the two timestamp fields are
/// converted to text and default to `now_ms` when absent.
pub open spec fn normalized_from(r: IndoCovidStats, attr: Attributes, now_ms: int) -> bool {
    &&& r.province_id == attr.kode_provi
    &&& r.provinsi == attr.provinsi
    &&& r.positif == attr.kasus_posi
    &&& r.sembuh == attr.kasus_semb
    &&& r.meninggal == attr.kasus_meni
    &&& r.day == attr.hari_ke
    &&& r.new_cases_per_day == attr.jumlah_kasus_baru_per_hari
    &&& r.cumulative_cases == attr.jumlah_kasus_kumulatif
    &&& r.under_investigation == attr.kasus_sedang_investigasi_lapangan
    &&& r.under_treatment == attr.jumlah_pasien_dalam_perawatan
    &&& r.under_treatment_per_day == attr.jumlah_kasus_dirawat_per_hari
    &&& r.under_treatment_percentage == attr.persentase_pasien_dalam_perawatan
    &&& r.recovered == attr.jumlah_pasien_sembuh
    &&& r.recovered_per_day == attr.jumlah_kasus_sembuh_per_hari
    &&& r.recovered_percentage == attr.persentase_pasien_sembuh
    &&& r.deaths == attr.jumlah_pasien_meninggal
    &&& r.deaths_per_day == attr.jumlah_kasus_meninggal_per_hari
    &&& r.deaths_percentage == attr.persentase_pasien_meninggal
    &&& r.date matches Some(d) && d@ == converted_timestamp(attr.tanggal, now_ms)
    &&& r.latest_update matches Some(u) && u@ == converted_timestamp(
        attr.pembaruan_terakhir,
        now_ms,
    )
}

impl IndoCovidStats {
    /// Normalizes raw attributes as of instant `now_ms`.
    pub fn new_at(attr: Attributes, now_ms: i64) -> (r: IndoCovidStats)
        ensures
            normalized_from(r, attr, now_ms as int),
    {
        let date = match attr.tanggal {
            Some(t) => timestamp_to_date_at(t),
            None => timestamp_to_date_at(now_ms),
        };
        let latest_update = match attr.pembaruan_terakhir {
            Some(t) => timestamp_to_date_at(t),
            None => timestamp_to_date_at(now_ms),
        };
        IndoCovidStats {
            province_id: attr.kode_provi,
            provinsi: attr.provinsi,
            positif: attr.kasus_posi,
            sembuh: attr.kasus_semb,
            meninggal: attr.kasus_meni,
            date: Some(date),
            day: attr.hari_ke,
            new_cases_per_day: attr.jumlah_kasus_baru_per_hari,
            cumulative_cases: attr.jumlah_kasus_kumulatif,
            under_investigation: attr.kasus_sedang_investigasi_lapangan,
            under_treatment: attr.jumlah_pasien_dalam_perawatan,
            under_treatment_per_day: attr.jumlah_kasus_dirawat_per_hari,
            under_treatment_percentage: attr.persentase_pasien_dalam_perawatan,
            recovered: attr.jumlah_pasien_sembuh,
            recovered_per_day: attr.jumlah_kasus_sembuh_per_hari,
            recovered_percentage: attr.persentase_pasien_sembuh,
            deaths: attr.jumlah_pasien_meninggal,
            deaths_per_day: attr.jumlah_kasus_meninggal_per_hari,
            deaths_percentage: attr.persentase_pasien_meninggal,
            latest_update: Some(latest_update),
        }
    }

    /// Normalizes raw attributes, reading the clock for the timestamp
    /// defaults.
    pub fn new(attr: Attributes) -> (r: IndoCovidStats)
        ensures
            exists|now: int| normalized_from(r, attr, now),
    {
        let now = now_epoch_ms();
        let r = Self::new_at(attr, now);
        assert(normalized_from(r, attr, now as int));
        r
    }
}

/// One optional normalized record.
#[derive(Debug, Clone)]
pub struct DataProvinsiOpt {
    pub indo_covid_stats: Option<IndoCovidStats>,
}

impl DataProvinsiOpt {
    /// Normalizes one feature as of instant `now_ms`.
    pub fn new_at(feat: Feature, now_ms: i64) -> (r: DataProvinsiOpt)
        requires
            feat.attributes is Some,
        ensures
            r.indo_covid_stats matches Some(s) && normalized_from(
                s,
                feat.attributes->0,
                now_ms as int,
            ),
    {
        match feat.attributes {
            Some(attr) => DataProvinsiOpt {
                indo_covid_stats: Some(IndoCovidStats::new_at(attr, now_ms)),
            },
            None => DataProvinsiOpt { indo_covid_stats: None },
        }
    }

    /// Normalizes one feature, reading the clock for the timestamp
    /// defaults.
    pub fn new(feat: Feature) -> (r: DataProvinsiOpt)
        requires
            feat.attributes is Some,
        ensures
            r.indo_covid_stats matches Some(s) && exists|now: int|
                normalized_from(s, feat.attributes->0, now),
    {
        let now = now_epoch_ms();
        let ghost a = feat.attributes->0;
        let r = Self::new_at(feat, now);
        assert(r.indo_covid_stats matches Some(s) && normalized_from(s, a, now as int));
        r
    }
}

/// The batch of optional normalized records of one operation.
#[derive(Debug, Clone)]
pub struct DataProvinsiOptVec {
    pub provinsi_vec: Vec<Option<IndoCovidStats>>,
}

impl DataProvinsiOptVec {
    /// Collects the records of a batch, keeping their order.
    pub fn new(vals: Vec<DataProvinsiOpt>) -> (r: DataProvinsiOptVec)
        ensures
            r.provinsi_vec@.len() == vals@.len(),
            forall|i: int|
                0 <= i < vals@.len() ==> r.provinsi_vec@[i] == vals@[i].indo_covid_stats,
    {
        let ghost orig = vals@;
        let mut rest = vals;
        let mut out: Vec<Option<IndoCovidStats>> = Vec::new();
        while rest.len() > 0
            invariant
                out@.len() + rest@.len() == orig.len(),
                forall|i: int| 0 <= i < out@.len() ==> out@[i] == orig[i].indo_covid_stats,
                forall|j: int| 0 <= j < rest@.len() ==> rest@[j] == orig[out@.len() + j],
            decreases rest.len(),
        {
            let x = rest.remove(0);
            out.push(x.indo_covid_stats);
        }
        DataProvinsiOptVec { provinsi_vec: out }
    }
}

/// An optional `i64` member is well-shaped when it is absent, null, or
/// an integer number.
pub open spec fn i64_member_ok(v: JsonValue, k: Seq<char>) -> bool {
    match obj_member(v, k) {
        None => true,
        Some(x) => match x {
            JsonValue::Null => true,
            JsonValue::Num(n) => n.int_val is Some,
            _ => false,
        },
    }
}

/// The value of an optional `i64` member.
pub open spec fn i64_member_of(v: JsonValue, k: Seq<char>) -> Option<i64> {
    match obj_member(v, k) {
        Some(JsonValue::Num(n)) => n.int_val,
        _ => None,
    }
}

/// An optional string member is well-shaped when it is absent, null, or
/// a string.
pub open spec fn string_member_ok(v: JsonValue, k: Seq<char>) -> bool {
    match obj_member(v, k) {
        None => true,
        Some(x) => match x {
            JsonValue::Null => true,
            JsonValue::Str(_) => true,
            _ => false,
        },
    }
}

/// The text of an optional string member.
pub open spec fn string_member_of(v: JsonValue, k: Seq<char>) -> Option<Seq<char>> {
    match obj_member(v, k) {
        Some(JsonValue::Str(s)) => Some(s@),
        _ => None,
    }
}

/// An optional boolean member is well-shaped when it is absent, null, or
/// a boolean.
pub open spec fn bool_member_ok(v: JsonValue, k: Seq<char>) -> bool {
    match obj_member(v, k) {
        None => true,
        Some(x) => match x {
            JsonValue::Null => true,
            JsonValue::Bool(_) => true,
            _ => false,
        },
    }
}

/// The value of an optional boolean member.
pub open spec fn bool_member_of(v: JsonValue, k: Seq<char>) -> Option<bool> {
    match obj_member(v, k) {
        Some(JsonValue::Bool(b)) => Some(b),
        _ => None,
    }
}

/// An optional numeric member is well-shaped when it is absent, null, or
/// any number.
pub open spec fn number_member_ok(v: JsonValue, k: Seq<char>) -> bool {
    match obj_member(v, k) {
        None => true,
        Some(x) => match x {
            JsonValue::Null => true,
            JsonValue::Num(_) => true,
            _ => false,
        },
    }
}

/// The decimal text of an optional numeric member.
pub open spec fn number_member_of(v: JsonValue, k: Seq<char>) -> Option<Seq<char>> {
    match obj_member(v, k) {
        Some(JsonValue::Num(n)) => Some(n.text@),
        _ => None,
    }
}

/// An optional member kept as a raw model value; null counts as absent.
pub open spec fn value_member_of(v: JsonValue, k: Seq<char>) -> Option<JsonValue> {
    match obj_member(v, k) {
        None => None,
        Some(x) => if x is Null {
            None
        } else {
            Some(x)
        },
    }
}

/// An owned text equals an optional text, member by member.
pub open spec fn opt_text_is(o: Option<String>, t: Option<Seq<char>>) -> bool {
    match (o, t) {
        (Some(s), Some(x)) => s@ == x,
        (None, None) => true,
        _ => false,
    }
}

fn opt_i64_member(v: &JsonValue, key: &str) -> (r: Result<Option<i64>, InaError>)
    ensures
        r is Ok <==> i64_member_ok(*v, key@),
        r matches Ok(o) ==> o == i64_member_of(*v, key@),
        r matches Err(e) ==> e is MalformedResponse,
{
    match get_member(v, key) {
        None => Ok(None),
        Some(x) => match x {
            JsonValue::Null => Ok(None),
            JsonValue::Num(n) => match n.int_val {
                Some(i) => Ok(Some(i)),
                None => Err(InaError::MalformedResponse),
            },
            _ => Err(InaError::MalformedResponse),
        },
    }
}

fn opt_string_member(v: &JsonValue, key: &str) -> (r: Result<Option<String>, InaError>)
    ensures
        r is Ok <==> string_member_ok(*v, key@),
        r matches Ok(o) ==> opt_text_is(o, string_member_of(*v, key@)),
        r matches Err(e) ==> e is MalformedResponse,
{
    match get_member(v, key) {
        None => Ok(None),
        Some(x) => match x {
            JsonValue::Null => Ok(None),
            JsonValue::Str(s) => Ok(Some(s.clone())),
            _ => Err(InaError::MalformedResponse),
        },
    }
}

fn opt_bool_member(v: &JsonValue, key: &str) -> (r: Result<Option<bool>, InaError>)
    ensures
        r is Ok <==> bool_member_ok(*v, key@),
        r matches Ok(o) ==> o == bool_member_of(*v, key@),
        r matches Err(e) ==> e is MalformedResponse,
{
    match get_member(v, key) {
        None => Ok(None),
        Some(x) => match x {
            JsonValue::Null => Ok(None),
            JsonValue::Bool(b) => Ok(Some(*b)),
            _ => Err(InaError::MalformedResponse),
        },
    }
}

fn opt_number_member(v: &JsonValue, key: &str) -> (r: Result<Option<String>, InaError>)
    ensures
        r is Ok <==> number_member_ok(*v, key@),
        r matches Ok(o) ==> opt_text_is(o, number_member_of(*v, key@)),
        r matches Err(e) ==> e is MalformedResponse,
{
    match get_member(v, key) {
        None => Ok(None),
        Some(x) => match x {
            JsonValue::Null => Ok(None),
            JsonValue::Num(n) => Ok(Some(n.text.clone())),
            _ => Err(InaError::MalformedResponse),
        },
    }
}

fn opt_value_member(v: &JsonValue, key: &str) -> (r: Option<JsonValue>)
    ensures
        match value_member_of(*v, key@) {
            None => r is None,
            Some(x) => r matches Some(d) && json_eq(d, x),
        },
{
    match get_member(v, key) {
        None => None,
        Some(x) => match x {
            JsonValue::Null => None,
            _ => Some(clone_json(x)),
        },
    }
}

/// A well-shaped raw attributes object: every known member is absent,
/// null, or of its declared kind.
pub open spec fn attributes_ok(v: JsonValue) -> bool {
    &&& v is Obj
    &&& i64_member_ok(v, "FID"@)
    &&& i64_member_ok(v, "Kode_Provi"@)
    &&& string_member_ok(v, "Provinsi"@)
    &&& i64_member_ok(v, "Kasus_Posi"@)
    &&& i64_member_ok(v, "Kasus_Semb"@)
    &&& i64_member_ok(v, "Kasus_Meni"@)
    &&& i64_member_ok(v, "Value"@)
    &&& i64_member_ok(v, "Hari_ke"@)
    &&& i64_member_ok(v, "Tanggal"@)
    &&& i64_member_ok(v, "Jumlah_Kasus_Baru_per_Hari"@)
    &&& i64_member_ok(v, "Jumlah_Kasus_Kumulatif"@)
    &&& i64_member_ok(v, "Jumlah_pasien_dalam_perawatan"@)
    &&& number_member_ok(v, "Persentase_Pasien_dalam_Perawatan"@)
    &&& i64_member_ok(v, "Jumlah_Pasien_Sembuh"@)
    &&& number_member_ok(v, "Persentase_Pasien_Sembuh"@)
    &&& i64_member_ok(v, "Jumlah_Pasien_Meninggal"@)
    &&& number_member_ok(v, "Persentase_Pasien_Meninggal"@)
    &&& i64_member_ok(v, "Jumlah_Kasus_Sembuh_per_Hari"@)
    &&& i64_member_ok(v, "Jumlah_Kasus_Meninggal_per_Hari"@)
    &&& i64_member_ok(v, "Jumlah_Kasus_Dirawat_per_Hari"@)
    &&& i64_member_ok(v, "Kasus_Sedang_Investigasi_Lapangan"@)
    &&& i64_member_ok(v, "Pembaruan_Terakhir"@)
}

/// `a` holds exactly the members of the attributes object `v`.
pub open spec fn attributes_matches(a: Attributes, v: JsonValue) -> bool {
    &&& a.fid == i64_member_of(v, "FID"@)
    &&& a.kode_provi == i64_member_of(v, "Kode_Provi"@)
    &&& opt_text_is(a.provinsi, string_member_of(v, "Provinsi"@))
    &&& a.kasus_posi == i64_member_of(v, "Kasus_Posi"@)
    &&& a.kasus_semb == i64_member_of(v, "Kasus_Semb"@)
    &&& a.kasus_meni == i64_member_of(v, "Kasus_Meni"@)
    &&& a.value == i64_member_of(v, "Value"@)
    &&& a.hari_ke == i64_member_of(v, "Hari_ke"@)
    &&& a.tanggal == i64_member_of(v, "Tanggal"@)
    &&& a.jumlah_kasus_baru_per_hari == i64_member_of(v, "Jumlah_Kasus_Baru_per_Hari"@)
    &&& a.jumlah_kasus_kumulatif == i64_member_of(v, "Jumlah_Kasus_Kumulatif"@)
    &&& a.jumlah_pasien_dalam_perawatan == i64_member_of(v, "Jumlah_pasien_dalam_perawatan"@)
    &&& opt_text_is(
        a.persentase_pasien_dalam_perawatan,
        number_member_of(v, "Persentase_Pasien_dalam_Perawatan"@),
    )
    &&& a.jumlah_pasien_sembuh == i64_member_of(v, "Jumlah_Pasien_Sembuh"@)
    &&& opt_text_is(a.persentase_pasien_sembuh, number_member_of(v, "Persentase_Pasien_Sembuh"@))
    &&& a.jumlah_pasien_meninggal == i64_member_of(v, "Jumlah_Pasien_Meninggal"@)
    &&& opt_text_is(
        a.persentase_pasien_meninggal,
        number_member_of(v, "Persentase_Pasien_Meninggal"@),
    )
    &&& a.jumlah_kasus_sembuh_per_hari == i64_member_of(v, "Jumlah_Kasus_Sembuh_per_Hari"@)
    &&& a.jumlah_kasus_meninggal_per_hari == i64_member_of(v, "Jumlah_Kasus_Meninggal_per_Hari"@)
    &&& a.jumlah_kasus_dirawat_per_hari == i64_member_of(v, "Jumlah_Kasus_Dirawat_per_Hari"@)
    &&& a.kasus_sedang_investigasi_lapangan == i64_member_of(
        v,
        "Kasus_Sedang_Investigasi_Lapangan"@,
    )
    &&& a.pembaruan_terakhir == i64_member_of(v, "Pembaruan_Terakhir"@)
}

/// Reads one raw attributes record out of an attributes object.
pub fn attributes_from_json(v: &JsonValue) -> (r: Result<Attributes, InaError>)
    ensures
        r is Ok <==> attributes_ok(*v),
        r matches Ok(a) ==> attributes_matches(a, *v),
        r matches Err(e) ==> e is MalformedResponse,
{
    if !is_object(v) {
        return Err(InaError::MalformedResponse);
    }
    Ok(
        Attributes {
            fid: opt_i64_member(v, "FID")?,
            kode_provi: opt_i64_member(v, "Kode_Provi")?,
            provinsi: opt_string_member(v, "Provinsi")?,
            kasus_posi: opt_i64_member(v, "Kasus_Posi")?,
            kasus_semb: opt_i64_member(v, "Kasus_Semb")?,
            kasus_meni: opt_i64_member(v, "Kasus_Meni")?,
            value: opt_i64_member(v, "Value")?,
            hari_ke: opt_i64_member(v, "Hari_ke")?,
            tanggal: opt_i64_member(v, "Tanggal")?,
            jumlah_kasus_baru_per_hari: opt_i64_member(v, "Jumlah_Kasus_Baru_per_Hari")?,
            jumlah_kasus_kumulatif: opt_i64_member(v, "Jumlah_Kasus_Kumulatif")?,
            jumlah_pasien_dalam_perawatan: opt_i64_member(v, "Jumlah_pasien_dalam_perawatan")?,
            persentase_pasien_dalam_perawatan: opt_number_member(
                v,
                "Persentase_Pasien_dalam_Perawatan",
            )?,
            jumlah_pasien_sembuh: opt_i64_member(v, "Jumlah_Pasien_Sembuh")?,
            persentase_pasien_sembuh: opt_number_member(v, "Persentase_Pasien_Sembuh")?,
            jumlah_pasien_meninggal: opt_i64_member(v, "Jumlah_Pasien_Meninggal")?,
            persentase_pasien_meninggal: opt_number_member(v, "Persentase_Pasien_Meninggal")?,
            jumlah_kasus_sembuh_per_hari: opt_i64_member(v, "Jumlah_Kasus_Sembuh_per_Hari")?,
            jumlah_kasus_meninggal_per_hari: opt_i64_member(v, "Jumlah_Kasus_Meninggal_per_Hari")?,
            jumlah_kasus_dirawat_per_hari: opt_i64_member(v, "Jumlah_Kasus_Dirawat_per_Hari")?,
            kasus_sedang_investigasi_lapangan: opt_i64_member(
                v,
                "Kasus_Sedang_Investigasi_Lapangan",
            )?,
            pembaruan_terakhir: opt_i64_member(v, "Pembaruan_Terakhir")?,
        },
    )
}

/// A well-shaped feature entry: an object whose `attributes` member is
/// absent, null, or a well-shaped attributes object.
pub open spec fn feature_ok(v: JsonValue) -> bool {
    &&& v is Obj
    &&& match obj_member(v, "attributes"@) {
        None => true,
        Some(x) => x is Null || attributes_ok(x),
    }
}

/// `f` holds exactly the attributes of the feature object `v`.
pub open spec fn feature_matches(f: Feature, v: JsonValue) -> bool {
    match obj_member(v, "attributes"@) {
        None => f.attributes is None,
        Some(x) => if x is Null {
            f.attributes is None
        } else {
            f.attributes matches Some(a) && attributes_matches(a, x)
        },
    }
}

/// Reads one feature entry out of a feature object.
pub fn feature_from_json(v: &JsonValue) -> (r: Result<Feature, InaError>)
    ensures
        r is Ok <==> feature_ok(*v),
        r matches Ok(f) ==> feature_matches(f, *v),
        r matches Err(e) ==> e is MalformedResponse,
{
    if !is_object(v) {
        return Err(InaError::MalformedResponse);
    }
    let attributes = match get_member(v, "attributes") {
        None => None,
        Some(x) => match x {
            JsonValue::Null => None,
            _ => Some(attributes_from_json(x)?),
        },
    };
    Ok(Feature { attributes })
}

/// A well-shaped schema entry.
pub open spec fn field_ok(v: JsonValue) -> bool {
    &&& v is Obj
    &&& string_member_ok(v, "name"@)
    &&& string_member_ok(v, "type"@)
    &&& string_member_ok(v, "alias"@)
    &&& string_member_ok(v, "sqlType"@)
    &&& i64_member_ok(v, "length"@)
}

/// `f` holds the members of the schema entry `v`; the two raw-value
/// members are kept as structurally equal copies.
pub open spec fn field_matches(f: Field, v: JsonValue) -> bool {
    &&& opt_text_is(f.name, string_member_of(v, "name"@))
    &&& opt_text_is(f.field_type, string_member_of(v, "type"@))
    &&& opt_text_is(f.alias, string_member_of(v, "alias"@))
    &&& opt_text_is(f.sql_type, string_member_of(v, "sqlType"@))
    &&& match value_member_of(v, "domain"@) {
        None => f.domain is None,
        Some(x) => f.domain matches Some(d) && json_eq(d, x),
    }
    &&& match value_member_of(v, "defaultValue"@) {
        None => f.default_value is None,
        Some(x) => f.default_value matches Some(d) && json_eq(d, x),
    }
    &&& f.length == i64_member_of(v, "length"@)
}

fn field_from_json(v: &JsonValue) -> (r: Result<Field, InaError>)
    ensures
        r is Ok <==> field_ok(*v),
        r matches Ok(f) ==> field_matches(f, *v),
        r matches Err(e) ==> e is MalformedResponse,
{
    if !is_object(v) {
        return Err(InaError::MalformedResponse);
    }
    Ok(
        Field {
            name: opt_string_member(v, "name")?,
            field_type: opt_string_member(v, "type")?,
            alias: opt_string_member(v, "alias")?,
            sql_type: opt_string_member(v, "sqlType")?,
            domain: opt_value_member(v, "domain"),
            default_value: opt_value_member(v, "defaultValue"),
            length: opt_i64_member(v, "length")?,
        },
    )
}

/// A well-shaped `uniqueIdField` member.
pub open spec fn unique_id_ok(v: JsonValue) -> bool {
    match obj_member(v, "uniqueIdField"@) {
        None => true,
        Some(x) => x is Null || (x is Obj && string_member_ok(x, "name"@) && bool_member_ok(
            x,
            "isSystemMaintained"@,
        )),
    }
}

/// `u` holds exactly the `uniqueIdField` member of `v`.
pub open spec fn unique_id_matches(u: Option<UniqueIdField>, v: JsonValue) -> bool {
    match obj_member(v, "uniqueIdField"@) {
        None => u is None,
        Some(x) => if x is Null {
            u is None
        } else {
            u matches Some(f) && opt_text_is(f.name, string_member_of(x, "name"@))
                && f.is_system_maintained == bool_member_of(x, "isSystemMaintained"@)
        },
    }
}

/// A well-shaped `spatialReference` member.
pub open spec fn spatial_ok(v: JsonValue) -> bool {
    match obj_member(v, "spatialReference"@) {
        None => true,
        Some(x) => x is Null || (x is Obj && i64_member_ok(x, "wkid"@) && i64_member_ok(
            x,
            "latestWkid"@,
        )),
    }
}

/// `s` holds exactly the `spatialReference` member of `v`.
pub open spec fn spatial_matches(s: Option<SpatialReference>, v: JsonValue) -> bool {
    match obj_member(v, "spatialReference"@) {
        None => s is None,
        Some(x) => if x is Null {
            s is None
        } else {
            s matches Some(f) && f.wkid == i64_member_of(x, "wkid"@) && f.latest_wkid
                == i64_member_of(x, "latestWkid"@)
        },
    }
}

/// A well-shaped `fields` member: absent, null, or an array of
/// well-shaped schema entries.
pub open spec fn fields_ok(v: JsonValue) -> bool {
    match obj_member(v, "fields"@) {
        None => true,
        Some(x) => match x {
            JsonValue::Null => true,
            JsonValue::Arr(a) => forall|i: int| 0 <= i < a@.len() ==> field_ok(#[trigger] a@[i]),
            _ => false,
        },
    }
}

/// `fs` holds exactly the schema entries of the `fields` member of `v`.
pub open spec fn fields_matches(fs: Option<Vec<Field>>, v: JsonValue) -> bool {
    match obj_member(v, "fields"@) {
        None => fs is None,
        Some(x) => match x {
            JsonValue::Null => fs is None,
            JsonValue::Arr(a) => fs matches Some(list) && list@.len() == a@.len() && forall|i: int|
                0 <= i < a@.len() ==> field_matches(#[trigger] list@[i], a@[i]),
            _ => false,
        },
    }
}

/// A well-shaped `features` member: absent, null, or an array of
/// well-shaped feature entries. An absent or null member is never by
/// itself a shape mismatch.
pub open spec fn features_ok(v: JsonValue) -> bool {
    match obj_member(v, "features"@) {
        None => true,
        Some(x) => match x {
            JsonValue::Null => true,
            JsonValue::Arr(a) => forall|i: int| 0 <= i < a@.len() ==> feature_ok(#[trigger] a@[i]),
            _ => false,
        },
    }
}

/// `fs` holds exactly the feature entries of the `features` member of
/// `v`; an absent or null member forces the absent list.
pub open spec fn features_matches(fs: Option<Vec<Feature>>, v: JsonValue) -> bool {
    match obj_member(v, "features"@) {
        None => fs is None,
        Some(x) => match x {
            JsonValue::Null => fs is None,
            JsonValue::Arr(a) => fs matches Some(list) && list@.len() == a@.len() && forall|i: int|
                0 <= i < a@.len() ==> feature_matches(#[trigger] list@[i], a@[i]),
            _ => false,
        },
    }
}

/// A well-shaped feature-collection envelope.
pub open spec fn collection_ok(v: JsonValue) -> bool {
    &&& v is Obj
    &&& string_member_ok(v, "objectIdFieldName"@)
    &&& unique_id_ok(v)
    &&& string_member_ok(v, "globalIdFieldName"@)
    &&& string_member_ok(v, "geometryType"@)
    &&& spatial_ok(v)
    &&& fields_ok(v)
    &&& features_ok(v)
}

/// `ic` holds exactly the members of the envelope `v`.
pub open spec fn collection_matches(ic: InaCovid, v: JsonValue) -> bool {
    &&& opt_text_is(ic.object_id_field_name, string_member_of(v, "objectIdFieldName"@))
    &&& unique_id_matches(ic.unique_id_field, v)
    &&& opt_text_is(ic.global_id_field_name, string_member_of(v, "globalIdFieldName"@))
    &&& opt_text_is(ic.geometry_type, string_member_of(v, "geometryType"@))
    &&& spatial_matches(ic.spatial_reference, v)
    &&& fields_matches(ic.fields, v)
    &&& features_matches(ic.features, v)
}

/// Reads the whole envelope out of a parsed document.
#[verifier::loop_isolation(false)]
pub fn collection_from_json(v: &JsonValue) -> (r: Result<InaCovid, InaError>)
    ensures
        r is Ok <==> collection_ok(*v),
        r matches Ok(ic) ==> collection_matches(ic, *v),
        r matches Err(e) ==> e is MalformedResponse,
{
    if !is_object(v) {
        return Err(InaError::MalformedResponse);
    }
    let unique_id_field = match get_member(v, "uniqueIdField") {
        None => None,
        Some(x) => match x {
            JsonValue::Null => None,
            JsonValue::Obj(_) => Some(
                UniqueIdField {
                    name: opt_string_member(x, "name")?,
                    is_system_maintained: opt_bool_member(x, "isSystemMaintained")?,
                },
            ),
            _ => {
                return Err(InaError::MalformedResponse);
            },
        },
    };
    let spatial_reference = match get_member(v, "spatialReference") {
        None => None,
        Some(x) => match x {
            JsonValue::Null => None,
            JsonValue::Obj(_) => Some(
                SpatialReference {
                    wkid: opt_i64_member(x, "wkid")?,
                    latest_wkid: opt_i64_member(x, "latestWkid")?,
                },
            ),
            _ => {
                return Err(InaError::MalformedResponse);
            },
        },
    };
    let fields = match get_member(v, "fields") {
        None => None,
        Some(x) => match x {
            JsonValue::Null => None,
            JsonValue::Arr(arr) => {
                let mut out: Vec<Field> = Vec::new();
                let mut i: usize = 0;
                while i < arr.len()
                    invariant
                        i <= arr@.len(),
                        out@.len() == i,
                        obj_member(*v, "fields"@) == Some(JsonValue::Arr(*arr)),
                        forall|j: int|
                            0 <= j < i ==> field_ok(#[trigger] arr@[j]) && field_matches(
                                out@[j],
                                arr@[j],
                            ),
                    decreases arr@.len() - i,
                {
                    out.push(field_from_json(&arr[i])?);
                    i = i + 1;
                }
                Some(out)
            },
            _ => {
                return Err(InaError::MalformedResponse);
            },
        },
    };
    let features = match get_member(v, "features") {
        None => None,
        Some(x) => match x {
            JsonValue::Null => None,
            JsonValue::Arr(arr) => {
                let mut out: Vec<Feature> = Vec::new();
                let mut i: usize = 0;
                while i < arr.len()
                    invariant
                        i <= arr@.len(),
                        out@.len() == i,
                        obj_member(*v, "features"@) == Some(JsonValue::Arr(*arr)),
                        forall|j: int|
                            0 <= j < i ==> feature_ok(#[trigger] arr@[j]) && feature_matches(
                                out@[j],
                                arr@[j],
                            ),
                    decreases arr@.len() - i,
                {
                    out.push(feature_from_json(&arr[i])?);
                    i = i + 1;
                }
                Some(out)
            },
            _ => {
                return Err(InaError::MalformedResponse);
            },
        },
    };
    Ok(
        InaCovid {
            object_id_field_name: opt_string_member(v, "objectIdFieldName")?,
            unique_id_field,
            global_id_field_name: opt_string_member(v, "globalIdFieldName")?,
            geometry_type: opt_string_member(v, "geometryType")?,
            spatial_reference,
            fields,
            features,
        },
    )
}

/// Parses a feature-collection response body into the envelope: exactly
/// the well-formed JSON texts whose document is a well-shaped envelope
/// are accepted, and the envelope holds exactly the document's members.
/// A missing or null `features` member is not a mismatch.
pub fn parse_feature_collection(body: &str) -> (r: Result<InaCovid, InaError>)
    ensures
        r is Ok <==> (json_model_of(body@) matches Some(v) && collection_ok(v)),
        r matches Ok(ic) ==> collection_matches(ic, json_model_of(body@)->0),
        r matches Err(e) ==> e is MalformedResponse,
{
    let parsed = json_model(body);
    match parsed {
        None => Err(InaError::MalformedResponse),
        Some(v) => collection_from_json(&v),
    }
}

/// A `features` member that is absent or null never by itself makes the
/// envelope ill-shaped — such a body is accepted, not an error — and it
/// forces the absent feature list, which downstream reads as empty.
pub proof fn lemma_null_features_never_rejected(v: JsonValue)
    requires
        obj_member(v, "features"@) is None || obj_member(v, "features"@) == Some(JsonValue::Null),
    ensures
        features_ok(v),
        forall|fs: Option<Vec<Feature>>| features_matches(fs, v) ==> fs is None,
{
}

/// The record `s` holds exactly what normalization reads out of the
/// attributes object `av` as of instant `now_ms`.
pub open spec fn stats_matches_model(s: IndoCovidStats, av: JsonValue, now_ms: int) -> bool {
    &&& s.province_id == i64_member_of(av, "Kode_Provi"@)
    &&& opt_text_is(s.provinsi, string_member_of(av, "Provinsi"@))
    &&& s.positif == i64_member_of(av, "Kasus_Posi"@)
    &&& s.sembuh == i64_member_of(av, "Kasus_Semb"@)
    &&& s.meninggal == i64_member_of(av, "Kasus_Meni"@)
    &&& s.day == i64_member_of(av, "Hari_ke"@)
    &&& s.new_cases_per_day == i64_member_of(av, "Jumlah_Kasus_Baru_per_Hari"@)
    &&& s.cumulative_cases == i64_member_of(av, "Jumlah_Kasus_Kumulatif"@)
    &&& s.under_investigation == i64_member_of(av, "Kasus_Sedang_Investigasi_Lapangan"@)
    &&& s.under_treatment == i64_member_of(av, "Jumlah_pasien_dalam_perawatan"@)
    &&& s.under_treatment_per_day == i64_member_of(av, "Jumlah_Kasus_Dirawat_per_Hari"@)
    &&& opt_text_is(
        s.under_treatment_percentage,
        number_member_of(av, "Persentase_Pasien_dalam_Perawatan"@),
    )
    &&& s.recovered == i64_member_of(av, "Jumlah_Pasien_Sembuh"@)
    &&& s.recovered_per_day == i64_member_of(av, "Jumlah_Kasus_Sembuh_per_Hari"@)
    &&& opt_text_is(s.recovered_percentage, number_member_of(av, "Persentase_Pasien_Sembuh"@))
    &&& s.deaths == i64_member_of(av, "Jumlah_Pasien_Meninggal"@)
    &&& s.deaths_per_day == i64_member_of(av, "Jumlah_Kasus_Meninggal_per_Hari"@)
    &&& opt_text_is(s.deaths_percentage, number_member_of(av, "Persentase_Pasien_Meninggal"@))
    &&& s.date matches Some(d) && d@ == converted_timestamp(
        i64_member_of(av, "Tanggal"@),
        now_ms,
    )
    &&& s.latest_update matches Some(u) && u@ == converted_timestamp(
        i64_member_of(av, "Pembaruan_Terakhir"@),
        now_ms,
    )
}

/// Normalization composed with the attributes reading: a record built
/// from attributes that match a model matches the model itself.
pub proof fn lemma_normalized_matches_model(
    s: IndoCovidStats,
    a: Attributes,
    av: JsonValue,
    now_ms: int,
)
    requires
        normalized_from(s, a, now_ms),
        attributes_matches(a, av),
    ensures
        stats_matches_model(s, av, now_ms),
{
}

/// One batch entry holds exactly what the feature object `fv` yields: an
/// absent entry for a missing or null attributes member, a normalized
/// record otherwise.
pub open spec fn record_matches_feature_model(
    e: Option<IndoCovidStats>,
    fv: JsonValue,
    now_ms: int,
) -> bool {
    match obj_member(fv, "attributes"@) {
        None => e is None,
        Some(x) => if x is Null {
            e is None
        } else {
            e matches Some(s) && stats_matches_model(s, x, now_ms)
        },
    }
}

/// The batch holds one entry per feature of the list, in order: a
/// normalized record where the feature has attributes, an absent entry
/// where it does not.
pub open spec fn batch_of_features(
    entries: Seq<Option<IndoCovidStats>>,
    fs: Seq<Feature>,
    now_ms: int,
) -> bool {
    &&& entries.len() == fs.len()
    &&& forall|i: int|
        #![trigger entries[i]]
        0 <= i < fs.len() ==> match fs[i].attributes {
            Some(a) => entries[i] matches Some(s) && normalized_from(s, a, now_ms),
            None => entries[i] is None,
        }
}

/// The batch holds one entry per feature of the document's `features`
/// member, in order; a missing or null member yields the empty batch.
pub open spec fn batch_matches_model(dv: DataProvinsiOptVec, v: JsonValue, now_ms: int) -> bool {
    match obj_member(v, "features"@) {
        None => dv.provinsi_vec@.len() == 0,
        Some(x) => match x {
            JsonValue::Null => dv.provinsi_vec@.len() == 0,
            JsonValue::Arr(a) => dv.provinsi_vec@.len() == a@.len() && forall|i: int|
                0 <= i < a@.len() ==> record_matches_feature_model(
                    #[trigger] dv.provinsi_vec@[i],
                    a@[i],
                    now_ms,
                ),
            _ => false,
        },
    }
}

/// The composite cumulative-statistics record.
#[derive(Debug, Clone)]
pub struct CovidStatistics {
    pub total_cases: Option<i64>,
    pub deaths: Option<i64>,
    pub recovered: Option<i64>,
    pub pdp: Option<i64>,
    pub created: Option<String>,
}

impl CovidStatistics {
    /// Builds the composite record from its four scalar sums and a
    /// creation date.
    pub fn new(
        total_cases: Option<i64>,
        deaths: Option<i64>,
        recovered: Option<i64>,
        pdp: Option<i64>,
        date: Option<String>,
    ) -> (r: CovidStatistics)
        ensures
            r.total_cases == total_cases,
            r.deaths == deaths,
            r.recovered == recovered,
            r.pdp == pdp,
            r.created == date,
    {
        CovidStatistics { total_cases, deaths, recovered, pdp, created: date }
    }
}

} // verus!
