use inacovid::endpoints::{
    combine_cumulative_at, cumulative_stats_from_bodies_at, get_ina_covid_vec_at,
    process_collection_body_at,
};
use inacovid::errors::InaError;
use inacovid::models::{parse_feature_collection, Attributes, IndoCovidStats};
use inacovid::persist::{insert_cumulative, insert_daily_batch, insert_province_batch, UpsertTable};

const NOON: i64 = 1584792000000; // 2020-03-21 12:00:00 UTC

fn empty_attributes() -> Attributes {
    Attributes {
        fid: None,
        kode_provi: None,
        provinsi: None,
        kasus_posi: None,
        kasus_semb: None,
        kasus_meni: None,
        value: None,
        hari_ke: None,
        tanggal: None,
        jumlah_kasus_baru_per_hari: None,
        jumlah_kasus_kumulatif: None,
        jumlah_pasien_dalam_perawatan: None,
        persentase_pasien_dalam_perawatan: None,
        jumlah_pasien_sembuh: None,
        persentase_pasien_sembuh: None,
        jumlah_pasien_meninggal: None,
        persentase_pasien_meninggal: None,
        jumlah_kasus_sembuh_per_hari: None,
        jumlah_kasus_meninggal_per_hari: None,
        jumlah_kasus_dirawat_per_hari: None,
        kasus_sedang_investigasi_lapangan: None,
        pembaruan_terakhir: None,
    }
}

#[test]
fn normalization_keeps_absent_fields_absent() {
    let s = IndoCovidStats::new_at(empty_attributes(), NOON);
    assert_eq!(s.province_id, None);
    assert_eq!(s.provinsi, None);
    assert_eq!(s.positif, None);
    assert_eq!(s.sembuh, None);
    assert_eq!(s.meninggal, None);
    assert_eq!(s.day, None);
    assert_eq!(s.new_cases_per_day, None);
    assert_eq!(s.cumulative_cases, None);
    assert_eq!(s.under_investigation, None);
    assert_eq!(s.under_treatment, None);
    assert_eq!(s.under_treatment_per_day, None);
    assert_eq!(s.under_treatment_percentage, None);
    assert_eq!(s.recovered, None);
    assert_eq!(s.recovered_per_day, None);
    assert_eq!(s.recovered_percentage, None);
    assert_eq!(s.deaths, None);
    assert_eq!(s.deaths_per_day, None);
    assert_eq!(s.deaths_percentage, None);
    // Only the two timestamps are synthesized, defaulting to "now" in UTC.
    assert_eq!(s.date.as_deref(), Some("2020-03-21 12:00:00"));
    assert_eq!(s.latest_update.as_deref(), Some("2020-03-21 12:00:00"));
}

#[test]
fn normalization_projects_present_fields() {
    let mut a = empty_attributes();
    a.kode_provi = Some(31);
    a.provinsi = Some("DKI Jakarta".to_string());
    a.kasus_posi = Some(515);
    a.kasus_semb = Some(29);
    a.kasus_meni = Some(43);
    a.hari_ke = Some(19);
    a.tanggal = Some(1100000000123);
    a.jumlah_kasus_kumulatif = Some(450);
    a.persentase_pasien_sembuh = Some("5.5".to_string());
    let s = IndoCovidStats::new_at(a, NOON);
    assert_eq!(s.province_id, Some(31));
    assert_eq!(s.provinsi.as_deref(), Some("DKI Jakarta"));
    assert_eq!(s.positif, Some(515));
    assert_eq!(s.sembuh, Some(29));
    assert_eq!(s.meninggal, Some(43));
    assert_eq!(s.day, Some(19));
    assert_eq!(s.cumulative_cases, Some(450));
    assert_eq!(s.recovered_percentage.as_deref(), Some("5.5"));
    assert_eq!(s.date.as_deref(), Some("2004-11-09 11:33:20"));
    assert_eq!(s.latest_update.as_deref(), Some("2020-03-21 12:00:00"));
}

const TWO_FEATURE_BODY: &str = r#"{
  "objectIdFieldName": "FID",
  "features": [
    {"attributes": {"Hari_ke": 1, "Tanggal": 1584748800000, "Jumlah_Kasus_Kumulatif": 10,
                    "Persentase_Pasien_Sembuh": 12.5, "Pembaruan_Terakhir": 1584792000000}},
    {"attributes": {"Hari_ke": 2, "Tanggal": 1584835200000, "Jumlah_Kasus_Kumulatif": 25,
                    "Pembaruan_Terakhir": 1584792000000}}
  ]
}"#;

#[test]
fn daily_payload_produces_one_row_per_feature() {
    let batch = process_collection_body_at(TWO_FEATURE_BODY, NOON).unwrap();
    assert_eq!(batch.provinsi_vec.len(), 2);
    let first = batch.provinsi_vec[0].as_ref().unwrap();
    assert_eq!(first.day, Some(1));
    assert_eq!(first.cumulative_cases, Some(10));
    assert_eq!(first.recovered_percentage.as_deref(), Some("12.5"));
    assert_eq!(first.date.as_deref(), Some("2020-03-21 00:00:00"));
    let second = batch.provinsi_vec[1].as_ref().unwrap();
    assert_eq!(second.day, Some(2));
    assert_eq!(second.date.as_deref(), Some("2020-03-22 00:00:00"));

    // Persisting the batch yields exactly the two natural keys, in order.
    let mut table: UpsertTable<IndoCovidStats> = UpsertTable::new();
    insert_daily_batch(&mut table, batch);
    assert_eq!(table.rows.len(), 2);
    assert_eq!(table.rows[0].key.as_str(), "2020-03-21 00:00:00");
    assert_eq!(table.rows[1].key.as_str(), "2020-03-22 00:00:00");
    assert!(!table.rows[0].existed && !table.rows[1].existed);
}

#[test]
fn null_or_absent_features_are_empty_not_an_error() {
    for body in [r#"{"features": null}"#, r#"{"objectIdFieldName": "FID"}"#] {
        let parsed = parse_feature_collection(body).unwrap();
        let batch = get_ina_covid_vec_at(parsed, NOON);
        assert_eq!(batch.provinsi_vec.len(), 0);
        let mut table: UpsertTable<IndoCovidStats> = UpsertTable::new();
        insert_daily_batch(&mut table, batch);
        assert_eq!(table.rows.len(), 0);
    }
}

#[test]
fn malformed_bodies_are_rejected() {
    assert_eq!(
        process_collection_body_at("not json", NOON).unwrap_err(),
        InaError::MalformedResponse
    );
    assert_eq!(
        process_collection_body_at(r#"{"features": 7}"#, NOON).unwrap_err(),
        InaError::MalformedResponse
    );
    assert_eq!(
        process_collection_body_at(r#"{"features": [{"attributes": {"Hari_ke": "x"}}]}"#, NOON)
            .unwrap_err(),
        InaError::MalformedResponse
    );
}

fn stat_body(value: i64) -> String {
    format!(r#"{{"features": [{{"attributes": {{"value": {}}}}}]}}"#, value)
}

#[test]
fn cumulative_values_combine_by_submission_position() {
    let bodies = vec![
        Some(stat_body(11)),
        Some(stat_body(22)),
        Some(stat_body(33)),
        Some(stat_body(44)),
    ];
    let c = cumulative_stats_from_bodies_at(bodies, NOON).unwrap();
    // Submission order is deaths, recovered, under treatment, cumulative.
    assert_eq!(c.deaths, Some(11));
    assert_eq!(c.recovered, Some(22));
    assert_eq!(c.pdp, Some(33));
    assert_eq!(c.total_cases, Some(44));
    assert_eq!(c.created.as_deref(), Some("2020-03-21"));
}

#[test]
fn completion_order_cannot_reorder_the_combination() {
    // The same four results handed over in a different submission order
    // land in different fields: the mapping is positional, not by value.
    let swapped = vec![
        Some(stat_body(44)),
        Some(stat_body(33)),
        Some(stat_body(22)),
        Some(stat_body(11)),
    ];
    let c = cumulative_stats_from_bodies_at(swapped, NOON).unwrap();
    assert_eq!(c.deaths, Some(44));
    assert_eq!(c.total_cases, Some(11));
}

#[test]
fn combine_is_positional_on_plain_values() {
    let c = combine_cumulative_at(vec![Some(1), None, Some(3), Some(4)], NOON);
    assert_eq!(c.deaths, Some(1));
    assert_eq!(c.recovered, None);
    assert_eq!(c.pdp, Some(3));
    assert_eq!(c.total_cases, Some(4));
}

#[test]
fn missing_nested_path_is_unset_not_fatal() {
    let bodies = vec![
        Some(stat_body(5)),
        Some(r#"{"features": []}"#.to_string()),
        Some(r#"{}"#.to_string()),
        Some(stat_body(8)),
    ];
    let c = cumulative_stats_from_bodies_at(bodies, NOON).unwrap();
    assert_eq!(c.deaths, Some(5));
    assert_eq!(c.recovered, None);
    assert_eq!(c.pdp, None);
    assert_eq!(c.total_cases, Some(8));
}

#[test]
fn any_failed_subfetch_aborts_the_aggregation() {
    let with_missing = vec![Some(stat_body(1)), None, Some(stat_body(3)), Some(stat_body(4))];
    assert_eq!(
        cumulative_stats_from_bodies_at(with_missing, NOON).unwrap_err(),
        InaError::AggregationFailure
    );
    let with_bad_json = vec![
        Some(stat_body(1)),
        Some("nope".to_string()),
        Some(stat_body(3)),
        Some(stat_body(4)),
    ];
    assert_eq!(
        cumulative_stats_from_bodies_at(with_bad_json, NOON).unwrap_err(),
        InaError::AggregationFailure
    );
}

#[test]
fn upsert_is_first_write_wins() {
    let mut table: UpsertTable<IndoCovidStats> = UpsertTable::new();
    let mut first = IndoCovidStats::new_at(empty_attributes(), NOON);
    first.date = Some("2020-03-21 00:00:00".to_string());
    first.cumulative_cases = Some(10);
    let mut second = first.clone();
    second.cumulative_cases = Some(99);
    table.upsert("2020-03-21 00:00:00".to_string(), first);
    table.upsert("2020-03-21 00:00:00".to_string(), second);
    assert_eq!(table.rows.len(), 1);
    assert_eq!(table.rows[0].value.cumulative_cases, Some(10));
    assert!(table.rows[0].existed);
}

#[test]
fn daily_batch_applied_twice_keeps_one_row_per_key() {
    let batch1 = process_collection_body_at(TWO_FEATURE_BODY, NOON).unwrap();
    let batch2 = process_collection_body_at(TWO_FEATURE_BODY, NOON).unwrap();
    let mut table: UpsertTable<IndoCovidStats> = UpsertTable::new();
    insert_daily_batch(&mut table, batch1);
    insert_daily_batch(&mut table, batch2);
    assert_eq!(table.rows.len(), 2);
    assert_eq!(table.rows[0].value.cumulative_cases, Some(10));
    assert!(table.rows[0].existed && table.rows[1].existed);
}

#[test]
fn province_key_is_province_and_ten_char_date() {
    let mut a = empty_attributes();
    a.provinsi = Some("Jawa Barat".to_string());
    a.tanggal = Some(1584748800000);
    let s = IndoCovidStats::new_at(a, NOON);
    let batch = inacovid::models::DataProvinsiOptVec { provinsi_vec: vec![Some(s)] };
    let mut table: UpsertTable<IndoCovidStats> = UpsertTable::new();
    insert_province_batch(&mut table, batch);
    assert_eq!(table.rows.len(), 1);
    assert_eq!(table.rows[0].key.as_str(), "Jawa Barat_2020-03-21");
}

#[test]
fn province_batch_skips_records_without_core_payload() {
    let no_province = IndoCovidStats::new_at(empty_attributes(), NOON);
    let batch = inacovid::models::DataProvinsiOptVec { provinsi_vec: vec![Some(no_province), None] };
    let mut table: UpsertTable<IndoCovidStats> = UpsertTable::new();
    insert_province_batch(&mut table, batch);
    assert_eq!(table.rows.len(), 0);
}

#[test]
fn cumulative_upsert_is_keyed_by_creation_date() {
    let c1 = combine_cumulative_at(vec![Some(1), Some(2), Some(3), Some(4)], NOON);
    let c2 = combine_cumulative_at(vec![Some(9), Some(9), Some(9), Some(9)], NOON);
    let mut table = UpsertTable::new();
    insert_cumulative(&mut table, c1);
    insert_cumulative(&mut table, c2);
    assert_eq!(table.rows.len(), 1);
    assert_eq!(table.rows[0].key.as_str(), "2020-03-21");
    assert_eq!(table.rows[0].value.total_cases, Some(4));
    assert!(table.rows[0].existed);
}

#[test]
fn envelope_metadata_is_parsed() {
    let body = r#"{"objectIdFieldName": "FID",
                   "uniqueIdField": {"name": "FID", "isSystemMaintained": true},
                   "geometryType": "esriGeometryPoint",
                   "spatialReference": {"wkid": 4326, "latestWkid": 4326},
                   "fields": [{"name": "FID", "type": "esriFieldTypeOID", "alias": "FID",
                               "sqlType": "sqlTypeOther", "domain": null,
                               "defaultValue": null, "length": 7}],
                   "features": null}"#;
    let ic = parse_feature_collection(body).unwrap();
    assert_eq!(ic.object_id_field_name.as_deref(), Some("FID"));
    let u = ic.unique_id_field.unwrap();
    assert_eq!(u.name.as_deref(), Some("FID"));
    assert_eq!(u.is_system_maintained, Some(true));
    let sr = ic.spatial_reference.unwrap();
    assert_eq!(sr.wkid, Some(4326));
    assert_eq!(sr.latest_wkid, Some(4326));
    let fields = ic.fields.unwrap();
    assert_eq!(fields.len(), 1);
    assert_eq!(fields[0].name.as_deref(), Some("FID"));
    assert!(fields[0].domain.is_none());
    assert_eq!(fields[0].length, Some(7));
    assert!(ic.features.is_none());
}

#[test]
fn wrong_typed_envelope_members_are_rejected() {
    assert_eq!(
        parse_feature_collection(r#"{"uniqueIdField": 3}"#).unwrap_err(),
        InaError::MalformedResponse
    );
    assert_eq!(
        parse_feature_collection(r#"{"fields": "x"}"#).unwrap_err(),
        InaError::MalformedResponse
    );
    assert_eq!(parse_feature_collection("[1, 2]").unwrap_err(), InaError::MalformedResponse);
}
