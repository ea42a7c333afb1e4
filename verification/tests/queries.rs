use inacovid::endpoints::{
    daily_request_url_at, make_base_querystring, province_request_url_at, set_json_filename_at,
};
use inacovid::errors::InaError;
use inacovid::helpers::{
    create_statistics_query, ep_val, where_val, where_val_at, Endpoint, QueryParams, WhereQueries,
};
use inacovid::urls::make_request_url;

const NOON: i64 = 1584792000000; // 2020-03-21 12:00:00 UTC, after the cutoff
const EARLY: i64 = 1584766800000; // 2020-03-21 05:00:00 UTC, before the cutoff

#[test]
fn endpoint_urls() {
    assert_eq!(
        ep_val(Endpoint::Perprov).as_str(),
        "https://services5.arcgis.com/VS6HdKS0VfIhv8Ct/arcgis/rest/services/COVID19_Indonesia_per_Provinsi/FeatureServer/0/query"
    );
    assert_eq!(
        ep_val(Endpoint::Perkembangan).as_str(),
        "https://services5.arcgis.com/VS6HdKS0VfIhv8Ct/arcgis/rest/services/Statistik_Perkembangan_COVID19_Indonesia/FeatureServer/0/query"
    );
}

#[test]
fn statistics_query_descriptor() {
    assert_eq!(
        create_statistics_query("Jumlah_Kasus_Kumulatif").as_str(),
        "[{\"statisticType\":\"sum\",\"onStatisticField\":\"Jumlah_Kasus_Kumulatif\",\"outStatisticFieldName\":\"value\"}]"
    );
}

#[test]
fn static_where_clauses() {
    assert_eq!(where_val_at(WhereQueries::All, NOON).as_str(), "1=1");
    assert_eq!(where_val_at(WhereQueries::Confirmed, NOON).as_str(), "(Confirmed > 0)");
    assert_eq!(
        where_val_at(WhereQueries::Deaths, NOON).as_str(),
        "(Confirmed > 0) AND (Deaths > 0)"
    );
    assert_eq!(
        where_val_at(WhereQueries::Recovered, NOON).as_str(),
        "(Confirmed > 0) AND (Recovered <> 0)"
    );
    assert_eq!(
        where_val_at(WhereQueries::Indonesia, NOON).as_str(),
        "(Provinsi = 'Indonesia') OR (Provinsi <> 'Indonesia')"
    );
}

#[test]
fn before_today_filter_follows_the_cutoff() {
    assert_eq!(
        where_val_at(WhereQueries::BeforeToday(0), NOON).as_str(),
        "Tanggal<timestamp '2020-03-21 17:00:00'"
    );
    assert_eq!(
        where_val_at(WhereQueries::BeforeToday(0), EARLY).as_str(),
        "Tanggal<timestamp '2020-03-20 17:00:00'"
    );
}

#[test]
fn current_date_filter_keeps_its_documented_shape() {
    // Characterization: the trailing OR clause is redundant but preserved.
    assert_eq!(
        where_val_at(WhereQueries::CurrentDate(0), NOON).as_str(),
        "(Tanggal>=timestamp '2020-03-21 17:00:00' AND Tanggal<=timestamp '2020-03-22 16:59:59' OR Tanggal>=timestamp '2020-03-20 16:59:59')"
    );
}

#[test]
fn query_params_renders_the_base_set_in_order() {
    let qp = QueryParams::new();
    assert_eq!(
        qp.query_params_at(NOON).as_str(),
        "f=json&where=1%3D1&returnGeometry=false&spatialRel=esriSpatialRelIntersects&outFields=*&cacheHint=true"
    );
}

#[test]
fn add_queries_appends_in_caller_order_without_dedup() {
    let qp = make_base_querystring(WhereQueries::All);
    let q = qp.add_queries_at(vec![("resultOffset", "0"), ("f", "html")], NOON);
    assert_eq!(
        q.as_str(),
        "f=json&where=1%3D1&returnGeometry=false&spatialRel=esriSpatialRelIntersects&outFields=*&cacheHint=true&resultOffset=0&f=html"
    );
}

#[test]
fn where_clause_is_percent_encoded_in_the_query() {
    let qp = make_base_querystring(WhereQueries::BeforeToday(0));
    let q = qp.query_params_at(NOON);
    assert_eq!(
        q.as_str(),
        "f=json&where=Tanggal%3Ctimestamp%20'2020-03-21%2017:00:00'&returnGeometry=false&spatialRel=esriSpatialRelIntersects&outFields=*&cacheHint=true"
    );
}

#[test]
fn request_url_assembly() {
    let u = make_request_url("https://example.com/api/query", "f=json&where=1%3D1").unwrap();
    assert_eq!(u.as_str(), "https://example.com/api/query?f=json&where=1%3D1");
}

#[test]
fn invalid_endpoint_is_rejected() {
    let r = make_request_url("not a url", "f=json");
    assert_eq!(r.unwrap_err(), InaError::InvalidEndpoint);
}

#[test]
fn daily_and_province_request_urls() {
    let daily = daily_request_url_at(NOON).unwrap();
    assert_eq!(
        daily.as_str(),
        "https://services5.arcgis.com/VS6HdKS0VfIhv8Ct/arcgis/rest/services/Statistik_Perkembangan_COVID19_Indonesia/FeatureServer/0/query?f=json&where=Tanggal%3Ctimestamp%20%272020-03-21%2017:00:00%27&returnGeometry=false&spatialRel=esriSpatialRelIntersects&outFields=*&cacheHint=true&orderByFields=Tanggal%20asc&resultRecordCount=2000&resultOffset=0"
    );
    let prov = province_request_url_at(NOON).unwrap();
    assert!(prov.as_str().starts_with(
        "https://services5.arcgis.com/VS6HdKS0VfIhv8Ct/arcgis/rest/services/COVID19_Indonesia_per_Provinsi/FeatureServer/0/query?f=json&where=1%3D1&"
    ));
    assert!(prov.as_str().ends_with("&orderByFields=Kasus_Posi%20desc&resultRecordCount=2000&resultOffset=0"));
}

#[test]
fn where_val_reads_the_clock_for_static_clauses_too() {
    assert_eq!(where_val(WhereQueries::All).as_str(), "1=1");
    let filter = where_val(WhereQueries::BeforeToday(0));
    assert!(filter.as_str().starts_with("Tanggal<timestamp '"));
    assert!(filter.as_str().ends_with(" 17:00:00'"));
}

#[test]
fn snapshot_filename_carries_the_reporting_date() {
    let name = set_json_filename_at("/tmp/out/", "daily", NOON);
    assert_eq!(name.as_str(), "/tmp/out/daily-2020-03-21.json");
}
